//! The texts produced by the file-open flow.
//!
//! The dialog and the read happen in background work outside this crate;
//! whatever their outcome, the text delivered back to the event loop is
//! computed here: the first line of a text file, a notice naming a file
//! that is not text, or a notice that no file was chosen.

use vstd::prelude::*;
use vstd::string::StrSliceExecFns;
use vstd::string::StringExecFns;
use vstd::utf8::decode_utf8;
use vstd::utf8::valid_utf8;

verus! {

/// A file chosen in the open dialog: its raw contents and its own name
/// (not its path).
pub struct ChosenFile {
    pub bytes: Vec<u8>,
    pub name: String,
}

/// The index of the first line break in the text, or the text's length
/// when it has none.
pub open spec fn line_break_at(s: Seq<char>) -> int
    decreases s.len(),
{
    if s.len() == 0 {
        0
    } else if s[0] == '\n' {
        0
    } else {
        1 + line_break_at(s.drop_first())
    }
}

/// The first line of the text: everything before the first line break,
/// without a carriage return standing directly before that break.
pub open spec fn first_line_of(s: Seq<char>) -> Seq<char> {
    let head = s.take(line_break_at(s));
    if line_break_at(s) < s.len() && head.len() > 0 && head.last() == '\r' {
        head.drop_last()
    } else {
        head
    }
}

proof fn lemma_line_break_at(s: Seq<char>)
    ensures
        0 <= line_break_at(s) <= s.len(),
        line_break_at(s) < s.len() ==> s[line_break_at(s)] == '\n',
        forall|j: int| 0 <= j < line_break_at(s) ==> s[j] != '\n',
    decreases s.len(),
{
    if s.len() == 0 {
    } else if s[0] == '\n' {
    } else {
        lemma_line_break_at(s.drop_first());
        assert forall|j: int| 0 <= j < line_break_at(s) implies s[j] != '\n' by {
            if j > 0 {
                assert(s.drop_first()[j - 1] == s[j]);
            }
        }
    }
}

/// Find the index of the first line break, or the text's length when it
/// has none.
fn line_break_index(s: &str) -> (i: usize)
    ensures
        i == line_break_at(s@),
{
    proof {
        lemma_line_break_at(s@);
    }
    let n = s.unicode_len();
    let mut i: usize = 0;
    loop
        invariant
            n == s@.len(),
            0 <= i <= n,
            forall|j: int| 0 <= j < i ==> s@[j] != '\n',
        ensures
            0 <= i <= n,
            forall|j: int| 0 <= j < i ==> s@[j] != '\n',
            i < n ==> s@[i as int] == '\n',
        decreases n - i,
    {
        if i == n {
            break;
        }
        if s.get_char(i) == '\n' {
            break;
        }
        i += 1;
    }
    proof {
        let lb = line_break_at(s@);
        if i < lb {
            assert(s@[i as int] != '\n');
            assert(false);
        }
        if lb < i {
            assert(s@[lb] != '\n');
            assert(false);
        }
    }
    i
}

/// The first line of the given text, exactly as displayed: no trailing
/// line break, and no trailing carriage return that preceded one.
pub fn first_line(s: &str) -> (r: &str)
    ensures
        r@ == first_line_of(s@),
{
    let n = s.unicode_len();
    let i = line_break_index(s);
    proof {
        lemma_line_break_at(s@);
    }
    let head = s.substring_char(0, i);
    proof {
        assert(head@ =~= s@.take(i as int));
    }
    if i < n && i > 0 {
        if head.get_char(i - 1) == '\r' {
            let trimmed = s.substring_char(0, i - 1);
            proof {
                assert(trimmed@ =~= s@.take(i as int).drop_last());
            }
            return trimmed;
        }
    }
    head
}

/// Relies on `String::from_utf8`: it returns `Ok` exactly when the bytes
/// are valid UTF-8, and the string then holds their decoding; validity and
/// decoding are the ones of vstd's UTF-8 model.
#[verifier::external_body]
pub(crate) fn decoded_text(bytes: &Vec<u8>) -> (r: Option<String>)
    ensures
        r is Some <==> valid_utf8(bytes@),
        r matches Some(s) ==> s@ == decode_utf8(bytes@),
{
    String::from_utf8(bytes.clone()).ok()
}

/// The event text announcing that a file's contents are not text.
pub open spec fn not_text_message(name: Seq<char>) -> Seq<char> {
    "File "@ + name + " is not a text file"@
}

/// The event text once a chosen file's decoding is known: the first line
/// of the decoded text, or the not-a-text-file notice naming the file.
pub open spec fn open_event_text(decoded: Option<String>, name: Seq<char>) -> Seq<char> {
    match decoded {
        Some(text) => first_line_of(text@),
        None => not_text_message(name),
    }
}

/// The event text for a chosen file's raw contents and name.
pub open spec fn chosen_file_text(bytes: Seq<u8>, name: Seq<char>) -> Seq<char> {
    if valid_utf8(bytes) {
        first_line_of(decode_utf8(bytes))
    } else {
        not_text_message(name)
    }
}

/// The event text for the whole outcome of the open dialog: the chosen
/// file's text, or the no-file notice when the dialog was dismissed.
pub open spec fn open_outcome_text_spec(outcome: Option<ChosenFile>) -> Seq<char> {
    match outcome {
        Some(f) => chosen_file_text(f.bytes@, f.name@),
        None => "No file chosen."@,
    }
}

/// Compute the event text for a file whose decoding already happened.
pub fn text_for_decoded(decoded: Option<String>, name: &str) -> (r: String)
    ensures
        r@ == open_event_text(decoded, name@),
{
    match decoded {
        Some(text) => {
            let line = first_line(text.as_str());
            line.to_owned()
        },
        None => {
            let mut m = String::from_str("File ");
            m.append(name);
            m.append(" is not a text file");
            proof {
                assert(m@ =~= not_text_message(name@));
            }
            m
        },
    }
}

/// Compute the event text delivered to the event loop for an open dialog's
/// outcome: the first line of a chosen text file, the not-a-text-file
/// notice (with the file's own name) for a chosen file that is not valid
/// UTF-8, and the no-file notice when the dialog was dismissed.
pub fn open_outcome_text(outcome: Option<ChosenFile>) -> (r: String)
    ensures
        r@ == open_outcome_text_spec(outcome),
{
    match outcome {
        Some(f) => {
            let ChosenFile { bytes, name } = f;
            let decoded = decoded_text(&bytes);
            text_for_decoded(decoded, name.as_str())
        },
        None => String::from_str("No file chosen."),
    }
}

} // verus!
