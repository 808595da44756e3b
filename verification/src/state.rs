//! Application state and the message rules.
//!
//! The state consists of the displayed message (absent when no message is
//! shown) and a flag for the quit notice shown on platforms that cannot
//! terminate their own process. Background work never touches this state:
//! it is mutated only inside the event loop's dispatch step.

use vstd::prelude::*;
use vstd::string::StrSliceExecFns;
use vstd::string::StringExecFns;

verus! {

/// The mutable state owned by the event loop: the displayed message and the
/// quit-notice flag.
pub struct AppState {
    pub message: Option<String>,
    pub show_quit: bool,
}

/// The text currently displayed: the message's characters, or the empty
/// sequence when no message is present.
pub open spec fn message_view(m: Option<String>) -> Seq<char> {
    match m {
        Some(s) => s@,
        None => Seq::<char>::empty(),
    }
}

/// The message text after a new line of text arrives: the new text alone if
/// the current text is empty, otherwise the current text, a line break, and
/// the new text.
pub open spec fn with_new_line(cur: Seq<char>, text: Seq<char>) -> Seq<char> {
    if cur.len() == 0 {
        text
    } else {
        cur + seq!['\n'] + text
    }
}

/// The message text after a whole sequence of texts has arrived, each
/// appended in order by `with_new_line`.
pub open spec fn lines_after(start: Seq<char>, texts: Seq<Seq<char>>) -> Seq<char>
    decreases texts.len(),
{
    if texts.len() == 0 {
        start
    } else {
        lines_after(with_new_line(start, texts[0]), texts.drop_first())
    }
}

/// The given texts, each preceded by a line break.
pub open spec fn tail_lines(texts: Seq<Seq<char>>) -> Seq<char>
    decreases texts.len(),
{
    if texts.len() == 0 {
        Seq::<char>::empty()
    } else {
        seq!['\n'] + texts[0] + tail_lines(texts.drop_first())
    }
}

/// The byte payload handed to the save routine: the UTF-8 encoding of the
/// displayed message, empty when no message is present.
pub open spec fn save_payload(m: Option<String>) -> Seq<u8> {
    vstd::utf8::encode_utf8(message_view(m))
}

impl AppState {
    /// Append newly arrived message content as an additional line,
    /// creating the message if absent and never prepending a separator to
    /// an empty message.
    pub fn append_line(&mut self, text: &str)
        ensures
            final(self).show_quit == old(self).show_quit,
            final(self).message is Some,
            message_view(final(self).message) == with_new_line(
                message_view(old(self).message),
                text@,
            ),
    {
        let cur_text: String = match &self.message {
            Some(s) => s.clone(),
            None => String::new(),
        };
        if cur_text.as_str().is_empty() {
            self.message = Some(text.to_owned());
        } else {
            let mut out = cur_text;
            out.append("\n");
            out.append(text);
            proof {
                reveal_strlit("\n");
                assert("\n"@ =~= seq!['\n']);
                assert(out@ =~= with_new_line(message_view(old(self).message), text@));
            }
            self.message = Some(out);
        }
    }

    /// Discard the displayed message.
    pub fn clear_message(&mut self)
        ensures
            final(self).message is None,
            final(self).show_quit == old(self).show_quit,
    {
        self.message = None;
    }
}

/// The state the application starts in: a short instructional message, and
/// no quit notice.
pub fn initial_state() -> (s: AppState)
    ensures
        s.show_quit == false,
        s.message is Some,
        message_view(s.message)
            == "The first line of the selected file will be appended to this string."@,
{
    AppState {
        message: Some(
            String::from_str("The first line of the selected file will be appended to this string."),
        ),
        show_quit: false,
    }
}

/// The bytes handed to the save routine for the current message: its UTF-8
/// encoding, and in particular a zero-length payload when no message is
/// present or the message is empty.
pub fn message_bytes(m: &Option<String>) -> (r: Vec<u8>)
    ensures
        r@ == save_payload(*m),
        message_view(*m).len() == 0 ==> r@.len() == 0,
    {
    proof {
        assert(vstd::utf8::encode_utf8(Seq::<char>::empty()) =~= Seq::<u8>::empty());
    }
    match m {
        Some(s) => s.as_str().as_bytes_vec(),
        None => Vec::new(),
    }
}

/// Law: a text appended to an empty or absent message is displayed exactly
/// as it arrived, with no leading blank line.
pub proof fn law_no_leading_blank_line(m: Option<String>, text: Seq<char>)
    requires
        message_view(m).len() == 0,
    ensures
        with_new_line(message_view(m), text) == text,
{
}

/// Law: once the message is non-empty, every later text lands on a line of
/// its own, after all prior lines, in arrival order.
pub proof fn law_lines_in_order(start: Seq<char>, texts: Seq<Seq<char>>)
    requires
        start.len() > 0,
    ensures
        lines_after(start, texts) == start + tail_lines(texts),
    decreases texts.len(),
{
    if texts.len() == 0 {
        assert(start + tail_lines(texts) =~= start);
    } else {
        let next = start + seq!['\n'] + texts[0];
        assert(with_new_line(start, texts[0]) == next);
        law_lines_in_order(next, texts.drop_first());
        assert(start + tail_lines(texts) =~= next + tail_lines(texts.drop_first()));
    }
}

/// Law: starting from an empty or absent message, a sequence of arriving
/// texts whose first text is non-empty ends with the first text on the
/// first line and each later text on a line of its own, in arrival order.
pub proof fn law_lines_from_empty(texts: Seq<Seq<char>>)
    requires
        texts.len() > 0,
        texts[0].len() > 0,
    ensures
        lines_after(Seq::<char>::empty(), texts)
            == texts[0] + tail_lines(texts.drop_first()),
{
    assert(with_new_line(Seq::<char>::empty(), texts[0]) == texts[0]);
    law_lines_in_order(texts[0], texts.drop_first());
}

} // verus!
