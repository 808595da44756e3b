//! The `data:` URI synthesized for a browser-style download.
//!
//! A byte payload becomes `data:<mime-type>[;base64],<payload>`: for
//! UTF-8-decodable contents the mime type is `text/plain` and the payload
//! is the percent-encoded bytes; for anything else the mime type is
//! `application/octet-stream` and the payload is the base64-encoded bytes.

use vstd::prelude::*;
use vstd::string::StringExecFns;
use vstd::utf8::valid_utf8;
use base64::Engine;
use crate::openfile::decoded_text;

verus! {

/// Whether the byte is an ASCII letter or digit, the only bytes the
/// percent-encoding of the payload passes through unchanged.
pub open spec fn is_ascii_alnum(b: u8) -> bool {
    (0x30 <= b <= 0x39) || (0x41 <= b <= 0x5a) || (0x61 <= b <= 0x7a)
}

/// The uppercase hexadecimal digit for a value below sixteen.
pub open spec fn hex_digit(n: u8) -> char {
    if n == 0 {
        '0'
    } else if n == 1 {
        '1'
    } else if n == 2 {
        '2'
    } else if n == 3 {
        '3'
    } else if n == 4 {
        '4'
    } else if n == 5 {
        '5'
    } else if n == 6 {
        '6'
    } else if n == 7 {
        '7'
    } else if n == 8 {
        '8'
    } else if n == 9 {
        '9'
    } else if n == 10 {
        'A'
    } else if n == 11 {
        'B'
    } else if n == 12 {
        'C'
    } else if n == 13 {
        'D'
    } else if n == 14 {
        'E'
    } else {
        'F'
    }
}

/// The percent-encoding of one byte: the byte itself when it is an ASCII
/// letter or digit, otherwise a percent sign and its two uppercase
/// hexadecimal digits.
pub open spec fn percent_enc_byte(b: u8) -> Seq<char> {
    if is_ascii_alnum(b) {
        seq![b as char]
    } else {
        seq!['%', hex_digit(b / 16), hex_digit(b % 16)]
    }
}

/// The percent-encoding of a byte sequence, byte by byte.
pub open spec fn percent_enc(b: Seq<u8>) -> Seq<char>
    decreases b.len(),
{
    if b.len() == 0 {
        Seq::<char>::empty()
    } else {
        percent_enc_byte(b[0]) + percent_enc(b.drop_first())
    }
}

/// Relies on `percent_encoding::percent_encode` with the
/// `NON_ALPHANUMERIC` set: every byte that is not an ASCII letter or digit
/// (controls, punctuation and all non-ASCII bytes) becomes a percent sign
/// and two uppercase hexadecimal digits; the rest pass through.
#[verifier::external_body]
fn percent_encode_all(b: &Vec<u8>) -> (r: String)
    ensures
        r@ == percent_enc(b@),
{
    percent_encoding::percent_encode(b.as_slice(), percent_encoding::NON_ALPHANUMERIC).collect()
}

/// The base64 text that the URL-safe encoding gives for a byte sequence.
pub uninterp spec fn base64_url_of(b: Seq<u8>) -> Seq<char>;

/// Relies on `base64::engine::general_purpose::URL_SAFE.encode`: the
/// result depends on the bytes alone, and the padded encoding writes four
/// characters for every started group of three bytes.
#[verifier::external_body]
fn base64_encode(b: &Vec<u8>) -> (r: String)
    requires
        b@.len() <= (usize::MAX / 4 - 1) * 3,
    ensures
        r@ == base64_url_of(b@),
        r@.len() == 4 * ((b@.len() + 2) / 3),
{
    base64::engine::general_purpose::URL_SAFE.encode(b.as_slice())
}

/// The whole `data:` URI for a byte payload.
pub open spec fn data_uri_spec(b: Seq<u8>) -> Seq<char> {
    if valid_utf8(b) {
        "data:text/plain,"@ + percent_enc(b)
    } else {
        "data:application/octet-stream;base64,"@ + base64_url_of(b)
    }
}

/// Synthesize the `data:` URI under which a browser download offers the
/// given payload: percent-encoded `text/plain` for UTF-8-decodable
/// contents, base64-encoded `application/octet-stream` otherwise.
pub fn data_uri_for(contents: &Vec<u8>) -> (r: String)
    requires
        contents@.len() <= (usize::MAX / 4 - 1) * 3,
    ensures
        r@ == data_uri_spec(contents@),
{
    let is_text = decoded_text(contents).is_some();
    if is_text {
        let mut r = String::from_str("data:text/plain,");
        let payload = percent_encode_all(contents);
        r.append(payload.as_str());
        r
    } else {
        let mut r = String::from_str("data:application/octet-stream;base64,");
        let payload = base64_encode(contents);
        r.append(payload.as_str());
        r
    }
}

/// Synthesize the `data:` URI when the payload is small enough for the
/// base64 output length to be representable at all; `None` for a payload
/// too large for any encoding buffer.
pub fn try_data_uri_for(contents: &Vec<u8>) -> (r: Option<String>)
    ensures
        contents@.len() <= (usize::MAX / 4 - 1) * 3 ==> (r matches Some(s) && s@
            == data_uri_spec(contents@)),
        contents@.len() > (usize::MAX / 4 - 1) * 3 ==> r is None,
{
    proof {
        assert((usize::MAX / 4 - 1) * 3 <= usize::MAX);
    }
    let bound: usize = (usize::MAX / 4 - 1) * 3;
    if contents.len() <= bound {
        Some(data_uri_for(contents))
    } else {
        None
    }
}

} // verus!
