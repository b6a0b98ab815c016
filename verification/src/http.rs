//! The HTTP vocabulary that the crate takes from `reqwest`: which text a
//! header value may hold, and how a status code is written out.

use vstd::prelude::*;

verus! {

#[verifier::external_type_specification]
#[verifier::external_body]
pub struct ExTransportError(reqwest::Error);

/// Whether a header value may hold `c`: anything but the ASCII control
/// characters, of which only the tab is let through.
pub open spec fn header_char(c: char) -> bool {
    (c as u32 >= 32 && c as u32 != 127) || c == '\t'
}

/// Whether `text` can be sent as a header value.
pub open spec fn header_text(text: Seq<char>) -> bool {
    forall|i: int| 0 <= i < text.len() ==> header_char(#[trigger] text[i])
}

/// How `reqwest` writes out the status code `code`: the number, a space and
/// the reason phrase registered for it. Meaningful for 100 to 999.
pub uninterp spec fn status_line(code: u16) -> Seq<char>;

/// `reqwest::header::HeaderValue::from_str`, asked only whether it accepts.
/// Trusted: it refuses a string exactly when one of its bytes is an ASCII
/// control character other than the tab; the bytes of a character beyond
/// ASCII are all 128 or more and pass.
#[verifier::external_body]
pub(crate) fn header_value_accepts(value: &str) -> (accepted: bool)
    ensures
        accepted == header_text(value@),
{
    reqwest::header::HeaderValue::from_str(value).is_ok()
}

/// `reqwest::StatusCode::from_u16` followed by the status code's `to_string`.
/// Trusted: a status code exists for 100 to 999 and for no other number, and
/// its text depends on the number alone.
#[verifier::external_body]
pub(crate) fn render_status(code: u16) -> (line: Option<String>)
    ensures
        line is Some <==> 100 <= code <= 999,
        line matches Some(text) ==> text@ == status_line(code),
{
    match reqwest::StatusCode::from_u16(code) {
        Ok(status) => Some(status.to_string()),
        Err(_) => None,
    }
}

} // verus!
