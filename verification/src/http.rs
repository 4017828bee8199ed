//! What the library knows of HTTP: requests as plain values, what a status
//! means, and what a header value may hold.

use reqwest::header::HeaderValue;
use reqwest::StatusCode;
use vstd::prelude::*;
use vstd::string::StringExecFns;

use crate::decimal::decimal_digits;
use crate::decimal::u64_to_decimal;

verus! {

/// The status with which the host turns away a caller that asks too often.
pub const TOO_MANY_REQUESTS: u16 = 429;

/// Whether `status` reports success.
pub open spec fn is_success(status: u16) -> bool {
    200 <= status < 300
}

/// Tells whether `status` reports success.
pub fn status_is_success(status: u16) -> (success: bool)
    ensures
        success == is_success(status),
{
    200 <= status && status < 300
}

/// One GET that the transport is to issue: the address and, in order, the
/// pairs of its query string.
#[derive(Debug)]
pub struct Request {
    pub url: String,
    pub query: Vec<(String, String)>,
}

/// A `Request` with its strings as sequences of characters.
pub struct RequestView {
    pub url: Seq<char>,
    pub query: Seq<(Seq<char>, Seq<char>)>,
}

impl View for Request {
    type V = RequestView;

    open spec fn view(&self) -> RequestView {
        RequestView { url: self.url@, query: self.query.deep_view() }
    }
}

/// Whether a header value may hold `c`: a tab, or anything that is neither
/// an ASCII control character nor DEL.
pub open spec fn header_char_ok(c: char) -> bool {
    c == '\t' || (c as int >= 32 && c as int != 127)
}

/// Whether `text` can be sent as the value of a header.
pub open spec fn header_text_ok(text: Seq<char>) -> bool {
    forall|i: int| 0 <= i < text.len() ==> header_char_ok(#[trigger] text[i])
}

/// Asks `reqwest::header::HeaderValue::from_str` whether it takes `text`.
///
/// Trusted: the answer is claimed to be yes exactly when every character of
/// `text` is a tab or lies outside the ASCII control range and is not DEL.
/// The outside function scans the bytes of the text for that; a character
/// beyond ASCII is encoded in bytes of 128 and above, which all pass.
#[verifier::external_body]
pub(crate) fn accepted_as_header_value(text: &str) -> (accepted: bool)
    ensures
        accepted == header_text_ok(text@),
{
    HeaderValue::from_str(text).is_ok()
}

/// The reason phrase that `reqwest::StatusCode` knows for the status `code`,
/// if it knows one.
pub uninterp spec fn canonical_reason(code: u16) -> Option<Seq<char>>;

/// Looks up the reason phrase of `code` with `reqwest::StatusCode::from_u16`
/// and `reqwest::StatusCode::canonical_reason`.
///
/// Trusted: the phrase is claimed to depend on `code` alone. A number that is
/// no status code has no phrase.
#[verifier::external_body]
pub(crate) fn reason_phrase(code: u16) -> (phrase: Option<String>)
    ensures
        phrase.deep_view() == canonical_reason(code),
{
    match StatusCode::from_u16(code) {
        Ok(status) => match status.canonical_reason() {
            Some(reason) => Some(reason.to_string()),
            None => None,
        },
        Err(_) => None,
    }
}

/// The phrase that stands for a status without a known reason.
pub open spec fn unknown_reason() -> Seq<char> {
    "<unknown status code>"@
}

/// How a status is shown to the operator: its number, a space and its reason.
pub open spec fn status_line(code: u16) -> Seq<char> {
    decimal_digits(code as nat) + " "@ + match canonical_reason(code) {
        Some(reason) => reason,
        None => unknown_reason(),
    }
}

/// Writes `code` as the operator sees it.
pub fn status_text(code: u16) -> (line: String)
    ensures
        line@ == status_line(code),
{
    let mut line = u64_to_decimal(code as u64);
    line.append(" ");
    match reason_phrase(code) {
        Some(reason) => {
            line.append(reason.as_str());
        },
        None => {
            line.append("<unknown status code>");
        },
    }
    line
}

} // verus!
