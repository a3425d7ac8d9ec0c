//! What the resolver reads of an HTTP response fetched with redirects
//! left unfollowed: the status code and the raw `Location` header.

use crate::text::{join, text_result};
use vstd::prelude::*;

verus! {

/// Reason of a failure where the `Location` header cannot be read as text;
/// the cause follows.
pub const INVALID_LOCATION: &'static str = "Invalid Location header: ";

/// Reason of a failure where a redirection has no `Location` header.
pub const MISSING_LOCATION: &'static str = "Redirect response missing Location header";

/// Reason of a failure where the response is no redirection; the status follows.
pub const UNEXPECTED_STATUS: &'static str = "Unexpected response status: ";

/// The reason phrase that `Display` prints for the `http::StatusCode` with
/// number `code`: its canonical reason, or a placeholder where it has none.
pub uninterp spec fn reason_phrase(code: int) -> Seq<char>;

/// The three decimal digits of a status code.
pub open spec fn status_digits(code: int) -> Seq<char> {
    seq![decimal_digit(code / 100), decimal_digit(code / 10 % 10), decimal_digit(code % 10)]
}

/// The character for a digit from 0 to 9.
pub open spec fn decimal_digit(digit: int) -> char {
    ((48 + digit) as u8) as char
}

/// A status as it is shown: the number, a space, and the reason phrase.
pub open spec fn status_display(code: int) -> Seq<char> {
    status_digits(code) + seq![' '] + reason_phrase(code)
}

/// A byte that `http::HeaderValue::to_str` accepts: printable ASCII or tab.
pub open spec fn is_visible_ascii(byte: u8) -> bool {
    32 <= byte < 127 || byte == 9
}

/// Whether a header value can be read as text: all of it is visible ASCII.
pub open spec fn is_readable(bytes: Seq<u8>) -> bool {
    forall|i: int| 0 <= i < bytes.len() ==> is_visible_ascii(#[trigger] bytes[i])
}

/// The characters of a header value, one for each byte.
pub open spec fn header_chars(bytes: Seq<u8>) -> Seq<char> {
    bytes.map_values(|byte: u8| byte as char)
}

/// Formats status `code` as `reqwest::StatusCode` displays it: the number
/// in decimal, a space, and the reason phrase.
/// `StatusCode::from_u16` accepts exactly the codes from 100 to 999.
#[verifier::external_body]
fn status_text(code: u16) -> (text: Option<String>)
    ensures
        text is Some <==> 100 <= code <= 999,
        text matches Some(t) ==> t@ == status_digits(code as int) + seq![' '] + reason_phrase(
            code as int,
        ),
{
    match reqwest::StatusCode::from_u16(code) {
        Ok(status) => Some(status.to_string()),
        Err(_) => None,
    }
}

/// The `Display` text of the error with which `http::HeaderValue` refuses
/// to hand out `bytes` as text.
pub uninterp spec fn header_failure(bytes: Seq<u8>) -> Seq<char>;

/// Reads header bytes as text through `reqwest::header::HeaderValue`:
/// `from_bytes` followed by `to_str`, which together accept exactly the
/// values made of visible ASCII and hand back the same characters. Where
/// either refuses, the result holds the `Display` text of its error.
#[verifier::external_body]
fn header_text(bytes: &[u8]) -> (text: Result<String, String>)
    ensures
        text is Ok <==> is_readable(bytes@),
        text matches Ok(t) ==> t@ == header_chars(bytes@),
        text matches Err(e) ==> e@ == header_failure(bytes@),
{
    match reqwest::header::HeaderValue::from_bytes(bytes) {
        Ok(value) => match value.to_str() {
            Ok(text) => Ok(text.to_string()),
            Err(err) => Err(err.to_string()),
        },
        Err(err) => Err(err.to_string()),
    }
}

/// An HTTP status code, always between 100 and 999.
#[derive(Clone, Copy, Debug)]
pub struct HttpStatus {
    code: u16,
}

impl HttpStatus {
    #[verifier::type_invariant]
    spec fn in_range(self) -> bool {
        100 <= self.code <= 999
    }

    /// The numeric code.
    pub closed spec fn code(self) -> int {
        self.code as int
    }

    /// Whether the code is one of the redirections, 300 to 399.
    pub open spec fn redirects(self) -> bool {
        300 <= self.code() < 400
    }

    /// The status with number `code`, if `code` is a status code.
    pub fn from_u16(code: u16) -> (status: Option<HttpStatus>)
        ensures
            status is Some <==> 100 <= code <= 999,
            status matches Some(s) ==> s.code() == code,
    {
        if 100 <= code && code <= 999 {
            Some(HttpStatus { code })
        } else {
            None
        }
    }

    /// The numeric code.
    pub fn as_u16(&self) -> (code: u16)
        ensures
            code == self.code(),
            100 <= code <= 999,
    {
        proof {
            use_type_invariant(self);
        }
        self.code
    }

    /// Whether the code is one of the redirections.
    pub fn is_redirection(&self) -> (found: bool)
        ensures
            found == self.redirects(),
    {
        300 <= self.code && self.code < 400
    }

    /// The code followed by its canonical reason phrase.
    pub fn text(&self) -> (text: String)
        ensures
            text@ == status_display(self.code()),
    {
        proof {
            use_type_invariant(self);
        }
        status_text(self.code).unwrap()
    }
}

/// What the resolver reads of a response: its status, and the bytes of its
/// `Location` header if it has one.
#[derive(Clone, Debug)]
pub struct RedirectResponse {
    pub status: HttpStatus,
    pub location: Option<Vec<u8>>,
}

/// The target that a response redirects to.
///
/// Only a redirection has one, and only if its `Location` header is there
/// and readable; every other response is a failure that names its cause,
/// an unreadable header with the words of the decoder that refused it.
pub open spec fn target_of(response: RedirectResponse) -> Result<Seq<char>, Seq<char>> {
    if response.status.redirects() {
        match response.location {
            None => Err(MISSING_LOCATION@),
            Some(bytes) => if is_readable(bytes@) {
                Ok(header_chars(bytes@))
            } else {
                Err(INVALID_LOCATION@ + header_failure(bytes@))
            },
        }
    } else {
        Err(UNEXPECTED_STATUS@ + status_display(response.status.code()))
    }
}

/// Reads the redirect target of `response`.
pub fn redirect_target(response: &RedirectResponse) -> (target: Result<String, String>)
    ensures
        text_result(target) == target_of(*response),
{
    if response.status.is_redirection() {
        match &response.location {
            None => Err(MISSING_LOCATION.to_owned()),
            Some(bytes) => match header_text(bytes.as_slice()) {
                Ok(location) => Ok(location),
                Err(cause) => Err(join(INVALID_LOCATION, cause.as_str())),
            },
        }
    } else {
        let status = response.status.text();
        Err(join(UNEXPECTED_STATUS, status.as_str()))
    }
}

} // verus!
