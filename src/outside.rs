//! The outside types this library works with, and the calls it makes into
//! reqwest and bytes, each with the contract that their sources show.

use vstd::prelude::*;

verus! {

#[verifier::external_type_specification]
#[verifier::external_body]
pub struct ExResponse(reqwest::Response);

#[verifier::external_type_specification]
#[verifier::external_body]
pub struct ExError(reqwest::Error);

#[verifier::external_type_specification]
#[verifier::external_body]
pub struct ExBytes(bytes::Bytes);

#[verifier::external_type_specification]
#[verifier::external_body]
pub struct ExUrl(reqwest::Url);

/// The numeric HTTP status code that `reqwest::Response::status` reports.
pub uninterp spec fn status_code_of(r: reqwest::Response) -> u16;

/// The URL that `reqwest::Error::url` reports, if any.
pub uninterp spec fn url_of(e: reqwest::Error) -> Option<reqwest::Url>;

/// What `reqwest::Error::without_url` returns: the same error with no URL.
pub uninterp spec fn without_url_of(e: reqwest::Error) -> reqwest::Error;

/// The text that reqwest's `Display` impl writes for an error.
pub uninterp spec fn error_text(e: reqwest::Error) -> Seq<char>;

/// The bytes that a `bytes::Bytes` buffer holds.
pub uninterp spec fn bytes_content(b: bytes::Bytes) -> Seq<u8>;

/// Whether reqwest classifies a status code as a failure: a client error
/// (400 to 499) or a server error (500 to 599).
pub open spec fn is_failure_code(code: u16) -> bool {
    400 <= code && code < 600
}

/// Relies on `reqwest::Response::error_for_status_ref`: it fails exactly when
/// the status is a client or server error, and then returns the status error.
#[verifier::external_body]
pub(crate) fn status_error(response: &reqwest::Response) -> (r: Option<reqwest::Error>)
    ensures
        r is Some <==> is_failure_code(status_code_of(*response)),
{
    response.error_for_status_ref().err()
}

/// Relies on `reqwest::Error::with_url`: it sets the error's URL and changes
/// nothing else.
#[verifier::external_body]
pub(crate) fn error_with_url(e: reqwest::Error, url: reqwest::Url) -> (r: reqwest::Error)
    ensures
        url_of(r) == Some(url),
        without_url_of(r) == without_url_of(e),
{
    e.with_url(url)
}

/// Relies on `reqwest::Error::without_url`: it clears the error's URL and
/// changes nothing else.
#[verifier::external_body]
pub(crate) fn error_without_url(e: reqwest::Error) -> (r: reqwest::Error)
    ensures
        r == without_url_of(e),
        url_of(r) is None,
        without_url_of(r) == r,
        url_of(e) is None ==> r == e,
{
    e.without_url()
}

/// Relies on reqwest's `Display` impl for `reqwest::Error`.
#[verifier::external_body]
pub(crate) fn render_error(e: &reqwest::Error) -> (r: String)
    ensures
        r@ == error_text(*e),
{
    e.to_string()
}

/// A hexadecimal digit, in lower case.
pub open spec fn hex_digit(n: u8) -> char
    recommends
        n < 16,
{
    seq!['0', '1', '2', '3', '4', '5', '6', '7', '8', '9', 'a', 'b', 'c', 'd', 'e', 'f'][n as int]
}

/// How one byte is written inside a byte-string literal.
pub open spec fn escaped_byte(b: u8) -> Seq<char> {
    if b == 10 {
        seq!['\\', 'n']
    } else if b == 13 {
        seq!['\\', 'r']
    } else if b == 9 {
        seq!['\\', 't']
    } else if b == 92 || b == 34 {
        seq!['\\', b as char]
    } else if b == 0 {
        seq!['\\', '0']
    } else if 0x20 <= b && b < 0x7f {
        seq![b as char]
    } else {
        seq!['\\', 'x', hex_digit(b / 16), hex_digit(b % 16)]
    }
}

/// The escaped bytes of `s`, one after the other.
pub open spec fn escaped_bytes(s: Seq<u8>) -> Seq<char>
    decreases s.len(),
{
    if s.len() == 0 {
        seq![]
    } else {
        escaped_bytes(s.drop_last()) + escaped_byte(s.last())
    }
}

/// `s` written as a byte-string literal: `b"..."`.
pub open spec fn byte_string_literal(s: Seq<u8>) -> Seq<char> {
    seq!['b', '"'] + escaped_bytes(s) + seq!['"']
}

/// Relies on the `Debug` impl of `bytes::Bytes`, which writes the buffer as a
/// byte-string literal.
#[verifier::external_body]
pub(crate) fn render_bytes(b: &bytes::Bytes) -> (r: String)
    ensures
        r@ == byte_string_literal(bytes_content(*b)),
{
    format!("{:?}", b)
}

} // verus!
