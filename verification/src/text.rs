//! Turning bytes received from the network into text.

use crate::failure::Failure;
use hyper::header::HeaderValue;
use vstd::prelude::*;
use vstd::utf8::{decode_utf8, valid_utf8};

verus! {

/// A byte that may stand in a header value that reads as text: visible
/// ASCII (space included) or a horizontal tab.
pub open spec fn is_text_byte(b: u8) -> bool {
    32 <= b < 127 || b == 9
}

/// Every byte of `raw` is a text byte.
pub open spec fn is_header_text(raw: Seq<u8>) -> bool {
    forall|i: int| 0 <= i < raw.len() ==> is_text_byte(#[trigger] raw[i])
}

/// The characters that ASCII bytes stand for, one per byte.
pub open spec fn ascii_text(raw: Seq<u8>) -> Seq<char> {
    Seq::new(raw.len(), |i: int| raw[i] as char)
}

/// A phase's result with its text taken as a sequence of characters.
pub open spec fn text_result(r: Result<String, Failure>) -> Result<Seq<char>, Failure> {
    match r {
        Ok(s) => Ok(s@),
        Err(e) => Err(e),
    }
}

/// A byte that may stand in a header value at all: anything but a control
/// character other than tab.
pub open spec fn is_value_byte(b: u8) -> bool {
    32 <= b && b != 127 || b == 9
}

/// Every byte of `raw` is a value byte.
pub open spec fn is_header_value(raw: Seq<u8>) -> bool {
    forall|i: int| 0 <= i < raw.len() ==> is_value_byte(#[trigger] raw[i])
}

/// `hyper::header::HeaderValue`, carried as an opaque value.
#[verifier::external_type_specification]
#[verifier::external_body]
pub struct ExHeaderValue(HeaderValue);

/// The bytes that a header value holds. Only `header_value` and
/// `header_text` say anything of them.
pub uninterp spec fn header_bytes(value: HeaderValue) -> Seq<u8>;

/// Makes a header value of raw bytes.
///
/// Trusted: the body calls `hyper::header::HeaderValue::from_bytes`, which
/// refuses the bytes if one of them is a control character other than tab,
/// and otherwise keeps a copy of them.
#[verifier::external_body]
pub(crate) fn header_value(raw: &[u8]) -> (value: Option<HeaderValue>)
    ensures
        value is Some <==> is_header_value(raw@),
        value matches Some(v) ==> header_bytes(v) == raw@,
{
    match HeaderValue::from_bytes(raw) {
        Ok(value) => Some(value),
        Err(_) => None,
    }
}

/// Reads a header value as text.
///
/// Trusted: the body calls `hyper::header::HeaderValue::to_str`, which
/// refuses the value if one of its bytes is neither visible ASCII nor tab,
/// and otherwise hands its bytes out as a string, one ASCII character per
/// byte.
#[verifier::external_body]
pub(crate) fn header_text(value: &HeaderValue) -> (text: Option<String>)
    ensures
        text is Some <==> is_header_text(header_bytes(*value)),
        text matches Some(s) ==> s@ == ascii_text(header_bytes(*value)),
{
    match value.to_str() {
        Ok(s) => Some(s.to_owned()),
        Err(_) => None,
    }
}

/// Decodes a byte buffer as UTF-8 text.
///
/// Trusted: the body calls `String::from_utf8`, which succeeds exactly on
/// well-formed UTF-8 and then yields the string that those bytes encode.
#[verifier::external_body]
pub(crate) fn utf8_text(bytes: Vec<u8>) -> (text: Option<String>)
    ensures
        text is Some <==> valid_utf8(bytes@),
        text matches Some(s) ==> s@ == decode_utf8(bytes@),
{
    match String::from_utf8(bytes) {
        Ok(s) => Some(s),
        Err(_) => None,
    }
}

} // verus!
