//! The host extractor: from the raw `Host` header to the host identifier.

use crate::failure::Failure;
use crate::text::{ascii_text, header_text, header_value, is_header_text, text_result};
use vstd::prelude::*;

verus! {

/// What the host extractor yields for a raw `Host` header value, or for its
/// absence.
pub open spec fn host_of(header: Option<Seq<u8>>) -> Result<Seq<char>, Failure> {
    match header {
        None => Err(Failure::MissingHost),
        Some(raw) => if is_header_text(raw) {
            Ok(ascii_text(raw))
        } else {
            Err(Failure::InvalidHostEncoding)
        },
    }
}

/// Extracts the host identifier from the raw value of a request's `Host`
/// header. A request without the header, or with one that is not text, has
/// no host identifier.
pub fn extract_host(header: Option<&[u8]>) -> (host: Result<String, Failure>)
    ensures
        text_result(host) == host_of(header_view(header)),
{
    match header {
        None => Err(Failure::MissingHost),
        Some(raw) => match header_value(raw) {
            Some(value) => match header_text(&value) {
                Some(host) => Ok(host),
                None => Err(Failure::InvalidHostEncoding),
            },
            None => Err(Failure::InvalidHostEncoding),
        },
    }
}

/// The bytes of an optional raw header value.
pub open spec fn header_view(header: Option<&[u8]>) -> Option<Seq<u8>> {
    match header {
        Some(raw) => Some(raw@),
        None => None,
    }
}

} // verus!
