//! The activation resolver: the query sent to the activation authority, and
//! what its answer resolves to.

use crate::failure::Failure;
use crate::text::{text_result, utf8_text};
use vstd::prelude::*;
use vstd::utf8::{decode_utf8, valid_utf8};

verus! {

/// The one status with which the activation authority reports success.
pub const STATUS_ACTIVATED: u16 = 200;

/// The request sent to the activation authority. It carries no headers
/// beyond those that the transport adds.
#[derive(Clone, Debug, PartialEq, Eq)]
pub struct ActivationQuery {
    /// The request method, always `POST`.
    pub method: String,
    /// The address of the activation authority.
    pub target: String,
    /// The whole request body: the host identifier.
    pub body: String,
}

/// An activation query as plain text.
pub struct ActivationQueryView {
    pub method: Seq<char>,
    pub target: Seq<char>,
    pub body: Seq<char>,
}

impl View for ActivationQuery {
    type V = ActivationQueryView;

    open spec fn view(&self) -> ActivationQueryView {
        ActivationQueryView { method: self.method@, target: self.target@, body: self.body@ }
    }
}

/// The query that asks the authority at `server` to activate `host`.
pub open spec fn query_for(server: Seq<char>, host: Seq<char>) -> ActivationQueryView {
    ActivationQueryView { method: "POST"@, target: server, body: host }
}

/// Whether the activation authority's status lets the resolver go on to
/// read the body.
pub open spec fn status_verdict(status: u16) -> Result<(), Failure> {
    if status == STATUS_ACTIVATED {
        Ok(())
    } else {
        Err(Failure::ActivationRejected { status })
    }
}

/// The upstream URL that a fully read activation body resolves to: the
/// body's text, unchanged.
pub open spec fn upstream_of(body: Seq<u8>) -> Result<Seq<char>, Failure> {
    if valid_utf8(body) {
        Ok(decode_utf8(body))
    } else {
        Err(Failure::ActivationBodyUndecodable)
    }
}

/// Builds the query that asks the authority at `server` to activate `host`.
pub fn activation_query(server: &str, host: String) -> (query: ActivationQuery)
    ensures
        query@ == query_for(server@, host@),
{
    ActivationQuery { method: "POST".to_owned(), target: server.to_owned(), body: host }
}

/// Judges the status of the activation authority's response: only 200 is
/// success, every other status rejects the activation.
pub fn check_status(status: u16) -> (verdict: Result<(), Failure>)
    ensures
        verdict == status_verdict(status),
{
    if status == STATUS_ACTIVATED {
        Ok(())
    } else {
        Err(Failure::ActivationRejected { status })
    }
}

/// Decodes the fully read body of a successful activation response into the
/// upstream URL. The text is taken as it is: whether it is a URI is for the
/// forwarder to find out.
pub fn decode_upstream(body: Vec<u8>) -> (url: Result<String, Failure>)
    ensures
        text_result(url) == upstream_of(body@),
{
    match utf8_text(body) {
        Some(url) => Ok(url),
        None => Err(Failure::ActivationBodyUndecodable),
    }
}

} // verus!
