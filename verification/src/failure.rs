//! The ways in which handling a request can end, and what the client sees
//! of each.

use vstd::prelude::*;

verus! {

/// Status of every response that reports a terminal failure.
pub const STATUS_INTERNAL_ERROR: u16 = 500;

/// Status of every response that reports a degraded forward.
pub const STATUS_UNAVAILABLE: u16 = 503;

/// A terminal failure of the pipeline. The client is told that the request
/// failed, and never which of the activation failures occurred.
#[derive(Clone, Copy, Debug, PartialEq, Eq, Structural)]
pub enum Failure {
    /// The request carries no `Host` header.
    MissingHost,
    /// The `Host` header is not text.
    InvalidHostEncoding,
    /// The activation authority could not be contacted.
    ActivationUnreachable,
    /// The activation authority answered with a status other than 200.
    ActivationRejected { status: u16 },
    /// The body of the activation response could not be read in full.
    ActivationBodyUnreadable,
    /// The body of the activation response is not UTF-8 text.
    ActivationBodyUndecodable,
    /// The forwarder found the resolved upstream URL to be no valid URI.
    UpstreamUriInvalid,
}

/// A forward that was attempted and did not yield an upstream response.
/// The client is told that the service is unavailable.
#[derive(Clone, Copy, Debug, PartialEq, Eq, Structural)]
pub enum Degradation {
    /// The forwarding headers could not be built.
    ForwardHeader,
    /// The connection to the upstream failed.
    UpstreamUnreachable,
}

/// The one response that a request is answered with.
#[derive(Clone, Debug, PartialEq, Eq)]
pub enum Reply<R> {
    /// The upstream's own response, handed on as it was received.
    Relayed(R),
    /// A synthesized 503.
    Degraded(Degradation),
    /// A synthesized 500.
    Failed(Failure),
}

/// A response that the proxy makes up itself.
#[derive(Clone, Debug, PartialEq, Eq)]
pub struct Synthesized {
    /// The status code.
    pub status: u16,
    /// The whole body; empty for a response without one.
    pub body: String,
}

impl Failure {
    /// Body text of the response for this failure.
    pub open spec fn text(self) -> Seq<char> {
        match self {
            Failure::MissingHost => "Missing host header"@,
            Failure::InvalidHostEncoding => "Cannot convert host"@,
            _ => "Cannot reach actication server."@,
        }
    }

    /// Status code of the response for this failure.
    pub fn status(&self) -> (code: u16)
        ensures
            code == STATUS_INTERNAL_ERROR,
    {
        STATUS_INTERNAL_ERROR
    }

    /// Body of the response for this failure.
    pub fn body(&self) -> (body: String)
        ensures
            body@ == self.text(),
    {
        match self {
            Failure::MissingHost => "Missing host header".to_owned(),
            Failure::InvalidHostEncoding => "Cannot convert host".to_owned(),
            _ => "Cannot reach actication server.".to_owned(),
        }
    }
}

impl Degradation {
    /// Body text of the response for this degradation.
    pub open spec fn text(self) -> Seq<char> {
        match self {
            Degradation::ForwardHeader => Seq::empty(),
            Degradation::UpstreamUnreachable => "Upstream cannot be reached after activation."@,
        }
    }

    /// Status code of the response for this degradation.
    pub fn status(&self) -> (code: u16)
        ensures
            code == STATUS_UNAVAILABLE,
    {
        STATUS_UNAVAILABLE
    }

    /// Body of the response for this degradation.
    pub fn body(&self) -> (body: String)
        ensures
            body@ == self.text(),
    {
        match self {
            Degradation::ForwardHeader => String::new(),
            Degradation::UpstreamUnreachable => {
                "Upstream cannot be reached after activation.".to_owned()
            },
        }
    }
}

impl<R> Reply<R> {
    /// The status that the client sees, where the proxy decides it. A
    /// relayed response keeps the upstream's status, whatever it is.
    pub open spec fn status_code(self) -> Option<u16> {
        match self {
            Reply::Relayed(_) => None,
            Reply::Degraded(_) => Some(STATUS_UNAVAILABLE),
            Reply::Failed(_) => Some(STATUS_INTERNAL_ERROR),
        }
    }

    /// The body that the client sees, where the proxy decides it. A relayed
    /// response keeps the upstream's body.
    pub open spec fn body_text(self) -> Option<Seq<char>> {
        match self {
            Reply::Relayed(_) => None,
            Reply::Degraded(degradation) => Some(degradation.text()),
            Reply::Failed(failure) => Some(failure.text()),
        }
    }

    /// Turns the reply into what is sent: the upstream's response, untouched,
    /// or the response that the proxy makes up in its place.
    pub fn into_response(self) -> (response: Result<R, Synthesized>)
        ensures
            match response {
                Ok(upstream) => self == Reply::Relayed(upstream),
                Err(made_up) => self.status_code() == Some(made_up.status) && self.body_text()
                    == Some(made_up.body@),
            },
    {
        match self {
            Reply::Relayed(upstream) => Ok(upstream),
            Reply::Degraded(degradation) => Err(
                Synthesized { status: degradation.status(), body: degradation.body() },
            ),
            Reply::Failed(failure) => Err(
                Synthesized { status: failure.status(), body: failure.body() },
            ),
        }
    }
}

/// Every terminal failure is told to the client as a 500 with a text, and
/// every trouble with the activation authority, a malformed upstream URL
/// included, with the same text: the client never learns which it was.
pub proof fn lemma_failure_is_internal_error<R>(failure: Failure)
    ensures
        Reply::<R>::Failed(failure).status_code() == Some(500u16),
        Reply::<R>::Failed(failure).body_text() == Some(failure.text()),
        failure.text().len() > 0,
        failure != Failure::MissingHost && failure != Failure::InvalidHostEncoding
            ==> failure.text() == Failure::ActivationUnreachable.text(),
{
    reveal_strlit("Missing host header");
    reveal_strlit("Cannot convert host");
    reveal_strlit("Cannot reach actication server.");
}

/// Every degraded forward is told to the client as a 503: without a body
/// where the forwarding headers could not be built, and with a text that
/// describes the trouble where the upstream could not be reached.
pub proof fn lemma_degradation_is_unavailable<R>(degradation: Degradation)
    ensures
        Reply::<R>::Degraded(degradation).status_code() == Some(503u16),
        Reply::<R>::Degraded(degradation).body_text() == Some(degradation.text()),
        degradation == Degradation::ForwardHeader ==> degradation.text().len() == 0,
        degradation == Degradation::UpstreamUnreachable ==> degradation.text().len() > 0,
{
    reveal_strlit("Upstream cannot be reached after activation.");
}

} // verus!
