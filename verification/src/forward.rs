//! The proxy forwarder's outcomes, and the reply that each leads to.

use crate::failure::{Degradation, Failure, Reply};
use vstd::prelude::*;

verus! {

/// How a forward of the inbound request to the resolved upstream ended.
/// `R` is the upstream's response, which this crate never looks into.
#[derive(Clone, Debug, PartialEq, Eq)]
pub enum ForwardOutcome<R> {
    /// The upstream answered.
    Answered(R),
    /// The resolved URL is no valid URI; nothing was sent.
    InvalidUri,
    /// The forwarding headers could not be built; nothing was sent.
    ForwardHeaderFailed,
    /// The connection to the upstream failed.
    UpstreamFailed,
}

/// The reply that a forward's outcome leads to. A malformed upstream URL is
/// the activation authority's fault and a terminal failure; trouble with the
/// forward itself only degrades the service.
pub open spec fn reply_of<R>(outcome: ForwardOutcome<R>) -> Reply<R> {
    match outcome {
        ForwardOutcome::Answered(response) => Reply::Relayed(response),
        ForwardOutcome::InvalidUri => Reply::Failed(Failure::UpstreamUriInvalid),
        ForwardOutcome::ForwardHeaderFailed => Reply::Degraded(Degradation::ForwardHeader),
        ForwardOutcome::UpstreamFailed => Reply::Degraded(Degradation::UpstreamUnreachable),
    }
}

/// Decides the reply to the client once the forward has ended. An upstream
/// response is relayed as it is.
pub fn conclude<R>(outcome: ForwardOutcome<R>) -> (reply: Reply<R>)
    ensures
        reply == reply_of(outcome),
{
    match outcome {
        ForwardOutcome::Answered(response) => Reply::Relayed(response),
        ForwardOutcome::InvalidUri => Reply::Failed(Failure::UpstreamUriInvalid),
        ForwardOutcome::ForwardHeaderFailed => Reply::Degraded(Degradation::ForwardHeader),
        ForwardOutcome::UpstreamFailed => Reply::Degraded(Degradation::UpstreamUnreachable),
    }
}

} // verus!
