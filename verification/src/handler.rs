//! The request handler: a state machine that takes one inbound request from
//! its arrival to its one reply.
//!
//! The handler performs no I/O. Each step takes the event that ended the
//! previous outbound call and answers with the next thing to do.

use crate::activation::{
    activation_query, check_status, decode_upstream, query_for, status_verdict, upstream_of,
    ActivationQuery, ActivationQueryView,
};
use crate::failure::{Failure, Reply};
use crate::forward::{conclude, reply_of, ForwardOutcome};
use crate::host::{extract_host, host_of};
use vstd::prelude::*;

verus! {

/// Where a handler stands between two steps. A handler only ever moves
/// down this list, and may leave any phase for `Responded`.
///
/// The end of the forward is no phase of its own: the step that takes the
/// forward's outcome decides the reply at once.
#[derive(Clone, Copy, Debug, PartialEq, Eq, Structural)]
pub enum Phase {
    /// Nothing has happened yet; the handler awaits the inbound request.
    Start,
    /// The host identifier is known and the activation query is under way;
    /// the handler awaits the activation authority's status.
    HostExtracted,
    /// The activation authority answered 200; the handler awaits the body.
    ActivationAccepted,
    /// The upstream URL is resolved and the forward is under way; the
    /// handler awaits its outcome.
    Activated,
    /// The reply has been decided. Nothing more will happen.
    Responded,
}

/// What the driver reports to the handler.
#[derive(Clone, Debug, PartialEq, Eq)]
pub enum Event<R> {
    /// The inbound request arrived. `host_header` is the raw value of its
    /// `Host` header, if it has one.
    RequestReceived { host_header: Option<Vec<u8>> },
    /// The activation query failed in transport.
    ActivationUnreachable,
    /// The activation authority answered with this status.
    ActivationAnswered { status: u16 },
    /// The body of the activation response could not be read in full.
    ActivationBodyUnreadable,
    /// The body of the activation response, read in full.
    ActivationBodyRead { body: Vec<u8> },
    /// The forward ended.
    ForwardFinished(ForwardOutcome<R>),
}

/// What the handler asks the driver to do next.
#[derive(Clone, Debug, PartialEq, Eq)]
pub enum Action<R> {
    /// Send this query to the activation authority and report its status.
    Activate(ActivationQuery),
    /// Read the body of the activation response in full and report it.
    ReadActivationBody,
    /// Forward the inbound request to this upstream and report the outcome.
    Forward { upstream_url: String },
    /// Answer the client with this reply. This ends the handling.
    Respond(Reply<R>),
}

/// An event as plain values.
pub enum EventView<R> {
    RequestReceived { host_header: Option<Seq<u8>> },
    ActivationUnreachable,
    ActivationAnswered { status: u16 },
    ActivationBodyUnreadable,
    ActivationBodyRead { body: Seq<u8> },
    ForwardFinished(ForwardOutcome<R>),
}

/// An action as plain values.
pub enum ActionView<R> {
    Activate(ActivationQueryView),
    ReadActivationBody,
    Forward { upstream_url: Seq<char> },
    Respond(Reply<R>),
}

impl<R> View for Event<R> {
    type V = EventView<R>;

    open spec fn view(&self) -> EventView<R> {
        match *self {
            Event::RequestReceived { host_header } => EventView::RequestReceived {
                host_header: match host_header {
                    Some(raw) => Some(raw@),
                    None => None,
                },
            },
            Event::ActivationUnreachable => EventView::ActivationUnreachable,
            Event::ActivationAnswered { status } => EventView::ActivationAnswered { status },
            Event::ActivationBodyUnreadable => EventView::ActivationBodyUnreadable,
            Event::ActivationBodyRead { body } => EventView::ActivationBodyRead { body: body@ },
            Event::ForwardFinished(outcome) => EventView::ForwardFinished(outcome),
        }
    }
}

impl<R> View for Action<R> {
    type V = ActionView<R>;

    open spec fn view(&self) -> ActionView<R> {
        match *self {
            Action::Activate(query) => ActionView::Activate(query@),
            Action::ReadActivationBody => ActionView::ReadActivationBody,
            Action::Forward { upstream_url } => ActionView::Forward { upstream_url: upstream_url@ },
            Action::Respond(reply) => ActionView::Respond(reply),
        }
    }
}

/// An optional action as plain values.
pub open spec fn action_view<R>(action: Option<Action<R>>) -> Option<ActionView<R>> {
    match action {
        Some(a) => Some(a@),
        None => None,
    }
}

/// The result of one step: the phase that the handler is in afterwards, and
/// what it asks for, if anything.
pub struct Step<R> {
    pub phase: Phase,
    pub action: Option<ActionView<R>>,
}

/// A step that ends the handling with a terminal failure.
pub open spec fn fail<R>(failure: Failure) -> Step<R> {
    Step { phase: Phase::Responded, action: Some(ActionView::Respond(Reply::Failed(failure))) }
}

/// A step that leaves everything as it is.
pub open spec fn ignore<R>(phase: Phase) -> Step<R> {
    Step { phase, action: None }
}

/// The handler's transition function. `server` is the address of the
/// activation authority.
///
/// Each phase awaits the events that end its outbound call. On the first
/// failure the handler replies at once; on success it moves to the next
/// phase. An event that the phase does not await changes nothing and asks
/// for nothing.
pub open spec fn transition<R>(server: Seq<char>, phase: Phase, event: EventView<R>) -> Step<R> {
    match phase {
        Phase::Start => match event {
            EventView::RequestReceived { host_header } => match host_of(host_header) {
                Ok(host) => Step {
                    phase: Phase::HostExtracted,
                    action: Some(ActionView::Activate(query_for(server, host))),
                },
                Err(failure) => fail(failure),
            },
            _ => ignore(phase),
        },
        Phase::HostExtracted => match event {
            EventView::ActivationUnreachable => fail(Failure::ActivationUnreachable),
            EventView::ActivationAnswered { status } => match status_verdict(status) {
                Ok(_) => Step {
                    phase: Phase::ActivationAccepted,
                    action: Some(ActionView::ReadActivationBody),
                },
                Err(failure) => fail(failure),
            },
            _ => ignore(phase),
        },
        Phase::ActivationAccepted => match event {
            EventView::ActivationBodyUnreadable => fail(Failure::ActivationBodyUnreadable),
            EventView::ActivationBodyRead { body } => match upstream_of(body) {
                Ok(upstream_url) => Step {
                    phase: Phase::Activated,
                    action: Some(ActionView::Forward { upstream_url }),
                },
                Err(failure) => fail(failure),
            },
            _ => ignore(phase),
        },
        Phase::Activated => match event {
            EventView::ForwardFinished(outcome) => Step {
                phase: Phase::Responded,
                action: Some(ActionView::Respond(reply_of(outcome))),
            },
            _ => ignore(phase),
        },
        Phase::Responded => ignore(phase),
    }
}

/// The handler of one inbound request.
#[derive(Debug)]
pub struct Handler {
    activation_server: String,
    phase: Phase,
}

impl Handler {
    /// The address of the activation authority that this handler queries.
    pub closed spec fn server(&self) -> Seq<char> {
        self.activation_server@
    }

    /// The phase that this handler is in.
    pub closed spec fn current(&self) -> Phase {
        self.phase
    }

    /// A handler for one request, which will query the activation authority
    /// at `activation_server`.
    pub fn new(activation_server: String) -> (handler: Handler)
        ensures
            handler.server() == activation_server@,
            handler.current() == Phase::Start,
    {
        Handler { activation_server, phase: Phase::Start }
    }

    /// The phase that this handler is in.
    pub fn phase(&self) -> (phase: Phase)
        ensures
            phase == self.current(),
    {
        self.phase
    }

    /// Whether the reply has been decided.
    pub fn is_finished(&self) -> (finished: bool)
        ensures
            finished == (self.current() == Phase::Responded),
    {
        match self.phase {
            Phase::Responded => true,
            _ => false,
        }
    }

    /// Takes one event and answers with the next action, as `transition` says.
    /// `None` means that the event was not awaited and has been ignored.
    pub fn step<R>(&mut self, event: Event<R>) -> (action: Option<Action<R>>)
        ensures
            final(self).server() == old(self).server(),
            (Step { phase: final(self).current(), action: action_view(action) }) == transition(
                old(self).server(),
                old(self).current(),
                event@,
            ),
    {
        match self.phase {
            Phase::Start => match event {
                Event::RequestReceived { host_header } => {
                    let extracted = match &host_header {
                        Some(raw) => extract_host(Some(raw.as_slice())),
                        None => extract_host(None),
                    };
                    match extracted {
                        Ok(host) => {
                            self.phase = Phase::HostExtracted;
                            let query = activation_query(self.activation_server.as_str(), host);
                            Some(Action::Activate(query))
                        },
                        Err(failure) => Some(self.fail(failure)),
                    }
                },
                _ => None,
            },
            Phase::HostExtracted => match event {
                Event::ActivationUnreachable => Some(self.fail(Failure::ActivationUnreachable)),
                Event::ActivationAnswered { status } => match check_status(status) {
                    Ok(_) => {
                        self.phase = Phase::ActivationAccepted;
                        Some(Action::ReadActivationBody)
                    },
                    Err(failure) => Some(self.fail(failure)),
                },
                _ => None,
            },
            Phase::ActivationAccepted => match event {
                Event::ActivationBodyUnreadable => Some(
                    self.fail(Failure::ActivationBodyUnreadable),
                ),
                Event::ActivationBodyRead { body } => match decode_upstream(body) {
                    Ok(upstream_url) => {
                        self.phase = Phase::Activated;
                        Some(Action::Forward { upstream_url })
                    },
                    Err(failure) => Some(self.fail(failure)),
                },
                _ => None,
            },
            Phase::Activated => match event {
                Event::ForwardFinished(outcome) => {
                    self.phase = Phase::Responded;
                    Some(Action::Respond(conclude(outcome)))
                },
                _ => None,
            },
            Phase::Responded => None,
        }
    }

    /// Ends the handling with a terminal failure.
    fn fail<R>(&mut self, failure: Failure) -> (action: Action<R>)
        ensures
            final(self).server() == old(self).server(),
            final(self).current() == Phase::Responded,
            action@ == ActionView::<R>::Respond(Reply::Failed(failure)),
    {
        self.phase = Phase::Responded;
        Action::Respond(Reply::Failed(failure))
    }
}

} // verus!
