//! Whole runs of a handler, and the laws that hold of every run.
//!
//! A run is what a handler does with a sequence of events, taken one after
//! another. Unless a law says otherwise it holds for every sequence,
//! whether or not the driver reports what the handler asked for.

use crate::activation::{query_for, STATUS_ACTIVATED};
use crate::failure::{Failure, Reply};
use crate::forward::{reply_of, ForwardOutcome};
use crate::handler::{transition, ActionView, EventView, Phase};
use crate::text::{ascii_text, is_header_text};
use vstd::prelude::*;
use vstd::utf8::{decode_utf8, encode_utf8, valid_utf8};

verus! {

/// The place of a phase in the pipeline.
pub open spec fn rank(phase: Phase) -> nat {
    match phase {
        Phase::Start => 0,
        Phase::HostExtracted => 1,
        Phase::ActivationAccepted => 2,
        Phase::Activated => 3,
        Phase::Responded => 4,
    }
}

/// The place in the pipeline of the phase that an action leads into.
pub open spec fn stage<R>(action: ActionView<R>) -> nat {
    match action {
        ActionView::Activate(_) => 1,
        ActionView::ReadActivationBody => 2,
        ActionView::Forward { .. } => 3,
        ActionView::Respond(_) => 4,
    }
}

/// The phase of a handler that started in `phase` and took `events`.
pub open spec fn phase_after<R>(server: Seq<char>, phase: Phase, events: Seq<EventView<R>>) -> Phase
    decreases events.len(),
{
    if events.len() == 0 {
        phase
    } else {
        phase_after(server, transition(server, phase, events.first()).phase, events.drop_first())
    }
}

/// The actions, in order, that a handler asks for while it takes `events`,
/// starting in `phase`.
pub open spec fn actions_of<R>(server: Seq<char>, phase: Phase, events: Seq<EventView<R>>) -> Seq<
    ActionView<R>,
>
    decreases events.len(),
{
    if events.len() == 0 {
        Seq::empty()
    } else {
        let step = transition(server, phase, events.first());
        let later = actions_of(server, step.phase, events.drop_first());
        match step.action {
            Some(action) => seq![action] + later,
            None => later,
        }
    }
}

/// A run that begins with `event` goes on from the phase that `event` leads
/// to, after the action that it brings.
pub proof fn lemma_run_unfolds<R>(
    server: Seq<char>,
    phase: Phase,
    event: EventView<R>,
    rest: Seq<EventView<R>>,
)
    ensures
        phase_after(server, phase, seq![event] + rest) == phase_after(
            server,
            transition(server, phase, event).phase,
            rest,
        ),
        actions_of(server, phase, seq![event] + rest) == ({
            let step = transition(server, phase, event);
            match step.action {
                Some(action) => seq![action] + actions_of(server, step.phase, rest),
                None => actions_of(server, step.phase, rest),
            }
        }),
{
    let events = seq![event] + rest;
    assert(events.first() == event);
    assert(events.drop_first() =~= rest);
}

/// A step that brings an action moves the handler forward, into the phase
/// that the action's stage names; a step that brings none leaves the phase
/// as it was.
pub proof fn lemma_step_advances<R>(server: Seq<char>, phase: Phase, event: EventView<R>)
    ensures
        ({
            let step = transition(server, phase, event);
            match step.action {
                Some(action) => rank(phase) < stage(action) == rank(step.phase),
                None => step.phase == phase,
            }
        }),
{
}

/// Whether a handler in `phase` awaits `event`.
pub open spec fn awaits<R>(phase: Phase, event: EventView<R>) -> bool {
    match phase {
        Phase::Start => event is RequestReceived,
        Phase::HostExtracted => event is ActivationUnreachable || event is ActivationAnswered,
        Phase::ActivationAccepted => event is ActivationBodyUnreadable
            || event is ActivationBodyRead,
        Phase::Activated => event is ForwardFinished,
        Phase::Responded => false,
    }
}

/// Whether `event` reports the end of what `action` asked for.
pub open spec fn answers<R>(action: ActionView<R>, event: EventView<R>) -> bool {
    match action {
        ActionView::Activate(_) => event is ActivationUnreachable || event is ActivationAnswered,
        ActionView::ReadActivationBody => event is ActivationBodyUnreadable
            || event is ActivationBodyRead,
        ActionView::Forward { .. } => event is ForwardFinished,
        ActionView::Respond(_) => false,
    }
}

/// Whether every event of a run is awaited when it arrives.
pub open spec fn all_awaited<R>(server: Seq<char>, phase: Phase, events: Seq<EventView<R>>) -> bool
    decreases events.len(),
{
    events.len() == 0 || (awaits(phase, events.first()) && all_awaited(
        server,
        transition(server, phase, events.first()).phase,
        events.drop_first(),
    ))
}

/// An event brings an action exactly when the handler awaits it.
pub proof fn lemma_awaited_event_brings_action<R>(
    server: Seq<char>,
    phase: Phase,
    event: EventView<R>,
)
    ensures
        transition(server, phase, event).action is Some <==> awaits(phase, event),
{
}

/// A driver that reports the end of what the handler asked for is never
/// ignored: the handler awaits that report.
pub proof fn lemma_answer_is_awaited<R>(
    server: Seq<char>,
    phase: Phase,
    event: EventView<R>,
    answer: EventView<R>,
)
    requires
        transition(server, phase, event).action matches Some(action) && answers(action, answer),
    ensures
        awaits(transition(server, phase, event).phase, answer),
{
}

/// No retry and no way back: in a run in which every event is awaited,
/// every event brings an action and moves the handler at least one phase
/// on. Such a run has at most four events, and after four the reply has
/// been decided.
pub proof fn lemma_awaited_run_is_short<R>(
    server: Seq<char>,
    phase: Phase,
    events: Seq<EventView<R>>,
)
    requires
        all_awaited(server, phase, events),
    ensures
        actions_of(server, phase, events).len() == events.len(),
        rank(phase) + events.len() <= rank(phase_after(server, phase, events)) <= 4,
        rank(phase) + events.len() == 4 ==> phase_after(server, phase, events) == Phase::Responded,
    decreases events.len(),
{
    if events.len() > 0 {
        lemma_step_advances(server, phase, events.first());
        lemma_awaited_run_is_short(
            server,
            transition(server, phase, events.first()).phase,
            events.drop_first(),
        );
    }
}

/// A handler never moves back.
pub proof fn lemma_phase_never_goes_back<R>(
    server: Seq<char>,
    phase: Phase,
    events: Seq<EventView<R>>,
)
    ensures
        rank(phase) <= rank(phase_after(server, phase, events)),
    decreases events.len(),
{
    if events.len() > 0 {
        lemma_step_advances(server, phase, events.first());
        lemma_phase_never_goes_back(
            server,
            transition(server, phase, events.first()).phase,
            events.drop_first(),
        );
    }
}

/// The actions of a run come in the order of the pipeline, each at most
/// once: first the activation query, then the reading of its body, then
/// the forward, then the reply. A handler that starts in a later phase
/// asks for nothing that belongs to an earlier one, and no run asks for
/// more than four things.
pub proof fn lemma_actions_follow_pipeline<R>(
    server: Seq<char>,
    phase: Phase,
    events: Seq<EventView<R>>,
)
    ensures
        forall|i: int|
            0 <= i < actions_of(server, phase, events).len() ==> rank(phase) < stage(
                #[trigger] actions_of(server, phase, events)[i],
            ),
        forall|i: int, j: int|
            0 <= i < j < actions_of(server, phase, events).len() ==> stage(
                #[trigger] actions_of(server, phase, events)[i],
            ) < stage(#[trigger] actions_of(server, phase, events)[j]),
        actions_of(server, phase, events).len() + rank(phase) <= 4,
    decreases events.len(),
{
    if events.len() > 0 {
        let step = transition(server, phase, events.first());
        lemma_step_advances(server, phase, events.first());
        lemma_actions_follow_pipeline(server, step.phase, events.drop_first());
    }
}

/// Once the reply is decided, no event brings another action.
pub proof fn lemma_nothing_after_reply<R>(server: Seq<char>, events: Seq<EventView<R>>)
    ensures
        actions_of(server, Phase::Responded, events) == Seq::<ActionView<R>>::empty(),
        phase_after(server, Phase::Responded, events) == Phase::Responded,
    decreases events.len(),
{
    if events.len() > 0 {
        lemma_nothing_after_reply(server, events.drop_first());
    }
}

/// Exactly one reply: when a step decides the reply, that reply is the
/// only action of the rest of the run, whatever is reported afterwards.
pub proof fn lemma_reply_ends_run<R>(
    server: Seq<char>,
    phase: Phase,
    event: EventView<R>,
    rest: Seq<EventView<R>>,
)
    requires
        transition(server, phase, event).action matches Some(ActionView::Respond(_)),
    ensures
        actions_of(server, phase, seq![event] + rest) == seq![
            transition(server, phase, event).action->0,
        ],
        phase_after(server, phase, seq![event] + rest) == Phase::Responded,
{
    lemma_run_unfolds(server, phase, event, rest);
    lemma_step_advances(server, phase, event);
    lemma_nothing_after_reply(server, rest);
}

/// A request without a `Host` header, or with one that is not text, is
/// answered with a 500 at once, and no outbound call is ever asked for:
/// the failure reply is the only action of the whole run.
pub proof fn lemma_no_host_no_calls<R>(
    server: Seq<char>,
    host_header: Option<Seq<u8>>,
    rest: Seq<EventView<R>>,
)
    requires
        host_header matches Some(raw) ==> !is_header_text(raw),
    ensures
        ({
            let failure = if host_header is None {
                Failure::MissingHost
            } else {
                Failure::InvalidHostEncoding
            };
            &&& actions_of(
                server,
                Phase::Start,
                seq![EventView::RequestReceived { host_header }] + rest,
            ) == seq![ActionView::<R>::Respond(Reply::Failed(failure))]
            &&& Reply::<R>::Failed(failure).status_code() == Some(500u16)
        }),
{
    let event = EventView::<R>::RequestReceived { host_header };
    lemma_reply_ends_run(server, Phase::Start, event, rest);
}

/// A request with a textual `Host` header brings exactly one activation
/// query, as the first action of the run: a `POST` to the activation
/// authority whose body is the host. Nothing that is reported afterwards
/// brings another.
pub proof fn lemma_one_activation_per_request<R>(
    server: Seq<char>,
    raw: Seq<u8>,
    rest: Seq<EventView<R>>,
)
    requires
        is_header_text(raw),
    ensures
        ({
            let actions = actions_of(
                server,
                Phase::Start,
                seq![EventView::<R>::RequestReceived { host_header: Some(raw) }] + rest,
            );
            &&& actions.len() >= 1
            &&& actions[0] == ActionView::<R>::Activate(query_for(server, ascii_text(raw)))
            &&& forall|i: int| 1 <= i < actions.len() ==> !(#[trigger] actions[i] is Activate)
        }),
{
    let event = EventView::<R>::RequestReceived { host_header: Some(raw) };
    let events = seq![event] + rest;
    lemma_run_unfolds(server, Phase::Start, event, rest);
    lemma_actions_follow_pipeline(server, Phase::Start, events);
    let actions = actions_of(server, Phase::Start, events);
    assert forall|i: int| 1 <= i < actions.len() implies !(#[trigger] actions[i] is Activate) by {
        assert(stage(actions[0]) < stage(actions[i]));
    }
}

/// The failure, if any, with which an event ends the activation.
pub open spec fn activation_failure<R>(phase: Phase, event: EventView<R>) -> Option<Failure> {
    match (phase, event) {
        (Phase::HostExtracted, EventView::ActivationUnreachable) => Some(
            Failure::ActivationUnreachable,
        ),
        (Phase::HostExtracted, EventView::ActivationAnswered { status }) => if status
            != STATUS_ACTIVATED {
            Some(Failure::ActivationRejected { status })
        } else {
            None
        },
        (Phase::ActivationAccepted, EventView::ActivationBodyUnreadable) => Some(
            Failure::ActivationBodyUnreadable,
        ),
        (Phase::ActivationAccepted, EventView::ActivationBodyRead { body }) => if !valid_utf8(
            body,
        ) {
            Some(Failure::ActivationBodyUndecodable)
        } else {
            None
        },
        _ => None,
    }
}

/// An activation that is refused, or whose answer cannot be obtained, read
/// or decoded, ends the handling with a 500: the failure reply is all that
/// the rest of the run brings, so the forward is never asked for.
pub proof fn lemma_failed_activation_never_forwards<R>(
    server: Seq<char>,
    phase: Phase,
    event: EventView<R>,
    rest: Seq<EventView<R>>,
)
    requires
        activation_failure(phase, event) is Some,
    ensures
        actions_of(server, phase, seq![event] + rest) == seq![
            ActionView::<R>::Respond(Reply::Failed(activation_failure(phase, event)->0)),
        ],
        Reply::<R>::Failed(activation_failure(phase, event)->0).status_code() == Some(500u16),
{
    lemma_reply_ends_run(server, phase, event, rest);
}

/// The forward goes to the very URL that the activation authority sent:
/// when the body of its answer is the UTF-8 encoding of `url`, the handler
/// asks for a forward to `url`.
pub proof fn lemma_forward_targets_resolved_url<R>(server: Seq<char>, url: Seq<char>)
    ensures
        transition(
            server,
            Phase::ActivationAccepted,
            EventView::<R>::ActivationBodyRead { body: encode_utf8(url) },
        ).action == Some(ActionView::<R>::Forward { upstream_url: url }),
{
    broadcast use vstd::utf8::encode_utf8_valid_utf8, vstd::utf8::encode_utf8_decode_utf8;

}

/// The forward's outcome decides the reply, and that reply ends the run.
pub proof fn lemma_forward_outcome_decides_reply<R>(
    server: Seq<char>,
    outcome: ForwardOutcome<R>,
    rest: Seq<EventView<R>>,
)
    ensures
        actions_of(server, Phase::Activated, seq![EventView::ForwardFinished(outcome)] + rest)
            == seq![ActionView::Respond(reply_of(outcome))],
{
    lemma_reply_ends_run(server, Phase::Activated, EventView::ForwardFinished(outcome), rest);
}

/// Pass-through: an upstream response is relayed to the client as the very
/// value that the forward yielded, and that reply ends the run.
pub proof fn lemma_upstream_response_is_relayed<R>(
    server: Seq<char>,
    response: R,
    rest: Seq<EventView<R>>,
)
    ensures
        actions_of(
            server,
            Phase::Activated,
            seq![EventView::ForwardFinished(ForwardOutcome::Answered(response))] + rest,
        ) == seq![ActionView::Respond(Reply::Relayed(response))],
{
    lemma_forward_outcome_decides_reply(server, ForwardOutcome::Answered(response), rest);
}

/// The whole pipeline: a request whose host is text, an activation that
/// answers 200 with a UTF-8 body, and a forward that the upstream answers,
/// bring the four actions in order, with the host, the URL and the response
/// handed on unchanged.
pub proof fn lemma_successful_run<R>(server: Seq<char>, raw: Seq<u8>, body: Seq<u8>, response: R)
    requires
        is_header_text(raw),
        valid_utf8(body),
    ensures
        actions_of(
            server,
            Phase::Start,
            seq![
                EventView::RequestReceived { host_header: Some(raw) },
                EventView::ActivationAnswered { status: STATUS_ACTIVATED },
                EventView::ActivationBodyRead { body },
                EventView::ForwardFinished(ForwardOutcome::Answered(response)),
            ],
        ) == seq![
            ActionView::Activate(query_for(server, ascii_text(raw))),
            ActionView::ReadActivationBody,
            ActionView::Forward { upstream_url: decode_utf8(body) },
            ActionView::Respond(Reply::Relayed(response)),
        ],
{
    let e0 = EventView::<R>::RequestReceived { host_header: Some(raw) };
    let e1 = EventView::<R>::ActivationAnswered { status: STATUS_ACTIVATED };
    let e2 = EventView::<R>::ActivationBodyRead { body };
    let e3 = EventView::<R>::ForwardFinished(ForwardOutcome::Answered(response));
    assert(seq![e0, e1, e2, e3] =~= seq![e0] + seq![e1, e2, e3]);
    assert(seq![e1, e2, e3] =~= seq![e1] + seq![e2, e3]);
    assert(seq![e2, e3] =~= seq![e2] + seq![e3]);
    assert(seq![e3] =~= seq![e3] + Seq::<EventView<R>>::empty());
    lemma_run_unfolds(server, Phase::Start, e0, seq![e1, e2, e3]);
    lemma_run_unfolds(server, Phase::HostExtracted, e1, seq![e2, e3]);
    lemma_run_unfolds(server, Phase::ActivationAccepted, e2, seq![e3]);
    lemma_run_unfolds(server, Phase::Activated, e3, Seq::<EventView<R>>::empty());
    assert(actions_of(
        server,
        Phase::Start,
        seq![e0, e1, e2, e3],
    ) =~= seq![
        ActionView::Activate(query_for(server, ascii_text(raw))),
        ActionView::ReadActivationBody,
        ActionView::Forward { upstream_url: decode_utf8(body) },
        ActionView::Respond(Reply::Relayed(response)),
    ]);
}

} // verus!
