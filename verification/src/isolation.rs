//! Handlers that run side by side.
//!
//! Every request has a handler of its own, and a handler's step depends on
//! nothing but that handler and the event it is given. So however the
//! events of several requests are interleaved, each request is handled as
//! if it were alone.

use crate::handler::{transition, ActionView, EventView, Phase};
use crate::trace::actions_of;
use vstd::prelude::*;

verus! {

/// An event reported to one of several handlers.
pub struct Addressed<R> {
    /// Which handler the event is for.
    pub handler: nat,
    pub event: EventView<R>,
}

/// An action asked for by one of several handlers.
pub struct Attributed<R> {
    /// Which handler asks.
    pub handler: nat,
    pub action: ActionView<R>,
}

/// The phase of handler `id` among `phases`. A handler that has not taken
/// an event yet is at the start.
pub open spec fn phase_of(phases: Map<nat, Phase>, id: nat) -> Phase {
    if phases.dom().contains(id) {
        phases[id]
    } else {
        Phase::Start
    }
}

/// The events of `mixed` that are for handler `id`, in order.
pub open spec fn events_for<R>(mixed: Seq<Addressed<R>>, id: nat) -> Seq<EventView<R>>
    decreases mixed.len(),
{
    if mixed.len() == 0 {
        Seq::empty()
    } else {
        let later = events_for(mixed.drop_first(), id);
        if mixed.first().handler == id {
            seq![mixed.first().event] + later
        } else {
            later
        }
    }
}

/// The actions of `mixed` that handler `id` asked for, in order.
pub open spec fn actions_by<R>(mixed: Seq<Attributed<R>>, id: nat) -> Seq<ActionView<R>>
    decreases mixed.len(),
{
    if mixed.len() == 0 {
        Seq::empty()
    } else {
        let later = actions_by(mixed.drop_first(), id);
        if mixed.first().handler == id {
            seq![mixed.first().action] + later
        } else {
            later
        }
    }
}

/// The actions, in order, that a set of handlers asks for while the events
/// of `mixed` reach them one after another, each handler stepping on the
/// events that are for it. `phases` holds where each handler stands at the
/// beginning; all of them query the activation authority at `server`.
pub open spec fn actions_side_by_side<R>(
    server: Seq<char>,
    phases: Map<nat, Phase>,
    mixed: Seq<Addressed<R>>,
) -> Seq<Attributed<R>>
    decreases mixed.len(),
{
    if mixed.len() == 0 {
        Seq::empty()
    } else {
        let id = mixed.first().handler;
        let step = transition(server, phase_of(phases, id), mixed.first().event);
        let later = actions_side_by_side(server, phases.insert(id, step.phase), mixed.drop_first());
        match step.action {
            Some(action) => seq![Attributed { handler: id, action }] + later,
            None => later,
        }
    }
}

/// Requests do not interfere: among handlers that run side by side, what
/// one of them asks for is what it would ask for if it took its own events
/// alone, whatever is reported to the others in between.
pub proof fn lemma_handlers_do_not_interfere<R>(
    server: Seq<char>,
    phases: Map<nat, Phase>,
    mixed: Seq<Addressed<R>>,
    id: nat,
)
    ensures
        actions_by(actions_side_by_side(server, phases, mixed), id) == actions_of(
            server,
            phase_of(phases, id),
            events_for(mixed, id),
        ),
    decreases mixed.len(),
{
    if mixed.len() > 0 {
        let first = mixed.first();
        let step = transition(server, phase_of(phases, first.handler), first.event);
        let phases_then = phases.insert(first.handler, step.phase);
        let later = actions_side_by_side(server, phases_then, mixed.drop_first());
        lemma_handlers_do_not_interfere(server, phases_then, mixed.drop_first(), id);
        match step.action {
            Some(action) => {
                let head = Attributed { handler: first.handler, action };
                assert((seq![head] + later).first() == head);
                assert((seq![head] + later).drop_first() =~= later);
            },
            None => {},
        }
        if first.handler == id {
            let own = events_for(mixed.drop_first(), id);
            assert((seq![first.event] + own).first() == first.event);
            assert((seq![first.event] + own).drop_first() =~= own);
        }
    }
}

} // verus!
