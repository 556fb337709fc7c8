//! What holds of every aggregate, whatever its types.
//!
//! Each law speaks of the results that calls of the two operations can
//! return, so it holds of every implementation of [`Aggregate`].

use vstd::prelude::*;
use crate::aggregate::{replayed, views, Aggregate, AggregateState};
use crate::error::{Error, KindView};
use crate::replay::replay;

verus! {

/// What a call of `handle_command` returned, in contracts: the events by
/// their views, or the failure.
pub open spec fn decision<E: View>(r: Result<Vec<E>, Error>) -> Result<Seq<E::V>, KindView> {
    match r {
        Ok(events) => Ok(views(events@)),
        Err(e) => Err(e@),
    }
}

/// What a call of `apply_event` returned, in contracts: the next state by its
/// view, or the failure.
pub open spec fn transition<S: View>(r: Result<S, Error>) -> Result<S::V, KindView> {
    match r {
        Ok(next) => Ok(next@),
        Err(e) => Err(e@),
    }
}

/// Two reads of the generation of one state agree: the generation is a
/// function of the state's view, and the operations, which borrow the state,
/// leave that view as it is.
pub proof fn generation_is_stable<S: AggregateState>(state: &S, before: u64, after: u64)
    requires
        call_ensures(S::generation, (state,), before),
        call_ensures(S::generation, (state,), after),
    ensures
        before == after,
        before == S::generation_of(state@),
{
}

/// Deciding the same command against the same state again yields the same
/// events in the same order, or the same rejection.
pub proof fn handle_command_is_deterministic<A: Aggregate>(
    state: &A::State,
    again_state: &A::State,
    cmd: A::Command,
    again_cmd: A::Command,
    first: Result<Vec<A::Event>, Error>,
    second: Result<Vec<A::Event>, Error>,
)
    requires
        again_state@ == state@,
        again_cmd@ == cmd@,
        call_ensures(A::handle_command, (state, cmd), first),
        call_ensures(A::handle_command, (again_state, again_cmd), second),
    ensures
        decision(first) == decision(second),
{
}

/// Applying the same event to the same state again yields the same state, or
/// the same failure.
pub proof fn apply_event_is_deterministic<A: Aggregate>(
    state: &A::State,
    again_state: &A::State,
    evt: A::Event,
    again_evt: A::Event,
    first: Result<A::State, Error>,
    second: Result<A::State, Error>,
)
    requires
        again_state@ == state@,
        again_evt@ == evt@,
        call_ensures(A::apply_event, (state, evt), first),
        call_ensures(A::apply_event, (again_state, again_evt), second),
    ensures
        transition(first) == transition(second),
{
}

/// An event applied twice to one state, each time to that state and not to
/// the result of the other application, gives two states of the same content,
/// both one generation past the state they came from: the result does not
/// depend on how often the event is applied.
pub proof fn independent_applications_agree<A: Aggregate>(
    state: &A::State,
    evt: A::Event,
    again_evt: A::Event,
    first: A::State,
    second: Result<A::State, Error>,
)
    requires
        again_evt@ == evt@,
        call_ensures(A::apply_event, (state, evt), Ok::<A::State, Error>(first)),
        call_ensures(A::apply_event, (state, again_evt), second),
    ensures
        second matches Ok(other) && other@ == first@,
        A::State::generation_of(first@) == A::State::generation_of(state@) + 1,
        A::State::generation_of(second->Ok_0@) == A::State::generation_of(state@) + 1,
{
}

/// The events that `handle_command` returned for a state replay on that state
/// without failure: no event that an aggregate decided is one that it cannot
/// apply.
pub proof fn decided_events_replay<A: Aggregate>(
    state: A::State,
    cmd: A::Command,
    events: Vec<A::Event>,
    outcome: Result<A::State, Error>,
)
    requires
        call_ensures(A::handle_command, (&state, cmd), Ok::<Vec<A::Event>, Error>(events)),
        call_ensures(replay::<A>, (state, events), outcome),
    ensures
        replayed::<A>(state@, views(events@)) is Ok,
        outcome matches Ok(last) && A::State::generation_of(last@) == A::State::generation_of(
            state@,
        ) + events.len(),
{
    A::decided_events_apply(state@, cmd@);
}

} // verus!
