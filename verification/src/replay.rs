//! Folding a history of events into a state.

use vstd::prelude::*;
use crate::aggregate::{replayed, views, Aggregate, AggregateState};
use crate::error::{Error, KindView};

verus! {

/// A history that can be applied from `state` with at least one event starts
/// with an event that can be applied to `state`, and goes on from the state
/// that this event produces.
pub proof fn replayed_unfolds<A: Aggregate>(
    state: <A::State as View>::V,
    events: Seq<<A::Event as View>::V>,
)
    requires
        events.len() > 0,
    ensures
        replayed::<A>(state, events) == (match A::applied(state, events[0]) {
            Ok(next) => replayed::<A>(next, events.drop_first()),
            Err(message) => Err(message),
        }),
{
}

/// A history of `n` events that can be applied advances the generation by `n`.
pub proof fn replayed_advances_generation<A: Aggregate>(
    state: <A::State as View>::V,
    events: Seq<<A::Event as View>::V>,
)
    requires
        replayed::<A>(state, events) is Ok,
    ensures
        A::State::generation_of(replayed::<A>(state, events)->Ok_0) == A::State::generation_of(
            state,
        ) + events.len(),
    decreases events.len(),
{
    if events.len() > 0 {
        replayed_unfolds::<A>(state, events);
        let next = A::applied(state, events[0])->Ok_0;
        A::applied_advances_generation(state, events[0]);
        replayed_advances_generation::<A>(next, events.drop_first());
    }
}

/// Applies `events` to `state` in order, each event to the state that the one
/// before it produced, and returns the last state. With no events that is
/// `state` itself. The first event that cannot be applied ends the replay
/// with its `ApplicationFailure`.
///
/// Each event takes the state one generation further, so the history must
/// fit into what is left of the `u64` counter.
pub fn replay<A: Aggregate>(state: A::State, events: Vec<A::Event>) -> (r: Result<A::State, Error>)
    requires
        A::State::generation_of(state@) + events.len() <= u64::MAX,
    ensures
        (match r {
            Ok(last) => {
                &&& replayed::<A>(state@, views(events@)) matches Ok(s) && s == last@
                &&& A::State::generation_of(last@) == A::State::generation_of(state@)
                    + events.len()
            },
            Err(e) => replayed::<A>(state@, views(events@)) matches Err(m) && e@
                == KindView::ApplicationFailure(m),
        }),
{
    let ghost start = state@;
    let ghost history = views(events@);
    let mut current = state;
    assert(history.skip(0) == history);
    for event in iter: events.into_iter()
        invariant
            iter.seq() == events@,
            start == state@,
            history == views(events@),
            replayed::<A>(start, history) == replayed::<A>(current@, history.skip(iter.index())),
            A::State::generation_of(current@) + (history.len() - iter.index()) <= u64::MAX,
    {
        proof {
            let rest = history.skip(iter.index());
            assert(rest[0] == event@);
            assert(rest.drop_first() == history.skip(iter.index() + 1));
            replayed_unfolds::<A>(current@, rest);
        }
        match A::apply_event(&current, event) {
            Ok(next) => {
                current = next;
            },
            Err(e) => {
                return Err(e);
            },
        }
    }
    proof {
        replayed_advances_generation::<A>(start, history);
    }
    Ok(current)
}

} // verus!
