//! The three capabilities of an event-sourced model and the protocol that ties them together.
//!
//! An aggregate never stores its state. The state is derived from an ordered
//! history of events: a command is decided against the current state and
//! yields events ([`Aggregate::handle_command`]); each event is then folded
//! into the state, one at a time ([`Aggregate::apply_event`]).
//!
//! Contracts speak of values through their views, so that two strings with
//! the same characters count as the same title, message or payload. Each
//! operation is tied to a function of the views of its arguments: that is
//! what makes it deterministic.

use vstd::prelude::*;
use crate::error::{Error, KindView};

verus! {

/// An immutable fact about something that happened to an aggregate.
pub trait Event: View {
    /// The discriminator of an event, as a function of what the event is.
    spec fn type_of(event: Self::V) -> Seq<char>;

    /// A short, persistence-stable name of the event's variant.
    fn event_type(&self) -> (name: &str)
        ensures
            name@ == Self::type_of(self@),
    ;
}

/// A snapshot of an aggregate's data at one point of its event history.
pub trait AggregateState: View {
    /// The generation recorded in a snapshot.
    spec fn generation_of(snapshot: Self::V) -> nat;

    /// The position of the snapshot in its history: one for the first state,
    /// one more for each event applied since.
    fn generation(&self) -> (g: u64)
        ensures
            g == Self::generation_of(self@),
            g >= 1,
    ;
}

/// The views of a sequence of values, in the same order.
pub open spec fn views<T: View>(items: Seq<T>) -> Seq<T::V> {
    items.map_values(|item: T| item@)
}

/// Folds `events` into `state` with `step`, left to right. The first failure
/// ends the fold, and its message is the result.
pub open spec fn fold_events<S, E>(
    step: spec_fn(S, E) -> Result<S, Seq<char>>,
    state: S,
    events: Seq<E>,
) -> Result<S, Seq<char>>
    decreases events.len(),
{
    if events.len() == 0 {
        Ok(state)
    } else {
        match step(state, events[0]) {
            Ok(next) => fold_events(step, next, events.drop_first()),
            Err(message) => Err(message),
        }
    }
}

/// One kind of business object: its state, command and event types, and the
/// two pure functions that operate on them.
///
/// An implementation gives the two functions twice. `decided` and `applied`
/// say, over views, what a command yields and what an event does; a failure
/// is given by its message. `handle_command` and `apply_event` compute just
/// that. The implementation also proves the two laws of the protocol:
/// an applied event advances the generation by one, and the events decided
/// for a state can be applied to it.
pub trait Aggregate: Sized {
    type Event: Event;

    type Command: View;

    type State: AggregateState;

    /// The events that `cmd` yields in `state`, or the message of the rejection.
    spec fn decided(state: <Self::State as View>::V, cmd: <Self::Command as View>::V) -> Result<
        Seq<<Self::Event as View>::V>,
        Seq<char>,
    >;

    /// The state that follows `state` once `evt` has happened, or the message
    /// that says why `evt` cannot happen in `state`.
    spec fn applied(state: <Self::State as View>::V, evt: <Self::Event as View>::V) -> Result<
        <Self::State as View>::V,
        Seq<char>,
    >;

    /// Every successful application advances the generation by exactly one.
    proof fn applied_advances_generation(
        state: <Self::State as View>::V,
        evt: <Self::Event as View>::V,
    )
        requires
            Self::applied(state, evt) is Ok,
        ensures
            Self::State::generation_of(Self::applied(state, evt)->Ok_0)
                == Self::State::generation_of(state) + 1,
    ;

    /// The events decided for a state can be applied to that state, in the
    /// order decided, each to the state that the one before it produced.
    proof fn decided_events_apply(
        state: <Self::State as View>::V,
        cmd: <Self::Command as View>::V,
    )
        requires
            Self::decided(state, cmd) is Ok,
        ensures
            fold_events(
                |s: <Self::State as View>::V, e: <Self::Event as View>::V| Self::applied(s, e),
                state,
                Self::decided(state, cmd)->Ok_0,
            ) is Ok,
    ;

    /// Computes the state that follows `state` once `evt` has happened.
    ///
    /// Fails with an `ApplicationFailure`, and with no other kind, exactly
    /// when `evt` cannot happen in `state`. The generation counter is a
    /// `u64`, so a state at the last generation takes no further event.
    fn apply_event(state: &Self::State, evt: Self::Event) -> (r: Result<Self::State, Error>)
        requires
            Self::State::generation_of(state@) < u64::MAX,
        ensures
            (match r {
                Ok(next) => {
                    &&& Self::applied(state@, evt@) matches Ok(s) && s == next@
                    &&& Self::State::generation_of(next@) == Self::State::generation_of(state@) + 1
                },
                Err(e) => Self::applied(state@, evt@) matches Err(m) && e@
                    == KindView::ApplicationFailure(m),
            }),
    ;

    /// Decides what `cmd` makes happen in `state`: zero or more events, all of
    /// them or none.
    ///
    /// Fails with a `CommandFailure`, and with no other kind, exactly when
    /// `cmd` is rejected in `state`.
    fn handle_command(state: &Self::State, cmd: Self::Command) -> (r: Result<
        Vec<Self::Event>,
        Error,
    >)
        ensures
            (match r {
                Ok(events) => Self::decided(state@, cmd@) matches Ok(d) && d == views(events@),
                Err(e) => Self::decided(state@, cmd@) matches Err(m) && e@
                    == KindView::CommandFailure(m),
            }),
    ;
}

/// The state reached from `state` by applying `events` in order, or the
/// message of the first event that cannot be applied.
pub open spec fn replayed<A: Aggregate>(
    state: <A::State as View>::V,
    events: Seq<<A::Event as View>::V>,
) -> Result<<A::State as View>::V, Seq<char>> {
    fold_events(|s: <A::State as View>::V, e: <A::Event as View>::V| A::applied(s, e), state, events)
}

} // verus!
