//! Core contracts of an event-sourced domain model: events, state snapshots
//! with a generation counter, and the decide/apply pair of an aggregate.

pub mod aggregate;
pub mod error;
pub mod laws;
pub mod post;
pub mod replay;

pub use aggregate::{Aggregate, AggregateState, Event};
pub use error::{Error, Kind, KindView};
pub use replay::replay;
