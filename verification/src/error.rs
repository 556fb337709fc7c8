//! The failure channel shared by every operation of the protocol.

use vstd::prelude::*;

verus! {

/// The kind of failure that occurred, with the message that explains it.
#[derive(Debug)]
pub enum Kind {
    /// An event could not be applied to the state it was offered.
    ApplicationFailure(String),
    /// A command was rejected by the aggregate's business rules.
    CommandFailure(String),
    /// An event store could not retrieve or append events.
    StoreFailure(String),
}

/// What a failure is in contracts: its kind, and its message as characters.
pub enum KindView {
    ApplicationFailure(Seq<char>),
    CommandFailure(Seq<char>),
    StoreFailure(Seq<char>),
}

impl KindView {
    /// The message carried by the failure, whatever its kind.
    pub open spec fn message(self) -> Seq<char> {
        match self {
            KindView::ApplicationFailure(m) => m,
            KindView::CommandFailure(m) => m,
            KindView::StoreFailure(m) => m,
        }
    }
}

impl View for Kind {
    type V = KindView;

    open spec fn view(&self) -> KindView {
        match self {
            Kind::ApplicationFailure(m) => KindView::ApplicationFailure(m@),
            Kind::CommandFailure(m) => KindView::CommandFailure(m@),
            Kind::StoreFailure(m) => KindView::StoreFailure(m@),
        }
    }
}

impl Kind {
    /// The message carried by the failure, whatever its kind.
    pub fn message(&self) -> (m: &str)
        ensures
            m@ == self@.message(),
    {
        match self {
            Kind::ApplicationFailure(m) => m.as_str(),
            Kind::CommandFailure(m) => m.as_str(),
            Kind::StoreFailure(m) => m.as_str(),
        }
    }
}

/// An event sourcing error: exactly one failure of one kind.
#[derive(Debug)]
pub struct Error {
    kind: Kind,
}

impl View for Error {
    type V = KindView;

    closed spec fn view(&self) -> KindView {
        self.kind@
    }
}

impl Error {
    /// Wraps a failure of the given kind.
    pub fn new(kind: Kind) -> (e: Error)
        ensures
            e@ == kind@,
    {
        Error { kind }
    }

    /// The failure that this error wraps.
    pub fn kind(&self) -> (k: &Kind)
        ensures
            k@ == self@,
    {
        &self.kind
    }

    /// The text shown for this error: the wrapped message, verbatim, whatever the kind.
    pub fn message(&self) -> (m: &str)
        ensures
            m@ == self@.message(),
    {
        self.kind.message()
    }

    /// A fixed description, the same for every error.
    pub fn description(&self) -> (d: &'static str)
        ensures
            d@ == "An eventsourcing error ocurred"@,
    {
        "An eventsourcing error ocurred"
    }
}

} // verus!
