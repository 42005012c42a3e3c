//! Sets of readiness events.

use vstd::prelude::*;

verus! {

/// A set of readiness events: what a socket is registered for, or what the
/// reactor reports of it.
#[derive(Clone, Copy, Debug, PartialEq, Eq, Structural)]
pub struct Events {
    pub readable: bool,
    pub writable: bool,
    pub error: bool,
}

impl Events {
    /// The empty set.
    pub fn none() -> (e: Events)
        ensures
            e == (Events { readable: false, writable: false, error: false }),
    {
        Events { readable: false, writable: false, error: false }
    }

    /// The set that holds readability only.
    pub fn readable() -> (e: Events)
        ensures
            e == (Events { readable: true, writable: false, error: false }),
    {
        Events { readable: true, writable: false, error: false }
    }

    /// The set that holds writability only.
    pub fn writable() -> (e: Events)
        ensures
            e == (Events { readable: false, writable: true, error: false }),
    {
        Events { readable: false, writable: true, error: false }
    }

    /// The set that holds the error condition only.
    pub fn error() -> (e: Events)
        ensures
            e == (Events { readable: false, writable: false, error: true }),
    {
        Events { readable: false, writable: false, error: true }
    }

    /// The events that are in either set.
    pub open spec fn union_spec(self, other: Events) -> Events {
        Events {
            readable: self.readable || other.readable,
            writable: self.writable || other.writable,
            error: self.error || other.error,
        }
    }

    /// Returns the events that are in either set.
    #[verifier::when_used_as_spec(union_spec)]
    pub fn union(self, other: Events) -> (e: Events)
        ensures
            e == self.union_spec(other),
    {
        Events {
            readable: self.readable || other.readable,
            writable: self.writable || other.writable,
            error: self.error || other.error,
        }
    }

    /// Whether the set holds readability.
    pub fn is_readable(&self) -> (b: bool)
        ensures
            b == self.readable,
    {
        self.readable
    }

    /// Whether the set holds writability.
    pub fn is_writable(&self) -> (b: bool)
        ensures
            b == self.writable,
    {
        self.writable
    }

    /// Whether the set holds the error condition.
    pub fn is_error(&self) -> (b: bool)
        ensures
            b == self.error,
    {
        self.error
    }
}

} // verus!
