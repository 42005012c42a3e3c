//! What a machine sees of the reactor during one callback.

use crate::time::Time;
use rotor::Notifier;
use vstd::prelude::*;

verus! {

/// `rotor::Notifier`, the handle with which any thread can ask the reactor
/// to wake up one machine. The machines only carry it and hand it on.
#[verifier::external_type_specification]
#[verifier::external_body]
pub struct ExNotifier(Notifier);

/// What the reactor lends a machine for one callback: the time of the
/// current iteration, a notifier that wakes up the machine being called,
/// and the handle `reactor` with which sockets register themselves.
pub struct Scope<R> {
    pub now: Time,
    pub notifier: Notifier,
    pub reactor: R,
}

impl<R> Scope<R> {
    /// Makes a scope from its parts.
    pub fn new(now: Time, notifier: Notifier, reactor: R) -> (scope: Scope<R>)
        ensures
            scope.now == now,
            scope.notifier == notifier,
            scope.reactor == reactor,
    {
        Scope { now, notifier, reactor }
    }

    /// The time of the current iteration of the reactor.
    pub fn now(&self) -> (now: Time)
        ensures
            now == self.now,
    {
        self.now
    }

    /// A notifier that wakes up the machine being called.
    pub fn notifier(&self) -> (notifier: Notifier)
        ensures
            notifier == self.notifier,
    {
        clone_notifier(&self.notifier)
    }
}

/// `Notifier::clone` copies the token of the machine and clones the sender
/// of the reactor's queue of notifications: the copy is a notifier of the
/// same machine at the same reactor, and stands for the same value here.
#[verifier::external_body]
pub(crate) fn clone_notifier(notifier: &Notifier) -> (copy: Notifier)
    ensures
        copy == *notifier,
{
    notifier.clone()
}

} // verus!
