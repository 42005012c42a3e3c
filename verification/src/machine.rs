//! What the reactor calls on a machine.

use crate::events::Events;
use crate::response::Response;
use crate::scope::Scope;
use rotor::Void;
use vstd::prelude::*;

verus! {

/// A state machine that a reactor with the handle `R` can drive.
///
/// Every callback takes the machine by value and answers with a
/// [`Response`], which holds the machine again unless it has ended.
pub trait Machine<R>: Sized {
    /// What a new machine of this type is made of.
    type Seed;

    /// Creates a machine from a seed that some machine asked to spawn.
    fn create(seed: Self::Seed, scope: &mut Scope<R>) -> Response<Self, Void>;

    /// The socket of the machine is ready for `events`.
    fn ready(self, events: Events, scope: &mut Scope<R>) -> Response<Self, Self::Seed>;

    /// The machine that this machine asked to spawn has been created.
    fn spawned(self, scope: &mut Scope<R>) -> Response<Self, Self::Seed>;

    /// The deadline of the machine has passed.
    fn timeout(self, scope: &mut Scope<R>) -> Response<Self, Self::Seed>;

    /// The machine was woken up through its notifier.
    fn wakeup(self, scope: &mut Scope<R>) -> Response<Self, Self::Seed>;
}

} // verus!
