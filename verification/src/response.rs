//! What a machine answers to the reactor.

use crate::error::Error;
use crate::time::Time;
use vstd::prelude::*;

verus! {

/// `rotor::Void`, the seed type of a response that cannot spawn: the type
/// has no values.
#[verifier::external_type_specification]
#[verifier::external_body]
pub struct ExVoid(rotor::Void);

/// The answer of a machine to one callback of the reactor.
///
/// `M` is the machine and `N` the seed of a machine that the reactor is
/// asked to spawn.
#[derive(Debug)]
pub enum Response<M, N> {
    /// The machine goes on, without a deadline.
    Normal(M),
    /// The machine goes on and asks for a timeout callback at the given
    /// time.
    Deadline(M, Time),
    /// The machine goes on and asks for a new machine to be created from
    /// the seed.
    Spawn(M, N),
    /// The machine failed and is gone.
    Error(Error),
    /// The machine ended and is gone.
    Done,
}

impl<M, N> Response<M, N> {
    /// The machine goes on.
    pub fn ok(machine: M) -> (res: Response<M, N>)
        ensures
            res == Response::<M, N>::Normal(machine),
    {
        Response::Normal(machine)
    }

    /// The machine goes on and the reactor spawns a machine from `seed`.
    pub fn spawn(machine: M, seed: N) -> (res: Response<M, N>)
        ensures
            res == Response::Spawn(machine, seed),
    {
        Response::Spawn(machine, seed)
    }

    /// The machine ended.
    pub fn done() -> (res: Response<M, N>)
        ensures
            res == Response::<M, N>::Done,
    {
        Response::Done
    }

    /// The machine failed.
    pub fn error(err: Error) -> (res: Response<M, N>)
        ensures
            res == Response::<M, N>::Error(err),
    {
        Response::Error(err)
    }

    /// Whether a deadline can be attached: the response keeps its machine
    /// and spawns nothing.
    pub open spec fn takes_deadline(self) -> bool {
        self is Normal || self is Deadline
    }

    /// Attaches a deadline, replacing one that was attached before.
    pub fn deadline(self, time: Time) -> (res: Response<M, N>)
        requires
            self.takes_deadline(),
        ensures
            match self {
                Response::Normal(m) => res == Response::<M, N>::Deadline(m, time),
                Response::Deadline(m, _) => res == Response::<M, N>::Deadline(m, time),
                _ => false,
            },
    {
        match self {
            Response::Normal(m) => Response::Deadline(m, time),
            Response::Deadline(m, _) => Response::Deadline(m, time),
            other => other,
        }
    }

    /// Maps the machine with `self_mapper` and the seed with
    /// `result_mapper`; everything else stays.
    pub fn map<T, U, S, R>(self, self_mapper: S, result_mapper: R) -> (res: Response<T, U>) where
        S: FnOnce(M) -> T,
        R: FnOnce(N) -> U,

        requires
            match self {
                Response::Normal(m) => self_mapper.requires((m,)),
                Response::Deadline(m, _) => self_mapper.requires((m,)),
                Response::Spawn(m, n) => self_mapper.requires((m,)) && result_mapper.requires(
                    (n,),
                ),
                _ => true,
            },
        ensures
            match self {
                Response::Normal(m) => res matches Response::Normal(t) && self_mapper.ensures(
                    (m,),
                    t,
                ),
                Response::Deadline(m, time) => res matches Response::Deadline(t, at) && at == time
                    && self_mapper.ensures((m,), t),
                Response::Spawn(m, n) => res matches Response::Spawn(t, u) && self_mapper.ensures(
                    (m,),
                    t,
                ) && result_mapper.ensures((n,), u),
                Response::Error(e) => res == Response::<T, U>::Error(e),
                Response::Done => res == Response::<T, U>::Done,
            },
    {
        match self {
            Response::Normal(m) => Response::Normal(self_mapper(m)),
            Response::Deadline(m, time) => Response::Deadline(self_mapper(m), time),
            Response::Spawn(m, n) => Response::Spawn(self_mapper(m), result_mapper(n)),
            Response::Error(e) => Response::Error(e),
            Response::Done => Response::Done,
        }
    }

    /// Maps the machine with `op`; everything else stays.
    pub fn map_self<T, F>(self, op: F) -> (res: Response<T, N>) where F: FnOnce(M) -> T
        requires
            match self {
                Response::Normal(m) => op.requires((m,)),
                Response::Deadline(m, _) => op.requires((m,)),
                Response::Spawn(m, _) => op.requires((m,)),
                _ => true,
            },
        ensures
            match self {
                Response::Normal(m) => res matches Response::Normal(t) && op.ensures((m,), t),
                Response::Deadline(m, time) => res matches Response::Deadline(t, at) && at == time
                    && op.ensures((m,), t),
                Response::Spawn(m, n) => res matches Response::Spawn(t, seed) && seed == n
                    && op.ensures((m,), t),
                Response::Error(e) => res == Response::<T, N>::Error(e),
                Response::Done => res == Response::<T, N>::Done,
            },
    {
        match self {
            Response::Normal(m) => Response::Normal(op(m)),
            Response::Deadline(m, time) => Response::Deadline(op(m), time),
            Response::Spawn(m, n) => Response::Spawn(op(m), n),
            Response::Error(e) => Response::Error(e),
            Response::Done => Response::Done,
        }
    }

    /// Whether the machine is gone.
    pub fn is_stopped(&self) -> (stopped: bool)
        ensures
            stopped == (self is Error || self is Done),
    {
        match self {
            Response::Error(_) | Response::Done => true,
            _ => false,
        }
    }
}

} // verus!
