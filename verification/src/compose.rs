//! Machines of unlike types in one slot of the reactor.
//!
//! A reactor runs machines of one type. A composed machine is a tagged
//! union of two or three machine types: every callback goes to the branch
//! that is live, and what that branch answers is wrapped under the same
//! tag. So the branch of a composed machine never changes, and the seeds it
//! asks to spawn are seeds of its own branch.

use crate::events::Events;
use crate::machine::Machine;
use crate::response::Response;
use crate::scope::Scope;
use rotor::Void;
use vstd::prelude::*;

pub use rotor::Compose2;

verus! {

//------------ Compose2 -----------------------------------------------------

/// `rotor::Compose2`, the union of two machine types, with its variants `A`
/// and `B`.
#[verifier::external_type_specification]
pub struct ExCompose2<A: Sized, B: Sized>(rotor::Compose2<A, B>);

/// The seed of a [`Compose2`]: the seed of one of its branches.
pub enum Compose2Seed<A, B> {
    As(A),
    Bs(B),
}

/// The branch of a composed machine: 0 for `A`, 1 for `B`.
pub open spec fn branch2<A, B>(machine: Compose2<A, B>) -> int {
    match machine {
        Compose2::A(_) => 0,
        Compose2::B(_) => 1,
    }
}

impl<A, B> Compose2Seed<A, B> {
    /// The branch that the seed is for: 0 for `As`, 1 for `Bs`.
    pub open spec fn branch(self) -> int {
        match self {
            Compose2Seed::As(_) => 0,
            Compose2Seed::Bs(_) => 1,
        }
    }
}

/// Whether the machine that an answer holds, if it holds one, is in the
/// given branch.
pub open spec fn stays2<A, B, N>(res: Response<Compose2<A, B>, N>, branch: int) -> bool {
    match res {
        Response::Normal(m) => branch2(m) == branch,
        Response::Deadline(m, _) => branch2(m) == branch,
        Response::Spawn(m, _) => branch2(m) == branch,
        _ => true,
    }
}

/// Whether the seed that an answer asks to spawn, if it asks, is for the
/// given branch.
pub open spec fn spawns2<M, SA, SB>(res: Response<M, Compose2Seed<SA, SB>>, branch: int) -> bool {
    res matches Response::Spawn(_, seed) ==> seed.branch() == branch
}

fn a2<A, B>(machine: A) -> (composed: Compose2<A, B>)
    ensures
        composed == Compose2::<A, B>::A(machine),
{
    Compose2::A(machine)
}

fn b2<A, B>(machine: B) -> (composed: Compose2<A, B>)
    ensures
        composed == Compose2::<A, B>::B(machine),
{
    Compose2::B(machine)
}

fn as2<A, B>(seed: A) -> (composed: Compose2Seed<A, B>)
    ensures
        composed == Compose2Seed::<A, B>::As(seed),
{
    Compose2Seed::As(seed)
}

fn bs2<A, B>(seed: B) -> (composed: Compose2Seed<A, B>)
    ensures
        composed == Compose2Seed::<A, B>::Bs(seed),
{
    Compose2Seed::Bs(seed)
}

/// The answer of a machine of the branch `A` to its creation, under the
/// tag of the branch.
pub open spec fn created2_a<A, B>(inner: Response<A, Void>) -> Response<Compose2<A, B>, Void> {
    match inner {
        Response::Normal(m) => Response::Normal(Compose2::A(m)),
        Response::Deadline(m, at) => Response::Deadline(Compose2::A(m), at),
        Response::Spawn(m, seed) => Response::Spawn(Compose2::A(m), seed),
        Response::Error(err) => Response::Error(err),
        Response::Done => Response::Done,
    }
}

/// The answer of a machine of the branch `A`, under the tag of the
/// branch: the machine and a seed that it asks to spawn are tagged,
/// everything else stays.
pub open spec fn answered2_a<A, B, SA, SB>(inner: Response<A, SA>) -> Response<
    Compose2<A, B>,
    Compose2Seed<SA, SB>,
> {
    match inner {
        Response::Normal(m) => Response::Normal(Compose2::A(m)),
        Response::Deadline(m, at) => Response::Deadline(Compose2::A(m), at),
        Response::Spawn(m, seed) => Response::Spawn(Compose2::A(m), Compose2Seed::As(seed)),
        Response::Error(err) => Response::Error(err),
        Response::Done => Response::Done,
    }
}

/// The answer of a machine of the branch `B` to its creation, under the
/// tag of the branch.
pub open spec fn created2_b<A, B>(inner: Response<B, Void>) -> Response<Compose2<A, B>, Void> {
    match inner {
        Response::Normal(m) => Response::Normal(Compose2::B(m)),
        Response::Deadline(m, at) => Response::Deadline(Compose2::B(m), at),
        Response::Spawn(m, seed) => Response::Spawn(Compose2::B(m), seed),
        Response::Error(err) => Response::Error(err),
        Response::Done => Response::Done,
    }
}

/// The answer of a machine of the branch `B`, under the tag of the
/// branch: the machine and a seed that it asks to spawn are tagged,
/// everything else stays.
pub open spec fn answered2_b<A, B, SA, SB>(inner: Response<B, SB>) -> Response<
    Compose2<A, B>,
    Compose2Seed<SA, SB>,
> {
    match inner {
        Response::Normal(m) => Response::Normal(Compose2::B(m)),
        Response::Deadline(m, at) => Response::Deadline(Compose2::B(m), at),
        Response::Spawn(m, seed) => Response::Spawn(Compose2::B(m), Compose2Seed::Bs(seed)),
        Response::Error(err) => Response::Error(err),
        Response::Done => Response::Done,
    }
}

/// Every callback goes to the machine in the branch that is live, and what
/// that machine answers is the answer, under the tag of the branch.
impl<R, AA, BB> Machine<R> for Compose2<AA, BB> where AA: Machine<R>, BB: Machine<R> {
    type Seed = Compose2Seed<AA::Seed, BB::Seed>;

    fn create(seed: Self::Seed, scope: &mut Scope<R>) -> (res: Response<Self, Void>)
        ensures
            stays2(res, seed.branch()),
            seed matches Compose2Seed::As(s) ==> exists|sc: &mut Scope<R>, inner: Response<AA, Void>| #[trigger]
                call_ensures(<AA as Machine<R>>::create, (s, sc), inner) && *sc == *old(scope)
                    && *final(sc) == *final(scope) && res == created2_a::<AA, BB>(inner),
            seed matches Compose2Seed::Bs(s) ==> exists|sc: &mut Scope<R>, inner: Response<BB, Void>| #[trigger]
                call_ensures(<BB as Machine<R>>::create, (s, sc), inner) && *sc == *old(scope)
                    && *final(sc) == *final(scope) && res == created2_b::<AA, BB>(inner),
    {
        match seed {
            Compose2Seed::As(s) => {
                let inner = AA::create(s, scope);
                let res = inner.map_self(a2);
                assert(res == created2_a::<AA, BB>(inner));
                res
            },
            Compose2Seed::Bs(s) => {
                let inner = BB::create(s, scope);
                let res = inner.map_self(b2);
                assert(res == created2_b::<AA, BB>(inner));
                res
            },
        }
    }

    fn ready(self, events: Events, scope: &mut Scope<R>) -> (res: Response<Self, Self::Seed>)
        ensures
            stays2(res, branch2(self)),
            spawns2(res, branch2(self)),
            self matches Compose2::A(m) ==> exists|sc: &mut Scope<R>, inner: Response<AA, AA::Seed>| #[trigger]
                call_ensures(<AA as Machine<R>>::ready, (m, events, sc), inner) && *sc == *old(scope)
                    && *final(sc) == *final(scope) && res == answered2_a::<AA, BB, AA::Seed, BB::Seed>(inner),
            self matches Compose2::B(m) ==> exists|sc: &mut Scope<R>, inner: Response<BB, BB::Seed>| #[trigger]
                call_ensures(<BB as Machine<R>>::ready, (m, events, sc), inner) && *sc == *old(scope)
                    && *final(sc) == *final(scope) && res == answered2_b::<AA, BB, AA::Seed, BB::Seed>(inner),
    {
        match self {
            Compose2::A(m) => {
                let inner = m.ready(events, scope);
                let res = inner.map(a2, as2);
                assert(res == answered2_a::<AA, BB, AA::Seed, BB::Seed>(inner));
                res
            },
            Compose2::B(m) => {
                let inner = m.ready(events, scope);
                let res = inner.map(b2, bs2);
                assert(res == answered2_b::<AA, BB, AA::Seed, BB::Seed>(inner));
                res
            },
        }
    }

    fn spawned(self, scope: &mut Scope<R>) -> (res: Response<Self, Self::Seed>)
        ensures
            stays2(res, branch2(self)),
            spawns2(res, branch2(self)),
            self matches Compose2::A(m) ==> exists|sc: &mut Scope<R>, inner: Response<AA, AA::Seed>| #[trigger]
                call_ensures(<AA as Machine<R>>::spawned, (m, sc), inner) && *sc == *old(scope)
                    && *final(sc) == *final(scope) && res == answered2_a::<AA, BB, AA::Seed, BB::Seed>(inner),
            self matches Compose2::B(m) ==> exists|sc: &mut Scope<R>, inner: Response<BB, BB::Seed>| #[trigger]
                call_ensures(<BB as Machine<R>>::spawned, (m, sc), inner) && *sc == *old(scope)
                    && *final(sc) == *final(scope) && res == answered2_b::<AA, BB, AA::Seed, BB::Seed>(inner),
    {
        match self {
            Compose2::A(m) => {
                let inner = m.spawned(scope);
                let res = inner.map(a2, as2);
                assert(res == answered2_a::<AA, BB, AA::Seed, BB::Seed>(inner));
                res
            },
            Compose2::B(m) => {
                let inner = m.spawned(scope);
                let res = inner.map(b2, bs2);
                assert(res == answered2_b::<AA, BB, AA::Seed, BB::Seed>(inner));
                res
            },
        }
    }

    fn timeout(self, scope: &mut Scope<R>) -> (res: Response<Self, Self::Seed>)
        ensures
            stays2(res, branch2(self)),
            spawns2(res, branch2(self)),
            self matches Compose2::A(m) ==> exists|sc: &mut Scope<R>, inner: Response<AA, AA::Seed>| #[trigger]
                call_ensures(<AA as Machine<R>>::timeout, (m, sc), inner) && *sc == *old(scope)
                    && *final(sc) == *final(scope) && res == answered2_a::<AA, BB, AA::Seed, BB::Seed>(inner),
            self matches Compose2::B(m) ==> exists|sc: &mut Scope<R>, inner: Response<BB, BB::Seed>| #[trigger]
                call_ensures(<BB as Machine<R>>::timeout, (m, sc), inner) && *sc == *old(scope)
                    && *final(sc) == *final(scope) && res == answered2_b::<AA, BB, AA::Seed, BB::Seed>(inner),
    {
        match self {
            Compose2::A(m) => {
                let inner = m.timeout(scope);
                let res = inner.map(a2, as2);
                assert(res == answered2_a::<AA, BB, AA::Seed, BB::Seed>(inner));
                res
            },
            Compose2::B(m) => {
                let inner = m.timeout(scope);
                let res = inner.map(b2, bs2);
                assert(res == answered2_b::<AA, BB, AA::Seed, BB::Seed>(inner));
                res
            },
        }
    }

    fn wakeup(self, scope: &mut Scope<R>) -> (res: Response<Self, Self::Seed>)
        ensures
            stays2(res, branch2(self)),
            spawns2(res, branch2(self)),
            self matches Compose2::A(m) ==> exists|sc: &mut Scope<R>, inner: Response<AA, AA::Seed>| #[trigger]
                call_ensures(<AA as Machine<R>>::wakeup, (m, sc), inner) && *sc == *old(scope)
                    && *final(sc) == *final(scope) && res == answered2_a::<AA, BB, AA::Seed, BB::Seed>(inner),
            self matches Compose2::B(m) ==> exists|sc: &mut Scope<R>, inner: Response<BB, BB::Seed>| #[trigger]
                call_ensures(<BB as Machine<R>>::wakeup, (m, sc), inner) && *sc == *old(scope)
                    && *final(sc) == *final(scope) && res == answered2_b::<AA, BB, AA::Seed, BB::Seed>(inner),
    {
        match self {
            Compose2::A(m) => {
                let inner = m.wakeup(scope);
                let res = inner.map(a2, as2);
                assert(res == answered2_a::<AA, BB, AA::Seed, BB::Seed>(inner));
                res
            },
            Compose2::B(m) => {
                let inner = m.wakeup(scope);
                let res = inner.map(b2, bs2);
                assert(res == answered2_b::<AA, BB, AA::Seed, BB::Seed>(inner));
                res
            },
        }
    }
}

//------------ Compose3 -----------------------------------------------------

/// The union of three machine types.
pub enum Compose3<A, B, C> {
    A(A),
    B(B),
    C(C),
}

/// The seed of a [`Compose3`]: the seed of one of its branches.
pub enum Compose3Seed<A, B, C> {
    As(A),
    Bs(B),
    Cs(C),
}

impl<A, B, C> Compose3<A, B, C> {
    /// The branch of the machine: 0 for `A`, 1 for `B`, 2 for `C`.
    pub open spec fn branch(self) -> int {
        match self {
            Compose3::A(_) => 0,
            Compose3::B(_) => 1,
            Compose3::C(_) => 2,
        }
    }

    fn a(machine: A) -> (composed: Self)
        ensures
            composed == Compose3::<A, B, C>::A(machine),
    {
        Compose3::A(machine)
    }

    fn b(machine: B) -> (composed: Self)
        ensures
            composed == Compose3::<A, B, C>::B(machine),
    {
        Compose3::B(machine)
    }

    fn c(machine: C) -> (composed: Self)
        ensures
            composed == Compose3::<A, B, C>::C(machine),
    {
        Compose3::C(machine)
    }
}

impl<A, B, C> Compose3Seed<A, B, C> {
    /// The branch that the seed is for: 0 for `As`, 1 for `Bs`, 2 for `Cs`.
    pub open spec fn branch(self) -> int {
        match self {
            Compose3Seed::As(_) => 0,
            Compose3Seed::Bs(_) => 1,
            Compose3Seed::Cs(_) => 2,
        }
    }

    fn a(seed: A) -> (composed: Self)
        ensures
            composed == Compose3Seed::<A, B, C>::As(seed),
    {
        Compose3Seed::As(seed)
    }

    fn b(seed: B) -> (composed: Self)
        ensures
            composed == Compose3Seed::<A, B, C>::Bs(seed),
    {
        Compose3Seed::Bs(seed)
    }

    fn c(seed: C) -> (composed: Self)
        ensures
            composed == Compose3Seed::<A, B, C>::Cs(seed),
    {
        Compose3Seed::Cs(seed)
    }
}

/// Whether the machine that an answer holds, if it holds one, is in the
/// given branch.
pub open spec fn stays3<A, B, C, N>(res: Response<Compose3<A, B, C>, N>, branch: int) -> bool {
    match res {
        Response::Normal(m) => m.branch() == branch,
        Response::Deadline(m, _) => m.branch() == branch,
        Response::Spawn(m, _) => m.branch() == branch,
        _ => true,
    }
}

/// Whether the seed that an answer asks to spawn, if it asks, is for the
/// given branch.
pub open spec fn spawns3<M, SA, SB, SC>(
    res: Response<M, Compose3Seed<SA, SB, SC>>,
    branch: int,
) -> bool {
    res matches Response::Spawn(_, seed) ==> seed.branch() == branch
}

/// The answer of a machine of the branch `A` to its creation, under the
/// tag of the branch.
pub open spec fn created3_a<A, B, C>(inner: Response<A, Void>) -> Response<Compose3<A, B, C>, Void> {
    match inner {
        Response::Normal(m) => Response::Normal(Compose3::A(m)),
        Response::Deadline(m, at) => Response::Deadline(Compose3::A(m), at),
        Response::Spawn(m, seed) => Response::Spawn(Compose3::A(m), seed),
        Response::Error(err) => Response::Error(err),
        Response::Done => Response::Done,
    }
}

/// The answer of a machine of the branch `A`, under the tag of the
/// branch: the machine and a seed that it asks to spawn are tagged,
/// everything else stays.
pub open spec fn answered3_a<A, B, C, SA, SB, SC>(inner: Response<A, SA>) -> Response<
    Compose3<A, B, C>,
    Compose3Seed<SA, SB, SC>,
> {
    match inner {
        Response::Normal(m) => Response::Normal(Compose3::A(m)),
        Response::Deadline(m, at) => Response::Deadline(Compose3::A(m), at),
        Response::Spawn(m, seed) => Response::Spawn(Compose3::A(m), Compose3Seed::As(seed)),
        Response::Error(err) => Response::Error(err),
        Response::Done => Response::Done,
    }
}

/// The answer of a machine of the branch `B` to its creation, under the
/// tag of the branch.
pub open spec fn created3_b<A, B, C>(inner: Response<B, Void>) -> Response<Compose3<A, B, C>, Void> {
    match inner {
        Response::Normal(m) => Response::Normal(Compose3::B(m)),
        Response::Deadline(m, at) => Response::Deadline(Compose3::B(m), at),
        Response::Spawn(m, seed) => Response::Spawn(Compose3::B(m), seed),
        Response::Error(err) => Response::Error(err),
        Response::Done => Response::Done,
    }
}

/// The answer of a machine of the branch `B`, under the tag of the
/// branch: the machine and a seed that it asks to spawn are tagged,
/// everything else stays.
pub open spec fn answered3_b<A, B, C, SA, SB, SC>(inner: Response<B, SB>) -> Response<
    Compose3<A, B, C>,
    Compose3Seed<SA, SB, SC>,
> {
    match inner {
        Response::Normal(m) => Response::Normal(Compose3::B(m)),
        Response::Deadline(m, at) => Response::Deadline(Compose3::B(m), at),
        Response::Spawn(m, seed) => Response::Spawn(Compose3::B(m), Compose3Seed::Bs(seed)),
        Response::Error(err) => Response::Error(err),
        Response::Done => Response::Done,
    }
}

/// The answer of a machine of the branch `C` to its creation, under the
/// tag of the branch.
pub open spec fn created3_c<A, B, C>(inner: Response<C, Void>) -> Response<Compose3<A, B, C>, Void> {
    match inner {
        Response::Normal(m) => Response::Normal(Compose3::C(m)),
        Response::Deadline(m, at) => Response::Deadline(Compose3::C(m), at),
        Response::Spawn(m, seed) => Response::Spawn(Compose3::C(m), seed),
        Response::Error(err) => Response::Error(err),
        Response::Done => Response::Done,
    }
}

/// The answer of a machine of the branch `C`, under the tag of the
/// branch: the machine and a seed that it asks to spawn are tagged,
/// everything else stays.
pub open spec fn answered3_c<A, B, C, SA, SB, SC>(inner: Response<C, SC>) -> Response<
    Compose3<A, B, C>,
    Compose3Seed<SA, SB, SC>,
> {
    match inner {
        Response::Normal(m) => Response::Normal(Compose3::C(m)),
        Response::Deadline(m, at) => Response::Deadline(Compose3::C(m), at),
        Response::Spawn(m, seed) => Response::Spawn(Compose3::C(m), Compose3Seed::Cs(seed)),
        Response::Error(err) => Response::Error(err),
        Response::Done => Response::Done,
    }
}

/// Every callback goes to the machine in the branch that is live, and what
/// that machine answers is the answer, under the tag of the branch.
impl<R, AA, BB, CC> Machine<R> for Compose3<AA, BB, CC> where AA: Machine<R>, BB: Machine<R>, CC: Machine<R> {
    type Seed = Compose3Seed<AA::Seed, BB::Seed, CC::Seed>;

    fn create(seed: Self::Seed, scope: &mut Scope<R>) -> (res: Response<Self, Void>)
        ensures
            stays3(res, seed.branch()),
            seed matches Compose3Seed::As(s) ==> exists|sc: &mut Scope<R>, inner: Response<AA, Void>| #[trigger]
                call_ensures(<AA as Machine<R>>::create, (s, sc), inner) && *sc == *old(scope)
                    && *final(sc) == *final(scope) && res == created3_a::<AA, BB, CC>(inner),
            seed matches Compose3Seed::Bs(s) ==> exists|sc: &mut Scope<R>, inner: Response<BB, Void>| #[trigger]
                call_ensures(<BB as Machine<R>>::create, (s, sc), inner) && *sc == *old(scope)
                    && *final(sc) == *final(scope) && res == created3_b::<AA, BB, CC>(inner),
            seed matches Compose3Seed::Cs(s) ==> exists|sc: &mut Scope<R>, inner: Response<CC, Void>| #[trigger]
                call_ensures(<CC as Machine<R>>::create, (s, sc), inner) && *sc == *old(scope)
                    && *final(sc) == *final(scope) && res == created3_c::<AA, BB, CC>(inner),
    {
        match seed {
            Compose3Seed::As(s) => {
                let inner = AA::create(s, scope);
                let res = inner.map_self(Compose3::a);
                assert(res == created3_a::<AA, BB, CC>(inner));
                res
            },
            Compose3Seed::Bs(s) => {
                let inner = BB::create(s, scope);
                let res = inner.map_self(Compose3::b);
                assert(res == created3_b::<AA, BB, CC>(inner));
                res
            },
            Compose3Seed::Cs(s) => {
                let inner = CC::create(s, scope);
                let res = inner.map_self(Compose3::c);
                assert(res == created3_c::<AA, BB, CC>(inner));
                res
            },
        }
    }

    fn ready(self, events: Events, scope: &mut Scope<R>) -> (res: Response<Self, Self::Seed>)
        ensures
            stays3(res, self.branch()),
            spawns3(res, self.branch()),
            self matches Compose3::A(m) ==> exists|sc: &mut Scope<R>, inner: Response<AA, AA::Seed>| #[trigger]
                call_ensures(<AA as Machine<R>>::ready, (m, events, sc), inner) && *sc == *old(scope)
                    && *final(sc) == *final(scope) && res == answered3_a::<AA, BB, CC, AA::Seed, BB::Seed, CC::Seed>(inner),
            self matches Compose3::B(m) ==> exists|sc: &mut Scope<R>, inner: Response<BB, BB::Seed>| #[trigger]
                call_ensures(<BB as Machine<R>>::ready, (m, events, sc), inner) && *sc == *old(scope)
                    && *final(sc) == *final(scope) && res == answered3_b::<AA, BB, CC, AA::Seed, BB::Seed, CC::Seed>(inner),
            self matches Compose3::C(m) ==> exists|sc: &mut Scope<R>, inner: Response<CC, CC::Seed>| #[trigger]
                call_ensures(<CC as Machine<R>>::ready, (m, events, sc), inner) && *sc == *old(scope)
                    && *final(sc) == *final(scope) && res == answered3_c::<AA, BB, CC, AA::Seed, BB::Seed, CC::Seed>(inner),
    {
        match self {
            Compose3::A(m) => {
                let inner = m.ready(events, scope);
                let res = inner.map(Compose3::a, Compose3Seed::a);
                assert(res == answered3_a::<AA, BB, CC, AA::Seed, BB::Seed, CC::Seed>(inner));
                res
            },
            Compose3::B(m) => {
                let inner = m.ready(events, scope);
                let res = inner.map(Compose3::b, Compose3Seed::b);
                assert(res == answered3_b::<AA, BB, CC, AA::Seed, BB::Seed, CC::Seed>(inner));
                res
            },
            Compose3::C(m) => {
                let inner = m.ready(events, scope);
                let res = inner.map(Compose3::c, Compose3Seed::c);
                assert(res == answered3_c::<AA, BB, CC, AA::Seed, BB::Seed, CC::Seed>(inner));
                res
            },
        }
    }

    fn spawned(self, scope: &mut Scope<R>) -> (res: Response<Self, Self::Seed>)
        ensures
            stays3(res, self.branch()),
            spawns3(res, self.branch()),
            self matches Compose3::A(m) ==> exists|sc: &mut Scope<R>, inner: Response<AA, AA::Seed>| #[trigger]
                call_ensures(<AA as Machine<R>>::spawned, (m, sc), inner) && *sc == *old(scope)
                    && *final(sc) == *final(scope) && res == answered3_a::<AA, BB, CC, AA::Seed, BB::Seed, CC::Seed>(inner),
            self matches Compose3::B(m) ==> exists|sc: &mut Scope<R>, inner: Response<BB, BB::Seed>| #[trigger]
                call_ensures(<BB as Machine<R>>::spawned, (m, sc), inner) && *sc == *old(scope)
                    && *final(sc) == *final(scope) && res == answered3_b::<AA, BB, CC, AA::Seed, BB::Seed, CC::Seed>(inner),
            self matches Compose3::C(m) ==> exists|sc: &mut Scope<R>, inner: Response<CC, CC::Seed>| #[trigger]
                call_ensures(<CC as Machine<R>>::spawned, (m, sc), inner) && *sc == *old(scope)
                    && *final(sc) == *final(scope) && res == answered3_c::<AA, BB, CC, AA::Seed, BB::Seed, CC::Seed>(inner),
    {
        match self {
            Compose3::A(m) => {
                let inner = m.spawned(scope);
                let res = inner.map(Compose3::a, Compose3Seed::a);
                assert(res == answered3_a::<AA, BB, CC, AA::Seed, BB::Seed, CC::Seed>(inner));
                res
            },
            Compose3::B(m) => {
                let inner = m.spawned(scope);
                let res = inner.map(Compose3::b, Compose3Seed::b);
                assert(res == answered3_b::<AA, BB, CC, AA::Seed, BB::Seed, CC::Seed>(inner));
                res
            },
            Compose3::C(m) => {
                let inner = m.spawned(scope);
                let res = inner.map(Compose3::c, Compose3Seed::c);
                assert(res == answered3_c::<AA, BB, CC, AA::Seed, BB::Seed, CC::Seed>(inner));
                res
            },
        }
    }

    fn timeout(self, scope: &mut Scope<R>) -> (res: Response<Self, Self::Seed>)
        ensures
            stays3(res, self.branch()),
            spawns3(res, self.branch()),
            self matches Compose3::A(m) ==> exists|sc: &mut Scope<R>, inner: Response<AA, AA::Seed>| #[trigger]
                call_ensures(<AA as Machine<R>>::timeout, (m, sc), inner) && *sc == *old(scope)
                    && *final(sc) == *final(scope) && res == answered3_a::<AA, BB, CC, AA::Seed, BB::Seed, CC::Seed>(inner),
            self matches Compose3::B(m) ==> exists|sc: &mut Scope<R>, inner: Response<BB, BB::Seed>| #[trigger]
                call_ensures(<BB as Machine<R>>::timeout, (m, sc), inner) && *sc == *old(scope)
                    && *final(sc) == *final(scope) && res == answered3_b::<AA, BB, CC, AA::Seed, BB::Seed, CC::Seed>(inner),
            self matches Compose3::C(m) ==> exists|sc: &mut Scope<R>, inner: Response<CC, CC::Seed>| #[trigger]
                call_ensures(<CC as Machine<R>>::timeout, (m, sc), inner) && *sc == *old(scope)
                    && *final(sc) == *final(scope) && res == answered3_c::<AA, BB, CC, AA::Seed, BB::Seed, CC::Seed>(inner),
    {
        match self {
            Compose3::A(m) => {
                let inner = m.timeout(scope);
                let res = inner.map(Compose3::a, Compose3Seed::a);
                assert(res == answered3_a::<AA, BB, CC, AA::Seed, BB::Seed, CC::Seed>(inner));
                res
            },
            Compose3::B(m) => {
                let inner = m.timeout(scope);
                let res = inner.map(Compose3::b, Compose3Seed::b);
                assert(res == answered3_b::<AA, BB, CC, AA::Seed, BB::Seed, CC::Seed>(inner));
                res
            },
            Compose3::C(m) => {
                let inner = m.timeout(scope);
                let res = inner.map(Compose3::c, Compose3Seed::c);
                assert(res == answered3_c::<AA, BB, CC, AA::Seed, BB::Seed, CC::Seed>(inner));
                res
            },
        }
    }

    fn wakeup(self, scope: &mut Scope<R>) -> (res: Response<Self, Self::Seed>)
        ensures
            stays3(res, self.branch()),
            spawns3(res, self.branch()),
            self matches Compose3::A(m) ==> exists|sc: &mut Scope<R>, inner: Response<AA, AA::Seed>| #[trigger]
                call_ensures(<AA as Machine<R>>::wakeup, (m, sc), inner) && *sc == *old(scope)
                    && *final(sc) == *final(scope) && res == answered3_a::<AA, BB, CC, AA::Seed, BB::Seed, CC::Seed>(inner),
            self matches Compose3::B(m) ==> exists|sc: &mut Scope<R>, inner: Response<BB, BB::Seed>| #[trigger]
                call_ensures(<BB as Machine<R>>::wakeup, (m, sc), inner) && *sc == *old(scope)
                    && *final(sc) == *final(scope) && res == answered3_b::<AA, BB, CC, AA::Seed, BB::Seed, CC::Seed>(inner),
            self matches Compose3::C(m) ==> exists|sc: &mut Scope<R>, inner: Response<CC, CC::Seed>| #[trigger]
                call_ensures(<CC as Machine<R>>::wakeup, (m, sc), inner) && *sc == *old(scope)
                    && *final(sc) == *final(scope) && res == answered3_c::<AA, BB, CC, AA::Seed, BB::Seed, CC::Seed>(inner),
    {
        match self {
            Compose3::A(m) => {
                let inner = m.wakeup(scope);
                let res = inner.map(Compose3::a, Compose3Seed::a);
                assert(res == answered3_a::<AA, BB, CC, AA::Seed, BB::Seed, CC::Seed>(inner));
                res
            },
            Compose3::B(m) => {
                let inner = m.wakeup(scope);
                let res = inner.map(Compose3::b, Compose3Seed::b);
                assert(res == answered3_b::<AA, BB, CC, AA::Seed, BB::Seed, CC::Seed>(inner));
                res
            },
            Compose3::C(m) => {
                let inner = m.wakeup(scope);
                let res = inner.map(Compose3::c, Compose3Seed::c);
                assert(res == answered3_c::<AA, BB, CC, AA::Seed, BB::Seed, CC::Seed>(inner));
                res
            },
        }
    }
}

} // verus!
