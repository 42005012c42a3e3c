//! Machines for unencrypted network sockets.
//!
//! A transport, a server and a client are put together from the machines
//! of this crate and the sockets of the application. What this module adds
//! is the union of a stream and a datagram flavor in one machine type.

use crate::events::Events;
use crate::machine::Machine;
use crate::request::SeedFactory;
use crate::request::TranslateError;
use crate::response::Response;
use crate::scope::Scope;
use rotor::Void;
use vstd::prelude::*;

verus! {

//------------ TcpUdp ------------------------------------------------------

/// Something for a stream socket or for a datagram socket: a machine, a
/// seed, or what a seed is made of.
pub enum TcpUdp<T, U> {
    Tcp(T),
    Udp(U),
}

impl<T, U> TcpUdp<T, U> {
    /// The branch of the value: 0 for `Tcp`, 1 for `Udp`.
    pub open spec fn branch(self) -> int {
        match self {
            TcpUdp::Tcp(_) => 0,
            TcpUdp::Udp(_) => 1,
        }
    }

    fn tcp(inner: T) -> (composed: Self)
        ensures
            composed == TcpUdp::<T, U>::Tcp(inner),
    {
        TcpUdp::Tcp(inner)
    }

    fn udp(inner: U) -> (composed: Self)
        ensures
            composed == TcpUdp::<T, U>::Udp(inner),
    {
        TcpUdp::Udp(inner)
    }

    /// Whether the machine that an answer holds, if it holds one, is in the
    /// given branch.
    pub open spec fn stays<N>(res: Response<Self, N>, branch: int) -> bool {
        match res {
            Response::Normal(m) => m.branch() == branch,
            Response::Deadline(m, _) => m.branch() == branch,
            Response::Spawn(m, _) => m.branch() == branch,
            _ => true,
        }
    }

    /// Whether the seed that an answer asks to spawn, if it asks, is for
    /// the given branch.
    pub open spec fn spawns<M>(res: Response<M, Self>, branch: int) -> bool {
        res matches Response::Spawn(_, seed) ==> seed.branch() == branch
    }

    /// The answer of a machine of the branch `Tcp` to its creation, under
    /// the tag of the branch.
    pub open spec fn tcp_created(inner: Response<T, Void>) -> Response<Self, Void> {
        match inner {
            Response::Normal(m) => Response::Normal(TcpUdp::Tcp(m)),
            Response::Deadline(m, at) => Response::Deadline(TcpUdp::Tcp(m), at),
            Response::Spawn(m, seed) => Response::Spawn(TcpUdp::Tcp(m), seed),
            Response::Error(err) => Response::Error(err),
            Response::Done => Response::Done,
        }
    }

    /// The answer of a machine of the branch `Tcp` with the seed type `S`,
    /// under the tag of the branch: the machine and a seed that it asks to
    /// spawn are tagged, everything else stays.
    pub open spec fn tcp_answered<S, O>(inner: Response<T, S>) -> Response<
        Self,
        TcpUdp<S, O>,
    > {
        match inner {
            Response::Normal(m) => Response::Normal(TcpUdp::Tcp(m)),
            Response::Deadline(m, at) => Response::Deadline(TcpUdp::Tcp(m), at),
            Response::Spawn(m, seed) => Response::Spawn(TcpUdp::Tcp(m), TcpUdp::Tcp(seed)),
            Response::Error(err) => Response::Error(err),
            Response::Done => Response::Done,
        }
    }

    /// The answer of a machine of the branch `Udp` to its creation, under
    /// the tag of the branch.
    pub open spec fn udp_created(inner: Response<U, Void>) -> Response<Self, Void> {
        match inner {
            Response::Normal(m) => Response::Normal(TcpUdp::Udp(m)),
            Response::Deadline(m, at) => Response::Deadline(TcpUdp::Udp(m), at),
            Response::Spawn(m, seed) => Response::Spawn(TcpUdp::Udp(m), seed),
            Response::Error(err) => Response::Error(err),
            Response::Done => Response::Done,
        }
    }

    /// The answer of a machine of the branch `Udp` with the seed type `S`,
    /// under the tag of the branch: the machine and a seed that it asks to
    /// spawn are tagged, everything else stays.
    pub open spec fn udp_answered<S, O>(inner: Response<U, S>) -> Response<
        Self,
        TcpUdp<O, S>,
    > {
        match inner {
            Response::Normal(m) => Response::Normal(TcpUdp::Udp(m)),
            Response::Deadline(m, at) => Response::Deadline(TcpUdp::Udp(m), at),
            Response::Spawn(m, seed) => Response::Spawn(TcpUdp::Udp(m), TcpUdp::Udp(seed)),
            Response::Error(err) => Response::Error(err),
            Response::Done => Response::Done,
        }
    }
}

/// A machine for an unencrypted stream socket or for a datagram socket. Which of the two a new machine is
/// for is decided by the branch of its seed, and a machine stays in its
/// branch. Every callback goes to the machine in the branch, and what that
/// machine answers is the answer, under the tag of the branch.
impl<R, T, U> Machine<R> for TcpUdp<T, U> where T: Machine<R>, U: Machine<R> {
    type Seed = TcpUdp<T::Seed, U::Seed>;

    fn create(seed: Self::Seed, scope: &mut Scope<R>) -> (res: Response<Self, Void>)
        ensures
            TcpUdp::<T, U>::stays(res, seed.branch()),
            seed matches TcpUdp::Tcp(s) ==> exists|sc: &mut Scope<R>, inner: Response<T, Void>| #[trigger]
                call_ensures(<T as Machine<R>>::create, (s, sc), inner) && *sc == *old(scope)
                    && *final(sc) == *final(scope) && res == TcpUdp::<T, U>::tcp_created(inner),
            seed matches TcpUdp::Udp(s) ==> exists|sc: &mut Scope<R>, inner: Response<U, Void>| #[trigger]
                call_ensures(<U as Machine<R>>::create, (s, sc), inner) && *sc == *old(scope)
                    && *final(sc) == *final(scope) && res == TcpUdp::<T, U>::udp_created(inner),
    {
        match seed {
            TcpUdp::Tcp(seed) => {
                let inner = T::create(seed, scope);
                let res = inner.map_self(TcpUdp::tcp);
                assert(res == TcpUdp::<T, U>::tcp_created(inner));
                res
            },
            TcpUdp::Udp(seed) => {
                let inner = U::create(seed, scope);
                let res = inner.map_self(TcpUdp::udp);
                assert(res == TcpUdp::<T, U>::udp_created(inner));
                res
            },
        }
    }

    fn ready(self, events: Events, scope: &mut Scope<R>) -> (res: Response<Self, Self::Seed>)
        ensures
            TcpUdp::<T, U>::stays(res, self.branch()),
            TcpUdp::<T::Seed, U::Seed>::spawns(res, self.branch()),
            self matches TcpUdp::Tcp(m) ==> exists|sc: &mut Scope<R>, inner: Response<T, T::Seed>| #[trigger]
                call_ensures(<T as Machine<R>>::ready, (m, events, sc), inner) && *sc == *old(scope)
                    && *final(sc) == *final(scope) && res == TcpUdp::<T, U>::tcp_answered::<T::Seed, U::Seed>(inner),
            self matches TcpUdp::Udp(m) ==> exists|sc: &mut Scope<R>, inner: Response<U, U::Seed>| #[trigger]
                call_ensures(<U as Machine<R>>::ready, (m, events, sc), inner) && *sc == *old(scope)
                    && *final(sc) == *final(scope) && res == TcpUdp::<T, U>::udp_answered::<U::Seed, T::Seed>(inner),
    {
        match self {
            TcpUdp::Tcp(m) => {
                let inner = m.ready(events, scope);
                let res = inner.map(TcpUdp::tcp, TcpUdp::tcp);
                assert(res == TcpUdp::<T, U>::tcp_answered::<T::Seed, U::Seed>(inner));
                res
            },
            TcpUdp::Udp(m) => {
                let inner = m.ready(events, scope);
                let res = inner.map(TcpUdp::udp, TcpUdp::udp);
                assert(res == TcpUdp::<T, U>::udp_answered::<U::Seed, T::Seed>(inner));
                res
            },
        }
    }

    fn spawned(self, scope: &mut Scope<R>) -> (res: Response<Self, Self::Seed>)
        ensures
            TcpUdp::<T, U>::stays(res, self.branch()),
            TcpUdp::<T::Seed, U::Seed>::spawns(res, self.branch()),
            self matches TcpUdp::Tcp(m) ==> exists|sc: &mut Scope<R>, inner: Response<T, T::Seed>| #[trigger]
                call_ensures(<T as Machine<R>>::spawned, (m, sc), inner) && *sc == *old(scope)
                    && *final(sc) == *final(scope) && res == TcpUdp::<T, U>::tcp_answered::<T::Seed, U::Seed>(inner),
            self matches TcpUdp::Udp(m) ==> exists|sc: &mut Scope<R>, inner: Response<U, U::Seed>| #[trigger]
                call_ensures(<U as Machine<R>>::spawned, (m, sc), inner) && *sc == *old(scope)
                    && *final(sc) == *final(scope) && res == TcpUdp::<T, U>::udp_answered::<U::Seed, T::Seed>(inner),
    {
        match self {
            TcpUdp::Tcp(m) => {
                let inner = m.spawned(scope);
                let res = inner.map(TcpUdp::tcp, TcpUdp::tcp);
                assert(res == TcpUdp::<T, U>::tcp_answered::<T::Seed, U::Seed>(inner));
                res
            },
            TcpUdp::Udp(m) => {
                let inner = m.spawned(scope);
                let res = inner.map(TcpUdp::udp, TcpUdp::udp);
                assert(res == TcpUdp::<T, U>::udp_answered::<U::Seed, T::Seed>(inner));
                res
            },
        }
    }

    fn timeout(self, scope: &mut Scope<R>) -> (res: Response<Self, Self::Seed>)
        ensures
            TcpUdp::<T, U>::stays(res, self.branch()),
            TcpUdp::<T::Seed, U::Seed>::spawns(res, self.branch()),
            self matches TcpUdp::Tcp(m) ==> exists|sc: &mut Scope<R>, inner: Response<T, T::Seed>| #[trigger]
                call_ensures(<T as Machine<R>>::timeout, (m, sc), inner) && *sc == *old(scope)
                    && *final(sc) == *final(scope) && res == TcpUdp::<T, U>::tcp_answered::<T::Seed, U::Seed>(inner),
            self matches TcpUdp::Udp(m) ==> exists|sc: &mut Scope<R>, inner: Response<U, U::Seed>| #[trigger]
                call_ensures(<U as Machine<R>>::timeout, (m, sc), inner) && *sc == *old(scope)
                    && *final(sc) == *final(scope) && res == TcpUdp::<T, U>::udp_answered::<U::Seed, T::Seed>(inner),
    {
        match self {
            TcpUdp::Tcp(m) => {
                let inner = m.timeout(scope);
                let res = inner.map(TcpUdp::tcp, TcpUdp::tcp);
                assert(res == TcpUdp::<T, U>::tcp_answered::<T::Seed, U::Seed>(inner));
                res
            },
            TcpUdp::Udp(m) => {
                let inner = m.timeout(scope);
                let res = inner.map(TcpUdp::udp, TcpUdp::udp);
                assert(res == TcpUdp::<T, U>::udp_answered::<U::Seed, T::Seed>(inner));
                res
            },
        }
    }

    fn wakeup(self, scope: &mut Scope<R>) -> (res: Response<Self, Self::Seed>)
        ensures
            TcpUdp::<T, U>::stays(res, self.branch()),
            TcpUdp::<T::Seed, U::Seed>::spawns(res, self.branch()),
            self matches TcpUdp::Tcp(m) ==> exists|sc: &mut Scope<R>, inner: Response<T, T::Seed>| #[trigger]
                call_ensures(<T as Machine<R>>::wakeup, (m, sc), inner) && *sc == *old(scope)
                    && *final(sc) == *final(scope) && res == TcpUdp::<T, U>::tcp_answered::<T::Seed, U::Seed>(inner),
            self matches TcpUdp::Udp(m) ==> exists|sc: &mut Scope<R>, inner: Response<U, U::Seed>| #[trigger]
                call_ensures(<U as Machine<R>>::wakeup, (m, sc), inner) && *sc == *old(scope)
                    && *final(sc) == *final(scope) && res == TcpUdp::<T, U>::udp_answered::<U::Seed, T::Seed>(inner),
    {
        match self {
            TcpUdp::Tcp(m) => {
                let inner = m.wakeup(scope);
                let res = inner.map(TcpUdp::tcp, TcpUdp::tcp);
                assert(res == TcpUdp::<T, U>::tcp_answered::<T::Seed, U::Seed>(inner));
                res
            },
            TcpUdp::Udp(m) => {
                let inner = m.wakeup(scope);
                let res = inner.map(TcpUdp::udp, TcpUdp::udp);
                assert(res == TcpUdp::<T, U>::udp_answered::<U::Seed, T::Seed>(inner));
                res
            },
        }
    }
}

//------------ TcpUdpFactory ------------------------------------------------

/// The seed factory for a client that opens stream and datagram sockets:
/// what is to be translated goes to the factory of its branch.
pub struct TcpUdpFactory<TF, UF> {
    tcp: TF,
    udp: UF,
}

impl<TF, UF> TcpUdpFactory<TF, UF> {
    /// Makes the factory of the factories for its two branches.
    pub fn new(tcp: TF, udp: UF) -> (factory: Self)
        ensures
            factory.tcp_factory() == tcp,
            factory.udp_factory() == udp,
    {
        TcpUdpFactory { tcp, udp }
    }

    /// The factory for the branch `Tcp`.
    pub closed spec fn tcp_factory(self) -> TF {
        self.tcp
    }

    /// The factory for the branch `Udp`.
    pub closed spec fn udp_factory(self) -> UF {
        self.udp
    }
}

/// What the factory returns for what the factory of the branch `Tcp`
/// produced: the seed, or what was to be translated with the error, under
/// the tag `Tcp`.
pub open spec fn tcp_udp_tcp_product<TO, UO, TS, US>(product: Result<TS, TranslateError<TO>>) -> Result<
    TcpUdp<TS, US>,
    TranslateError<TcpUdp<TO, UO>>,
> {
    match product {
        Ok(seed) => Ok(TcpUdp::Tcp(seed)),
        Err(err) => Err(TranslateError(TcpUdp::Tcp(err.0), err.1)),
    }
}

/// What the factory returns for what the factory of the branch `Udp`
/// produced: the seed, or what was to be translated with the error, under
/// the tag `Udp`.
pub open spec fn tcp_udp_udp_product<TO, UO, TS, US>(product: Result<US, TranslateError<UO>>) -> Result<
    TcpUdp<TS, US>,
    TranslateError<TcpUdp<TO, UO>>,
> {
    match product {
        Ok(seed) => Ok(TcpUdp::Udp(seed)),
        Err(err) => Err(TranslateError(TcpUdp::Udp(err.0), err.1)),
    }
}

/// Returns what the factory returns for what the factory of the branch
/// `Tcp` produced.
pub fn tcp_udp_tcp_translated<TO, UO, TS, US>(product: Result<TS, TranslateError<TO>>) -> (res: Result<
    TcpUdp<TS, US>,
    TranslateError<TcpUdp<TO, UO>>,
>)
    ensures
        res == tcp_udp_tcp_product::<TO, UO, TS, US>(product),
{
    match product {
        Ok(seed) => Ok(TcpUdp::Tcp(seed)),
        Err(err) => Err(TranslateError(TcpUdp::Tcp(err.0), err.1)),
    }
}

/// Returns what the factory returns for what the factory of the branch
/// `Udp` produced.
pub fn tcp_udp_udp_translated<TO, UO, TS, US>(product: Result<US, TranslateError<UO>>) -> (res: Result<
    TcpUdp<TS, US>,
    TranslateError<TcpUdp<TO, UO>>,
>)
    ensures
        res == tcp_udp_udp_product::<TO, UO, TS, US>(product),
{
    match product {
        Ok(seed) => Ok(TcpUdp::Udp(seed)),
        Err(err) => Err(TranslateError(TcpUdp::Udp(err.0), err.1)),
    }
}

impl<TF, UF, TO, UO, TS, US> SeedFactory<TcpUdp<TO, UO>, TcpUdp<TS, US>> for TcpUdpFactory<
    TF,
    UF,
> where TF: SeedFactory<TO, TS>, UF: SeedFactory<UO, US> {
    /// Hands what is to be translated to the factory of its branch. What
    /// that factory produced is returned under the tag of the branch.
    fn translate(&self, output: TcpUdp<TO, UO>) -> (res: Result<
        TcpUdp<TS, US>,
        TranslateError<TcpUdp<TO, UO>>,
    >)
        ensures
            match res {
                Ok(seed) => seed.branch() == output.branch(),
                Err(err) => err.0.branch() == output.branch(),
            },
            output matches TcpUdp::Tcp(inner) ==> exists|product: Result<TS, TranslateError<TO>>| #[trigger]
                call_ensures(
                    <TF as SeedFactory<TO, TS>>::translate,
                    (&self.tcp_factory(), inner),
                    product,
                ) && res == tcp_udp_tcp_product::<TO, UO, TS, US>(product),
            output matches TcpUdp::Udp(inner) ==> exists|product: Result<US, TranslateError<UO>>| #[trigger]
                call_ensures(
                    <UF as SeedFactory<UO, US>>::translate,
                    (&self.udp_factory(), inner),
                    product,
                ) && res == tcp_udp_udp_product::<TO, UO, TS, US>(product),
    {
        match output {
            TcpUdp::Tcp(output) => tcp_udp_tcp_translated(self.tcp.translate(output)),
            TcpUdp::Udp(output) => tcp_udp_udp_translated(self.udp.translate(output)),
        }
    }
}

} // verus!
