//! Machines that combine encrypted and unencrypted network sockets.

use crate::events::Events;
use crate::machine::Machine;
use crate::request::SeedFactory;
use crate::request::TranslateError;
use crate::response::Response;
use crate::scope::Scope;
use rotor::Void;
use vstd::prelude::*;

verus! {

//------------ TlsTcp ------------------------------------------------------

/// Something for an encrypted or for an unencrypted stream socket: a
/// machine, a seed, or what a seed is made of.
pub enum TlsTcp<T, U> {
    Tls(T),
    Tcp(U),
}

impl<T, U> TlsTcp<T, U> {
    /// The branch of the value: 0 for `Tls`, 1 for `Tcp`.
    pub open spec fn branch(self) -> int {
        match self {
            TlsTcp::Tls(_) => 0,
            TlsTcp::Tcp(_) => 1,
        }
    }

    fn tls(inner: T) -> (composed: Self)
        ensures
            composed == TlsTcp::<T, U>::Tls(inner),
    {
        TlsTcp::Tls(inner)
    }

    fn tcp(inner: U) -> (composed: Self)
        ensures
            composed == TlsTcp::<T, U>::Tcp(inner),
    {
        TlsTcp::Tcp(inner)
    }

    /// Whether the machine that an answer holds, if it holds one, is in the
    /// given branch.
    pub open spec fn stays<N>(res: Response<Self, N>, branch: int) -> bool {
        match res {
            Response::Normal(m) => m.branch() == branch,
            Response::Deadline(m, _) => m.branch() == branch,
            Response::Spawn(m, _) => m.branch() == branch,
            _ => true,
        }
    }

    /// Whether the seed that an answer asks to spawn, if it asks, is for
    /// the given branch.
    pub open spec fn spawns<M>(res: Response<M, Self>, branch: int) -> bool {
        res matches Response::Spawn(_, seed) ==> seed.branch() == branch
    }

    /// The answer of a machine of the branch `Tls` to its creation, under
    /// the tag of the branch.
    pub open spec fn tls_created(inner: Response<T, Void>) -> Response<Self, Void> {
        match inner {
            Response::Normal(m) => Response::Normal(TlsTcp::Tls(m)),
            Response::Deadline(m, at) => Response::Deadline(TlsTcp::Tls(m), at),
            Response::Spawn(m, seed) => Response::Spawn(TlsTcp::Tls(m), seed),
            Response::Error(err) => Response::Error(err),
            Response::Done => Response::Done,
        }
    }

    /// The answer of a machine of the branch `Tls` with the seed type `S`,
    /// under the tag of the branch: the machine and a seed that it asks to
    /// spawn are tagged, everything else stays.
    pub open spec fn tls_answered<S, O>(inner: Response<T, S>) -> Response<
        Self,
        TlsTcp<S, O>,
    > {
        match inner {
            Response::Normal(m) => Response::Normal(TlsTcp::Tls(m)),
            Response::Deadline(m, at) => Response::Deadline(TlsTcp::Tls(m), at),
            Response::Spawn(m, seed) => Response::Spawn(TlsTcp::Tls(m), TlsTcp::Tls(seed)),
            Response::Error(err) => Response::Error(err),
            Response::Done => Response::Done,
        }
    }

    /// The answer of a machine of the branch `Tcp` to its creation, under
    /// the tag of the branch.
    pub open spec fn tcp_created(inner: Response<U, Void>) -> Response<Self, Void> {
        match inner {
            Response::Normal(m) => Response::Normal(TlsTcp::Tcp(m)),
            Response::Deadline(m, at) => Response::Deadline(TlsTcp::Tcp(m), at),
            Response::Spawn(m, seed) => Response::Spawn(TlsTcp::Tcp(m), seed),
            Response::Error(err) => Response::Error(err),
            Response::Done => Response::Done,
        }
    }

    /// The answer of a machine of the branch `Tcp` with the seed type `S`,
    /// under the tag of the branch: the machine and a seed that it asks to
    /// spawn are tagged, everything else stays.
    pub open spec fn tcp_answered<S, O>(inner: Response<U, S>) -> Response<
        Self,
        TlsTcp<O, S>,
    > {
        match inner {
            Response::Normal(m) => Response::Normal(TlsTcp::Tcp(m)),
            Response::Deadline(m, at) => Response::Deadline(TlsTcp::Tcp(m), at),
            Response::Spawn(m, seed) => Response::Spawn(TlsTcp::Tcp(m), TlsTcp::Tcp(seed)),
            Response::Error(err) => Response::Error(err),
            Response::Done => Response::Done,
        }
    }
}

/// A machine for an encrypted stream socket or for an unencrypted stream socket. Which of the two a new machine is
/// for is decided by the branch of its seed, and a machine stays in its
/// branch. Every callback goes to the machine in the branch, and what that
/// machine answers is the answer, under the tag of the branch.
impl<R, T, U> Machine<R> for TlsTcp<T, U> where T: Machine<R>, U: Machine<R> {
    type Seed = TlsTcp<T::Seed, U::Seed>;

    fn create(seed: Self::Seed, scope: &mut Scope<R>) -> (res: Response<Self, Void>)
        ensures
            TlsTcp::<T, U>::stays(res, seed.branch()),
            seed matches TlsTcp::Tls(s) ==> exists|sc: &mut Scope<R>, inner: Response<T, Void>| #[trigger]
                call_ensures(<T as Machine<R>>::create, (s, sc), inner) && *sc == *old(scope)
                    && *final(sc) == *final(scope) && res == TlsTcp::<T, U>::tls_created(inner),
            seed matches TlsTcp::Tcp(s) ==> exists|sc: &mut Scope<R>, inner: Response<U, Void>| #[trigger]
                call_ensures(<U as Machine<R>>::create, (s, sc), inner) && *sc == *old(scope)
                    && *final(sc) == *final(scope) && res == TlsTcp::<T, U>::tcp_created(inner),
    {
        match seed {
            TlsTcp::Tls(seed) => {
                let inner = T::create(seed, scope);
                let res = inner.map_self(TlsTcp::tls);
                assert(res == TlsTcp::<T, U>::tls_created(inner));
                res
            },
            TlsTcp::Tcp(seed) => {
                let inner = U::create(seed, scope);
                let res = inner.map_self(TlsTcp::tcp);
                assert(res == TlsTcp::<T, U>::tcp_created(inner));
                res
            },
        }
    }

    fn ready(self, events: Events, scope: &mut Scope<R>) -> (res: Response<Self, Self::Seed>)
        ensures
            TlsTcp::<T, U>::stays(res, self.branch()),
            TlsTcp::<T::Seed, U::Seed>::spawns(res, self.branch()),
            self matches TlsTcp::Tls(m) ==> exists|sc: &mut Scope<R>, inner: Response<T, T::Seed>| #[trigger]
                call_ensures(<T as Machine<R>>::ready, (m, events, sc), inner) && *sc == *old(scope)
                    && *final(sc) == *final(scope) && res == TlsTcp::<T, U>::tls_answered::<T::Seed, U::Seed>(inner),
            self matches TlsTcp::Tcp(m) ==> exists|sc: &mut Scope<R>, inner: Response<U, U::Seed>| #[trigger]
                call_ensures(<U as Machine<R>>::ready, (m, events, sc), inner) && *sc == *old(scope)
                    && *final(sc) == *final(scope) && res == TlsTcp::<T, U>::tcp_answered::<U::Seed, T::Seed>(inner),
    {
        match self {
            TlsTcp::Tls(m) => {
                let inner = m.ready(events, scope);
                let res = inner.map(TlsTcp::tls, TlsTcp::tls);
                assert(res == TlsTcp::<T, U>::tls_answered::<T::Seed, U::Seed>(inner));
                res
            },
            TlsTcp::Tcp(m) => {
                let inner = m.ready(events, scope);
                let res = inner.map(TlsTcp::tcp, TlsTcp::tcp);
                assert(res == TlsTcp::<T, U>::tcp_answered::<U::Seed, T::Seed>(inner));
                res
            },
        }
    }

    fn spawned(self, scope: &mut Scope<R>) -> (res: Response<Self, Self::Seed>)
        ensures
            TlsTcp::<T, U>::stays(res, self.branch()),
            TlsTcp::<T::Seed, U::Seed>::spawns(res, self.branch()),
            self matches TlsTcp::Tls(m) ==> exists|sc: &mut Scope<R>, inner: Response<T, T::Seed>| #[trigger]
                call_ensures(<T as Machine<R>>::spawned, (m, sc), inner) && *sc == *old(scope)
                    && *final(sc) == *final(scope) && res == TlsTcp::<T, U>::tls_answered::<T::Seed, U::Seed>(inner),
            self matches TlsTcp::Tcp(m) ==> exists|sc: &mut Scope<R>, inner: Response<U, U::Seed>| #[trigger]
                call_ensures(<U as Machine<R>>::spawned, (m, sc), inner) && *sc == *old(scope)
                    && *final(sc) == *final(scope) && res == TlsTcp::<T, U>::tcp_answered::<U::Seed, T::Seed>(inner),
    {
        match self {
            TlsTcp::Tls(m) => {
                let inner = m.spawned(scope);
                let res = inner.map(TlsTcp::tls, TlsTcp::tls);
                assert(res == TlsTcp::<T, U>::tls_answered::<T::Seed, U::Seed>(inner));
                res
            },
            TlsTcp::Tcp(m) => {
                let inner = m.spawned(scope);
                let res = inner.map(TlsTcp::tcp, TlsTcp::tcp);
                assert(res == TlsTcp::<T, U>::tcp_answered::<U::Seed, T::Seed>(inner));
                res
            },
        }
    }

    fn timeout(self, scope: &mut Scope<R>) -> (res: Response<Self, Self::Seed>)
        ensures
            TlsTcp::<T, U>::stays(res, self.branch()),
            TlsTcp::<T::Seed, U::Seed>::spawns(res, self.branch()),
            self matches TlsTcp::Tls(m) ==> exists|sc: &mut Scope<R>, inner: Response<T, T::Seed>| #[trigger]
                call_ensures(<T as Machine<R>>::timeout, (m, sc), inner) && *sc == *old(scope)
                    && *final(sc) == *final(scope) && res == TlsTcp::<T, U>::tls_answered::<T::Seed, U::Seed>(inner),
            self matches TlsTcp::Tcp(m) ==> exists|sc: &mut Scope<R>, inner: Response<U, U::Seed>| #[trigger]
                call_ensures(<U as Machine<R>>::timeout, (m, sc), inner) && *sc == *old(scope)
                    && *final(sc) == *final(scope) && res == TlsTcp::<T, U>::tcp_answered::<U::Seed, T::Seed>(inner),
    {
        match self {
            TlsTcp::Tls(m) => {
                let inner = m.timeout(scope);
                let res = inner.map(TlsTcp::tls, TlsTcp::tls);
                assert(res == TlsTcp::<T, U>::tls_answered::<T::Seed, U::Seed>(inner));
                res
            },
            TlsTcp::Tcp(m) => {
                let inner = m.timeout(scope);
                let res = inner.map(TlsTcp::tcp, TlsTcp::tcp);
                assert(res == TlsTcp::<T, U>::tcp_answered::<U::Seed, T::Seed>(inner));
                res
            },
        }
    }

    fn wakeup(self, scope: &mut Scope<R>) -> (res: Response<Self, Self::Seed>)
        ensures
            TlsTcp::<T, U>::stays(res, self.branch()),
            TlsTcp::<T::Seed, U::Seed>::spawns(res, self.branch()),
            self matches TlsTcp::Tls(m) ==> exists|sc: &mut Scope<R>, inner: Response<T, T::Seed>| #[trigger]
                call_ensures(<T as Machine<R>>::wakeup, (m, sc), inner) && *sc == *old(scope)
                    && *final(sc) == *final(scope) && res == TlsTcp::<T, U>::tls_answered::<T::Seed, U::Seed>(inner),
            self matches TlsTcp::Tcp(m) ==> exists|sc: &mut Scope<R>, inner: Response<U, U::Seed>| #[trigger]
                call_ensures(<U as Machine<R>>::wakeup, (m, sc), inner) && *sc == *old(scope)
                    && *final(sc) == *final(scope) && res == TlsTcp::<T, U>::tcp_answered::<U::Seed, T::Seed>(inner),
    {
        match self {
            TlsTcp::Tls(m) => {
                let inner = m.wakeup(scope);
                let res = inner.map(TlsTcp::tls, TlsTcp::tls);
                assert(res == TlsTcp::<T, U>::tls_answered::<T::Seed, U::Seed>(inner));
                res
            },
            TlsTcp::Tcp(m) => {
                let inner = m.wakeup(scope);
                let res = inner.map(TlsTcp::tcp, TlsTcp::tcp);
                assert(res == TlsTcp::<T, U>::tcp_answered::<U::Seed, T::Seed>(inner));
                res
            },
        }
    }
}

//------------ TlsTcpFactory ------------------------------------------------

/// The seed factory for a client that opens encrypted and unencrypted
/// stream sockets: what is to be translated goes to the factory of its
/// branch.
pub struct TlsTcpFactory<TF, UF> {
    tls: TF,
    tcp: UF,
}

impl<TF, UF> TlsTcpFactory<TF, UF> {
    /// Makes the factory of the factories for its two branches.
    pub fn new(tls: TF, tcp: UF) -> (factory: Self)
        ensures
            factory.tls_factory() == tls,
            factory.tcp_factory() == tcp,
    {
        TlsTcpFactory { tls, tcp }
    }

    /// The factory for the branch `Tls`.
    pub closed spec fn tls_factory(self) -> TF {
        self.tls
    }

    /// The factory for the branch `Tcp`.
    pub closed spec fn tcp_factory(self) -> UF {
        self.tcp
    }
}

/// What the factory returns for what the factory of the branch `Tls`
/// produced: the seed, or what was to be translated with the error, under
/// the tag `Tls`.
pub open spec fn tls_tcp_tls_product<TO, UO, TS, US>(product: Result<TS, TranslateError<TO>>) -> Result<
    TlsTcp<TS, US>,
    TranslateError<TlsTcp<TO, UO>>,
> {
    match product {
        Ok(seed) => Ok(TlsTcp::Tls(seed)),
        Err(err) => Err(TranslateError(TlsTcp::Tls(err.0), err.1)),
    }
}

/// What the factory returns for what the factory of the branch `Tcp`
/// produced: the seed, or what was to be translated with the error, under
/// the tag `Tcp`.
pub open spec fn tls_tcp_tcp_product<TO, UO, TS, US>(product: Result<US, TranslateError<UO>>) -> Result<
    TlsTcp<TS, US>,
    TranslateError<TlsTcp<TO, UO>>,
> {
    match product {
        Ok(seed) => Ok(TlsTcp::Tcp(seed)),
        Err(err) => Err(TranslateError(TlsTcp::Tcp(err.0), err.1)),
    }
}

/// Returns what the factory returns for what the factory of the branch
/// `Tls` produced.
pub fn tls_tcp_tls_translated<TO, UO, TS, US>(product: Result<TS, TranslateError<TO>>) -> (res: Result<
    TlsTcp<TS, US>,
    TranslateError<TlsTcp<TO, UO>>,
>)
    ensures
        res == tls_tcp_tls_product::<TO, UO, TS, US>(product),
{
    match product {
        Ok(seed) => Ok(TlsTcp::Tls(seed)),
        Err(err) => Err(TranslateError(TlsTcp::Tls(err.0), err.1)),
    }
}

/// Returns what the factory returns for what the factory of the branch
/// `Tcp` produced.
pub fn tls_tcp_tcp_translated<TO, UO, TS, US>(product: Result<US, TranslateError<UO>>) -> (res: Result<
    TlsTcp<TS, US>,
    TranslateError<TlsTcp<TO, UO>>,
>)
    ensures
        res == tls_tcp_tcp_product::<TO, UO, TS, US>(product),
{
    match product {
        Ok(seed) => Ok(TlsTcp::Tcp(seed)),
        Err(err) => Err(TranslateError(TlsTcp::Tcp(err.0), err.1)),
    }
}

impl<TF, UF, TO, UO, TS, US> SeedFactory<TlsTcp<TO, UO>, TlsTcp<TS, US>> for TlsTcpFactory<
    TF,
    UF,
> where TF: SeedFactory<TO, TS>, UF: SeedFactory<UO, US> {
    /// Hands what is to be translated to the factory of its branch. What
    /// that factory produced is returned under the tag of the branch.
    fn translate(&self, output: TlsTcp<TO, UO>) -> (res: Result<
        TlsTcp<TS, US>,
        TranslateError<TlsTcp<TO, UO>>,
    >)
        ensures
            match res {
                Ok(seed) => seed.branch() == output.branch(),
                Err(err) => err.0.branch() == output.branch(),
            },
            output matches TlsTcp::Tls(inner) ==> exists|product: Result<TS, TranslateError<TO>>| #[trigger]
                call_ensures(
                    <TF as SeedFactory<TO, TS>>::translate,
                    (&self.tls_factory(), inner),
                    product,
                ) && res == tls_tcp_tls_product::<TO, UO, TS, US>(product),
            output matches TlsTcp::Tcp(inner) ==> exists|product: Result<US, TranslateError<UO>>| #[trigger]
                call_ensures(
                    <UF as SeedFactory<UO, US>>::translate,
                    (&self.tcp_factory(), inner),
                    product,
                ) && res == tls_tcp_tcp_product::<TO, UO, TS, US>(product),
    {
        match output {
            TlsTcp::Tls(output) => tls_tcp_tls_translated(self.tls.translate(output)),
            TlsTcp::Tcp(output) => tls_tcp_tcp_translated(self.tcp.translate(output)),
        }
    }
}

//------------ TlsUdp ------------------------------------------------------

/// Something for an encrypted stream socket or for a datagram socket: a
/// machine, a seed, or what a seed is made of.
pub enum TlsUdp<T, U> {
    Tls(T),
    Udp(U),
}

impl<T, U> TlsUdp<T, U> {
    /// The branch of the value: 0 for `Tls`, 1 for `Udp`.
    pub open spec fn branch(self) -> int {
        match self {
            TlsUdp::Tls(_) => 0,
            TlsUdp::Udp(_) => 1,
        }
    }

    fn tls(inner: T) -> (composed: Self)
        ensures
            composed == TlsUdp::<T, U>::Tls(inner),
    {
        TlsUdp::Tls(inner)
    }

    fn udp(inner: U) -> (composed: Self)
        ensures
            composed == TlsUdp::<T, U>::Udp(inner),
    {
        TlsUdp::Udp(inner)
    }

    /// Whether the machine that an answer holds, if it holds one, is in the
    /// given branch.
    pub open spec fn stays<N>(res: Response<Self, N>, branch: int) -> bool {
        match res {
            Response::Normal(m) => m.branch() == branch,
            Response::Deadline(m, _) => m.branch() == branch,
            Response::Spawn(m, _) => m.branch() == branch,
            _ => true,
        }
    }

    /// Whether the seed that an answer asks to spawn, if it asks, is for
    /// the given branch.
    pub open spec fn spawns<M>(res: Response<M, Self>, branch: int) -> bool {
        res matches Response::Spawn(_, seed) ==> seed.branch() == branch
    }

    /// The answer of a machine of the branch `Tls` to its creation, under
    /// the tag of the branch.
    pub open spec fn tls_created(inner: Response<T, Void>) -> Response<Self, Void> {
        match inner {
            Response::Normal(m) => Response::Normal(TlsUdp::Tls(m)),
            Response::Deadline(m, at) => Response::Deadline(TlsUdp::Tls(m), at),
            Response::Spawn(m, seed) => Response::Spawn(TlsUdp::Tls(m), seed),
            Response::Error(err) => Response::Error(err),
            Response::Done => Response::Done,
        }
    }

    /// The answer of a machine of the branch `Tls` with the seed type `S`,
    /// under the tag of the branch: the machine and a seed that it asks to
    /// spawn are tagged, everything else stays.
    pub open spec fn tls_answered<S, O>(inner: Response<T, S>) -> Response<
        Self,
        TlsUdp<S, O>,
    > {
        match inner {
            Response::Normal(m) => Response::Normal(TlsUdp::Tls(m)),
            Response::Deadline(m, at) => Response::Deadline(TlsUdp::Tls(m), at),
            Response::Spawn(m, seed) => Response::Spawn(TlsUdp::Tls(m), TlsUdp::Tls(seed)),
            Response::Error(err) => Response::Error(err),
            Response::Done => Response::Done,
        }
    }

    /// The answer of a machine of the branch `Udp` to its creation, under
    /// the tag of the branch.
    pub open spec fn udp_created(inner: Response<U, Void>) -> Response<Self, Void> {
        match inner {
            Response::Normal(m) => Response::Normal(TlsUdp::Udp(m)),
            Response::Deadline(m, at) => Response::Deadline(TlsUdp::Udp(m), at),
            Response::Spawn(m, seed) => Response::Spawn(TlsUdp::Udp(m), seed),
            Response::Error(err) => Response::Error(err),
            Response::Done => Response::Done,
        }
    }

    /// The answer of a machine of the branch `Udp` with the seed type `S`,
    /// under the tag of the branch: the machine and a seed that it asks to
    /// spawn are tagged, everything else stays.
    pub open spec fn udp_answered<S, O>(inner: Response<U, S>) -> Response<
        Self,
        TlsUdp<O, S>,
    > {
        match inner {
            Response::Normal(m) => Response::Normal(TlsUdp::Udp(m)),
            Response::Deadline(m, at) => Response::Deadline(TlsUdp::Udp(m), at),
            Response::Spawn(m, seed) => Response::Spawn(TlsUdp::Udp(m), TlsUdp::Udp(seed)),
            Response::Error(err) => Response::Error(err),
            Response::Done => Response::Done,
        }
    }
}

/// A machine for an encrypted stream socket or for a datagram socket. Which of the two a new machine is
/// for is decided by the branch of its seed, and a machine stays in its
/// branch. Every callback goes to the machine in the branch, and what that
/// machine answers is the answer, under the tag of the branch.
impl<R, T, U> Machine<R> for TlsUdp<T, U> where T: Machine<R>, U: Machine<R> {
    type Seed = TlsUdp<T::Seed, U::Seed>;

    fn create(seed: Self::Seed, scope: &mut Scope<R>) -> (res: Response<Self, Void>)
        ensures
            TlsUdp::<T, U>::stays(res, seed.branch()),
            seed matches TlsUdp::Tls(s) ==> exists|sc: &mut Scope<R>, inner: Response<T, Void>| #[trigger]
                call_ensures(<T as Machine<R>>::create, (s, sc), inner) && *sc == *old(scope)
                    && *final(sc) == *final(scope) && res == TlsUdp::<T, U>::tls_created(inner),
            seed matches TlsUdp::Udp(s) ==> exists|sc: &mut Scope<R>, inner: Response<U, Void>| #[trigger]
                call_ensures(<U as Machine<R>>::create, (s, sc), inner) && *sc == *old(scope)
                    && *final(sc) == *final(scope) && res == TlsUdp::<T, U>::udp_created(inner),
    {
        match seed {
            TlsUdp::Tls(seed) => {
                let inner = T::create(seed, scope);
                let res = inner.map_self(TlsUdp::tls);
                assert(res == TlsUdp::<T, U>::tls_created(inner));
                res
            },
            TlsUdp::Udp(seed) => {
                let inner = U::create(seed, scope);
                let res = inner.map_self(TlsUdp::udp);
                assert(res == TlsUdp::<T, U>::udp_created(inner));
                res
            },
        }
    }

    fn ready(self, events: Events, scope: &mut Scope<R>) -> (res: Response<Self, Self::Seed>)
        ensures
            TlsUdp::<T, U>::stays(res, self.branch()),
            TlsUdp::<T::Seed, U::Seed>::spawns(res, self.branch()),
            self matches TlsUdp::Tls(m) ==> exists|sc: &mut Scope<R>, inner: Response<T, T::Seed>| #[trigger]
                call_ensures(<T as Machine<R>>::ready, (m, events, sc), inner) && *sc == *old(scope)
                    && *final(sc) == *final(scope) && res == TlsUdp::<T, U>::tls_answered::<T::Seed, U::Seed>(inner),
            self matches TlsUdp::Udp(m) ==> exists|sc: &mut Scope<R>, inner: Response<U, U::Seed>| #[trigger]
                call_ensures(<U as Machine<R>>::ready, (m, events, sc), inner) && *sc == *old(scope)
                    && *final(sc) == *final(scope) && res == TlsUdp::<T, U>::udp_answered::<U::Seed, T::Seed>(inner),
    {
        match self {
            TlsUdp::Tls(m) => {
                let inner = m.ready(events, scope);
                let res = inner.map(TlsUdp::tls, TlsUdp::tls);
                assert(res == TlsUdp::<T, U>::tls_answered::<T::Seed, U::Seed>(inner));
                res
            },
            TlsUdp::Udp(m) => {
                let inner = m.ready(events, scope);
                let res = inner.map(TlsUdp::udp, TlsUdp::udp);
                assert(res == TlsUdp::<T, U>::udp_answered::<U::Seed, T::Seed>(inner));
                res
            },
        }
    }

    fn spawned(self, scope: &mut Scope<R>) -> (res: Response<Self, Self::Seed>)
        ensures
            TlsUdp::<T, U>::stays(res, self.branch()),
            TlsUdp::<T::Seed, U::Seed>::spawns(res, self.branch()),
            self matches TlsUdp::Tls(m) ==> exists|sc: &mut Scope<R>, inner: Response<T, T::Seed>| #[trigger]
                call_ensures(<T as Machine<R>>::spawned, (m, sc), inner) && *sc == *old(scope)
                    && *final(sc) == *final(scope) && res == TlsUdp::<T, U>::tls_answered::<T::Seed, U::Seed>(inner),
            self matches TlsUdp::Udp(m) ==> exists|sc: &mut Scope<R>, inner: Response<U, U::Seed>| #[trigger]
                call_ensures(<U as Machine<R>>::spawned, (m, sc), inner) && *sc == *old(scope)
                    && *final(sc) == *final(scope) && res == TlsUdp::<T, U>::udp_answered::<U::Seed, T::Seed>(inner),
    {
        match self {
            TlsUdp::Tls(m) => {
                let inner = m.spawned(scope);
                let res = inner.map(TlsUdp::tls, TlsUdp::tls);
                assert(res == TlsUdp::<T, U>::tls_answered::<T::Seed, U::Seed>(inner));
                res
            },
            TlsUdp::Udp(m) => {
                let inner = m.spawned(scope);
                let res = inner.map(TlsUdp::udp, TlsUdp::udp);
                assert(res == TlsUdp::<T, U>::udp_answered::<U::Seed, T::Seed>(inner));
                res
            },
        }
    }

    fn timeout(self, scope: &mut Scope<R>) -> (res: Response<Self, Self::Seed>)
        ensures
            TlsUdp::<T, U>::stays(res, self.branch()),
            TlsUdp::<T::Seed, U::Seed>::spawns(res, self.branch()),
            self matches TlsUdp::Tls(m) ==> exists|sc: &mut Scope<R>, inner: Response<T, T::Seed>| #[trigger]
                call_ensures(<T as Machine<R>>::timeout, (m, sc), inner) && *sc == *old(scope)
                    && *final(sc) == *final(scope) && res == TlsUdp::<T, U>::tls_answered::<T::Seed, U::Seed>(inner),
            self matches TlsUdp::Udp(m) ==> exists|sc: &mut Scope<R>, inner: Response<U, U::Seed>| #[trigger]
                call_ensures(<U as Machine<R>>::timeout, (m, sc), inner) && *sc == *old(scope)
                    && *final(sc) == *final(scope) && res == TlsUdp::<T, U>::udp_answered::<U::Seed, T::Seed>(inner),
    {
        match self {
            TlsUdp::Tls(m) => {
                let inner = m.timeout(scope);
                let res = inner.map(TlsUdp::tls, TlsUdp::tls);
                assert(res == TlsUdp::<T, U>::tls_answered::<T::Seed, U::Seed>(inner));
                res
            },
            TlsUdp::Udp(m) => {
                let inner = m.timeout(scope);
                let res = inner.map(TlsUdp::udp, TlsUdp::udp);
                assert(res == TlsUdp::<T, U>::udp_answered::<U::Seed, T::Seed>(inner));
                res
            },
        }
    }

    fn wakeup(self, scope: &mut Scope<R>) -> (res: Response<Self, Self::Seed>)
        ensures
            TlsUdp::<T, U>::stays(res, self.branch()),
            TlsUdp::<T::Seed, U::Seed>::spawns(res, self.branch()),
            self matches TlsUdp::Tls(m) ==> exists|sc: &mut Scope<R>, inner: Response<T, T::Seed>| #[trigger]
                call_ensures(<T as Machine<R>>::wakeup, (m, sc), inner) && *sc == *old(scope)
                    && *final(sc) == *final(scope) && res == TlsUdp::<T, U>::tls_answered::<T::Seed, U::Seed>(inner),
            self matches TlsUdp::Udp(m) ==> exists|sc: &mut Scope<R>, inner: Response<U, U::Seed>| #[trigger]
                call_ensures(<U as Machine<R>>::wakeup, (m, sc), inner) && *sc == *old(scope)
                    && *final(sc) == *final(scope) && res == TlsUdp::<T, U>::udp_answered::<U::Seed, T::Seed>(inner),
    {
        match self {
            TlsUdp::Tls(m) => {
                let inner = m.wakeup(scope);
                let res = inner.map(TlsUdp::tls, TlsUdp::tls);
                assert(res == TlsUdp::<T, U>::tls_answered::<T::Seed, U::Seed>(inner));
                res
            },
            TlsUdp::Udp(m) => {
                let inner = m.wakeup(scope);
                let res = inner.map(TlsUdp::udp, TlsUdp::udp);
                assert(res == TlsUdp::<T, U>::udp_answered::<U::Seed, T::Seed>(inner));
                res
            },
        }
    }
}

//------------ TlsUdpFactory ------------------------------------------------

/// The seed factory for a client that opens encrypted stream sockets and
/// datagram sockets: what is to be translated goes to the factory of its
/// branch.
pub struct TlsUdpFactory<TF, UF> {
    tls: TF,
    udp: UF,
}

impl<TF, UF> TlsUdpFactory<TF, UF> {
    /// Makes the factory of the factories for its two branches.
    pub fn new(tls: TF, udp: UF) -> (factory: Self)
        ensures
            factory.tls_factory() == tls,
            factory.udp_factory() == udp,
    {
        TlsUdpFactory { tls, udp }
    }

    /// The factory for the branch `Tls`.
    pub closed spec fn tls_factory(self) -> TF {
        self.tls
    }

    /// The factory for the branch `Udp`.
    pub closed spec fn udp_factory(self) -> UF {
        self.udp
    }
}

/// What the factory returns for what the factory of the branch `Tls`
/// produced: the seed, or what was to be translated with the error, under
/// the tag `Tls`.
pub open spec fn tls_udp_tls_product<TO, UO, TS, US>(product: Result<TS, TranslateError<TO>>) -> Result<
    TlsUdp<TS, US>,
    TranslateError<TlsUdp<TO, UO>>,
> {
    match product {
        Ok(seed) => Ok(TlsUdp::Tls(seed)),
        Err(err) => Err(TranslateError(TlsUdp::Tls(err.0), err.1)),
    }
}

/// What the factory returns for what the factory of the branch `Udp`
/// produced: the seed, or what was to be translated with the error, under
/// the tag `Udp`.
pub open spec fn tls_udp_udp_product<TO, UO, TS, US>(product: Result<US, TranslateError<UO>>) -> Result<
    TlsUdp<TS, US>,
    TranslateError<TlsUdp<TO, UO>>,
> {
    match product {
        Ok(seed) => Ok(TlsUdp::Udp(seed)),
        Err(err) => Err(TranslateError(TlsUdp::Udp(err.0), err.1)),
    }
}

/// Returns what the factory returns for what the factory of the branch
/// `Tls` produced.
pub fn tls_udp_tls_translated<TO, UO, TS, US>(product: Result<TS, TranslateError<TO>>) -> (res: Result<
    TlsUdp<TS, US>,
    TranslateError<TlsUdp<TO, UO>>,
>)
    ensures
        res == tls_udp_tls_product::<TO, UO, TS, US>(product),
{
    match product {
        Ok(seed) => Ok(TlsUdp::Tls(seed)),
        Err(err) => Err(TranslateError(TlsUdp::Tls(err.0), err.1)),
    }
}

/// Returns what the factory returns for what the factory of the branch
/// `Udp` produced.
pub fn tls_udp_udp_translated<TO, UO, TS, US>(product: Result<US, TranslateError<UO>>) -> (res: Result<
    TlsUdp<TS, US>,
    TranslateError<TlsUdp<TO, UO>>,
>)
    ensures
        res == tls_udp_udp_product::<TO, UO, TS, US>(product),
{
    match product {
        Ok(seed) => Ok(TlsUdp::Udp(seed)),
        Err(err) => Err(TranslateError(TlsUdp::Udp(err.0), err.1)),
    }
}

impl<TF, UF, TO, UO, TS, US> SeedFactory<TlsUdp<TO, UO>, TlsUdp<TS, US>> for TlsUdpFactory<
    TF,
    UF,
> where TF: SeedFactory<TO, TS>, UF: SeedFactory<UO, US> {
    /// Hands what is to be translated to the factory of its branch. What
    /// that factory produced is returned under the tag of the branch.
    fn translate(&self, output: TlsUdp<TO, UO>) -> (res: Result<
        TlsUdp<TS, US>,
        TranslateError<TlsUdp<TO, UO>>,
    >)
        ensures
            match res {
                Ok(seed) => seed.branch() == output.branch(),
                Err(err) => err.0.branch() == output.branch(),
            },
            output matches TlsUdp::Tls(inner) ==> exists|product: Result<TS, TranslateError<TO>>| #[trigger]
                call_ensures(
                    <TF as SeedFactory<TO, TS>>::translate,
                    (&self.tls_factory(), inner),
                    product,
                ) && res == tls_udp_tls_product::<TO, UO, TS, US>(product),
            output matches TlsUdp::Udp(inner) ==> exists|product: Result<US, TranslateError<UO>>| #[trigger]
                call_ensures(
                    <UF as SeedFactory<UO, US>>::translate,
                    (&self.udp_factory(), inner),
                    product,
                ) && res == tls_udp_udp_product::<TO, UO, TS, US>(product),
    {
        match output {
            TlsUdp::Tls(output) => tls_udp_tls_translated(self.tls.translate(output)),
            TlsUdp::Udp(output) => tls_udp_udp_translated(self.udp.translate(output)),
        }
    }
}

//------------ TlsTcpOrUdp ---------------------------------------------------

/// Something for an encrypted stream socket, for an unencrypted stream
/// socket or for a datagram socket.
pub enum TlsTcpOrUdp<S, C, U> {
    Tls(S),
    Tcp(C),
    Udp(U),
}

} // verus!
