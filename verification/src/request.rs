//! Machines that are driven by requests from within the application.
//!
//! A [`RequestMachine`] is either the receiving end of a duct of requests
//! with a request handler, or a machine that was spawned for a request. The
//! first flavor sleeps until a request wakes it up. It then drains the duct:
//! every request goes to the handler, and what the handler makes of it goes
//! to a [`SeedFactory`], which produces the seed of the machine to spawn.

use crate::error::Error;
use crate::events::Events;
use crate::handlers::RequestHandler;
use crate::machine::Machine;
use crate::response::Response;
use crate::scope::Scope;
use crate::sync::duct;
use crate::sync::DuctReceiver;
use crate::sync::DuctSender;
use crate::sync::RecvError;
use crate::time::Time;
use rotor::Void;
use std::marker::PhantomData;
use vstd::prelude::*;

verus! {

/// Produces the seed of a machine from what a request handler returned.
/// This is where a socket is made: an address is resolved, a connection is
/// started.
pub trait SeedFactory<O, S> {
    /// Produces the seed, or hands `output` back with the error.
    fn translate(&self, output: O) -> Result<S, TranslateError<O>>;
}

/// No seed could be made: what was to be translated, and why it could not
/// be.
pub struct TranslateError<O>(pub O, pub Error);

/// What a factory that opens a socket for an address returns: the socket
/// with the handler's seed, or, where the socket could not be opened, the
/// address and the seed with the error.
pub fn connected<A, T, S>(addr: A, seed: S, sock: Result<T, std::io::Error>) -> (res: Result<
    (T, S),
    TranslateError<(A, S)>,
>)
    ensures
        match sock {
            Ok(sock) => res == Ok::<(T, S), TranslateError<(A, S)>>((sock, seed)),
            Err(err) => res == Err::<(T, S), TranslateError<(A, S)>>(
                TranslateError((addr, seed), Error::Io(err)),
            ),
        },
{
    match sock {
        Ok(sock) => Ok((sock, seed)),
        Err(err) => Err(TranslateError((addr, seed), Error::from(err))),
    }
}

/// What a factory that opens an encrypted socket for an address returns:
/// the socket with the handler's seed, or, where the socket could not be
/// opened or secured, the address and the seed with the error.
pub fn secured<A, T, S>(addr: A, seed: S, sock: Result<T, Error>) -> (res: Result<
    (T, S),
    TranslateError<(A, S)>,
>)
    ensures
        match sock {
            Ok(sock) => res == Ok::<(T, S), TranslateError<(A, S)>>((sock, seed)),
            Err(err) => res == Err::<(T, S), TranslateError<(A, S)>>(
                TranslateError((addr, seed), err),
            ),
        },
{
    match sock {
        Ok(sock) => Ok((sock, seed)),
        Err(err) => Err(TranslateError((addr, seed), err)),
    }
}

//------------ RequestMachine -----------------------------------------------

/// A machine that turns requests into machines of type `M`.
///
/// `S` is the seed of `M`, `H` the request handler and `F` the factory that
/// makes seeds of what the handler returns.
pub struct RequestMachine<M, S, H: RequestHandler, F>(Inner<M, S, H, F>);

enum Inner<M, S, H: RequestHandler, F> {
    Req(Req<H, S, F>),
    M(M),
}

/// Whether the machine that an answer holds, if it holds one, is the
/// request flavor of a request machine.
pub open spec fn keeps_requests<M, S, H: RequestHandler, F, N>(
    res: Response<RequestMachine<M, S, H, F>, N>,
) -> bool {
    match res {
        Response::Normal(m) => m.is_requests(),
        Response::Deadline(m, _) => m.is_requests(),
        Response::Spawn(m, _) => m.is_requests(),
        _ => true,
    }
}

/// Whether the machine that an answer holds, if it holds one, is a machine
/// that was spawned for a request.
pub open spec fn keeps_machine<M, S, H: RequestHandler, F, N>(
    res: Response<RequestMachine<M, S, H, F>, N>,
) -> bool {
    match res {
        Response::Normal(m) => !m.is_requests(),
        Response::Deadline(m, _) => !m.is_requests(),
        Response::Spawn(m, _) => !m.is_requests(),
        _ => true,
    }
}

/// The answer of a request machine in terms of the machine that it wraps.
/// It is only meant for the answers of a machine that was spawned for a
/// request.
pub open spec fn machine_response<M, S, H: RequestHandler, F, N>(
    res: Response<RequestMachine<M, S, H, F>, N>,
) -> Response<M, N> {
    match res {
        Response::Normal(m) => Response::Normal(m.machine()),
        Response::Deadline(m, at) => Response::Deadline(m.machine(), at),
        Response::Spawn(m, seed) => Response::Spawn(m.machine(), seed),
        Response::Error(err) => Response::Error(err),
        Response::Done => Response::Done,
    }
}

/// The answer of a request machine in terms of its request flavor. It is
/// only meant for the answers of a machine of that flavor.
pub open spec fn requests_response<M, S, H: RequestHandler, F, N>(
    res: Response<RequestMachine<M, S, H, F>, N>,
) -> Response<Req<H, S, F>, N> {
    match res {
        Response::Normal(m) => Response::Normal(m.requests()),
        Response::Deadline(m, at) => Response::Deadline(m.requests(), at),
        Response::Spawn(m, seed) => Response::Spawn(m.requests(), seed),
        Response::Error(err) => Response::Error(err),
        Response::Done => Response::Done,
    }
}

impl<M, S, H, F> RequestMachine<M, S, H, F> where H: RequestHandler, F: SeedFactory<H::Output, S> {
    /// Creates the request flavor of the machine with the given handler and
    /// factory. Returns the response for the reactor and the sending end of
    /// the duct for the requests. The machine lives as long as some copy of
    /// that sending end does.
    pub fn new<R>(handler: H, factory: F, scope: &mut Scope<R>) -> (res: (
        Response<Self, Void>,
        DuctSender<H::Request>,
    ))
        ensures
            res.0 matches Response::Normal(m) && m.is_requests() && m.requests().handler()
                == handler && m.requests().factory() == factory && m.requests().rx().flag()
                == res.1.flag() && call_ensures(
                std::sync::mpsc::channel::<H::Request>,
                (),
                (res.1.channel(), m.requests().rx().channel()),
            ),
            res.1.notifier() == old(scope).notifier,
    {
        let (tx, rx) = duct(scope.notifier());
        (Response::ok(RequestMachine::req(Req::new(rx, handler, factory))), tx)
    }
}

impl<M, S, H: RequestHandler, F> RequestMachine<M, S, H, F> {
    /// Whether the machine is of the request flavor.
    pub closed spec fn is_requests(self) -> bool {
        self.0 is Req
    }

    /// The machine that a machine spawned for a request wraps.
    pub closed spec fn machine(self) -> M {
        self.0->M_0
    }

    /// The request flavor of a machine of that flavor.
    pub closed spec fn requests(self) -> Req<H, S, F> {
        self.0->Req_0
    }

    fn req(req: Req<H, S, F>) -> (machine: Self)
        ensures
            machine.is_requests(),
            machine.requests() == req,
    {
        RequestMachine(Inner::Req(req))
    }

    fn m(m: M) -> (machine: Self)
        ensures
            !machine.is_requests(),
            machine.machine() == m,
    {
        RequestMachine(Inner::M(m))
    }

    /// Wraps the answer of the request flavor.
    pub fn wrap_req<N>(res: Response<Req<H, S, F>, N>) -> (wrapped: Response<Self, N>)
        ensures
            keeps_requests(wrapped),
            requests_response(wrapped) == res,
    {
        res.map_self(RequestMachine::req)
    }

    /// Wraps the answer of a machine that was spawned for a request.
    pub fn wrap_m<N>(res: Response<M, N>) -> (wrapped: Response<Self, N>)
        ensures
            keeps_machine(wrapped),
            machine_response(wrapped) == res,
    {
        res.map_self(RequestMachine::m)
    }
}

impl<R, M, S, H, F> Machine<R> for RequestMachine<M, S, H, F> where
    M: Machine<R, Seed = S>,
    H: RequestHandler,
    F: SeedFactory<H::Output, S>,
 {
    type Seed = S;

    /// Creates the machine for a seed that the request flavor asked to
    /// spawn: the answer is that of `M::create`, wrapped.
    fn create(seed: Self::Seed, scope: &mut Scope<R>) -> (res: Response<Self, Void>)
        ensures
            keeps_machine(res),
            exists|sc: &mut Scope<R>| #[trigger]
                call_ensures(<M as Machine<R>>::create, (seed, sc), machine_response(res)) && *sc
                    == *old(scope) && *final(sc) == *final(scope),
    {
        Self::wrap_m(M::create(seed, scope))
    }

    /// The request flavor has no socket; it stays as it is. A machine that
    /// was spawned for a request answers what the machine it wraps answers.
    fn ready(self, events: Events, scope: &mut Scope<R>) -> (res: Response<Self, Self::Seed>)
        ensures
            self.is_requests() ==> res == Response::<Self, Self::Seed>::Normal(self),
            !self.is_requests() ==> keeps_machine(res) && exists|sc: &mut Scope<R>| #[trigger]
                call_ensures(
                    <M as Machine<R>>::ready,
                    (self.machine(), events, sc),
                    machine_response(res),
                ) && *sc == *old(scope) && *final(sc) == *final(scope),
    {
        match self.0 {
            Inner::Req(req) => Response::ok(RequestMachine::req(req)),
            Inner::M(machine) => {
                assert(self.machine() == machine);
                let inner = machine.ready(events, scope);
                let res = Self::wrap_m(inner);
                assert(machine_response(res) == inner);
                res
            },
        }
    }

    /// The request flavor goes on draining its duct.
    fn spawned(self, scope: &mut Scope<R>) -> (res: Response<Self, Self::Seed>)
        ensures
            self.is_requests() ==> keeps_requests(res) && drains(
                self.requests(),
                old(scope).now,
                requests_response(res),
            ),
            !self.is_requests() ==> keeps_machine(res) && exists|sc: &mut Scope<R>| #[trigger]
                call_ensures(
                    <M as Machine<R>>::spawned,
                    (self.machine(), sc),
                    machine_response(res),
                ) && *sc == *old(scope) && *final(sc) == *final(scope),
    {
        match self.0 {
            Inner::Req(req) => Self::wrap_req(req.process_requests(scope.now())),
            Inner::M(machine) => {
                assert(self.machine() == machine);
                let inner = machine.spawned(scope);
                let res = Self::wrap_m(inner);
                assert(machine_response(res) == inner);
                res
            },
        }
    }

    /// The request flavor sets a deadline only to be called again at once.
    /// It goes on draining its duct.
    fn timeout(self, scope: &mut Scope<R>) -> (res: Response<Self, Self::Seed>)
        ensures
            self.is_requests() ==> keeps_requests(res) && drains(
                self.requests(),
                old(scope).now,
                requests_response(res),
            ),
            !self.is_requests() ==> keeps_machine(res) && exists|sc: &mut Scope<R>| #[trigger]
                call_ensures(
                    <M as Machine<R>>::timeout,
                    (self.machine(), sc),
                    machine_response(res),
                ) && *sc == *old(scope) && *final(sc) == *final(scope),
    {
        match self.0 {
            Inner::Req(req) => Self::wrap_req(req.process_requests(scope.now())),
            Inner::M(machine) => {
                assert(self.machine() == machine);
                let inner = machine.timeout(scope);
                let res = Self::wrap_m(inner);
                assert(machine_response(res) == inner);
                res
            },
        }
    }

    /// The request flavor is woken up when a request was sent. It drains
    /// its duct.
    fn wakeup(self, scope: &mut Scope<R>) -> (res: Response<Self, Self::Seed>)
        ensures
            self.is_requests() ==> keeps_requests(res) && drains(
                self.requests(),
                old(scope).now,
                requests_response(res),
            ),
            !self.is_requests() ==> keeps_machine(res) && exists|sc: &mut Scope<R>| #[trigger]
                call_ensures(
                    <M as Machine<R>>::wakeup,
                    (self.machine(), sc),
                    machine_response(res),
                ) && *sc == *old(scope) && *final(sc) == *final(scope),
    {
        match self.0 {
            Inner::Req(req) => Self::wrap_req(req.process_requests(scope.now())),
            Inner::M(machine) => {
                assert(self.machine() == machine);
                let inner = machine.wakeup(scope);
                let res = Self::wrap_m(inner);
                assert(machine_response(res) == inner);
                res
            },
        }
    }
}

//------------ Req -----------------------------------------------------------

/// The request flavor of a request machine: the receiving end of the duct
/// of requests, the request handler and the seed factory.
pub struct Req<H: RequestHandler, S, F> {
    rx: DuctReceiver<H::Request>,
    handler: H,
    factory: F,
    marker: PhantomData<S>,
}

/// What one step of draining the duct leads to.
pub enum Drain<H: RequestHandler, S, F> {
    /// The request is dealt with; the next one is looked for.
    More(Req<H, S, F>),
    /// The callback ends with this response.
    Stop(Response<Req<H, S, F>, S>),
}

/// `product` is what the factory made of `output`.
pub open spec fn produces<O, S, F: SeedFactory<O, S>>(
    factory: F,
    output: O,
    product: Result<S, TranslateError<O>>,
) -> bool {
    call_ensures(<F as SeedFactory<O, S>>::translate, (&factory, output), product)
}

/// `answer` is what the request handler in the state `handler` made of
/// `request`, and `left` is the handler as that call left it.
pub open spec fn handles<H: RequestHandler, S, F>(
    handler: H,
    request: H::Request,
    answer: Option<H::Output>,
    left: H,
) -> bool {
    call_ensures(Req::<H, S, F>::ask, (handler, request), (answer, left))
}

/// What one step of draining leads to, given what the look into the duct
/// gave. An empty duct ends the callback and the machine waits as it is. A
/// duct without senders ends the machine. A request goes to the handler of
/// the machine: if the handler drops it, the next request is looked for;
/// otherwise the factory is handed what the handler made of it, and the
/// step is what [`Req::translated`] makes of the product.
pub open spec fn drain_step<H: RequestHandler, S, F: SeedFactory<H::Output, S>>(
    req: Req<H, S, F>,
    received: Result<Option<H::Request>, RecvError>,
    step: Drain<H, S, F>,
) -> bool {
    match received {
        Ok(None) => step == Drain::Stop(Response::<Req<H, S, F>, S>::Normal(req)),
        Err(_) => step == Drain::<H, S, F>::Stop(Response::Done),
        Ok(Some(request)) => exists|answer: Option<H::Output>, left: H| #[trigger]
            handles::<H, S, F>(req.handler(), request, answer, left) && match answer {
                None => step matches Drain::More(later) && later.handler() == left
                    && req.goes_on_as(later),
                Some(output) => exists|
                    product: Result<S, TranslateError<H::Output>>,
                    asked: Req<H, S, F>,
                |
                    produces(req.factory(), output, product) && asked.handler() == left
                        && req.goes_on_as(asked) && #[trigger] call_ensures(
                        Req::<H, S, F>::translated,
                        (asked, product),
                        step,
                    ),
            },
    }
}

/// The step `step` is what [`Req::drained`] made of the machine `req` and
/// of what the look `look` into the duct gave.
#[verifier::opaque]
pub open spec fn led_to<H: RequestHandler, S, F: SeedFactory<H::Output, S>>(
    req: Req<H, S, F>,
    look: Result<Option<H::Request>, RecvError>,
    step: Drain<H, S, F>,
) -> bool {
    call_ensures(Req::<H, S, F>::drained, (req, look), step)
}

/// `look` is what a look into the duct through `rx` gave.
#[verifier::opaque]
pub open spec fn looked_into<T: Send>(rx: DuctReceiver<T>, look: Result<Option<T>, RecvError>)
    -> bool {
    call_ensures(DuctReceiver::<T>::try_recv, (&rx,), look)
}

/// The course of one draining of the duct of `start`: the `looks` into the
/// duct, first to last, each of them what the duct gave; the machines
/// `reqs` as they were at each look, the first being `start`; and the step
/// `last` that the last look led to. Every look but the last led to the
/// machine of the look after it.
pub open spec fn drains_course<H: RequestHandler, S, F: SeedFactory<H::Output, S>>(
    start: Req<H, S, F>,
    looks: Seq<Result<Option<H::Request>, RecvError>>,
    reqs: Seq<Req<H, S, F>>,
    last: Drain<H, S, F>,
) -> bool {
    &&& looks.len() >= 1
    &&& reqs.len() == looks.len()
    &&& reqs[0] == start
    &&& forall|k: int| 0 <= k < looks.len() ==> looked_into(start.rx(), #[trigger] looks[k])
    &&& forall|k: int|
        0 <= k < looks.len() - 1 ==> led_to(#[trigger] reqs[k], looks[k], Drain::More(reqs[k + 1]))
    &&& led_to(reqs.last(), looks.last(), last)
}

/// What the request flavor `req` answers when it drains its duct at `now`.
/// It looks into the duct again and again, and the answer is the response
/// that the step of the last look ends the callback with. Only if every
/// look of as many as a machine can count found a request that led to no
/// spawn, the machine asks to be called again at once, by a deadline of
/// `now`. The machine that goes on drains the same duct with the same
/// factory.
pub open spec fn drains<H: RequestHandler, S, F: SeedFactory<H::Output, S>>(
    req: Req<H, S, F>,
    now: Time,
    res: Response<Req<H, S, F>, S>,
) -> bool {
    &&& req.goes_on_in(res)
    &&& exists|
        looks: Seq<Result<Option<H::Request>, RecvError>>,
        reqs: Seq<Req<H, S, F>>,
        last: Drain<H, S, F>,
    | #[trigger]
        drains_course(req, looks, reqs, last) && match res {
            Response::Deadline(later, at) => at == now && looks.len() == usize::MAX && last
                == Drain::<H, S, F>::More(later),
            _ => last == Drain::<H, S, F>::Stop(res),
        }
}

impl<H: RequestHandler, S, F> Req<H, S, F> {
    /// The receiving end of the duct of requests.
    pub closed spec fn rx(self) -> DuctReceiver<H::Request> {
        self.rx
    }

    /// The request handler.
    pub closed spec fn handler(self) -> H {
        self.handler
    }

    /// The seed factory.
    pub closed spec fn factory(self) -> F {
        self.factory
    }

    /// Hands a request to the request handler. Returns what the handler
    /// made of it, and the handler as the call left it.
    pub fn ask(handler: H, request: H::Request) -> (res: (Option<H::Output>, H))
        ensures
            exists|h: &mut H, answer: Option<H::Output>| #[trigger]
                call_ensures(<H as RequestHandler>::request, (h, request), answer) && *h
                    == handler && *final(h) == res.1 && answer == res.0,
    {
        let mut handler = handler;
        let answer = handler.request(request);
        (answer, handler)
    }

    fn new(rx: DuctReceiver<H::Request>, handler: H, factory: F) -> (req: Self)
        ensures
            req.rx() == rx,
            req.handler() == handler,
            req.factory() == factory,
    {
        Req { rx, handler, factory, marker: PhantomData }
    }

    /// Whether `later` is this machine after some requests: it drains the
    /// same duct and uses the same factory. Its handler may have changed
    /// with the requests it saw.
    pub open spec fn goes_on_as(self, later: Self) -> bool {
        later.rx() == self.rx() && later.factory() == self.factory()
    }

    /// Whether the machine that an answer holds, if it holds one, is this
    /// machine after some requests.
    pub open spec fn goes_on_in<N>(self, res: Response<Self, N>) -> bool {
        match res {
            Response::Normal(later) => self.goes_on_as(later),
            Response::Deadline(later, _) => self.goes_on_as(later),
            Response::Spawn(later, _) => self.goes_on_as(later),
            _ => true,
        }
    }
}

impl<H: RequestHandler, S, F: SeedFactory<H::Output, S>> Req<H, S, F> {
    /// Acts on what the factory made of the handler's answer to a request:
    /// with a seed the callback ends and the reactor is asked to spawn a
    /// machine; a failure goes back to the handler, and the next request is
    /// looked for.
    pub fn translated(self, product: Result<S, TranslateError<H::Output>>) -> (step: Drain<
        H,
        S,
        F,
    >)
        ensures
            match product {
                Ok(seed) => step matches Drain::Stop(Response::Spawn(req, spawned)) && spawned
                    == seed && req == self,
                Err(err) => step matches Drain::More(req) && self.goes_on_as(req) && exists|
                    h: &mut H,
                | #[trigger]
                    call_ensures(<H as RequestHandler>::error, (h, err.0, err.1), ()) && *h
                        == self.handler() && *final(h) == req.handler(),
            },
    {
        match product {
            Ok(seed) => Drain::Stop(Response::spawn(self, seed)),
            Err(err) => {
                let mut req = self;
                req.handler.error(err.0, err.1);
                Drain::More(req)
            },
        }
    }

    /// Acts on what one look into the duct gave. A request goes to the
    /// handler; what the handler returns goes to the factory, and a request
    /// that the handler drops is done with. An empty duct ends the callback
    /// and the machine waits. A duct without senders ends the machine.
    pub fn drained(self, received: Result<Option<H::Request>, RecvError>) -> (step: Drain<H, S, F>)
        ensures
            drain_step(self, received, step),
            match step {
                Drain::More(req) => received matches Ok(Some(_)) && self.goes_on_as(req),
                Drain::Stop(res) => self.goes_on_in(res) && !(res is Deadline) && !(res is Error),
            },
    {
        match received {
            Ok(Some(request)) => {
                let Req { rx, handler, factory, marker } = self;
                let (answer, handler) = Self::ask(handler, request);
                assert(handles::<H, S, F>(self.handler(), request, answer, handler));
                let req = Req { rx, handler, factory, marker };
                assert(req.handler() == handler && self.goes_on_as(req));
                match answer {
                    Some(output) => {
                        let product = req.factory.translate(output);
                        assert(produces(self.factory(), output, product));
                        req.translated(product)
                    },
                    None => Drain::More(req),
                }
            },
            Ok(None) => Drain::Stop(Response::ok(self)),
            Err(_) => Drain::Stop(Response::done()),
        }
    }

    /// Drains the duct until a machine is to be spawned, the duct is empty
    /// or its senders are gone. Should the duct never run empty, the
    /// machine asks to be called again at once, by a deadline of `now`.
    /// The machine that goes on drains the same duct with the same factory.
    pub fn process_requests(self, now: Time) -> (res: Response<Self, S>)
        ensures
            drains(self, now, res),
    {
        let mut req = self;
        let mut budget: usize = usize::MAX;
        let ghost mut looks: Seq<Result<Option<H::Request>, RecvError>> = Seq::empty();
        let ghost mut reqs: Seq<Req<H, S, F>> = Seq::empty();
        while budget > 0
            invariant
                self.goes_on_as(req),
                looks.len() == usize::MAX - budget,
                reqs.len() == looks.len(),
                looks.len() == 0 ==> req == self,
                looks.len() > 0 ==> reqs[0] == self && led_to(
                    reqs.last(),
                    looks.last(),
                    Drain::More(req),
                ),
                forall|k: int| 0 <= k < looks.len() ==> looked_into(self.rx(), #[trigger] looks[k]),
                forall|k: int|
                    0 <= k < looks.len() - 1 ==> led_to(
                        #[trigger] reqs[k],
                        looks[k],
                        Drain::More(reqs[k + 1]),
                    ),
            decreases budget,
        {
            budget = budget - 1;
            let received = req.rx.try_recv();
            assert(looked_into(self.rx(), received)) by {
                reveal(looked_into);
            }
            let step = req.drained(received);
            assert(led_to(req, received, step)) by {
                reveal(led_to);
            }
            proof {
                looks = looks.push(received);
                reqs = reqs.push(req);
            }
            match step {
                Drain::More(next) => {
                    req = next;
                },
                Drain::Stop(res) => {
                    assert(drains_course(self, looks, reqs, step));
                    return res;
                },
            }
        }
        let res = Response::ok(req).deadline(now);
        assert(drains_course(self, looks, reqs, Drain::More(req)));
        res
    }
}

//------------ ClientMachine ------------------------------------------------

/// A request handler for requests that are seeds already: every request is
/// handed on as it is.
pub struct Forward<S>(PhantomData<S>);

impl<S> Forward<S> {
    pub fn new() -> Self {
        Forward(PhantomData)
    }
}

impl<S: Send> RequestHandler for Forward<S> {
    type Request = S;

    type Output = S;

    fn request(&mut self, request: S) -> (output: Option<S>)
        ensures
            output == Some(request),
    {
        Some(request)
    }
}

/// A seed factory that has nothing to produce: what it is given is the
/// seed.
pub struct Ready;

impl<S> SeedFactory<S, S> for Ready {
    fn translate(&self, output: S) -> (res: Result<S, TranslateError<S>>)
        ensures
            res == Ok::<S, TranslateError<S>>(output),
    {
        Ok(output)
    }
}

/// A machine that spawns a machine of type `M` for every seed that is sent
/// into its duct.
pub type ClientMachine<M, S> = RequestMachine<M, S, Forward<S>, Ready>;

} // verus!
