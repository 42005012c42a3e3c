//! Fundamental machines for networked sockets.
//!
//! A [`TransportMachine`] drives one transport socket with its handler. A
//! [`ServerMachine`] is either a listener that accepts connections or one
//! of the connections it accepted.

use crate::error::Error;
use crate::events::Events;
use crate::handlers::AcceptHandler;
use crate::handlers::TransportHandler;
use crate::machine::Machine;
use crate::next::lemma_fold_all_push;
use crate::next::settle;
use crate::next::Answer;
use crate::next::Intent;
use crate::next::Next;
use crate::next::Interest;
use crate::response::Response;
use crate::scope::Scope;
use crate::sockets::Accept;
use crate::sockets::Blocked;
use crate::sockets::Evented;
use crate::sockets::SocketAddr;
use crate::sockets::Transport;
use crate::sync::TriggerReceiver;
use crate::sync::TriggerSender;
use crate::time::Time;
use rotor::Void;
use vstd::prelude::*;

verus! {

//------------ TransportMachine ----------------------------------------------

/// A machine combining a transport socket and a transport handler.
///
/// The machine owns both. It holds the net intent of the handler's answers
/// in the last callback that the handler answered, and registers the socket
/// accordingly.
///
/// Every callback starts a fold of its own: the interest after the callback
/// is the join of the answers that the handler gave in it, and the deadline
/// that was pending is folded in with their timeouts. In a callback without
/// an answer the intent stays as it was. The timeout callback folds like
/// any other: the deadline that has passed is still folded in, so that a
/// handler that goes on after a timeout is called for it again at once
/// unless it has the machine removed.
///
/// A socket that reports to be blocked in one direction is registered for
/// that direction instead of the handler's interest, also while the handler
/// waits. The intent is not changed by that. In the readiness callback of a
/// blocked socket the handler is called for what it last asked for, which
/// for a waiting handler is nothing.
///
/// As soon as the answers of a callback fold to `Remove`, the machine takes
/// the socket out of the reactor and hands it to the handler's `remove`.
/// No call of the handler follows.
pub struct TransportMachine<T: Transport, H: TransportHandler<T>> {
    /// The transport socket.
    sock: T,
    /// The transport handler.
    handler: H,
    /// The handler's last intent.
    intent: Intent,
}

/// The events for which the handler is called in one readiness callback.
///
/// A socket that is blocked must be read from or written to in order to
/// get unblocked, whatever the reactor reported: the handler is then called
/// for what it last asked for. Otherwise it is called for what the reactor
/// reported.
pub open spec fn dispatch_spec(reported: Events, blocked: Option<Blocked>, stated: Interest)
    -> Events {
    if blocked is Some {
        stated.events_spec()
    } else {
        reported
    }
}

/// The events for which the socket is registered after a callback.
///
/// A socket that is blocked in one direction is registered for that
/// direction, so that it can make progress, also where the handler waits.
/// Otherwise it is registered for what the handler asked for.
pub open spec fn registration_spec(blocked: Option<Blocked>, stated: Interest) -> Events {
    match blocked {
        Some(Blocked::Read) => Events { readable: true, writable: false, error: false },
        Some(Blocked::Write) => Events { readable: false, writable: true, error: false },
        None => stated.events_spec(),
    }
}

/// Whether a readiness callback with the reported events calls the handler
/// under no circumstances: no error is reported, and neither the reactor
/// nor the handler's last interest names a direction.
pub open spec fn calls_nobody(reported: Events, stated: Interest) -> bool {
    &&& !reported.error
    &&& !reported.readable && !stated.reads()
    &&& !reported.writable && !stated.writes()
}

/// Returns the events for which the handler is called in one readiness
/// callback.
pub fn dispatch(reported: Events, blocked: Option<Blocked>, stated: Interest) -> (events: Events)
    ensures
        events == dispatch_spec(reported, blocked, stated),
{
    match blocked {
        Some(_) => stated.events(),
        None => reported,
    }
}

/// Returns the events for which the socket is registered after a callback.
pub fn registration(blocked: Option<Blocked>, stated: Interest) -> (events: Events)
    ensures
        events == registration_spec(blocked, stated),
{
    match blocked {
        Some(Blocked::Read) => Events::readable(),
        Some(Blocked::Write) => Events::writable(),
        None => stated.events(),
    }
}

impl<T: Transport, H: TransportHandler<T>> TransportMachine<T, H> {
    /// A machine is alive: a handler that asks for removal leaves no
    /// machine behind.
    #[verifier::type_invariant]
    spec fn alive(self) -> bool {
        !(self.intent.interest is Remove)
    }

    /// The handler's last intent.
    pub closed spec fn intent(self) -> Intent {
        self.intent
    }

    /// The transport socket.
    pub closed spec fn sock(self) -> T {
        self.sock
    }

    /// The transport handler.
    pub closed spec fn handler(self) -> H {
        self.handler
    }

    /// Creates a new object from its parts.
    fn make(sock: T, handler: H, intent: Intent) -> (machine: Self)
        requires
            !(intent.interest is Remove),
        ensures
            machine.sock == sock,
            machine.handler == handler,
            machine.intent == intent,
    {
        TransportMachine { sock, handler, intent }
    }
}

/// What a callback of a transport machine answers, given the intent `held`
/// that the machine entered the callback with and the `answers` that its
/// handler gave during the callback, each at `now`.
///
/// A machine that goes on holds the net intent of the answers, which is not
/// `Remove`, and asks for a timeout exactly if that intent has a deadline.
/// The machine ends only if the answers fold to `Remove`. It never spawns.
/// It fails only with an error of the reactor.
pub open spec fn transport_outcome<T: Transport, H: TransportHandler<T>, S>(
    held: Intent,
    now: Time,
    answers: Seq<Answer>,
    res: Response<TransportMachine<T, H>, S>,
) -> bool {
    &&& forall|k: int| 0 <= k < answers.len() ==> (#[trigger] answers[k]).now == now
    &&& match res {
        Response::Normal(m) => {
            &&& m.intent() == settle(held, answers)
            &&& !(m.intent().interest is Remove)
            &&& m.intent().deadline is None
        },
        Response::Deadline(m, at) => {
            &&& m.intent() == settle(held, answers)
            &&& !(m.intent().interest is Remove)
            &&& m.intent().deadline == Some(at)
        },
        Response::Spawn(_, _) => false,
        Response::Error(err) => err is Io,
        Response::Done => settle(held, answers).interest is Remove,
    }
}

//--- What the socket, the reactor and the handler returned

/// `blocked` is what the socket `sock` told of the direction it is blocked
/// in.
pub open spec fn reports_block<T: Transport>(sock: T, blocked: Option<Blocked>) -> bool {
    call_ensures(<T as Transport>::blocked, (&sock,), blocked)
}

/// `probed` is what the socket that was `sock` told of its pending error,
/// and `left` is the socket as that call left it.
pub open spec fn probes<T: Transport, H: TransportHandler<T>>(
    sock: T,
    probed: Result<(), std::io::Error>,
    left: T,
) -> bool {
    call_ensures(TransportMachine::<T, H>::probe, (sock,), (probed, left))
}

/// `out` is what the reactor answered when `sock` was registered for
/// `events`.
pub open spec fn registers<R, T: Evented<R>>(
    sock: T,
    events: Events,
    out: Result<(), std::io::Error>,
) -> bool {
    exists|reactor: &mut R| #[trigger]
        call_ensures(<T as Evented<R>>::register, (&sock, reactor, events), out)
}

/// `out` is what the reactor answered when `sock` was registered anew for
/// `events`.
pub open spec fn reregisters<R, T: Evented<R>>(
    sock: T,
    events: Events,
    out: Result<(), std::io::Error>,
) -> bool {
    exists|reactor: &mut R| #[trigger]
        call_ensures(<T as Evented<R>>::reregister, (&sock, reactor, events), out)
}

/// `out` is what the reactor answered when `sock` was taken out of it.
pub open spec fn deregisters<R, T: Evented<R>>(sock: T, out: Result<(), std::io::Error>) -> bool {
    exists|reactor: &mut R| #[trigger]
        call_ensures(<T as Evented<R>>::deregister, (&sock, reactor), out)
}

/// The handler's `remove` was called with `sock`.
pub open spec fn removes<T, H: TransportHandler<T>>(sock: T) -> bool {
    call_ensures(<H as TransportHandler<T>>::remove, (sock,), ())
}

/// `next` is what the handler in the state `handler` answered when it was
/// called for readability of the socket that was `sock`, and `left` is the
/// socket as that call left it.
pub open spec fn answers_readable<T: Transport, H: TransportHandler<T>>(
    handler: H,
    sock: T,
    next: Next<H>,
    left: T,
) -> bool {
    call_ensures(TransportMachine::<T, H>::read, (handler, sock), (next, left))
}

/// `next` is what the handler in the state `handler` answered when it was
/// called for writability of the socket that was `sock`, and `left` is the
/// socket as that call left it.
pub open spec fn answers_writable<T: Transport, H: TransportHandler<T>>(
    handler: H,
    sock: T,
    next: Next<H>,
    left: T,
) -> bool {
    call_ensures(TransportMachine::<T, H>::write, (handler, sock), (next, left))
}

//--- What a machine answers to that

/// The answer holds the machine that is made of `sock`, `handler` and
/// `intent`, with the deadline of `intent` if it has one.
pub open spec fn holds<T: Transport, H: TransportHandler<T>, S>(
    res: Response<TransportMachine<T, H>, S>,
    sock: T,
    handler: H,
    intent: Intent,
) -> bool {
    match res {
        Response::Normal(m) => {
            &&& m.sock() == sock
            &&& m.handler() == handler
            &&& m.intent() == intent
            &&& intent.deadline is None
        },
        Response::Deadline(m, at) => {
            &&& m.sock() == sock
            &&& m.handler() == handler
            &&& m.intent() == intent
            &&& intent.deadline == Some(at)
        },
        _ => false,
    }
}

/// The answer of a machine that goes on with `sock`, `handler` and
/// `intent`: the socket is asked whether it is blocked and registered anew
/// for what [`registration_spec`] gives. If the reactor takes that, the
/// answer holds the machine; otherwise it is the reactor's error.
pub open spec fn goes_on<R, T: Transport + Evented<R>, H: TransportHandler<T>, S>(
    sock: T,
    handler: H,
    intent: Intent,
    res: Response<TransportMachine<T, H>, S>,
) -> bool {
    exists|blocked: Option<Blocked>, out: Result<(), std::io::Error>| #[trigger]
        reregisters::<R, T>(sock, registration_spec(blocked, intent.interest), out)
            && reports_block(sock, blocked) && match out {
            Ok(_) => holds(res, sock, handler, intent),
            Err(err) => res == Response::<TransportMachine<T, H>, S>::Error(Error::Io(err)),
        }
}

/// The answer of a machine that is torn down: `sock` is taken out of the
/// reactor and handed to the handler's `remove`. The machine has ended,
/// with the reactor's error if it gave one.
pub open spec fn tears_down<R, T: Transport + Evented<R>, H: TransportHandler<T>, S>(
    sock: T,
    res: Response<TransportMachine<T, H>, S>,
) -> bool {
    exists|out: Result<(), std::io::Error>| #[trigger]
        deregisters::<R, T>(sock, out) && removes::<T, H>(sock) && match out {
            Ok(_) => res == Response::<TransportMachine<T, H>, S>::Done,
            Err(err) => res == Response::<TransportMachine<T, H>, S>::Error(Error::Io(err)),
        }
}

/// The answer of a machine with the socket `sock` whose handler answered
/// `next` at `now`, the fold of the callback having come to `pass` before:
/// if the fold comes to `Remove`, the machine is torn down; otherwise it
/// goes on with the handler's new state and the new fold.
pub open spec fn answers_with<R, T: Transport + Evented<R>, H: TransportHandler<T>, S>(
    pass: Intent,
    sock: T,
    next: Next<H>,
    now: Time,
    res: Response<TransportMachine<T, H>, S>,
) -> bool {
    let folded = pass.fold(next@.interest, next@.timeout, now);
    if folded.interest is Remove {
        tears_down::<R, T, H, S>(sock, res)
    } else {
        next@.state matches Some(handler) && goes_on::<R, T, H, S>(sock, handler, folded, res)
    }
}

/// The answer of a new machine whose handler was created on `sock` and
/// answered `next` at `now`: if the answer asks for removal, the socket
/// goes to the handler's `remove` and the machine has ended; otherwise the
/// socket is registered for the events of the first intent, and the answer
/// holds the machine if the reactor takes that, and is the reactor's error
/// if not.
pub open spec fn starts_with<R, T: Transport + Evented<R>, H: TransportHandler<T>>(
    sock: T,
    next: Next<H>,
    now: Time,
    res: Response<TransportMachine<T, H>, Void>,
) -> bool {
    let first = Intent::idle().fold(next@.interest, next@.timeout, now);
    if first.interest is Remove {
        removes::<T, H>(sock) && res == Response::<TransportMachine<T, H>, Void>::Done
    } else {
        next@.state matches Some(handler) && exists|out: Result<(), std::io::Error>| #[trigger]
            registers::<R, T>(sock, first.interest.events_spec(), out) && match out {
                Ok(_) => holds(res, sock, handler, first),
                Err(err) => res == Response::<TransportMachine<T, H>, Void>::Error(
                    Error::Io(err),
                ),
            }
    }
}

/// The end of a readiness callback: the machine goes on with the fold of
/// the answers of this callback, or, if there was none, with the intent
/// `held` that it had.
pub open spec fn ready_ends<R, T: Transport + Evented<R>, H: TransportHandler<T>, S>(
    held: Intent,
    pass: Intent,
    answered: bool,
    sock: T,
    handler: H,
    res: Response<TransportMachine<T, H>, S>,
) -> bool {
    goes_on::<R, T, H, S>(
        sock,
        handler,
        if answered {
            pass
        } else {
            held
        },
        res,
    )
}

/// The last step of a readiness callback: if `dispatched` holds
/// writability, the handler's `writable` is called and its answer folded
/// in; then the callback ends.
pub open spec fn ready_writes<R, T: Transport + Evented<R>, H: TransportHandler<T>, S>(
    dispatched: Events,
    held: Intent,
    pass: Intent,
    answered: bool,
    sock: T,
    handler: H,
    now: Time,
    res: Response<TransportMachine<T, H>, S>,
) -> bool {
    if dispatched.writable {
        exists|next: Next<H>, left: T| #[trigger]
            answers_writable(handler, sock, next, left) && {
                let folded = pass.fold(next@.interest, next@.timeout, now);
                if folded.interest is Remove {
                    tears_down::<R, T, H, S>(left, res)
                } else {
                    next@.state matches Some(h) && ready_ends::<R, T, H, S>(
                        held,
                        folded,
                        true,
                        left,
                        h,
                        res,
                    )
                }
            }
    } else {
        ready_ends::<R, T, H, S>(held, pass, answered, sock, handler, res)
    }
}

/// The step before: if `dispatched` holds readability, the handler's
/// `readable` is called and its answer folded in; then writability is
/// looked at, unless the fold has come to `Remove`.
pub open spec fn ready_reads<R, T: Transport + Evented<R>, H: TransportHandler<T>, S>(
    dispatched: Events,
    held: Intent,
    pass: Intent,
    answered: bool,
    sock: T,
    handler: H,
    now: Time,
    res: Response<TransportMachine<T, H>, S>,
) -> bool {
    if dispatched.readable {
        exists|next: Next<H>, left: T| #[trigger]
            answers_readable(handler, sock, next, left) && {
                let folded = pass.fold(next@.interest, next@.timeout, now);
                if folded.interest is Remove {
                    tears_down::<R, T, H, S>(left, res)
                } else {
                    next@.state matches Some(h) && ready_writes::<R, T, H, S>(
                        dispatched,
                        held,
                        folded,
                        true,
                        left,
                        h,
                        now,
                        res,
                    )
                }
            }
    } else {
        ready_writes::<R, T, H, S>(dispatched, held, pass, answered, sock, handler, now, res)
    }
}

/// The dispatch of a readiness callback: the socket is asked whether it is
/// blocked, and the handler is called for what [`dispatch_spec`] gives of
/// the reported events, the block, and the interest that the handler last
/// stated.
pub open spec fn ready_dispatches<R, T: Transport + Evented<R>, H: TransportHandler<T>, S>(
    reported: Events,
    held: Intent,
    pass: Intent,
    answered: bool,
    sock: T,
    handler: H,
    now: Time,
    res: Response<TransportMachine<T, H>, S>,
) -> bool {
    exists|blocked: Option<Blocked>| #[trigger]
        reports_block(sock, blocked) && ready_reads::<R, T, H, S>(
            dispatch_spec(
                reported,
                blocked,
                if answered {
                    pass.interest
                } else {
                    held.interest
                },
            ),
            held,
            pass,
            answered,
            sock,
            handler,
            now,
            res,
        )
}

/// The whole of a readiness callback of a machine with the intent `held`,
/// the socket `sock` and the handler `handler`. If an error is reported,
/// the socket is asked for its pending error first, and an error that it
/// gives goes to the handler's `error`, whose answer is the first to be
/// folded. Then `readable` and `writable` are called as the dispatch says,
/// in this order, each on the state that the call before left. The fold
/// starts from the deadline that was pending, and the first answer that
/// brings it to `Remove` ends the machine without a further call.
pub open spec fn ready_course<R, T: Transport + Evented<R>, H: TransportHandler<T>, S>(
    reported: Events,
    held: Intent,
    sock: T,
    handler: H,
    now: Time,
    res: Response<TransportMachine<T, H>, S>,
) -> bool {
    if reported.error {
        exists|probed: Result<(), std::io::Error>, left: T| #[trigger]
            probes::<T, H>(sock, probed, left) && match probed {
                Err(err) => exists|next: Next<H>| #[trigger]
                    call_ensures(
                        <H as TransportHandler<T>>::error,
                        (handler, Error::Io(err)),
                        next,
                    ) && {
                        let folded = held.resume().fold(next@.interest, next@.timeout, now);
                        if folded.interest is Remove {
                            tears_down::<R, T, H, S>(left, res)
                        } else {
                            next@.state matches Some(h) && ready_dispatches::<R, T, H, S>(
                                reported,
                                held,
                                folded,
                                true,
                                left,
                                h,
                                now,
                                res,
                            )
                        }
                    },
                Ok(_) => ready_dispatches::<R, T, H, S>(
                    reported,
                    held,
                    held.resume(),
                    false,
                    left,
                    handler,
                    now,
                    res,
                ),
            }
    } else {
        ready_dispatches::<R, T, H, S>(reported, held, held.resume(), false, sock, handler, now, res)
    }
}

/// A readiness callback that calls nobody leaves the machine as it is: where
/// no error is reported and neither the reactor nor the handler's last
/// interest names a direction, the machine goes on with the socket, the
/// handler and the intent that it had.
pub proof fn lemma_quiet_ready_changes_nothing<
    R,
    T: Transport + Evented<R>,
    H: TransportHandler<T>,
    S,
>(
    reported: Events,
    held: Intent,
    sock: T,
    handler: H,
    now: Time,
    res: Response<TransportMachine<T, H>, S>,
)
    requires
        calls_nobody(reported, held.interest),
        ready_course::<R, T, H, S>(reported, held, sock, handler, now, res),
    ensures
        goes_on::<R, T, H, S>(sock, handler, held, res),
{
}

/// # Machine Creation
///
impl<T: Transport, H: TransportHandler<T>> TransportMachine<T, H> {
    /// Creates a new machine.
    ///
    /// Creates the handler from `seed` with a notifier for the new machine,
    /// makes the first intent of the handler's answer and registers the
    /// socket for it. If the handler asks for removal at once, the socket
    /// is not registered at all and goes to the handler.
    pub fn new<R>(sock: T, seed: H::Seed, scope: &mut Scope<R>) -> (res: Response<Self, Void>) where
        T: Evented<R>,

        ensures
            exists|answers: Seq<Answer>| #[trigger]
                transport_outcome(Intent::idle(), old(scope).now, answers, res) && answers.len()
                    == 1,
            exists|s: &mut T, next: Next<H>| #[trigger]
                call_ensures(
                    <H as TransportHandler<T>>::create,
                    (seed, s, old(scope).notifier),
                    next,
                ) && *s == sock && starts_with::<R, T, H>(*final(s), next, old(scope).now, res),
    {
        let now = scope.now();
        let mut sock = sock;
        let next = H::create(seed, &mut sock, scope.notifier());
        let ghost answer = Answer { interest: next@.interest, timeout: next@.timeout, now };
        proof {
            lemma_fold_all_push(Intent::idle(), Seq::empty(), answer);
            assert(Intent::idle().resume() == Intent::idle());
        }
        let res = match Intent::new(next, now) {
            Some((intent, handler)) => {
                let conn = TransportMachine::make(sock, handler, intent);
                let events = conn.intent.events();
                let out = conn.sock.register(&mut scope.reactor, events);
                assert(registers::<R, T>(sock, intent.interest.events_spec(), out));
                match out {
                    Ok(_) => conn.response(),
                    Err(err) => Response::error(Error::from(err)),
                }
            },
            None => {
                H::remove(sock);
                Response::done()
            },
        };
        assert(transport_outcome(Intent::idle(), old(scope).now, seq![answer], res));
        assert(starts_with::<R, T, H>(sock, next, old(scope).now, res));
        res
    }
}

/// # The steps of a callback
///
impl<T: Transport, H: TransportHandler<T>> TransportMachine<T, H> {
    /// Asks the socket for its pending error. Returns what it told, and
    /// the socket as the call left it.
    pub fn probe(sock: T) -> (res: (Result<(), std::io::Error>, T))
        ensures
            exists|s: &mut T, probed: Result<(), std::io::Error>| #[trigger]
                call_ensures(<T as Transport>::take_socket_error, (s,), probed) && *s == sock
                    && *final(s) == res.1 && probed == res.0,
    {
        let mut sock = sock;
        let probed = sock.take_socket_error();
        (probed, sock)
    }

    /// Calls the handler for readability of the socket. Returns the
    /// handler's answer, and the socket as the call left it.
    pub fn read(handler: H, sock: T) -> (res: (Next<H>, T))
        ensures
            exists|s: &mut T, next: Next<H>| #[trigger]
                call_ensures(<H as TransportHandler<T>>::readable, (handler, s), next) && *s
                    == sock && *final(s) == res.1 && next == res.0,
    {
        let mut sock = sock;
        let next = handler.readable(&mut sock);
        (next, sock)
    }

    /// Calls the handler for writability of the socket. Returns the
    /// handler's answer, and the socket as the call left it.
    pub fn write(handler: H, sock: T) -> (res: (Next<H>, T))
        ensures
            exists|s: &mut T, next: Next<H>| #[trigger]
                call_ensures(<H as TransportHandler<T>>::writable, (handler, s), next) && *s
                    == sock && *final(s) == res.1 && next == res.0,
    {
        let mut sock = sock;
        let next = handler.writable(&mut sock);
        (next, sock)
    }

    /// Performs the final steps in successful event handling.
    ///
    /// Reregisters for the correct events depending on the socket's
    /// blocked state and the handler's interests and generates the
    /// correct response.
    pub fn next<R, S>(self, scope: &mut Scope<R>) -> (res: Response<Self, S>) where T: Evented<R>
        ensures
            final(scope).now == old(scope).now,
            !(self.intent().interest is Remove),
            goes_on::<R, T, H, S>(self.sock(), self.handler(), self.intent(), res),
    {
        proof {
            use_type_invariant(&self);
        }
        let blocked = self.sock.blocked();
        let events = registration(blocked, self.intent.interest);
        let out = self.sock.reregister(&mut scope.reactor, events);
        assert(reregisters::<R, T>(
            self.sock,
            registration_spec(blocked, self.intent.interest),
            out,
        ));
        match out {
            Ok(_) => self.response(),
            Err(err) => Response::error(Error::from(err)),
        }
    }

    /// Generates the correct response for this machine.
    ///
    /// The machine goes on in any case, with a deadline if its intent has
    /// one.
    pub fn response<S>(self) -> (res: Response<Self, S>)
        ensures
            !(self.intent().interest is Remove),
            match self.intent().deadline {
                Some(deadline) => res == Response::<Self, S>::Deadline(self, deadline),
                None => res == Response::<Self, S>::Normal(self),
            },
    {
        proof {
            use_type_invariant(&self);
        }
        match self.intent.deadline() {
            Some(deadline) => Response::ok(self).deadline(deadline),
            None => Response::ok(self),
        }
    }

    /// Tears the machine down once its handler has asked for removal: takes
    /// the socket out of the reactor, then hands it to the handler's
    /// `remove`.
    pub fn teardown<R, S>(sock: T, scope: &mut Scope<R>) -> (res: Response<Self, S>) where
        T: Evented<R>,

        ensures
            final(scope).now == old(scope).now,
            tears_down::<R, T, H, S>(sock, res),
    {
        let out = sock.deregister(&mut scope.reactor);
        assert(deregisters::<R, T>(sock, out));
        H::remove(sock);
        match out {
            Ok(_) => Response::done(),
            Err(err) => Response::error(Error::from(err)),
        }
    }

    /// Acts on one answer of the handler: folds it into `pass`, and tears
    /// the machine down if the fold comes to `Remove`, or goes on with the
    /// handler's new state.
    pub fn answered<R, S>(pass: Intent, sock: T, next: Next<H>, scope: &mut Scope<R>) -> (res:
        Response<Self, S>) where T: Evented<R>
        ensures
            final(scope).now == old(scope).now,
            answers_with::<R, T, H, S>(pass, sock, next, old(scope).now, res),
    {
        let now = scope.now();
        match pass.merge(next, now) {
            Some((intent, handler)) => TransportMachine::make(sock, handler, intent).next(scope),
            None => Self::teardown(sock, scope),
        }
    }

    /// Ends a readiness callback: the machine goes on with the fold of the
    /// answers of the callback, or with the intent it had if there was no
    /// answer.
    fn ready_end<R, S>(
        held: Intent,
        pass: Intent,
        answered: bool,
        sock: T,
        handler: H,
        scope: &mut Scope<R>,
    ) -> (res: Response<Self, S>) where T: Evented<R>
        requires
            !(held.interest is Remove),
            answered ==> !(pass.interest is Remove),
        ensures
            final(scope).now == old(scope).now,
            ready_ends::<R, T, H, S>(held, pass, answered, sock, handler, res),
    {
        let intent = if answered {
            pass
        } else {
            held
        };
        TransportMachine::make(sock, handler, intent).next(scope)
    }

    /// Calls the handler's `writable` if `dispatched` says so, and ends
    /// the callback.
    fn ready_write<R, S>(
        dispatched: Events,
        held: Intent,
        pass: Intent,
        answered: bool,
        sock: T,
        handler: H,
        scope: &mut Scope<R>,
    ) -> (res: Response<Self, S>) where T: Evented<R>
        requires
            !(held.interest is Remove),
            answered ==> !(pass.interest is Remove),
        ensures
            final(scope).now == old(scope).now,
            ready_writes::<R, T, H, S>(
                dispatched,
                held,
                pass,
                answered,
                sock,
                handler,
                old(scope).now,
                res,
            ),
    {
        if dispatched.is_writable() {
            let now = scope.now();
            let ghost before = sock;
            let (next, sock) = Self::write(handler, sock);
            assert(answers_writable(handler, before, next, sock));
            let res = match pass.merge(next, now) {
                Some((merged, h)) => {
                    let res = Self::ready_end(held, merged, true, sock, h, scope);
                    assert(ready_ends::<R, T, H, S>(
                        held,
                        pass.fold(next@.interest, next@.timeout, now),
                        true,
                        sock,
                        next@.state->0,
                        res,
                    ));
                    res
                },
                None => {
                    let res = Self::teardown(sock, scope);
                    assert(tears_down::<R, T, H, S>(sock, res));
                    res
                },
            };
            res
        } else {
            Self::ready_end(held, pass, answered, sock, handler, scope)
        }
    }

    /// Calls the handler's `readable` if `dispatched` says so, and goes on
    /// to writability.
    fn ready_read<R, S>(
        dispatched: Events,
        held: Intent,
        pass: Intent,
        answered: bool,
        sock: T,
        handler: H,
        scope: &mut Scope<R>,
    ) -> (res: Response<Self, S>) where T: Evented<R>
        requires
            !(held.interest is Remove),
            answered ==> !(pass.interest is Remove),
        ensures
            final(scope).now == old(scope).now,
            ready_reads::<R, T, H, S>(
                dispatched,
                held,
                pass,
                answered,
                sock,
                handler,
                old(scope).now,
                res,
            ),
    {
        if dispatched.is_readable() {
            let now = scope.now();
            let ghost before = sock;
            let (next, sock) = Self::read(handler, sock);
            assert(answers_readable(handler, before, next, sock));
            match pass.merge(next, now) {
                Some((merged, h)) => {
                    let res = Self::ready_write(dispatched, held, merged, true, sock, h, scope);
                    assert(ready_writes::<R, T, H, S>(
                        dispatched,
                        held,
                        pass.fold(next@.interest, next@.timeout, now),
                        true,
                        sock,
                        next@.state->0,
                        now,
                        res,
                    ));
                    res
                },
                None => {
                    let res = Self::teardown(sock, scope);
                    assert(tears_down::<R, T, H, S>(sock, res));
                    res
                },
            }
        } else {
            Self::ready_write(dispatched, held, pass, answered, sock, handler, scope)
        }
    }

    /// Asks the socket whether it is blocked and calls the handler for
    /// what the dispatch gives.
    fn ready_dispatch<R, S>(
        reported: Events,
        held: Intent,
        pass: Intent,
        answered: bool,
        sock: T,
        handler: H,
        scope: &mut Scope<R>,
    ) -> (res: Response<Self, S>) where T: Evented<R>
        requires
            !(held.interest is Remove),
            answered ==> !(pass.interest is Remove),
        ensures
            final(scope).now == old(scope).now,
            ready_dispatches::<R, T, H, S>(
                reported,
                held,
                pass,
                answered,
                sock,
                handler,
                old(scope).now,
                res,
            ),
    {
        // A blocked socket is read from or written to as the handler last
        // asked, so that it can get unblocked.
        let stated = if answered {
            pass.interest
        } else {
            held.interest
        };
        let blocked = sock.blocked();
        let dispatched = dispatch(reported, blocked, stated);
        let res = Self::ready_read(dispatched, held, pass, answered, sock, handler, scope);
        assert(reports_block(sock, blocked));
        res
    }
}

//--- Machine

impl<R, T, H> Machine<R> for TransportMachine<T, H> where
    T: Transport + Evented<R>,
    H: TransportHandler<T>,
 {
    /// The seed is a pair of the new socket and the handler's seed.
    type Seed = (T, H::Seed);

    fn create(seed: Self::Seed, scope: &mut Scope<R>) -> (res: Response<Self, Void>)
        ensures
            exists|answers: Seq<Answer>| #[trigger]
                transport_outcome(Intent::idle(), old(scope).now, answers, res) && answers.len()
                    == 1,
            exists|s: &mut T, next: Next<H>| #[trigger]
                call_ensures(
                    <H as TransportHandler<T>>::create,
                    (seed.1, s, old(scope).notifier),
                    next,
                ) && *s == seed.0 && starts_with::<R, T, H>(
                    *final(s),
                    next,
                    old(scope).now,
                    res,
                ),
    {
        TransportMachine::new(seed.0, seed.1, scope)
    }

    /// Handles readiness of the socket.
    ///
    /// If the reactor reports an error, the error that is pending on the
    /// socket goes to the handler's `error` first. Then the handler's
    /// `readable` and `writable` are called, in this order, for the events
    /// that [`dispatch_spec`] gives. As soon as the answers fold to
    /// `Remove`, the machine is torn down and no further call is made.
    /// Otherwise the socket is registered anew for what
    /// [`registration_spec`] gives.
    fn ready(self, events: Events, scope: &mut Scope<R>) -> (res: Response<Self, Self::Seed>)
        ensures
            ready_course::<R, T, H, Self::Seed>(
                events,
                self.intent(),
                self.sock(),
                self.handler(),
                old(scope).now,
                res,
            ),
    {
        proof {
            use_type_invariant(&self);
        }
        let now = scope.now();
        assert(self.handler() == self.handler && self.sock() == self.sock && self.intent()
            == self.intent);
        let TransportMachine { sock, handler, intent } = self;
        let pass = intent.resumed();
        if events.is_error() {
            let ghost before = sock;
            let (probed, sock) = Self::probe(sock);
            assert(probes::<T, H>(before, probed, sock));
            match probed {
                Err(err) => {
                    let next = handler.error(Error::from(err));
                    match pass.merge(next, now) {
                        Some((merged, h)) => {
                            let res = Self::ready_dispatch(
                                events,
                                intent,
                                merged,
                                true,
                                sock,
                                h,
                                scope,
                            );
                            assert(ready_dispatches::<R, T, H, Self::Seed>(
                                events,
                                intent,
                                intent.resume().fold(next@.interest, next@.timeout, now),
                                true,
                                sock,
                                next@.state->0,
                                now,
                                res,
                            ));
                            res
                        },
                        None => {
                            let res = Self::teardown(sock, scope);
                            assert(tears_down::<R, T, H, Self::Seed>(sock, res));
                            res
                        },
                    }
                },
                Ok(_) => {
                    let res = Self::ready_dispatch(
                        events,
                        intent,
                        pass,
                        false,
                        sock,
                        handler,
                        scope,
                    );
                    assert(ready_dispatches::<R, T, H, Self::Seed>(
                        events,
                        intent,
                        pass,
                        false,
                        sock,
                        handler,
                        now,
                        res,
                    ));
                    res
                },
            }
        } else {
            Self::ready_dispatch(events, intent, pass, false, sock, handler, scope)
        }
    }

    /// Nothing is asked of the handler; the machine stays as it is.
    fn spawned(self, _scope: &mut Scope<R>) -> (res: Response<Self, Self::Seed>)
        ensures
            transport_outcome(self.intent(), old(_scope).now, Seq::empty(), res),
            match self.intent().deadline {
                Some(deadline) => res == Response::<Self, Self::Seed>::Deadline(self, deadline),
                None => res == Response::<Self, Self::Seed>::Normal(self),
            },
    {
        self.response()
    }

    /// Handles the passing of the deadline: the handler's `error` is called
    /// with `Error::Timeout`, and its answer is folded as in any other
    /// callback.
    fn timeout(self, scope: &mut Scope<R>) -> (res: Response<Self, Self::Seed>)
        ensures
            exists|answers: Seq<Answer>| #[trigger]
                transport_outcome(self.intent(), old(scope).now, answers, res) && answers.len()
                    == 1,
            exists|next: Next<H>| #[trigger]
                call_ensures(
                    <H as TransportHandler<T>>::error,
                    (self.handler(), Error::Timeout),
                    next,
                ) && answers_with::<R, T, H, Self::Seed>(
                    self.intent().resume(),
                    self.sock(),
                    next,
                    old(scope).now,
                    res,
                ),
    {
        let now = scope.now();
        let ghost held = self.intent;
        assert(self.handler() == self.handler && self.sock() == self.sock);
        let TransportMachine { sock, handler, intent } = self;
        let next = handler.error(Error::Timeout);
        let ghost answer = Answer { interest: next@.interest, timeout: next@.timeout, now };
        proof {
            lemma_fold_all_push(held.resume(), Seq::empty(), answer);
        }
        let res = Self::answered(intent.resumed(), sock, next, scope);
        assert(transport_outcome(held, now, seq![answer], res));
        res
    }

    /// Handles a wakeup through the notifier: the handler's `wakeup` is
    /// called.
    fn wakeup(self, scope: &mut Scope<R>) -> (res: Response<Self, Self::Seed>)
        ensures
            exists|answers: Seq<Answer>| #[trigger]
                transport_outcome(self.intent(), old(scope).now, answers, res) && answers.len()
                    == 1,
            exists|next: Next<H>| #[trigger]
                call_ensures(<H as TransportHandler<T>>::wakeup, (self.handler(),), next)
                    && answers_with::<R, T, H, Self::Seed>(
                    self.intent().resume(),
                    self.sock(),
                    next,
                    old(scope).now,
                    res,
                ),
    {
        let now = scope.now();
        let ghost held = self.intent;
        assert(self.handler() == self.handler && self.sock() == self.sock);
        let TransportMachine { sock, handler, intent } = self;
        let next = handler.wakeup();
        let ghost answer = Answer { interest: next@.interest, timeout: next@.timeout, now };
        proof {
            lemma_fold_all_push(held.resume(), Seq::empty(), answer);
        }
        assert(call_ensures(<H as TransportHandler<T>>::wakeup, (handler,), next));
        let res = Self::answered(intent.resumed(), sock, next, scope);
        assert(answers_with::<R, T, H, Self::Seed>(held.resume(), sock, next, now, res));
        assert(transport_outcome(held, now, seq![answer], res));
        res
    }
}

//------------ ServerMachine ------------------------------------------------

/// A server machine for a stream transport.
///
/// The machine comes in two flavors. Either it consists of an accept socket
/// and the accept handler, or it wraps a transport machine for a connection
/// that was accepted. The first flavor asks the accept handler about every
/// connection that comes in and, if the handler returns a seed, has the
/// reactor spawn a machine of the second flavor. It stays what it is: a
/// listener never becomes a connection.
pub struct ServerMachine<A: Accept, H: AcceptHandler<A::Output>>(
    ServerInner<A, H, TransportMachine<A::Output, H::Output>>,
);

/// The two flavors of a server machine.
enum ServerInner<A, H, M> {
    /// Accept socket and handler.
    Lsnr(ServerListener<A, H>),
    /// A wrapped transport machine.
    Conn(M),
}

/// All we need for a listening flavor machine.
pub struct ServerListener<A, H> {
    /// The accept socket.
    sock: A,
    /// The accept handler.
    handler: H,
    /// The receiving end of a trigger for shutting down the machine.
    rx: TriggerReceiver,
}

impl<A, H> ServerListener<A, H> {
    /// The accept socket.
    pub closed spec fn sock(self) -> A {
        self.sock
    }

    /// The accept handler.
    pub closed spec fn handler(self) -> H {
        self.handler
    }

    /// The receiving end of the trigger that shuts the listener down.
    pub closed spec fn trigger(self) -> TriggerReceiver {
        self.rx
    }
}

/// The seed of a connection: the socket that was accepted and the seed that
/// the accept handler gave for its transport handler.
pub type ConnSeed<A, H> = (
    <A as Accept>::Output,
    <<H as AcceptHandler<<A as Accept>::Output>>::Output as TransportHandler<
        <A as Accept>::Output,
    >>::Seed,
);

/// The answer of a server machine in terms of the transport machine that it
/// wraps. It is only meant for the answers of a machine of the connection
/// flavor.
pub open spec fn connection_response<A: Accept, H: AcceptHandler<A::Output>, S>(
    res: Response<ServerMachine<A, H>, S>,
) -> Response<TransportMachine<A::Output, H::Output>, S> {
    match res {
        Response::Normal(m) => Response::Normal(m.connection()),
        Response::Deadline(m, at) => Response::Deadline(m.connection(), at),
        Response::Spawn(m, seed) => Response::Spawn(m.connection(), seed),
        Response::Error(err) => Response::Error(err),
        Response::Done => Response::Done,
    }
}

/// Whether the machine that an answer holds, if it holds one, is a machine
/// of the listening flavor with the accept socket `sock`.
pub open spec fn keeps_listening<A: Accept, H: AcceptHandler<A::Output>, S>(
    res: Response<ServerMachine<A, H>, S>,
    sock: A,
) -> bool {
    match res {
        Response::Normal(m) => m.is_listening() && m.accept_sock() == sock,
        Response::Deadline(m, _) => m.is_listening() && m.accept_sock() == sock,
        Response::Spawn(m, _) => m.is_listening() && m.accept_sock() == sock,
        _ => true,
    }
}

/// Whether the machine that an answer holds, if it holds one, is a machine
/// of the connection flavor.
pub open spec fn keeps_connection<A: Accept, H: AcceptHandler<A::Output>, S>(
    res: Response<ServerMachine<A, H>, S>,
) -> bool {
    match res {
        Response::Normal(m) => !m.is_listening(),
        Response::Deadline(m, _) => !m.is_listening(),
        Response::Spawn(m, _) => !m.is_listening(),
        _ => true,
    }
}

/// `later` is the listener `lsnr` after a callback: it has the same accept
/// socket and the same trigger. Its handler may have changed with the
/// connections it was asked about.
pub open spec fn listens_on<A, H>(lsnr: ServerListener<A, H>, later: ServerListener<A, H>)
    -> bool {
    later.sock() == lsnr.sock() && later.trigger() == lsnr.trigger()
}

/// `decision` is what the accept handler in the state `handler` decided on
/// a connection from `addr`, and `left` is the handler as that call left
/// it.
pub open spec fn asks<A: Accept, H: AcceptHandler<A::Output>>(
    handler: H,
    addr: SocketAddr,
    decision: Option<<H::Output as TransportHandler<A::Output>>::Seed>,
    left: H,
) -> bool {
    call_ensures(ServerMachine::<A, H>::ask, (handler, &addr), (decision, left))
}

/// The answer of a listener to one decision of its accept handler on the
/// connection `sock`: with a seed the reactor is asked to spawn a machine
/// for the connection, without one the connection is dropped. The listener
/// goes on either way, with its handler as the decision left it.
pub open spec fn decides<A: Accept, H: AcceptHandler<A::Output>>(
    lsnr: ServerListener<A, H>,
    left: H,
    sock: A::Output,
    decision: Option<<H::Output as TransportHandler<A::Output>>::Seed>,
    res: Response<ServerMachine<A, H>, ConnSeed<A, H>>,
) -> bool {
    match decision {
        Some(seed) => res matches Response::Spawn(m, spawned) && spawned == (sock, seed)
            && m.is_listening() && listens_on(lsnr, m.listener()) && m.listener().handler()
            == left,
        None => res matches Response::Normal(m) && m.is_listening() && listens_on(
            lsnr,
            m.listener(),
        ) && m.listener().handler() == left,
    }
}

/// The answer of a listener to what its accept socket returned: a
/// connection is offered to the accept handler in the state it is in, and
/// the answer follows the handler's decision. Without a pending connection
/// the listener goes on as it is, and so it does after an error.
pub open spec fn offers<A: Accept, H: AcceptHandler<A::Output>>(
    lsnr: ServerListener<A, H>,
    outcome: Result<Option<(A::Output, SocketAddr)>, Error>,
    res: Response<ServerMachine<A, H>, ConnSeed<A, H>>,
) -> bool {
    match outcome {
        Ok(Some((sock, addr))) => exists|
            decision: Option<<H::Output as TransportHandler<A::Output>>::Seed>,
            left: H,
        | #[trigger]
            asks::<A, H>(lsnr.handler(), addr, decision, left) && decides(
                lsnr,
                left,
                sock,
                decision,
                res,
            ),
        _ => res matches Response::Normal(m) && m.is_listening() && m.listener() == lsnr,
    }
}

/// The answer of a listener that accepts: its accept socket is asked for a
/// connection once, and the answer follows what the socket returned.
pub open spec fn accepts<A: Accept, H: AcceptHandler<A::Output>>(
    lsnr: ServerListener<A, H>,
    res: Response<ServerMachine<A, H>, ConnSeed<A, H>>,
) -> bool {
    exists|outcome: Result<Option<(A::Output, SocketAddr)>, Error>| #[trigger]
        call_ensures(<A as Accept>::accept, (&lsnr.sock(),), outcome) && offers(
            lsnr,
            outcome,
            res,
        )
}

/// The answer of a listener that found its shutdown trigger in the state
/// `triggered`: once the trigger is raised the accept socket is taken out
/// of the reactor and the listener has ended, with the reactor's error if
/// it gave one; before that the listener accepts.
pub open spec fn listens<R, A: Accept + Evented<R>, H: AcceptHandler<A::Output>>(
    lsnr: ServerListener<A, H>,
    triggered: bool,
    res: Response<ServerMachine<A, H>, ConnSeed<A, H>>,
) -> bool {
    if triggered {
        exists|out: Result<(), std::io::Error>| #[trigger]
            deregisters::<R, A>(lsnr.sock(), out) && match out {
                Ok(_) => res == Response::<ServerMachine<A, H>, ConnSeed<A, H>>::Done,
                Err(err) => res == Response::<ServerMachine<A, H>, ConnSeed<A, H>>::Error(
                    Error::Io(err),
                ),
            }
    } else {
        accepts(lsnr, res)
    }
}

/// The answer of a listener to a callback: it looks at its shutdown
/// trigger and acts on what it finds.
pub open spec fn listener_answers<R, A: Accept + Evented<R>, H: AcceptHandler<A::Output>>(
    lsnr: ServerListener<A, H>,
    res: Response<ServerMachine<A, H>, ConnSeed<A, H>>,
) -> bool {
    exists|triggered: bool| #[trigger]
        call_ensures(TriggerReceiver::triggered, (&lsnr.trigger(),), triggered) && listens::<
            R,
            A,
            H,
        >(lsnr, triggered, res)
}

//--- A listener over many callbacks

/// The listener that an answer leaves for the next callback, if it leaves
/// one.
pub open spec fn listener_left<A: Accept, H: AcceptHandler<A::Output>>(
    res: Response<ServerMachine<A, H>, ConnSeed<A, H>>,
) -> Option<ServerListener<A, H>> {
    match res {
        Response::Normal(m) => Some(m.listener()),
        Response::Spawn(m, _) => Some(m.listener()),
        _ => None,
    }
}

/// A run of a listener: `answers[k]` is what the listener `lsnrs[k]`
/// answered to a callback, the first listener is `start`, and every
/// listener after it is the one that the answer before left.
pub open spec fn listener_run<R, A: Accept + Evented<R>, H: AcceptHandler<A::Output>>(
    start: ServerListener<A, H>,
    lsnrs: Seq<ServerListener<A, H>>,
    answers: Seq<Response<ServerMachine<A, H>, ConnSeed<A, H>>>,
) -> bool {
    &&& lsnrs.len() == answers.len()
    &&& lsnrs.len() > 0 ==> lsnrs[0] == start
    &&& forall|k: int|
        0 <= k < answers.len() ==> listener_answers::<R, A, H>(#[trigger] lsnrs[k], answers[k])
    &&& forall|k: int|
        0 <= k < answers.len() - 1 ==> listener_left(#[trigger] answers[k]) == Some(
            lsnrs[k + 1],
        )
}

/// What one answer of a listener says. The answer never sets a deadline.
/// An answer that holds a machine holds a listener on the same accept
/// socket and with the same shutdown trigger, however its accept handler
/// decided. An answer that asks to spawn carries the socket that the
/// accept socket returned in this callback, and the seed that the accept
/// handler gave for the address that came with it.
pub proof fn lemma_listener_answer<R, A: Accept + Evented<R>, H: AcceptHandler<A::Output>>(
    lsnr: ServerListener<A, H>,
    res: Response<ServerMachine<A, H>, ConnSeed<A, H>>,
)
    requires
        listener_answers::<R, A, H>(lsnr, res),
    ensures
        !(res is Deadline),
        listener_left(res) matches Some(later) ==> listens_on(lsnr, later),
        res matches Response::Normal(m) ==> m.is_listening(),
        res matches Response::Spawn(m, seed) ==> m.is_listening() && exists|
            addr: SocketAddr,
            left: H,
        | #[trigger]
            asks::<A, H>(lsnr.handler(), addr, Some(seed.1), left) && call_ensures(
                <A as Accept>::accept,
                (&lsnr.sock(),),
                Ok::<Option<(A::Output, SocketAddr)>, Error>(Some((seed.0, addr))),
            ) && m.listener().handler() == left,
{
    if res is Spawn {
        let triggered = choose|triggered: bool| #[trigger]
            call_ensures(TriggerReceiver::triggered, (&lsnr.trigger(),), triggered) && listens::<
                R,
                A,
                H,
            >(lsnr, triggered, res);
        assert(!triggered);
        let outcome = choose|outcome: Result<Option<(A::Output, SocketAddr)>, Error>| #[trigger]
            call_ensures(<A as Accept>::accept, (&lsnr.sock(),), outcome) && offers(
                lsnr,
                outcome,
                res,
            );
        assert(outcome matches Ok(Some(_)));
        let (sock, addr) = outcome->Ok_0->0;
        let (decision, left) = choose|
            decision: Option<<H::Output as TransportHandler<A::Output>>::Seed>,
            left: H,
        | #[trigger]
            asks::<A, H>(lsnr.handler(), addr, decision, left) && decides(
                lsnr,
                left,
                sock,
                decision,
                res,
            );
        assert(decision is Some);
        assert(asks::<A, H>(lsnr.handler(), addr, Some(res->Spawn_1.1), left));
    }
}

/// Over any number of callbacks a listener stays a listener on the accept
/// socket it started with: every listener of a run has the accept socket
/// and the shutdown trigger of the first, and every answer of the run but
/// the last holds a machine of the listening flavor. So the connections
/// that were accepted, and those that were declined, leave the listener
/// able to accept further ones, and each answer that asks to spawn stands
/// for one connection, as [`lemma_listener_answer`] says.
pub proof fn lemma_listener_persists<R, A: Accept + Evented<R>, H: AcceptHandler<A::Output>>(
    start: ServerListener<A, H>,
    lsnrs: Seq<ServerListener<A, H>>,
    answers: Seq<Response<ServerMachine<A, H>, ConnSeed<A, H>>>,
    k: int,
)
    requires
        listener_run::<R, A, H>(start, lsnrs, answers),
        0 <= k < answers.len(),
    ensures
        listens_on(start, lsnrs[k]),
        k < answers.len() - 1 ==> (answers[k] is Normal || answers[k] is Spawn),
        answers[k] matches Response::Normal(m) ==> m.is_listening() && listens_on(
            start,
            m.listener(),
        ),
        answers[k] matches Response::Spawn(m, _) ==> m.is_listening() && listens_on(
            start,
            m.listener(),
        ),
    decreases k,
{
    if k > 0 {
        lemma_listener_persists::<R, A, H>(start, lsnrs, answers, k - 1);
        assert(listener_left(answers[k - 1]) == Some(lsnrs[k]));
    }
    lemma_listener_answer::<R, A, H>(lsnrs[k], answers[k]);
}

/// # Machine Creation
///
impl<A: Accept, H: AcceptHandler<A::Output>> ServerMachine<A, H> {
    /// Creates a new machine.
    ///
    /// More specifically, it creates a machine of the accept flavor using
    /// the provided accept socket and accept handler, and registers the
    /// socket for readability.
    ///
    /// Returns the response for the reactor and the sending end of a
    /// trigger that shuts the machine down and closes the accept socket.
    /// The response is the reactor's error if the reactor refuses the
    /// socket.
    pub fn new<R>(sock: A, handler: H, scope: &mut Scope<R>) -> (res: (
        Response<Self, Void>,
        TriggerSender,
    )) where A: Evented<R>
        ensures
            res.0 is Normal || res.0 is Error,
            keeps_listening(res.0, sock),
            res.1.notifier() == old(scope).notifier,
            exists|out: Result<(), std::io::Error>| #[trigger]
                registers::<R, A>(
                    sock,
                    Events { readable: true, writable: false, error: false },
                    out,
                ) && match out {
                    Ok(_) => res.0 matches Response::Normal(m) && m.is_listening()
                        && m.listener().sock() == sock && m.listener().handler() == handler
                        && m.listener().trigger().flag() == res.1.flag(),
                    Err(err) => res.0 == Response::<Self, Void>::Error(Error::Io(err)),
                },
    {
        let (tx, rx) = crate::sync::trigger(scope.notifier());
        let out = sock.register(&mut scope.reactor, Events::readable());
        assert(registers::<R, A>(
            sock,
            Events { readable: true, writable: false, error: false },
            out,
        ));
        match out {
            Ok(_) => {
                let lsnr = ServerListener { sock, handler, rx };
                (Response::ok(ServerMachine::lsnr(lsnr)), tx)
            },
            Err(err) => (Response::error(Error::from(err)), tx),
        }
    }
}

/// # The steps of a callback
///
impl<A: Accept, H: AcceptHandler<A::Output>> ServerMachine<A, H> {
    /// Whether the machine is of the listening flavor.
    pub closed spec fn is_listening(self) -> bool {
        self.0 is Lsnr
    }

    /// The accept socket of a machine of the listening flavor.
    pub closed spec fn accept_sock(self) -> A {
        self.0->Lsnr_0.sock
    }

    /// The listener of a machine of the listening flavor.
    pub closed spec fn listener(self) -> ServerListener<A, H> {
        self.0->Lsnr_0
    }

    /// The transport machine of a machine of the connection flavor.
    pub closed spec fn connection(self) -> TransportMachine<A::Output, H::Output> {
        self.0->Conn_0
    }

    /// Creates an accept flavor value.
    fn lsnr(lsnr: ServerListener<A, H>) -> (machine: Self)
        ensures
            machine.is_listening() && machine.listener() == lsnr,
    {
        ServerMachine(ServerInner::Lsnr(lsnr))
    }

    /// Creates a connection flavor value.
    fn conn(conn: TransportMachine<A::Output, H::Output>) -> (machine: Self)
        ensures
            !machine.is_listening() && machine.connection() == conn,
    {
        ServerMachine(ServerInner::Conn(conn))
    }

    /// Wraps the answer of a transport machine into the answer of a
    /// machine of the connection flavor.
    pub fn wrap<S>(res: Response<TransportMachine<A::Output, H::Output>, S>) -> (wrapped: Response<
        Self,
        S,
    >)
        ensures
            connection_response(wrapped) == res,
            keeps_connection(wrapped),
    {
        res.map_self(ServerMachine::conn)
    }

    /// Asks the accept handler about a connection from `addr`. Returns its
    /// decision, and the handler as the call left it.
    pub fn ask(handler: H, addr: &SocketAddr) -> (res: (
        Option<<H::Output as TransportHandler<A::Output>>::Seed>,
        H,
    ))
        ensures
            exists|
                h: &mut H,
                decision: Option<<H::Output as TransportHandler<A::Output>>::Seed>,
            | #[trigger]
                call_ensures(<H as AcceptHandler<A::Output>>::accept, (h, addr), decision) && *h
                    == handler && *final(h) == res.1 && decision == res.0,
    {
        let mut handler = handler;
        let decision = handler.accept(addr);
        (decision, handler)
    }

    /// Acts on one decision of the accept handler on a connection: with a
    /// seed the reactor is asked to spawn a machine for the connection,
    /// without one the connection is dropped. The listener goes on either
    /// way.
    pub fn decided(
        lsnr: ServerListener<A, H>,
        sock: A::Output,
        decision: Option<<H::Output as TransportHandler<A::Output>>::Seed>,
    ) -> (res: Response<Self, ConnSeed<A, H>>)
        ensures
            decides(lsnr, lsnr.handler(), sock, decision, res),
            match res {
                Response::Spawn(m, _) => m.listener() == lsnr,
                Response::Normal(m) => m.listener() == lsnr,
                _ => false,
            },
    {
        match decision {
            Some(seed) => Response::spawn(ServerMachine::lsnr(lsnr), (sock, seed)),
            None => Response::ok(ServerMachine::lsnr(lsnr)),
        }
    }

    /// Acts on what one call of the accept socket's `accept` returned. A
    /// connection is offered to the accept handler. Without a pending
    /// connection the listener goes on as it is, and so it does after an
    /// error: a failed accept never ends a listener.
    pub fn accepted(
        lsnr: ServerListener<A, H>,
        outcome: Result<Option<(A::Output, SocketAddr)>, Error>,
    ) -> (res: Response<Self, ConnSeed<A, H>>)
        ensures
            keeps_listening(res, lsnr.sock()),
            res is Normal || res is Spawn,
            offers(lsnr, outcome, res),
    {
        match outcome {
            Ok(Some((sock, addr))) => {
                let ServerListener { sock: accept_sock, handler, rx } = lsnr;
                let (decision, handler) = Self::ask(handler, &addr);
                assert(asks::<A, H>(lsnr.handler(), addr, decision, handler));
                let later = ServerListener { sock: accept_sock, handler, rx };
                let res = Self::decided(later, sock, decision);
                assert(decides(lsnr, handler, sock, decision, res));
                res
            },
            Ok(None) => Response::ok(ServerMachine::lsnr(lsnr)),
            Err(_) => Response::ok(ServerMachine::lsnr(lsnr)),
        }
    }

    /// Accepts a new connection request.
    pub fn accept(lsnr: ServerListener<A, H>) -> (res: Response<Self, ConnSeed<A, H>>)
        ensures
            keeps_listening(res, lsnr.sock()),
            res is Normal || res is Spawn,
            accepts(lsnr, res),
    {
        let outcome = lsnr.sock.accept();
        Self::accepted(lsnr, outcome)
    }

    /// Acts on the state of the shutdown trigger as the listener found it:
    /// once the trigger is raised the listener leaves the reactor and ends,
    /// before that it accepts.
    pub fn listen<R>(lsnr: ServerListener<A, H>, triggered: bool, scope: &mut Scope<R>) -> (res:
        Response<Self, ConnSeed<A, H>>) where A: Evented<R>
        ensures
            keeps_listening(res, lsnr.sock()),
            !(res is Deadline),
            triggered ==> res is Done || res is Error,
            !triggered ==> res is Normal || res is Spawn,
            listens::<R, A, H>(lsnr, triggered, res),
    {
        if triggered {
            let out = lsnr.sock.deregister(&mut scope.reactor);
            assert(deregisters::<R, A>(lsnr.sock(), out));
            match out {
                Ok(_) => Response::done(),
                Err(err) => Response::error(Error::from(err)),
            }
        } else {
            Self::accept(lsnr)
        }
    }

    /// Looks at the shutdown trigger of a listener and acts on what it
    /// finds.
    pub fn listening<R>(lsnr: ServerListener<A, H>, scope: &mut Scope<R>) -> (res: Response<
        Self,
        ConnSeed<A, H>,
    >) where A: Evented<R>
        ensures
            keeps_listening(res, lsnr.sock()),
            !(res is Deadline),
            listener_answers::<R, A, H>(lsnr, res),
    {
        let triggered = lsnr.rx.triggered();
        Self::listen(lsnr, triggered, scope)
    }
}

//--- Machine

impl<R, A, H> Machine<R> for ServerMachine<A, H> where
    A: Accept + Evented<R>,
    A::Output: Evented<R>,
    H: AcceptHandler<A::Output>,
 {
    type Seed = (A::Output, <H::Output as TransportHandler<A::Output>>::Seed);

    /// Creates the machine for a connection that a listener accepted: the
    /// answer is that of the transport machine's `create`, wrapped.
    fn create(seed: Self::Seed, scope: &mut Scope<R>) -> (res: Response<Self, Void>)
        ensures
            keeps_connection(res),
            exists|sc: &mut Scope<R>| #[trigger]
                call_ensures(
                    <TransportMachine<A::Output, H::Output> as Machine<R>>::create,
                    (seed, sc),
                    connection_response(res),
                ) && *sc == *old(scope) && *final(sc) == *final(scope),
    {
        Self::wrap(<TransportMachine<A::Output, H::Output> as Machine<R>>::create(seed, scope))
    }

    /// A listener that finds its shutdown trigger raised leaves the reactor
    /// and ends. Otherwise it accepts one connection: if the accept handler
    /// takes it, the reactor is asked to spawn a machine for it and calls
    /// `spawned` next, where the listener accepts again. A connection hands
    /// the event to its transport machine and wraps the answer.
    fn ready(self, events: Events, scope: &mut Scope<R>) -> (res: Response<Self, Self::Seed>)
        ensures
            self.is_listening() ==> keeps_listening(res, self.accept_sock()) && !(res is Deadline)
                && listener_answers::<R, A, H>(self.listener(), res),
            !self.is_listening() ==> keeps_connection(res) && exists|sc: &mut Scope<R>| #[trigger]
                call_ensures(
                    <TransportMachine<A::Output, H::Output> as Machine<R>>::ready,
                    (self.connection(), events, sc),
                    connection_response(res),
                ) && *sc == *old(scope) && *final(sc) == *final(scope),
    {
        match self.0 {
            ServerInner::Lsnr(lsnr) => Self::listening(lsnr, scope),
            ServerInner::Conn(conn) => Self::wrap(conn.ready(events, scope)),
        }
    }

    /// A listener goes on accepting as in `ready`.
    fn spawned(self, scope: &mut Scope<R>) -> (res: Response<Self, Self::Seed>)
        ensures
            self.is_listening() ==> keeps_listening(res, self.accept_sock()) && !(res is Deadline)
                && listener_answers::<R, A, H>(self.listener(), res),
            !self.is_listening() ==> keeps_connection(res) && exists|sc: &mut Scope<R>| #[trigger]
                call_ensures(
                    <TransportMachine<A::Output, H::Output> as Machine<R>>::spawned,
                    (self.connection(), sc),
                    connection_response(res),
                ) && *sc == *old(scope) && *final(sc) == *final(scope),
    {
        match self.0 {
            ServerInner::Lsnr(lsnr) => Self::listening(lsnr, scope),
            ServerInner::Conn(conn) => Self::wrap(conn.spawned(scope)),
        }
    }

    /// A listener sets no deadline; it stays as it is.
    fn timeout(self, scope: &mut Scope<R>) -> (res: Response<Self, Self::Seed>)
        ensures
            self.is_listening() ==> res == Response::<Self, Self::Seed>::Normal(self),
            !self.is_listening() ==> keeps_connection(res) && exists|sc: &mut Scope<R>| #[trigger]
                call_ensures(
                    <TransportMachine<A::Output, H::Output> as Machine<R>>::timeout,
                    (self.connection(), sc),
                    connection_response(res),
                ) && *sc == *old(scope) && *final(sc) == *final(scope),
    {
        match self.0 {
            ServerInner::Lsnr(lsnr) => Response::ok(ServerMachine::lsnr(lsnr)),
            ServerInner::Conn(conn) => Self::wrap(conn.timeout(scope)),
        }
    }

    /// A listener is woken up when its shutdown trigger is raised. It acts
    /// as in `ready`.
    fn wakeup(self, scope: &mut Scope<R>) -> (res: Response<Self, Self::Seed>)
        ensures
            self.is_listening() ==> keeps_listening(res, self.accept_sock()) && !(res is Deadline)
                && listener_answers::<R, A, H>(self.listener(), res),
            !self.is_listening() ==> keeps_connection(res) && exists|sc: &mut Scope<R>| #[trigger]
                call_ensures(
                    <TransportMachine<A::Output, H::Output> as Machine<R>>::wakeup,
                    (self.connection(), sc),
                    connection_response(res),
                ) && *sc == *old(scope) && *final(sc) == *final(scope),
    {
        match self.0 {
            ServerInner::Lsnr(lsnr) => Self::listening(lsnr, scope),
            ServerInner::Conn(conn) => Self::wrap(conn.wakeup(scope)),
        }
    }
}

} // verus!
