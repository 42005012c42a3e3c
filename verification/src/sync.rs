//! Synchronization.
//!
//! One thread runs the reactor and all machines. Other threads reach a
//! machine through what this module offers, and through nothing else: a
//! plain channel, a duct (a channel that wakes up the receiving machine,
//! once for a burst of items), a gate (a slot for one value that is handed
//! over once) and a trigger (a flag that is raised once).

use crate::scope::clone_notifier;
use rotor::Notifier;
use rotor::WakeupError;
use std::sync::atomic::AtomicBool;
use std::sync::atomic::Ordering;
use std::sync::Arc;
use std::sync::Mutex;
use std::sync::MutexGuard;
use vstd::prelude::*;

pub use std::sync::mpsc::RecvError;
pub use std::sync::mpsc::SendError;

verus! {

//------------ Outside types -------------------------------------------------

/// `rotor::WakeupError`: why the reactor could not be asked to wake up a
/// machine.
#[verifier::external_type_specification]
#[verifier::external_body]
pub struct ExWakeupError(WakeupError);

/// The sending half of a channel of `std::sync::mpsc`.
#[verifier::external_type_specification]
#[verifier::external_body]
#[verifier::reject_recursive_types(T)]
pub struct ExMpscSender<T>(std::sync::mpsc::Sender<T>);

/// The receiving half of a channel of `std::sync::mpsc`.
#[verifier::external_type_specification]
#[verifier::external_body]
#[verifier::reject_recursive_types(T)]
pub struct ExMpscReceiver<T>(std::sync::mpsc::Receiver<T>);

/// The error of `send` on a channel whose receiver is gone. It holds the
/// value that could not be sent.
#[verifier::external_type_specification]
#[verifier::reject_recursive_types(T)]
pub struct ExSendError<T>(std::sync::mpsc::SendError<T>);

/// The error of `recv` on a channel that is empty and whose senders are all
/// gone.
#[verifier::external_type_specification]
pub struct ExRecvError(std::sync::mpsc::RecvError);

/// The error of `try_recv`: the channel is empty, or it is empty and its
/// senders are all gone.
#[verifier::external_type_specification]
pub struct ExTryRecvError(std::sync::mpsc::TryRecvError);

/// `std::sync::Mutex`.
#[verifier::external_type_specification]
#[verifier::external_body]
#[verifier::reject_recursive_types(T)]
pub struct ExMutex<T: ?Sized>(Mutex<T>);

/// The guard of a locked `std::sync::Mutex`.
#[verifier::external_type_specification]
#[verifier::external_body]
#[verifier::reject_recursive_types(T)]
pub struct ExMutexGuard<'a, T: ?Sized + 'a>(MutexGuard<'a, T>);

/// The blocking iterator over the items of a channel of `std::sync::mpsc`.
#[verifier::external_type_specification]
#[verifier::external_body]
#[verifier::reject_recursive_types(T)]
pub struct ExMpscIter<'a, T: 'a>(std::sync::mpsc::Iter<'a, T>);

//------------ Outside functions ----------------------------------------------

/// `std::sync::mpsc::channel` makes a new channel and returns its two
/// halves.
pub assume_specification<T>[ std::sync::mpsc::channel::<T> ]() -> (
    std::sync::mpsc::Sender<T>,
    std::sync::mpsc::Receiver<T>,
);

/// `Sender::send` never blocks. It fails only if the receiver is gone, and
/// the error then holds the value that was to be sent.
pub assume_specification<T>[ std::sync::mpsc::Sender::<T>::send ](
    tx: &std::sync::mpsc::Sender<T>,
    t: T,
) -> (res: Result<(), std::sync::mpsc::SendError<T>>)
    ensures
        res matches Err(e) ==> e.0 == t,
;

/// `Receiver::recv` waits for an item. It fails once the channel is empty
/// and all senders are gone.
pub assume_specification<T>[ std::sync::mpsc::Receiver::<T>::recv ](
    rx: &std::sync::mpsc::Receiver<T>,
) -> Result<T, std::sync::mpsc::RecvError>;

/// `Receiver::try_recv` returns an item that is pending, without blocking.
pub assume_specification<T>[ std::sync::mpsc::Receiver::<T>::try_recv ](
    rx: &std::sync::mpsc::Receiver<T>,
) -> Result<T, std::sync::mpsc::TryRecvError>;

/// `Receiver::iter` returns an iterator that waits for items until all
/// senders are gone.
pub assume_specification<'a, T>[ std::sync::mpsc::Receiver::<T>::iter ](
    rx: &'a std::sync::mpsc::Receiver<T>,
) -> std::sync::mpsc::Iter<'a, T>;

/// `Sender::clone` gives one more sending half of the same channel: the copy
/// sends into the channel that `tx` sends into, and stands for the same
/// value here.
#[verifier::external_body]
fn clone_sender<T>(tx: &std::sync::mpsc::Sender<T>) -> (copy: std::sync::mpsc::Sender<T>)
    ensures
        copy == *tx,
{
    tx.clone()
}

/// `Arc::clone` gives one more pointer to the same allocation: what the new
/// handle points to is what `handle` points to.
#[verifier::external_body]
fn share<T>(handle: &Arc<T>) -> (shared: Arc<T>)
    ensures
        shared == *handle,
{
    handle.clone()
}

/// `Notifier::wakeup` asks the reactor to call `wakeup` on the machine of
/// the notifier. It fails if the reactor's queue of notifications is full
/// or closed, which depends on the reactor alone.
#[verifier::external_body]
fn wakeup(notifier: &Notifier) -> Result<(), WakeupError> {
    notifier.wakeup()
}

/// `Mutex::new` makes an unlocked mutex that holds `value`.
pub assume_specification<T>[ Mutex::<T>::new ](value: T) -> Mutex<T>;

/// `Mutex::lock` waits for the lock and returns its guard. It fails if a
/// thread panicked while it held the lock.
#[verifier::external_body]
fn lock_slot<'a, T>(slot: &'a Arc<Mutex<Option<T>>>) -> Result<MutexGuard<'a, Option<T>>, ()> {
    match slot.lock() {
        Ok(guard) => Ok(guard),
        Err(_) => Err(()),
    }
}

/// `std::mem::replace` on what a guard gives access to: puts `value` into
/// the slot and returns what the slot held.
#[verifier::external_body]
fn replace_slot<T>(guard: &mut MutexGuard<'_, Option<T>>, value: Option<T>) -> Option<T> {
    std::mem::replace(&mut **guard, value)
}

//------------ Channel -------------------------------------------------------

/// `out` is what the channel answered when `value` was sent into it
/// through `tx`.
pub open spec fn queued<T>(
    tx: std::sync::mpsc::Sender<T>,
    value: T,
    out: Result<(), std::sync::mpsc::SendError<T>>,
) -> bool {
    call_ensures(std::sync::mpsc::Sender::<T>::send, (&tx, value), out)
}

/// `out` is what the channel gave when `rx` looked for an item without
/// waiting.
pub open spec fn took<T>(
    rx: std::sync::mpsc::Receiver<T>,
    out: Result<T, std::sync::mpsc::TryRecvError>,
) -> bool {
    call_ensures(std::sync::mpsc::Receiver::<T>::try_recv, (&rx,), out)
}

/// Makes a plain channel: what is sent into it comes out in the order in
/// which it was sent. A send wakes up nobody. The two halves are those
/// that `std::sync::mpsc::channel` made.
pub fn channel<T>() -> (res: (Sender<T>, Receiver<T>))
    ensures
        call_ensures(std::sync::mpsc::channel::<T>, (), (res.0.channel(), res.1.channel())),
{
    let (tx, rx) = std::sync::mpsc::channel();
    (Sender(tx), Receiver(rx))
}

/// The sending half of a channel.
#[derive(Debug)]
#[verifier::reject_recursive_types(T)]
pub struct Sender<T>(std::sync::mpsc::Sender<T>);

impl<T> Sender<T> {
    /// The sending half of the channel of the standard library.
    pub closed spec fn channel(self) -> std::sync::mpsc::Sender<T> {
        self.0
    }

    /// Sends a value. Fails if the receiver is gone and then hands the
    /// value back. The result is what the channel answered.
    pub fn send(&self, t: T) -> (res: Result<(), SendError<T>>)
        ensures
            res matches Err(e) ==> e.0 == t,
            queued(self.channel(), t, res),
    {
        self.0.send(t)
    }
}

impl<T> Clone for Sender<T> {
    /// The copy sends into the same channel.
    fn clone(&self) -> (copy: Self)
        ensures
            copy.channel() == self.channel(),
    {
        Sender(clone_sender(&self.0))
    }
}

/// The receiving half of a channel.
#[derive(Debug)]
#[verifier::reject_recursive_types(T)]
pub struct Receiver<T>(std::sync::mpsc::Receiver<T>);

/// What a receiver makes of one attempt to take an item without waiting:
/// an item is handed on, an empty channel gives `None`, and a channel
/// without senders is an error.
pub open spec fn received_spec<T>(outcome: Result<T, std::sync::mpsc::TryRecvError>) -> Result<
    Option<T>,
    RecvError,
> {
    match outcome {
        Ok(t) => Ok(Some(t)),
        Err(std::sync::mpsc::TryRecvError::Empty) => Ok(None),
        Err(std::sync::mpsc::TryRecvError::Disconnected) => Err(RecvError),
    }
}

/// Returns what a receiver makes of one attempt to take an item without
/// waiting.
pub fn received<T>(outcome: Result<T, std::sync::mpsc::TryRecvError>) -> (res: Result<Option<T>, RecvError>)
    ensures
        res == received_spec(outcome),
{
    match outcome {
        Ok(t) => Ok(Some(t)),
        Err(std::sync::mpsc::TryRecvError::Empty) => Ok(None),
        Err(std::sync::mpsc::TryRecvError::Disconnected) => Err(RecvError),
    }
}

impl<T> Receiver<T> {
    /// The receiving half of the channel of the standard library.
    pub closed spec fn channel(self) -> std::sync::mpsc::Receiver<T> {
        self.0
    }

    /// Waits for a value. Fails once the channel is empty and all senders
    /// are gone. The result is what the channel gave.
    pub fn recv(&self) -> (res: Result<T, RecvError>)
        ensures
            call_ensures(std::sync::mpsc::Receiver::<T>::recv, (&self.channel(),), res),
    {
        self.0.recv()
    }

    /// Takes a value if one is pending. Fails once the channel is empty
    /// and all senders are gone. The result follows what the channel gave.
    pub fn try_recv(&self) -> (res: Result<Option<T>, RecvError>)
        ensures
            exists|outcome: Result<T, std::sync::mpsc::TryRecvError>| #[trigger]
                took(self.channel(), outcome) && res == received_spec(outcome),
    {
        let outcome = self.0.try_recv();
        assert(took(self.channel(), outcome));
        received(outcome)
    }

    /// An iterator that waits for values until all senders are gone: the
    /// iterator of the channel of the standard library.
    pub fn iter(&self) -> (res: std::sync::mpsc::Iter<'_, T>)
        ensures
            call_ensures(std::sync::mpsc::Receiver::<T>::iter, (&self.channel(),), res),
    {
        self.0.iter()
    }
}

//------------ The flag of a duct or a trigger ----------------------------------

/// The flag that the two ends of a duct or of a trigger share, as the
/// operations on it find and leave it one after the other, with the number
/// of wakeups that were fired so far.
pub struct Signal {
    pub raised: bool,
    pub wakeups: nat,
}

impl Signal {
    /// Whether the sender that raised the flag and found it in the state
    /// `found` fires a wakeup: only the one that found it clear does.
    pub open spec fn fires(found: bool) -> bool {
        !found
    }

    /// The flag before anything was sent.
    pub open spec fn clear() -> Signal {
        Signal { raised: false, wakeups: 0 }
    }

    /// A sender raises the flag, and fires a wakeup if it found it clear.
    pub open spec fn raise(self) -> Signal {
        Signal {
            raised: true,
            wakeups: if Signal::fires(self.raised) {
                self.wakeups + 1
            } else {
                self.wakeups
            },
        }
    }

    /// The receiver of a duct clears the flag before it looks for an item.
    pub open spec fn lower(self) -> Signal {
        Signal { raised: false, wakeups: self.wakeups }
    }

    /// The flag after `n` senders have raised it one after the other.
    pub open spec fn raise_times(self, n: nat) -> Signal
        decreases n,
    {
        if n == 0 {
            self
        } else {
            self.raise_times((n - 1) as nat).raise()
        }
    }
}

/// `out` is what `Notifier::wakeup` returned when the reactor was asked to
/// wake up the machine of `notifier`.
pub closed spec fn woke(notifier: Notifier, out: Result<(), WakeupError>) -> bool {
    call_ensures(wakeup, (&notifier,), out)
}

/// `found` is the state in which a sender found `flag` when it raised it.
pub open spec fn raised(flag: Arc<AtomicBool>, found: bool) -> bool {
    call_ensures(AtomicBool::swap, (&*flag, true, Ordering::SeqCst), found)
}

/// The receiver cleared `flag`.
pub open spec fn lowered(flag: Arc<AtomicBool>) -> bool {
    call_ensures(AtomicBool::store, (&*flag, false, Ordering::Relaxed), ())
}

/// `found` is the state in which the receiver found `flag` when it looked
/// at it.
pub open spec fn looked(flag: Arc<AtomicBool>, found: bool) -> bool {
    call_ensures(AtomicBool::load, (&*flag, Ordering::Relaxed), found)
}

/// What a sender that raised the flag and found it in the state `found`
/// returns: if it found the flag clear, it asks the reactor to wake up the
/// machine of `notifier` and returns what the reactor answers; if it found
/// the flag raised, it leaves the reactor alone and succeeds.
pub open spec fn signals(found: bool, notifier: Notifier, res: Result<(), WakeupError>) -> bool {
    if Signal::fires(found) {
        woke(notifier, res)
    } else {
        res == Ok::<(), WakeupError>(())
    }
}

/// Wakes up the reactor for a sender that has just raised the flag and
/// found it in the state `found`. A sender that found the flag raised
/// leaves the reactor alone: a wakeup is on its way.
pub fn signal(found: bool, notifier: &Notifier) -> (res: Result<(), WakeupError>)
    ensures
        signals(found, *notifier, res),
{
    if !found {
        wakeup(notifier)
    } else {
        Ok(())
    }
}

/// From a clear flag, any number of sends before the receiver looks fire
/// one wakeup between them and leave the flag raised.
pub proof fn lemma_burst_wakes_once(n: nat)
    requires
        n >= 1,
    ensures
        Signal::clear().raise_times(n) == (Signal { raised: true, wakeups: 1 }),
    decreases n,
{
    if n > 1 {
        lemma_burst_wakes_once((n - 1) as nat);
    }
    assert(Signal::clear().raise_times(0) == Signal::clear());
}

/// The receiver's look at the duct, whether it finds an item or not, clears
/// the flag, so that the next send fires one more wakeup, and the sends
/// after that one none.
pub proof fn lemma_drain_rearms(before: Signal, n: nat)
    requires
        n >= 1,
    ensures
        before.lower().raise_times(n) == (Signal { raised: true, wakeups: before.wakeups + 1 }),
    decreases n,
{
    if n > 1 {
        lemma_drain_rearms(before, (n - 1) as nat);
    }
    assert(before.lower().raise_times(0) == before.lower());
}

//------------ Duct ----------------------------------------------------------

/// Makes a duct: a channel whose sends wake up the machine of `notifier`.
/// A burst of sends wakes the machine up once: the wakeup is fired by the
/// send that finds the flag of the duct clear, and the receiver clears the
/// flag whenever it looks for an item.
pub fn duct<T>(notifier: Notifier) -> (res: (DuctSender<T>, DuctReceiver<T>))
    ensures
        res.0.notifier() == notifier,
        res.0.flag() == res.1.flag(),
        call_ensures(std::sync::mpsc::channel::<T>, (), (res.0.channel(), res.1.channel())),
{
    let awake = Arc::new(AtomicBool::new(false));
    let (tx, rx) = std::sync::mpsc::channel();
    (DuctSender { awake: share(&awake), notifier, tx }, DuctReceiver { awake, rx })
}

/// The sending half of a duct. It can be cloned at will.
#[verifier::reject_recursive_types(T)]
pub struct DuctSender<T> {
    awake: Arc<AtomicBool>,
    notifier: Notifier,
    tx: std::sync::mpsc::Sender<T>,
}

impl<T> DuctSender<T> {
    /// The notifier of the machine that a send wakes up.
    pub closed spec fn notifier(self) -> Notifier {
        self.notifier
    }

    /// The flag that the sender shares with its copies and with the
    /// receiver.
    pub closed spec fn flag(self) -> Arc<AtomicBool> {
        self.awake
    }

    /// The sending half of the channel of the duct.
    pub closed spec fn channel(self) -> std::sync::mpsc::Sender<T> {
        self.tx
    }
}

/// What a send into a duct returns once the value is in the channel, given
/// what the wakeup came to.
pub open spec fn sent<T>(woken: Result<(), WakeupError>) -> Result<(), DuctSendError<T>> {
    match woken {
        Ok(_) => Ok(()),
        Err(_) => Err(DuctSendError::WakeupError),
    }
}

/// What `send` on a duct returns. The value goes into the channel first;
/// if the channel refuses it, it comes back with the error and nothing
/// else happens. Otherwise the sender raises the flag, and wakes up the
/// reactor exactly if it found the flag clear.
pub open spec fn sends<T>(sender: DuctSender<T>, value: T, res: Result<(), DuctSendError<T>>)
    -> bool {
    exists|put: Result<(), std::sync::mpsc::SendError<T>>| #[trigger]
        queued(sender.channel(), value, put) && match put {
            Err(err) => res == Err::<(), DuctSendError<T>>(DuctSendError::SendError(err.0)),
            Ok(_) => exists|found: bool, woken: Result<(), WakeupError>| #[trigger]
                signals(found, sender.notifier(), woken) && raised(sender.flag(), found) && res
                    == sent::<T>(woken),
        }
}

impl<T: Send> DuctSender<T> {
    /// Sends a value and wakes up the receiving machine unless a wakeup is
    /// on its way. Fails if the receiver is gone, and then hands the value
    /// back, or if the reactor cannot be woken up.
    pub fn send(&self, value: T) -> (res: Result<(), DuctSendError<T>>)
        ensures
            res matches Err(DuctSendError::SendError(v)) ==> v == value,
            sends(*self, value, res),
    {
        let put = self.tx.send(value);
        assert(queued(self.channel(), value, put));
        match put {
            Ok(_) => {},
            Err(err) => {
                return Err(DuctSendError::from(err));
            },
        }
        let found = self.awake.swap(true, Ordering::SeqCst);
        assert(raised(self.flag(), found));
        let woken = signal(found, &self.notifier);
        assert(signals(found, self.notifier(), woken));
        match woken {
            Ok(_) => Ok(()),
            Err(err) => Err(DuctSendError::from(err)),
        }
    }
}

impl<T> Clone for DuctSender<T> {
    /// The copy shares the flag, the notifier and the channel of the
    /// sender it was made of.
    fn clone(&self) -> (copy: Self)
        ensures
            copy.flag() == self.flag(),
            copy.notifier() == self.notifier(),
            copy.channel() == self.channel(),
    {
        DuctSender {
            awake: share(&self.awake),
            notifier: clone_notifier(&self.notifier),
            tx: clone_sender(&self.tx),
        }
    }
}

/// The receiving half of a duct.
#[verifier::reject_recursive_types(T)]
pub struct DuctReceiver<T> {
    awake: Arc<AtomicBool>,
    rx: std::sync::mpsc::Receiver<T>,
}

impl<T> DuctReceiver<T> {
    /// The flag that the receiver shares with the senders.
    pub closed spec fn flag(self) -> Arc<AtomicBool> {
        self.awake
    }

    /// The receiving half of the channel of the duct.
    pub closed spec fn channel(self) -> std::sync::mpsc::Receiver<T> {
        self.rx
    }
}

impl<T: Send> DuctReceiver<T> {
    /// Clears the flag of the duct, then takes a value if one is pending.
    /// Fails once the duct is empty and all senders are gone.
    pub fn try_recv(&self) -> (res: Result<Option<T>, RecvError>)
        ensures
            lowered(self.flag()),
            exists|outcome: Result<T, std::sync::mpsc::TryRecvError>| #[trigger]
                took(self.channel(), outcome) && res == received_spec(outcome),
    {
        self.awake.store(false, Ordering::Relaxed);
        let outcome = self.rx.try_recv();
        assert(took(self.channel(), outcome));
        received(outcome)
    }
}

//------------ DuctSendError -------------------------------------------------

/// Why a value could not be sent into a duct.
#[derive(Debug)]
pub enum DuctSendError<T> {
    /// The receiver is gone. The value comes back.
    SendError(T),
    /// The value is in the duct, but the reactor could not be woken up.
    WakeupError,
}

impl<T> From<SendError<T>> for DuctSendError<T> {
    fn from(e: SendError<T>) -> (err: DuctSendError<T>) {
        DuctSendError::SendError(e.0)
    }
}

impl<T> vstd::std_specs::convert::FromSpecImpl<SendError<T>> for DuctSendError<T> {
    open spec fn obeys_from_spec() -> bool {
        true
    }

    open spec fn from_spec(e: SendError<T>) -> DuctSendError<T> {
        DuctSendError::SendError(e.0)
    }
}

impl<T> From<WakeupError> for DuctSendError<T> {
    fn from(_e: WakeupError) -> (err: DuctSendError<T>) {
        DuctSendError::WakeupError
    }
}

impl<T> vstd::std_specs::convert::FromSpecImpl<WakeupError> for DuctSendError<T> {
    open spec fn obeys_from_spec() -> bool {
        true
    }

    open spec fn from_spec(_e: WakeupError) -> DuctSendError<T> {
        DuctSendError::WakeupError
    }
}

//------------ Gate ----------------------------------------------------------

/// The slot of a gate, as the operations on it find and leave it one after
/// the other.
pub struct Slot<T> {
    pub value: Option<T>,
}

impl<T> Slot<T> {
    /// The slot of a new gate.
    pub open spec fn empty() -> Slot<T> {
        Slot { value: None }
    }

    /// The sender puts its value into the slot.
    pub open spec fn put(self, value: T) -> Slot<T> {
        Slot { value: Some(value) }
    }

    /// What the receiver gets when it looks into the slot.
    pub open spec fn yields(self) -> Option<T> {
        self.value
    }

    /// The slot after the receiver has looked into it.
    pub open spec fn taken(self) -> Slot<T> {
        Slot { value: None }
    }
}

/// A look into the slot before the send finds nothing. The look after the
/// send yields the value that was sent, and every look after that one finds
/// nothing again: the value is handed over once.
pub proof fn lemma_gate_hands_over_once<T>(value: T)
    ensures
        Slot::<T>::empty().yields() is None,
        Slot::<T>::empty().taken().put(value).yields() == Some(value),
        Slot::<T>::empty().put(value).yields() == Some(value),
        Slot::<T>::empty().put(value).taken().yields() is None,
        Slot::<T>::empty().put(value).taken().taken().yields() is None,
{
}

/// `found` is what the slot held when `value` was put into it under its
/// lock, or nothing at all if the lock of the slot is poisoned.
pub closed spec fn swapped<T>(
    slot: Arc<Mutex<Option<T>>>,
    value: Option<T>,
    found: Option<Option<T>>,
) -> bool {
    exists|locked: Result<MutexGuard<'_, Option<T>>, ()>| #[trigger]
        call_ensures(lock_slot::<T>, (&slot,), locked) && match locked {
            Err(_) => found is None,
            Ok(guard) => exists|g: &mut MutexGuard<'_, Option<T>>, held: Option<T>| #[trigger]
                call_ensures(replace_slot::<T>, (g, value), held) && *g == guard && found
                    == Some(held),
        }
}

/// What `send` on a gate returns. The value goes into the slot under the
/// lock, and the reactor is asked to wake up the machine of the sender's
/// notifier. If the lock is poisoned, the value comes back and the reactor
/// is left alone.
pub open spec fn hands_over<T>(sender: GateSender<T>, value: T, res: Result<(), GateSendError<T>>)
    -> bool {
    exists|found: Option<Option<T>>| #[trigger]
        swapped(sender.slot(), Slot::<T>::empty().put(value).yields(), found) && match found {
            None => res == Err::<(), GateSendError<T>>(GateSendError::Poisoned(value)),
            Some(_) => exists|woken: Result<(), WakeupError>| #[trigger]
                woke(sender.notifier(), woken) && match woken {
                    Ok(_) => res == Ok::<(), GateSendError<T>>(()),
                    Err(_) => res == Err::<(), GateSendError<T>>(GateSendError::WakeupError),
                },
        }
}

/// What `try_get` on a gate returns: what the slot held when it was
/// emptied under its lock, or an error if the lock is poisoned.
pub open spec fn takes_over<T>(
    receiver: GateReceiver<T>,
    res: Result<Option<T>, GateRecvError>,
) -> bool {
    exists|found: Option<Option<T>>| #[trigger]
        swapped(receiver.slot(), Slot::<T>::empty().yields(), found) && match found {
            None => res is Err,
            Some(held) => res == Ok::<Option<T>, GateRecvError>((Slot { value: held }).yields()),
        }
}

/// Makes a gate: a slot for one value that wakes up the machine of
/// `notifier` when the value arrives.
pub fn gate<T>(notifier: Notifier) -> (res: (GateSender<T>, GateReceiver<T>))
    ensures
        res.0.notifier() == notifier,
        res.0.slot() == res.1.slot(),
{
    let item = Arc::new(Mutex::new(None));
    (GateSender { item: share(&item), notifier }, GateReceiver(item))
}

/// The sending half of a gate. Sending uses it up.
#[verifier::reject_recursive_types(T)]
pub struct GateSender<T> {
    item: Arc<Mutex<Option<T>>>,
    notifier: Notifier,
}

impl<T> GateSender<T> {
    /// The notifier of the machine that the send wakes up.
    pub closed spec fn notifier(self) -> Notifier {
        self.notifier
    }

    /// The slot that the sender shares with the receiver.
    pub closed spec fn slot(self) -> Arc<Mutex<Option<T>>> {
        self.item
    }
}

impl<T: Send> GateSender<T> {
    /// Puts the value into the slot and wakes up the receiving machine.
    /// Fails if the lock of the slot is poisoned, and then hands the value
    /// back, or if the reactor cannot be woken up.
    pub fn send(self, value: T) -> (res: Result<(), GateSendError<T>>)
        ensures
            res matches Err(GateSendError::Poisoned(v)) ==> v == value,
            hands_over(self, value, res),
    {
        match lock_slot(&self.item) {
            Ok(guard) => {
                let mut guard = guard;
                let held = replace_slot(&mut guard, Some(value));
                assert(swapped(self.slot(), Some(value), Some(held)));
                let woken = wakeup(&self.notifier);
                assert(woke(self.notifier(), woken));
                match woken {
                    Ok(_) => Ok(()),
                    Err(err) => Err(GateSendError::from(err)),
                }
            },
            Err(_) => {
                assert(swapped(self.slot(), Some(value), None));
                Err(GateSendError::Poisoned(value))
            },
        }
    }
}

/// Why a value could not be sent through a gate.
pub enum GateSendError<T> {
    /// The lock of the slot is poisoned. The value comes back.
    Poisoned(T),
    /// The value is in the slot, but the reactor could not be woken up.
    WakeupError,
}

impl<T> From<WakeupError> for GateSendError<T> {
    fn from(_e: WakeupError) -> (err: GateSendError<T>) {
        GateSendError::WakeupError
    }
}

impl<T> vstd::std_specs::convert::FromSpecImpl<WakeupError> for GateSendError<T> {
    open spec fn obeys_from_spec() -> bool {
        true
    }

    open spec fn from_spec(_e: WakeupError) -> GateSendError<T> {
        GateSendError::WakeupError
    }
}

/// The receiving half of a gate.
#[verifier::reject_recursive_types(T)]
pub struct GateReceiver<T>(Arc<Mutex<Option<T>>>);

impl<T> GateReceiver<T> {
    /// The slot that the receiver shares with the sender.
    pub closed spec fn slot(self) -> Arc<Mutex<Option<T>>> {
        self.0
    }
}

impl<T: Send> GateReceiver<T> {
    /// Takes the value out of the slot if it has arrived. A value is
    /// yielded once: the slot is empty afterwards. Fails if the lock of the
    /// slot is poisoned.
    pub fn try_get(&self) -> (res: Result<Option<T>, GateRecvError>)
        ensures
            takes_over(*self, res),
    {
        match lock_slot(&self.0) {
            Ok(guard) => {
                let mut guard = guard;
                let held = replace_slot(&mut guard, None);
                assert(swapped(self.slot(), None, Some(held)));
                Ok(held)
            },
            Err(_) => {
                assert(swapped(self.slot(), None, None));
                Err(GateRecvError)
            },
        }
    }
}

/// The lock of the slot of a gate is poisoned.
pub struct GateRecvError;

//------------ Trigger ------------------------------------------------------

/// Makes a trigger: a flag that can be raised from any thread and wakes up
/// the machine of `notifier` when it is raised first.
pub fn trigger(notifier: Notifier) -> (res: (TriggerSender, TriggerReceiver))
    ensures
        res.0.notifier() == notifier,
        res.0.flag() == res.1.flag(),
{
    let flag = Arc::new(AtomicBool::new(false));
    (TriggerSender { flag: share(&flag), notifier }, TriggerReceiver(flag))
}

/// The sending half of a trigger. It can be cloned at will.
pub struct TriggerSender {
    flag: Arc<AtomicBool>,
    notifier: Notifier,
}

impl TriggerSender {
    /// The notifier of the machine that the first call of `trigger` wakes
    /// up.
    pub closed spec fn notifier(self) -> Notifier {
        self.notifier
    }

    /// The flag that the sender shares with its copies and with the
    /// receiver.
    pub closed spec fn flag(self) -> Arc<AtomicBool> {
        self.flag
    }

    /// Raises the flag. The call that finds it clear wakes up the
    /// receiving machine; every other call changes nothing and succeeds.
    pub fn trigger(&self) -> (res: Result<(), WakeupError>)
        ensures
            exists|found: bool| #[trigger]
                raised(self.flag(), found) && signals(found, self.notifier(), res),
    {
        let found = self.flag.swap(true, Ordering::SeqCst);
        assert(raised(self.flag(), found));
        signal(found, &self.notifier)
    }
}

impl Clone for TriggerSender {
    /// The copy shares the flag and the notifier of the sender it was made
    /// of.
    fn clone(&self) -> (copy: Self)
        ensures
            copy.flag() == self.flag(),
            copy.notifier() == self.notifier(),
    {
        TriggerSender { flag: share(&self.flag), notifier: clone_notifier(&self.notifier) }
    }
}

/// The receiving half of a trigger.
pub struct TriggerReceiver(Arc<AtomicBool>);

impl TriggerReceiver {
    /// The flag that the receiver shares with the senders.
    pub closed spec fn flag(self) -> Arc<AtomicBool> {
        self.0
    }

    /// Whether the flag has been raised.
    pub fn triggered(&self) -> (found: bool)
        ensures
            looked(self.flag(), found),
    {
        self.0.load(Ordering::Relaxed)
    }
}

/// Any number of calls of `trigger`, one at least, leave the flag raised
/// and fire one wakeup between them: the first call fires it.
pub proof fn lemma_trigger_fires_once(k: nat)
    requires
        k >= 1,
    ensures
        Signal::clear().raise_times(k).raised,
        Signal::clear().raise_times(k).wakeups == 1,
        Signal::clear().raise().wakeups == 1,
{
    lemma_burst_wakes_once(k);
}

} // verus!
