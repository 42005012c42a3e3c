//! What a handler wants to happen next, and how repeated answers fold into
//! one intent.
//!
//! Within one tick of the reactor a handler may be called several times,
//! and each call answers on its own. The answers, and a deadline that may
//! already be pending, fold into one net [`Intent`], which decides what the
//! socket is registered for next.

use crate::events::Events;
use crate::time::duration_debug;
use crate::time::duration_millis;
use crate::time::duration_text;
use crate::time::Time;
use std::time::Duration;
use vstd::prelude::*;

verus! {

//------------ Interest ------------------------------------------------------

/// What a machine wants the reactor to watch its socket for.
#[derive(Clone, Copy, Debug, PartialEq, Eq, Structural)]
pub enum Interest {
    /// Nothing: the machine waits for a wakeup or a timeout.
    Wait,
    /// Readability.
    Read,
    /// Writability.
    Write,
    /// Readability and writability.
    ReadWrite,
    /// The machine is to be torn down.
    Remove,
}

impl Interest {
    /// Whether the interest asks for readability.
    pub open spec fn reads(self) -> bool {
        self is Read || self is ReadWrite
    }

    /// Whether the interest asks for writability.
    pub open spec fn writes(self) -> bool {
        self is Write || self is ReadWrite
    }

    /// The interest of a live machine in the given directions.
    pub open spec fn watching(read: bool, write: bool) -> Interest {
        if read && write {
            Interest::ReadWrite
        } else if read {
            Interest::Read
        } else if write {
            Interest::Write
        } else {
            Interest::Wait
        }
    }

    /// The join of two interests. `Remove` dominates everything; otherwise
    /// a direction is watched if either side asks for it.
    pub open spec fn join_spec(self, other: Interest) -> Interest {
        if self is Remove || other is Remove {
            Interest::Remove
        } else {
            Interest::watching(self.reads() || other.reads(), self.writes() || other.writes())
        }
    }

    /// Returns the join of two interests.
    #[verifier::when_used_as_spec(join_spec)]
    pub fn join(self, other: Interest) -> (joined: Interest)
        ensures
            joined == self.join_spec(other),
    {
        match (self, other) {
            (Interest::Remove, _) | (_, Interest::Remove) => Interest::Remove,
            (Interest::ReadWrite, _) | (_, Interest::ReadWrite) => Interest::ReadWrite,
            (Interest::Read, Interest::Write) | (Interest::Write, Interest::Read) => {
                Interest::ReadWrite
            },
            (Interest::Read, _) | (_, Interest::Read) => Interest::Read,
            (Interest::Write, _) | (_, Interest::Write) => Interest::Write,
            (Interest::Wait, Interest::Wait) => Interest::Wait,
        }
    }

    /// The events a socket is registered for under this interest.
    pub open spec fn events_spec(self) -> Events {
        Events { readable: self.reads(), writable: self.writes(), error: false }
    }

    /// Returns the events a socket is registered for under this interest.
    #[verifier::when_used_as_spec(events_spec)]
    pub fn events(self) -> (events: Events)
        ensures
            events == self.events_spec(),
    {
        match self {
            Interest::Wait | Interest::Remove => Events::none(),
            Interest::Read => Events::readable(),
            Interest::Write => Events::writable(),
            Interest::ReadWrite => Events::readable().union(Events::writable()),
        }
    }
}

//------------ Next ----------------------------------------------------------

/// What one call of a handler answers: an interest, the handler's next
/// state unless the interest is `Remove`, and an optional timeout relative
/// to the moment of the answer.
#[must_use]
#[derive(Debug)]
pub struct Next<T> {
    interest: Interest,
    state: Option<T>,
    timeout: Option<Duration>,
}

/// What a [`Next`] holds.
pub struct NextView<T> {
    pub interest: Interest,
    pub state: Option<T>,
    pub timeout: Option<Duration>,
}

impl<T> View for Next<T> {
    type V = NextView<T>;

    closed spec fn view(&self) -> NextView<T> {
        NextView { interest: self.interest, state: self.state, timeout: self.timeout }
    }
}

impl<T: Clone> Clone for Next<T> {
    fn clone(&self) -> (next: Next<T>)
        ensures
            next@.interest == self@.interest,
            next@.timeout == self@.timeout,
            next@.state is Some <==> self@.state is Some,
    {
        proof {
            use_type_invariant(self);
        }
        match &self.state {
            Some(t) => Next {
                interest: self.interest,
                state: Some(t.clone()),
                timeout: self.timeout,
            },
            None => Next { interest: self.interest, state: None, timeout: self.timeout },
        }
    }
}

impl<T> Next<T> {
    /// A `Next` carries a state exactly if it does not ask for removal.
    #[verifier::type_invariant]
    spec fn carries_state_unless_removed(self) -> bool {
        self.interest is Remove <==> self.state is None
    }

    fn new(interest: Interest, t: T) -> (next: Next<T>)
        requires
            !(interest is Remove),
        ensures
            next@ == (NextView { interest, state: Some(t), timeout: None }),
    {
        Next { interest, state: Some(t), timeout: None }
    }

    /// Asks to watch for nothing.
    pub fn wait(t: T) -> (next: Next<T>)
        ensures
            next@ == (NextView { interest: Interest::Wait, state: Some(t), timeout: None }),
    {
        Next::new(Interest::Wait, t)
    }

    /// Asks to watch for readability.
    pub fn read(t: T) -> (next: Next<T>)
        ensures
            next@ == (NextView { interest: Interest::Read, state: Some(t), timeout: None }),
    {
        Next::new(Interest::Read, t)
    }

    /// Asks to watch for writability.
    pub fn write(t: T) -> (next: Next<T>)
        ensures
            next@ == (NextView { interest: Interest::Write, state: Some(t), timeout: None }),
    {
        Next::new(Interest::Write, t)
    }

    /// Asks to watch for readability and writability.
    pub fn read_and_write(t: T) -> (next: Next<T>)
        ensures
            next@ == (NextView {
                interest: Interest::ReadWrite,
                state: Some(t),
                timeout: None,
            }),
    {
        Next::new(Interest::ReadWrite, t)
    }

    /// Asks for the machine to be torn down.
    pub fn remove() -> (next: Next<T>)
        ensures
            next@ == (NextView { interest: Interest::Remove, state: None::<T>, timeout: None }),
    {
        Next { interest: Interest::Remove, state: None, timeout: None }
    }

    /// Sets the timeout, replacing one that was set before.
    pub fn timeout(self, duration: Duration) -> (next: Next<T>)
        ensures
            next@ == (NextView { timeout: Some(duration), ..self@ }),
    {
        proof {
            use_type_invariant(&self);
        }
        Next { interest: self.interest, state: self.state, timeout: Some(duration) }
    }

    /// The text of an answer: what it asks for, and its timeout in round
    /// brackets if it has one.
    pub open spec fn text_spec(answer: NextView<T>) -> Seq<char> {
        let asks = match answer.interest {
            Interest::Wait => "Next::Wait"@,
            Interest::Read => "Next::Read"@,
            Interest::Write => "Next::Write"@,
            Interest::ReadWrite => "Next::ReadWrite"@,
            Interest::Remove => "Next::Remove"@,
        };
        match answer.timeout {
            Some(timeout) => ((asks + "("@) + duration_debug(timeout)) + ")"@,
            None => asks,
        }
    }

    /// Returns the text of the answer, as it is to be shown when
    /// debugging.
    pub fn text(&self) -> (text: String)
        ensures
            text@ == Next::<T>::text_spec(self@),
    {
        let asks = match self.interest {
            Interest::Wait => "Next::Wait",
            Interest::Read => "Next::Read",
            Interest::Write => "Next::Write",
            Interest::ReadWrite => "Next::ReadWrite",
            Interest::Remove => "Next::Remove",
        };
        match &self.timeout {
            Some(timeout) => {
                let length = duration_text(timeout);
                asks.to_owned().concat("(").concat(length.as_str()).concat(")")
            },
            None => asks.to_owned(),
        }
    }

    /// Turns the state into another with `op` and keeps interest and
    /// timeout. `op` is not called on an answer that asks for removal.
    pub fn map<U, F>(self, op: F) -> (next: Next<U>) where F: FnOnce(T) -> U
        requires
            self@.state matches Some(t) ==> op.requires((t,)),
        ensures
            next@.interest == self@.interest,
            next@.timeout == self@.timeout,
            match self@.state {
                Some(t) => next@.state matches Some(u) && op.ensures((t,), u),
                None => next@.state is None,
            },
    {
        proof {
            use_type_invariant(&self);
        }
        match self.state {
            Some(t) => Next { interest: self.interest, state: Some(op(t)), timeout: self.timeout },
            None => Next { interest: self.interest, state: None, timeout: self.timeout },
        }
    }
}

//------------ Intent --------------------------------------------------------

/// The accumulated answer of a machine: its net interest and the absolute
/// deadline that is pending, if any.
#[derive(Clone, Copy, Debug)]
pub struct Intent {
    pub interest: Interest,
    pub deadline: Option<Time>,
}

/// The deadline after a fold: a timeout supplied at `now` becomes the
/// absolute time `now + timeout`, and the earlier of that and the existing
/// deadline stays. Without a timeout the existing deadline is unchanged.
pub open spec fn fold_deadline(existing: Option<Time>, timeout: Option<Duration>, now: Time)
    -> Option<Time> {
    match (existing, timeout) {
        (Some(deadline), Some(timeout)) => Some(deadline.earlier_spec(now.after_spec(timeout))),
        (None, Some(timeout)) => Some(now.after_spec(timeout)),
        (existing, None) => existing,
    }
}

impl Intent {
    /// The intent of a machine that has not answered yet.
    pub open spec fn idle() -> Intent {
        Intent { interest: Interest::Wait, deadline: None }
    }

    /// The intent with which a callback starts: the interest is open again
    /// and the deadline that is pending stays.
    pub open spec fn resume(self) -> Intent {
        Intent { interest: Interest::Wait, deadline: self.deadline }
    }

    /// The intent after an answer with the given interest and timeout,
    /// supplied at `now`, is folded into `self`.
    pub open spec fn fold(self, interest: Interest, timeout: Option<Duration>, now: Time)
        -> Intent {
        Intent {
            interest: self.interest.join_spec(interest),
            deadline: fold_deadline(self.deadline, timeout, now),
        }
    }

    fn make(interest: Interest, deadline: Option<Time>) -> (intent: Intent)
        ensures
            intent == (Intent { interest, deadline }),
    {
        Intent { interest, deadline }
    }

    /// Makes the first intent of a machine from the first answer of its
    /// handler, given at `now`. Returns it with the handler's state, or
    /// `None` if the answer asks for removal.
    pub fn new<T>(next: Next<T>, now: Time) -> (res: Option<(Intent, T)>)
        ensures
            res is None <==> next@.interest is Remove,
            res matches Some((intent, t)) ==> {
                &&& intent == Intent::idle().fold(next@.interest, next@.timeout, now)
                &&& next@.state == Some(t)
            },
    {
        proof {
            use_type_invariant(&next);
        }
        let deadline = match next.timeout {
            Some(timeout) => Some(now.after(timeout)),
            None => None,
        };
        match next.state {
            Some(t) => Some((Intent::make(next.interest, deadline), t)),
            None => None,
        }
    }

    /// Folds one more answer of the handler, given at `now`, into the
    /// intent. Returns the new intent with the handler's state, or `None`
    /// if the fold yields `Remove`.
    pub fn merge<T>(self, other: Next<T>, now: Time) -> (res: Option<(Intent, T)>)
        ensures
            res is None <==> self.fold(other@.interest, other@.timeout, now).interest is Remove,
            res matches Some((intent, t)) ==> {
                &&& intent == self.fold(other@.interest, other@.timeout, now)
                &&& other@.state == Some(t)
            },
    {
        proof {
            use_type_invariant(&other);
        }
        let interest = self.interest.join(other.interest);
        let deadline = match (self.deadline, other.timeout) {
            (Some(deadline), Some(timeout)) => Some(deadline.earlier(now.after(timeout))),
            (None, Some(timeout)) => Some(now.after(timeout)),
            (deadline, None) => deadline,
        };
        match (interest, other.state) {
            (Interest::Remove, _) => None,
            (_, None) => None,
            (interest, Some(t)) => Some((Intent::make(interest, deadline), t)),
        }
    }

    /// Returns the intent with which a callback starts.
    pub fn resumed(&self) -> (intent: Intent)
        ensures
            intent == self.resume(),
    {
        Intent::make(Interest::Wait, self.deadline)
    }

    /// Returns the pending deadline.
    pub fn deadline(&self) -> (deadline: Option<Time>)
        ensures
            deadline == self.deadline,
    {
        self.deadline
    }

    /// Returns the events a socket is registered for under this intent.
    pub fn events(&self) -> (events: Events)
        ensures
            events == self.interest.events_spec(),
    {
        self.interest.events()
    }
}

//------------ Laws of the fold ------------------------------------------------

/// One answer of a handler as the fold sees it: the interest, the timeout
/// and the moment at which it was given.
pub struct Answer {
    pub interest: Interest,
    pub timeout: Option<Duration>,
    pub now: Time,
}

impl Intent {
    /// The intent after a sequence of answers is folded into `self`, first
    /// to last.
    pub open spec fn fold_all(self, answers: Seq<Answer>) -> Intent
        decreases answers.len(),
    {
        if answers.len() == 0 {
            self
        } else {
            let last = answers.last();
            self.fold_all(answers.drop_last()).fold(last.interest, last.timeout, last.now)
        }
    }
}

/// The net intent of a machine after one callback in which its handler gave
/// `answers`: without an answer the intent that the machine held stays;
/// otherwise the answers fold into one intent, starting from the deadline
/// that was pending.
pub open spec fn settle(held: Intent, answers: Seq<Answer>) -> Intent {
    if answers.len() == 0 {
        held
    } else {
        held.resume().fold_all(answers)
    }
}

/// Folding one more answer: the fold of a sequence with `answer` at its end
/// is the fold of the sequence with `answer` folded in.
pub proof fn lemma_fold_all_push(intent: Intent, answers: Seq<Answer>, answer: Answer)
    ensures
        intent.fold_all(answers.push(answer)) == intent.fold_all(answers).fold(
            answer.interest,
            answer.timeout,
            answer.now,
        ),
{
    assert(answers.push(answer).drop_last() =~= answers);
}

/// The join is commutative and idempotent, and reading joined with writing,
/// in either order, is reading and writing.
pub proof fn lemma_join_commutative_idempotent(a: Interest, b: Interest)
    ensures
        a.join_spec(b) == b.join_spec(a),
        a.join_spec(a) == a,
        Interest::Read.join_spec(Interest::Write) == Interest::ReadWrite,
        Interest::Write.join_spec(Interest::Read) == Interest::ReadWrite,
{
}

/// The join is associative, `Wait` is its identity and `Remove` dominates
/// every interest.
pub proof fn lemma_join_lattice(a: Interest, b: Interest, c: Interest)
    ensures
        a.join_spec(b).join_spec(c) == a.join_spec(b.join_spec(c)),
        a.join_spec(Interest::Wait) == a,
        a.join_spec(Interest::Remove) == Interest::Remove,
        a.join_spec(Interest::ReadWrite) == if a is Remove {
            Interest::Remove
        } else {
            Interest::ReadWrite
        },
{
}

/// Once a fold has yielded `Remove`, every later fold yields `Remove`,
/// whatever is folded in: if the intent after the first `i` answers is
/// `Remove`, so is the intent after the first `j` answers for every
/// `j >= i`.
pub proof fn lemma_remove_is_absorbing(intent: Intent, answers: Seq<Answer>, i: int, j: int)
    requires
        0 <= i <= j <= answers.len(),
        intent.fold_all(answers.take(i)).interest is Remove,
    ensures
        intent.fold_all(answers.take(j)).interest is Remove,
    decreases j - i,
{
    if i < j {
        lemma_remove_is_absorbing(intent, answers, i, j - 1);
        assert(answers.take(j).drop_last() =~= answers.take(j - 1));
    }
}

/// The deadline after a fold that supplies the timeout `timeout` at `now`
/// into the existing deadline `existing`: the earlier of `existing` and
/// `now + timeout` if both are there, `now + timeout` if only the timeout
/// is, and `existing` unchanged without a timeout. The law is stated for
/// timeouts whose deadline is representable; a later one is cut down to the
/// last representable time.
pub proof fn lemma_deadline_after_fold(existing: Option<Time>, timeout: Option<Duration>, now: Time)
    requires
        timeout matches Some(t) ==> now.millis + duration_millis(t) <= u64::MAX,
    ensures
        match (existing, timeout) {
            (Some(d0), Some(t)) => fold_deadline(existing, timeout, now) matches Some(d) && d.millis
                == if d0.millis <= now.millis + duration_millis(t) {
                d0.millis as int
            } else {
                now.millis + duration_millis(t)
            },
            (None, Some(t)) => fold_deadline(existing, timeout, now) matches Some(d) && d.millis
                == now.millis + duration_millis(t),
            (_, None) => fold_deadline(existing, timeout, now) == existing,
        },
{
}

/// No fold widens a deadline: a deadline that is pending stays pending, and
/// never moves to a later time.
pub proof fn lemma_deadline_never_widens(existing: Time, timeout: Option<Duration>, now: Time)
    ensures
        fold_deadline(Some(existing), timeout, now) matches Some(d) && d.millis <= existing.millis,
{
}

} // verus!
