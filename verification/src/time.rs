//! Reactor time.
//!
//! The reactor counts time in whole milliseconds. A timeout is a
//! `std::time::Duration`; the part of it below one millisecond is dropped
//! when it is turned into a deadline.

use std::time::Duration;
use vstd::prelude::*;

verus! {

/// The whole seconds of a duration.
pub uninterp spec fn duration_secs(d: Duration) -> u64;

/// The whole milliseconds of the part of a duration below one second.
pub uninterp spec fn duration_subsec_millis(d: Duration) -> u32;

/// `Duration::as_secs` returns the number of whole seconds that the
/// duration holds.
pub assume_specification[ Duration::as_secs ](d: &Duration) -> (secs: u64)
    ensures
        secs == duration_secs(*d),
;

/// `Duration::subsec_millis` returns the fractional part of the duration in
/// whole milliseconds, which is always below one thousand.
pub assume_specification[ Duration::subsec_millis ](d: &Duration) -> (millis: u32)
    ensures
        millis == duration_subsec_millis(*d),
        millis < 1000,
;

/// The text of a duration as `Duration`'s `Debug` writes it.
pub uninterp spec fn duration_debug(d: Duration) -> Seq<char>;

/// `Duration`'s `Debug` writes the length of the duration in the unit that
/// fits it. The text is a function of the duration alone.
#[verifier::external_body]
pub(crate) fn duration_text(d: &Duration) -> (text: String)
    ensures
        text@ == duration_debug(*d),
{
    format!("{:?}", d)
}

/// The length of a duration in whole milliseconds, rounded down.
pub open spec fn duration_millis(d: Duration) -> nat {
    (duration_secs(d) * 1000 + duration_subsec_millis(d)) as nat
}

/// A point in time, in milliseconds since the reactor's clock started.
#[derive(Clone, Copy, Debug, PartialEq, Eq, Structural)]
pub struct Time {
    pub millis: u64,
}

impl Time {
    /// The time `millis` milliseconds after the reactor's clock started.
    pub fn from_millis(millis: u64) -> (t: Time)
        ensures
            t.millis == millis,
    {
        Time { millis }
    }

    /// The milliseconds since the reactor's clock started.
    pub fn as_millis(&self) -> (millis: u64)
        ensures
            millis == self.millis,
    {
        self.millis
    }

    /// The time `timeout` after `self`, or the last representable time if
    /// that would lie beyond it.
    pub open spec fn after_spec(self, timeout: Duration) -> Time {
        if self.millis + duration_millis(timeout) <= u64::MAX {
            Time { millis: (self.millis + duration_millis(timeout)) as u64 }
        } else {
            Time { millis: u64::MAX }
        }
    }

    /// The earlier of two times.
    pub open spec fn earlier_spec(self, other: Time) -> Time {
        if self.millis <= other.millis {
            self
        } else {
            other
        }
    }

    /// Adds a timeout to a time. The sum saturates at the last
    /// representable time.
    pub fn after(self, timeout: Duration) -> (t: Time)
        ensures
            t == self.after_spec(timeout),
    {
        let secs: u64 = timeout.as_secs();
        let sub: u32 = timeout.subsec_millis();
        let whole: u64 = match secs.checked_mul(1000) {
            Some(ms) => ms,
            None => {
                return Time { millis: u64::MAX };
            },
        };
        let length: u64 = match whole.checked_add(sub as u64) {
            Some(ms) => ms,
            None => {
                return Time { millis: u64::MAX };
            },
        };
        match self.millis.checked_add(length) {
            Some(ms) => Time { millis: ms },
            None => Time { millis: u64::MAX },
        }
    }

    /// Returns the earlier of two times.
    pub fn earlier(self, other: Time) -> (t: Time)
        ensures
            t == self.earlier_spec(other),
    {
        if self.millis <= other.millis {
            self
        } else {
            other
        }
    }
}

} // verus!
