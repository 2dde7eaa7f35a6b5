//! Instants on the UTC time line and the clock that yields them.

use vstd::prelude::*;

verus! {

/// The largest number of whole seconds since the Unix epoch that the clock
/// can report.
pub const MAX_CLOCK_SECONDS: i64 = 8_210_266_876_799;

/// An instant in UTC: whole seconds since the Unix epoch and the nanoseconds
/// past that second. Instants are ordered by `secs`, then by `nanos`.
#[derive(Clone, Copy, Debug, PartialEq, Eq, Structural)]
pub struct Timestamp {
    pub secs: i64,
    pub nanos: u32,
}

impl Timestamp {
    /// `self` lies strictly later than `other`.
    pub open spec fn is_after(self, other: Timestamp) -> bool {
        self.secs > other.secs || (self.secs == other.secs && self.nanos > other.nanos)
    }

    /// The instant `seconds` whole seconds after `self`.
    pub open spec fn shifted(self, seconds: nat) -> Timestamp
        recommends
            self.secs + seconds <= i64::MAX,
    {
        Timestamp { secs: (self.secs + seconds) as i64, nanos: self.nanos }
    }

    /// The instant `nanos` nanoseconds after the second `secs`.
    pub fn new(secs: i64, nanos: u32) -> (t: Timestamp)
        ensures
            t.secs == secs,
            t.nanos == nanos,
    {
        Timestamp { secs, nanos }
    }

    /// Tells whether `self` lies strictly later than `other`.
    pub fn after(&self, other: &Timestamp) -> (r: bool)
        ensures
            r == self.is_after(*other),
    {
        self.secs > other.secs || (self.secs == other.secs && self.nanos > other.nanos)
    }

    /// The instant `seconds` whole seconds later, with the same nanoseconds.
    pub fn plus_seconds(&self, seconds: u32) -> (t: Timestamp)
        requires
            self.secs + seconds <= i64::MAX,
        ensures
            t == self.shifted(seconds as nat),
            t.secs == self.secs + seconds,
            t.nanos == self.nanos,
    {
        Timestamp { secs: self.secs + (seconds as i64), nanos: self.nanos }
    }
}

/// `now` is an instant that the clock can show: not before the Unix epoch,
/// within the range of the clock, and in the middle of no leap second.
pub open spec fn clock_shows(now: Timestamp) -> bool {
    &&& 0 <= now.secs <= MAX_CLOCK_SECONDS
    &&& now.nanos < 1_000_000_000
}

/// Calls `chrono::Utc::now` and takes the instant apart with
/// `DateTime::timestamp` and `DateTime::timestamp_subsec_nanos`.
///
/// Claimed of every outcome: the seconds are not negative (the call fails on
/// a system time before the epoch), they are at most those of the latest
/// `DateTime<Utc>`, and the nanoseconds are those of a duration's sub-second
/// part, so below one thousand million.
#[verifier::external_body]
pub(crate) fn utc_now() -> (now: Timestamp)
    ensures
        clock_shows(now),
{
    let now = chrono::Utc::now();
    Timestamp { secs: now.timestamp(), nanos: now.timestamp_subsec_nanos() }
}

} // verus!
