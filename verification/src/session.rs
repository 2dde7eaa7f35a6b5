//! Sessions as they are issued, and as the cache remembers them.

use crate::time::{clock_shows, utc_now, Timestamp};
use vstd::prelude::*;

verus! {

/// A login session: its identifier, rendered as a hyphenated UUID, and the
/// instant at which it ends.
#[derive(Debug)]
pub struct Session {
    pub session_id: String,
    pub expires: Timestamp,
}

/// What the cache remembers of one session identifier.
///
/// `invalid` is set for an identifier that is known not to be valid: found
/// expired, not found in the store, or revoked. An entry without `expires`
/// stands for an identifier that the store does not know.
#[derive(Clone, Copy, Debug, PartialEq, Eq, Structural)]
pub struct CachedSession {
    pub expires: Option<Timestamp>,
    pub invalid: bool,
}

impl CachedSession {
    /// The entry counts as valid at `now`: not marked invalid, and ending
    /// strictly after `now`.
    pub open spec fn valid_at(self, now: Timestamp) -> bool {
        &&& !self.invalid
        &&& self.expires matches Some(end)
        &&& end.is_after(now)
    }

    /// The same entry, marked invalid.
    pub open spec fn marked_invalid(self) -> CachedSession {
        CachedSession { expires: self.expires, invalid: true }
    }

    /// What the cache holds for an identifier whose store lookup gave
    /// `stored` at `now`: the stored end, and marked invalid unless that end
    /// is still ahead.
    pub open spec fn of_store_answer(stored: Option<Timestamp>, now: Timestamp) -> CachedSession {
        CachedSession {
            expires: stored,
            invalid: !(stored matches Some(end) && end.is_after(now)),
        }
    }

    /// Tells whether the entry counts as valid at `now`.
    pub fn is_valid_at(&self, now: &Timestamp) -> (r: bool)
        ensures
            r == self.valid_at(*now),
    {
        if self.invalid {
            false
        } else {
            match &self.expires {
                Some(end) => end.after(now),
                None => false,
            }
        }
    }

    /// Tells whether the entry counts as valid at the instant the clock
    /// shows. An entry that is marked invalid or has no end is never valid.
    pub fn valid(&self) -> (r: bool)
        ensures
            r ==> !self.invalid && self.expires is Some,
            exists|now: Timestamp| clock_shows(now) && r == #[trigger] self.valid_at(now),
    {
        let now = utc_now();
        self.is_valid_at(&now)
    }

    /// The entry with the same end, marked invalid.
    pub fn invalidated(self) -> (r: CachedSession)
        ensures
            r == self.marked_invalid(),
    {
        CachedSession { expires: self.expires, invalid: true }
    }

    /// The entry to cache for a store lookup that gave `stored` at `now`.
    pub fn from_store_answer(stored: Option<Timestamp>, now: &Timestamp) -> (r: CachedSession)
        ensures
            r == CachedSession::of_store_answer(stored, *now),
            !r.invalid <==> r.valid_at(*now),
    {
        match stored {
            Some(end) => CachedSession { expires: Some(end), invalid: !end.after(now) },
            None => CachedSession { expires: None, invalid: true },
        }
    }
}

impl Session {
    /// The cache entry of a session that has just been issued.
    pub open spec fn cached(self) -> CachedSession {
        CachedSession { expires: Some(self.expires), invalid: false }
    }

    /// The cache entry of this session: its end, not marked invalid.
    pub fn to_cached(&self) -> (r: CachedSession)
        ensures
            r == self.cached(),
    {
        CachedSession { expires: Some(self.expires), invalid: false }
    }
}

} // verus!
