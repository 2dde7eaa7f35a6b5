//! Settings of the identity provider.

use vstd::prelude::*;

verus! {

/// How long a session lasts, and how many invalidated identifiers the cache
/// keeps track of.
#[derive(Clone, Copy, Debug)]
pub struct AuthConfig {
    pub session_lifetime_seconds: u32,
    pub invalid_sessions_cache_limit: usize,
}

} // verus!
