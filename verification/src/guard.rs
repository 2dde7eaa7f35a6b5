//! The guard in front of the routes that need a session.
//!
//! For each request the guard reads the session identifier from the
//! authorization header, has a transaction opened, has the session
//! validated, and lets the request pass or turns it away. The decisions are
//! made here; opening the transaction and asking the store are the
//! caller's.

use crate::error::AuthenticationError;
use crate::text::strip_prefix;
use vstd::prelude::*;

verus! {

/// What became of the validation of a request's session.
#[derive(Clone, Copy, Debug, PartialEq, Eq, Structural)]
pub enum SessionCheck {
    /// No transaction could be opened, so the session was not validated.
    NoTransaction,
    /// The session was validated, with this result.
    Validated(bool),
}

/// The token that an authorization header carries: what follows
/// `session-id ` in a header that starts with it.
pub open spec fn header_token(header: Option<&str>) -> Option<Seq<char>> {
    match header {
        Some(raw) => if "session-id "@.is_prefix_of(raw@) {
            Some(raw@.skip("session-id "@.len() as int))
        } else {
            None
        },
        None => None,
    }
}

/// What the guard answers for the session identifier `session_id` after
/// `check`: the identifier itself where the session was found valid.
pub open spec fn guard_verdict(session_id: String, check: SessionCheck) -> Result<
    String,
    AuthenticationError,
> {
    match check {
        SessionCheck::NoTransaction => Err(AuthenticationError::InternalError),
        SessionCheck::Validated(false) => Err(AuthenticationError::InvalidSessionId),
        SessionCheck::Validated(true) => Ok(session_id),
    }
}

/// Reads the session identifier from the authorization header of a
/// request. A request without the header, or with one that does not start
/// with `session-id `, is turned away with `NoSessionIdHeader`.
pub fn session_token(header: Option<&str>) -> (token: Result<String, AuthenticationError>)
    ensures
        match header_token(header) {
            Some(text) => token is Ok && token->Ok_0@ == text,
            None => token == Err::<String, AuthenticationError>(
                AuthenticationError::NoSessionIdHeader,
            ),
        },
{
    match header {
        None => Err(AuthenticationError::NoSessionIdHeader),
        Some(raw) => match strip_prefix(raw, "session-id ") {
            Some(reference) => Ok(reference.to_owned()),
            None => Err(AuthenticationError::NoSessionIdHeader),
        },
    }
}

/// Decides on a request whose header carried `session_id`: it passes, with
/// the identifier as the proof of its authentication, if the session was
/// found valid. It is turned away with `InternalError` if no transaction
/// could be opened, and with `InvalidSessionId` if the session is not valid.
pub fn pass_or_reject(session_id: String, check: SessionCheck) -> (verdict: Result<String, AuthenticationError>)
    ensures
        verdict == guard_verdict(session_id, check),
{
    match check {
        SessionCheck::NoTransaction => Err(AuthenticationError::InternalError),
        SessionCheck::Validated(valid) => if valid {
            Ok(session_id)
        } else {
            Err(AuthenticationError::InvalidSessionId)
        },
    }
}

} // verus!
