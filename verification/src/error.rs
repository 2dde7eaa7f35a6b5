//! The errors of the identity provider and of the guard in front of it, and
//! how each is shown to a client.

use bcrypt::BcryptError;
use vstd::prelude::*;

verus! {

/// The request was not understood or not allowed: status 400.
pub const BAD_REQUEST: u16 = 400;

/// The client is not authenticated: status 401.
pub const UNAUTHORIZED: u16 = 401;

/// Nothing is served under the path: status 404.
pub const NOT_FOUND: u16 = 404;

/// The service failed: status 500.
pub const INTERNAL_SERVER_ERROR: u16 = 500;

/// Why the guard turned a request away.
#[derive(Clone, Copy, Debug, PartialEq, Eq, Structural)]
pub enum AuthenticationError {
    /// The request carries no header of the form `session-id <token>`.
    NoSessionIdHeader,
    /// No transaction could be had to validate the session in.
    InternalError,
    /// The session is unknown, has run out or was never issued.
    InvalidSessionId,
}

/// Why a login or a registration failed. `PoolErr` is the error of the
/// store.
#[derive(Debug)]
pub enum IDPError<PoolErr> {
    /// The login is unknown or the password is wrong; which of the two is
    /// not told.
    AuthenticationFailed,
    /// The login is taken by another user.
    UsernameTaken,
    /// The store failed while a session was read or written.
    AuthenticationError(PoolErr),
    /// The store failed while a user was written.
    RegistrationError(PoolErr),
    /// Hashing or checking a password failed.
    CryptoError(BcryptError),
}

/// The kind of an [`IDPError`], without what caused it.
#[derive(Clone, Copy, Debug, PartialEq, Eq, Structural)]
pub enum IDPErrorKind {
    AuthenticationFailed,
    UsernameTaken,
    AuthenticationError,
    RegistrationError,
    CryptoError,
}

/// What an error of the store tells about itself.
pub trait DbErrorOps {
    /// Tells whether the error reports that a value that must be unique is
    /// there already.
    fn is_unique_violation(&self) -> bool;
}

/// What a client is told of a failure.
#[derive(Debug)]
pub struct ErrorResponse {
    pub code: u16,
    pub message: String,
}

/// Why a request was turned away, as far as the answer depends on it.
#[derive(Clone, Copy, Debug, PartialEq, Eq, Structural)]
pub enum Rejection {
    /// No route matches the request.
    NotFound,
    /// A login or a registration failed.
    Identity(IDPErrorKind),
    /// The guard did not let the request pass.
    Authentication(AuthenticationError),
    /// Anything else.
    Other,
}

impl AuthenticationError {
    /// The status that this error is answered with.
    pub open spec fn status(self) -> u16 {
        match self {
            AuthenticationError::NoSessionIdHeader => UNAUTHORIZED,
            AuthenticationError::InternalError => INTERNAL_SERVER_ERROR,
            AuthenticationError::InvalidSessionId => UNAUTHORIZED,
        }
    }

    /// The sentence that this error is answered with.
    pub open spec fn text(self) -> Seq<char> {
        match self {
            AuthenticationError::NoSessionIdHeader => "Session id is missing. Expected header - Authorization: session-id [session_id]"@,
            AuthenticationError::InternalError => "Internal Error"@,
            AuthenticationError::InvalidSessionId => "Invalid session id"@,
        }
    }

    /// The status that this error is answered with.
    pub fn status_code(&self) -> (code: u16)
        ensures
            code == self.status(),
    {
        match self {
            AuthenticationError::NoSessionIdHeader => UNAUTHORIZED,
            AuthenticationError::InternalError => INTERNAL_SERVER_ERROR,
            AuthenticationError::InvalidSessionId => UNAUTHORIZED,
        }
    }

    /// The sentence that this error is answered with.
    pub fn message(&self) -> (message: String)
        ensures
            message@ == self.text(),
    {
        match self {
            AuthenticationError::NoSessionIdHeader => "Session id is missing. Expected header - Authorization: session-id [session_id]".to_owned(),
            AuthenticationError::InternalError => "Internal Error".to_owned(),
            AuthenticationError::InvalidSessionId => "Invalid session id".to_owned(),
        }
    }
}

impl IDPErrorKind {
    /// The status that an error of this kind is answered with. A failure of
    /// the store while a session is read or written is shown as a missing
    /// authentication, so that nothing of it leaks. A failure of the store
    /// while a user is written, and a failure to hash or check a password,
    /// are the server's.
    pub open spec fn status(self) -> u16 {
        match self {
            IDPErrorKind::AuthenticationFailed => UNAUTHORIZED,
            IDPErrorKind::UsernameTaken => BAD_REQUEST,
            IDPErrorKind::AuthenticationError => UNAUTHORIZED,
            IDPErrorKind::RegistrationError => INTERNAL_SERVER_ERROR,
            IDPErrorKind::CryptoError => INTERNAL_SERVER_ERROR,
        }
    }

    /// The sentence that an error of this kind is answered with.
    pub open spec fn text(self) -> Seq<char> {
        match self {
            IDPErrorKind::AuthenticationFailed => "Incorrect username or password"@,
            IDPErrorKind::UsernameTaken => "Requested username is occupied"@,
            IDPErrorKind::AuthenticationError => "Authentication error"@,
            IDPErrorKind::RegistrationError => "Registration error"@,
            IDPErrorKind::CryptoError => "Cryptographic error"@,
        }
    }

    /// The status that an error of this kind is answered with.
    pub fn status_code(&self) -> (code: u16)
        ensures
            code == self.status(),
    {
        match self {
            IDPErrorKind::AuthenticationFailed => UNAUTHORIZED,
            IDPErrorKind::UsernameTaken => BAD_REQUEST,
            IDPErrorKind::AuthenticationError => UNAUTHORIZED,
            IDPErrorKind::RegistrationError => INTERNAL_SERVER_ERROR,
            IDPErrorKind::CryptoError => INTERNAL_SERVER_ERROR,
        }
    }

    /// The sentence that an error of this kind is answered with.
    pub fn message(&self) -> (message: String)
        ensures
            message@ == self.text(),
    {
        match self {
            IDPErrorKind::AuthenticationFailed => "Incorrect username or password".to_owned(),
            IDPErrorKind::UsernameTaken => "Requested username is occupied".to_owned(),
            IDPErrorKind::AuthenticationError => "Authentication error".to_owned(),
            IDPErrorKind::RegistrationError => "Registration error".to_owned(),
            IDPErrorKind::CryptoError => "Cryptographic error".to_owned(),
        }
    }
}

impl<PoolErr> IDPError<PoolErr> {
    /// The kind of this error.
    pub open spec fn kind_of(self) -> IDPErrorKind {
        match self {
            IDPError::AuthenticationFailed => IDPErrorKind::AuthenticationFailed,
            IDPError::UsernameTaken => IDPErrorKind::UsernameTaken,
            IDPError::AuthenticationError(_) => IDPErrorKind::AuthenticationError,
            IDPError::RegistrationError(_) => IDPErrorKind::RegistrationError,
            IDPError::CryptoError(_) => IDPErrorKind::CryptoError,
        }
    }

    /// The kind of this error.
    pub fn kind(&self) -> (kind: IDPErrorKind)
        ensures
            kind == self.kind_of(),
    {
        match self {
            IDPError::AuthenticationFailed => IDPErrorKind::AuthenticationFailed,
            IDPError::UsernameTaken => IDPErrorKind::UsernameTaken,
            IDPError::AuthenticationError(_) => IDPErrorKind::AuthenticationError,
            IDPError::RegistrationError(_) => IDPErrorKind::RegistrationError,
            IDPError::CryptoError(_) => IDPErrorKind::CryptoError,
        }
    }

    /// The status that this error is answered with: that of its kind.
    pub fn status_code(&self) -> (code: u16)
        ensures
            code == self.kind_of().status(),
    {
        self.kind().status_code()
    }

    /// The sentence that this error is answered with: that of its kind. It
    /// tells nothing of what caused the error.
    pub fn message(&self) -> (message: String)
        ensures
            message@ == self.kind_of().text(),
    {
        self.kind().message()
    }
}

impl Rejection {
    /// The status that the rejection is answered with.
    pub open spec fn status(self) -> u16 {
        match self {
            Rejection::NotFound => NOT_FOUND,
            Rejection::Identity(kind) => kind.status(),
            Rejection::Authentication(error) => error.status(),
            Rejection::Other => INTERNAL_SERVER_ERROR,
        }
    }

    /// The sentence that the rejection is answered with.
    pub open spec fn text(self) -> Seq<char> {
        match self {
            Rejection::NotFound => "Not found"@,
            Rejection::Identity(kind) => kind.text(),
            Rejection::Authentication(error) => error.text(),
            Rejection::Other => "Internal Server Error"@,
        }
    }
}

/// The answer to a request that was turned away: the status and the
/// sentence that go with the reason.
pub fn handle_rejections(rejection: Rejection) -> (response: ErrorResponse)
    ensures
        response.code == rejection.status(),
        response.message@ == rejection.text(),
{
    match rejection {
        Rejection::NotFound => ErrorResponse { code: NOT_FOUND, message: "Not found".to_owned() },
        Rejection::Identity(kind) => ErrorResponse {
            code: kind.status_code(),
            message: kind.message(),
        },
        Rejection::Authentication(error) => ErrorResponse {
            code: error.status_code(),
            message: error.message(),
        },
        Rejection::Other => ErrorResponse {
            code: INTERNAL_SERVER_ERROR,
            message: "Internal Server Error".to_owned(),
        },
    }
}

} // verus!
