use vstd::prelude::*;

verus! {

/// The failure taxonomy of the session core.
///
/// Every failure is a value-level outcome: the store being unreachable,
/// a token that matches no session, a session past its time-to-live, a
/// session explicitly invalidated, or a creation that the repository
/// could not complete.
#[derive(Clone, Copy, Debug, PartialEq, Eq, Structural)]
pub enum Error {
    /// The persistence layer was unreachable or rejected the operation.
    StoreFailure,
    /// Session creation failed at the repository layer.
    CouldNotIssue,
    /// No session exists for the given token (malformed, unknown and
    /// never-issued tokens are indistinguishable here).
    InvalidToken,
    /// The token names a real session whose time-to-live has elapsed.
    SessionExpired,
    /// The token names a real session that was explicitly invalidated.
    SessionRevoked,
}

impl Error {
    /// The HTTP status code the boundary layer maps this failure to:
    /// a server-side fault for store trouble, unauthorized for the rest.
    pub open spec fn spec_status_code(self) -> u16 {
        match self {
            Error::StoreFailure => 500,
            Error::CouldNotIssue => 401,
            Error::InvalidToken => 401,
            Error::SessionExpired => 401,
            Error::SessionRevoked => 401,
        }
    }

    /// The categorical message surfaced to the boundary layer; it never
    /// carries a token or any other internals.
    pub open spec fn spec_message(self) -> Seq<char> {
        match self {
            Error::StoreFailure => "DB_FAILURE"@,
            Error::CouldNotIssue => "COULD_NOT_LOGIN"@,
            Error::InvalidToken => "INVALID_SESSION_TOKEN"@,
            Error::SessionExpired => "SESSION_EXPIRED"@,
            Error::SessionRevoked => "SESSION_REVOKED"@,
        }
    }

    pub fn get_status_code(&self) -> (code: u16)
        ensures
            code == self.spec_status_code(),
    {
        match self {
            Error::StoreFailure => 500,
            Error::CouldNotIssue => 401,
            Error::InvalidToken => 401,
            Error::SessionExpired => 401,
            Error::SessionRevoked => 401,
        }
    }

    pub fn message(&self) -> (msg: String)
        ensures
            msg@ == self.spec_message(),
    {
        match self {
            Error::StoreFailure => "DB_FAILURE".to_owned(),
            Error::CouldNotIssue => "COULD_NOT_LOGIN".to_owned(),
            Error::InvalidToken => "INVALID_SESSION_TOKEN".to_owned(),
            Error::SessionExpired => "SESSION_EXPIRED".to_owned(),
            Error::SessionRevoked => "SESSION_REVOKED".to_owned(),
        }
    }
}

} // verus!
