//! The failures that the services report.
use vstd::prelude::*;

verus! {

/// What went wrong, by kind.
#[derive(Debug, Clone, Copy, PartialEq, Eq)]
pub enum ServiceError {
    /// No session, or one that is ended or expired.
    Unauthorized,
    /// The identity provider refused an authorization code.
    AuthExchangeError,
    /// The identity provider rejected the refresh token: the account must be
    /// connected again, and retrying will not help.
    ReauthRequired,
    /// A remote call failed or answered with a non-success status; the
    /// caller may retry.
    TransientExternalError,
    /// A record that the operation needs is absent.
    NotFound,
    /// The input is malformed.
    ValidationError,
    /// The store failed.
    InternalPersistenceError,
}

impl ServiceError {
    /// A short description for people. A missing session and a rejected
    /// refresh token read differently: the second asks to reconnect.
    pub fn message(&self) -> (r: String)
        ensures
            *self == ServiceError::Unauthorized ==> r@ == "not authenticated"@,
            *self == ServiceError::ReauthRequired ==> r@ == "please reconnect your account"@,
    {
        match self {
            ServiceError::Unauthorized => String::from_str("not authenticated"),
            ServiceError::AuthExchangeError => String::from_str("authorization code exchange failed"),
            ServiceError::ReauthRequired => String::from_str("please reconnect your account"),
            ServiceError::TransientExternalError => String::from_str("remote service unavailable; try again"),
            ServiceError::NotFound => String::from_str("not found"),
            ServiceError::ValidationError => String::from_str("invalid input"),
            ServiceError::InternalPersistenceError => String::from_str("storage failure"),
        }
    }
}

} // verus!
