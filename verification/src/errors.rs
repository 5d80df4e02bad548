//! The error taxonomy every fallible operation of this crate maps into,
//! together with the HTTP status each variant is reported as.

use vstd::prelude::*;

verus! {

/// Why an operation was refused.
///
/// `Unauthenticated`: no token, an invalid or expired token, or a token whose
/// subject matches no user. `Forbidden`: a valid identity that does not own
/// the resource. `NotFound`: no record with the requested id. `Conflict`: a
/// uniqueness rule (such as one account per email) was violated. `Internal`:
/// an unexpected condition; reported without detail.
#[derive(Clone, Copy, Debug, PartialEq, Eq, Structural)]
pub enum ApiError {
    Unauthenticated,
    Forbidden,
    NotFound,
    Conflict,
    Internal,
}

impl ApiError {
    /// The HTTP status code a handler reports this error as.
    pub fn status_code(&self) -> (code: u16)
        ensures
            code == match *self {
                ApiError::Unauthenticated => 401u16,
                ApiError::Forbidden => 403u16,
                ApiError::NotFound => 404u16,
                ApiError::Conflict => 500u16,
                ApiError::Internal => 500u16,
            },
    {
        match self {
            ApiError::Unauthenticated => 401,
            ApiError::Forbidden => 403,
            ApiError::NotFound => 404,
            ApiError::Conflict => 500,
            ApiError::Internal => 500,
        }
    }
}

} // verus!
