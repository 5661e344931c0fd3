//! The error taxonomy shared by the record store and the gateway.

use vstd::prelude::*;

verus! {

/// Every failure the library reports, as a structured value.
#[derive(Clone, Copy, Debug, PartialEq, Eq, Structural)]
pub enum ApiError {
    /// Malformed input, a missing mandatory field, or a violated value constraint.
    ValidationError,
    /// The referenced entity, or the parent it names, does not exist.
    NotFound,
    /// A uniqueness violation, or a delete blocked by existing children.
    Conflict,
    /// Bad credentials, or an invalid token.
    Unauthorized,
    /// A token whose signature is valid but whose expiry has passed.
    TokenExpired,
    /// Every identifier of a table has been issued.
    CapacityExhausted,
    /// The clock reads a time so late that no expiry can be represented.
    ClockOutOfRange,
    /// The token could not be signed.
    SigningFailed,
}

/// The HTTP status code that the transport layer answers with for `e`.
pub open spec fn status_of(e: ApiError) -> u16 {
    match e {
        ApiError::ValidationError => 400,
        ApiError::NotFound => 404,
        ApiError::Conflict => 409,
        ApiError::Unauthorized => 401,
        ApiError::TokenExpired => 401,
        ApiError::CapacityExhausted => 507,
        ApiError::ClockOutOfRange => 500,
        ApiError::SigningFailed => 500,
    }
}

impl ApiError {
    /// The HTTP status code for this error.
    pub fn status_code(&self) -> (r: u16)
        ensures
            r == status_of(*self),
    {
        match self {
            ApiError::ValidationError => 400,
            ApiError::NotFound => 404,
            ApiError::Conflict => 409,
            ApiError::Unauthorized => 401,
            ApiError::TokenExpired => 401,
            ApiError::CapacityExhausted => 507,
            ApiError::ClockOutOfRange => 500,
            ApiError::SigningFailed => 500,
        }
    }
}

} // verus!
