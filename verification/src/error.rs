//! The error taxonomy shared by every layer of the core.
//!
//! Repository and cache adapters never recover errors locally: every failure
//! is mapped to one of these kinds and returned to the caller. Absence of an
//! active transaction or identity is not an error at the ambient-context
//! layer; it becomes one only at the call site that requires a value.

use vstd::prelude::*;

verus! {

/// A typed failure, each variant carrying a human-readable message.
#[derive(Debug)]
pub enum Error {
    /// Malformed or invalid input.
    BadRequest(String),
    /// Entity absent.
    NotFound(String),
    /// Identity missing.
    Unauthorized(String),
    /// Identity insufficient.
    Forbidden(String),
    /// Uniqueness violation.
    Conflict(String),
    /// Infrastructure failure: pool exhaustion, driver error, commit or
    /// rollback failure, serialization failure.
    Internal(String),
}

impl Error {
    /// The fixed HTTP status this kind maps to in the JSON envelope.
    pub fn status_code(&self) -> (code: u16)
        ensures
            code == self.spec_status_code(),
    {
        match self {
            Error::BadRequest(_) => 400,
            Error::Unauthorized(_) => 401,
            Error::Forbidden(_) => 403,
            Error::NotFound(_) => 404,
            Error::Conflict(_) => 409,
            Error::Internal(_) => 500,
        }
    }

    /// Spec-level view of the status mapping.
    pub open spec fn spec_status_code(&self) -> u16 {
        match self {
            Error::BadRequest(_) => 400u16,
            Error::Unauthorized(_) => 401u16,
            Error::Forbidden(_) => 403u16,
            Error::NotFound(_) => 404u16,
            Error::Conflict(_) => 409u16,
            Error::Internal(_) => 500u16,
        }
    }

    /// The message carried by the variant.
    pub fn message(&self) -> (m: &String)
        ensures
            m@ == self.spec_message(),
    {
        match self {
            Error::BadRequest(m) => m,
            Error::NotFound(m) => m,
            Error::Unauthorized(m) => m,
            Error::Forbidden(m) => m,
            Error::Conflict(m) => m,
            Error::Internal(m) => m,
        }
    }

    /// Spec-level view of the carried message.
    pub open spec fn spec_message(&self) -> Seq<char> {
        match self {
            Error::BadRequest(m) => m@,
            Error::NotFound(m) => m@,
            Error::Unauthorized(m) => m@,
            Error::Forbidden(m) => m@,
            Error::Conflict(m) => m@,
            Error::Internal(m) => m@,
        }
    }
}

} // verus!
