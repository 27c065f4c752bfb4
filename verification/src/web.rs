//! The JSON envelope every handler answers with.
//!
//! Success and failure alike map to `{data, status, message}` plus an HTTP
//! status code; each error kind carries its fixed status. Turning the
//! envelope into an HTTP response body is the surrounding program's
//! business.

use vstd::prelude::*;

use crate::error::Error;

verus! {

/// A pagination request.
pub struct PageRequest {
    pub cursor: Option<String>,
    pub size: Option<u32>,
}

/// One page of results.
pub struct PageResponse<T> {
    pub data: Vec<T>,
    pub next_cursor: Option<i64>,
    pub size: i32,
}

/// The envelope: payload, the HTTP status repeated, and a message.
pub struct ApiResponse<T> {
    pub data: T,
    pub status: u16,
    pub message: String,
}

/// Wraps a payload in a success envelope under the given status.
pub fn json_success<T>(status: u16, data: T, message: String) -> (r: (u16, ApiResponse<Option<T>>))
    ensures
        r.0 == status,
        r.1.status == status,
        r.1.data == Some(data),
        r.1.message == message,
{
    (status, ApiResponse { data: Some(data), status, message })
}

/// Maps an error to its fixed HTTP status and an envelope without payload
/// carrying the error's message.
pub fn json_error<T>(error: Error) -> (r: (u16, ApiResponse<Option<T>>))
    ensures
        r.0 == error.spec_status_code(),
        r.1.status == error.spec_status_code(),
        r.1.data is None,
        r.1.message@ == error.spec_message(),
{
    let status = error.status_code();
    let message = match error {
        Error::BadRequest(m) => m,
        Error::NotFound(m) => m,
        Error::Unauthorized(m) => m,
        Error::Forbidden(m) => m,
        Error::Conflict(m) => m,
        Error::Internal(m) => m,
    };
    (status, ApiResponse { data: None, status, message })
}

} // verus!
