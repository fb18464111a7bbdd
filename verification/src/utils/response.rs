//! The answer shape that the providers' APIs share: a nonzero `errorId`
//! marks an error, anything else carries the data.

use vstd::prelude::*;

verus! {

/// A provider API response: the data, or the API's error.
#[derive(Debug)]
pub enum ApiResponse<T, E> {
    Success(T),
    Error(E),
}

impl<T, E> ApiResponse<T, E> {
    /// The response as a `Result`.
    pub fn into_result(self) -> (r: Result<T, E>)
        ensures
            match self {
                ApiResponse::Success(d) => r == Ok::<T, E>(d),
                ApiResponse::Error(e) => r == Err::<T, E>(e),
            },
    {
        match self {
            ApiResponse::Success(d) => Ok(d),
            ApiResponse::Error(e) => Err(e),
        }
    }

    /// Whether the response carries data.
    pub fn is_success(&self) -> (b: bool)
        ensures
            b == (self is Success),
    {
        match self {
            ApiResponse::Success(_) => true,
            ApiResponse::Error(_) => false,
        }
    }

    /// Whether the response carries an error.
    pub fn is_error(&self) -> (b: bool)
        ensures
            b == (self is Error),
    {
        match self {
            ApiResponse::Success(_) => false,
            ApiResponse::Error(_) => true,
        }
    }
}

/// Whether a response with this `errorId` (absent, or not an unsigned
/// integer, when `None`) is an error: exactly when the id is present and
/// nonzero.
pub fn is_error_response(error_id: Option<u64>) -> (b: bool)
    ensures
        b == (error_id matches Some(id) && id != 0),
{
    match error_id {
        Some(id) => id != 0,
        None => false,
    }
}

} // verus!
