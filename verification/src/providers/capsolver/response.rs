//! Capsolver API responses.

use vstd::prelude::*;
use super::errors::{CapsolverApiError, CapsolverError};
use crate::errors::UnsupportedTaskError;
use crate::providers::traits::TaskCreationOutcome;
use crate::types::TaskId;
use super::types::CapsolverTask;

verus! {

/// A Capsolver API response: the data, or the API's error.
#[derive(Debug)]
pub enum CapsolverResponse<T> {
    Success(T),
    Error(CapsolverApiError),
}

impl<T> CapsolverResponse<T> {
    /// The response as a `Result`.
    pub fn into_result(self) -> (r: Result<T, CapsolverApiError>)
        ensures
            match self {
                CapsolverResponse::Success(d) => r == Ok::<T, CapsolverApiError>(d),
                CapsolverResponse::Error(e) => r == Err::<T, CapsolverApiError>(e),
            },
    {
        match self {
            CapsolverResponse::Success(d) => Ok(d),
            CapsolverResponse::Error(e) => Err(e),
        }
    }
}

/// The payload to send for a converted task: a task the provider cannot take
/// is refused as unsupported.
pub fn check_payload(converted: Result<CapsolverTask, UnsupportedTaskError>) -> (r: Result<
    CapsolverTask,
    CapsolverError,
>)
    ensures
        match converted {
            Err(e) => r == Err::<CapsolverTask, CapsolverError>(CapsolverError::UnsupportedTask(e)),
            Ok(p) => r == Ok::<CapsolverTask, CapsolverError>(p),
        },
{
    match converted {
        Err(e) => Err(CapsolverError::UnsupportedTask(e)),
        Ok(p) => Ok(p),
    }
}

/// What a `createTask` answer means: the task id of a pending task, or the
/// API's error.
pub fn task_created<S>(response: CapsolverResponse<String>) -> (r: Result<
    TaskCreationOutcome<S>,
    CapsolverError,
>)
    ensures
        match response {
            CapsolverResponse::Success(id) => r == Ok::<_, CapsolverError>(
                TaskCreationOutcome::<S>::Pending(TaskId(id)),
            ),
            CapsolverResponse::Error(e) => r == Err::<TaskCreationOutcome<S>, _>(CapsolverError::Api(e)),
        },
{
    match response {
        CapsolverResponse::Success(id) => Ok(TaskCreationOutcome::Pending(TaskId::from(id))),
        CapsolverResponse::Error(e) => Err(CapsolverError::Api(e)),
    }
}

/// What a `getTaskResult` answer means: the solution when there is one,
/// `None` while the task is processing, or the API's error.
pub fn task_polled<S>(response: CapsolverResponse<Option<S>>) -> (r: Result<Option<S>, CapsolverError>)
    ensures
        match response {
            CapsolverResponse::Success(s) => r == Ok::<Option<S>, CapsolverError>(s),
            CapsolverResponse::Error(e) => r == Err::<Option<S>, _>(CapsolverError::Api(e)),
        },
{
    match response {
        CapsolverResponse::Success(s) => Ok(s),
        CapsolverResponse::Error(e) => Err(CapsolverError::Api(e)),
    }
}

} // verus!
