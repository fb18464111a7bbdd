//! CapMonster API responses.

use vstd::prelude::*;
use super::errors::{CapmonsterApiError, CapmonsterError};
use crate::errors::UnsupportedTaskError;
use crate::providers::traits::TaskCreationOutcome;
use crate::types::TaskId;
use super::types::CapmonsterTask;
use super::types::{capmonster_task_problem, validate_task};

verus! {

/// A CapMonster API response: the data, or the API's error.
#[derive(Debug)]
pub enum CapmonsterResponse<T> {
    Success(T),
    Error(CapmonsterApiError),
}

impl<T> CapmonsterResponse<T> {
    /// The response as a `Result`.
    pub fn into_result(self) -> (r: Result<T, CapmonsterApiError>)
        ensures
            match self {
                CapmonsterResponse::Success(d) => r == Ok::<T, CapmonsterApiError>(d),
                CapmonsterResponse::Error(e) => r == Err::<T, CapmonsterApiError>(e),
            },
    {
        match self {
            CapmonsterResponse::Success(d) => Ok(d),
            CapmonsterResponse::Error(e) => Err(e),
        }
    }
}

/// The payload to send for a converted task: a task CapMonster cannot take
/// is refused as unsupported, and a payload that breaks CapMonster's rules
/// as invalid.
pub fn check_payload(converted: Result<CapmonsterTask, UnsupportedTaskError>) -> (r: Result<
    CapmonsterTask,
    CapmonsterError,
>)
    ensures
        match converted {
            Err(e) => r == Err::<CapmonsterTask, CapmonsterError>(CapmonsterError::UnsupportedTask(e)),
            Ok(p) => match capmonster_task_problem(p) {
                None => r == Ok::<CapmonsterTask, CapmonsterError>(p),
                Some(msg) => r matches Err(CapmonsterError::InvalidTaskData(m)) && m@ == msg,
            },
        },
{
    match converted {
        Err(e) => Err(CapmonsterError::UnsupportedTask(e)),
        Ok(p) => match validate_task(&p) {
            Ok(()) => Ok(p),
            Err(e) => Err(e),
        },
    }
}

/// What a `createTask` answer means: the task id of a pending task, or the
/// API's error.
pub fn task_created<S>(response: CapmonsterResponse<String>) -> (r: Result<
    TaskCreationOutcome<S>,
    CapmonsterError,
>)
    ensures
        match response {
            CapmonsterResponse::Success(id) => r == Ok::<_, CapmonsterError>(
                TaskCreationOutcome::<S>::Pending(TaskId(id)),
            ),
            CapmonsterResponse::Error(e) => r == Err::<TaskCreationOutcome<S>, _>(CapmonsterError::Api(e)),
        },
{
    match response {
        CapmonsterResponse::Success(id) => Ok(TaskCreationOutcome::Pending(TaskId::from(id))),
        CapmonsterResponse::Error(e) => Err(CapmonsterError::Api(e)),
    }
}

/// What a `getTaskResult` answer means: the solution when there is one,
/// `None` while the task is processing, or the API's error.
pub fn task_polled<S>(response: CapmonsterResponse<Option<S>>) -> (r: Result<Option<S>, CapmonsterError>)
    ensures
        match response {
            CapmonsterResponse::Success(s) => r == Ok::<Option<S>, CapmonsterError>(s),
            CapmonsterResponse::Error(e) => r == Err::<Option<S>, _>(CapmonsterError::Api(e)),
        },
{
    match response {
        CapmonsterResponse::Success(s) => Ok(s),
        CapmonsterResponse::Error(e) => Err(CapmonsterError::Api(e)),
    }
}

} // verus!
