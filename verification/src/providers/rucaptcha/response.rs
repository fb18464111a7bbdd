//! RuCaptcha API responses.

use vstd::prelude::*;
use super::errors::{RucaptchaApiError, RucaptchaError};
use crate::errors::UnsupportedTaskError;
use crate::providers::traits::TaskCreationOutcome;
use crate::types::TaskId;
use super::types::RucaptchaTask;

verus! {

/// A RuCaptcha API response: the data, or the API's error.
#[derive(Debug)]
pub enum RucaptchaResponse<T> {
    Success(T),
    Error(RucaptchaApiError),
}

impl<T> RucaptchaResponse<T> {
    /// The response as a `Result`.
    pub fn into_result(self) -> (r: Result<T, RucaptchaApiError>)
        ensures
            match self {
                RucaptchaResponse::Success(d) => r == Ok::<T, RucaptchaApiError>(d),
                RucaptchaResponse::Error(e) => r == Err::<T, RucaptchaApiError>(e),
            },
    {
        match self {
            RucaptchaResponse::Success(d) => Ok(d),
            RucaptchaResponse::Error(e) => Err(e),
        }
    }
}

/// The payload to send for a converted task: a task the provider cannot take
/// is refused as unsupported.
pub fn check_payload(converted: Result<RucaptchaTask, UnsupportedTaskError>) -> (r: Result<
    RucaptchaTask,
    RucaptchaError,
>)
    ensures
        match converted {
            Err(e) => r == Err::<RucaptchaTask, RucaptchaError>(RucaptchaError::UnsupportedTask(e)),
            Ok(p) => r == Ok::<RucaptchaTask, RucaptchaError>(p),
        },
{
    match converted {
        Err(e) => Err(RucaptchaError::UnsupportedTask(e)),
        Ok(p) => Ok(p),
    }
}

/// What a `createTask` answer means: the task id of a pending task, or the
/// API's error.
pub fn task_created<S>(response: RucaptchaResponse<String>) -> (r: Result<
    TaskCreationOutcome<S>,
    RucaptchaError,
>)
    ensures
        match response {
            RucaptchaResponse::Success(id) => r == Ok::<_, RucaptchaError>(
                TaskCreationOutcome::<S>::Pending(TaskId(id)),
            ),
            RucaptchaResponse::Error(e) => r == Err::<TaskCreationOutcome<S>, _>(RucaptchaError::Api(e)),
        },
{
    match response {
        RucaptchaResponse::Success(id) => Ok(TaskCreationOutcome::Pending(TaskId::from(id))),
        RucaptchaResponse::Error(e) => Err(RucaptchaError::Api(e)),
    }
}

/// What a `getTaskResult` answer means: the solution when there is one,
/// `None` while the task is processing, or the API's error.
pub fn task_polled<S>(response: RucaptchaResponse<Option<S>>) -> (r: Result<Option<S>, RucaptchaError>)
    ensures
        match response {
            RucaptchaResponse::Success(s) => r == Ok::<Option<S>, RucaptchaError>(s),
            RucaptchaResponse::Error(e) => r == Err::<Option<S>, _>(RucaptchaError::Api(e)),
        },
{
    match response {
        RucaptchaResponse::Success(s) => Ok(s),
        RucaptchaResponse::Error(e) => Err(RucaptchaError::Api(e)),
    }
}

} // verus!
