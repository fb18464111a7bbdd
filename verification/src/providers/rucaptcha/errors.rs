//! RuCaptcha error codes and errors.

use vstd::prelude::*;
use std::time::Duration;
use crate::errors::{api_error_message, api_error_text, RetryableError, UnsupportedTaskError};
use crate::proxy::opt_view;
use crate::service::errors::ServiceError;
use crate::service::poll::{after_poll_spec, PollAction};
use crate::types::TaskId;

verus! {

/// Errors of the RuCaptcha provider.
#[derive(Debug)]
pub enum RucaptchaError {
    /// The HTTP client could not be built.
    BuildHttpClient(reqwest::Error),
    /// The HTTP request failed.
    HttpRequest(reqwest_middleware::Error),
    /// The response could not be parsed.
    ParseResponse(reqwest::Error),
    /// The API answered with an error.
    Api(RucaptchaApiError),
    /// RuCaptcha cannot take the task.
    UnsupportedTask(UnsupportedTaskError),
    /// No solution arrived in time.
    SolutionTimeout { timeout: Duration, task_id: TaskId },
}

impl From<reqwest_middleware::Error> for RucaptchaError {
    fn from(e: reqwest_middleware::Error) -> (r: Self) {
        RucaptchaError::HttpRequest(e)
    }
}

impl vstd::std_specs::convert::FromSpecImpl<reqwest_middleware::Error> for RucaptchaError {
    open spec fn obeys_from_spec() -> bool {
        true
    }

    open spec fn from_spec(e: reqwest_middleware::Error) -> RucaptchaError {
        RucaptchaError::HttpRequest(e)
    }
}

impl RetryableError for RucaptchaError {
    /// Network failures are transient; an expired task cannot be polled
    /// again; API errors go by their code; the rest is permanent.
    open spec fn retryable(&self) -> bool {
        match self {
            RucaptchaError::HttpRequest(_) => true,
            RucaptchaError::SolutionTimeout { .. } => false,
            RucaptchaError::Api(e) => rucaptcha_code_retryable(e.error_code),
            _ => false,
        }
    }

    /// Network failures and timeouts are worth a fresh task; API errors go by
    /// their code; configuration errors are not.
    open spec fn operation_retryable(&self) -> bool {
        match self {
            RucaptchaError::HttpRequest(_) => true,
            RucaptchaError::SolutionTimeout { .. } => true,
            RucaptchaError::Api(e) => rucaptcha_code_operation_retryable(e.error_code),
            _ => false,
        }
    }

    fn is_retryable(&self) -> (r: bool) {
        match self {
            RucaptchaError::HttpRequest(_) => true,
            RucaptchaError::SolutionTimeout { .. } => false,
            RucaptchaError::Api(e) => e.error_code.is_retryable(),
            RucaptchaError::BuildHttpClient(_)
            | RucaptchaError::ParseResponse(_)
            | RucaptchaError::UnsupportedTask(_) => false,
        }
    }

    fn should_retry_operation(&self) -> (r: bool) {
        match self {
            RucaptchaError::HttpRequest(_) => true,
            RucaptchaError::SolutionTimeout { .. } => true,
            RucaptchaError::Api(e) => e.error_code.should_retry_operation(),
            RucaptchaError::BuildHttpClient(_)
            | RucaptchaError::ParseResponse(_)
            | RucaptchaError::UnsupportedTask(_) => false,
        }
    }
}

/// RuCaptcha API error codes.
#[derive(Debug, Clone, Copy, PartialEq, Eq, Structural)]
pub enum RucaptchaErrorCode {
    NoSlotAvailable,
    ZeroBalance,
    CaptchaUnsolvable,
    KeyDoesNotExist,
    ZeroCaptchaFilesize,
    TooBigCaptchaFilesize,
    PageUrl,
    IpNotAllowed,
    BadDuplicates,
    NoSuchMethod,
    ImageTypeNotSupported,
    NoSuchCaptchaId,
    IpBlocked,
    TaskAbsent,
    TaskNotSupported,
    RecaptchaInvalidSitekey,
    AccountSuspended,
    BadParameters,
    BadImgInstructions,
    BadProxy,
    /// Any code not listed above.
    Unknown,
}

/// Whether the same task may be polled again: only when no worker slot was
/// free.
pub open spec fn rucaptcha_code_retryable(c: RucaptchaErrorCode) -> bool {
    c == RucaptchaErrorCode::NoSlotAvailable
}

/// Whether a fresh task may succeed: when no slot was free or the captcha
/// was unsolvable; account, configuration and unknown errors are permanent.
pub open spec fn rucaptcha_code_operation_retryable(c: RucaptchaErrorCode) -> bool {
    c == RucaptchaErrorCode::NoSlotAvailable || c == RucaptchaErrorCode::CaptchaUnsolvable
}

/// A poll that RuCaptcha answers with an API error is made again exactly
/// when no worker slot was free. Any other code ends the solve with that
/// error; a fresh solve is then worth trying exactly when the captcha was
/// unsolvable.
pub proof fn law_rucaptcha_poll_error<S>(api: RucaptchaApiError)
    ensures
        (after_poll_spec::<S, RucaptchaError>(Err(RucaptchaError::Api(api))) is Continue) <==> (
        api.error_code == RucaptchaErrorCode::NoSlotAvailable),
        !(after_poll_spec::<S, RucaptchaError>(Err(RucaptchaError::Api(api))) is Continue)
            ==> after_poll_spec::<S, RucaptchaError>(Err(RucaptchaError::Api(api))) == (
        PollAction::<S, RucaptchaError>::Done(
            Err(
                ServiceError::Provider {
                    source: RucaptchaError::Api(api),
                    is_retryable: false,
                    should_retry_operation: api.error_code
                        == RucaptchaErrorCode::CaptchaUnsolvable,
                },
            ),
        )),
{
}

/// The human-readable description of a code.
pub open spec fn rucaptcha_code_description(c: RucaptchaErrorCode) -> Seq<char> {
    match c {
        RucaptchaErrorCode::NoSlotAvailable => "No slot available"@,
        RucaptchaErrorCode::ZeroBalance => "Zero balance"@,
        RucaptchaErrorCode::CaptchaUnsolvable => "Captcha unsolvable"@,
        RucaptchaErrorCode::KeyDoesNotExist => "Key does not exist"@,
        RucaptchaErrorCode::ZeroCaptchaFilesize => "Zero captcha filesize"@,
        RucaptchaErrorCode::TooBigCaptchaFilesize => "Too big captcha filesize"@,
        RucaptchaErrorCode::PageUrl => "Invalid page URL"@,
        RucaptchaErrorCode::IpNotAllowed => "IP not allowed"@,
        RucaptchaErrorCode::BadDuplicates => "Bad duplicates"@,
        RucaptchaErrorCode::NoSuchMethod => "No such method"@,
        RucaptchaErrorCode::ImageTypeNotSupported => "Image type not supported"@,
        RucaptchaErrorCode::NoSuchCaptchaId => "No such captcha ID"@,
        RucaptchaErrorCode::IpBlocked => "IP blocked"@,
        RucaptchaErrorCode::TaskAbsent => "Task absent"@,
        RucaptchaErrorCode::TaskNotSupported => "Task not supported"@,
        RucaptchaErrorCode::RecaptchaInvalidSitekey => "Invalid reCAPTCHA sitekey"@,
        RucaptchaErrorCode::AccountSuspended => "Account suspended"@,
        RucaptchaErrorCode::BadParameters => "Bad parameters"@,
        RucaptchaErrorCode::BadImgInstructions => "Bad image instructions"@,
        RucaptchaErrorCode::BadProxy => "Bad proxy"@,
        RucaptchaErrorCode::Unknown => "Unknown error"@,
    }
}

/// A code that may be retried with the same task may also be retried with a
/// fresh one.
pub proof fn law_rucaptcha_code_retry_levels(c: RucaptchaErrorCode)
    ensures
        rucaptcha_code_retryable(c) ==> rucaptcha_code_operation_retryable(c),
{
}

/// The same holds of every RuCaptcha error.
pub proof fn law_rucaptcha_error_retry_levels(e: RucaptchaError)
    ensures
        e.retryable() ==> e.operation_retryable(),
{
}

impl RucaptchaErrorCode {
    /// Whether the same task may be polled again.
    pub fn is_retryable(&self) -> (r: bool)
        ensures
            r == rucaptcha_code_retryable(*self),
    {
        match self {
            RucaptchaErrorCode::NoSlotAvailable => true,
            _ => false,
        }
    }

    /// Whether a fresh task may succeed.
    pub fn should_retry_operation(&self) -> (r: bool)
        ensures
            r == rucaptcha_code_operation_retryable(*self),
    {
        match self {
            RucaptchaErrorCode::NoSlotAvailable => true,
            RucaptchaErrorCode::CaptchaUnsolvable => true,
            RucaptchaErrorCode::ZeroBalance
            | RucaptchaErrorCode::KeyDoesNotExist
            | RucaptchaErrorCode::IpNotAllowed
            | RucaptchaErrorCode::IpBlocked
            | RucaptchaErrorCode::AccountSuspended => false,
            RucaptchaErrorCode::ZeroCaptchaFilesize
            | RucaptchaErrorCode::TooBigCaptchaFilesize
            | RucaptchaErrorCode::PageUrl
            | RucaptchaErrorCode::BadDuplicates
            | RucaptchaErrorCode::NoSuchMethod
            | RucaptchaErrorCode::ImageTypeNotSupported
            | RucaptchaErrorCode::NoSuchCaptchaId
            | RucaptchaErrorCode::TaskAbsent
            | RucaptchaErrorCode::TaskNotSupported
            | RucaptchaErrorCode::RecaptchaInvalidSitekey
            | RucaptchaErrorCode::BadParameters
            | RucaptchaErrorCode::BadImgInstructions
            | RucaptchaErrorCode::BadProxy => false,
            RucaptchaErrorCode::Unknown => false,
        }
    }

    /// The human-readable description of the code.
    pub fn description(&self) -> (s: &'static str)
        ensures
            s@ == rucaptcha_code_description(*self),
    {
        match self {
            RucaptchaErrorCode::NoSlotAvailable => "No slot available",
            RucaptchaErrorCode::ZeroBalance => "Zero balance",
            RucaptchaErrorCode::CaptchaUnsolvable => "Captcha unsolvable",
            RucaptchaErrorCode::KeyDoesNotExist => "Key does not exist",
            RucaptchaErrorCode::ZeroCaptchaFilesize => "Zero captcha filesize",
            RucaptchaErrorCode::TooBigCaptchaFilesize => "Too big captcha filesize",
            RucaptchaErrorCode::PageUrl => "Invalid page URL",
            RucaptchaErrorCode::IpNotAllowed => "IP not allowed",
            RucaptchaErrorCode::BadDuplicates => "Bad duplicates",
            RucaptchaErrorCode::NoSuchMethod => "No such method",
            RucaptchaErrorCode::ImageTypeNotSupported => "Image type not supported",
            RucaptchaErrorCode::NoSuchCaptchaId => "No such captcha ID",
            RucaptchaErrorCode::IpBlocked => "IP blocked",
            RucaptchaErrorCode::TaskAbsent => "Task absent",
            RucaptchaErrorCode::TaskNotSupported => "Task not supported",
            RucaptchaErrorCode::RecaptchaInvalidSitekey => "Invalid reCAPTCHA sitekey",
            RucaptchaErrorCode::AccountSuspended => "Account suspended",
            RucaptchaErrorCode::BadParameters => "Bad parameters",
            RucaptchaErrorCode::BadImgInstructions => "Bad image instructions",
            RucaptchaErrorCode::BadProxy => "Bad proxy",
            RucaptchaErrorCode::Unknown => "Unknown error",
        }
    }

    /// The description, as an owned string.
    pub fn to_string(&self) -> (s: String)
        ensures
            s@ == rucaptcha_code_description(*self),
    {
        self.description().to_string()
    }
}

/// An error answer of the RuCaptcha API.
#[derive(Debug, Clone)]
pub struct RucaptchaApiError {
    pub error_id: u32,
    pub error_code: RucaptchaErrorCode,
    pub error_description: Option<String>,
}

impl RucaptchaApiError {
    /// The error message (the code is shown by its description).
    pub fn message(&self) -> (m: String)
        ensures
            m@ == api_error_text(
                "RuCaptcha"@,
                self.error_id,
                rucaptcha_code_description(self.error_code),
                opt_view(self.error_description),
            ),
    {
        let d: Option<&str> = match &self.error_description {
            Some(d) => Some(d.as_str()),
            None => None,
        };
        api_error_message("RuCaptcha", self.error_id, self.error_code.description(), d)
    }
}

} // verus!
