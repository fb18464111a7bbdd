//! Capsolver error codes and errors.

use vstd::prelude::*;
use std::time::Duration;
use crate::errors::{api_error_message, api_error_text, RetryableError, UnsupportedTaskError};
use crate::proxy::opt_view;
use crate::service::errors::ServiceError;
use crate::service::poll::{after_poll_spec, PollAction};
use crate::text::str_eq;
use crate::types::TaskId;

verus! {

/// Errors of the Capsolver provider.
#[derive(Debug)]
pub enum CapsolverError {
    /// The HTTP client could not be built.
    BuildHttpClient(reqwest::Error),
    /// The HTTP request failed.
    HttpRequest(reqwest_middleware::Error),
    /// The response could not be parsed.
    ParseResponse(reqwest::Error),
    /// Capsolver has no payload for the task.
    UnsupportedTask(UnsupportedTaskError),
    /// The API answered with an error.
    Api(CapsolverApiError),
    /// No solution arrived in time.
    SolutionTimeout { timeout: Duration, task_id: TaskId },
}

impl From<reqwest_middleware::Error> for CapsolverError {
    fn from(e: reqwest_middleware::Error) -> (r: Self) {
        CapsolverError::HttpRequest(e)
    }
}

impl vstd::std_specs::convert::FromSpecImpl<reqwest_middleware::Error> for CapsolverError {
    open spec fn obeys_from_spec() -> bool {
        true
    }

    open spec fn from_spec(e: reqwest_middleware::Error) -> CapsolverError {
        CapsolverError::HttpRequest(e)
    }
}

impl RetryableError for CapsolverError {
    /// Network failures and timeouts are transient; API errors go by their
    /// code; client construction, parsing failures and unsupported tasks are
    /// permanent.
    open spec fn retryable(&self) -> bool {
        match self {
            CapsolverError::Api(api) => capsolver_code_retryable(api.error_code),
            CapsolverError::BuildHttpClient(_)
            | CapsolverError::ParseResponse(_)
            | CapsolverError::UnsupportedTask(_) => false,
            CapsolverError::HttpRequest(_) | CapsolverError::SolutionTimeout { .. } => true,
        }
    }

    /// A fresh operation is worth trying exactly when the same one is.
    open spec fn operation_retryable(&self) -> bool {
        self.retryable()
    }

    fn is_retryable(&self) -> (r: bool) {
        if let CapsolverError::Api(api) = self {
            api.error_code.is_retryable()
        } else {
            !matches!(
                self,
                CapsolverError::BuildHttpClient(_) | CapsolverError::ParseResponse(_)
                    | CapsolverError::UnsupportedTask(_)
            )
        }
    }

    fn should_retry_operation(&self) -> (r: bool) {
        self.is_retryable()
    }
}

/// Known Capsolver API error codes.
#[derive(Debug, Clone, PartialEq, Eq)]
pub enum CapsolverErrorCode {
    BadRequest,
    CaptchaUnsolvable,
    InvalidImage,
    InvalidTaskData,
    IpBanned,
    KeyDeniedAccess,
    KeyTempBlocked,
    ParseImageFail,
    ProxyBanned,
    RateLimit,
    ServiceUnavailable,
    SettlementFailed,
    TaskIdInvalid,
    TaskNotFound,
    TaskNotSupported,
    TaskTimeout,
    UnknownQuestion,
    ZeroBalance,
    /// Any other code, kept as sent.
    Other(String),
}

/// The wire string of a code (Capsolver's own spelling of
/// "UNAVALIABLE" included).
pub open spec fn capsolver_code_str(c: CapsolverErrorCode) -> Seq<char> {
    match c {
        CapsolverErrorCode::BadRequest => "ERROR_BAD_REQUEST"@,
        CapsolverErrorCode::CaptchaUnsolvable => "ERROR_CAPTCHA_UNSOLVABLE"@,
        CapsolverErrorCode::InvalidImage => "ERROR_INVALID_IMAGE"@,
        CapsolverErrorCode::InvalidTaskData => "ERROR_INVALID_TASK_DATA"@,
        CapsolverErrorCode::IpBanned => "ERROR_IP_BANNED"@,
        CapsolverErrorCode::KeyDeniedAccess => "ERROR_KEY_DENIED_ACCESS"@,
        CapsolverErrorCode::KeyTempBlocked => "ERROR_KEY_TEMP_BLOCKED"@,
        CapsolverErrorCode::ParseImageFail => "ERROR_PARSE_IMAGE_FAIL"@,
        CapsolverErrorCode::ProxyBanned => "ERROR_PROXY_BANNED"@,
        CapsolverErrorCode::RateLimit => "ERROR_RATE_LIMIT"@,
        CapsolverErrorCode::ServiceUnavailable => "ERROR_SERVICE_UNAVALIABLE"@,
        CapsolverErrorCode::SettlementFailed => "ERROR_SETTLEMENT_FAILED"@,
        CapsolverErrorCode::TaskIdInvalid => "ERROR_TASKID_INVALID"@,
        CapsolverErrorCode::TaskNotFound => "ERROR_TASK_NOT_FOUND"@,
        CapsolverErrorCode::TaskNotSupported => "ERROR_TASK_NOT_SUPPORTED"@,
        CapsolverErrorCode::TaskTimeout => "ERROR_TASK_TIMEOUT"@,
        CapsolverErrorCode::UnknownQuestion => "ERROR_UNKNOWN_QUESTION"@,
        CapsolverErrorCode::ZeroBalance => "ERROR_ZERO_BALANCE"@,
        CapsolverErrorCode::Other(code) => code@,
    }
}

/// The known code a wire string names, if any.
pub open spec fn capsolver_known_code(s: Seq<char>) -> Option<CapsolverErrorCode> {
    if s == capsolver_code_str(CapsolverErrorCode::BadRequest) {
        Some(CapsolverErrorCode::BadRequest)
    } else if s == capsolver_code_str(CapsolverErrorCode::CaptchaUnsolvable) {
        Some(CapsolverErrorCode::CaptchaUnsolvable)
    } else if s == capsolver_code_str(CapsolverErrorCode::InvalidImage) {
        Some(CapsolverErrorCode::InvalidImage)
    } else if s == capsolver_code_str(CapsolverErrorCode::InvalidTaskData) {
        Some(CapsolverErrorCode::InvalidTaskData)
    } else if s == capsolver_code_str(CapsolverErrorCode::IpBanned) {
        Some(CapsolverErrorCode::IpBanned)
    } else if s == capsolver_code_str(CapsolverErrorCode::KeyDeniedAccess) {
        Some(CapsolverErrorCode::KeyDeniedAccess)
    } else if s == capsolver_code_str(CapsolverErrorCode::KeyTempBlocked) {
        Some(CapsolverErrorCode::KeyTempBlocked)
    } else if s == capsolver_code_str(CapsolverErrorCode::ParseImageFail) {
        Some(CapsolverErrorCode::ParseImageFail)
    } else if s == capsolver_code_str(CapsolverErrorCode::ProxyBanned) {
        Some(CapsolverErrorCode::ProxyBanned)
    } else if s == capsolver_code_str(CapsolverErrorCode::RateLimit) {
        Some(CapsolverErrorCode::RateLimit)
    } else if s == capsolver_code_str(CapsolverErrorCode::ServiceUnavailable) {
        Some(CapsolverErrorCode::ServiceUnavailable)
    } else if s == capsolver_code_str(CapsolverErrorCode::SettlementFailed) {
        Some(CapsolverErrorCode::SettlementFailed)
    } else if s == capsolver_code_str(CapsolverErrorCode::TaskIdInvalid) {
        Some(CapsolverErrorCode::TaskIdInvalid)
    } else if s == capsolver_code_str(CapsolverErrorCode::TaskNotFound) {
        Some(CapsolverErrorCode::TaskNotFound)
    } else if s == capsolver_code_str(CapsolverErrorCode::TaskNotSupported) {
        Some(CapsolverErrorCode::TaskNotSupported)
    } else if s == capsolver_code_str(CapsolverErrorCode::TaskTimeout) {
        Some(CapsolverErrorCode::TaskTimeout)
    } else if s == capsolver_code_str(CapsolverErrorCode::UnknownQuestion) {
        Some(CapsolverErrorCode::UnknownQuestion)
    } else if s == capsolver_code_str(CapsolverErrorCode::ZeroBalance) {
        Some(CapsolverErrorCode::ZeroBalance)
    } else {
        None
    }

}

/// Whether a code is a transient failure worth retrying.
pub open spec fn capsolver_code_retryable(c: CapsolverErrorCode) -> bool {
    ||| c == CapsolverErrorCode::IpBanned
    ||| c == CapsolverErrorCode::KeyTempBlocked
    ||| c == CapsolverErrorCode::RateLimit
    ||| c == CapsolverErrorCode::ServiceUnavailable
    ||| c == CapsolverErrorCode::TaskNotFound
}

/// A poll that Capsolver answers with an API error is made again exactly
/// when the code is a transient one: the service unavailable, the rate
/// limit, a banned IP, a temporarily blocked key or a task not found. Any
/// other code, known or not (an unsolvable captcha, a task timeout, an empty
/// balance among them), ends the solve with that error, which is then
/// retryable neither with the same task nor as a fresh solve.
pub proof fn law_capsolver_poll_error<S>(api: CapsolverApiError)
    ensures
        (after_poll_spec::<S, CapsolverError>(Err(CapsolverError::Api(api))) is Continue) <==> (
        api.error_code == CapsolverErrorCode::ServiceUnavailable || api.error_code
            == CapsolverErrorCode::RateLimit || api.error_code == CapsolverErrorCode::IpBanned
            || api.error_code == CapsolverErrorCode::KeyTempBlocked || api.error_code
            == CapsolverErrorCode::TaskNotFound),
        !(after_poll_spec::<S, CapsolverError>(Err(CapsolverError::Api(api))) is Continue)
            ==> after_poll_spec::<S, CapsolverError>(Err(CapsolverError::Api(api))) == (
        PollAction::<S, CapsolverError>::Done(
            Err(
                ServiceError::Provider {
                    source: CapsolverError::Api(api),
                    is_retryable: false,
                    should_retry_operation: false,
                },
            ),
        )),
{
}

/// A short fingerprint of a wire string: its length and its character at
/// index 12, which already tells the known codes apart.
pub open spec fn wire_fingerprint(s: Seq<char>) -> (int, char) {
    (s.len() as int, s[12])
}

/// The fingerprint of each known code's wire string.
pub open spec fn capsolver_fingerprint(c: CapsolverErrorCode) -> (int, char) {
    match c {
        CapsolverErrorCode::BadRequest => (17, 'Q'),
        CapsolverErrorCode::CaptchaUnsolvable => (24, 'A'),
        CapsolverErrorCode::InvalidImage => (19, 'D'),
        CapsolverErrorCode::InvalidTaskData => (23, 'D'),
        CapsolverErrorCode::IpBanned => (15, 'N'),
        CapsolverErrorCode::KeyDeniedAccess => (23, 'N'),
        CapsolverErrorCode::KeyTempBlocked => (22, 'M'),
        CapsolverErrorCode::ParseImageFail => (22, 'I'),
        CapsolverErrorCode::ProxyBanned => (18, 'B'),
        CapsolverErrorCode::RateLimit => (16, 'I'),
        CapsolverErrorCode::ServiceUnavailable => (25, 'E'),
        CapsolverErrorCode::SettlementFailed => (23, 'M'),
        CapsolverErrorCode::TaskIdInvalid => (20, '_'),
        CapsolverErrorCode::TaskNotFound => (20, 'O'),
        CapsolverErrorCode::TaskNotSupported => (24, 'O'),
        CapsolverErrorCode::TaskTimeout => (18, 'I'),
        CapsolverErrorCode::UnknownQuestion => (22, 'N'),
        CapsolverErrorCode::ZeroBalance => (18, 'A'),
        CapsolverErrorCode::Other(_) => (0, ' '),
    }
}

proof fn lemma_capsolver_fingerprint(c: CapsolverErrorCode)
    ensures
        !(c is Other) ==> wire_fingerprint(capsolver_code_str(c)) == capsolver_fingerprint(c),
{
    match c {
        CapsolverErrorCode::BadRequest => reveal_strlit("ERROR_BAD_REQUEST"),
        CapsolverErrorCode::CaptchaUnsolvable => reveal_strlit("ERROR_CAPTCHA_UNSOLVABLE"),
        CapsolverErrorCode::InvalidImage => reveal_strlit("ERROR_INVALID_IMAGE"),
        CapsolverErrorCode::InvalidTaskData => reveal_strlit("ERROR_INVALID_TASK_DATA"),
        CapsolverErrorCode::IpBanned => reveal_strlit("ERROR_IP_BANNED"),
        CapsolverErrorCode::KeyDeniedAccess => reveal_strlit("ERROR_KEY_DENIED_ACCESS"),
        CapsolverErrorCode::KeyTempBlocked => reveal_strlit("ERROR_KEY_TEMP_BLOCKED"),
        CapsolverErrorCode::ParseImageFail => reveal_strlit("ERROR_PARSE_IMAGE_FAIL"),
        CapsolverErrorCode::ProxyBanned => reveal_strlit("ERROR_PROXY_BANNED"),
        CapsolverErrorCode::RateLimit => reveal_strlit("ERROR_RATE_LIMIT"),
        CapsolverErrorCode::ServiceUnavailable => reveal_strlit("ERROR_SERVICE_UNAVALIABLE"),
        CapsolverErrorCode::SettlementFailed => reveal_strlit("ERROR_SETTLEMENT_FAILED"),
        CapsolverErrorCode::TaskIdInvalid => reveal_strlit("ERROR_TASKID_INVALID"),
        CapsolverErrorCode::TaskNotFound => reveal_strlit("ERROR_TASK_NOT_FOUND"),
        CapsolverErrorCode::TaskNotSupported => reveal_strlit("ERROR_TASK_NOT_SUPPORTED"),
        CapsolverErrorCode::TaskTimeout => reveal_strlit("ERROR_TASK_TIMEOUT"),
        CapsolverErrorCode::UnknownQuestion => reveal_strlit("ERROR_UNKNOWN_QUESTION"),
        CapsolverErrorCode::ZeroBalance => reveal_strlit("ERROR_ZERO_BALANCE"),
        CapsolverErrorCode::Other(_) => {},
    }
}

/// Distinct known codes have distinct wire strings.
pub proof fn lemma_capsolver_code_strs_distinct()
    ensures
        forall|a: CapsolverErrorCode, b: CapsolverErrorCode|
            !(a is Other) && !(b is Other) && a != b ==> #[trigger] capsolver_code_str(a) != #[trigger] capsolver_code_str(
                b,
            ),
{
    assert forall|a: CapsolverErrorCode, b: CapsolverErrorCode|
        !(a is Other) && !(b is Other) && a != b implies #[trigger] capsolver_code_str(a)
            != #[trigger] capsolver_code_str(b) by {
        lemma_capsolver_fingerprint(a);
        lemma_capsolver_fingerprint(b);
    }
}

/// Every known code reads back as itself from its wire string.
pub proof fn law_capsolver_code_round_trip(c: CapsolverErrorCode)
    ensures
        !(c is Other) ==> capsolver_known_code(capsolver_code_str(c)) == Some(c),
{
    lemma_capsolver_code_strs_distinct();
}

/// A wire string that names a known code is that code's wire string, so
/// reading a code and writing it back gives the same text.
pub proof fn law_capsolver_str_round_trip(s: Seq<char>)
    ensures
        match capsolver_known_code(s) {
            Some(k) => capsolver_code_str(k) == s,
            None => true,
        },
{
}

impl CapsolverErrorCode {
    /// The wire string of the code.
    pub fn as_str(&self) -> (s: &str)
        ensures
            s@ == capsolver_code_str(*self),
    {
        match self {
            CapsolverErrorCode::BadRequest => "ERROR_BAD_REQUEST",
            CapsolverErrorCode::CaptchaUnsolvable => "ERROR_CAPTCHA_UNSOLVABLE",
            CapsolverErrorCode::InvalidImage => "ERROR_INVALID_IMAGE",
            CapsolverErrorCode::InvalidTaskData => "ERROR_INVALID_TASK_DATA",
            CapsolverErrorCode::IpBanned => "ERROR_IP_BANNED",
            CapsolverErrorCode::KeyDeniedAccess => "ERROR_KEY_DENIED_ACCESS",
            CapsolverErrorCode::KeyTempBlocked => "ERROR_KEY_TEMP_BLOCKED",
            CapsolverErrorCode::ParseImageFail => "ERROR_PARSE_IMAGE_FAIL",
            CapsolverErrorCode::ProxyBanned => "ERROR_PROXY_BANNED",
            CapsolverErrorCode::RateLimit => "ERROR_RATE_LIMIT",
            CapsolverErrorCode::ServiceUnavailable => "ERROR_SERVICE_UNAVALIABLE",
            CapsolverErrorCode::SettlementFailed => "ERROR_SETTLEMENT_FAILED",
            CapsolverErrorCode::TaskIdInvalid => "ERROR_TASKID_INVALID",
            CapsolverErrorCode::TaskNotFound => "ERROR_TASK_NOT_FOUND",
            CapsolverErrorCode::TaskNotSupported => "ERROR_TASK_NOT_SUPPORTED",
            CapsolverErrorCode::TaskTimeout => "ERROR_TASK_TIMEOUT",
            CapsolverErrorCode::UnknownQuestion => "ERROR_UNKNOWN_QUESTION",
            CapsolverErrorCode::ZeroBalance => "ERROR_ZERO_BALANCE",
            CapsolverErrorCode::Other(code) => code.as_str(),
        }
    }

    /// The code a wire string names; unknown strings are kept in `Other`.
    pub fn from_str(s: &str) -> (c: Self)
        ensures
            match capsolver_known_code(s@) {
                Some(k) => c == k,
                None => c matches CapsolverErrorCode::Other(x) && x@ == s@,
            },
    {
        if str_eq(s, "ERROR_BAD_REQUEST") {
            CapsolverErrorCode::BadRequest
        } else if str_eq(s, "ERROR_CAPTCHA_UNSOLVABLE") {
            CapsolverErrorCode::CaptchaUnsolvable
        } else if str_eq(s, "ERROR_INVALID_IMAGE") {
            CapsolverErrorCode::InvalidImage
        } else if str_eq(s, "ERROR_INVALID_TASK_DATA") {
            CapsolverErrorCode::InvalidTaskData
        } else if str_eq(s, "ERROR_IP_BANNED") {
            CapsolverErrorCode::IpBanned
        } else if str_eq(s, "ERROR_KEY_DENIED_ACCESS") {
            CapsolverErrorCode::KeyDeniedAccess
        } else if str_eq(s, "ERROR_KEY_TEMP_BLOCKED") {
            CapsolverErrorCode::KeyTempBlocked
        } else if str_eq(s, "ERROR_PARSE_IMAGE_FAIL") {
            CapsolverErrorCode::ParseImageFail
        } else if str_eq(s, "ERROR_PROXY_BANNED") {
            CapsolverErrorCode::ProxyBanned
        } else if str_eq(s, "ERROR_RATE_LIMIT") {
            CapsolverErrorCode::RateLimit
        } else if str_eq(s, "ERROR_SERVICE_UNAVALIABLE") {
            CapsolverErrorCode::ServiceUnavailable
        } else if str_eq(s, "ERROR_SETTLEMENT_FAILED") {
            CapsolverErrorCode::SettlementFailed
        } else if str_eq(s, "ERROR_TASKID_INVALID") {
            CapsolverErrorCode::TaskIdInvalid
        } else if str_eq(s, "ERROR_TASK_NOT_FOUND") {
            CapsolverErrorCode::TaskNotFound
        } else if str_eq(s, "ERROR_TASK_NOT_SUPPORTED") {
            CapsolverErrorCode::TaskNotSupported
        } else if str_eq(s, "ERROR_TASK_TIMEOUT") {
            CapsolverErrorCode::TaskTimeout
        } else if str_eq(s, "ERROR_UNKNOWN_QUESTION") {
            CapsolverErrorCode::UnknownQuestion
        } else if str_eq(s, "ERROR_ZERO_BALANCE") {
            CapsolverErrorCode::ZeroBalance
        } else {
            CapsolverErrorCode::Other(s.to_string())
        }
    }

    /// Whether the code is a transient failure worth retrying.
    pub fn is_retryable(&self) -> (r: bool)
        ensures
            r == capsolver_code_retryable(*self),
    {
        matches!(
            self,
            CapsolverErrorCode::IpBanned | CapsolverErrorCode::KeyTempBlocked
                | CapsolverErrorCode::RateLimit | CapsolverErrorCode::ServiceUnavailable
                | CapsolverErrorCode::TaskNotFound
        )
    }
}

/// An error answer of the Capsolver API.
#[derive(Debug, Clone)]
pub struct CapsolverApiError {
    pub error_id: u32,
    pub error_code: CapsolverErrorCode,
    pub error_description: Option<String>,
}

impl CapsolverApiError {
    /// The error message.
    pub fn message(&self) -> (m: String)
        ensures
            m@ == api_error_text(
                "Capsolver"@,
                self.error_id,
                capsolver_code_str(self.error_code),
                opt_view(self.error_description),
            ),
    {
        let d: Option<&str> = match &self.error_description {
            Some(d) => Some(d.as_str()),
            None => None,
        };
        api_error_message("Capsolver", self.error_id, self.error_code.as_str(), d)
    }
}

} // verus!
