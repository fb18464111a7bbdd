//! CapMonster Cloud error codes and errors.

use vstd::prelude::*;
use std::time::Duration;
use crate::errors::{api_error_message, api_error_text, RetryableError, UnsupportedTaskError};
use crate::proxy::opt_view;
use crate::service::errors::ServiceError;
use crate::service::poll::{after_poll_spec, PollAction};
use crate::text::str_eq;
use crate::types::TaskId;

verus! {

/// Errors of the CapMonster provider.
#[derive(Debug)]
pub enum CapmonsterError {
    /// The HTTP client could not be built.
    BuildHttpClient(reqwest::Error),
    /// The HTTP request failed.
    HttpRequest(reqwest_middleware::Error),
    /// The response could not be parsed.
    ParseResponse(reqwest::Error),
    /// The API answered with an error.
    Api(CapmonsterApiError),
    /// CapMonster cannot take the task.
    UnsupportedTask(UnsupportedTaskError),
    /// The task payload breaks one of CapMonster's rules.
    InvalidTaskData(String),
    /// No solution arrived in time.
    SolutionTimeout { timeout: Duration, task_id: TaskId },
}

impl From<reqwest_middleware::Error> for CapmonsterError {
    fn from(e: reqwest_middleware::Error) -> (r: Self) {
        CapmonsterError::HttpRequest(e)
    }
}

impl vstd::std_specs::convert::FromSpecImpl<reqwest_middleware::Error> for CapmonsterError {
    open spec fn obeys_from_spec() -> bool {
        true
    }

    open spec fn from_spec(e: reqwest_middleware::Error) -> CapmonsterError {
        CapmonsterError::HttpRequest(e)
    }
}

impl RetryableError for CapmonsterError {
    /// Network failures are transient; API errors go by their code; the rest
    /// (timeouts included: the task has expired) is not.
    open spec fn retryable(&self) -> bool {
        match self {
            CapmonsterError::HttpRequest(_) => true,
            CapmonsterError::Api(e) => capmonster_code_retryable(e.error_code),
            _ => false,
        }
    }

    /// Network failures and timeouts are worth a fresh task; API errors go by
    /// their code; the rest is permanent.
    open spec fn operation_retryable(&self) -> bool {
        match self {
            CapmonsterError::HttpRequest(_) => true,
            CapmonsterError::Api(e) => capmonster_code_operation_retryable(e.error_code),
            CapmonsterError::SolutionTimeout { .. } => true,
            _ => false,
        }
    }

    fn is_retryable(&self) -> (r: bool) {
        match self {
            CapmonsterError::HttpRequest(_) => true,
            CapmonsterError::Api(e) => e.error_code.is_retryable(),
            CapmonsterError::BuildHttpClient(_)
            | CapmonsterError::ParseResponse(_)
            | CapmonsterError::UnsupportedTask(_)
            | CapmonsterError::InvalidTaskData(_)
            | CapmonsterError::SolutionTimeout { .. } => false,
        }
    }

    fn should_retry_operation(&self) -> (r: bool) {
        match self {
            CapmonsterError::HttpRequest(_) => true,
            CapmonsterError::Api(e) => e.error_code.should_retry_operation(),
            CapmonsterError::SolutionTimeout { .. } => true,
            CapmonsterError::BuildHttpClient(_)
            | CapmonsterError::ParseResponse(_)
            | CapmonsterError::UnsupportedTask(_)
            | CapmonsterError::InvalidTaskData(_) => false,
        }
    }
}

/// Known CapMonster API error codes.
#[derive(Debug, Clone, PartialEq, Eq)]
pub enum CapmonsterErrorCode {
    ServiceUnavailable,
    RateLimit,
    IpBanned,
    KeyTempBlocked,
    NoSlotAvailable,
    KeyDoesNotExist,
    ZeroBalance,
    KeyDeniedAccess,
    BadParameters,
    BadProxy,
    InvalidTaskData,
    BadRequest,
    TaskIdInvalid,
    TaskNotFound,
    TaskNotSupported,
    TaskTimeout,
    CaptchaUnsolvable,
    /// Any other code, kept as sent.
    Other(String),
}

/// The wire string of a code.
pub open spec fn capmonster_code_str(c: CapmonsterErrorCode) -> Seq<char> {
    match c {
        CapmonsterErrorCode::ServiceUnavailable => "ERROR_SERVICE_UNAVAILABLE"@,
        CapmonsterErrorCode::RateLimit => "ERROR_RATE_LIMIT"@,
        CapmonsterErrorCode::IpBanned => "ERROR_IP_BANNED"@,
        CapmonsterErrorCode::KeyTempBlocked => "ERROR_KEY_TEMP_BLOCKED"@,
        CapmonsterErrorCode::NoSlotAvailable => "ERROR_NO_SLOT_AVAILABLE"@,
        CapmonsterErrorCode::KeyDoesNotExist => "ERROR_KEY_DOES_NOT_EXIST"@,
        CapmonsterErrorCode::ZeroBalance => "ERROR_ZERO_BALANCE"@,
        CapmonsterErrorCode::KeyDeniedAccess => "ERROR_KEY_DENIED_ACCESS"@,
        CapmonsterErrorCode::BadParameters => "ERROR_BAD_PARAMETERS"@,
        CapmonsterErrorCode::BadProxy => "ERROR_BAD_PROXY"@,
        CapmonsterErrorCode::InvalidTaskData => "ERROR_INVALID_TASK_DATA"@,
        CapmonsterErrorCode::BadRequest => "ERROR_BAD_REQUEST"@,
        CapmonsterErrorCode::TaskIdInvalid => "ERROR_TASKID_INVALID"@,
        CapmonsterErrorCode::TaskNotFound => "ERROR_TASK_NOT_FOUND"@,
        CapmonsterErrorCode::TaskNotSupported => "ERROR_TASK_NOT_SUPPORTED"@,
        CapmonsterErrorCode::TaskTimeout => "ERROR_TASK_TIMEOUT"@,
        CapmonsterErrorCode::CaptchaUnsolvable => "ERROR_CAPTCHA_UNSOLVABLE"@,
        CapmonsterErrorCode::Other(code) => code@,
    }
}

/// The known code a wire string names, if any; Capsolver's misspelling
/// "ERROR_SERVICE_UNAVALIABLE" is taken as well.
pub open spec fn capmonster_known_code(s: Seq<char>) -> Option<CapmonsterErrorCode> {
    if s == capmonster_code_str(CapmonsterErrorCode::ServiceUnavailable) || s == "ERROR_SERVICE_UNAVALIABLE"@ {
        Some(CapmonsterErrorCode::ServiceUnavailable)
    } else if s == capmonster_code_str(CapmonsterErrorCode::RateLimit) {
        Some(CapmonsterErrorCode::RateLimit)
    } else if s == capmonster_code_str(CapmonsterErrorCode::IpBanned) {
        Some(CapmonsterErrorCode::IpBanned)
    } else if s == capmonster_code_str(CapmonsterErrorCode::KeyTempBlocked) {
        Some(CapmonsterErrorCode::KeyTempBlocked)
    } else if s == capmonster_code_str(CapmonsterErrorCode::NoSlotAvailable) {
        Some(CapmonsterErrorCode::NoSlotAvailable)
    } else if s == capmonster_code_str(CapmonsterErrorCode::KeyDoesNotExist) {
        Some(CapmonsterErrorCode::KeyDoesNotExist)
    } else if s == capmonster_code_str(CapmonsterErrorCode::ZeroBalance) {
        Some(CapmonsterErrorCode::ZeroBalance)
    } else if s == capmonster_code_str(CapmonsterErrorCode::KeyDeniedAccess) {
        Some(CapmonsterErrorCode::KeyDeniedAccess)
    } else if s == capmonster_code_str(CapmonsterErrorCode::BadParameters) {
        Some(CapmonsterErrorCode::BadParameters)
    } else if s == capmonster_code_str(CapmonsterErrorCode::BadProxy) {
        Some(CapmonsterErrorCode::BadProxy)
    } else if s == capmonster_code_str(CapmonsterErrorCode::InvalidTaskData) {
        Some(CapmonsterErrorCode::InvalidTaskData)
    } else if s == capmonster_code_str(CapmonsterErrorCode::BadRequest) {
        Some(CapmonsterErrorCode::BadRequest)
    } else if s == capmonster_code_str(CapmonsterErrorCode::TaskIdInvalid) {
        Some(CapmonsterErrorCode::TaskIdInvalid)
    } else if s == capmonster_code_str(CapmonsterErrorCode::TaskNotFound) {
        Some(CapmonsterErrorCode::TaskNotFound)
    } else if s == capmonster_code_str(CapmonsterErrorCode::TaskNotSupported) {
        Some(CapmonsterErrorCode::TaskNotSupported)
    } else if s == capmonster_code_str(CapmonsterErrorCode::TaskTimeout) {
        Some(CapmonsterErrorCode::TaskTimeout)
    } else if s == capmonster_code_str(CapmonsterErrorCode::CaptchaUnsolvable) {
        Some(CapmonsterErrorCode::CaptchaUnsolvable)
    } else {
        None
    }
}

/// Whether the same request may be retried: the transient server-side codes.
pub open spec fn capmonster_code_retryable(c: CapmonsterErrorCode) -> bool {
    match c {
        CapmonsterErrorCode::ServiceUnavailable
        | CapmonsterErrorCode::RateLimit
        | CapmonsterErrorCode::IpBanned
        | CapmonsterErrorCode::KeyTempBlocked
        | CapmonsterErrorCode::NoSlotAvailable => true,
        _ => false,
    }
}

/// Whether a fresh task may succeed: the transient codes, and the task-level
/// failures (task lost, timed out or unsolvable).
pub open spec fn capmonster_code_operation_retryable(c: CapmonsterErrorCode) -> bool {
    capmonster_code_retryable(c) || match c {
        CapmonsterErrorCode::TaskNotFound
        | CapmonsterErrorCode::TaskTimeout
        | CapmonsterErrorCode::CaptchaUnsolvable => true,
        _ => false,
    }
}

/// A poll that CapMonster answers with an API error is made again exactly
/// when the code is a transient one: the service unavailable, the rate
/// limit, a banned IP, a temporarily blocked key or no free slot. Any other
/// code ends the solve with that error; a fresh solve is then worth trying
/// exactly when the task was lost, timed out or found unsolvable.
pub proof fn law_capmonster_poll_error<S>(api: CapmonsterApiError)
    ensures
        (after_poll_spec::<S, CapmonsterError>(Err(CapmonsterError::Api(api))) is Continue) <==> (
        api.error_code == CapmonsterErrorCode::ServiceUnavailable || api.error_code
            == CapmonsterErrorCode::RateLimit || api.error_code == CapmonsterErrorCode::IpBanned
            || api.error_code == CapmonsterErrorCode::KeyTempBlocked || api.error_code
            == CapmonsterErrorCode::NoSlotAvailable),
        !(after_poll_spec::<S, CapmonsterError>(Err(CapmonsterError::Api(api))) is Continue)
            ==> after_poll_spec::<S, CapmonsterError>(Err(CapmonsterError::Api(api))) == (
        PollAction::<S, CapmonsterError>::Done(
            Err(
                ServiceError::Provider {
                    source: CapmonsterError::Api(api),
                    is_retryable: false,
                    should_retry_operation: api.error_code == CapmonsterErrorCode::TaskNotFound
                        || api.error_code == CapmonsterErrorCode::TaskTimeout || api.error_code
                        == CapmonsterErrorCode::CaptchaUnsolvable,
                },
            ),
        )),
{
}

/// A short fingerprint of a wire string: its length and its character at
/// index 11, which already tells the known codes apart.
pub open spec fn wire_fingerprint(s: Seq<char>) -> (int, char) {
    (s.len() as int, s[11])
}

/// The fingerprint of each known code's wire string.
pub open spec fn capmonster_fingerprint(c: CapmonsterErrorCode) -> (int, char) {
    match c {
        CapmonsterErrorCode::ServiceUnavailable => (25, 'C'),
        CapmonsterErrorCode::RateLimit => (16, 'L'),
        CapmonsterErrorCode::IpBanned => (15, 'N'),
        CapmonsterErrorCode::KeyTempBlocked => (22, 'E'),
        CapmonsterErrorCode::NoSlotAvailable => (23, 'O'),
        CapmonsterErrorCode::KeyDoesNotExist => (24, 'O'),
        CapmonsterErrorCode::ZeroBalance => (18, 'B'),
        CapmonsterErrorCode::KeyDeniedAccess => (23, 'E'),
        CapmonsterErrorCode::BadParameters => (20, 'A'),
        CapmonsterErrorCode::BadProxy => (15, 'R'),
        CapmonsterErrorCode::InvalidTaskData => (23, 'I'),
        CapmonsterErrorCode::BadRequest => (17, 'E'),
        CapmonsterErrorCode::TaskIdInvalid => (20, 'D'),
        CapmonsterErrorCode::TaskNotFound => (20, 'N'),
        CapmonsterErrorCode::TaskNotSupported => (24, 'N'),
        CapmonsterErrorCode::TaskTimeout => (18, 'T'),
        CapmonsterErrorCode::CaptchaUnsolvable => (24, 'H'),
        CapmonsterErrorCode::Other(_) => (0, ' '),
    }
}

proof fn lemma_capmonster_fingerprint(c: CapmonsterErrorCode)
    ensures
        !(c is Other) ==> wire_fingerprint(capmonster_code_str(c)) == capmonster_fingerprint(c),
{
    match c {
        CapmonsterErrorCode::ServiceUnavailable => reveal_strlit("ERROR_SERVICE_UNAVAILABLE"),
        CapmonsterErrorCode::RateLimit => reveal_strlit("ERROR_RATE_LIMIT"),
        CapmonsterErrorCode::IpBanned => reveal_strlit("ERROR_IP_BANNED"),
        CapmonsterErrorCode::KeyTempBlocked => reveal_strlit("ERROR_KEY_TEMP_BLOCKED"),
        CapmonsterErrorCode::NoSlotAvailable => reveal_strlit("ERROR_NO_SLOT_AVAILABLE"),
        CapmonsterErrorCode::KeyDoesNotExist => reveal_strlit("ERROR_KEY_DOES_NOT_EXIST"),
        CapmonsterErrorCode::ZeroBalance => reveal_strlit("ERROR_ZERO_BALANCE"),
        CapmonsterErrorCode::KeyDeniedAccess => reveal_strlit("ERROR_KEY_DENIED_ACCESS"),
        CapmonsterErrorCode::BadParameters => reveal_strlit("ERROR_BAD_PARAMETERS"),
        CapmonsterErrorCode::BadProxy => reveal_strlit("ERROR_BAD_PROXY"),
        CapmonsterErrorCode::InvalidTaskData => reveal_strlit("ERROR_INVALID_TASK_DATA"),
        CapmonsterErrorCode::BadRequest => reveal_strlit("ERROR_BAD_REQUEST"),
        CapmonsterErrorCode::TaskIdInvalid => reveal_strlit("ERROR_TASKID_INVALID"),
        CapmonsterErrorCode::TaskNotFound => reveal_strlit("ERROR_TASK_NOT_FOUND"),
        CapmonsterErrorCode::TaskNotSupported => reveal_strlit("ERROR_TASK_NOT_SUPPORTED"),
        CapmonsterErrorCode::TaskTimeout => reveal_strlit("ERROR_TASK_TIMEOUT"),
        CapmonsterErrorCode::CaptchaUnsolvable => reveal_strlit("ERROR_CAPTCHA_UNSOLVABLE"),
        CapmonsterErrorCode::Other(_) => {},
    }
}

/// Distinct known codes have distinct wire strings.
pub proof fn lemma_capmonster_code_strs_distinct()
    ensures
        forall|a: CapmonsterErrorCode, b: CapmonsterErrorCode|
            !(a is Other) && !(b is Other) && a != b ==> #[trigger] capmonster_code_str(a) != #[trigger] capmonster_code_str(
                b,
            ),
        forall|c: CapmonsterErrorCode|
            !(c is Other) && c != CapmonsterErrorCode::ServiceUnavailable ==> #[trigger] capmonster_code_str(c) != "ERROR_SERVICE_UNAVALIABLE"@,
{
    assert forall|a: CapmonsterErrorCode, b: CapmonsterErrorCode|
        !(a is Other) && !(b is Other) && a != b implies #[trigger] capmonster_code_str(a)
            != #[trigger] capmonster_code_str(b) by {
        lemma_capmonster_fingerprint(a);
        lemma_capmonster_fingerprint(b);
    }
    reveal_strlit("ERROR_SERVICE_UNAVALIABLE");
    assert(wire_fingerprint("ERROR_SERVICE_UNAVALIABLE"@) == (25int, 'C'));
    assert forall|c: CapmonsterErrorCode|
        !(c is Other) && c != CapmonsterErrorCode::ServiceUnavailable implies #[trigger] capmonster_code_str(c) != "ERROR_SERVICE_UNAVALIABLE"@ by {
        lemma_capmonster_fingerprint(c);
    }
}

/// Every known code reads back as itself from its wire string.
pub proof fn law_capmonster_code_round_trip(c: CapmonsterErrorCode)
    ensures
        !(c is Other) ==> capmonster_known_code(capmonster_code_str(c)) == Some(c),
{
    lemma_capmonster_code_strs_distinct();
}

/// A wire string that names a known code is that code's wire string, except
/// the misspelling "ERROR_SERVICE_UNAVALIABLE", which is read as
/// `ServiceUnavailable` and written back correctly spelled.
pub proof fn law_capmonster_str_round_trip(s: Seq<char>)
    requires
        s != "ERROR_SERVICE_UNAVALIABLE"@,
    ensures
        match capmonster_known_code(s) {
            Some(k) => capmonster_code_str(k) == s,
            None => true,
        },
{
}

/// A code that may be retried with the same task may also be retried with a
/// fresh one.
pub proof fn law_capmonster_code_retry_levels(c: CapmonsterErrorCode)
    ensures
        capmonster_code_retryable(c) ==> capmonster_code_operation_retryable(c),
{
}

/// The same holds of every CapMonster error.
pub proof fn law_capmonster_error_retry_levels(e: CapmonsterError)
    ensures
        e.retryable() ==> e.operation_retryable(),
{
}

impl CapmonsterErrorCode {
    /// The wire string of the code.
    pub fn as_str(&self) -> (s: &str)
        ensures
            s@ == capmonster_code_str(*self),
    {
        match self {
            CapmonsterErrorCode::ServiceUnavailable => "ERROR_SERVICE_UNAVAILABLE",
            CapmonsterErrorCode::RateLimit => "ERROR_RATE_LIMIT",
            CapmonsterErrorCode::IpBanned => "ERROR_IP_BANNED",
            CapmonsterErrorCode::KeyTempBlocked => "ERROR_KEY_TEMP_BLOCKED",
            CapmonsterErrorCode::NoSlotAvailable => "ERROR_NO_SLOT_AVAILABLE",
            CapmonsterErrorCode::KeyDoesNotExist => "ERROR_KEY_DOES_NOT_EXIST",
            CapmonsterErrorCode::ZeroBalance => "ERROR_ZERO_BALANCE",
            CapmonsterErrorCode::KeyDeniedAccess => "ERROR_KEY_DENIED_ACCESS",
            CapmonsterErrorCode::BadParameters => "ERROR_BAD_PARAMETERS",
            CapmonsterErrorCode::BadProxy => "ERROR_BAD_PROXY",
            CapmonsterErrorCode::InvalidTaskData => "ERROR_INVALID_TASK_DATA",
            CapmonsterErrorCode::BadRequest => "ERROR_BAD_REQUEST",
            CapmonsterErrorCode::TaskIdInvalid => "ERROR_TASKID_INVALID",
            CapmonsterErrorCode::TaskNotFound => "ERROR_TASK_NOT_FOUND",
            CapmonsterErrorCode::TaskNotSupported => "ERROR_TASK_NOT_SUPPORTED",
            CapmonsterErrorCode::TaskTimeout => "ERROR_TASK_TIMEOUT",
            CapmonsterErrorCode::CaptchaUnsolvable => "ERROR_CAPTCHA_UNSOLVABLE",
            CapmonsterErrorCode::Other(code) => code.as_str(),
        }
    }

    /// The code a wire string names; unknown strings are kept in `Other`.
    pub fn from_str(s: &str) -> (c: Self)
        ensures
            match capmonster_known_code(s@) {
                Some(k) => c == k,
                None => c matches CapmonsterErrorCode::Other(x) && x@ == s@,
            },
    {
        if str_eq(s, "ERROR_SERVICE_UNAVAILABLE") || str_eq(s, "ERROR_SERVICE_UNAVALIABLE") {
            CapmonsterErrorCode::ServiceUnavailable
        } else if str_eq(s, "ERROR_RATE_LIMIT") {
            CapmonsterErrorCode::RateLimit
        } else if str_eq(s, "ERROR_IP_BANNED") {
            CapmonsterErrorCode::IpBanned
        } else if str_eq(s, "ERROR_KEY_TEMP_BLOCKED") {
            CapmonsterErrorCode::KeyTempBlocked
        } else if str_eq(s, "ERROR_NO_SLOT_AVAILABLE") {
            CapmonsterErrorCode::NoSlotAvailable
        } else if str_eq(s, "ERROR_KEY_DOES_NOT_EXIST") {
            CapmonsterErrorCode::KeyDoesNotExist
        } else if str_eq(s, "ERROR_ZERO_BALANCE") {
            CapmonsterErrorCode::ZeroBalance
        } else if str_eq(s, "ERROR_KEY_DENIED_ACCESS") {
            CapmonsterErrorCode::KeyDeniedAccess
        } else if str_eq(s, "ERROR_BAD_PARAMETERS") {
            CapmonsterErrorCode::BadParameters
        } else if str_eq(s, "ERROR_BAD_PROXY") {
            CapmonsterErrorCode::BadProxy
        } else if str_eq(s, "ERROR_INVALID_TASK_DATA") {
            CapmonsterErrorCode::InvalidTaskData
        } else if str_eq(s, "ERROR_BAD_REQUEST") {
            CapmonsterErrorCode::BadRequest
        } else if str_eq(s, "ERROR_TASKID_INVALID") {
            CapmonsterErrorCode::TaskIdInvalid
        } else if str_eq(s, "ERROR_TASK_NOT_FOUND") {
            CapmonsterErrorCode::TaskNotFound
        } else if str_eq(s, "ERROR_TASK_NOT_SUPPORTED") {
            CapmonsterErrorCode::TaskNotSupported
        } else if str_eq(s, "ERROR_TASK_TIMEOUT") {
            CapmonsterErrorCode::TaskTimeout
        } else if str_eq(s, "ERROR_CAPTCHA_UNSOLVABLE") {
            CapmonsterErrorCode::CaptchaUnsolvable
        } else {
            CapmonsterErrorCode::Other(s.to_string())
        }
    }

    /// Whether the same request may be retried.
    pub fn is_retryable(&self) -> (r: bool)
        ensures
            r == capmonster_code_retryable(*self),
    {
        match self {
            CapmonsterErrorCode::ServiceUnavailable
            | CapmonsterErrorCode::RateLimit
            | CapmonsterErrorCode::IpBanned
            | CapmonsterErrorCode::KeyTempBlocked
            | CapmonsterErrorCode::NoSlotAvailable => true,
            _ => false,
        }
    }

    /// Whether a fresh task may succeed.
    pub fn should_retry_operation(&self) -> (r: bool)
        ensures
            r == capmonster_code_operation_retryable(*self),
    {
        match self {
            CapmonsterErrorCode::ServiceUnavailable
            | CapmonsterErrorCode::RateLimit
            | CapmonsterErrorCode::IpBanned
            | CapmonsterErrorCode::KeyTempBlocked
            | CapmonsterErrorCode::NoSlotAvailable
            | CapmonsterErrorCode::TaskNotFound
            | CapmonsterErrorCode::TaskTimeout
            | CapmonsterErrorCode::CaptchaUnsolvable => true,
            CapmonsterErrorCode::KeyDoesNotExist
            | CapmonsterErrorCode::ZeroBalance
            | CapmonsterErrorCode::KeyDeniedAccess
            | CapmonsterErrorCode::BadParameters
            | CapmonsterErrorCode::BadProxy
            | CapmonsterErrorCode::InvalidTaskData
            | CapmonsterErrorCode::BadRequest
            | CapmonsterErrorCode::TaskIdInvalid
            | CapmonsterErrorCode::TaskNotSupported
            | CapmonsterErrorCode::Other(_) => false,
        }
    }
}

/// An error answer of the CapMonster API.
#[derive(Debug, Clone)]
pub struct CapmonsterApiError {
    pub error_id: u32,
    pub error_code: CapmonsterErrorCode,
    pub error_description: Option<String>,
}

impl CapmonsterApiError {
    /// The error message.
    pub fn message(&self) -> (m: String)
        ensures
            m@ == api_error_text(
                "CapMonster"@,
                self.error_id,
                capmonster_code_str(self.error_code),
                opt_view(self.error_description),
            ),
    {
        let d: Option<&str> = match &self.error_description {
            Some(d) => Some(d.as_str()),
            None => None,
        };
        api_error_message("CapMonster", self.error_id, self.error_code.as_str(), d)
    }
}

} // verus!
