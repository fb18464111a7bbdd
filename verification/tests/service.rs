use captcha_solvers::errors::RetryableError;
use captcha_solvers::providers::TaskCreationOutcome;
use captcha_solvers::service::poll::start;
use captcha_solvers::service::{
    CaptchaSolverServiceConfig, PollAction, PollState, ServiceError, SolveStart,
};
use captcha_solvers::TaskId;
use std::time::Duration;

#[derive(Debug, Clone, PartialEq)]
enum MockError {
    Transient,
    Permanent,
}

impl RetryableError for MockError {
    fn retryable(&self) -> bool {
        self.is_retryable()
    }

    fn operation_retryable(&self) -> bool {
        self.should_retry_operation()
    }

    fn is_retryable(&self) -> bool {
        matches!(self, MockError::Transient)
    }

    fn should_retry_operation(&self) -> bool {
        matches!(self, MockError::Transient)
    }
}

/// Drives a solve the way the service does, with a scripted provider: the
/// i-th poll gets `polls[i]`, each poll takes `step_ns`, and the caller
/// cancels before poll `cancel_at` (if any).
fn run(
    created: Result<TaskCreationOutcome<&'static str>, MockError>,
    polls: &[Result<Option<&'static str>, MockError>],
    config: CaptchaSolverServiceConfig,
    step_ns: u128,
    cancel_at: Option<u32>,
) -> Result<&'static str, ServiceError<MockError>> {
    let mut state = match start(created, &config) {
        SolveStart::Done(r) => return r,
        SolveStart::Poll(s) => s,
    };
    let mut elapsed = 0u128;
    loop {
        let cancelled = cancel_at == Some(state.poll_count);
        state = state.before_poll(cancelled, elapsed)?;
        let i = (state.poll_count - 1) as usize;
        let answer = polls.get(i).cloned().unwrap_or(Ok(None));
        match state.after_poll(answer) {
            PollAction::Done(r) => return r,
            PollAction::Continue => elapsed += step_ns,
        }
    }
}

/// Like `run`, with the provider's answer to the `n`-th poll (counted from
/// zero) given by `answer`; also returns how many polls were made.
fn run_with(
    mut answer: impl FnMut(u32) -> Result<Option<&'static str>, MockError>,
    config: CaptchaSolverServiceConfig,
) -> (Result<&'static str, ServiceError<MockError>>, u32) {
    let mut state = match start(pending(), &config) {
        SolveStart::Done(r) => return (r, 0),
        SolveStart::Poll(s) => s,
    };
    let mut polls = 0u32;
    loop {
        state = match state.before_poll(false, 0) {
            Ok(s) => s,
            Err(e) => return (Err(e), polls),
        };
        let reply = answer(polls);
        polls += 1;
        if let PollAction::Done(r) = state.after_poll(reply) {
            return (r, polls);
        }
    }
}

fn pending() -> Result<TaskCreationOutcome<&'static str>, MockError> {
    Ok(TaskCreationOutcome::Pending(TaskId::from("task-1")))
}

fn fast_config() -> CaptchaSolverServiceConfig {
    CaptchaSolverServiceConfig::new(2_000, 50)
}

#[test]
fn solve_immediate_success() {
    let created = Ok(TaskCreationOutcome::Ready {
        task_id: TaskId::from("t"),
        solution: "immediate-token",
    });
    assert_eq!(run(created, &[], fast_config(), 50, None).unwrap(), "immediate-token");
}

#[test]
fn solve_multi_poll_success() {
    // The solution arrives once three polls have come back empty.
    let (result, polls) =
        run_with(|n| if n >= 3 { Ok(Some("polled-token")) } else { Ok(None) }, fast_config());
    assert_eq!(result.unwrap(), "polled-token");
    assert_eq!(polls, 4);
}

#[test]
fn solve_transient_error_then_success() {
    // Empty, transient error, empty, solved.
    let (result, polls) = run_with(
        |n| {
            if n == 1 {
                Err(MockError::Transient)
            } else if n >= 3 {
                Ok(Some("recovered-token"))
            } else {
                Ok(None)
            }
        },
        fast_config(),
    );
    assert_eq!(result.unwrap(), "recovered-token");
    assert_eq!(polls, 4);
}

#[test]
fn solve_scripted_sequences() {
    let polls = [Ok(None), Err(MockError::Transient), Ok(None), Ok(Some("recovered-token"))];
    assert_eq!(run(pending(), &polls, fast_config(), 50, None).unwrap(), "recovered-token");
    let polls = [Ok(None), Ok(None), Ok(None), Ok(Some("polled-token"))];
    assert_eq!(run(pending(), &polls, fast_config(), 50, None).unwrap(), "polled-token");
}

#[test]
fn solve_permanent_provider_error_on_create() {
    let err = run(Err(MockError::Permanent), &[], fast_config(), 50, None).unwrap_err();
    assert!(!err.is_retryable());
    assert!(!err.is_timeout());
    assert!(!err.is_cancelled());
    assert!(err.task_id().is_none());
}

#[test]
fn solve_permanent_provider_error_on_poll() {
    let err = run(pending(), &[Err(MockError::Permanent)], fast_config(), 50, None).unwrap_err();
    assert!(!err.is_retryable());
    assert!(!err.is_timeout());
    match err {
        ServiceError::Provider { source, .. } => assert_eq!(source, MockError::Permanent),
        other => panic!("unexpected error {:?}", other),
    }
}

#[test]
fn solve_timeout() {
    let config = CaptchaSolverServiceConfig::new(200, 50);
    let err = run(pending(), &[], config, 50, None).unwrap_err();
    assert!(err.is_timeout());
    assert!(err.elapsed().unwrap() >= 200);
    assert_eq!(err.poll_count(), Some(4));
    assert_eq!(err.task_id().unwrap().as_str(), "task-1");
    assert!(!err.is_retryable());
    assert!(err.should_retry_operation());
}

#[test]
fn solve_cancellation() {
    let config = CaptchaSolverServiceConfig::new(10_000, 50);
    let err = run(pending(), &[], config, 50, Some(3)).unwrap_err();
    assert!(err.is_cancelled());
    assert_eq!(err.poll_count(), Some(3));
    assert_eq!(err.elapsed(), Some(150));
    assert!(!err.is_retryable());
    assert!(!err.should_retry_operation());
}

#[test]
fn cancellation_is_checked_before_the_timeout() {
    let state = PollState { task_id: TaskId::from("t"), poll_count: 7, timeout_ns: 100 };
    let err = state.before_poll::<MockError>(true, 500).unwrap_err();
    assert!(err.is_cancelled());
    assert_eq!(err.poll_count(), Some(7));
}

#[test]
fn timeout_is_due_at_exactly_the_limit() {
    let state = PollState { task_id: TaskId::from("t"), poll_count: 0, timeout_ns: 100 };
    let next = state.before_poll::<MockError>(false, 99).unwrap();
    assert_eq!(next.poll_count, 1);
    let err = next.before_poll::<MockError>(false, 100).unwrap_err();
    assert!(err.is_timeout());
    assert_eq!(err.poll_count(), Some(1));
    match err {
        ServiceError::SolutionTimeout { timeout_ns, elapsed_ns, .. } => {
            assert_eq!((timeout_ns, elapsed_ns), (100, 100))
        }
        other => panic!("unexpected error {:?}", other),
    }
}

#[test]
fn provider_errors_keep_their_classification() {
    let e = ServiceError::from_provider(MockError::Transient);
    assert!(e.is_retryable() && e.should_retry_operation());
    assert_eq!(e.elapsed(), None);
    assert_eq!(e.poll_count(), None);
    let e: ServiceError<MockError> = ServiceError::timeout(1, 2, 3, TaskId::from("x"));
    assert!(!e.is_retryable() && e.should_retry_operation());
    let e: ServiceError<MockError> = ServiceError::cancelled(2, 3, TaskId::from("x"));
    assert!(!e.is_retryable() && !e.should_retry_operation());
}

const SEC: u128 = 1_000_000_000;

#[test]
fn config_presets() {
    let c = CaptchaSolverServiceConfig::default();
    assert_eq!((c.timeout_ns, c.poll_interval_ns), (120 * SEC, 3 * SEC));
    let c = CaptchaSolverServiceConfig::fast();
    assert_eq!((c.timeout_ns, c.poll_interval_ns), (60 * SEC, 2 * SEC));
    let c = CaptchaSolverServiceConfig::balanced();
    assert_eq!((c.timeout_ns, c.poll_interval_ns), (120 * SEC, 3 * SEC));
    let c = CaptchaSolverServiceConfig::patient();
    assert_eq!((c.timeout_ns, c.poll_interval_ns), (300 * SEC, 5 * SEC));
}

#[test]
fn config_fluent_setters_keep_the_other_field() {
    let c = CaptchaSolverServiceConfig::default()
        .with_timeout(Duration::from_secs(150).as_nanos())
        .with_poll_interval(Duration::from_secs(3).as_nanos());
    assert_eq!((c.timeout_ns, c.poll_interval_ns), (150 * SEC, 3 * SEC));
    let c = CaptchaSolverServiceConfig::fast().with_poll_interval(Duration::from_millis(1500).as_nanos());
    assert_eq!((c.timeout_ns, c.poll_interval_ns), (60 * SEC, 1_500_000_000));
}

#[test]
fn config_builder_defaults_unset_fields() {
    let c = CaptchaSolverServiceConfig::builder()
        .timeout(Duration::from_secs(180).as_nanos())
        .poll_interval(Duration::from_secs(5).as_nanos())
        .build();
    assert_eq!((c.timeout_ns, c.poll_interval_ns), (180 * SEC, 5 * SEC));
    let c = CaptchaSolverServiceConfig::builder().timeout(Duration::from_nanos(1_500).as_nanos()).build();
    assert_eq!((c.timeout_ns, c.poll_interval_ns), (1_500, 3 * SEC));
    let c = CaptchaSolverServiceConfig::builder().build();
    assert_eq!(c, CaptchaSolverServiceConfig::default());
}
