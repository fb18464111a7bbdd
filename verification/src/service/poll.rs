//! The decisions of a solve: what to do with the created task, whether to
//! poll again, and what a poll's answer means. The caller performs the
//! provider calls, measures time, watches for cancellation and sleeps
//! `poll_interval_ns` between polls.

use vstd::prelude::*;
use super::config::CaptchaSolverServiceConfig;
use super::errors::ServiceError;
use crate::errors::RetryableError;
use crate::providers::traits::TaskCreationOutcome;
use crate::types::TaskId;

verus! {

/// A task being polled for its solution.
#[derive(Debug)]
pub struct PollState {
    /// The task being polled.
    pub task_id: TaskId,
    /// Polls made so far.
    pub poll_count: u32,
    /// Time allowed, counted from the start of polling.
    pub timeout_ns: u128,
}

/// What follows the creation of a task.
#[derive(Debug)]
pub enum SolveStart<S, E> {
    /// The solve is over: solved at creation, or creation failed.
    Done(Result<S, ServiceError<E>>),
    /// The task must be polled.
    Poll(PollState),
}

/// What follows a poll.
#[derive(Debug)]
pub enum PollAction<S, E> {
    /// Sleep for the poll interval, then poll again.
    Continue,
    /// The solve is over.
    Done(Result<S, ServiceError<E>>),
}

/// What follows the creation of a task: a creation error ends the solve
/// with the provider's error, a task solved at once ends it with its
/// solution, and a pending task is polled from zero polls under the
/// configured timeout.
pub open spec fn start_spec<S, E: RetryableError>(
    created: Result<TaskCreationOutcome<S>, E>,
    config: CaptchaSolverServiceConfig,
) -> SolveStart<S, E> {
    match created {
        Err(e) => SolveStart::Done(
            Err(
                ServiceError::Provider {
                    source: e,
                    is_retryable: e.retryable(),
                    should_retry_operation: e.operation_retryable(),
                },
            ),
        ),
        Ok(TaskCreationOutcome::Ready { solution, .. }) => SolveStart::Done(Ok(solution)),
        Ok(TaskCreationOutcome::Pending(task_id)) => SolveStart::Poll(
            PollState { task_id, poll_count: 0, timeout_ns: config.timeout_ns },
        ),
    }
}

/// Whether a poll may be made: cancellation is checked first, then the
/// timeout; otherwise the poll is counted.
pub open spec fn before_poll_spec<E>(s: PollState, cancelled: bool, elapsed_ns: u128) -> Result<
    PollState,
    ServiceError<E>,
> {
    if cancelled {
        Err(
            ServiceError::Cancelled {
                elapsed_ns,
                poll_count: s.poll_count,
                task_id: s.task_id,
            },
        )
    } else if elapsed_ns >= s.timeout_ns {
        Err(
            ServiceError::SolutionTimeout {
                timeout_ns: s.timeout_ns,
                elapsed_ns,
                poll_count: s.poll_count,
                task_id: s.task_id,
            },
        )
    } else {
        Ok(PollState { poll_count: (s.poll_count + 1) as u32, ..s })
    }
}

/// What a poll's answer means: a solution ends the solve, "not ready" and
/// transient errors lead to another poll, and a permanent error ends the
/// solve with that error.
pub open spec fn after_poll_spec<S, E: RetryableError>(result: Result<Option<S>, E>) -> PollAction<
    S,
    E,
> {
    match result {
        Ok(Some(solution)) => PollAction::Done(Ok(solution)),
        Ok(None) => PollAction::Continue,
        Err(e) => if e.retryable() {
            PollAction::Continue
        } else {
            PollAction::Done(
                Err(
                    ServiceError::Provider {
                        source: e,
                        is_retryable: false,
                        should_retry_operation: e.operation_retryable(),
                    },
                ),
            )
        },
    }
}

/// Decides what follows the creation of a task.
pub fn start<S, E: RetryableError>(
    created: Result<TaskCreationOutcome<S>, E>,
    config: &CaptchaSolverServiceConfig,
) -> (r: SolveStart<S, E>)
    ensures
        r == start_spec(created, *config),
        match created {
            Err(e) => (r matches SolveStart::Done(Err(ServiceError::Provider { source, .. })) && source
                == e),
            Ok(TaskCreationOutcome::Ready { solution, .. }) => (r matches SolveStart::Done(Ok(x)) && x
                == solution),
            Ok(TaskCreationOutcome::Pending(id)) => (r matches SolveStart::Poll(p) && p.task_id == id
                && p.poll_count == 0 && p.timeout_ns == config.timeout_ns),
        },
{
    match created {
        Err(e) => SolveStart::Done(Err(ServiceError::from_provider(e))),
        Ok(TaskCreationOutcome::Ready { solution, .. }) => SolveStart::Done(Ok(solution)),
        Ok(TaskCreationOutcome::Pending(task_id)) => SolveStart::Poll(
            PollState { task_id, poll_count: 0, timeout_ns: config.timeout_ns },
        ),
    }
}

impl PollState {
    /// Decides whether to poll, given whether the caller cancelled and the
    /// nanoseconds elapsed since polling started: `Ok` with the poll
    /// counted, or the error that ends the solve. The count must not be at
    /// its maximum.
    pub fn before_poll<E>(self, cancelled: bool, elapsed_ns: u128) -> (r: Result<
        PollState,
        ServiceError<E>,
    >)
        requires
            self.poll_count < u32::MAX,
        ensures
            r == before_poll_spec::<E>(self, cancelled, elapsed_ns),
            cancelled ==> (r matches Err(ServiceError::Cancelled { elapsed_ns: el, poll_count: n, task_id: id })
                && el == elapsed_ns && n == self.poll_count && id == self.task_id),
            !cancelled && elapsed_ns >= self.timeout_ns ==> (r matches Err(
                ServiceError::SolutionTimeout { timeout_ns: t, elapsed_ns: el, poll_count: n, task_id: id },
            ) && t == self.timeout_ns && el == elapsed_ns && n == self.poll_count && id == self.task_id),
            !cancelled && elapsed_ns < self.timeout_ns ==> (r matches Ok(next) && next.poll_count
                == self.poll_count + 1 && next.task_id == self.task_id && next.timeout_ns
                == self.timeout_ns),
    {
        if cancelled {
            Err(ServiceError::cancelled(elapsed_ns, self.poll_count, self.task_id))
        } else if elapsed_ns >= self.timeout_ns {
            Err(ServiceError::timeout(self.timeout_ns, elapsed_ns, self.poll_count, self.task_id))
        } else {
            Ok(PollState { poll_count: self.poll_count + 1, ..self })
        }
    }

    /// Decides what a poll's answer means.
    pub fn after_poll<S, E: RetryableError>(&self, result: Result<Option<S>, E>) -> (r: PollAction<
        S,
        E,
    >)
        ensures
            r == after_poll_spec(result),
            match result {
                Ok(Some(x)) => (r matches PollAction::Done(Ok(y)) && y == x),
                Ok(None) => (r is Continue),
                Err(e) => if e.retryable() {
                    (r is Continue)
                } else {
                    (r matches PollAction::Done(Err(ServiceError::Provider { source, is_retryable, .. }))
                        && source == e && !is_retryable)
                },
            },
    {
        match result {
            Ok(Some(solution)) => PollAction::Done(Ok(solution)),
            Ok(None) => PollAction::Continue,
            Err(e) => {
                if e.is_retryable() {
                    PollAction::Continue
                } else {
                    PollAction::Done(Err(ServiceError::from_provider(e)))
                }
            },
        }
    }
}

/// Cancellation is checked before the timeout: a cancelled solve ends as
/// cancelled, with the polls made so far, however much time has passed.
pub proof fn law_cancellation_wins<E>(s: PollState, elapsed_ns: u128)
    ensures
        before_poll_spec::<E>(s, true, elapsed_ns) == Err::<PollState, ServiceError<E>>(
            ServiceError::Cancelled { elapsed_ns, poll_count: s.poll_count, task_id: s.task_id },
        ),
{
}

/// Without cancellation, a solve times out exactly when the elapsed time
/// has reached the timeout, and the timeout error reports the timeout, the
/// elapsed time, the polls made and the task.
pub proof fn law_timeout_exactly_when_due<E>(s: PollState, elapsed_ns: u128)
    ensures
        (before_poll_spec::<E>(s, false, elapsed_ns) is Err) <==> elapsed_ns >= s.timeout_ns,
        elapsed_ns >= s.timeout_ns ==> before_poll_spec::<E>(s, false, elapsed_ns) == Err::<
            PollState,
            ServiceError<E>,
        >(
            ServiceError::SolutionTimeout {
                timeout_ns: s.timeout_ns,
                elapsed_ns,
                poll_count: s.poll_count,
                task_id: s.task_id,
            },
        ),
{
}

/// Once a solve is due to time out, it stays due: any later check without
/// cancellation times out too.
pub proof fn law_timeout_is_final<E>(s: PollState, earlier_ns: u128, later_ns: u128)
    requires
        earlier_ns <= later_ns,
        before_poll_spec::<E>(s, false, earlier_ns) is Err,
    ensures
        before_poll_spec::<E>(s, false, later_ns) is Err,
{
}

/// Each poll allowed adds one to the count and changes nothing else, so
/// from a fresh start the count is the number of polls made.
pub proof fn law_poll_counted_once<E>(s: PollState, elapsed_ns: u128)
    requires
        s.poll_count < u32::MAX,
        elapsed_ns < s.timeout_ns,
    ensures
        before_poll_spec::<E>(s, false, elapsed_ns) == Ok::<PollState, ServiceError<E>>(
            PollState { poll_count: (s.poll_count + 1) as u32, task_id: s.task_id, timeout_ns: s.timeout_ns },
        ),
{
}

/// Polling starts from zero polls under the configured timeout, and a task
/// solved at creation is returned without polling.
pub proof fn law_start<S, E: RetryableError>(
    created: Result<TaskCreationOutcome<S>, E>,
    config: CaptchaSolverServiceConfig,
)
    ensures
        created matches Ok(TaskCreationOutcome::Pending(id)) ==> start_spec(created, config)
            == SolveStart::<S, E>::Poll(
            PollState { task_id: id, poll_count: 0, timeout_ns: config.timeout_ns },
        ),
        created matches Ok(TaskCreationOutcome::Ready { solution, .. }) ==> start_spec(
            created,
            config,
        ) == SolveStart::<S, E>::Done(Ok(solution)),
{
}

/// A transient poll error never ends a solve, and the error a poll ends a
/// solve with is never retryable with the same task.
pub proof fn law_poll_errors<S, E: RetryableError>(result: Result<Option<S>, E>)
    ensures
        match result {
            Err(e) => e.retryable() ==> (after_poll_spec(result) is Continue),
            Ok(_) => true,
        },
        match after_poll_spec(result) {
            PollAction::Done(Err(err)) => !err.retryable() && (result is Err),
            _ => true,
        },
{
}

/// Timeouts and cancellations are never retried with the same task; after a
/// timeout a fresh solve is worth trying, after a cancellation it is not.
pub proof fn law_service_error_retry<E>(err: ServiceError<E>)
    ensures
        (err is SolutionTimeout) ==> !err.retryable() && err.operation_retryable(),
        (err is Cancelled) ==> !err.retryable() && !err.operation_retryable(),
{
}

/// The outcome of a solve polled from `s`, where each step is the caller's
/// check (cancelled, nanoseconds elapsed) followed by the provider's
/// answer to the poll; `None` while the solve is still going after the last
/// step.
pub open spec fn run_spec<S, E: RetryableError>(
    s: PollState,
    steps: Seq<(bool, u128, Result<Option<S>, E>)>,
) -> Option<Result<S, ServiceError<E>>>
    decreases steps.len(),
{
    if steps.len() == 0 {
        None
    } else {
        match before_poll_spec::<E>(s, steps[0].0, steps[0].1) {
            Err(e) => Some(Err(e)),
            Ok(next) => match after_poll_spec(steps[0].2) {
                PollAction::Done(r) => Some(r),
                PollAction::Continue => run_spec(next, steps.drop_first()),
            },
        }
    }
}

/// Whether no answer in `steps` is a solution or a permanent error.
pub open spec fn never_solved<S, E: RetryableError>(steps: Seq<(bool, u128, Result<Option<S>, E>)>) -> bool {
    forall|i: int|
        0 <= i < steps.len() ==> match #[trigger] steps[i].2 {
            Ok(None) => true,
            Ok(Some(_)) => false,
            Err(e) => e.retryable(),
        }
}

/// The first step at which the caller has cancelled or the timeout is due.
pub open spec fn stop_index<R>(steps: Seq<(bool, u128, R)>, timeout_ns: u128) -> nat
    decreases steps.len(),
{
    if steps.len() == 0 {
        0
    } else if steps[0].0 || steps[0].1 >= timeout_ns {
        0
    } else {
        1 + stop_index(steps.drop_first(), timeout_ns)
    }
}

/// The error a solve polled from `s` ends with when it stops at step `j`:
/// cancelled if the caller cancelled then, otherwise timed out; either way
/// with the `j` polls made since `s` and the task kept.
pub open spec fn stop_error<R, E>(s: PollState, steps: Seq<(bool, u128, R)>, j: int) -> ServiceError<E> {
    if steps[j].0 {
        ServiceError::Cancelled {
            elapsed_ns: steps[j].1,
            poll_count: (s.poll_count + j) as u32,
            task_id: s.task_id,
        }
    } else {
        ServiceError::SolutionTimeout {
            timeout_ns: s.timeout_ns,
            elapsed_ns: steps[j].1,
            poll_count: (s.poll_count + j) as u32,
            task_id: s.task_id,
        }
    }
}

/// A solve whose polls are never answered with a solution or a permanent
/// error, and that is cancelled or due at some step `k`, ends at the first
/// such step: as cancelled if the caller cancelled then, otherwise as timed
/// out with the elapsed time at or past the timeout; the error carries the
/// task and the number of polls made, which is nonzero unless the solve
/// stopped before its first poll.
pub proof fn law_unsolved_solve_ends_cancelled_or_timed_out<S, E: RetryableError>(
    s: PollState,
    steps: Seq<(bool, u128, Result<Option<S>, E>)>,
    k: int,
)
    requires
        never_solved(steps),
        0 <= k < steps.len(),
        steps[k].0 || steps[k].1 >= s.timeout_ns,
        s.poll_count + steps.len() <= u32::MAX,
    ensures
        stop_index(steps, s.timeout_ns) <= k,
        run_spec(s, steps) == Some(
            Err::<S, ServiceError<E>>(stop_error(s, steps, stop_index(steps, s.timeout_ns) as int)),
        ),
        steps[stop_index(steps, s.timeout_ns) as int].0 || steps[stop_index(
            steps,
            s.timeout_ns,
        ) as int].1 >= s.timeout_ns,
        stop_index(steps, s.timeout_ns) == 0 ==> steps[0].0 || steps[0].1 >= s.timeout_ns,
    decreases k,
{
    if steps[0].0 || steps[0].1 >= s.timeout_ns {
    } else {
        let next = PollState { poll_count: (s.poll_count + 1) as u32, ..s };
        let rest = steps.drop_first();
        assert(match steps[0].2 {
            Ok(None) => true,
            Ok(Some(_)) => false,
            Err(e) => e.retryable(),
        });
        assert(after_poll_spec(steps[0].2) is Continue);
        assert(never_solved(rest)) by {
            assert forall|i: int| 0 <= i < rest.len() implies match #[trigger] rest[i].2 {
                Ok(None) => true,
                Ok(Some(_)) => false,
                Err(e) => e.retryable(),
            } by {
                assert(rest[i] == steps[i + 1]);
            }
        }
        assert(rest[k - 1] == steps[k]);
        law_unsolved_solve_ends_cancelled_or_timed_out::<S, E>(next, rest, k - 1);
        let j = stop_index(rest, s.timeout_ns) as int;
        assert(rest[j] == steps[j + 1]);
        assert(stop_error::<_, E>(next, rest, j) == stop_error::<_, E>(s, steps, j + 1));
    }
}

} // verus!
