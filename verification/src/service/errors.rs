//! Errors of the solve service.

use vstd::prelude::*;
use crate::errors::RetryableError;
use crate::types::TaskId;

verus! {

/// Errors of the solve service. Durations are in nanoseconds.
#[derive(Debug)]
pub enum ServiceError<E> {
    /// The provider failed; its retry classification is kept.
    Provider {
        /// The provider's error.
        source: E,
        /// Whether the same task may be retried.
        is_retryable: bool,
        /// Whether a fresh solve may succeed.
        should_retry_operation: bool,
    },
    /// No solution arrived before the timeout.
    SolutionTimeout {
        /// The timeout that was exceeded.
        timeout_ns: u128,
        /// The time elapsed when it was noticed.
        elapsed_ns: u128,
        /// Polls made.
        poll_count: u32,
        /// The task that timed out.
        task_id: TaskId,
    },
    /// The caller cancelled the solve.
    Cancelled {
        /// The time elapsed when the cancellation was noticed.
        elapsed_ns: u128,
        /// Polls made before the cancellation.
        poll_count: u32,
        /// The task that was cancelled.
        task_id: TaskId,
    },
}

impl<E> ServiceError<E> {
    /// A provider error, with the classification the error gives itself.
    pub fn from_provider(error: E) -> (r: Self)
        where
            E: RetryableError,
        ensures
            r == (ServiceError::Provider {
                source: error,
                is_retryable: error.retryable(),
                should_retry_operation: error.operation_retryable(),
            }),
    {
        let is_retryable = error.is_retryable();
        let should_retry_operation = error.should_retry_operation();
        ServiceError::Provider { source: error, is_retryable, should_retry_operation }
    }

    /// A timeout error.
    pub fn timeout(timeout_ns: u128, elapsed_ns: u128, poll_count: u32, task_id: TaskId) -> (r: Self)
        ensures
            r == (ServiceError::<E>::SolutionTimeout { timeout_ns, elapsed_ns, poll_count, task_id }),
    {
        ServiceError::SolutionTimeout { timeout_ns, elapsed_ns, poll_count, task_id }
    }

    /// A cancellation error.
    pub fn cancelled(elapsed_ns: u128, poll_count: u32, task_id: TaskId) -> (r: Self)
        ensures
            r == (ServiceError::<E>::Cancelled { elapsed_ns, poll_count, task_id }),
    {
        ServiceError::Cancelled { elapsed_ns, poll_count, task_id }
    }

    /// Whether the solve was cancelled.
    pub fn is_cancelled(&self) -> (b: bool)
        ensures
            b == (self is Cancelled),
    {
        match self {
            ServiceError::Cancelled { .. } => true,
            _ => false,
        }
    }

    /// Whether the solve timed out.
    pub fn is_timeout(&self) -> (b: bool)
        ensures
            b == (self is SolutionTimeout),
    {
        match self {
            ServiceError::SolutionTimeout { .. } => true,
            _ => false,
        }
    }

    /// The task id, for timeouts and cancellations.
    pub fn task_id(&self) -> (id: Option<&TaskId>)
        ensures
            match self {
                ServiceError::SolutionTimeout { task_id, .. } => id == Some(task_id),
                ServiceError::Cancelled { task_id, .. } => id == Some(task_id),
                ServiceError::Provider { .. } => id is None,
            },
    {
        match self {
            ServiceError::SolutionTimeout { task_id, .. } => Some(task_id),
            ServiceError::Cancelled { task_id, .. } => Some(task_id),
            ServiceError::Provider { .. } => None,
        }
    }

    /// The elapsed nanoseconds, for timeouts and cancellations.
    pub fn elapsed(&self) -> (ms: Option<u128>)
        ensures
            match self {
                ServiceError::SolutionTimeout { elapsed_ns, .. } => ms == Some(*elapsed_ns),
                ServiceError::Cancelled { elapsed_ns, .. } => ms == Some(*elapsed_ns),
                ServiceError::Provider { .. } => ms is None,
            },
    {
        match self {
            ServiceError::SolutionTimeout { elapsed_ns, .. } => Some(*elapsed_ns),
            ServiceError::Cancelled { elapsed_ns, .. } => Some(*elapsed_ns),
            ServiceError::Provider { .. } => None,
        }
    }

    /// The number of polls made, for timeouts and cancellations.
    pub fn poll_count(&self) -> (n: Option<u32>)
        ensures
            match self {
                ServiceError::SolutionTimeout { poll_count, .. } => n == Some(*poll_count),
                ServiceError::Cancelled { poll_count, .. } => n == Some(*poll_count),
                ServiceError::Provider { .. } => n is None,
            },
    {
        match self {
            ServiceError::SolutionTimeout { poll_count, .. } => Some(*poll_count),
            ServiceError::Cancelled { poll_count, .. } => Some(*poll_count),
            ServiceError::Provider { .. } => None,
        }
    }
}

impl<E> RetryableError for ServiceError<E> {
    /// A provider error keeps its own classification; an expired or
    /// cancelled task cannot be retried.
    open spec fn retryable(&self) -> bool {
        match self {
            ServiceError::Provider { is_retryable, .. } => *is_retryable,
            ServiceError::SolutionTimeout { .. } => false,
            ServiceError::Cancelled { .. } => false,
        }
    }

    /// A provider error keeps its own classification; after a timeout a
    /// fresh solve may succeed; a cancellation is not retried.
    open spec fn operation_retryable(&self) -> bool {
        match self {
            ServiceError::Provider { should_retry_operation, .. } => *should_retry_operation,
            ServiceError::SolutionTimeout { .. } => true,
            ServiceError::Cancelled { .. } => false,
        }
    }

    fn is_retryable(&self) -> (r: bool) {
        match self {
            ServiceError::Provider { is_retryable, .. } => *is_retryable,
            ServiceError::SolutionTimeout { .. } => false,
            ServiceError::Cancelled { .. } => false,
        }
    }

    fn should_retry_operation(&self) -> (r: bool) {
        match self {
            ServiceError::Provider { should_retry_operation, .. } => *should_retry_operation,
            ServiceError::SolutionTimeout { .. } => true,
            ServiceError::Cancelled { .. } => false,
        }
    }
}

/// Wrapping a provider error keeps its classification at both levels.
pub proof fn law_provider_classification_kept<E: RetryableError>(error: E)
    ensures
        (ServiceError::Provider {
            source: error,
            is_retryable: error.retryable(),
            should_retry_operation: error.operation_retryable(),
        }).retryable() == error.retryable(),
        (ServiceError::Provider {
            source: error,
            is_retryable: error.retryable(),
            should_retry_operation: error.operation_retryable(),
        }).operation_retryable() == error.operation_retryable(),
{
}

} // verus!
