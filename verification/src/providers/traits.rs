//! What creating a task can give back.

use vstd::prelude::*;
use crate::types::TaskId;

verus! {

/// The result of creating a captcha task: either it must be polled, or the
/// provider answered with the solution at once (image-to-text on some
/// providers).
#[derive(Debug, Clone)]
pub enum TaskCreationOutcome<S> {
    /// Created; poll for the solution with the task id.
    Pending(TaskId),
    /// Solved at creation time.
    Ready {
        /// The task id (still useful for logging).
        task_id: TaskId,
        /// The solution.
        solution: S,
    },
}

impl<S> TaskCreationOutcome<S> {
    /// The task id, whatever the outcome.
    pub open spec fn id(&self) -> TaskId {
        match self {
            TaskCreationOutcome::Pending(id) => *id,
            TaskCreationOutcome::Ready { task_id, .. } => *task_id,
        }
    }

    /// The task id, whatever the outcome.
    pub fn task_id(&self) -> (id: &TaskId)
        ensures
            *id == self.id(),
    {
        match self {
            TaskCreationOutcome::Pending(id) => id,
            TaskCreationOutcome::Ready { task_id, .. } => task_id,
        }
    }

    /// Whether the task must be polled.
    pub fn is_pending(&self) -> (b: bool)
        ensures
            b == (self is Pending),
    {
        match self {
            TaskCreationOutcome::Pending(_) => true,
            TaskCreationOutcome::Ready { .. } => false,
        }
    }

    /// Whether the task was solved at creation time.
    pub fn is_ready(&self) -> (b: bool)
        ensures
            b == (self is Ready),
    {
        match self {
            TaskCreationOutcome::Pending(_) => false,
            TaskCreationOutcome::Ready { .. } => true,
        }
    }

    /// The solution, if the task was solved at creation time.
    pub fn into_solution(self) -> (s: Option<S>)
        ensures
            match self {
                TaskCreationOutcome::Ready { solution, .. } => s == Some(solution),
                TaskCreationOutcome::Pending(_) => s is None,
            },
    {
        match self {
            TaskCreationOutcome::Ready { solution, .. } => Some(solution),
            TaskCreationOutcome::Pending(_) => None,
        }
    }
}

} // verus!
