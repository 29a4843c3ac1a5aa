//! The typed failures that the task-list operations can return.

use vstd::prelude::*;

verus! {

/// Every way an operation on a task list can be refused. Each kind is
/// terminal: no operation retries, and a failed operation leaves the list
/// unchanged.
#[derive(Clone, Copy, Debug, PartialEq, Eq, Structural)]
pub enum TodoError {
    /// The title or the description exceeds its length bound.
    InvalidTitle,
    /// An attempt to transition a task whose status is already `Completed`.
    TaskAlreadyCompleted,
    /// The caller lacks the required relationship to the task, or, on the
    /// reassignment path, the task id did not resolve.
    UnauthorizedModification,
    /// Reserved for priority validation; no operation raises it today.
    InvalidPriority,
    /// The list is at capacity, or the id allocator would overflow.
    MaxTasksLimitReached,
    /// A transition out of `Cancelled` to anything but `InProgress`.
    InvalidStatusTransition,
    /// The task id did not resolve on the status-update path.
    TaskNotFound,
}

} // verus!
