//! The guarantees the three operations give, each stated on its own over the
//! operations' transition predicates and proved from them. The `pre`/`post`
//! pairs range over any call: `pre` is the list a caller handed in, `post`
//! and `r` what the operation's contract says came back.

use vstd::prelude::*;

use crate::errors::TodoError;
use crate::instructions::assign_task_post;
use crate::instructions::create_task_post;
use crate::instructions::has_task;
use crate::instructions::is_authorized_editor;
use crate::instructions::next_streak;
use crate::instructions::task_index;
use crate::instructions::update_task_status_post;
use crate::state::byte_len;
use crate::state::Pubkey;
use crate::state::Task;
use crate::state::TaskCategory;
use crate::state::TaskPriority;
use crate::state::TaskStatus;
use crate::state::UserTodoList;
use crate::state::MAX_DESCRIPTION_LENGTH;
use crate::state::MAX_TASKS;
use crate::state::MAX_TITLE_LENGTH;

verus! {

/// On every valid input, task creation grows the list by exactly one task,
/// advances the allocator by exactly one, and the fresh task carries the id
/// the allocator held plus one.
pub proof fn law_create_grows_by_one(
    pre: UserTodoList,
    user: Pubkey,
    title: String,
    description: String,
    priority: TaskPriority,
    category: TaskCategory,
    assignee: Option<Pubkey>,
    now: i64,
    post: UserTodoList,
    r: Result<(), TodoError>,
)
    requires
        create_task_post(pre, user, title, description, priority, category, assignee, now, post, r),
        byte_len(title@) <= MAX_TITLE_LENGTH,
        byte_len(description@) <= MAX_DESCRIPTION_LENGTH,
        pre.tasks@.len() < MAX_TASKS,
        pre.task_count < u64::MAX,
    ensures
        r is Ok,
        post.tasks@.len() == pre.tasks@.len() + 1,
        post.task_count == pre.task_count + 1,
        post.tasks@.last().id == pre.task_count + 1,
{
}

/// Task creation refuses an oversize title or description with
/// `InvalidTitle` and leaves the list exactly as it was.
pub proof fn law_create_rejects_oversize_text(
    pre: UserTodoList,
    user: Pubkey,
    title: String,
    description: String,
    priority: TaskPriority,
    category: TaskCategory,
    assignee: Option<Pubkey>,
    now: i64,
    post: UserTodoList,
    r: Result<(), TodoError>,
)
    requires
        create_task_post(pre, user, title, description, priority, category, assignee, now, post, r),
        byte_len(title@) > MAX_TITLE_LENGTH || byte_len(description@) > MAX_DESCRIPTION_LENGTH,
    ensures
        r == Err::<(), TodoError>(TodoError::InvalidTitle),
        post == pre,
{
}

/// Task creation refuses a full list with `MaxTasksLimitReached` and leaves
/// the list exactly as it was.
pub proof fn law_create_rejects_full_list(
    pre: UserTodoList,
    user: Pubkey,
    title: String,
    description: String,
    priority: TaskPriority,
    category: TaskCategory,
    assignee: Option<Pubkey>,
    now: i64,
    post: UserTodoList,
    r: Result<(), TodoError>,
)
    requires
        create_task_post(pre, user, title, description, priority, category, assignee, now, post, r),
        byte_len(title@) <= MAX_TITLE_LENGTH,
        byte_len(description@) <= MAX_DESCRIPTION_LENGTH,
        pre.tasks@.len() == MAX_TASKS,
    ensures
        r == Err::<(), TodoError>(TodoError::MaxTasksLimitReached),
        post == pre,
{
}

/// `Completed` is terminal: a status update aimed at a completed task fails
/// with `TaskAlreadyCompleted` whatever the target status — the current
/// status included — and leaves the list exactly as it was.
pub proof fn law_completed_is_terminal(
    pre: UserTodoList,
    user: Pubkey,
    task_id: u64,
    new_status: TaskStatus,
    now: i64,
    post: UserTodoList,
    r: Result<(), TodoError>,
)
    requires
        update_task_status_post(pre, user, task_id, new_status, now, post, r),
        has_task(pre.tasks@, task_id),
        is_authorized_editor(pre.tasks@[task_index(pre.tasks@, task_id)], user),
        pre.tasks@[task_index(pre.tasks@, task_id)].status == TaskStatus::Completed,
    ensures
        r == Err::<(), TodoError>(TodoError::TaskAlreadyCompleted),
        post == pre,
{
}

/// Out of `Cancelled` only `InProgress` is reachable: any other target fails
/// with `InvalidStatusTransition` and leaves the list unchanged, while
/// resuming into `InProgress` succeeds.
pub proof fn law_cancelled_resumes_only_in_progress(
    pre: UserTodoList,
    user: Pubkey,
    task_id: u64,
    new_status: TaskStatus,
    now: i64,
    post: UserTodoList,
    r: Result<(), TodoError>,
)
    requires
        update_task_status_post(pre, user, task_id, new_status, now, post, r),
        has_task(pre.tasks@, task_id),
        is_authorized_editor(pre.tasks@[task_index(pre.tasks@, task_id)], user),
        pre.tasks@[task_index(pre.tasks@, task_id)].status == TaskStatus::Cancelled,
    ensures
        new_status != TaskStatus::InProgress ==> r == Err::<(), TodoError>(
            TodoError::InvalidStatusTransition,
        ) && post == pre,
        new_status == TaskStatus::InProgress ==> r is Ok,
{
}

/// A status update by an identity that is neither the task's creator nor its
/// assignee fails with `UnauthorizedModification` and leaves the list
/// exactly as it was.
pub proof fn law_update_requires_authorization(
    pre: UserTodoList,
    user: Pubkey,
    task_id: u64,
    new_status: TaskStatus,
    now: i64,
    post: UserTodoList,
    r: Result<(), TodoError>,
)
    requires
        update_task_status_post(pre, user, task_id, new_status, now, post, r),
        has_task(pre.tasks@, task_id),
        !is_authorized_editor(pre.tasks@[task_index(pre.tasks@, task_id)], user),
    ensures
        r == Err::<(), TodoError>(TodoError::UnauthorizedModification),
        post == pre,
{
}

/// Re-asserting the current status of a pending or in-progress task
/// succeeds and touches nothing but that task's `updated_at`.
pub proof fn law_update_same_status_idempotent(
    pre: UserTodoList,
    user: Pubkey,
    task_id: u64,
    new_status: TaskStatus,
    now: i64,
    post: UserTodoList,
    r: Result<(), TodoError>,
)
    requires
        update_task_status_post(pre, user, task_id, new_status, now, post, r),
        has_task(pre.tasks@, task_id),
        is_authorized_editor(pre.tasks@[task_index(pre.tasks@, task_id)], user),
        pre.tasks@[task_index(pre.tasks@, task_id)].status == TaskStatus::Pending
            || pre.tasks@[task_index(pre.tasks@, task_id)].status == TaskStatus::InProgress,
        new_status == pre.tasks@[task_index(pre.tasks@, task_id)].status,
    ensures
        r is Ok,
        post.tasks@ == pre.tasks@.update(
            task_index(pre.tasks@, task_id),
            (Task { updated_at: now, ..pre.tasks@[task_index(pre.tasks@, task_id)] }),
        ),
        post.owner == pre.owner,
        post.task_count == pre.task_count,
        post.completed_task_streak == pre.completed_task_streak,
        post.last_completed_date == pre.last_completed_date,
        post.bump == pre.bump,
{
}

/// Completing a task extends the streak by one exactly when the previous
/// completion fell on the day before, and otherwise — a gap, a completion
/// the same day, or no completion on record — restarts it at one.
pub proof fn law_completion_drives_streak(
    pre: UserTodoList,
    user: Pubkey,
    task_id: u64,
    now: i64,
    post: UserTodoList,
    r: Result<(), TodoError>,
)
    requires
        update_task_status_post(pre, user, task_id, TaskStatus::Completed, now, post, r),
        r is Ok,
    ensures
        post.completed_task_streak as int == next_streak(
            pre.last_completed_date,
            pre.completed_task_streak,
            now,
        ),
        post.last_completed_date == Some(now),
{
}

/// Reassignment by a caller other than the task's creator fails with
/// `UnauthorizedModification` and leaves the list — the assignee included —
/// exactly as it was.
pub proof fn law_assign_requires_creator(
    pre: UserTodoList,
    creator: Pubkey,
    task_id: u64,
    new_assignee: Pubkey,
    now: i64,
    post: UserTodoList,
    r: Result<(), TodoError>,
)
    requires
        assign_task_post(pre, creator, task_id, new_assignee, now, post, r),
        has_task(pre.tasks@, task_id),
        pre.tasks@[task_index(pre.tasks@, task_id)].creator != creator,
    ensures
        r == Err::<(), TodoError>(TodoError::UnauthorizedModification),
        post == pre,
        post.tasks@[task_index(pre.tasks@, task_id)].assignee == pre.tasks@[task_index(
            pre.tasks@,
            task_id,
        )].assignee,
{
}

} // verus!
