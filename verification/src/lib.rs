//! A per-user task-list store with ownership-gated mutation and a daily
//! completion streak.
//!
//! The store keeps one [`state::UserTodoList`] per owner. Three operations
//! mutate it: task creation, status transition, and reassignment. Each
//! operation validates its inputs and the caller's relationship to the task,
//! and either applies the mutation or returns one typed [`errors::TodoError`].
//! The caller's identity and the current clock reading are supplied by the
//! hosting environment as plain values.

use vstd::prelude::*;

pub mod errors;
pub mod instructions;
pub mod laws;
pub mod state;

pub use state::Pubkey;
pub use state::Task;
pub use state::TaskCategory;
pub use state::TaskPriority;
pub use state::TaskStatus;
pub use state::UserTodoList;

use crate::errors::TodoError;
use crate::instructions::assign_task_post;
use crate::instructions::clock_in_order;
use crate::instructions::create_task_post;
use crate::instructions::update_task_status_post;

verus! {

/// Creates a task in the caller's list; the caller becomes its creator.
/// The program-surface name for [`instructions::create_task`].
pub fn create_todo_task(
    todo_list: &mut UserTodoList,
    user: Pubkey,
    title: String,
    description: String,
    priority: TaskPriority,
    category: TaskCategory,
    assignee: Option<Pubkey>,
    now: i64,
) -> (r: Result<(), TodoError>)
    requires
        old(todo_list).wf(),
    ensures
        final(todo_list).wf(),
        create_task_post(
            *old(todo_list),
            user,
            title,
            description,
            priority,
            category,
            assignee,
            now,
            *final(todo_list),
            r,
        ),
{
    instructions::create_task(todo_list, user, title, description, priority, category, assignee, now)
}

/// Moves a task to a new status on behalf of its creator or assignee.
/// The program-surface name for [`instructions::update_task_status`].
pub fn update_task_status(
    todo_list: &mut UserTodoList,
    user: Pubkey,
    task_id: u64,
    new_status: TaskStatus,
    now: i64,
) -> (r: Result<(), TodoError>)
    requires
        old(todo_list).wf(),
        clock_in_order(*old(todo_list), now),
    ensures
        final(todo_list).wf(),
        update_task_status_post(
            *old(todo_list),
            user,
            task_id,
            new_status,
            now,
            *final(todo_list),
            r,
        ),
{
    instructions::update_task_status(todo_list, user, task_id, new_status, now)
}

/// Hands a task to a new assignee on behalf of its creator.
/// The program-surface name for [`instructions::assign_task`].
pub fn reassign_task(
    todo_list: &mut UserTodoList,
    creator: Pubkey,
    task_id: u64,
    new_assignee: Pubkey,
    now: i64,
) -> (r: Result<(), TodoError>)
    requires
        old(todo_list).wf(),
        clock_in_order(*old(todo_list), now),
    ensures
        final(todo_list).wf(),
        assign_task_post(*old(todo_list), creator, task_id, new_assignee, now, *final(todo_list), r),
{
    instructions::assign_task(todo_list, creator, task_id, new_assignee, now)
}

} // verus!
