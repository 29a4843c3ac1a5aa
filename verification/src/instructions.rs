//! The three operations that mutate a task list: task creation, status
//! transition, and reassignment. Each takes the caller's identity and the
//! current clock reading as plain values supplied by the hosting
//! environment, validates its inputs and the caller's relationship to the
//! task, and either applies the mutation or returns one typed error while
//! leaving the list exactly as it was.

use vstd::prelude::*;
use vstd::std_specs::vec::vec_index_mut;

use crate::errors::TodoError;
use crate::state::byte_len;
use crate::state::day_of;
use crate::state::day_index;
use crate::state::lemma_day_of_bounds;
use crate::state::min_day;
use crate::state::unique_ids;
use crate::state::Pubkey;
use crate::state::Task;
use crate::state::TaskCategory;
use crate::state::TaskPriority;
use crate::state::TaskStatus;
use crate::state::UserTodoList;
use crate::state::MAX_DESCRIPTION_LENGTH;
use crate::state::MAX_TASKS;
use crate::state::MAX_TITLE_LENGTH;

verus! {

/// Whether the list holds a task with this id.
pub open spec fn has_task(tasks: Seq<Task>, task_id: u64) -> bool {
    exists|i: int| 0 <= i < tasks.len() && (#[trigger] tasks[i]).id == task_id
}

/// The position of the task with this id; meaningful when `has_task` holds
/// and ids are unique.
pub open spec fn task_index(tasks: Seq<Task>, task_id: u64) -> int {
    choose|i: int| 0 <= i < tasks.len() && (#[trigger] tasks[i]).id == task_id
}

/// With unique ids, any position holding the id is the one `task_index`
/// names.
pub proof fn lemma_task_index_of_match(tasks: Seq<Task>, task_id: u64, i: int)
    requires
        unique_ids(tasks),
        0 <= i < tasks.len(),
        tasks[i].id == task_id,
    ensures
        has_task(tasks, task_id),
        task_index(tasks, task_id) == i,
{
    assert(has_task(tasks, task_id));
    let k = task_index(tasks, task_id);
    assert(0 <= k < tasks.len() && tasks[k].id == task_id);
    if k < i {
        assert(tasks[k].id != tasks[i].id);
    }
    if i < k {
        assert(tasks[i].id != tasks[k].id);
    }
}

/// Whether this identity may transition the task: its creator or its
/// current assignee.
pub open spec fn is_authorized_editor(t: Task, user: Pubkey) -> bool {
    t.creator == user || t.assignee == Some(user)
}

/// Whether the lifecycle policy accepts moving a task from `from` to `to`:
/// nothing leaves `Completed`, `Cancelled` resumes only into `InProgress`,
/// and `Pending` and `InProgress` accept any target, the current status
/// included.
pub open spec fn transition_allowed(from: TaskStatus, to: TaskStatus) -> bool {
    match from {
        TaskStatus::Completed => false,
        TaskStatus::Cancelled => to == TaskStatus::InProgress,
        _ => true,
    }
}

/// The streak after recording a completion at `now`: one more than before
/// exactly when the previous completion fell on the day before `now`'s, and
/// otherwise one. A second completion on the same day therefore resets the
/// streak to one rather than preserving it.
pub open spec fn next_streak(last_completed_date: Option<i64>, streak: u64, now: i64) -> int {
    match last_completed_date {
        Some(last) => if day_of(last as int) == day_of(now as int) - 1 {
            streak + 1
        } else {
            1
        },
        None => 1,
    }
}

/// The task a fresh creation stores: `Pending`, both timestamps at `now`,
/// and no completion recorded.
pub open spec fn fresh_task(
    id: u64,
    user: Pubkey,
    title: String,
    description: String,
    priority: TaskPriority,
    category: TaskCategory,
    assignee: Option<Pubkey>,
    now: i64,
) -> Task {
    (Task {
        id,
        title,
        description,
        creator: user,
        assignee,
        priority,
        status: TaskStatus::Pending,
        category,
        created_at: now,
        updated_at: now,
        completed_at: None,
    })
}

/// The task after an accepted status transition at `now`. The completion
/// timestamp is set on the transition into `Completed` and never cleared.
pub open spec fn with_status(t: Task, new_status: TaskStatus, now: i64) -> Task {
    (Task {
        status: new_status,
        updated_at: now,
        completed_at: if new_status == TaskStatus::Completed {
            Some(now)
        } else {
            t.completed_at
        },
        ..t
    })
}

/// The task after reassignment at `now`: the new assignee simply overwrites
/// the old one.
pub open spec fn with_assignee(t: Task, new_assignee: Pubkey, now: i64) -> Task {
    (Task { assignee: Some(new_assignee), updated_at: now, ..t })
}

/// The clock reading does not precede the creation of any stored task. The
/// record invariant `created_at <= updated_at` stands or falls with this;
/// the environment's clock never runs behind a record it produced earlier.
pub open spec fn clock_in_order(list: UserTodoList, now: i64) -> bool {
    forall|i: int| 0 <= i < list.tasks@.len() ==> (#[trigger] list.tasks@[i]).created_at <= now
}

/// Everything task creation promises: the checks in order, first failure
/// wins and leaves the list untouched, and on success exactly one fresh task
/// appended and the allocator advanced by one.
pub open spec fn create_task_post(
    pre: UserTodoList,
    user: Pubkey,
    title: String,
    description: String,
    priority: TaskPriority,
    category: TaskCategory,
    assignee: Option<Pubkey>,
    now: i64,
    post: UserTodoList,
    r: Result<(), TodoError>,
) -> bool {
    if byte_len(title@) > MAX_TITLE_LENGTH || byte_len(description@) > MAX_DESCRIPTION_LENGTH {
        r == Err::<(), TodoError>(TodoError::InvalidTitle) && post == pre
    } else if pre.tasks@.len() >= MAX_TASKS || pre.task_count == u64::MAX {
        r == Err::<(), TodoError>(TodoError::MaxTasksLimitReached) && post == pre
    } else {
        &&& r is Ok
        &&& post.tasks@ == pre.tasks@.push(
            fresh_task(
                (pre.task_count + 1) as u64,
                user,
                title,
                description,
                priority,
                category,
                assignee,
                now,
            ),
        )
        &&& post.task_count == pre.task_count + 1
        &&& post.owner == pre.owner
        &&& post.completed_task_streak == pre.completed_task_streak
        &&& post.last_completed_date == pre.last_completed_date
        &&& post.bump == pre.bump
    }
}

/// Everything a status update promises: lookup, authorization and the
/// transition policy checked in that order, each failure leaving the list
/// untouched; on acceptance the one task restamped, and the streak advanced
/// exactly on the transition into `Completed`.
pub open spec fn update_task_status_post(
    pre: UserTodoList,
    user: Pubkey,
    task_id: u64,
    new_status: TaskStatus,
    now: i64,
    post: UserTodoList,
    r: Result<(), TodoError>,
) -> bool {
    if !has_task(pre.tasks@, task_id) {
        r == Err::<(), TodoError>(TodoError::TaskNotFound) && post == pre
    } else {
        let i = task_index(pre.tasks@, task_id);
        let t = pre.tasks@[i];
        if !is_authorized_editor(t, user) {
            r == Err::<(), TodoError>(TodoError::UnauthorizedModification) && post == pre
        } else if t.status == TaskStatus::Completed {
            r == Err::<(), TodoError>(TodoError::TaskAlreadyCompleted) && post == pre
        } else if t.status == TaskStatus::Cancelled && new_status != TaskStatus::InProgress {
            r == Err::<(), TodoError>(TodoError::InvalidStatusTransition) && post == pre
        } else {
            &&& r is Ok
            &&& post.tasks@ == pre.tasks@.update(i, with_status(t, new_status, now))
            &&& post.owner == pre.owner
            &&& post.task_count == pre.task_count
            &&& post.bump == pre.bump
            &&& if new_status == TaskStatus::Completed {
                &&& post.completed_task_streak as int == next_streak(
                    pre.last_completed_date,
                    pre.completed_task_streak,
                    now,
                )
                &&& post.last_completed_date == Some(now)
            } else {
                &&& post.completed_task_streak == pre.completed_task_streak
                &&& post.last_completed_date == pre.last_completed_date
            }
        }
    }
}

/// Everything reassignment promises: a missing id and a caller other than
/// the creator both fail with the authorization error and leave the list
/// untouched; on success the one task carries the new assignee, and nothing
/// else moves.
pub open spec fn assign_task_post(
    pre: UserTodoList,
    creator: Pubkey,
    task_id: u64,
    new_assignee: Pubkey,
    now: i64,
    post: UserTodoList,
    r: Result<(), TodoError>,
) -> bool {
    if !has_task(pre.tasks@, task_id) {
        r == Err::<(), TodoError>(TodoError::UnauthorizedModification) && post == pre
    } else {
        let i = task_index(pre.tasks@, task_id);
        let t = pre.tasks@[i];
        if t.creator != creator {
            r == Err::<(), TodoError>(TodoError::UnauthorizedModification) && post == pre
        } else {
            &&& r is Ok
            &&& post.tasks@ == pre.tasks@.update(i, with_assignee(t, new_assignee, now))
            &&& post.owner == pre.owner
            &&& post.task_count == pre.task_count
            &&& post.completed_task_streak == pre.completed_task_streak
            &&& post.last_completed_date == pre.last_completed_date
            &&& post.bump == pre.bump
        }
    }
}

/// The position of the task with this id, or `None` when no task has it.
fn find_task_index(tasks: &Vec<Task>, task_id: u64) -> (out: Option<usize>)
    ensures
        out is Some <==> has_task(tasks@, task_id),
        match out {
            Some(i) => i < tasks@.len() && tasks@[i as int].id == task_id,
            None => true,
        },
{
    let n = tasks.len();
    let mut i: usize = 0;
    while i < n
        invariant
            i <= n,
            n == tasks@.len(),
            forall|j: int| 0 <= j < i ==> (#[trigger] tasks@[j]).id != task_id,
        decreases n - i,
    {
        if tasks[i].id == task_id {
            return Some(i);
        }
        i = i + 1;
    }
    None
}

/// The streak value a completion at `now` produces, given the previous
/// completion record. The bound carried in is the list invariant's; it rules
/// out overflow and comes back out re-anchored at `now`.
fn bump_streak(last_completed_date: Option<i64>, streak: u64, now: i64) -> (s: u64)
    requires
        match last_completed_date {
            Some(last) => streak as int <= day_of(last as int) - min_day() + 1,
            None => streak == 0,
        },
    ensures
        s as int == next_streak(last_completed_date, streak, now),
        s as int <= day_of(now as int) - min_day() + 1,
{
    proof {
        lemma_day_of_bounds(now as int);
    }
    let today = day_index(now);
    match last_completed_date {
        Some(last_completed) => {
            proof {
                lemma_day_of_bounds(last_completed as int);
            }
            let last_completed_day = day_index(last_completed);
            if last_completed_day == today - 1 {
                streak + 1
            } else {
                1
            }
        },
        None => 1,
    }
}

/// Creates a task from the given inputs on behalf of `user`, who becomes its
/// creator. The title and description bounds are checked first (both report
/// `InvalidTitle`), then the capacity of the list; the id is the next value
/// of the allocator, which refuses to wrap around.
pub fn create_task(
    todo_list: &mut UserTodoList,
    user: Pubkey,
    title: String,
    description: String,
    priority: TaskPriority,
    category: TaskCategory,
    assignee: Option<Pubkey>,
    now: i64,
) -> (r: Result<(), TodoError>)
    requires
        old(todo_list).wf(),
    ensures
        final(todo_list).wf(),
        create_task_post(
            *old(todo_list),
            user,
            title,
            description,
            priority,
            category,
            assignee,
            now,
            *final(todo_list),
            r,
        ),
{
    if title.as_str().as_bytes().len() > MAX_TITLE_LENGTH {
        return Err(TodoError::InvalidTitle);
    }
    if description.as_str().as_bytes().len() > MAX_DESCRIPTION_LENGTH {
        return Err(TodoError::InvalidTitle);
    }
    if todo_list.tasks.len() >= MAX_TASKS {
        return Err(TodoError::MaxTasksLimitReached);
    }
    let task_id = match todo_list.task_count.checked_add(1) {
        Some(id) => id,
        None => {
            return Err(TodoError::MaxTasksLimitReached);
        },
    };
    let new_task = Task::new(task_id, title, description, user, assignee, priority, category, now);
    todo_list.tasks.push(new_task);
    todo_list.task_count = task_id;
    proof {
        let pre = *old(todo_list);
        let post = *todo_list;
        let m = pre.tasks@.len() as int;
        assert forall|k: int| 0 <= k < post.tasks@.len() implies (#[trigger] post.tasks@[k]).wf() by {
            if k < m {
                assert(post.tasks@[k] == pre.tasks@[k]);
            }
        }
        assert forall|k: int|
            0 <= k < post.tasks@.len() implies 1 <= (#[trigger] post.tasks@[k]).id
            <= post.task_count by {
            if k < m {
                assert(post.tasks@[k] == pre.tasks@[k]);
            }
        }
        assert forall|a: int, b: int|
            #![trigger post.tasks@[a].id, post.tasks@[b].id]
            0 <= a < b < post.tasks@.len() implies post.tasks@[a].id != post.tasks@[b].id by {
            if b < m {
                assert(post.tasks@[a] == pre.tasks@[a]);
                assert(post.tasks@[b] == pre.tasks@[b]);
            } else {
                assert(post.tasks@[a] == pre.tasks@[a]);
                assert(pre.tasks@[a].id <= pre.task_count);
            }
        }
    }
    Ok(())
}

/// Moves the task with `task_id` to `new_status` on behalf of `user`, who
/// must be its creator or assignee. On the transition into `Completed` the
/// task is stamped completed and the list's streak is advanced: by one when
/// the previous completion fell exactly one day earlier, and otherwise back
/// to one.
pub fn update_task_status(
    todo_list: &mut UserTodoList,
    user: Pubkey,
    task_id: u64,
    new_status: TaskStatus,
    now: i64,
) -> (r: Result<(), TodoError>)
    requires
        old(todo_list).wf(),
        clock_in_order(*old(todo_list), now),
    ensures
        final(todo_list).wf(),
        update_task_status_post(
            *old(todo_list),
            user,
            task_id,
            new_status,
            now,
            *final(todo_list),
            r,
        ),
{
    let idx = match find_task_index(&todo_list.tasks, task_id) {
        Some(i) => i,
        None => {
            return Err(TodoError::TaskNotFound);
        },
    };
    proof {
        lemma_task_index_of_match(todo_list.tasks@, task_id, idx as int);
    }
    let task_ref = &todo_list.tasks[idx];
    let authorized = task_ref.creator == user || (match &task_ref.assignee {
        Some(a) => *a == user,
        None => false,
    });
    if !authorized {
        return Err(TodoError::UnauthorizedModification);
    }
    let current_status = task_ref.status;
    if current_status == TaskStatus::Completed {
        return Err(TodoError::TaskAlreadyCompleted);
    }
    if current_status == TaskStatus::Cancelled && new_status != TaskStatus::InProgress {
        return Err(TodoError::InvalidStatusTransition);
    }
    let task = vec_index_mut(&mut todo_list.tasks, idx);
    task.status = new_status;
    task.updated_at = now;
    if new_status == TaskStatus::Completed {
        task.completed_at = Some(now);
    }
    if new_status == TaskStatus::Completed {
        todo_list.completed_task_streak = bump_streak(
            todo_list.last_completed_date,
            todo_list.completed_task_streak,
            now,
        );
        todo_list.last_completed_date = Some(now);
    }
    proof {
        let pre = *old(todo_list);
        let post = *todo_list;
        let i = idx as int;
        let t0 = pre.tasks@[i];
        assert(post.tasks@ == pre.tasks@.update(i, with_status(t0, new_status, now)));
        assert forall|k: int| 0 <= k < post.tasks@.len() implies (#[trigger] post.tasks@[k]).wf() by {
            if k != i {
                assert(post.tasks@[k] == pre.tasks@[k]);
            }
        }
        assert forall|k: int|
            0 <= k < post.tasks@.len() implies 1 <= (#[trigger] post.tasks@[k]).id
            <= post.task_count by {
            if k != i {
                assert(post.tasks@[k] == pre.tasks@[k]);
            }
        }
        assert forall|a: int, b: int|
            #![trigger post.tasks@[a].id, post.tasks@[b].id]
            0 <= a < b < post.tasks@.len() implies post.tasks@[a].id != post.tasks@[b].id by {
            assert(post.tasks@[a].id == pre.tasks@[a].id);
            assert(post.tasks@[b].id == pre.tasks@[b].id);
        }
    }
    Ok(())
}

/// Reassigns the task with `task_id` to `new_assignee` on behalf of
/// `creator`, who must be the task's creator. Both a missing id and a
/// foreign caller report the authorization error; status, streak and every
/// other field stay as they were.
pub fn assign_task(
    todo_list: &mut UserTodoList,
    creator: Pubkey,
    task_id: u64,
    new_assignee: Pubkey,
    now: i64,
) -> (r: Result<(), TodoError>)
    requires
        old(todo_list).wf(),
        clock_in_order(*old(todo_list), now),
    ensures
        final(todo_list).wf(),
        assign_task_post(
            *old(todo_list),
            creator,
            task_id,
            new_assignee,
            now,
            *final(todo_list),
            r,
        ),
{
    let idx = match find_task_index(&todo_list.tasks, task_id) {
        Some(i) => i,
        None => {
            return Err(TodoError::UnauthorizedModification);
        },
    };
    proof {
        lemma_task_index_of_match(todo_list.tasks@, task_id, idx as int);
    }
    if !(todo_list.tasks[idx].creator == creator) {
        return Err(TodoError::UnauthorizedModification);
    }
    let task = vec_index_mut(&mut todo_list.tasks, idx);
    task.assignee = Some(new_assignee);
    task.updated_at = now;
    proof {
        let pre = *old(todo_list);
        let post = *todo_list;
        let i = idx as int;
        let t0 = pre.tasks@[i];
        assert(post.tasks@ == pre.tasks@.update(i, with_assignee(t0, new_assignee, now)));
        assert forall|k: int| 0 <= k < post.tasks@.len() implies (#[trigger] post.tasks@[k]).wf() by {
            if k != i {
                assert(post.tasks@[k] == pre.tasks@[k]);
            }
        }
        assert forall|k: int|
            0 <= k < post.tasks@.len() implies 1 <= (#[trigger] post.tasks@[k]).id
            <= post.task_count by {
            if k != i {
                assert(post.tasks@[k] == pre.tasks@[k]);
            }
        }
        assert forall|a: int, b: int|
            #![trigger post.tasks@[a].id, post.tasks@[b].id]
            0 <= a < b < post.tasks@.len() implies post.tasks@[a].id != post.tasks@[b].id by {
            assert(post.tasks@[a].id == pre.tasks@[a].id);
            assert(post.tasks@[b].id == pre.tasks@[b].id);
        }
    }
    Ok(())
}

} // verus!
