use lockd_in::errors::TodoError;
use lockd_in::state::UserTodoList;
use lockd_in::update_task_status;
use lockd_in::Pubkey;
use lockd_in::TaskCategory;
use lockd_in::TaskPriority;
use lockd_in::TaskStatus;

const DAY: i64 = 86400;

fn pk(n: u64) -> Pubkey {
    Pubkey { w0: n, w1: 0, w2: 0, w3: 0 }
}

fn list_with_tasks(creator: Pubkey, how_many: u64, created_at: i64) -> UserTodoList {
    let mut list = UserTodoList::new(creator, 255);
    for i in 0..how_many {
        let r = lockd_in::create_todo_task(
            &mut list,
            creator,
            format!("task {}", i + 1),
            String::from("body"),
            TaskPriority::Casual,
            TaskCategory::Personal,
            None,
            created_at,
        );
        assert_eq!(r, Ok(()));
    }
    list
}

fn complete(list: &mut UserTodoList, user: Pubkey, task_id: u64, now: i64) -> Result<(), TodoError> {
    update_task_status(list, user, task_id, TaskStatus::Completed, now)
}

#[test]
fn streak_grows_on_consecutive_days_and_resets_after_a_gap() {
    let user = pk(1);
    let mut list = list_with_tasks(user, 3, 0);
    let day_d = 10_000 * DAY;

    // First completion ever: the streak starts at one.
    assert_eq!(complete(&mut list, user, 1, day_d + 100), Ok(()));
    assert_eq!(list.completed_task_streak, 1);
    assert_eq!(list.last_completed_date, Some(day_d + 100));

    // A different task completed the next day: the streak grows.
    assert_eq!(complete(&mut list, user, 2, day_d + DAY + 200), Ok(()));
    assert_eq!(list.completed_task_streak, 2);
    assert_eq!(list.last_completed_date, Some(day_d + DAY + 200));

    // A third completed two days later: the gap resets the streak.
    assert_eq!(complete(&mut list, user, 3, day_d + 3 * DAY + 300), Ok(()));
    assert_eq!(list.completed_task_streak, 1);
    assert_eq!(list.last_completed_date, Some(day_d + 3 * DAY + 300));
}

#[test]
fn a_second_completion_the_same_day_resets_the_streak() {
    let user = pk(1);
    let mut list = list_with_tasks(user, 3, 0);
    let day_d = 20_000 * DAY;

    assert_eq!(complete(&mut list, user, 1, day_d + DAY), Ok(()));
    assert_eq!(complete(&mut list, user, 2, day_d + 2 * DAY), Ok(()));
    assert_eq!(list.completed_task_streak, 2);

    // The same calendar day again: the previous completion is not one day
    // back, so the counter restarts rather than holding.
    assert_eq!(complete(&mut list, user, 3, day_d + 2 * DAY + 500), Ok(()));
    assert_eq!(list.completed_task_streak, 1);
}

#[test]
fn day_boundaries_decide_streak_continuation() {
    let user = pk(1);
    let mut list = list_with_tasks(user, 2, 0);

    // Completed one second before midnight; completing one second after
    // midnight falls on the next day, so the streak continues.
    assert_eq!(complete(&mut list, user, 1, 5 * DAY - 1), Ok(()));
    assert_eq!(complete(&mut list, user, 2, 5 * DAY + 1), Ok(()));
    assert_eq!(list.completed_task_streak, 2);
}

#[test]
fn streak_spans_the_epoch() {
    let user = pk(1);
    let mut list = list_with_tasks(user, 2, -2 * DAY);

    // Day minus one, then day zero: consecutive, so the streak grows. The
    // day index floors negative timestamps rather than rounding them up.
    assert_eq!(complete(&mut list, user, 1, -DAY + 50), Ok(()));
    assert_eq!(list.completed_task_streak, 1);
    assert_eq!(complete(&mut list, user, 2, 50), Ok(()));
    assert_eq!(list.completed_task_streak, 2);
}

#[test]
fn failed_updates_leave_the_streak_alone() {
    let user = pk(1);
    let mut list = list_with_tasks(user, 2, 0);
    assert_eq!(complete(&mut list, user, 1, DAY), Ok(()));
    assert_eq!(list.completed_task_streak, 1);

    // A completed task is terminal; the refusal changes no bookkeeping.
    assert_eq!(
        complete(&mut list, user, 1, 2 * DAY),
        Err(TodoError::TaskAlreadyCompleted)
    );
    assert_eq!(list.completed_task_streak, 1);
    assert_eq!(list.last_completed_date, Some(DAY));

    // A non-completing transition changes no bookkeeping either.
    assert_eq!(update_task_status(&mut list, user, 2, TaskStatus::InProgress, 2 * DAY), Ok(()));
    assert_eq!(list.completed_task_streak, 1);
    assert_eq!(list.last_completed_date, Some(DAY));
}
