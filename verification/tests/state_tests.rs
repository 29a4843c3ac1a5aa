use lockd_in::state::day_index;
use lockd_in::state::UserTodoList;
use lockd_in::Pubkey;
use lockd_in::Task;
use lockd_in::TaskCategory;
use lockd_in::TaskPriority;
use lockd_in::TaskStatus;

fn pk(n: u64) -> Pubkey {
    Pubkey { w0: n, w1: 0, w2: 0, w3: 0 }
}

#[test]
fn new_task_is_pending_and_stamped() {
    let t = Task::new(
        3,
        String::from("write report"),
        String::from("quarterly numbers"),
        pk(1),
        Some(pk(2)),
        TaskPriority::Urgent,
        TaskCategory::Work,
        1_700_000_000,
    );
    assert_eq!(t.id, 3);
    assert_eq!(t.title, String::from("write report"));
    assert_eq!(t.description, String::from("quarterly numbers"));
    assert_eq!(t.creator, pk(1));
    assert_eq!(t.assignee, Some(pk(2)));
    assert_eq!(t.priority, TaskPriority::Urgent);
    assert_eq!(t.category, TaskCategory::Work);
    assert_eq!(t.status, TaskStatus::Pending);
    assert_eq!(t.created_at, 1_700_000_000);
    assert_eq!(t.updated_at, 1_700_000_000);
    assert_eq!(t.completed_at, None);
}

#[test]
fn new_list_is_empty() {
    let list = UserTodoList::new(pk(9), 254);
    assert_eq!(list.owner, pk(9));
    assert_eq!(list.tasks.len(), 0);
    assert_eq!(list.task_count, 0);
    assert_eq!(list.completed_task_streak, 0);
    assert_eq!(list.last_completed_date, None);
    assert_eq!(list.bump, 254);
}

#[test]
fn defaults_match_the_documented_ones() {
    assert_eq!(TaskPriority::default(), TaskPriority::Casual);
    assert_eq!(TaskStatus::default(), TaskStatus::Pending);
    assert_eq!(TaskCategory::default(), TaskCategory::Personal);
}

#[test]
fn day_index_floors_at_day_boundaries() {
    assert_eq!(day_index(0), 0);
    assert_eq!(day_index(86399), 0);
    assert_eq!(day_index(86400), 1);
    assert_eq!(day_index(2 * 86400 - 1), 1);
}

#[test]
fn day_index_floors_negative_timestamps() {
    assert_eq!(day_index(-1), -1);
    assert_eq!(day_index(-86400), -1);
    assert_eq!(day_index(-86401), -2);
}

#[test]
fn day_index_handles_the_extremes() {
    assert_eq!(day_index(i64::MAX), 106751991167300);
    assert_eq!(day_index(i64::MIN), -106751991167301);
}
