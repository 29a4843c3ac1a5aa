use lockd_in::create_todo_task;
use lockd_in::errors::TodoError;
use lockd_in::state::UserTodoList;
use lockd_in::Pubkey;
use lockd_in::TaskCategory;
use lockd_in::TaskPriority;
use lockd_in::TaskStatus;

fn pk(n: u64) -> Pubkey {
    Pubkey { w0: n, w1: 0, w2: 0, w3: 0 }
}

fn create(
    list: &mut UserTodoList,
    user: Pubkey,
    title: &str,
    description: &str,
    now: i64,
) -> Result<(), TodoError> {
    create_todo_task(
        list,
        user,
        String::from(title),
        String::from(description),
        TaskPriority::Casual,
        TaskCategory::Personal,
        None,
        now,
    )
}

#[test]
fn create_appends_one_task_with_the_next_id() {
    let mut list = UserTodoList::new(pk(1), 255);
    let r = create(&mut list, pk(1), "buy milk", "two litres", 1000);
    assert_eq!(r, Ok(()));
    assert_eq!(list.tasks.len(), 1);
    assert_eq!(list.task_count, 1);
    let t = &list.tasks[0];
    assert_eq!(t.id, 1);
    assert_eq!(t.creator, pk(1));
    assert_eq!(t.status, TaskStatus::Pending);
    assert_eq!(t.created_at, 1000);
    assert_eq!(t.updated_at, 1000);
    assert_eq!(t.completed_at, None);

    let r2 = create(&mut list, pk(1), "call bank", "ask about fees", 1010);
    assert_eq!(r2, Ok(()));
    assert_eq!(list.tasks.len(), 2);
    assert_eq!(list.task_count, 2);
    assert_eq!(list.tasks[1].id, 2);
    // The first task is untouched.
    assert_eq!(list.tasks[0].title, String::from("buy milk"));
    assert_eq!(list.tasks[0].updated_at, 1000);
}

#[test]
fn create_accepts_titles_and_descriptions_at_the_bounds() {
    let mut list = UserTodoList::new(pk(1), 255);
    let title = "t".repeat(50);
    let description = "d".repeat(250);
    let r = create(&mut list, pk(1), &title, &description, 5);
    assert_eq!(r, Ok(()));
    assert_eq!(list.tasks.len(), 1);
}

#[test]
fn create_rejects_a_long_title() {
    let mut list = UserTodoList::new(pk(1), 255);
    let title = "t".repeat(51);
    let r = create(&mut list, pk(1), &title, "fine", 5);
    assert_eq!(r, Err(TodoError::InvalidTitle));
    assert_eq!(list.tasks.len(), 0);
    assert_eq!(list.task_count, 0);
}

#[test]
fn create_rejects_a_long_description() {
    let mut list = UserTodoList::new(pk(1), 255);
    let description = "d".repeat(251);
    let r = create(&mut list, pk(1), "fine", &description, 5);
    assert_eq!(r, Err(TodoError::InvalidTitle));
    assert_eq!(list.tasks.len(), 0);
}

#[test]
fn title_bound_counts_bytes_not_characters() {
    let mut list = UserTodoList::new(pk(1), 255);
    // Seventeen three-byte characters: 17 characters, 51 bytes.
    let title = "\u{20AC}".repeat(17);
    assert_eq!(title.chars().count(), 17);
    assert_eq!(title.len(), 51);
    let r = create(&mut list, pk(1), &title, "fine", 5);
    assert_eq!(r, Err(TodoError::InvalidTitle));
    assert_eq!(list.tasks.len(), 0);
}

#[test]
fn create_rejects_the_hundred_and_first_task() {
    let mut list = UserTodoList::new(pk(1), 255);
    for i in 0..100 {
        let r = create(&mut list, pk(1), "task", "body", 100 + i);
        assert_eq!(r, Ok(()));
    }
    assert_eq!(list.tasks.len(), 100);
    assert_eq!(list.task_count, 100);
    let r = create(&mut list, pk(1), "one too many", "body", 300);
    assert_eq!(r, Err(TodoError::MaxTasksLimitReached));
    assert_eq!(list.tasks.len(), 100);
    assert_eq!(list.task_count, 100);
}

#[test]
fn create_rejects_an_exhausted_id_allocator() {
    let mut list = UserTodoList::new(pk(1), 255);
    // The allocator only grows; a list whose counter has reached the top
    // refuses to wrap around.
    list.task_count = u64::MAX;
    let r = create(&mut list, pk(1), "task", "body", 5);
    assert_eq!(r, Err(TodoError::MaxTasksLimitReached));
    assert_eq!(list.tasks.len(), 0);
    assert_eq!(list.task_count, u64::MAX);
}

#[test]
fn create_keeps_the_streak_fields() {
    let mut list = UserTodoList::new(pk(1), 255);
    list.completed_task_streak = 4;
    list.last_completed_date = Some(400_000);
    let r = create(&mut list, pk(1), "task", "body", 500_000);
    assert_eq!(r, Ok(()));
    assert_eq!(list.completed_task_streak, 4);
    assert_eq!(list.last_completed_date, Some(400_000));
}
