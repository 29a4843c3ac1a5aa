//! The task and task-list data model, the well-formedness invariants both
//! types keep, and the calendar-day arithmetic behind the completion streak.

use vstd::arithmetic::div_mod::lemma_div_is_ordered;
use vstd::arithmetic::div_mod::lemma_fundamental_div_mod_converse_div;
use vstd::prelude::*;

verus! {

/// Byte length of a task title may not exceed this.
pub const MAX_TITLE_LENGTH: usize = 50;

/// Byte length of a task description may not exceed this.
pub const MAX_DESCRIPTION_LENGTH: usize = 250;

/// A task list holds at most this many tasks.
pub const MAX_TASKS: usize = 100;

/// Seconds in one calendar day; timestamps are seconds since an epoch.
pub const SECONDS_PER_DAY: i64 = 86400;

/// The byte length of the UTF-8 encoding of a string value.
pub open spec fn byte_len(s: Seq<char>) -> nat {
    vstd::utf8::encode_utf8(s).len()
}

/// The calendar day a timestamp falls on: the floor of `t / 86400`.
/// Spec-mode `/` is Euclidean division, which floors for a positive divisor.
pub open spec fn day_of(t: int) -> int {
    t / (SECONDS_PER_DAY as int)
}

/// The day of the smallest `i64` timestamp.
pub open spec fn min_day() -> int {
    -106751991167301
}

/// The day of the largest `i64` timestamp.
pub open spec fn max_day() -> int {
    106751991167300
}

/// Every `i64` timestamp falls on a day between `min_day()` and `max_day()`.
pub proof fn lemma_day_of_bounds(t: int)
    requires
        i64::MIN <= t <= i64::MAX,
    ensures
        min_day() <= day_of(t) <= max_day(),
{
    lemma_div_is_ordered(i64::MIN as int, t, SECONDS_PER_DAY as int);
    lemma_div_is_ordered(t, i64::MAX as int, SECONDS_PER_DAY as int);
    lemma_fundamental_div_mod_converse_div(i64::MIN as int, 86400, -106751991167301, 30592);
    lemma_fundamental_div_mod_converse_div(i64::MAX as int, 86400, 106751991167300, 55807);
}

/// Turns a timestamp into its calendar-day index.
pub fn day_index(t: i64) -> (d: i64)
    ensures
        d as int == day_of(t as int),
{
    proof {
        lemma_day_of_bounds(t as int);
    }
    match t.checked_div_euclid(SECONDS_PER_DAY) {
        Some(d) => d,
        // Dividing an i64 by 86400 cannot leave the i64 range.
        None => 0,
    }
}

/// An opaque caller identity: a 256-bit key held as four 64-bit words and
/// compared only for equality. The hosting environment authenticates it.
#[derive(Clone, Copy, Debug, PartialEq, Eq, Structural)]
pub struct Pubkey {
    pub w0: u64,
    pub w1: u64,
    pub w2: u64,
    pub w3: u64,
}

/// How urgently a task wants attention. Immutable after creation.
#[derive(Clone, Copy, Debug, PartialEq, Eq, Structural)]
pub enum TaskPriority {
    Leisure,
    Casual,
    Urgent,
}

impl Default for TaskPriority {
    fn default() -> (r: Self)
        ensures
            r == TaskPriority::Casual,
    {
        TaskPriority::Casual
    }
}

/// Where a task stands in its lifecycle.
#[derive(Clone, Copy, Debug, PartialEq, Eq, Structural)]
pub enum TaskStatus {
    Pending,
    InProgress,
    Completed,
    Cancelled,
}

impl Default for TaskStatus {
    fn default() -> (r: Self)
        ensures
            r == TaskStatus::Pending,
    {
        TaskStatus::Pending
    }
}

/// The sphere of life a task belongs to. Immutable after creation.
#[derive(Clone, Copy, Debug, PartialEq, Eq, Structural)]
pub enum TaskCategory {
    Work,
    Personal,
    Home,
    Shopping,
}

impl Default for TaskCategory {
    fn default() -> (r: Self)
        ensures
            r == TaskCategory::Personal,
    {
        TaskCategory::Personal
    }
}

/// A single work item. Its id is unique within the owning list; `creator` is
/// set once at creation and `assignee` changes only through reassignment.
#[derive(Debug)]
pub struct Task {
    pub id: u64,
    pub title: String,
    pub description: String,
    pub creator: Pubkey,
    pub assignee: Option<Pubkey>,
    pub priority: TaskPriority,
    pub status: TaskStatus,
    pub category: TaskCategory,
    pub created_at: i64,
    pub updated_at: i64,
    pub completed_at: Option<i64>,
}

impl Task {
    /// What every stored task satisfies: the length bounds on its texts, the
    /// order of its timestamps, and that `completed_at` is set exactly when
    /// the status is `Completed` (the status never leaves `Completed`, so
    /// "was completed once" and "is completed now" coincide).
    pub open spec fn wf(self) -> bool {
        &&& byte_len(self.title@) <= MAX_TITLE_LENGTH
        &&& byte_len(self.description@) <= MAX_DESCRIPTION_LENGTH
        &&& self.created_at <= self.updated_at
        &&& (self.completed_at is Some <==> self.status == TaskStatus::Completed)
    }

    /// Builds a fresh `Pending` task stamped with the given clock reading.
    pub fn new(
        id: u64,
        title: String,
        description: String,
        creator: Pubkey,
        assignee: Option<Pubkey>,
        priority: TaskPriority,
        category: TaskCategory,
        now: i64,
    ) -> (t: Task)
        ensures
            t == (Task {
                id,
                title,
                description,
                creator,
                assignee,
                priority,
                status: TaskStatus::Pending,
                category,
                created_at: now,
                updated_at: now,
                completed_at: None,
            }),
    {
        Task {
            id,
            title,
            description,
            creator,
            assignee,
            priority,
            status: TaskStatus::Pending,
            category,
            created_at: now,
            updated_at: now,
            completed_at: None,
        }
    }
}

/// No two stored tasks share an id.
pub open spec fn unique_ids(tasks: Seq<Task>) -> bool {
    forall|i: int, j: int|
        #![trigger tasks[i].id, tasks[j].id]
        0 <= i < j < tasks.len() ==> tasks[i].id != tasks[j].id
}

/// The per-owner task list: the tasks in insertion order, the id allocator,
/// and the consecutive-day completion streak.
#[derive(Debug)]
pub struct UserTodoList {
    pub owner: Pubkey,
    pub tasks: Vec<Task>,
    pub task_count: u64,
    pub completed_task_streak: u64,
    pub last_completed_date: Option<i64>,
    pub bump: u8,
}

impl UserTodoList {
    /// The streak bookkeeping in a consistent state: no completion recorded
    /// means no streak, and a recorded one bounds the streak by the number of
    /// days since the earliest representable timestamp. The bound is what a
    /// one-increment-per-day counter can reach, and it keeps the counter far
    /// from overflow.
    pub open spec fn streak_wf(self) -> bool {
        match self.last_completed_date {
            Some(t) => self.completed_task_streak as int <= day_of(t as int) - min_day() + 1,
            None => self.completed_task_streak == 0,
        }
    }

    /// What every reachable task list satisfies: the capacity bound, every
    /// task well formed, ids unique, positive and never above the allocator,
    /// and the streak bookkeeping consistent.
    pub open spec fn wf(self) -> bool {
        &&& self.tasks@.len() <= MAX_TASKS
        &&& forall|i: int| 0 <= i < self.tasks@.len() ==> (#[trigger] self.tasks@[i]).wf()
        &&& forall|i: int|
            0 <= i < self.tasks@.len() ==> 1 <= (#[trigger] self.tasks@[i]).id <= self.task_count
        &&& unique_ids(self.tasks@)
        &&& self.streak_wf()
    }

    /// Builds the empty list for an owner. Creation is idempotent at the
    /// storage layer: the environment calls this only when no list exists
    /// yet, and re-invoking creation on an existing list leaves it alone.
    pub fn new(owner: Pubkey, bump: u8) -> (list: UserTodoList)
        ensures
            list.owner == owner,
            list.tasks@ == Seq::<Task>::empty(),
            list.task_count == 0,
            list.completed_task_streak == 0,
            list.last_completed_date is None,
            list.bump == bump,
            list.wf(),
    {
        let list = UserTodoList {
            owner,
            tasks: Vec::new(),
            task_count: 0,
            completed_task_streak: 0,
            last_completed_date: None,
            bump,
        };
        proof {
            assert(list.tasks@ =~= Seq::<Task>::empty());
        }
        list
    }
}

} // verus!
