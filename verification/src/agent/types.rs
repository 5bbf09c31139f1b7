//! The plan of tasks that an agent reports while it works, and how a new
//! snapshot of that plan is merged into the one already kept.
//!
//! Times are whole milliseconds. A task's `start_time` is a reading of the
//! clock; its `completion_time` is a duration.

use vstd::prelude::*;
use vstd::string::*;
use crate::clock::unix_millis;

verus! {

/// Duration recorded for a task that was reported completed without ever
/// having been seen in progress: a tenth of a second.
pub const EPSILON_MILLIS: u64 = 100;

/// Where a task stands.
#[derive(Debug, Clone, Copy, PartialEq, Eq, Structural, Hash)]
pub enum TaskStatus {
    Pending,
    InProgress,
    Completed,
}

/// One task of a plan.
#[derive(Debug)]
pub struct Task {
    pub content: String,
    pub active_form: String,
    pub status: TaskStatus,
    /// Clock reading at which the task was first seen in progress.
    pub start_time: Option<u64>,
    /// How long the task took, once it has been seen completed.
    pub completion_time: Option<u64>,
}

/// What a `Task` holds, as mathematical values.
pub struct TaskView {
    pub content: Seq<char>,
    pub active_form: Seq<char>,
    pub status: TaskStatus,
    pub start_time: Option<u64>,
    pub completion_time: Option<u64>,
}

impl View for Task {
    type V = TaskView;

    open spec fn view(&self) -> TaskView {
        TaskView {
            content: self.content@,
            active_form: self.active_form@,
            status: self.status,
            start_time: self.start_time,
            completion_time: self.completion_time,
        }
    }
}

impl Clone for Task {
    fn clone(&self) -> (res: Task)
        ensures
            res@ == self@,
    {
        Task {
            content: self.content.clone(),
            active_form: self.active_form.clone(),
            status: self.status,
            start_time: self.start_time,
            completion_time: self.completion_time,
        }
    }
}

/// The time from `start` to `now`, zero where the clock went backwards.
pub open spec fn elapsed_between(start: u64, now: u64) -> u64 {
    if now >= start {
        (now - start) as u64
    } else {
        0
    }
}

/// The task at a position that both the plan and the snapshot have.
///
/// Text and status come from the snapshot. The timing follows the change of
/// status: entering `InProgress` stamps the start, leaving it for
/// `Completed` records the elapsed time, and jumping from `Pending` to
/// `Completed` records the epsilon. Every other change leaves the timing
/// alone.
pub open spec fn merge_task(old: TaskView, new: TaskView, now: u64) -> TaskView {
    TaskView {
        content: new.content,
        active_form: new.active_form,
        status: new.status,
        start_time: if old.status != TaskStatus::InProgress && new.status
            == TaskStatus::InProgress {
            Some(now)
        } else {
            old.start_time
        },
        completion_time: if old.status == TaskStatus::InProgress && new.status
            == TaskStatus::Completed {
            match old.start_time {
                Some(start) => Some(elapsed_between(start, now)),
                None => old.completion_time,
            }
        } else if old.status == TaskStatus::Pending && new.status == TaskStatus::Completed {
            Some(EPSILON_MILLIS)
        } else {
            old.completion_time
        },
    }
}

/// The task appended for a position that only the snapshot has.
pub open spec fn seed_task(new: TaskView, now: u64) -> TaskView {
    TaskView {
        content: new.content,
        active_form: new.active_form,
        status: new.status,
        start_time: if new.status == TaskStatus::InProgress {
            Some(now)
        } else {
            new.start_time
        },
        completion_time: if new.status == TaskStatus::Completed {
            Some(EPSILON_MILLIS)
        } else {
            new.completion_time
        },
    }
}

/// The plan that results from merging the snapshot `new` into `old` at time
/// `now`. Positions are identities: position `i` of the snapshot updates
/// position `i` of the plan. The result never has fewer tasks than `old`.
pub open spec fn merge(old: Seq<TaskView>, new: Seq<TaskView>, now: u64) -> Seq<TaskView> {
    Seq::new(
        if old.len() >= new.len() {
            old.len()
        } else {
            new.len()
        },
        |i: int|
            if i < old.len() && i < new.len() {
                merge_task(old[i], new[i], now)
            } else if i < old.len() {
                old[i]
            } else {
                seed_task(new[i], now)
            },
    )
}

/// How many tasks of the plan are completed.
pub open spec fn count_completed(plan: Seq<TaskView>) -> nat
    decreases plan.len(),
{
    if plan.len() == 0 {
        0
    } else {
        count_completed(plan.drop_last()) + if plan.last().status == TaskStatus::Completed {
            1nat
        } else {
            0nat
        }
    }
}

/// Whether no task before position `i` is in progress.
pub open spec fn none_in_progress_before(plan: Seq<TaskView>, i: int) -> bool {
    forall|j: int| 0 <= j < i && j < plan.len() ==> (#[trigger] plan[j]).status
        != TaskStatus::InProgress
}

/// Whether the plan has a task and all its tasks are completed.
pub open spec fn all_completed(plan: Seq<TaskView>) -> bool {
    plan.len() > 0 && forall|i: int|
        0 <= i < plan.len() ==> (#[trigger] plan[i]).status == TaskStatus::Completed
}

/// The ordered tasks that an agent has reported.
#[derive(Debug)]
pub struct Plan {
    pub todos: Vec<Task>,
}

impl View for Plan {
    type V = Seq<TaskView>;

    open spec fn view(&self) -> Seq<TaskView> {
        Seq::new(self.todos@.len(), |i: int| self.todos@[i]@)
    }
}

impl Clone for Plan {
    fn clone(&self) -> (res: Plan)
        ensures
            res@ == self@,
    {
        let mut todos: Vec<Task> = Vec::new();
        let mut i: usize = 0;
        while i < self.todos.len()
            invariant
                i <= self.todos.len(),
                todos@.len() == i,
                forall|j: int| 0 <= j < i ==> todos@[j]@ == self.todos@[j]@,
            decreases self.todos.len() - i,
        {
            todos.push(self.todos[i].clone());
            i += 1;
        }
        let res = Plan { todos };
        assert(res@ =~= self@);
        res
    }
}

impl Default for Plan {
    fn default() -> (res: Plan)
        ensures
            res@ == Seq::<TaskView>::empty(),
    {
        Plan::new()
    }
}

impl Plan {
    /// The plan without tasks.
    pub fn new() -> (res: Plan)
        ensures
            res@ == Seq::<TaskView>::empty(),
    {
        let res = Plan { todos: Vec::new() };
        assert(res@ =~= Seq::<TaskView>::empty());
        res
    }

    /// Merges the snapshot into this plan at the time `now`.
    pub fn update_at(&mut self, new_plan: &Plan, now: u64)
        ensures
            final(self)@ == merge(old(self)@, new_plan@, now),
    {
        let mut merged: Vec<Task> = Vec::new();
        let old_len = self.todos.len();
        let new_len = new_plan.todos.len();
        let total = if old_len >= new_len {
            old_len
        } else {
            new_len
        };
        let mut i: usize = 0;
        while i < total
            invariant
                i <= total,
                old_len == self.todos.len(),
                new_len == new_plan.todos.len(),
                total == (if old_len >= new_len {
                    old_len
                } else {
                    new_len
                }),
                *self == *old(self),
                merged@.len() == i,
                forall|j: int|
                    0 <= j < i ==> merged@[j]@ == merge(old(self)@, new_plan@, now)[j],
            decreases total - i,
        {
            let task = if i < old_len && i < new_len {
                let existing = &self.todos[i];
                let incoming = &new_plan.todos[i];
                let old_status = existing.status;
                let new_status = incoming.status;
                let mut start_time = existing.start_time;
                let mut completion_time = existing.completion_time;
                if old_status != TaskStatus::InProgress && new_status == TaskStatus::InProgress {
                    start_time = Some(now);
                } else if old_status == TaskStatus::InProgress && new_status
                    == TaskStatus::Completed {
                    if let Some(start) = existing.start_time {
                        completion_time = Some(
                            if now >= start {
                                now - start
                            } else {
                                0
                            },
                        );
                    }
                } else if old_status == TaskStatus::Pending && new_status
                    == TaskStatus::Completed {
                    completion_time = Some(EPSILON_MILLIS);
                }
                Task {
                    content: incoming.content.clone(),
                    active_form: incoming.active_form.clone(),
                    status: new_status,
                    start_time,
                    completion_time,
                }
            } else if i < old_len {
                self.todos[i].clone()
            } else {
                let incoming = &new_plan.todos[i];
                let mut task = incoming.clone();
                if incoming.status == TaskStatus::InProgress {
                    task.start_time = Some(now);
                } else if incoming.status == TaskStatus::Completed {
                    task.completion_time = Some(EPSILON_MILLIS);
                }
                task
            };
            merged.push(task);
            i += 1;
        }
        self.todos = merged;
        assert(self@ =~= merge(old(self)@, new_plan@, now));
    }

    /// Merges the snapshot into this plan at the present reading of the clock.
    pub fn update(&mut self, new_plan: Plan)
        ensures
            exists|now: u64| final(self)@ == merge(old(self)@, new_plan@, now),
    {
        let now = unix_millis();
        self.update_at(&new_plan, now);
    }

    /// The first task that is in progress, if there is one.
    pub fn get_current_task(&self) -> (res: Option<&Task>)
        ensures
            match res {
                Some(task) => exists|i: int|
                    0 <= i < self@.len() && #[trigger] self@[i] == task@ && task.status
                        == TaskStatus::InProgress && none_in_progress_before(self@, i),
                None => none_in_progress_before(self@, self@.len() as int),
            },
    {
        let mut i: usize = 0;
        while i < self.todos.len()
            invariant
                i <= self.todos.len(),
                none_in_progress_before(self@, i as int),
            decreases self.todos.len() - i,
        {
            if self.todos[i].status == TaskStatus::InProgress {
                assert(self@[i as int] == self.todos[i as int]@);
                return Some(&self.todos[i]);
            }
            i += 1;
        }
        None
    }

    /// How many tasks are completed.
    pub fn get_completed_count(&self) -> (n: usize)
        ensures
            n == count_completed(self@),
    {
        let mut n: usize = 0;
        let mut i: usize = 0;
        while i < self.todos.len()
            invariant
                i <= self.todos.len(),
                n <= i,
                n == count_completed(self@.take(i as int)),
            decreases self.todos.len() - i,
        {
            proof {
                assert(self@.take(i + 1).drop_last() == self@.take(i as int));
            }
            if self.todos[i].status == TaskStatus::Completed {
                n += 1;
            }
            i += 1;
        }
        proof {
            assert(self@.take(self.todos.len() as int) == self@);
        }
        n
    }

    /// How many tasks the plan has.
    pub fn get_total_count(&self) -> (n: usize)
        ensures
            n == self@.len(),
    {
        self.todos.len()
    }

    /// Whether the plan has a task and all its tasks are completed.
    pub fn is_complete(&self) -> (b: bool)
        ensures
            b == all_completed(self@),
    {
        if self.todos.len() == 0 {
            return false;
        }
        let mut i: usize = 0;
        while i < self.todos.len()
            invariant
                i <= self.todos.len(),
                forall|j: int| 0 <= j < i ==> (#[trigger] self@[j]).status == TaskStatus::Completed,
            decreases self.todos.len() - i,
        {
            if self.todos[i].status != TaskStatus::Completed {
                assert(self@[i as int].status != TaskStatus::Completed);
                return false;
            }
            i += 1;
        }
        true
    }
}

/// Sending the same snapshot again changes nothing: a task that the first
/// merge left in progress keeps its start, and one that it left completed
/// keeps its duration, whatever the clock reads by then.
pub proof fn law_resend_changes_nothing(
    plan: Seq<TaskView>,
    snapshot: Seq<TaskView>,
    first: u64,
    again: u64,
)
    ensures
        merge(merge(plan, snapshot, first), snapshot, again) == merge(plan, snapshot, first),
{
    assert(merge(merge(plan, snapshot, first), snapshot, again) =~= merge(plan, snapshot, first));
}

/// A merge never drops a task: the plan keeps its length or grows to the
/// snapshot's, and a position beyond the snapshot is left as it was.
pub proof fn law_merge_never_shrinks(plan: Seq<TaskView>, snapshot: Seq<TaskView>, now: u64)
    ensures
        merge(plan, snapshot, now).len() >= plan.len(),
        merge(plan, snapshot, now).len() >= snapshot.len(),
        forall|i: int|
            snapshot.len() <= i < plan.len() ==> merge(plan, snapshot, now)[i] == plan[i],
{
}

} // verus!
