//! What happens when the agent rewrites its list of tasks: the list is
//! merged into the session's plan, and the merged plan is shown.

use vstd::prelude::*;
use vstd::string::*;
use crate::agent::manager::AgentManager;
use crate::agent::types::{count_completed, merge, Plan, TaskStatus, TaskView};
use crate::slack::progress::{plan_text, ProgressAction, ProgressTracker};
use crate::slack::types::ChannelId;
use crate::text::{decimal, join, join_strings, push_decimal, views};

verus! {

/// How many tasks of a plan have the status `status`.
pub open spec fn count_status(plan: Seq<TaskView>, status: TaskStatus) -> nat
    decreases plan.len(),
{
    if plan.len() == 0 {
        0
    } else {
        count_status(plan.drop_last(), status) + if plan.last().status == status {
            1nat
        } else {
            0nat
        }
    }
}

/// How many tasks of a snapshot stand where.
#[derive(Debug, Clone, Copy, PartialEq, Eq, Structural)]
pub struct TodoCounts {
    pub total: usize,
    pub completed: usize,
    pub in_progress: usize,
    pub pending: usize,
}

/// Counts the tasks of `plan` by status.
pub fn count_todos(plan: &Plan) -> (res: TodoCounts)
    ensures
        res.total == plan@.len(),
        res.completed == count_status(plan@, TaskStatus::Completed),
        res.in_progress == count_status(plan@, TaskStatus::InProgress),
        res.pending == count_status(plan@, TaskStatus::Pending),
{
    let mut completed: usize = 0;
    let mut in_progress: usize = 0;
    let mut pending: usize = 0;
    let mut i: usize = 0;
    while i < plan.todos.len()
        invariant
            i <= plan.todos.len(),
            completed + in_progress + pending == i,
            completed == count_status(plan@.take(i as int), TaskStatus::Completed),
            in_progress == count_status(plan@.take(i as int), TaskStatus::InProgress),
            pending == count_status(plan@.take(i as int), TaskStatus::Pending),
        decreases plan.todos.len() - i,
    {
        proof {
            assert(plan@.take(i + 1).drop_last() =~= plan@.take(i as int));
        }
        match plan.todos[i].status {
            TaskStatus::Completed => {
                completed += 1;
            },
            TaskStatus::InProgress => {
                in_progress += 1;
            },
            TaskStatus::Pending => {
                pending += 1;
            },
        }
        i += 1;
    }
    proof {
        assert(plan@.take(plan.todos.len() as int) =~= plan@);
    }
    TodoCounts { total: plan.todos.len(), completed, in_progress, pending }
}

/// The hook that follows the agent's task list for one channel.
#[derive(Debug)]
pub struct TodoHooks {
    pub channel_id: ChannelId,
}

/// The hook for the channel.
pub fn create_todo_hooks(channel_id: ChannelId) -> (res: TodoHooks)
    ensures
        res.channel_id@ == channel_id@,
{
    TodoHooks { channel_id }
}

impl TodoHooks {
    /// Takes in a snapshot of the agent's tasks at `now`: merges it into
    /// the plan of the channel's session and says how to show the
    /// result. Where the channel has no session the snapshot itself is
    /// shown, without timing.
    pub fn post_tool_use(
        &self,
        agents: &mut AgentManager,
        tracker: &ProgressTracker,
        snapshot: &Plan,
        now: u64,
    ) -> (res: ProgressAction)
        ensures
            final(agents).timeout() == old(agents).timeout(),
            final(agents)@ == (if old(agents)@.contains_key(self.channel_id@) {
                old(agents)@.insert(
                    self.channel_id@,
                    crate::agent::repo_agent::RepoAgentView {
                        plan: merge(old(agents)@[self.channel_id@].plan, snapshot@, now),
                        ..old(agents)@[self.channel_id@]
                    },
                )
            } else {
                old(agents)@
            }),
            shows(
                res,
                tracker@,
                self.channel_id@,
                plan_text(
                    if old(agents)@.contains_key(self.channel_id@) {
                        merge(old(agents)@[self.channel_id@].plan, snapshot@, now)
                    } else {
                        snapshot@
                    },
                    now,
                ),
            ),
    {
        let plan_to_display = match agents.update_plan_at(&self.channel_id, snapshot, now) {
            Ok(merged) => merged,
            Err(_) => snapshot.clone(),
        };
        tracker.update_progress_at(&self.channel_id, &plan_to_display, now)
    }
}

/// Whether `action` shows `text` as the progress of `channel`: by editing
/// the channel's live message, or by posting where it has none.
pub open spec fn shows(
    action: ProgressAction,
    live: Map<Seq<char>, Seq<char>>,
    channel: Seq<char>,
    text: Seq<char>,
) -> bool {
    if live.contains_key(channel) {
        action matches ProgressAction::Edit { ts, text: shown } && ts@ == live[channel] && shown@
            == text
    } else {
        action matches ProgressAction::Post { text: shown } && shown@ == text
    }
}

/// The mark that stands for a status in a summary.
pub open spec fn summary_mark(status: TaskStatus) -> Seq<char> {
    match status {
        TaskStatus::Completed => "✅"@,
        TaskStatus::InProgress => "⏳"@,
        TaskStatus::Pending => "⬜"@,
    }
}

/// The line of one task in a summary.
pub open spec fn summary_line(task: TaskView) -> Seq<char> {
    summary_mark(task.status) + " "@ + if task.status == TaskStatus::InProgress {
        task.active_form
    } else {
        task.content
    }
}

/// The position of the first task in progress; the length of the plan
/// where there is none.
pub open spec fn current_index(plan: Seq<TaskView>, i: int) -> int
    decreases plan.len() - i,
{
    if 0 <= i < plan.len() && plan[i].status != TaskStatus::InProgress {
        current_index(plan, i + 1)
    } else {
        i
    }
}

/// The lines above the tasks: the count, and the task in progress if
/// there is one.
pub open spec fn summary_head(plan: Seq<TaskView>) -> Seq<Seq<char>> {
    let progress = "Progress: "@ + decimal(count_completed(plan)) + "/"@ + decimal(plan.len());
    if current_index(plan, 0) < plan.len() {
        seq![progress, "Current: "@ + plan[current_index(plan, 0)].active_form]
    } else {
        seq![progress]
    }
}

/// The lines of a summary.
pub open spec fn summary_lines(plan: Seq<TaskView>) -> Seq<Seq<char>> {
    summary_head(plan) + Seq::new(plan.len(), |i: int| summary_line(plan[i]))
}

/// A short summary of the plan: how far it is, what is being done, and
/// the tasks one per line.
pub fn format_plan_summary(plan: &Plan) -> (res: String)
    ensures
        res@ == join(summary_lines(plan@), "\n"@),
{
    let completed = plan.get_completed_count();
    let total = plan.get_total_count();
    let mut lines: Vec<String> = Vec::new();
    let mut progress = String::from_str("Progress: ");
    push_decimal(&mut progress, completed as u128);
    progress.append("/");
    push_decimal(&mut progress, total as u128);
    lines.push(progress);
    let mut k: usize = 0;
    while k < plan.todos.len() && plan.todos[k].status != TaskStatus::InProgress
        invariant
            k <= plan.todos.len(),
            current_index(plan@, k as int) == current_index(plan@, 0),
        decreases plan.todos.len() - k,
    {
        k += 1;
    }
    if k < plan.todos.len() {
        let mut current = String::from_str("Current: ");
        current.append(plan.todos[k].active_form.as_str());
        lines.push(current);
    }
    assert(views(lines@) =~= summary_head(plan@));
    let ghost head = views(lines@);
    let mut i: usize = 0;
    while i < plan.todos.len()
        invariant
            i <= plan.todos.len(),
            head == summary_head(plan@),
            lines@.len() == head.len() + i,
            forall|j: int| 0 <= j < head.len() ==> (#[trigger] lines@[j])@ == head[j],
            forall|j: int|
                0 <= j < i ==> (#[trigger] lines@[head.len() + j])@ == summary_line(plan@[j]),
        decreases plan.todos.len() - i,
    {
        let task = &plan.todos[i];
        let mut line = String::from_str(
            match task.status {
                TaskStatus::Completed => "✅",
                TaskStatus::InProgress => "⏳",
                TaskStatus::Pending => "⬜",
            },
        );
        line.append(" ");
        if task.status == TaskStatus::InProgress {
            line.append(task.active_form.as_str());
        } else {
            line.append(task.content.as_str());
        }
        lines.push(line);
        i += 1;
    }
    proof {
        assert(views(lines@).len() == summary_lines(plan@).len());
        assert forall|j: int| 0 <= j < lines@.len() implies views(lines@)[j] == summary_lines(
            plan@,
        )[j] by {
            if j >= head.len() {
                let t = j - head.len();
                assert(lines@[head.len() + t]@ == summary_line(plan@[t]));
            }
        }
        assert(views(lines@) =~= summary_lines(plan@));
    }
    join_strings(&lines, "\n")
}

} // verus!
