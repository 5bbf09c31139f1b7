//! The live progress message: how a plan is written out, and which
//! message of a channel shows it.
//!
//! Each channel has at most one live progress message. An update edits it;
//! only where there is none yet is a new one posted.

use vstd::prelude::*;
use vstd::string::*;
use dashmap::DashMap;
use crate::agent::types::{count_completed, elapsed_between, Plan, Task, TaskStatus, TaskView};
use crate::clock::unix_millis;
use crate::slack::types::{ChannelId, MessageTs};
use crate::store::{
    references, references_get, references_insert, references_new, references_remove,
};
use crate::text::{decimal, join, join_strings, push_decimal, repeat, repeat_str, views};

verus! {

/// A duration of `millis` milliseconds, written for people: below a minute
/// in seconds with one decimal, below an hour in minutes and seconds, above
/// that in hours and minutes. Fractions are rounded to the nearest, halves
/// up.
pub open spec fn duration_text(millis: u64) -> Seq<char> {
    if millis < 60_000 {
        decimal(((millis + 50) / 100 / 10) as nat) + "."@ + decimal(
            ((millis + 50) / 100 % 10) as nat,
        ) + "s"@
    } else if millis < 3_600_000 {
        decimal((millis / 60_000) as nat) + "m "@ + decimal(
            ((millis % 60_000 + 500) / 1000) as nat,
        ) + "s"@
    } else {
        decimal((millis / 3_600_000) as nat) + "h "@ + decimal(
            (millis % 3_600_000 / 60_000) as nat,
        ) + "m"@
    }
}

/// The share of completed tasks in percent, rounded down; zero for an
/// empty plan.
pub open spec fn percentage(completed: nat, total: nat) -> nat {
    if total > 0 {
        completed * 100 / total
    } else {
        0
    }
}

/// How many of the bar's ten cells are filled: a tenth of the share,
/// rounded up, and never more than a `usize` holds.
pub open spec fn filled_cells(completed: nat, total: nat) -> nat {
    if total > 0 {
        let cells = (completed * 10 + total - 1) / (total as int);
        if cells > usize::MAX {
            usize::MAX as nat
        } else {
            cells as nat
        }
    } else {
        0
    }
}

/// How many cells are left empty.
pub open spec fn empty_cells(completed: nat, total: nat) -> nat {
    if filled_cells(completed, total) >= 10 {
        0
    } else {
        (10 - filled_cells(completed, total)) as nat
    }
}

/// The headline with the bar below it.
pub open spec fn progress_bar_text(completed: nat, total: nat) -> Seq<char> {
    "*Task Progress* — "@ + decimal(completed) + " of "@ + decimal(total) + " complete ("@
        + decimal(percentage(completed, total)) + "%)\n["@ + repeat(
        "█"@,
        filled_cells(completed, total),
    ) + repeat("░"@, empty_cells(completed, total)) + "]"@
}

/// The icon that stands for a status.
pub open spec fn status_icon(status: TaskStatus) -> Seq<char> {
    match status {
        TaskStatus::Completed => ":ballot_box_with_check:"@,
        TaskStatus::InProgress => ":arrows_counterclockwise:"@,
        TaskStatus::Pending => ":white_medium_square:"@,
    }
}

/// The time shown behind a task at `now`: what a completed task took, how
/// long one in progress has been running, nothing where that is unknown.
pub open spec fn timing_text(task: TaskView, now: u64) -> Seq<char> {
    match task.status {
        TaskStatus::Completed => match task.completion_time {
            Some(took) => " `"@ + duration_text(took) + "`"@,
            None => Seq::empty(),
        },
        TaskStatus::InProgress => match task.start_time {
            Some(start) => " `"@ + duration_text(elapsed_between(start, now)) + "`"@,
            None => Seq::empty(),
        },
        TaskStatus::Pending => Seq::empty(),
    }
}

/// The line of one task: icon, text, timing. A task in progress shows its
/// active form, any other its content.
pub open spec fn task_line(task: TaskView, now: u64) -> Seq<char> {
    status_icon(task.status) + " "@ + (if task.status == TaskStatus::InProgress {
        task.active_form
    } else {
        task.content
    }) + timing_text(task, now)
}

/// The lines of a plan: the bar, then one line per task.
pub open spec fn plan_lines(plan: Seq<TaskView>, now: u64) -> Seq<Seq<char>> {
    Seq::new(
        plan.len() + 1,
        |i: int|
            if i == 0 {
                progress_bar_text(count_completed(plan), plan.len())
            } else {
                task_line(plan[i - 1], now)
            },
    )
}

/// The progress message of a plan at `now`.
pub open spec fn plan_text(plan: Seq<TaskView>, now: u64) -> Seq<char> {
    join(plan_lines(plan, now), "\n"@)
}

/// What the caller is to do with the progress message of a channel.
#[derive(Debug)]
pub enum ProgressAction {
    /// Post `text` as a new message, then report its reference with
    /// `message_posted`.
    Post { text: String },
    /// Replace the text of the message `ts` by `text`.
    Edit { ts: MessageTs, text: String },
}

/// Which message of each channel is its live progress message.
pub struct ProgressTracker {
    active_progress: DashMap<String, String>,
}

impl View for ProgressTracker {
    type V = Map<Seq<char>, Seq<char>>;

    closed spec fn view(&self) -> Map<Seq<char>, Seq<char>> {
        references(self.active_progress)
    }
}

impl ProgressTracker {
    /// A tracker without live messages.
    pub fn new() -> (res: ProgressTracker)
        ensures
            res@ == Map::<Seq<char>, Seq<char>>::empty(),
    {
        ProgressTracker { active_progress: references_new() }
    }

    /// The first progress message of a channel: always a new post.
    pub fn start_progress_at(&self, initial_plan: &Plan, now: u64) -> (res: ProgressAction)
        ensures
            res matches ProgressAction::Post { text } && text@ == plan_text(initial_plan@, now),
    {
        ProgressAction::Post { text: Self::format_plan(initial_plan, now) }
    }

    /// `start_progress_at` at the present reading of the clock.
    pub fn start_progress(&self, initial_plan: &Plan) -> (res: ProgressAction)
        ensures
            exists|now: u64|
                res matches ProgressAction::Post { text } && text@ == #[trigger] plan_text(
                    initial_plan@,
                    now,
                ),
    {
        let now = unix_millis();
        self.start_progress_at(initial_plan, now)
    }

    /// What to do to show `plan` in `channel` at `now`: edit the channel's
    /// live message if it has one, post a new one if not.
    pub fn update_progress_at(&self, channel: &ChannelId, plan: &Plan, now: u64) -> (res:
        ProgressAction)
        ensures
            self@.contains_key(channel@) ==> (res matches ProgressAction::Edit { ts, text } && ts@
                == self@[channel@] && text@ == plan_text(plan@, now)),
            !self@.contains_key(channel@) ==> (res matches ProgressAction::Post { text } && text@
                == plan_text(plan@, now)),
    {
        let text = Self::format_plan(plan, now);
        match references_get(&self.active_progress, channel.as_str()) {
            Some(ts) => ProgressAction::Edit { ts: MessageTs(ts), text },
            None => ProgressAction::Post { text },
        }
    }

    /// `update_progress_at` at the present reading of the clock.
    pub fn update_progress(&self, channel: &ChannelId, plan: &Plan) -> (res: ProgressAction)
        ensures
            self@.contains_key(channel@) ==> (res matches ProgressAction::Edit { ts, text } && ts@
                == self@[channel@] && exists|now: u64| text@ == #[trigger] plan_text(plan@, now)),
            !self@.contains_key(channel@) ==> (res matches ProgressAction::Post { text }
                && exists|now: u64| text@ == #[trigger] plan_text(plan@, now)),
    {
        let now = unix_millis();
        self.update_progress_at(channel, plan, now)
    }

    /// Records that the message `ts` now is the live progress message of
    /// the channel.
    pub fn message_posted(&mut self, channel: &ChannelId, ts: MessageTs)
        ensures
            final(self)@ == old(self)@.insert(channel@, ts@),
    {
        references_insert(&mut self.active_progress, channel.0.clone(), ts.0);
    }

    /// Forgets the live progress message of the channel. The message
    /// itself stays where it is.
    pub fn clear_progress(&mut self, channel: &ChannelId)
        ensures
            final(self)@ == old(self)@.remove(channel@),
    {
        references_remove(&mut self.active_progress, channel.as_str());
    }

    /// A duration in milliseconds, written for people.
    pub fn format_duration(millis: u64) -> (res: String)
        ensures
            res@ == duration_text(millis),
    {
        let mut res = String::new();
        if millis < 60_000 {
            let tenths = (millis + 50) / 100;
            push_decimal(&mut res, (tenths / 10) as u128);
            res.append(".");
            push_decimal(&mut res, (tenths % 10) as u128);
            res.append("s");
        } else if millis < 3_600_000 {
            push_decimal(&mut res, (millis / 60_000) as u128);
            res.append("m ");
            push_decimal(&mut res, ((millis % 60_000 + 500) / 1000) as u128);
            res.append("s");
        } else {
            push_decimal(&mut res, (millis / 3_600_000) as u128);
            res.append("h ");
            push_decimal(&mut res, (millis % 3_600_000 / 60_000) as u128);
            res.append("m");
        }
        res
    }

    /// The headline and the bar for `completed` of `total` tasks.
    pub fn format_progress_bar(completed: usize, total: usize) -> (res: String)
        ensures
            res@ == progress_bar_text(completed as nat, total as nat),
    {
        let percentage: u128 = if total > 0 {
            completed as u128 * 100 / (total as u128)
        } else {
            0
        };
        let filled: usize = if total > 0 {
            let cells: u128 = (completed as u128 * 10 + total as u128 - 1) / (total as u128);
            if cells > usize::MAX as u128 {
                usize::MAX
            } else {
                cells as usize
            }
        } else {
            0
        };
        let empty: usize = if filled >= 10 {
            0
        } else {
            10 - filled
        };
        let mut res = String::from_str("*Task Progress* — ");
        push_decimal(&mut res, completed as u128);
        res.append(" of ");
        push_decimal(&mut res, total as u128);
        res.append(" complete (");
        push_decimal(&mut res, percentage);
        res.append("%)\n[");
        res.append(repeat_str("█", filled).as_str());
        res.append(repeat_str("░", empty).as_str());
        res.append("]");
        res
    }

    /// The line of one task at `now`.
    pub fn format_task(task: &Task, now: u64) -> (res: String)
        ensures
            res@ == task_line(task@, now),
    {
        let mut res = String::from_str(
            match task.status {
                TaskStatus::Completed => ":ballot_box_with_check:",
                TaskStatus::InProgress => ":arrows_counterclockwise:",
                TaskStatus::Pending => ":white_medium_square:",
            },
        );
        res.append(" ");
        if task.status == TaskStatus::InProgress {
            res.append(task.active_form.as_str());
        } else {
            res.append(task.content.as_str());
        }
        let shown: Option<u64> = match task.status {
            TaskStatus::Completed => task.completion_time,
            TaskStatus::InProgress => match task.start_time {
                Some(start) => Some(
                    if now >= start {
                        now - start
                    } else {
                        0
                    },
                ),
                None => None,
            },
            TaskStatus::Pending => None,
        };
        if let Some(millis) = shown {
            res.append(" `");
            res.append(Self::format_duration(millis).as_str());
            res.append("`");
        }
        res
    }

    /// The progress message of `plan` at `now`.
    pub fn format_plan(plan: &Plan, now: u64) -> (res: String)
        ensures
            res@ == plan_text(plan@, now),
    {
        let completed = plan.get_completed_count();
        let total = plan.get_total_count();
        let mut lines: Vec<String> = Vec::new();
        lines.push(Self::format_progress_bar(completed, total));
        let mut i: usize = 0;
        while i < plan.todos.len()
            invariant
                i <= plan.todos.len(),
                lines@.len() == i + 1,
                forall|j: int| 0 <= j <= i ==> (#[trigger] lines@[j])@ == plan_lines(plan@, now)[j],
            decreases plan.todos.len() - i,
        {
            lines.push(Self::format_task(&plan.todos[i], now));
            i += 1;
        }
        assert(views(lines@) =~= plan_lines(plan@, now));
        join_strings(&lines, "\n")
    }
}

} // verus!
