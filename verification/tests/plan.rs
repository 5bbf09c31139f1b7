use slack_coder::agent::hooks::{count_todos, format_plan_summary};
use slack_coder::agent::types::EPSILON_MILLIS;
use slack_coder::agent::{Plan, Task, TaskStatus};

fn task(content: &str, status: TaskStatus) -> Task {
    Task {
        content: content.to_string(),
        active_form: format!("Doing {}", content),
        status,
        start_time: None,
        completion_time: None,
    }
}

fn plan(tasks: Vec<Task>) -> Plan {
    Plan { todos: tasks }
}

#[test]
fn pending_to_in_progress_to_completed_measures_the_time() {
    let mut kept = Plan::new();
    kept.update_at(&plan(vec![task("A", TaskStatus::Pending)]), 1_000);
    assert!(kept.get_current_task().is_none());
    assert_eq!(kept.todos[0].start_time, None);

    kept.update_at(&plan(vec![task("A", TaskStatus::InProgress)]), 2_000);
    let current = kept.get_current_task().unwrap();
    assert_eq!(current.content, "A");
    assert_eq!(current.start_time, Some(2_000));
    assert_eq!(current.completion_time, None);

    kept.update_at(&plan(vec![task("A", TaskStatus::Completed)]), 5_250);
    assert_eq!(kept.todos[0].completion_time, Some(3_250));
    assert_eq!(kept.todos[0].start_time, Some(2_000));
    assert!(kept.get_current_task().is_none());
    assert!(kept.is_complete());
}

#[test]
fn completed_at_first_sight_gets_the_epsilon() {
    let mut kept = Plan::new();
    kept.update_at(&plan(vec![task("A", TaskStatus::Completed)]), 7);
    assert_eq!(kept.todos.len(), 1);
    assert_eq!(kept.todos[0].completion_time, Some(100));
    assert_eq!(EPSILON_MILLIS, 100);
    assert_eq!(kept.todos[0].start_time, None);
}

#[test]
fn pending_straight_to_completed_gets_the_epsilon() {
    let mut kept = plan(vec![task("A", TaskStatus::Pending)]);
    kept.update_at(&plan(vec![task("A", TaskStatus::Completed)]), 9_999);
    assert_eq!(kept.todos[0].completion_time, Some(100));
}

#[test]
fn resending_a_snapshot_changes_nothing() {
    let mut kept = Plan::new();
    let snapshot = plan(vec![
        task("A", TaskStatus::Completed),
        task("B", TaskStatus::InProgress),
        task("C", TaskStatus::Pending),
    ]);
    kept.update_at(&snapshot, 1_000);
    let first: Vec<(Option<u64>, Option<u64>)> =
        kept.todos.iter().map(|t| (t.start_time, t.completion_time)).collect();
    assert_eq!(first, vec![(None, Some(100)), (Some(1_000), None), (None, None)]);
    kept.update_at(&snapshot, 50_000);
    kept.update_at(&snapshot, 90_000);
    let again: Vec<(Option<u64>, Option<u64>)> =
        kept.todos.iter().map(|t| (t.start_time, t.completion_time)).collect();
    assert_eq!(first, again);
}

#[test]
fn a_shrinking_snapshot_never_shrinks_the_plan() {
    let mut kept = Plan::new();
    kept.update_at(
        &plan(vec![task("A", TaskStatus::Pending), task("B", TaskStatus::Pending)]),
        0,
    );
    kept.update_at(&plan(vec![task("X", TaskStatus::InProgress)]), 10);
    assert_eq!(kept.get_total_count(), 2);
    assert_eq!(kept.todos[0].content, "X");
    assert_eq!(kept.todos[0].active_form, "Doing X");
    assert_eq!(kept.todos[1].content, "B");
    kept.update_at(&Plan::new(), 20);
    assert_eq!(kept.get_total_count(), 2);
}

#[test]
fn a_growing_snapshot_seeds_the_new_tasks() {
    let mut kept = plan(vec![task("A", TaskStatus::Pending)]);
    kept.update_at(
        &plan(vec![
            task("A", TaskStatus::Pending),
            task("B", TaskStatus::InProgress),
            task("C", TaskStatus::Completed),
        ]),
        42,
    );
    assert_eq!(kept.todos[1].start_time, Some(42));
    assert_eq!(kept.todos[2].completion_time, Some(100));
    assert_eq!(kept.get_completed_count(), 1);
    assert_eq!(kept.get_total_count(), 3);
    assert!(!kept.is_complete());
}

#[test]
fn transitions_in_any_order_leave_the_timing_alone() {
    let mut kept = plan(vec![Task {
        start_time: Some(5),
        completion_time: Some(77),
        ..task("A", TaskStatus::Completed)
    }]);
    kept.update_at(&plan(vec![task("A", TaskStatus::Pending)]), 100);
    assert_eq!(kept.todos[0].start_time, Some(5));
    assert_eq!(kept.todos[0].completion_time, Some(77));
    kept.update_at(&plan(vec![task("A", TaskStatus::InProgress)]), 200);
    assert_eq!(kept.todos[0].start_time, Some(200));
    kept.update_at(&plan(vec![task("A", TaskStatus::InProgress)]), 300);
    assert_eq!(kept.todos[0].start_time, Some(200));
    kept.update_at(&plan(vec![task("A", TaskStatus::Completed)]), 100);
    assert_eq!(kept.todos[0].completion_time, Some(0));
}

#[test]
fn in_progress_without_a_start_completes_without_a_time() {
    let mut kept = plan(vec![task("A", TaskStatus::InProgress)]);
    kept.update_at(&plan(vec![task("A", TaskStatus::Completed)]), 500);
    assert_eq!(kept.todos[0].completion_time, None);
}

#[test]
fn queries_on_plans() {
    let empty = Plan::new();
    assert!(!empty.is_complete());
    assert_eq!(empty.get_total_count(), 0);
    assert_eq!(empty.get_completed_count(), 0);
    assert!(empty.get_current_task().is_none());
    assert_eq!(Plan::default().get_total_count(), 0);

    let two = plan(vec![
        task("A", TaskStatus::Pending),
        task("B", TaskStatus::InProgress),
        task("C", TaskStatus::InProgress),
        task("D", TaskStatus::Completed),
    ]);
    assert_eq!(two.get_current_task().unwrap().content, "B");
    assert_eq!(two.get_completed_count(), 1);
    assert!(!two.is_complete());
    let copy = two.clone();
    assert_eq!(copy.todos.len(), 4);
    assert_eq!(copy.todos[2].status, TaskStatus::InProgress);

    let done = plan(vec![task("A", TaskStatus::Completed), task("B", TaskStatus::Completed)]);
    assert!(done.is_complete());
}

#[test]
fn update_reads_the_clock() {
    let mut kept = Plan::new();
    kept.update(plan(vec![task("A", TaskStatus::InProgress)]));
    assert!(kept.todos[0].start_time.is_some());
    kept.update(plan(vec![task("A", TaskStatus::Completed)]));
    assert!(kept.todos[0].completion_time.is_some());
}

#[test]
fn summary_of_a_plan() {
    let p = plan(vec![
        task("one", TaskStatus::Completed),
        task("two", TaskStatus::InProgress),
        task("three", TaskStatus::Pending),
    ]);
    assert_eq!(
        format_plan_summary(&p),
        "Progress: 1/3\nCurrent: Doing two\n✅ one\n⏳ Doing two\n⬜ three"
    );
    assert_eq!(format_plan_summary(&Plan::new()), "Progress: 0/0");
    let counts = count_todos(&p);
    assert_eq!((counts.total, counts.completed, counts.in_progress, counts.pending), (3, 1, 1, 1));
}
