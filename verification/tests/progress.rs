use slack_coder::agent::{Plan, Task, TaskStatus};
use slack_coder::clock::unix_millis;
use slack_coder::slack::progress::ProgressAction;
use slack_coder::slack::{ChannelId, MessageTs, ProgressTracker};

#[test]
fn test_format_duration() {
    assert_eq!(ProgressTracker::format_duration(500), "0.5s");
    assert_eq!(ProgressTracker::format_duration(1_200), "1.2s");
    assert_eq!(ProgressTracker::format_duration(45_800), "45.8s");
    assert_eq!(ProgressTracker::format_duration(65_000), "1m 5s");
    assert_eq!(ProgressTracker::format_duration(125_000), "2m 5s");
    assert_eq!(ProgressTracker::format_duration(3_665_000), "1h 1m");
    assert_eq!(ProgressTracker::format_duration(7_384_000), "2h 3m");
}

#[test]
fn test_format_progress_bar() {
    assert_eq!(
        ProgressTracker::format_progress_bar(0, 5),
        "*Task Progress* — 0 of 5 complete (0%)\n[░░░░░░░░░░]"
    );
    assert_eq!(
        ProgressTracker::format_progress_bar(1, 5),
        "*Task Progress* — 1 of 5 complete (20%)\n[██░░░░░░░░]"
    );
    assert_eq!(
        ProgressTracker::format_progress_bar(2, 5),
        "*Task Progress* — 2 of 5 complete (40%)\n[████░░░░░░]"
    );
    assert_eq!(
        ProgressTracker::format_progress_bar(5, 5),
        "*Task Progress* — 5 of 5 complete (100%)\n[██████████]"
    );
}

#[test]
fn test_format_plan_basic() {
    let mut plan = Plan::new();
    plan.todos = vec![
        Task {
            content: "Task 1".to_string(),
            active_form: "Doing task 1".to_string(),
            status: TaskStatus::Completed,
            start_time: None,
            completion_time: Some(1_500),
        },
        Task {
            content: "Task 2".to_string(),
            active_form: "Doing task 2".to_string(),
            status: TaskStatus::InProgress,
            start_time: Some(unix_millis()),
            completion_time: None,
        },
        Task {
            content: "Task 3".to_string(),
            active_form: "Doing task 3".to_string(),
            status: TaskStatus::Pending,
            start_time: None,
            completion_time: None,
        },
    ];

    let formatted = ProgressTracker::format_plan(&plan, unix_millis());

    assert!(formatted.contains("*Task Progress*"));
    assert!(formatted.contains("1 of 3 complete"));
    assert!(formatted.contains("33%"));
    assert!(formatted.contains(":ballot_box_with_check: Task 1"));
    assert!(formatted.contains(":arrows_counterclockwise: Doing task 2"));
    assert!(formatted.contains(":white_medium_square: Task 3"));
    assert!(formatted.contains("1.5s"));
}

#[test]
fn test_format_plan_emoji_selection() {
    let mut plan = Plan::new();
    plan.todos = vec![
        Task {
            content: "Completed task".to_string(),
            active_form: "Doing completed task".to_string(),
            status: TaskStatus::Completed,
            start_time: None,
            completion_time: Some(800),
        },
        Task {
            content: "In progress task".to_string(),
            active_form: "Working on task".to_string(),
            status: TaskStatus::InProgress,
            start_time: Some(unix_millis()),
            completion_time: None,
        },
        Task {
            content: "Pending task".to_string(),
            active_form: "Will do pending task".to_string(),
            status: TaskStatus::Pending,
            start_time: None,
            completion_time: None,
        },
    ];

    let formatted = ProgressTracker::format_plan(&plan, unix_millis());

    assert!(formatted.contains(":ballot_box_with_check:"));
    assert!(formatted.contains(":arrows_counterclockwise:"));
    assert!(formatted.contains(":white_medium_square:"));

    assert!(formatted.contains("Working on task"));
    assert!(!formatted.contains("In progress task"));

    assert!(formatted.contains("Completed task"));
    assert!(formatted.contains("Pending task"));
}

#[test]
fn durations_round_to_the_nearest() {
    assert_eq!(ProgressTracker::format_duration(0), "0.0s");
    assert_eq!(ProgressTracker::format_duration(49), "0.0s");
    assert_eq!(ProgressTracker::format_duration(50), "0.1s");
    assert_eq!(ProgressTracker::format_duration(100), "0.1s");
    assert_eq!(ProgressTracker::format_duration(59_949), "59.9s");
    assert_eq!(ProgressTracker::format_duration(59_950), "60.0s");
    assert_eq!(ProgressTracker::format_duration(60_000), "1m 0s");
    assert_eq!(ProgressTracker::format_duration(119_500), "1m 60s");
    assert_eq!(ProgressTracker::format_duration(3_599_999), "59m 60s");
    assert_eq!(ProgressTracker::format_duration(3_600_000), "1h 0m");
    assert_eq!(ProgressTracker::format_duration(u64::MAX), "5124095576030h 25m");
}

#[test]
fn bar_edge_cases() {
    assert_eq!(
        ProgressTracker::format_progress_bar(0, 0),
        "*Task Progress* — 0 of 0 complete (0%)\n[░░░░░░░░░░]"
    );
    assert_eq!(
        ProgressTracker::format_progress_bar(1, 3),
        "*Task Progress* — 1 of 3 complete (33%)\n[████░░░░░░]"
    );
    assert_eq!(
        ProgressTracker::format_progress_bar(29, 100),
        "*Task Progress* — 29 of 100 complete (29%)\n[███░░░░░░░]"
    );
    assert_eq!(
        ProgressTracker::format_progress_bar(3, 2),
        "*Task Progress* — 3 of 2 complete (150%)\n[███████████████]"
    );
}

#[test]
fn plan_is_written_exactly() {
    let plan = Plan {
        todos: vec![
            Task {
                content: "A".to_string(),
                active_form: "Doing A".to_string(),
                status: TaskStatus::Completed,
                start_time: Some(0),
                completion_time: Some(100),
            },
            Task {
                content: "B".to_string(),
                active_form: "Doing B".to_string(),
                status: TaskStatus::InProgress,
                start_time: Some(10_000),
                completion_time: None,
            },
            Task {
                content: "C".to_string(),
                active_form: "Doing C".to_string(),
                status: TaskStatus::InProgress,
                start_time: None,
                completion_time: None,
            },
            Task {
                content: "D".to_string(),
                active_form: "Doing D".to_string(),
                status: TaskStatus::Completed,
                start_time: None,
                completion_time: None,
            },
            Task {
                content: "E".to_string(),
                active_form: "Doing E".to_string(),
                status: TaskStatus::Pending,
                start_time: Some(1),
                completion_time: Some(1),
            },
        ],
    };
    assert_eq!(
        ProgressTracker::format_plan(&plan, 75_000),
        "*Task Progress* — 2 of 5 complete (40%)\n[████░░░░░░]\n\
         :ballot_box_with_check: A `0.1s`\n\
         :arrows_counterclockwise: Doing B `1m 5s`\n\
         :arrows_counterclockwise: Doing C\n\
         :ballot_box_with_check: D\n\
         :white_medium_square: E"
    );
    assert_eq!(
        ProgressTracker::format_plan(&Plan::new(), 0),
        "*Task Progress* — 0 of 0 complete (0%)\n[░░░░░░░░░░]"
    );
    assert_eq!(
        ProgressTracker::format_task(&plan.todos[1], 5_000),
        ":arrows_counterclockwise: Doing B `0.0s`"
    );
}

#[test]
fn one_live_message_per_channel() {
    let mut tracker = ProgressTracker::new();
    let channel = ChannelId::new("C1");
    let other = ChannelId::new("C2");
    let plan = Plan::new();
    let text = ProgressTracker::format_plan(&plan, 0);

    match tracker.start_progress_at(&plan, 0) {
        ProgressAction::Post { text: t } => assert_eq!(t, text),
        action => panic!("unexpected {:?}", action),
    }
    match tracker.update_progress_at(&channel, &plan, 0) {
        ProgressAction::Post { text: t } => assert_eq!(t, text),
        action => panic!("unexpected {:?}", action),
    }
    tracker.message_posted(&channel, MessageTs::new("111.222"));
    match tracker.update_progress_at(&channel, &plan, 0) {
        ProgressAction::Edit { ts, text: t } => {
            assert_eq!(ts.as_str(), "111.222");
            assert_eq!(t, text);
        }
        action => panic!("unexpected {:?}", action),
    }
    assert!(matches!(tracker.update_progress_at(&other, &plan, 0), ProgressAction::Post { .. }));
    tracker.message_posted(&channel, MessageTs::new("333.444"));
    match tracker.update_progress(&channel, &plan) {
        ProgressAction::Edit { ts, .. } => assert_eq!(ts.as_str(), "333.444"),
        action => panic!("unexpected {:?}", action),
    }
    tracker.clear_progress(&channel);
    assert!(matches!(tracker.update_progress_at(&channel, &plan, 0), ProgressAction::Post { .. }));
    tracker.clear_progress(&channel);
    assert!(matches!(tracker.start_progress(&plan), ProgressAction::Post { .. }));
}
