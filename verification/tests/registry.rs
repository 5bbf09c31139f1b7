use slack_coder::agent::hooks::create_todo_hooks;
use slack_coder::agent::main_agent::MainAgent;
use slack_coder::agent::manager::{Eviction, Removal, RestoreOutcome, Sweep};
use slack_coder::agent::repo_agent::{AgentEvent, QUERY_LOCK_TIMEOUT_MILLIS};
use slack_coder::agent::{AgentManager, Plan, RepoAgent, Task, TaskStatus};
use slack_coder::slack::metrics::ResultMessage;
use slack_coder::slack::progress::ProgressAction;
use slack_coder::slack::{ChannelId, MessageTs, ProgressTracker};
use slack_coder::SlackCoderError;

fn agent(channel: &str, session: &str, now: u64) -> RepoAgent {
    RepoAgent::with_session(ChannelId::new(channel), session.to_string(), now)
}

fn result(text: Option<&str>) -> ResultMessage {
    ResultMessage {
        subtype: "query_complete".to_string(),
        duration_ms: 1,
        duration_api_ms: 1,
        is_error: false,
        num_turns: 1,
        session_id: "s".to_string(),
        total_cost_usd: None,
        usage: None,
        result: text.map(|t| t.to_string()),
    }
}

fn sorted(mut listed: Vec<(ChannelId, String)>) -> Vec<(String, String)> {
    listed.sort_by(|a, b| a.0.as_str().cmp(b.0.as_str()));
    listed.into_iter().map(|(c, s)| (c.as_str().to_string(), s)).collect()
}

fn channels(mut evictions: Vec<Eviction>) -> Vec<(String, bool)> {
    evictions.sort_by(|a, b| a.channel_id.as_str().cmp(b.channel_id.as_str()));
    evictions
        .into_iter()
        .map(|e| (e.channel_id.as_str().to_string(), matches!(e.removal, Removal::Disconnect(_))))
        .collect()
}

#[test]
fn restore_isolates_the_channel_that_fails() {
    let mut agents = AgentManager::new(1800);
    let outcomes = vec![
        RestoreOutcome { channel_id: ChannelId::new("C1"), result: Ok(agent("C1", "s1", 0)) },
        RestoreOutcome {
            channel_id: ChannelId::new("C2"),
            result: Err(SlackCoderError::Config("no prompt".to_string())),
        },
        RestoreOutcome { channel_id: ChannelId::new("C3"), result: Ok(agent("C3", "s3", 0)) },
    ];
    let summary = agents.scan_and_restore_channels(&outcomes);
    assert_eq!(summary.restored, 2);
    assert_eq!(summary.failed, 1);
    assert!(agents.has_agent(&ChannelId::new("C1")));
    assert!(!agents.has_agent(&ChannelId::new("C2")));
    assert!(agents.has_agent(&ChannelId::new("C3")));
    assert!(agents.query(&ChannelId::new("C1"), "hi").is_ok());
    assert!(agents.query(&ChannelId::new("C3"), "hi").is_ok());
    assert!(matches!(
        agents.query(&ChannelId::new("C2"), "hi"),
        Err(SlackCoderError::AgentNotFound(_))
    ));
    assert!(matches!(
        agents.get_repo_agent(&ChannelId::new("C2")),
        Err(SlackCoderError::AgentNotFound(_))
    ));
    let empty = agents.scan_and_restore_channels(&Vec::new());
    assert_eq!((empty.restored, empty.failed), (0, 0));
}

#[test]
fn only_configured_channels_are_restored() {
    let listed = vec![
        (ChannelId::new("C1"), true),
        (ChannelId::new("C2"), false),
        (ChannelId::new("C3"), true),
    ];
    let eligible: Vec<String> = AgentManager::eligible_channels(&listed)
        .iter()
        .map(|c| c.as_str().to_string())
        .collect();
    assert_eq!(eligible, vec!["C1", "C3"]);
    assert!(AgentManager::eligible_channels(&Vec::new()).is_empty());
}

#[test]
fn one_session_per_channel() {
    let mut agents = AgentManager::new(1800);
    let channel = ChannelId::new("C1");
    agents.setup_channel(channel.clone(), Ok(agent("C1", "first", 0))).unwrap();
    agents.setup_channel(channel.clone(), Ok(agent("C1", "second", 5))).unwrap();
    assert_eq!(sorted(agents.get_all_active_agents()), vec![("C1".to_string(), "second".to_string())]);
    assert_eq!(agents.get_repo_agent(&channel).unwrap().get_session_id(), "second");
}

#[test]
fn failed_setup_registers_nothing() {
    let mut agents = AgentManager::new(1800);
    let channel = ChannelId::new("C1");
    let failed = agents.setup_channel(channel.clone(), Err(SlackCoderError::Config("x".to_string())));
    assert!(matches!(failed, Err(SlackCoderError::Config(why)) if why == "x"));
    assert!(!agents.has_agent(&channel));
    agents.setup_channel(channel.clone(), Ok(agent("C1", "kept", 0))).unwrap();
    let again = agents.setup_channel(channel.clone(), Err(SlackCoderError::Internal("y".to_string())));
    assert!(again.is_err());
    assert_eq!(agents.get_repo_agent(&channel).unwrap().get_session_id(), "kept");
}

#[test]
fn a_busy_session_turns_requests_away() {
    let mut agents = AgentManager::new(1800);
    let channel = ChannelId::new("C1");
    agents.setup_channel(channel.clone(), Ok(agent("C1", "s1", 0))).unwrap();
    let admitted = agents.query(&channel, "first").unwrap();
    assert_eq!(admitted.text, "first");
    assert_eq!(admitted.session_id, "s1");
    assert!(matches!(agents.query(&channel, "second"), Err(SlackCoderError::AgentBusy(_))));
    assert!(matches!(agents.query(&channel, "third"), Err(SlackCoderError::AgentBusy(_))));
    agents.query_submitted_at(&channel, Ok(()), 77).unwrap();
    assert!(matches!(agents.query(&channel, "fourth"), Err(SlackCoderError::AgentBusy(_))));
    let got = agents.receive_response(&channel, &vec![AgentEvent::Result(result(Some("done")))]);
    assert_eq!(got.unwrap().unwrap().result.unwrap(), "done");
    assert!(agents.query(&channel, "fifth").is_ok());
    agents.finish_query(&channel);
    assert!(agents.query(&channel, "sixth").is_ok());
    assert_eq!(QUERY_LOCK_TIMEOUT_MILLIS, 3_000);
}

#[test]
fn an_agent_error_ends_only_the_request() {
    let mut agents = AgentManager::new(1800);
    let channel = ChannelId::new("C1");
    agents.setup_channel(channel.clone(), Ok(agent("C1", "s1", 0))).unwrap();
    agents.query(&channel, "a").unwrap();
    let failed = agents.query_submitted_at(&channel, Err("down".to_string()), 5);
    assert!(matches!(failed, Err(SlackCoderError::ClaudeAgent(why)) if why == "down"));
    assert!(agents.query(&channel, "b").is_ok());
    let broke = agents.receive_response(
        &channel,
        &vec![AgentEvent::Progress, AgentEvent::Failure("cut".to_string()), AgentEvent::Result(result(None))],
    );
    assert!(matches!(broke, Err(SlackCoderError::ClaudeAgent(why)) if why == "cut"));
    assert!(agents.query(&channel, "c").is_ok());
    let ran_out = agents.receive_response(&channel, &vec![AgentEvent::Progress]);
    assert!(ran_out.unwrap().is_none());
    assert!(matches!(
        agents.receive_response(&ChannelId::new("none"), &Vec::new()),
        Err(SlackCoderError::AgentNotFound(_))
    ));
    assert!(matches!(
        agents.query_submitted_at(&ChannelId::new("none"), Ok(()), 0),
        Err(SlackCoderError::AgentNotFound(_))
    ));
    agents.finish_query(&ChannelId::new("none"));
}

#[test]
fn listing_leaves_out_sessions_in_use() {
    let mut agents = AgentManager::new(1800);
    for name in ["C1", "C2", "C3"] {
        agents.setup_channel(ChannelId::new(name), Ok(agent(name, &format!("s-{}", name), 0))).unwrap();
    }
    agents.query(&ChannelId::new("C2"), "busy").unwrap();
    assert_eq!(
        sorted(agents.get_all_active_agents()),
        vec![("C1".to_string(), "s-C1".to_string()), ("C3".to_string(), "s-C3".to_string())]
    );
    agents.finish_query(&ChannelId::new("C2"));
    assert_eq!(agents.get_all_active_agents().len(), 3);
    assert!(AgentManager::new(0).get_all_active_agents().is_empty());
}

#[test]
fn idle_sessions_are_evicted() {
    let mut agents = AgentManager::new(10);
    agents.setup_channel(ChannelId::new("old"), Ok(agent("old", "s1", 1_000))).unwrap();
    agents.setup_channel(ChannelId::new("edge"), Ok(agent("edge", "s2", 5_000))).unwrap();
    agents.setup_channel(ChannelId::new("new"), Ok(agent("new", "s3", 9_000))).unwrap();
    agents.setup_channel(ChannelId::new("busy"), Ok(agent("busy", "s4", 0))).unwrap();
    agents.query(&ChannelId::new("busy"), "x").unwrap();
    let evicted = agents.cleanup_inactive_agents_at(15_000);
    assert_eq!(channels(evicted), vec![("busy".to_string(), false), ("old".to_string(), true)]);
    assert!(agents.has_agent(&ChannelId::new("edge")));
    assert!(agents.has_agent(&ChannelId::new("new")));
    assert!(!agents.has_agent(&ChannelId::new("old")));
    assert!(!agents.has_agent(&ChannelId::new("busy")));
    assert!(agents.cleanup_inactive_agents_at(15_000).is_empty());
    assert_eq!(channels(agents.cleanup_inactive_agents_at(15_001)), vec![("edge".to_string(), true)]);
    assert!(agents.cleanup_inactive_agents().len() <= 1);
}

#[test]
fn removal_says_what_to_do_with_the_session() {
    let mut agents = AgentManager::new(1800);
    let channel = ChannelId::new("C1");
    assert!(matches!(agents.remove_agent(&channel), Removal::Absent));
    agents.setup_channel(channel.clone(), Ok(agent("C1", "s1", 0))).unwrap();
    match agents.remove_agent(&channel) {
        Removal::Disconnect(a) => assert_eq!(a.get_session_id(), "s1"),
        other => panic!("unexpected {:?}", other),
    }
    assert!(!agents.has_agent(&channel));
    agents.setup_channel(channel.clone(), Ok(agent("C1", "s2", 0))).unwrap();
    agents.query(&channel, "x").unwrap();
    match agents.remove_agent(&channel) {
        Removal::InUse(a) => assert!(a.is_busy()),
        other => panic!("unexpected {:?}", other),
    }
    assert!(matches!(agents.remove_agent(&channel), Removal::Absent));
}

#[test]
fn sessions_are_created_and_announced() {
    let refused = AgentManager::create_repo_agent_static(ChannelId::new("C1"), Err("down".to_string()));
    assert!(matches!(refused, Err(SlackCoderError::ClaudeAgent(why)) if why == "down"));
    let created = AgentManager::create_repo_agent_static(ChannelId::new("C1"), Ok(())).unwrap();
    assert!(created.is_connected());
    assert!(!created.is_busy());
    assert!(created.get_session_id().starts_with("session-C1-"));

    let mut agents = AgentManager::new(1800);
    assert!(agents.send_startup_notifications().is_empty());
    agents.setup_channel(ChannelId::new("a"), Ok(agent("a", "s1", 0))).unwrap();
    agents.setup_channel(ChannelId::new("b"), Ok(agent("b", "s2", 0))).unwrap();
    agents.query(&ChannelId::new("b"), "x").unwrap();
    let notices = agents.send_startup_notifications();
    assert_eq!(notices.len(), 1);
    assert_eq!(notices[0].channel_id.as_str(), "a");
    assert_eq!(notices[0].session_id, "s1");
    assert_eq!(
        notices[0].text,
        "🤖 *Agent Ready*\n\nSession ID: `s1`\n\nI'm ready to help with this repository! Type `/help` for available commands."
    );
}

#[test]
fn shutdown_releases_what_is_not_in_use() {
    let mut agents = AgentManager::new(1800);
    agents.setup_channel(ChannelId::new("a"), Ok(agent("a", "s1", 0))).unwrap();
    agents.setup_channel(ChannelId::new("b"), Ok(agent("b", "s2", 0))).unwrap();
    agents.query(&ChannelId::new("b"), "x").unwrap();
    assert_eq!(channels(agents.disconnect_all_agents()), vec![("a".to_string(), true)]);
    assert!(agents.has_agent(&ChannelId::new("b")));
    assert!(agents.sweep(Sweep::Unlocked).is_empty());
    assert_eq!(
        channels(agents.sweep(Sweep::Idle { now: 1, timeout: 0 })),
        vec![("b".to_string(), false)]
    );
}

#[test]
fn a_new_session_clears_the_plan_of_its_channel_only() {
    let mut agents = AgentManager::new(1800);
    let one = ChannelId::new("C1");
    let two = ChannelId::new("C2");
    agents.setup_channel(one.clone(), Ok(agent("C1", "s1", 0))).unwrap();
    agents.setup_channel(two.clone(), Ok(agent("C2", "s2", 0))).unwrap();
    let snapshot = Plan {
        todos: vec![Task {
            content: "A".to_string(),
            active_form: "Doing A".to_string(),
            status: TaskStatus::InProgress,
            start_time: None,
            completion_time: None,
        }],
    };
    let merged = agents.update_plan_at(&one, &snapshot, 10).unwrap();
    assert_eq!(merged.todos[0].start_time, Some(10));
    agents.update_plan_at(&two, &snapshot, 20).unwrap();
    assert!(matches!(
        agents.update_plan_at(&ChannelId::new("none"), &snapshot, 0),
        Err(SlackCoderError::AgentNotFound(_))
    ));
    let id = agents.start_new_session(&one).unwrap();
    assert!(id.starts_with("session-C1-"));
    assert_ne!(id, "s1");
    let first = agents.get_repo_agent(&one).unwrap();
    assert_eq!(first.get_session_id(), id);
    assert_eq!(first.get_plan().get_total_count(), 0);
    let second = agents.get_repo_agent(&two).unwrap();
    assert_eq!(second.get_session_id(), "s2");
    assert_eq!(second.get_plan().get_total_count(), 1);
    assert!(matches!(
        agents.start_new_session(&ChannelId::new("none")),
        Err(SlackCoderError::AgentNotFound(_))
    ));
}

#[test]
fn session_handle_on_its_own() {
    let mut handle = agent("C1", "s1", 1_000);
    assert_eq!(handle.channel_id().as_str(), "C1");
    assert_eq!(handle.get_session_id(), "s1");
    assert!(!handle.is_connected());
    assert!(!handle.is_busy());
    assert!(!handle.is_expired_at(1_000, 0));
    assert!(!handle.is_expired_at(1_500, 500));
    assert!(handle.is_expired_at(1_501, 500));
    assert!(!handle.is_expired_at(0, 0));
    assert!(!handle.is_expired(u64::MAX));

    let refused = handle.connect_at(Err("no route".to_string()), 2_000);
    assert!(matches!(refused, Err(SlackCoderError::ClaudeAgent(why)) if why == "no route"));
    assert!(!handle.is_connected());
    assert!(handle.is_expired_at(1_501, 500));
    handle.connect_at(Ok(()), 2_000).unwrap();
    assert!(handle.is_connected());
    assert!(!handle.is_expired_at(2_500, 500));
    handle.connect(Ok(())).unwrap();

    handle.update_activity(100);
    assert!(handle.is_expired_at(201, 100));
    let submission = handle.query("hello").unwrap();
    assert_eq!(submission.text, "hello");
    assert_eq!(submission.session_id, "s1");
    assert!(handle.is_busy());
    assert!(matches!(handle.query("again"), Err(SlackCoderError::AgentBusy(_))));
    handle.query_submitted_at(Ok(()), 5_000).unwrap();
    assert!(handle.is_busy());
    assert!(!handle.is_expired_at(5_000, 0));
    let outcome = handle.receive_response(&vec![
        AgentEvent::Progress,
        AgentEvent::Result(result(Some("first"))),
        AgentEvent::Result(result(Some("second"))),
    ]);
    assert_eq!(outcome.unwrap().unwrap().result.unwrap(), "first");
    assert!(!handle.is_busy());

    handle.start_session_with("s2".to_string(), 9_000);
    assert_eq!(handle.get_session_id(), "s2");
    let id = handle.start_new_session().unwrap();
    assert_eq!(handle.get_session_id(), id);
    let copy = handle.clone();
    assert_eq!(copy.get_session_id(), id);
    assert!(handle.disconnect(Ok(())).is_ok());
    assert!(matches!(
        copy.disconnect(Err("gone".to_string())),
        Err(SlackCoderError::ClaudeAgent(why)) if why == "gone"
    ));
    let fresh = RepoAgent::new(ChannelId::new("C9"));
    assert!(fresh.get_session_id().starts_with("session-C9-"));
    assert_eq!(fresh.get_plan().get_total_count(), 0);
}

#[test]
fn task_list_hook_merges_and_shows() {
    let mut agents = AgentManager::new(1800);
    let mut tracker = ProgressTracker::new();
    let channel = ChannelId::new("C1");
    let hooks = create_todo_hooks(channel.clone());
    let snapshot = |status: TaskStatus| Plan {
        todos: vec![Task {
            content: "A".to_string(),
            active_form: "Doing A".to_string(),
            status,
            start_time: None,
            completion_time: None,
        }],
    };
    match hooks.post_tool_use(&mut agents, &tracker, &snapshot(TaskStatus::InProgress), 1_000) {
        ProgressAction::Post { text } => assert!(text.ends_with(":arrows_counterclockwise: Doing A")),
        action => panic!("unexpected {:?}", action),
    }
    agents.setup_channel(channel.clone(), Ok(agent("C1", "s1", 0))).unwrap();
    tracker.message_posted(&channel, MessageTs::new("1.1"));
    match hooks.post_tool_use(&mut agents, &tracker, &snapshot(TaskStatus::InProgress), 1_000) {
        ProgressAction::Edit { ts, text } => {
            assert_eq!(ts.as_str(), "1.1");
            assert!(text.ends_with(":arrows_counterclockwise: Doing A `0.0s`"));
        }
        action => panic!("unexpected {:?}", action),
    }
    match hooks.post_tool_use(&mut agents, &tracker, &snapshot(TaskStatus::Completed), 3_500) {
        ProgressAction::Edit { text, .. } => {
            assert!(text.ends_with(":ballot_box_with_check: A `2.5s`"))
        }
        action => panic!("unexpected {:?}", action),
    }
    assert_eq!(
        agents.get_repo_agent(&channel).unwrap().get_plan().todos[0].completion_time,
        Some(2_500)
    );
}

#[test]
fn setup_agent_asks_and_reads_the_answer() {
    let main = MainAgent::new();
    let prompt = main.setup_repository("owner/repo", &ChannelId::new("C1"));
    assert!(prompt.starts_with("Please set up the repository owner/repo for channel C1.\n\nTasks:\n1. Validate"));
    assert!(prompt.contains("2. Clone it to ~/.slack_coder/repos/C1\n3."));
    assert!(prompt.contains("~/.slack_coder/system/C1/system_prompt.md\n\n"));
    assert!(prompt.ends_with("The repository name provided by the user is: owner/repo"));
    assert_eq!(main.get_plan().get_total_count(), 0);
    assert_eq!(main.setup_finished(&Vec::new()).unwrap(), "");
    assert_eq!(
        main.setup_finished(&vec![AgentEvent::Progress, AgentEvent::Result(result(Some("ok")))]).unwrap(),
        "ok"
    );
    assert_eq!(main.setup_finished(&vec![AgentEvent::Result(result(None))]).unwrap(), "");
    assert!(matches!(
        main.setup_finished(&vec![AgentEvent::Failure("bad".to_string()), AgentEvent::Result(result(None))]),
        Err(SlackCoderError::ClaudeAgent(why)) if why == "bad"
    ));
    assert!(main.connect(Ok(())).is_ok());
    assert!(matches!(
        main.connect(Err("no".to_string())),
        Err(SlackCoderError::ClaudeAgent(why)) if why == "no"
    ));
    assert!(main.disconnect(Ok(())).is_ok());
    assert!(MainAgent::new().disconnect(Err("x".to_string())).is_err());
}
