use slack_coder::config::settings::parse_number;
use slack_coder::config::{load_settings, Environment};
use slack_coder::logging::Timer;
use slack_coder::storage::workspace::join_path;
use slack_coder::storage::Workspace;
use slack_coder::slack::ChannelId;
use slack_coder::SlackCoderError;

fn environment() -> Environment {
    Environment {
        slack_bot_token: Some("xoxb-test".to_string()),
        slack_app_token: Some("xapp-test".to_string()),
        slack_signing_secret: Some("test-secret".to_string()),
        model: None,
        max_tokens: None,
        workspace_base_path: None,
        home: None,
        max_repo_size_mb: None,
        cleanup_interval_secs: None,
        main_agent_prompt_path: None,
        agent_timeout_secs: None,
        max_concurrent_requests: None,
    }
}

fn complaint(env: &Environment) -> String {
    match load_settings(env, "m") {
        Err(SlackCoderError::Config(why)) => why,
        other => panic!("unexpected {:?}", other),
    }
}

#[test]
fn defaults_fill_what_is_not_set() {
    let settings = load_settings(&environment(), "some-model").unwrap();
    assert_eq!(settings.slack.bot_token, "xoxb-test");
    assert_eq!(settings.slack.app_token, "xapp-test");
    assert_eq!(settings.slack.signing_secret, "test-secret");
    assert_eq!(settings.claude.model, "some-model");
    assert_eq!(settings.claude.max_tokens, 65536);
    assert_eq!(settings.workspace.base_path, "./.slack_coder");
    assert_eq!(settings.workspace.max_repo_size_mb, 1024);
    assert_eq!(settings.workspace.cleanup_interval_secs, 3600);
    assert_eq!(settings.agent.main_agent_prompt_path, "specs/0003-system-prompt.md");
    assert_eq!(settings.agent.agent_timeout_secs, 1800);
    assert_eq!(settings.agent.max_concurrent_requests, 10);
}

#[test]
fn variables_override_the_defaults() {
    let env = Environment {
        model: Some("other".to_string()),
        max_tokens: Some("+100".to_string()),
        home: Some("/home/bot".to_string()),
        max_repo_size_mb: Some("0".to_string()),
        cleanup_interval_secs: Some("18446744073709551615".to_string()),
        main_agent_prompt_path: Some("p.md".to_string()),
        agent_timeout_secs: Some("007".to_string()),
        max_concurrent_requests: Some("3".to_string()),
        ..environment()
    };
    let settings = load_settings(&env, "m").unwrap();
    assert_eq!(settings.claude.model, "other");
    assert_eq!(settings.claude.max_tokens, 100);
    assert_eq!(settings.workspace.base_path, "/home/bot/.slack_coder");
    assert_eq!(settings.workspace.max_repo_size_mb, 0);
    assert_eq!(settings.workspace.cleanup_interval_secs, u64::MAX);
    assert_eq!(settings.agent.main_agent_prompt_path, "p.md");
    assert_eq!(settings.agent.agent_timeout_secs, 7);
    assert_eq!(settings.agent.max_concurrent_requests, 3);
    let placed = Environment {
        workspace_base_path: Some("/data".to_string()),
        home: Some("/home/bot".to_string()),
        ..environment()
    };
    assert_eq!(load_settings(&placed, "m").unwrap().workspace.base_path, "/data");
}

#[test]
fn the_first_fault_is_reported() {
    assert_eq!(
        complaint(&Environment { slack_bot_token: None, slack_app_token: None, ..environment() }),
        "SLACK_BOT_TOKEN not set"
    );
    assert_eq!(
        complaint(&Environment { slack_app_token: None, ..environment() }),
        "SLACK_APP_TOKEN not set"
    );
    assert_eq!(
        complaint(&Environment { slack_signing_secret: None, ..environment() }),
        "SLACK_SIGNING_SECRET not set"
    );
    assert_eq!(
        complaint(&Environment { max_tokens: Some("many".to_string()), ..environment() }),
        "Invalid CLAUDE_MAX_TOKENS"
    );
    assert_eq!(
        complaint(&Environment { max_repo_size_mb: Some("-1".to_string()), ..environment() }),
        "Invalid MAX_REPO_SIZE_MB"
    );
    assert_eq!(
        complaint(&Environment {
            cleanup_interval_secs: Some("18446744073709551616".to_string()),
            ..environment()
        }),
        "Invalid CLEANUP_INTERVAL_SECS"
    );
    assert_eq!(
        complaint(&Environment { agent_timeout_secs: Some("".to_string()), ..environment() }),
        "Invalid AGENT_TIMEOUT_SECS"
    );
    assert_eq!(
        complaint(&Environment { max_concurrent_requests: Some("1 ".to_string()), ..environment() }),
        "Invalid MAX_CONCURRENT_REQUESTS"
    );
}

#[test]
fn numbers_are_read_as_the_standard_library_reads_them() {
    for text in [
        "0", "1", "+1", "-1", "", "+", "++1", "00012", "12a", " 12", "18446744073709551615",
        "18446744073709551616", "99999999999999999999999", "1_000", "٣",
    ] {
        assert_eq!(parse_number(text, u64::MAX), text.parse::<u64>().ok(), "for {:?}", text);
    }
    assert_eq!(parse_number("255", 255), Some(255));
    assert_eq!(parse_number("256", 255), None);
    assert_eq!(parse_number("9", 5), None);
    assert_eq!(parse_number("0", 0), Some(0));
}

#[test]
fn paths_of_a_channel() {
    let workspace = Workspace::new("/home/bot/.slack_coder".to_string());
    let channel = ChannelId::new("C09NNKZ8SPP");
    assert_eq!(workspace.repo_path(&channel), "/home/bot/.slack_coder/repos/C09NNKZ8SPP");
    assert_eq!(
        workspace.system_prompt_path(&channel),
        "/home/bot/.slack_coder/system/C09NNKZ8SPP/system_prompt.md"
    );
    assert_eq!(
        workspace.ensure_workspace(),
        ("/home/bot/.slack_coder/repos".to_string(), "/home/bot/.slack_coder/system".to_string())
    );
    assert!(workspace.is_channel_setup(true, true));
    assert!(!workspace.is_channel_setup(true, false));
    assert!(!workspace.is_channel_setup(false, true));
    assert_eq!(workspace.compose_system_prompt("flow", "repo"), "flow\n\n---\n\nrepo");
}

#[test]
fn paths_are_joined_as_the_standard_library_joins_them() {
    for (base, part) in [
        ("/a", "b"),
        ("/a/", "b"),
        ("", "b"),
        ("a", "/b"),
        ("a", ""),
        ("", ""),
        ("/", "x"),
        ("a/b", "c/d"),
    ] {
        let expected = std::path::Path::new(base).join(part);
        assert_eq!(join_path(base, part), expected.to_str().unwrap(), "for {:?} {:?}", base, part);
    }
}

#[test]
fn timer_measures_from_its_start() {
    let timer = Timer::started_at("test_operation", 1_000);
    assert_eq!(timer.name(), "test_operation");
    assert_eq!(timer.elapsed_at(1_010), 10);
    assert_eq!(timer.elapsed_at(1_000), 0);
    assert_eq!(timer.elapsed_at(5), 0);
    let now = Timer::new("op");
    assert_eq!(now.name(), "op");
    assert!(now.elapsed_at(u64::MAX) > 0);
}
