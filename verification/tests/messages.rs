use slack_coder::agent::repo_agent::AgentEvent;
use slack_coder::agent::{AgentManager, RepoAgent};
use slack_coder::slack::commands::SlackCommandHandler;
use slack_coder::slack::forms::FormHandler;
use slack_coder::slack::messages::{ForwardStep, MessageAction, MAX_SLACK_MESSAGE_SIZE};
use slack_coder::slack::metrics::{ResultMessage, UsageData};
use slack_coder::slack::{ChannelId, MessageProcessor, MessageTs, SlackMessage, ThreadTs, UserId};
use slack_coder::SlackCoderError;

fn message(text: &str, thread: Option<&str>) -> SlackMessage {
    SlackMessage {
        channel: ChannelId::new("C1"),
        user: UserId::new("U1"),
        text: text.to_string(),
        thread_ts: thread.map(ThreadTs::new),
        ts: MessageTs::new("10.5"),
    }
}

fn registry() -> AgentManager {
    let mut agents = AgentManager::new(1800);
    let channel = ChannelId::new("C1");
    agents
        .setup_channel(channel.clone(), Ok(RepoAgent::with_session(channel, "s1".to_string(), 0)))
        .unwrap();
    agents
}

fn result(text: Option<&str>) -> ResultMessage {
    ResultMessage {
        subtype: "query_complete".to_string(),
        duration_ms: 1500,
        duration_api_ms: 1200,
        is_error: false,
        num_turns: 3,
        session_id: "s1".to_string(),
        total_cost_usd: Some(4_200),
        usage: Some(UsageData {
            input_tokens: 10,
            output_tokens: 5,
            cache_creation_input_tokens: 0,
            cache_read_input_tokens: 0,
        }),
        result: text.map(|t| t.to_string()),
    }
}

#[test]
fn messages_are_told_apart() {
    let processor = MessageProcessor::new();
    let empty = AgentManager::new(1800);
    let agents = registry();

    match processor.process_message(&message("/help", None), &empty) {
        MessageAction::Command { command, channel } => {
            assert_eq!(command, "/help");
            assert_eq!(channel.as_str(), "C1");
        }
        action => panic!("unexpected {:?}", action),
    }
    match processor.process_message(&message("hello", Some("9.0")), &empty) {
        MessageAction::PromptSetup { channel, text, reply_in } => {
            assert_eq!(channel.as_str(), "C1");
            assert!(text.starts_with("*This channel is not configured yet.*"));
            assert!(text.ends_with("@slack-coder tyrchen/rust-lib-template\n```"));
            assert_eq!(reply_in.unwrap().as_str(), "9.0");
        }
        action => panic!("unexpected {:?}", action),
    }
    match processor.process_message(&message("hello", None), &agents) {
        MessageAction::Forward { text, channel, thread_ts } => {
            assert_eq!(text, "hello");
            assert_eq!(channel.as_str(), "C1");
            assert_eq!(thread_ts.as_str(), "10.5");
        }
        action => panic!("unexpected {:?}", action),
    }
    match processor.process_message(&message(" /help", Some("9.0")), &agents) {
        MessageAction::Forward { thread_ts, .. } => assert_eq!(thread_ts.as_str(), "9.0"),
        action => panic!("unexpected {:?}", action),
    }
}

#[test]
fn busy_session_answers_with_a_note() {
    let processor = MessageProcessor::new();
    let mut agents = registry();
    let channel = ChannelId::new("C1");
    let thread = ThreadTs::new("9.0");
    match processor.forward_to_agent(&mut agents, "first", &channel, &thread).unwrap() {
        ForwardStep::Submit(submission) => {
            assert_eq!(submission.text, "first");
            assert_eq!(submission.session_id, "s1");
        }
        step => panic!("unexpected {:?}", step),
    }
    match processor.forward_to_agent(&mut agents, "second", &channel, &thread).unwrap() {
        ForwardStep::Busy { text, thread_ts } => {
            assert!(text.starts_with("⏳ *Agent is currently processing another request*"));
            assert_eq!(thread_ts.as_str(), "9.0");
        }
        step => panic!("unexpected {:?}", step),
    }
    assert!(matches!(
        processor.forward_to_agent(&mut agents, "x", &ChannelId::new("none"), &thread),
        Err(SlackCoderError::AgentNotFound(_))
    ));
    let sent = processor
        .finish_forward(&mut agents, &channel, &vec![AgentEvent::Result(result(Some("**done**")))])
        .unwrap();
    assert_eq!(sent.len(), 1);
    assert_eq!(
        sent[0],
        "*done*\n\n---\n📊 *Query Metrics*\n• Tokens: 10 input + 5 output = *15 total*\n• Cost: $0.0042 USD\n• Duration: 1.50s (API: 1.20s)\n• Turns: 3\n• Session: `s1`\n\n✅ *Task Complete* - All operations finished!"
    );
    assert!(matches!(
        processor.forward_to_agent(&mut agents, "third", &channel, &thread).unwrap(),
        ForwardStep::Submit(_)
    ));
    let broke = processor.finish_forward(
        &mut agents,
        &channel,
        &vec![AgentEvent::Failure("cut".to_string())],
    );
    assert!(matches!(broke, Err(SlackCoderError::ClaudeAgent(why)) if why == "cut"));
    assert!(matches!(
        processor.forward_to_agent(&mut agents, "fourth", &channel, &thread).unwrap(),
        ForwardStep::Submit(_)
    ));
    assert!(processor.finish_forward(&mut agents, &channel, &Vec::new()).unwrap().is_empty());
    assert!(matches!(
        processor.finish_forward(&mut agents, &ChannelId::new("none"), &Vec::new()),
        Err(SlackCoderError::AgentNotFound(_))
    ));
}

#[test]
fn empty_answers_send_nothing() {
    assert!(MessageProcessor::compose_reply(&None).is_empty());
    assert!(MessageProcessor::compose_reply(&Some(result(None))).is_empty());
    assert!(MessageProcessor::compose_reply(&Some(result(Some("")))).is_empty());
    assert_eq!(MessageProcessor::compose_reply(&Some(result(Some("x")))).len(), 1);
    assert_eq!(MessageProcessor::format_reply("# T", None), "\n\n*T*");
}

#[test]
fn long_answers_are_cut_into_pieces() {
    assert_eq!(MAX_SLACK_MESSAGE_SIZE, 39_000);
    let exact = "a".repeat(39_000);
    assert_eq!(MessageProcessor::split_message(&exact), vec![exact.clone()]);
    assert_eq!(MessageProcessor::split_message(""), vec![String::new()]);

    let long = format!("{}{}{}", "a".repeat(39_000), "b".repeat(39_000), "c");
    let pieces = MessageProcessor::split_message(&long);
    assert_eq!(pieces.len(), 3);
    assert_eq!(pieces[0], "a".repeat(39_000));
    assert_eq!(pieces[1], format!("*(continued 2/...)*\n\n{}", "b".repeat(39_000)));
    assert_eq!(pieces[2], "*(continued 3/...)*\n\nc");

    let split_char = format!("{}é", "a".repeat(38_999));
    let pieces = MessageProcessor::split_message(&split_char);
    assert_eq!(pieces.len(), 2);
    assert_eq!(pieces[0], format!("{}\u{fffd}", "a".repeat(38_999)));
    assert_eq!(pieces[1], "*(continued 2/...)*\n\n\u{fffd}");
}

#[test]
fn commands_are_run() {
    let handler = SlackCommandHandler::new();
    let channel = ChannelId::new("C1");
    let mut none = AgentManager::new(1800);
    let mut agents = registry();

    let help = handler.handle_command("  /help \n", &channel, &mut none).unwrap();
    assert!(help.starts_with("📚 *Available Commands*\n\n`/help` - Show this help message\n"));
    assert!(help.ends_with("not as Slack's built-in slash commands."));
    assert_eq!(help, handler.handle_help());

    assert_eq!(
        handler.handle_command(" /deploy ", &channel, &mut none).unwrap(),
        "❓ Unknown command: ` /deploy `\n\nType `/help` for available commands."
    );
    assert_eq!(
        handler.handle_command("/new-session", &channel, &mut none).unwrap(),
        "⚠️  *No agent configured for this channel.*\n\nPlease mention me with a repository name to set up first."
    );
    let answer = handler.handle_command("/new-session", &channel, &mut agents).unwrap();
    let id = agents.get_repo_agent(&channel).unwrap().get_session_id();
    assert_ne!(id, "s1");
    assert!(answer.starts_with(&format!("🔄 *New Session Started*\n\nSession ID: `{}`\n\nYour", id)));
    assert!(answer.ends_with("Type `/help` for more commands."));
    assert_eq!(
        handler.handle_command("/help me", &channel, &mut agents).unwrap(),
        "❓ Unknown command: `/help me`\n\nType `/help` for available commands."
    );
    assert_eq!(agents.get_repo_agent(&channel).unwrap().get_session_id(), id);
}

#[test]
fn repository_names_are_checked() {
    assert_eq!(
        FormHandler::validate_repo_name_format("owner/repo").unwrap(),
        ("owner".to_string(), "repo".to_string())
    );
    assert_eq!(
        FormHandler::validate_repo_name_format("  owner / repo-name ").unwrap(),
        ("owner".to_string(), "repo-name".to_string())
    );
    for bad in ["", "repo", "a/b/c", "//"] {
        match FormHandler::validate_repo_name_format(bad) {
            Err(SlackCoderError::Config(why)) => assert_eq!(
                why,
                format!("Invalid repository format: '{}'. Expected format: owner/repo-name", bad)
            ),
            other => panic!("unexpected {:?}", other),
        }
    }
    for bad in ["/repo", "owner/", " / ", "/"] {
        match FormHandler::validate_repo_name_format(bad) {
            Err(SlackCoderError::Config(why)) => {
                assert_eq!(why, "Owner and repository name cannot be empty")
            }
            other => panic!("unexpected {:?}", other),
        }
    }
}

#[test]
fn setup_messages() {
    let forms = FormHandler::new();
    assert!(forms.show_repo_setup_form().starts_with("Welcome to Slack Coder Bot! 👋\n\n"));
    assert!(forms.show_repo_setup_form().ends_with("Reply with your repository name to begin setup."));
    assert_eq!(
        forms.handle_repo_setup("o/r").unwrap(),
        "🔧 Setting up repository `o/r`...\nThis may take a minute. I'll update you on progress."
    );
    assert!(matches!(forms.handle_repo_setup("nope"), Err(SlackCoderError::Config(_))));
    let done = forms.setup_completed("o/r");
    assert!(done.starts_with(":white_check_mark: *Repository `o/r` is now ready!*\n\nYou can now ask me to:\n• Generate code\n"));
    assert!(done.ends_with("Try: `@slack-coder /help` for more information"));
}
