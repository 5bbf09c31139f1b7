//! The settings of the bot, and how they are read from the variables of
//! its environment.

use vstd::prelude::*;
use vstd::string::*;
use crate::error::SlackCoderError;
use crate::text::to_chars;

verus! {

/// All settings.
#[derive(Debug)]
pub struct Settings {
    pub slack: SlackConfig,
    pub claude: ClaudeConfig,
    pub workspace: WorkspaceConfig,
    pub agent: AgentConfig,
}

/// The credentials for the chat platform.
#[derive(Debug)]
pub struct SlackConfig {
    pub bot_token: String,
    pub app_token: String,
    pub signing_secret: String,
}

/// Which model answers, and how much it may write.
#[derive(Debug)]
pub struct ClaudeConfig {
    pub model: String,
    pub max_tokens: usize,
}

/// Where repositories and prompts are kept.
#[derive(Debug)]
pub struct WorkspaceConfig {
    pub base_path: String,
    pub max_repo_size_mb: u64,
    pub cleanup_interval_secs: u64,
}

/// How sessions are run.
#[derive(Debug)]
pub struct AgentConfig {
    pub main_agent_prompt_path: String,
    pub agent_timeout_secs: u64,
    pub max_concurrent_requests: usize,
}

/// The variables of the environment that the settings are read from, each
/// `None` where it is not set.
#[derive(Debug)]
pub struct Environment {
    pub slack_bot_token: Option<String>,
    pub slack_app_token: Option<String>,
    pub slack_signing_secret: Option<String>,
    pub model: Option<String>,
    pub max_tokens: Option<String>,
    pub workspace_base_path: Option<String>,
    pub home: Option<String>,
    pub max_repo_size_mb: Option<String>,
    pub cleanup_interval_secs: Option<String>,
    pub main_agent_prompt_path: Option<String>,
    pub agent_timeout_secs: Option<String>,
    pub max_concurrent_requests: Option<String>,
}

/// Whether `c` is one of the digits `0` to `9`.
pub open spec fn is_digit(c: char) -> bool {
    '0' <= c && c <= '9'
}

/// The number that the digits write.
pub open spec fn number_of(digits: Seq<char>) -> nat
    decreases digits.len(),
{
    if digits.len() == 0 {
        0
    } else {
        number_of(digits.drop_last()) * 10 + (digits.last() as u32 - '0' as u32) as nat
    }
}

/// The digits of `text`: `text` itself, or what follows a leading `+`.
pub open spec fn digits_of(text: Seq<char>) -> Seq<char> {
    if text.len() > 0 && text[0] == '+' {
        text.skip(1)
    } else {
        text
    }
}

/// The number that `text` writes in decimal, if it writes one that is no
/// larger than `max`: at least one digit, nothing but digits, and at most
/// a `+` before them.
pub open spec fn parsed(text: Seq<char>, max: nat) -> Option<nat> {
    let digits = digits_of(text);
    if digits.len() > 0 && (forall|i: int| 0 <= i < digits.len() ==> is_digit(#[trigger] digits[i]))
        && number_of(digits) <= max {
        Some(number_of(digits))
    } else {
        None
    }
}

/// A longer writing never writes a smaller number.
pub proof fn lemma_number_grows(digits: Seq<char>, k: int)
    requires
        0 <= k <= digits.len(),
        forall|i: int| 0 <= i < digits.len() ==> is_digit(#[trigger] digits[i]),
    ensures
        number_of(digits.take(k)) <= number_of(digits),
    decreases digits.len() - k,
{
    if k < digits.len() {
        lemma_number_grows(digits, k + 1);
        assert(digits.take(k + 1).drop_last() =~= digits.take(k));
        assert(is_digit(digits[k]));
        assert(digits.take(k + 1).last() == digits[k]);
    } else {
        assert(digits.take(k) =~= digits);
    }
}

/// Reads `text` as a decimal number no larger than `max`.
pub fn parse_number(text: &str, max: u64) -> (res: Option<u64>)
    ensures
        match res {
            Some(n) => parsed(text@, max as nat) == Some(n as nat),
            None => parsed(text@, max as nat) is None,
        },
{
    let chars = to_chars(text);
    let start: usize = if chars.len() > 0 && chars[0] == '+' {
        1
    } else {
        0
    };
    let ghost digits = digits_of(text@);
    assert(digits =~= chars@.skip(start as int));
    if start >= chars.len() {
        return None;
    }
    let mut value: u64 = 0;
    let mut i: usize = start;
    assert(digits.take(0) =~= Seq::<char>::empty());
    while i < chars.len()
        invariant
            start <= i <= chars.len(),
            digits == chars@.skip(start as int),
            digits == digits_of(text@),
            digits.len() > 0,
            forall|j: int| 0 <= j < i - start ==> is_digit(#[trigger] digits[j]),
            value as nat == number_of(digits.take(i - start)),
            value <= max,
        decreases chars.len() - i,
    {
        let c = chars[i];
        assert(digits[i - start] == c);
        if !('0' <= c && c <= '9') {
            assert(!is_digit(digits[i - start]));
            return None;
        }
        let d: u64 = (c as u32 - '0' as u32) as u64;
        proof {
            assert(digits.take(i - start + 1).drop_last() =~= digits.take(i - start));
            assert(digits.take(i - start + 1).last() == c);
        }
        if d > max || value > (max - d) / 10 {
            proof {
                assert(number_of(digits.take(i - start + 1)) == value * 10 + d);
                assert(value * 10 + d > max);
                if forall|j: int| 0 <= j < digits.len() ==> is_digit(#[trigger] digits[j]) {
                    lemma_number_grows(digits, i - start + 1);
                }
            }
            return None;
        }
        value = value * 10 + d;
        i += 1;
    }
    proof {
        assert(digits.take(digits.len() as int) =~= digits);
    }
    Some(value)
}

/// The value of a variable, or `default` where it is not set.
pub open spec fn or_default(value: Option<String>, default: Seq<char>) -> Seq<char> {
    match value {
        Some(text) => text@,
        None => default,
    }
}

/// The value of a variable, or `default` where it is not set.
pub fn value_or(value: &Option<String>, default: &str) -> (res: String)
    ensures
        res@ == or_default(*value, default@),
{
    match value {
        Some(text) => text.clone(),
        None => String::from_str(default),
    }
}

/// Where the workspace lies: where the environment says, else in
/// `.slack_coder` under the home directory, else under the current one.
pub open spec fn base_path_of(env: Environment) -> Seq<char> {
    match env.workspace_base_path {
        Some(path) => path@,
        None => or_default(env.home, "."@) + "/.slack_coder"@,
    }
}

/// Whether `settings` are the settings that `env` describes.
pub open spec fn settings_of(env: Environment, default_model: Seq<char>, settings: Settings)
    -> bool {
    &&& env.slack_bot_token matches Some(token) && settings.slack.bot_token@ == token@
    &&& env.slack_app_token matches Some(token) && settings.slack.app_token@ == token@
    &&& env.slack_signing_secret matches Some(secret) && settings.slack.signing_secret@
        == secret@
    &&& settings.claude.model@ == or_default(env.model, default_model)
    &&& parsed(or_default(env.max_tokens, "65536"@), usize::MAX as nat) == Some(
        settings.claude.max_tokens as nat,
    )
    &&& settings.workspace.base_path@ == base_path_of(env)
    &&& parsed(or_default(env.max_repo_size_mb, "1024"@), u64::MAX as nat) == Some(
        settings.workspace.max_repo_size_mb as nat,
    )
    &&& parsed(or_default(env.cleanup_interval_secs, "3600"@), u64::MAX as nat) == Some(
        settings.workspace.cleanup_interval_secs as nat,
    )
    &&& settings.agent.main_agent_prompt_path@ == or_default(
        env.main_agent_prompt_path,
        "specs/0003-system-prompt.md"@,
    )
    &&& parsed(or_default(env.agent_timeout_secs, "1800"@), u64::MAX as nat) == Some(
        settings.agent.agent_timeout_secs as nat,
    )
    &&& parsed(or_default(env.max_concurrent_requests, "10"@), usize::MAX as nat) == Some(
        settings.agent.max_concurrent_requests as nat,
    )
}

/// What is wrong with `env`, for the first thing that is: a credential
/// that is not set, or a number that does not read as one.
pub open spec fn complaint_of(env: Environment) -> Option<Seq<char>> {
    if env.slack_bot_token is None {
        Some("SLACK_BOT_TOKEN not set"@)
    } else if env.slack_app_token is None {
        Some("SLACK_APP_TOKEN not set"@)
    } else if env.slack_signing_secret is None {
        Some("SLACK_SIGNING_SECRET not set"@)
    } else if parsed(or_default(env.max_tokens, "65536"@), usize::MAX as nat) is None {
        Some("Invalid CLAUDE_MAX_TOKENS"@)
    } else if parsed(or_default(env.max_repo_size_mb, "1024"@), u64::MAX as nat) is None {
        Some("Invalid MAX_REPO_SIZE_MB"@)
    } else if parsed(or_default(env.cleanup_interval_secs, "3600"@), u64::MAX as nat) is None {
        Some("Invalid CLEANUP_INTERVAL_SECS"@)
    } else if parsed(or_default(env.agent_timeout_secs, "1800"@), u64::MAX as nat) is None {
        Some("Invalid AGENT_TIMEOUT_SECS"@)
    } else if parsed(or_default(env.max_concurrent_requests, "10"@), usize::MAX as nat)
        is None {
        Some("Invalid MAX_CONCURRENT_REQUESTS"@)
    } else {
        None
    }
}

/// The error that carries a complaint about the configuration.
pub fn config_error(why: &str) -> (res: SlackCoderError)
    ensures
        res matches SlackCoderError::Config(text) && text@ == why@,
{
    SlackCoderError::Config(String::from_str(why))
}

/// Reads a variable, or its default, as a number no larger than `max`.
pub fn number_or(value: &Option<String>, default: &str, max: u64) -> (res: Option<u64>)
    ensures
        match res {
            Some(n) => parsed(or_default(*value, default@), max as nat) == Some(n as nat),
            None => parsed(or_default(*value, default@), max as nat) is None,
        },
{
    parse_number(value_or(value, default).as_str(), max)
}

/// Makes the settings from the variables of the environment. The three
/// credentials must be set; everything else has a default, the model's
/// being `default_model`. The first thing that is wrong is reported as a
/// `Config` error.
pub fn load_settings(env: &Environment, default_model: &str) -> (res: Result<
    Settings,
    SlackCoderError,
>)
    ensures
        match res {
            Ok(settings) => complaint_of(*env) is None && settings_of(
                *env,
                default_model@,
                settings,
            ),
            Err(why) => complaint_of(*env) is Some && (why matches SlackCoderError::Config(text)
                && text@ == complaint_of(*env)->0),
        },
{
    let bot_token = match &env.slack_bot_token {
        Some(token) => token.clone(),
        None => {
            return Err(config_error("SLACK_BOT_TOKEN not set"));
        },
    };
    let app_token = match &env.slack_app_token {
        Some(token) => token.clone(),
        None => {
            return Err(config_error("SLACK_APP_TOKEN not set"));
        },
    };
    let signing_secret = match &env.slack_signing_secret {
        Some(secret) => secret.clone(),
        None => {
            return Err(config_error("SLACK_SIGNING_SECRET not set"));
        },
    };
    let max_tokens = match number_or(&env.max_tokens, "65536", usize::MAX as u64) {
        Some(n) => n as usize,
        None => {
            return Err(config_error("Invalid CLAUDE_MAX_TOKENS"));
        },
    };
    let base_path = match &env.workspace_base_path {
        Some(path) => path.clone(),
        None => value_or(&env.home, ".").concat("/.slack_coder"),
    };
    let max_repo_size_mb = match number_or(&env.max_repo_size_mb, "1024", u64::MAX) {
        Some(n) => n,
        None => {
            return Err(config_error("Invalid MAX_REPO_SIZE_MB"));
        },
    };
    let cleanup_interval_secs = match number_or(&env.cleanup_interval_secs, "3600", u64::MAX) {
        Some(n) => n,
        None => {
            return Err(config_error("Invalid CLEANUP_INTERVAL_SECS"));
        },
    };
    let agent_timeout_secs = match number_or(&env.agent_timeout_secs, "1800", u64::MAX) {
        Some(n) => n,
        None => {
            return Err(config_error("Invalid AGENT_TIMEOUT_SECS"));
        },
    };
    let max_concurrent_requests = match number_or(
        &env.max_concurrent_requests,
        "10",
        usize::MAX as u64,
    ) {
        Some(n) => n as usize,
        None => {
            return Err(config_error("Invalid MAX_CONCURRENT_REQUESTS"));
        },
    };
    Ok(
        Settings {
            slack: SlackConfig { bot_token, app_token, signing_secret },
            claude: ClaudeConfig { model: value_or(&env.model, default_model), max_tokens },
            workspace: WorkspaceConfig { base_path, max_repo_size_mb, cleanup_interval_secs },
            agent: AgentConfig {
                main_agent_prompt_path: value_or(
                    &env.main_agent_prompt_path,
                    "specs/0003-system-prompt.md",
                ),
                agent_timeout_secs,
                max_concurrent_requests,
            },
        },
    )
}

} // verus!
