//! The commands that a message can hold, and what each answers.

use vstd::prelude::*;
use vstd::string::*;
use crate::agent::manager::AgentManager;
use crate::agent::repo_agent::RepoAgentView;
use crate::error::SlackCoderError;
use crate::split::{trim, trimmed};
use crate::slack::types::ChannelId;
use crate::text::to_chars;

verus! {

/// The answer to `/help`.
pub open spec fn help_text() -> Seq<char> {
    "📚 *Available Commands*\n\n`/help` - Show this help message\n`/new-session` - Start a fresh conversation (clears context)\n\n*Examples:*\n• Type `/new-session` to start over with a clean slate\n• Type `/help` anytime to see available commands\n\n*Note:* Commands must be sent as a message to the bot (mention me or DM), not as Slack's built-in slash commands."@
}

/// The answer to `/new-session` in a channel without a session.
pub open spec fn no_agent_text() -> Seq<char> {
    "⚠️  *No agent configured for this channel.*\n\nPlease mention me with a repository name to set up first."@
}

/// The answer to a command that is not known.
pub open spec fn unknown_command_text(command: Seq<char>) -> Seq<char> {
    "❓ Unknown command: `"@ + command + "`\n\nType `/help` for available commands."@
}

/// The answer to `/new-session` once the new session has started.
pub open spec fn new_session_text(session_id: Seq<char>) -> Seq<char> {
    "🔄 *New Session Started*\n\nSession ID: `"@ + session_id
        + "`\n\nYour conversation context has been cleared. You can now start fresh!\n\n*What does this mean?*\n• Previous conversation history is no longer accessible\n• The bot won't remember earlier discussions in this channel\n• Great for switching to a completely different task\n\nType `/help` for more commands."@
}

/// Runs commands.
pub struct SlackCommandHandler {}

impl SlackCommandHandler {
    pub fn new() -> SlackCommandHandler {
        SlackCommandHandler {  }
    }

    /// Runs `command` for `channel` and returns the answer to send.
    /// White space around the command is ignored. `/new-session` starts
    /// the channel's session over; every other command leaves the
    /// registry as it was.
    pub fn handle_command(&self, command: &str, channel: &ChannelId, agents: &mut AgentManager) -> (res:
        Result<String, SlackCoderError>)
        ensures
            res is Ok,
            final(agents).timeout() == old(agents).timeout(),
            trimmed(command@) == "/help"@ ==> res->Ok_0@ == help_text() && final(agents)@ == old(agents)@,
            trimmed(command@) == "/new-session"@ && !old(agents)@.contains_key(channel@)
                ==> res->Ok_0@ == no_agent_text() && final(agents)@ == old(agents)@,
            trimmed(command@) == "/new-session"@ && old(agents)@.contains_key(channel@)
                ==> res->Ok_0@ == new_session_text(final(agents)@[channel@].session_id) && final(agents)@ == old(agents)@.insert(
                channel@,
                RepoAgentView {
                    session_id: final(agents)@[channel@].session_id,
                    plan: Seq::empty(),
                    last_activity: final(agents)@[channel@].last_activity,
                    ..old(agents)@[channel@]
                },
            ),
            trimmed(command@) != "/help"@ && trimmed(command@) != "/new-session"@ ==> res->Ok_0@
                == unknown_command_text(command@) && final(agents)@ == old(agents)@,
    {
        let name = trim(&to_chars(command));
        proof {
            reveal_strlit("/help");
            reveal_strlit("/new-session");
            assert("/help"@.len() == 5);
            assert("/new-session"@.len() == 12);
        }
        if name.eq(&String::from_str("/help")) {
            Ok(self.handle_help())
        } else if name.eq(&String::from_str("/new-session")) {
            Ok(self.handle_new_session(channel, agents))
        } else {
            let mut text = String::from_str("❓ Unknown command: `");
            text.append(command);
            text.append("`\n\nType `/help` for available commands.");
            Ok(text)
        }
    }

    /// The answer to `/help`.
    pub fn handle_help(&self) -> (res: String)
        ensures
            res@ == help_text(),
    {
        String::from_str(
            "📚 *Available Commands*\n\n`/help` - Show this help message\n`/new-session` - Start a fresh conversation (clears context)\n\n*Examples:*\n• Type `/new-session` to start over with a clean slate\n• Type `/help` anytime to see available commands\n\n*Note:* Commands must be sent as a message to the bot (mention me or DM), not as Slack's built-in slash commands.",
        )
    }

    /// Starts the channel's session over, if it has one, and returns the
    /// answer to send.
    pub fn handle_new_session(&self, channel: &ChannelId, agents: &mut AgentManager) -> (res:
        String)
        ensures
            final(agents).timeout() == old(agents).timeout(),
            !old(agents)@.contains_key(channel@) ==> res@ == no_agent_text() && final(agents)@
                == old(agents)@,
            old(agents)@.contains_key(channel@) ==> res@ == new_session_text(
                final(agents)@[channel@].session_id,
            ) && final(agents)@ == old(agents)@.insert(
                channel@,
                RepoAgentView {
                    session_id: final(agents)@[channel@].session_id,
                    plan: Seq::empty(),
                    last_activity: final(agents)@[channel@].last_activity,
                    ..old(agents)@[channel@]
                },
            ),
    {
        match agents.start_new_session(channel) {
            Ok(new_session_id) => {
                let mut text = String::from_str("🔄 *New Session Started*\n\nSession ID: `");
                text.append(new_session_id.as_str());
                text.append(
                    "`\n\nYour conversation context has been cleared. You can now start fresh!\n\n*What does this mean?*\n• Previous conversation history is no longer accessible\n• The bot won't remember earlier discussions in this channel\n• Great for switching to a completely different task\n\nType `/help` for more commands.",
                );
                text
            },
            Err(_) => String::from_str(
                "⚠️  *No agent configured for this channel.*\n\nPlease mention me with a repository name to set up first.",
            ),
        }
    }
}

} // verus!
