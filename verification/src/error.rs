//! The one error type of the crate.

use vstd::prelude::*;
use vstd::string::*;

verus! {

/// What can go wrong, each kind with its explanation.
///
/// No kind is fatal to the registry: each is scoped to one channel or one
/// request.
#[derive(Debug)]
pub enum SlackCoderError {
    /// The chat platform refused or failed a call.
    SlackApi(String),
    /// The agent client failed during connect, query or streaming.
    ClaudeAgent(String),
    /// The session of the channel is busy with another request.
    AgentBusy(String),
    /// No session is registered for the channel.
    AgentNotFound(String),
    /// The configuration is incomplete or malformed.
    Config(String),
    /// Reading or writing a file failed.
    Io(String),
    /// A value could not be read from or written as JSON.
    Serde(String),
    /// The channel has never been set up.
    ChannelNotSetup(String),
    /// Anything else.
    Internal(String),
}

/// The headline that opens the message of each kind.
pub open spec fn headline(e: SlackCoderError) -> Seq<char> {
    match e {
        SlackCoderError::SlackApi(_) => "Slack API error: "@,
        SlackCoderError::ClaudeAgent(_) => "Agent error: "@,
        SlackCoderError::AgentBusy(_) => "Agent busy: "@,
        SlackCoderError::AgentNotFound(_) => "Agent not found for channel: "@,
        SlackCoderError::Config(_) => "Configuration error: "@,
        SlackCoderError::Io(_) => "IO error: "@,
        SlackCoderError::Serde(_) => "Serialization error: "@,
        SlackCoderError::ChannelNotSetup(_) => "Channel not setup: "@,
        SlackCoderError::Internal(_) => "Internal error: "@,
    }
}

/// The explanation that the error carries.
pub open spec fn detail(e: SlackCoderError) -> Seq<char> {
    match e {
        SlackCoderError::SlackApi(s) => s@,
        SlackCoderError::ClaudeAgent(s) => s@,
        SlackCoderError::AgentBusy(s) => s@,
        SlackCoderError::AgentNotFound(s) => s@,
        SlackCoderError::Config(s) => s@,
        SlackCoderError::Io(s) => s@,
        SlackCoderError::Serde(s) => s@,
        SlackCoderError::ChannelNotSetup(s) => s@,
        SlackCoderError::Internal(s) => s@,
    }
}

impl SlackCoderError {
    /// The message of the error: its headline, then its explanation.
    pub fn message(&self) -> (res: String)
        ensures
            res@ == headline(*self) + detail(*self),
    {
        match self {
            SlackCoderError::SlackApi(s) => String::from_str("Slack API error: ").concat(
                s.as_str(),
            ),
            SlackCoderError::ClaudeAgent(s) => String::from_str("Agent error: ").concat(s.as_str()),
            SlackCoderError::AgentBusy(s) => String::from_str("Agent busy: ").concat(s.as_str()),
            SlackCoderError::AgentNotFound(s) => String::from_str(
                "Agent not found for channel: ",
            ).concat(s.as_str()),
            SlackCoderError::Config(s) => String::from_str("Configuration error: ").concat(
                s.as_str(),
            ),
            SlackCoderError::Io(s) => String::from_str("IO error: ").concat(s.as_str()),
            SlackCoderError::Serde(s) => String::from_str("Serialization error: ").concat(
                s.as_str(),
            ),
            SlackCoderError::ChannelNotSetup(s) => String::from_str("Channel not setup: ").concat(
                s.as_str(),
            ),
            SlackCoderError::Internal(s) => String::from_str("Internal error: ").concat(
                s.as_str(),
            ),
        }
    }
}

} // verus!
