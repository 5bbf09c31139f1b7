//! From an inbound message to the request it becomes, and from the
//! agent's answer to the messages that carry it back.

use vstd::prelude::*;
use vstd::string::*;
use vstd::slice::slice_subrange;
use crate::agent::manager::AgentManager;
use crate::agent::repo_agent::{response_of, AgentEvent, RepoAgentView, Submission};
use crate::error::SlackCoderError;
use crate::slack::markdown::{markdown_to_slack, slack_markup};
use crate::slack::metrics::{metrics_text, usage_metrics, ResultMessage, UsageMetrics};
use crate::slack::types::{ChannelId, SlackMessage, ThreadTs};
use crate::text::{decimal, has_prefix, push_decimal, starts_with, to_chars, views};

verus! {

/// The largest message, in bytes, that is sent in one piece. The platform
/// takes a little more; the rest is margin.
pub const MAX_SLACK_MESSAGE_SIZE: usize = 39_000;

/// What `String::from_utf8_lossy` makes of `bytes`: their text, with the
/// replacement character where they are no UTF-8.
pub uninterp spec fn utf8_lossy(bytes: Seq<u8>) -> Seq<char>;

/// The text of `bytes`, with the replacement character where they are no
/// UTF-8.
///
/// Trusted: `String::from_utf8_lossy` depends on the bytes alone.
#[verifier::external_body]
fn lossy_text(bytes: &[u8]) -> (res: String)
    ensures
        res@ == utf8_lossy(bytes@),
{
    String::from_utf8_lossy(bytes).into_owned()
}

/// What is told to a channel that has no session yet.
pub open spec fn not_configured_text() -> Seq<char> {
    "*This channel is not configured yet.*\n\nPlease mention me with a repository name in the format `owner/repo-name` to get started.\n\n*Example:*\n```\n@slack-coder tyrchen/rust-lib-template\n```"@
}

/// What is told to somebody whose request found the session busy.
pub open spec fn busy_text() -> Seq<char> {
    "⏳ *Agent is currently processing another request*\n\nYour message has been received, but the agent is busy with a previous task. Please wait for the current task to complete and try again in a moment.\n\n*Tip*: Long-running tasks (like comprehensive code analysis or documentation) can take several minutes. You can check the latest progress update above."@
}

/// What follows the answer where the figures of the request are known.
pub open spec fn footer_text(metrics: UsageMetrics) -> Seq<char> {
    "\n\n---\n"@ + metrics_text(metrics) + "\n\n✅ *Task Complete* - All operations finished!"@
}

/// The answer as it is sent: the agent's text in the platform's markup,
/// then the footer where the result came with figures.
pub open spec fn reply_text(final_result: Seq<char>, result: Option<ResultMessage>) -> Seq<char> {
    slack_markup(final_result) + match result {
        Some(message) => footer_text(usage_metrics(message)),
        None => Seq::empty(),
    }
}

/// What opens the piece number `i` of a message sent in pieces: nothing
/// for the first, a note that it continues for the others.
pub open spec fn continued_text(i: nat) -> Seq<char> {
    if i == 0 {
        Seq::empty()
    } else {
        "*(continued "@ + decimal(i + 1) + "/...)*\n\n"@
    }
}

/// The piece number `i` of a message of the given bytes.
pub open spec fn chunk_text(bytes: Seq<u8>, i: nat) -> Seq<char> {
    continued_text(i) + utf8_lossy(
        bytes.subrange(
            i * MAX_SLACK_MESSAGE_SIZE,
            if (i + 1) * MAX_SLACK_MESSAGE_SIZE < bytes.len() {
                (i + 1) * MAX_SLACK_MESSAGE_SIZE
            } else {
                bytes.len() as int
            },
        ),
    )
}

/// How many pieces a message of `len` bytes is sent in.
pub open spec fn chunk_count(len: nat) -> nat {
    ((len + MAX_SLACK_MESSAGE_SIZE - 1) / (MAX_SLACK_MESSAGE_SIZE as int)) as nat
}

/// The messages that carry `text`: `text` itself where it fits in one,
/// else its bytes cut every `MAX_SLACK_MESSAGE_SIZE`.
pub open spec fn chunks_of(text: Seq<char>) -> Seq<Seq<char>> {
    let bytes = vstd::utf8::encode_utf8(text);
    if bytes.len() > MAX_SLACK_MESSAGE_SIZE {
        Seq::new(chunk_count(bytes.len()), |i: int| chunk_text(bytes, i as nat))
    } else {
        seq![text]
    }
}

/// What is to be done with an inbound message.
#[derive(Debug)]
pub enum MessageAction {
    /// It is a command: run it.
    Command { command: String, channel: ChannelId },
    /// The channel has no session: say so, in the message's thread.
    PromptSetup { channel: ChannelId, text: String, reply_in: Option<ThreadTs> },
    /// Hand the text to the channel's session, and answer in the thread.
    Forward { text: String, channel: ChannelId, thread_ts: ThreadTs },
}

/// Whether `thread` refers to the thread the message belongs to, or, for
/// a message outside any thread, to the message itself.
pub open spec fn replies_to(thread: ThreadTs, message: SlackMessage) -> bool {
    match message.thread_ts {
        Some(ts) => thread@ == ts@,
        None => thread@ == message.ts@,
    }
}

/// Whether `action` is what `message` asks for, given whether its channel
/// has a session.
pub open spec fn message_asks(action: MessageAction, message: SlackMessage, has_agent: bool)
    -> bool {
    if starts_with(message.text@, "/"@) {
        action matches MessageAction::Command { command, channel } && command@ == message.text@
            && channel@ == message.channel@
    } else if !has_agent {
        action matches MessageAction::PromptSetup { channel, text, reply_in } && channel@
            == message.channel@ && text@ == not_configured_text() && match message.thread_ts {
            Some(ts) => reply_in matches Some(t) && t@ == ts@,
            None => reply_in is None,
        }
    } else {
        action matches MessageAction::Forward { text, channel, thread_ts } && text@
            == message.text@ && channel@ == message.channel@ && replies_to(thread_ts, message)
    }
}

/// What came of asking the channel's session to take a request.
#[derive(Debug)]
pub enum ForwardStep {
    /// The request was admitted: hand this to the agent client.
    Submit(Submission),
    /// The session is busy: send this text to the thread instead.
    Busy { text: String, thread_ts: ThreadTs },
}

/// Turns inbound messages into requests, and answers into messages.
pub struct MessageProcessor {}

impl MessageProcessor {
    pub fn new() -> MessageProcessor {
        MessageProcessor {  }
    }

    /// Decides what is to be done with `message`: a text that opens with
    /// `/` is a command; any other goes to the channel's session, if the
    /// channel has one.
    pub fn process_message(&self, message: &SlackMessage, agents: &AgentManager) -> (res:
        MessageAction)
        ensures
            message_asks(res, *message, agents@.contains_key(message.channel@)),
    {
        let chars = to_chars(message.text.as_str());
        if has_prefix(&chars, &to_chars("/")) {
            return MessageAction::Command {
                command: message.text.clone(),
                channel: message.channel.clone(),
            };
        }
        if !agents.has_agent(&message.channel) {
            return MessageAction::PromptSetup {
                channel: message.channel.clone(),
                text: String::from_str(
                    "*This channel is not configured yet.*\n\nPlease mention me with a repository name in the format `owner/repo-name` to get started.\n\n*Example:*\n```\n@slack-coder tyrchen/rust-lib-template\n```",
                ),
                reply_in: match &message.thread_ts {
                    Some(ts) => Some(ts.clone()),
                    None => None,
                },
            };
        }
        let reply_thread_ts = match &message.thread_ts {
            Some(ts) => ts.clone(),
            None => ThreadTs::new(message.ts.as_str()),
        };
        MessageAction::Forward {
            text: message.text.clone(),
            channel: message.channel.clone(),
            thread_ts: reply_thread_ts,
        }
    }

    /// Asks the channel's session to take the request. A busy session is
    /// no error: the answer then is the text that says so.
    pub fn forward_to_agent(
        &self,
        agents: &mut AgentManager,
        text: &str,
        channel: &ChannelId,
        thread_ts: &ThreadTs,
    ) -> (res: Result<ForwardStep, SlackCoderError>)
        ensures
            final(agents).timeout() == old(agents).timeout(),
            !old(agents)@.contains_key(channel@) ==> res is Err && res->Err_0 is AgentNotFound
                && final(agents)@ == old(agents)@,
            old(agents)@.contains_key(channel@) && old(agents)@[channel@].in_flight ==> final(agents)@ == old(agents)@ && (res matches Ok(ForwardStep::Busy { text: busy, thread_ts: t })
                && busy@ == busy_text() && t@ == thread_ts@),
            old(agents)@.contains_key(channel@) && !old(agents)@[channel@].in_flight ==> final(agents)@ == old(agents)@.insert(
                channel@,
                RepoAgentView { in_flight: true, ..old(agents)@[channel@] },
            ) && (res matches Ok(ForwardStep::Submit(submission)) && submission.text@ == text@
                && submission.session_id@ == old(agents)@[channel@].session_id),
    {
        match agents.query(channel, text) {
            Ok(submission) => Ok(ForwardStep::Submit(submission)),
            Err(SlackCoderError::AgentBusy(_)) => Ok(
                ForwardStep::Busy {
                    text: String::from_str(
                        "⏳ *Agent is currently processing another request*\n\nYour message has been received, but the agent is busy with a previous task. Please wait for the current task to complete and try again in a moment.\n\n*Tip*: Long-running tasks (like comprehensive code analysis or documentation) can take several minutes. You can check the latest progress update above.",
                    ),
                    thread_ts: thread_ts.clone(),
                },
            ),
            Err(why) => Err(why),
        }
    }

    /// The answer as it is sent, before it is cut into pieces.
    pub fn format_reply(final_result: &str, result_message: Option<&ResultMessage>) -> (res:
        String)
        ensures
            res@ == reply_text(
                final_result@,
                match result_message {
                    Some(message) => Some(*message),
                    None => None,
                },
            ),
    {
        let mut reply = markdown_to_slack(final_result);
        if let Some(message) = result_message {
            let metrics = UsageMetrics::from_result_message(message);
            reply.append("\n\n---\n");
            reply.append(metrics.format_slack_message().as_str());
            reply.append("\n\n✅ *Task Complete* - All operations finished!");
        }
        reply
    }

    /// The messages that carry `text`.
    pub fn split_message(text: &str) -> (res: Vec<String>)
        ensures
            views(res@) == chunks_of(text@),
    {
        let bytes = text.as_bytes();
        let len = bytes.len();
        let mut res: Vec<String> = Vec::new();
        if len <= MAX_SLACK_MESSAGE_SIZE {
            res.push(String::from_str(text));
            assert(views(res@) =~= seq![text@]);
            return res;
        }
        let mut i: usize = 0;
        let mut start: usize = 0;
        while start < len
            invariant
                len == bytes@.len(),
                len > MAX_SLACK_MESSAGE_SIZE,
                start == i * MAX_SLACK_MESSAGE_SIZE || start == len,
                start < len ==> start == i * MAX_SLACK_MESSAGE_SIZE,
                start == len ==> i == chunk_count(len as nat),
                i <= chunk_count(len as nat),
                start <= len,
                res@.len() == i,
                forall|j: int| 0 <= j < i ==> (#[trigger] res@[j])@ == chunk_text(bytes@, j as nat),
            decreases len - start,
        {
            let end: usize = if len - start > MAX_SLACK_MESSAGE_SIZE {
                start + MAX_SLACK_MESSAGE_SIZE
            } else {
                len
            };
            let mut piece = String::new();
            if i > 0 {
                piece.append("*(continued ");
                push_decimal(&mut piece, i as u128 + 1);
                piece.append("/...)*\n\n");
            }
            piece.append(lossy_text(slice_subrange(bytes, start, end)).as_str());
            assert(piece@ =~= chunk_text(bytes@, i as nat));
            res.push(piece);
            start = end;
            i += 1;
        }
        assert(views(res@) =~= chunks_of(text@));
        res
    }

    /// Ends a request: consumes the agent's response, gives the session's
    /// lock back, and returns the messages that carry the answer. An
    /// empty answer yields no message.
    pub fn finish_forward(
        &self,
        agents: &mut AgentManager,
        channel: &ChannelId,
        events: &Vec<AgentEvent>,
    ) -> (res: Result<Vec<String>, SlackCoderError>)
        ensures
            final(agents).timeout() == old(agents).timeout(),
            !old(agents)@.contains_key(channel@) ==> res is Err && res->Err_0 is AgentNotFound
                && final(agents)@ == old(agents)@,
            old(agents)@.contains_key(channel@) ==> final(agents)@ == old(agents)@.insert(
                channel@,
                RepoAgentView { in_flight: false, ..old(agents)@[channel@] },
            ) && exists|outcome: Result<Option<ResultMessage>, SlackCoderError>| #[trigger]
                response_of(events@, outcome) && answers(outcome, res),
    {
        let outcome = agents.receive_response(channel, events);
        let ghost witness = outcome;
        let res = match outcome {
            Ok(found) => Ok(Self::compose_reply(&found)),
            Err(why) => Err(why),
        };
        proof {
            if old(agents)@.contains_key(channel@) {
                assert(response_of(events@, witness) && answers(witness, res));
            }
        }
        res
    }

    /// The messages that carry the answer that a response ended with: the
    /// pieces of the formatted answer for a result with a text, none for
    /// a result without one or for a response that ran out.
    pub fn compose_reply(found: &Option<ResultMessage>) -> (res: Vec<String>)
        ensures
            views(res@) == reply_messages(*found),
    {
        let none: Vec<String> = Vec::new();
        assert(views(none@) =~= Seq::<Seq<char>>::empty());
        match found {
            Some(message) => match &message.result {
                Some(text) => {
                    if text.as_str().is_empty() {
                        none
                    } else {
                        let reply = Self::format_reply(text.as_str(), Some(message));
                        Self::split_message(reply.as_str())
                    }
                },
                None => none,
            },
            None => none,
        }
    }
}

/// The messages sent for a response that ended with `found`.
pub open spec fn reply_messages(found: Option<ResultMessage>) -> Seq<Seq<char>> {
    match found {
        Some(message) => match message.result {
            Some(text) => if text@.len() == 0 {
                Seq::empty()
            } else {
                chunks_of(reply_text(text@, Some(message)))
            },
            None => Seq::empty(),
        },
        None => Seq::empty(),
    }
}

/// Whether `reply` is what is sent for the consumed response `outcome`:
/// its messages where it ended, and the error itself where it broke.
pub open spec fn answers(
    outcome: Result<Option<ResultMessage>, SlackCoderError>,
    reply: Result<Vec<String>, SlackCoderError>,
) -> bool {
    match outcome {
        Ok(found) => reply is Ok && views(reply->Ok_0@) == reply_messages(found),
        Err(why) => reply == Err::<Vec<String>, SlackCoderError>(why),
    }
}

} // verus!
