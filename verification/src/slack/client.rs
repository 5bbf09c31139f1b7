//! What the bot makes of the platform's answers, and the fixed texts it
//! sends. The calls themselves are the caller's.

use vstd::prelude::*;
use vstd::string::*;
use crate::metadata::types::ChannelType;
use crate::slack::types::{channel_views, ChannelId};

verus! {

/// The kind of a conversation, from the flags the platform reports; a
/// flag that is missing counts as unset, and a conversation without any
/// counts as a public channel.
pub open spec fn channel_type_of(
    is_channel: Option<bool>,
    is_private: Option<bool>,
    is_im: Option<bool>,
    is_mpim: Option<bool>,
) -> ChannelType {
    if is_channel == Some(true) {
        if is_private == Some(true) {
            ChannelType::PrivateChannel
        } else {
            ChannelType::PublicChannel
        }
    } else if is_im == Some(true) {
        ChannelType::DirectMessage
    } else if is_mpim == Some(true) {
        ChannelType::MultiPartyDirectMessage
    } else {
        ChannelType::PublicChannel
    }
}

/// The kind of a conversation, from the flags the platform reports.
pub fn classify_channel(
    is_channel: Option<bool>,
    is_private: Option<bool>,
    is_im: Option<bool>,
    is_mpim: Option<bool>,
) -> (res: ChannelType)
    ensures
        res == channel_type_of(is_channel, is_private, is_im, is_mpim),
{
    if let Some(true) = is_channel {
        if let Some(true) = is_private {
            ChannelType::PrivateChannel
        } else {
            ChannelType::PublicChannel
        }
    } else if let Some(true) = is_im {
        ChannelType::DirectMessage
    } else if let Some(true) = is_mpim {
        ChannelType::MultiPartyDirectMessage
    } else {
        ChannelType::PublicChannel
    }
}

/// The channels the bot is a member of, in the order given.
pub open spec fn member_channels(listed: Seq<(String, Option<bool>)>) -> Seq<Seq<char>>
    decreases listed.len(),
{
    if listed.len() == 0 {
        Seq::empty()
    } else if listed.last().1 == Some(true) {
        member_channels(listed.drop_last()).push(listed.last().0@)
    } else {
        member_channels(listed.drop_last())
    }
}

/// The channels of `listed`, each given with its membership flag, that
/// the bot is a member of.
pub fn list_channels(listed: &Vec<(String, Option<bool>)>) -> (res: Vec<ChannelId>)
    ensures
        channel_views(res@) == member_channels(listed@),
{
    let mut res: Vec<ChannelId> = Vec::new();
    let mut i: usize = 0;
    assert(listed@.take(0) =~= Seq::<(String, Option<bool>)>::empty());
    assert(channel_views(res@) =~= member_channels(listed@.take(0)));
    while i < listed.len()
        invariant
            i <= listed.len(),
            channel_views(res@) == member_channels(listed@.take(i as int)),
        decreases listed.len() - i,
    {
        proof {
            assert(listed@.take(i + 1).drop_last() =~= listed@.take(i as int));
        }
        if let Some(true) = listed[i].1 {
            let ghost before = channel_views(res@);
            res.push(ChannelId(listed[i].0.clone()));
            assert(channel_views(res@) =~= before.push(listed@[i as int].0@));
        }
        i += 1;
    }
    proof {
        assert(listed@.take(listed.len() as int) =~= listed@);
    }
    res
}

/// One notice to send to a channel about its session.
#[derive(Debug)]
pub struct Notice {
    pub channel_id: ChannelId,
    pub session_id: String,
    pub text: String,
}

/// What a channel is told when its session is ready after a restart.
pub open spec fn startup_text(session_id: Seq<char>) -> Seq<char> {
    "🤖 *Agent Ready*\n\nSession ID: `"@ + session_id
        + "`\n\nI'm ready to help with this repository! Type `/help` for available commands."@
}

/// `code` as a code block marked as `language`.
pub fn send_code_block(code: &str, language: &str) -> (res: String)
    ensures
        res@ == "```"@ + language@ + "\n"@ + code@ + "\n```"@,
{
    let mut text = String::from_str("```");
    text.append(language);
    text.append("\n");
    text.append(code);
    text.append("\n```");
    text
}

/// What a channel is told when all work for a request is done.
pub fn send_completion_alert() -> (res: String)
    ensures
        res@ == "✅ *Task Complete* - All operations finished!"@,
{
    String::from_str("✅ *Task Complete* - All operations finished!")
}

/// What a channel is told when its session ends with the process.
pub fn send_shutdown_notice(session_id: &str) -> (res: String)
    ensures
        res@ == "🔴 *Agent Gone*\n\nSession ID: `"@ + session_id@ + "` ended"@,
{
    let mut text = String::from_str("🔴 *Agent Gone*\n\nSession ID: `");
    text.append(session_id);
    text.append("` ended");
    text
}

/// What a channel is told when its session is ready after a restart.
pub fn send_startup_notice(session_id: &str) -> (res: String)
    ensures
        res@ == startup_text(session_id@),
{
    let mut text = String::from_str("🤖 *Agent Ready*\n\nSession ID: `");
    text.append(session_id);
    text.append(
        "`\n\nI'm ready to help with this repository! Type `/help` for available commands.",
    );
    text
}

} // verus!
