//! What is known of a channel and of a user, and the names under which
//! both appear in log lines.
//!
//! Times are whole milliseconds.

use vstd::prelude::*;
use vstd::string::*;
use crate::clock::unix_millis;

verus! {

/// The kind of a conversation.
#[derive(Debug, Clone, Copy, PartialEq, Eq, Structural)]
pub enum ChannelType {
    PublicChannel,
    PrivateChannel,
    DirectMessage,
    MultiPartyDirectMessage,
}

/// What is known of a channel.
#[derive(Debug)]
pub struct ChannelInfo {
    pub id: String,
    /// The name without the leading `#`.
    pub name: String,
    pub channel_type: ChannelType,
    pub is_private: bool,
    pub member_count: Option<u32>,
    /// Clock reading at which this was fetched.
    pub fetched_at: u64,
    pub topic: Option<String>,
}

/// Whether what was fetched at `fetched_at` is older than `ttl` at `now`.
pub open spec fn stale(fetched_at: u64, now: u64, ttl: u64) -> bool {
    now - fetched_at > ttl
}

/// The name a channel is shown under: with `#` before it for a public or
/// private channel, bare for a direct message.
pub open spec fn channel_display(name: Seq<char>, channel_type: ChannelType) -> Seq<char> {
    match channel_type {
        ChannelType::PublicChannel | ChannelType::PrivateChannel => "#"@ + name,
        _ => name,
    }
}

impl Clone for ChannelInfo {
    fn clone(&self) -> (res: ChannelInfo)
        ensures
            res == *self,
    {
        ChannelInfo {
            id: self.id.clone(),
            name: self.name.clone(),
            channel_type: self.channel_type,
            is_private: self.is_private,
            member_count: self.member_count,
            fetched_at: self.fetched_at,
            topic: match &self.topic {
                Some(topic) => Some(topic.clone()),
                None => None,
            },
        }
    }
}

impl ChannelInfo {
    /// Whether this entry is older than `ttl` milliseconds at `now`.
    pub fn is_stale_at(&self, now: u64, ttl: u64) -> (b: bool)
        ensures
            b == stale(self.fetched_at, now, ttl),
    {
        now > self.fetched_at && now - self.fetched_at > ttl
    }

    /// Whether this entry is still good at `now`: not older than `ttl`.
    pub fn is_fresh_at(&self, now: u64, ttl: u64) -> (b: bool)
        ensures
            b == !stale(self.fetched_at, now, ttl),
    {
        !self.is_stale_at(now, ttl)
    }

    /// `is_stale_at` at the present reading of the clock.
    pub fn is_stale(&self, ttl: u64) -> (b: bool)
        ensures
            exists|now: u64| b == stale(self.fetched_at, now, ttl),
    {
        let now = unix_millis();
        self.is_stale_at(now, ttl)
    }

    /// The name the channel is shown under.
    pub fn display_name(&self) -> (res: String)
        ensures
            res@ == channel_display(self.name@, self.channel_type),
    {
        match self.channel_type {
            ChannelType::PublicChannel | ChannelType::PrivateChannel => String::from_str(
                "#",
            ).concat(self.name.as_str()),
            _ => self.name.clone(),
        }
    }
}

/// What is known of a user.
#[derive(Debug)]
pub struct UserInfo {
    pub id: String,
    /// The handle, such as `john.doe`.
    pub name: String,
    pub real_name: Option<String>,
    pub display_name: Option<String>,
    pub email: Option<String>,
    pub is_bot: bool,
    /// Clock reading at which this was fetched.
    pub fetched_at: u64,
}

/// The best name known of a user: the display name, else the real name,
/// else the handle.
pub open spec fn best_name_of(user: UserInfo) -> Seq<char> {
    match user.display_name {
        Some(display) => display@,
        None => match user.real_name {
            Some(full) => full@,
            None => user.name@,
        },
    }
}

impl Clone for UserInfo {
    fn clone(&self) -> (res: UserInfo)
        ensures
            res == *self,
    {
        UserInfo {
            id: self.id.clone(),
            name: self.name.clone(),
            real_name: match &self.real_name {
                Some(name) => Some(name.clone()),
                None => None,
            },
            display_name: match &self.display_name {
                Some(name) => Some(name.clone()),
                None => None,
            },
            email: match &self.email {
                Some(email) => Some(email.clone()),
                None => None,
            },
            is_bot: self.is_bot,
            fetched_at: self.fetched_at,
        }
    }
}

impl UserInfo {
    /// Whether this entry is older than `ttl` milliseconds at `now`.
    pub fn is_stale_at(&self, now: u64, ttl: u64) -> (b: bool)
        ensures
            b == stale(self.fetched_at, now, ttl),
    {
        now > self.fetched_at && now - self.fetched_at > ttl
    }

    /// Whether this entry is still good at `now`: not older than `ttl`.
    pub fn is_fresh_at(&self, now: u64, ttl: u64) -> (b: bool)
        ensures
            b == !stale(self.fetched_at, now, ttl),
    {
        !self.is_stale_at(now, ttl)
    }

    /// `is_stale_at` at the present reading of the clock.
    pub fn is_stale(&self, ttl: u64) -> (b: bool)
        ensures
            exists|now: u64| b == stale(self.fetched_at, now, ttl),
    {
        let now = unix_millis();
        self.is_stale_at(now, ttl)
    }

    /// The best name known of the user.
    pub fn best_name(&self) -> (res: &str)
        ensures
            res@ == best_name_of(*self),
    {
        match &self.display_name {
            Some(display) => display.as_str(),
            None => match &self.real_name {
                Some(full) => full.as_str(),
                None => self.name.as_str(),
            },
        }
    }

    /// The best name, with `@` before it.
    pub fn display_name_with_at(&self) -> (res: String)
        ensures
            res@ == "@"@ + best_name_of(*self),
    {
        String::from_str("@").concat(self.best_name())
    }
}

/// The identifiers and names that a log line about a message carries.
#[derive(Debug)]
pub struct LogContext {
    pub channel_id: String,
    /// The channel's name without prefix.
    pub channel_name: String,
    /// The channel's name as shown.
    pub channel_display: String,
    pub user_id: String,
    /// The user's handle.
    pub user_name: String,
    /// The user's name as shown, with `@`.
    pub user_display: String,
}

impl LogContext {
    /// The context where nothing but the identifiers is known: each name
    /// is the identifier itself.
    pub fn from_ids(channel_id: String, user_id: String) -> (res: LogContext)
        ensures
            res.channel_id@ == channel_id@,
            res.channel_name@ == channel_id@,
            res.channel_display@ == channel_id@,
            res.user_id@ == user_id@,
            res.user_name@ == user_id@,
            res.user_display@ == "@"@ + user_id@,
    {
        LogContext {
            channel_name: channel_id.clone(),
            channel_display: channel_id.clone(),
            user_name: user_id.clone(),
            user_display: String::from_str("@").concat(user_id.as_str()),
            channel_id,
            user_id,
        }
    }

    /// The context made from what is known of the channel and the user;
    /// where one of them is unknown its identifier stands for its names.
    pub fn from_metadata(
        channel_id: String,
        channel_info: Option<&ChannelInfo>,
        user_id: String,
        user_info: Option<&UserInfo>,
    ) -> (res: LogContext)
        ensures
            res.channel_id@ == channel_id@,
            res.user_id@ == user_id@,
            match channel_info {
                Some(info) => res.channel_name@ == info.name@ && res.channel_display@
                    == channel_display(info.name@, info.channel_type),
                None => res.channel_name@ == channel_id@ && res.channel_display@ == channel_id@,
            },
            match user_info {
                Some(info) => res.user_name@ == info.name@ && res.user_display@ == "@"@
                    + best_name_of(*info),
                None => res.user_name@ == user_id@ && res.user_display@ == "@"@ + user_id@,
            },
    {
        let (channel_name, channel_display) = match channel_info {
            Some(info) => (info.name.clone(), info.display_name()),
            None => (channel_id.clone(), channel_id.clone()),
        };
        let (user_name, user_display) = match user_info {
            Some(info) => (info.name.clone(), info.display_name_with_at()),
            None => (user_id.clone(), String::from_str("@").concat(user_id.as_str())),
        };
        LogContext { channel_id, channel_name, channel_display, user_id, user_name, user_display }
    }
}

} // verus!
