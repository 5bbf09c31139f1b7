//! Identifiers that travel with every message.

use vstd::prelude::*;
use vstd::string::*;

verus! {

/// Opaque key of a conversation destination.
#[derive(Debug, PartialEq, Eq, Hash)]
pub struct ChannelId(pub String);

impl View for ChannelId {
    type V = Seq<char>;

    open spec fn view(&self) -> Seq<char> {
        self.0@
    }
}

impl Clone for ChannelId {
    fn clone(&self) -> (res: ChannelId)
        ensures
            res@ == self@,
    {
        ChannelId(self.0.clone())
    }
}

impl ChannelId {
    pub fn new(id: &str) -> (res: ChannelId)
        ensures
            res@ == id@,
    {
        ChannelId(String::from_str(id))
    }

    pub fn as_str(&self) -> (s: &str)
        ensures
            s@ == self@,
    {
        self.0.as_str()
    }
}

/// The views of a sequence of channel identifiers, one per element.
pub open spec fn channel_views(channels: Seq<ChannelId>) -> Seq<Seq<char>> {
    Seq::new(channels.len(), |i: int| channels[i]@)
}

/// Identifier of the person who wrote a message.
#[derive(Debug)]
pub struct UserId(pub String);

impl View for UserId {
    type V = Seq<char>;

    open spec fn view(&self) -> Seq<char> {
        self.0@
    }
}

impl Clone for UserId {
    fn clone(&self) -> (res: UserId)
        ensures
            res@ == self@,
    {
        UserId(self.0.clone())
    }
}

impl UserId {
    pub fn new(id: &str) -> (res: UserId)
        ensures
            res@ == id@,
    {
        UserId(String::from_str(id))
    }

    pub fn as_str(&self) -> (s: &str)
        ensures
            s@ == self@,
    {
        self.0.as_str()
    }
}

/// Timestamp that names the thread a message belongs to.
#[derive(Debug)]
pub struct ThreadTs(pub String);

impl View for ThreadTs {
    type V = Seq<char>;

    open spec fn view(&self) -> Seq<char> {
        self.0@
    }
}

impl Clone for ThreadTs {
    fn clone(&self) -> (res: ThreadTs)
        ensures
            res@ == self@,
    {
        ThreadTs(self.0.clone())
    }
}

impl ThreadTs {
    pub fn new(ts: &str) -> (res: ThreadTs)
        ensures
            res@ == ts@,
    {
        ThreadTs(String::from_str(ts))
    }

    pub fn as_str(&self) -> (s: &str)
        ensures
            s@ == self@,
    {
        self.0.as_str()
    }
}

/// Timestamp that names one message of a channel.
#[derive(Debug)]
pub struct MessageTs(pub String);

impl View for MessageTs {
    type V = Seq<char>;

    open spec fn view(&self) -> Seq<char> {
        self.0@
    }
}

impl Clone for MessageTs {
    fn clone(&self) -> (res: MessageTs)
        ensures
            res@ == self@,
    {
        MessageTs(self.0.clone())
    }
}

impl MessageTs {
    pub fn new(ts: &str) -> (res: MessageTs)
        ensures
            res@ == ts@,
    {
        MessageTs(String::from_str(ts))
    }

    pub fn as_str(&self) -> (s: &str)
        ensures
            s@ == self@,
    {
        self.0.as_str()
    }
}

/// One inbound message, as the dispatcher hands it on.
#[derive(Debug)]
pub struct SlackMessage {
    pub channel: ChannelId,
    pub user: UserId,
    pub text: String,
    pub thread_ts: Option<ThreadTs>,
    pub ts: MessageTs,
}

} // verus!
