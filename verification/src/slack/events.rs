//! Inbound notifications: telling a redelivered one from a new one, and
//! deciding what each asks for.

use vstd::prelude::*;
use vstd::string::*;
use dashmap::DashMap;
use crate::agent::manager::AgentManager;
use crate::clock::unix_millis;
use crate::split::{line_views, trim, trimmed, words, words_of};
use crate::slack::types::{ChannelId, MessageTs, SlackMessage, ThreadTs, UserId};
use crate::text::{
    contains_char, decimal, from_chars, has_prefix, join, join_strings, push_decimal,
    starts_with, to_chars, views,
};
use crate::store::{
    is_fresh, stamps, stamps_get, stamps_insert, stamps_new, stamps_retain_fresh,
};

verus! {

/// How long a key is remembered before `cleanup_old_events` may drop it:
/// one hour.
pub const EVENT_TTL_MILLIS: u64 = 3_600_000;

/// Whether a notification was seen before.
#[derive(Debug, Clone, Copy, PartialEq, Eq, Structural)]
pub enum EventStatus {
    New,
    AlreadyProcessed,
}

/// The cache of notifications already seen: each key with the time it was
/// first seen.
pub struct EventDeduplicator {
    processed_events: DashMap<String, u64>,
}

impl View for EventDeduplicator {
    type V = Map<Seq<char>, u64>;

    closed spec fn view(&self) -> Map<Seq<char>, u64> {
        stamps(self.processed_events)
    }
}

/// What the cache holds after `prune` at `now` with `ttl`: the entries
/// no older than `ttl`, unchanged.
pub open spec fn pruned(cache: Map<Seq<char>, u64>, now: u64, ttl: u64) -> Map<Seq<char>, u64> {
    Map::new(|key: Seq<char>| cache.contains_key(key) && is_fresh(cache[key], now, ttl), |key: Seq<char>| cache[key])
}

impl EventDeduplicator {
    /// A cache that has seen nothing.
    pub fn new() -> (res: EventDeduplicator)
        ensures
            res@ == Map::<Seq<char>, u64>::empty(),
    {
        EventDeduplicator { processed_events: stamps_new() }
    }

    /// Checks whether `key` was seen and, if not, remembers it as seen at
    /// `now`. A key that is still in the cache is `AlreadyProcessed`,
    /// however long ago it was seen; its first sighting is kept.
    pub fn check_and_mark_at(&mut self, key: &str, now: u64) -> (status: EventStatus)
        ensures
            status == (if old(self)@.contains_key(key@) {
                EventStatus::AlreadyProcessed
            } else {
                EventStatus::New
            }),
            final(self)@ == (if old(self)@.contains_key(key@) {
                old(self)@
            } else {
                old(self)@.insert(key@, now)
            }),
    {
        match stamps_get(&self.processed_events, key) {
            Some(_) => EventStatus::AlreadyProcessed,
            None => {
                stamps_insert(&mut self.processed_events, String::from_str(key), now);
                EventStatus::New
            },
        }
    }

    /// `check_and_mark_at` at the present reading of the clock.
    pub fn check_and_mark(&mut self, key: &str) -> (status: EventStatus)
        ensures
            status == (if old(self)@.contains_key(key@) {
                EventStatus::AlreadyProcessed
            } else {
                EventStatus::New
            }),
            old(self)@.contains_key(key@) ==> final(self)@ == old(self)@,
            !old(self)@.contains_key(key@) ==> exists|now: u64|
                final(self)@ == old(self)@.insert(key@, now),
    {
        let now = unix_millis();
        self.check_and_mark_at(key, now)
    }

    /// Forgets every key first seen more than `ttl` before `now`.
    pub fn prune_at(&mut self, now: u64, ttl: u64)
        ensures
            final(self)@ == pruned(old(self)@, now, ttl),
    {
        stamps_retain_fresh(&mut self.processed_events, now, ttl);
        assert(self@ =~= pruned(old(self)@, now, ttl));
    }

    /// `prune_at` at the present reading of the clock.
    pub fn prune(&mut self, ttl: u64)
        ensures
            exists|now: u64| final(self)@ == pruned(old(self)@, now, ttl),
    {
        let now = unix_millis();
        self.prune_at(now, ttl);
    }

    /// Forgets every key that is more than an hour old.
    pub fn cleanup_old_events(&mut self)
        ensures
            exists|now: u64| final(self)@ == pruned(old(self)@, now, EVENT_TTL_MILLIS),
    {
        self.prune(EVENT_TTL_MILLIS);
    }
}

/// A key that was marked stays `AlreadyProcessed` until a prune drops it,
/// and a prune drops it exactly when it is older than `ttl`: then, and only
/// then, the same key counts as new again.
pub proof fn law_marked_until_pruned(
    cache: Map<Seq<char>, u64>,
    key: Seq<char>,
    seen: u64,
    now: u64,
    ttl: u64,
)
    requires
        !cache.contains_key(key),
    ensures
        cache.insert(key, seen).contains_key(key),
        pruned(cache.insert(key, seen), now, ttl).contains_key(key) <==> is_fresh(seen, now, ttl),
{
}

/// A prune never invents or alters an entry: what is left was there before,
/// with the same first sighting.
pub proof fn law_prune_only_removes(cache: Map<Seq<char>, u64>, now: u64, ttl: u64)
    ensures
        pruned(cache, now, ttl).submap_of(cache),
{
}

/// An age of `secs` seconds in its largest whole unit: seconds below a
/// minute, minutes below an hour, hours from there on.
pub open spec fn age_text(secs: u64) -> Seq<char> {
    if secs < 60 {
        decimal(secs as nat) + "s"@
    } else if secs < 3600 {
        decimal((secs / 60) as nat) + "m"@
    } else {
        decimal((secs / 3600) as nat) + "h"@
    }
}

/// An age of `secs` seconds in its largest whole unit.
pub fn format_duration(secs: u64) -> (res: String)
    ensures
        res@ == age_text(secs),
{
    let mut res = String::new();
    if secs < 60 {
        push_decimal(&mut res, secs as u128);
        res.append("s");
    } else if secs < 3600 {
        push_decimal(&mut res, (secs / 60) as u128);
        res.append("m");
    } else {
        push_decimal(&mut res, (secs / 3600) as u128);
        res.append("h");
    }
    res
}

/// What kind of message a message notification is about.
#[derive(Debug, Clone, Copy, PartialEq, Eq, Structural)]
pub enum MessageSubtype {
    /// An ordinary message.
    Plain,
    /// An edit of an earlier message.
    MessageChanged,
    /// Somebody, perhaps the bot, joined the channel.
    ChannelJoin,
    /// Any other kind.
    Other,
}

/// A notification pushed by the platform, reduced to what the bot reads.
#[derive(Debug)]
pub enum PushEvent {
    /// The bot was mentioned.
    AppMention {
        channel: String,
        user: String,
        text: Option<String>,
        ts: String,
        thread_ts: Option<String>,
    },
    /// A message was posted, changed, or a member joined.
    Message { origin: Option<String>, from_bot: bool, subtype: MessageSubtype },
    /// Anything else.
    Other,
}

/// Why a notification asks for nothing.
#[derive(Debug, Clone, Copy, PartialEq, Eq, Structural)]
pub enum Skipped {
    /// It was delivered before.
    Duplicate,
    /// It is about a message of a bot.
    BotMessage,
    /// It is about an edit.
    MessageEdit,
    /// The channel that was joined already has a session.
    AlreadyConfigured,
    /// It is of a kind the bot does not act on.
    Unhandled,
}

/// What a notification asks for.
#[derive(Debug)]
pub enum EventAction {
    /// Nothing.
    Skip(Skipped),
    /// Run the command that the message holds.
    RunCommand(SlackMessage),
    /// Set the channel up for the repository named.
    SetupRepository { channel: ChannelId, repo_name: String, thread_ts: Option<ThreadTs> },
    /// Hand the message to the channel's session.
    ForwardMessage(SlackMessage),
    /// Tell the channel how to set up a repository.
    ShowSetupForm(ChannelId),
}

/// Whether `action` is a skip for the reason `why`.
pub open spec fn skips(action: EventAction, why: Skipped) -> bool {
    action matches EventAction::Skip(reason) && reason == why
}

/// The key under which a mention is remembered: the channel and the
/// timestamp of the message, which no two messages share.
pub open spec fn mention_key(channel: Seq<char>, ts: Seq<char>) -> Seq<char> {
    "mention:"@ + channel + ":"@ + ts
}

/// The words of `words` that are no mention of a user.
pub open spec fn without_mentions(words: Seq<Seq<char>>) -> Seq<Seq<char>>
    decreases words.len(),
{
    if words.len() == 0 {
        Seq::empty()
    } else if starts_with(words.last(), "<@"@) {
        without_mentions(words.drop_last())
    } else {
        without_mentions(words.drop_last()).push(words.last())
    }
}

/// The text of a mention without the mentions themselves: its other
/// words, a blank between each two.
pub open spec fn clean_mention(text: Seq<char>) -> Seq<char> {
    trimmed(join(without_mentions(words_of(text)), " "@))
}

/// Whether `message` is the message of the given parts.
pub open spec fn message_of(
    message: SlackMessage,
    channel: Seq<char>,
    user: Seq<char>,
    text: Seq<char>,
    ts: Seq<char>,
    thread_ts: Option<String>,
) -> bool {
    message.channel@ == channel && message.user@ == user && message.text@ == text && message.ts@
        == ts && thread_is(message.thread_ts, thread_ts)
}

/// Whether the thread reference `thread` is the one given as `raw`.
pub open spec fn thread_is(thread: Option<ThreadTs>, raw: Option<String>) -> bool {
    match raw {
        Some(ts) => thread matches Some(t) && t@ == ts@,
        None => thread is None,
    }
}

/// Whether `action` is what a new mention with the given parts asks for:
/// a text that opens with `/` is a command; a single word with a `/` in
/// it names a repository to set up; anything else is for the session.
pub open spec fn mention_asks(
    action: EventAction,
    channel: Seq<char>,
    user: Seq<char>,
    text: Seq<char>,
    ts: Seq<char>,
    thread_ts: Option<String>,
) -> bool {
    let clean = clean_mention(text);
    if starts_with(clean, "/"@) {
        action matches EventAction::RunCommand(message) && message_of(
            message,
            channel,
            user,
            clean,
            ts,
            thread_ts,
        )
    } else if clean.contains('/') && words_of(clean).len() == 1 {
        action matches EventAction::SetupRepository { channel: c, repo_name, thread_ts: t } && c@
            == channel && repo_name@ == clean && thread_is(t, thread_ts)
    } else {
        action matches EventAction::ForwardMessage(message) && message_of(
            message,
            channel,
            user,
            clean,
            ts,
            thread_ts,
        )
    }
}

/// Whether, with the mentions in `seen` remembered, the notification
/// `event` at `now` is answered by `action` and leaves `after` remembered.
/// A mention seen before is a duplicate; a new one is remembered and read.
/// Messages of bots and edits are skipped; a join shows the setup form
/// unless the channel has a session. Only mentions are remembered.
pub open spec fn decides(
    seen: Map<Seq<char>, u64>,
    after: Map<Seq<char>, u64>,
    event: PushEvent,
    registry: Map<Seq<char>, crate::agent::repo_agent::RepoAgentView>,
    now: u64,
    action: EventAction,
) -> bool {
    match event {
        PushEvent::AppMention { channel, user, text, ts, thread_ts } => if seen.contains_key(
            mention_key(channel@, ts@),
        ) {
            after == seen && skips(action, Skipped::Duplicate)
        } else {
            after == seen.insert(mention_key(channel@, ts@), now) && mention_asks(
                action,
                channel@,
                user@,
                match text {
                    Some(t) => t@,
                    None => Seq::empty(),
                },
                ts@,
                thread_ts,
            )
        },
        PushEvent::Message { origin, from_bot, subtype } => after == seen && if from_bot {
            skips(action, Skipped::BotMessage)
        } else if subtype == MessageSubtype::MessageChanged {
            skips(action, Skipped::MessageEdit)
        } else if subtype == MessageSubtype::ChannelJoin && origin is Some {
            if registry.contains_key(origin->0@) {
                skips(action, Skipped::AlreadyConfigured)
            } else {
                (action matches EventAction::ShowSetupForm(c) && c@ == origin->0@)
            }
        } else {
            skips(action, Skipped::Unhandled)
        },
        PushEvent::Other => after == seen && skips(action, Skipped::Unhandled),
    }
}

/// The text of a mention without the mentions themselves.
pub fn strip_mentions(text: &str) -> (res: String)
    ensures
        res@ == clean_mention(text@),
{
    let chars = to_chars(text);
    let all = words(&chars);
    let marker = to_chars("<@");
    let mut kept: Vec<String> = Vec::new();
    let mut i: usize = 0;
    proof {
        assert(line_views(all@).take(0) =~= Seq::<Seq<char>>::empty());
        assert(views(kept@) =~= without_mentions(line_views(all@).take(0)));
    }
    while i < all.len()
        invariant
            i <= all.len(),
            marker@ == "<@"@,
            views(kept@) == without_mentions(line_views(all@).take(i as int)),
        decreases all.len() - i,
    {
        proof {
            assert(line_views(all@).take(i + 1).drop_last() =~= line_views(all@).take(i as int));
            assert(line_views(all@).take(i + 1).last() == all@[i as int]@);
        }
        if !has_prefix(&all[i], &marker) {
            let ghost before = views(kept@);
            kept.push(from_chars(&all[i], 0, all[i].len()));
            proof {
                assert(all@[i as int]@.subrange(0, all@[i as int]@.len() as int)
                    =~= all@[i as int]@);
                assert(views(kept@) =~= before.push(all@[i as int]@));
            }
        }
        i += 1;
    }
    proof {
        assert(line_views(all@).take(all.len() as int) =~= line_views(all@));
    }
    let joined = join_strings(&kept, " ");
    trim(&to_chars(joined.as_str()))
}

/// The thread reference made of `raw`.
pub fn thread_of(raw: &Option<String>) -> (res: Option<ThreadTs>)
    ensures
        thread_is(res, *raw),
{
    match raw {
        Some(ts) => Some(ThreadTs(ts.clone())),
        None => None,
    }
}

/// Decides what each notification asks for, and remembers which mentions
/// it has seen.
pub struct EventHandler {
    processed_events: EventDeduplicator,
}

impl View for EventHandler {
    type V = Map<Seq<char>, u64>;

    closed spec fn view(&self) -> Map<Seq<char>, u64> {
        self.processed_events@
    }
}

impl EventHandler {
    /// A handler that has seen nothing.
    pub fn new() -> (res: EventHandler)
        ensures
            res@ == Map::<Seq<char>, u64>::empty(),
    {
        EventHandler { processed_events: EventDeduplicator::new() }
    }

    /// Decides what the notification asks for at `now`. A mention is
    /// first checked against the mentions seen: one seen before is
    /// skipped as a duplicate, a new one is remembered. Messages of bots
    /// and edits are skipped; a join shows the setup form unless the
    /// channel has a session.
    pub fn process_event(&mut self, event: &PushEvent, agents: &AgentManager, now: u64) -> (res:
        EventAction)
        ensures
            decides(old(self)@, final(self)@, *event, agents@, now, res),
    {
        match event {
            PushEvent::AppMention { channel, user, text, ts, thread_ts } => {
                let mut event_key = String::from_str("mention:");
                event_key.append(channel.as_str());
                event_key.append(":");
                event_key.append(ts.as_str());
                assert(event_key@ =~= mention_key(channel@, ts@));
                match self.processed_events.check_and_mark_at(event_key.as_str(), now) {
                    EventStatus::AlreadyProcessed => EventAction::Skip(Skipped::Duplicate),
                    EventStatus::New => {
                        let clean_text = match text {
                            Some(t) => strip_mentions(t.as_str()),
                            None => {
                                proof {
                                    reveal_strlit("");
                                    assert(""@ =~= Seq::<char>::empty());
                                }
                                strip_mentions("")
                            },
                        };
                        let clean_chars = to_chars(clean_text.as_str());
                        let slash = to_chars("/");
                        let all_words = words(&clean_chars);
                        let word_count = all_words.len();
                        assert(line_views(all_words@).len() == word_count);
                        if has_prefix(&clean_chars, &slash) {
                            EventAction::RunCommand(
                                SlackMessage {
                                    channel: ChannelId(channel.clone()),
                                    user: UserId(user.clone()),
                                    text: clean_text,
                                    thread_ts: thread_of(thread_ts),
                                    ts: MessageTs(ts.clone()),
                                },
                            )
                        } else if contains_char(&clean_chars, '/') && word_count == 1 {
                            EventAction::SetupRepository {
                                channel: ChannelId(channel.clone()),
                                repo_name: clean_text,
                                thread_ts: thread_of(thread_ts),
                            }
                        } else {
                            EventAction::ForwardMessage(
                                SlackMessage {
                                    channel: ChannelId(channel.clone()),
                                    user: UserId(user.clone()),
                                    text: clean_text,
                                    thread_ts: thread_of(thread_ts),
                                    ts: MessageTs(ts.clone()),
                                },
                            )
                        }
                    },
                }
            },
            PushEvent::Message { origin, from_bot, subtype } => {
                if *from_bot {
                    EventAction::Skip(Skipped::BotMessage)
                } else if *subtype == MessageSubtype::MessageChanged {
                    EventAction::Skip(Skipped::MessageEdit)
                } else if *subtype == MessageSubtype::ChannelJoin {
                    match origin {
                        Some(id) => {
                            let joined = ChannelId(id.clone());
                            if agents.has_agent(&joined) {
                                EventAction::Skip(Skipped::AlreadyConfigured)
                            } else {
                                EventAction::ShowSetupForm(joined)
                            }
                        },
                        None => EventAction::Skip(Skipped::Unhandled),
                    }
                } else {
                    EventAction::Skip(Skipped::Unhandled)
                }
            },
            PushEvent::Other => EventAction::Skip(Skipped::Unhandled),
        }
    }

    /// Receives a notification at `now`: first forgets the mentions that
    /// are more than an hour old, then decides as `process_event` does.
    pub fn handle_push_event(&mut self, event: &PushEvent, agents: &AgentManager, now: u64) -> (res:
        EventAction)
        ensures
            decides(
                pruned(old(self)@, now, EVENT_TTL_MILLIS),
                final(self)@,
                *event,
                agents@,
                now,
                res,
            ),
    {
        self.processed_events.prune_at(now, EVENT_TTL_MILLIS);
        self.process_event(event, agents, now)
    }
}

} // verus!