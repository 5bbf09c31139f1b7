//! The registry: which channel has which session.
//!
//! The registry holds at most one session per channel. It creates no
//! session itself: the caller does the outside work (loading prompts,
//! connecting the agent client) and hands in what came of it.

use vstd::prelude::*;
use vstd::string::*;
use dashmap::DashMap;
use crate::agent::repo_agent::{
    expired, fresh_session, response_of, AgentEvent, RepoAgent, RepoAgentView, Submission,
};
use crate::slack::metrics::ResultMessage;
use crate::agent::types::{merge, Plan};
use crate::clock::unix_millis;
use crate::error::SlackCoderError;
use crate::session::{is_session_tag, session_id_text};
use crate::slack::client::{send_startup_notice, startup_text, Notice};
use crate::slack::types::ChannelId;
use crate::store::{
    distinct, lists, sessions, sessions_contains, sessions_get, sessions_insert, sessions_keys,
    sessions_new, sessions_remove,
};

verus! {

/// What came of creating the session of one channel during a restore.
#[derive(Debug)]
pub struct RestoreOutcome {
    pub channel_id: ChannelId,
    pub result: Result<RepoAgent, SlackCoderError>,
}

/// How a restore ended: how many sessions were registered, and how many
/// channels failed.
#[derive(Debug, Clone, Copy, PartialEq, Eq, Structural)]
pub struct RestoreSummary {
    pub restored: usize,
    pub failed: usize,
}

/// What became of a session that left the registry.
#[derive(Debug)]
pub enum Removal {
    /// Nothing was registered for the channel.
    Absent,
    /// Nobody else holds the session: the caller disconnects it.
    Disconnect(RepoAgent),
    /// A request still holds the session: it is left to finish, and is not
    /// disconnected.
    InUse(RepoAgent),
}

/// One session that an idle scan removed.
#[derive(Debug)]
pub struct Eviction {
    pub channel_id: ChannelId,
    pub removal: Removal,
}

/// Whether `removal` is what removing the session `agent` yields.
pub open spec fn removal_of(removal: Removal, agent: RepoAgentView) -> bool {
    if agent.in_flight {
        removal matches Removal::InUse(a) && a@ == agent
    } else {
        removal matches Removal::Disconnect(a) && a@ == agent
    }
}

/// The registry after the outcomes of a restore have been applied in
/// order: each success registers its session, each failure changes nothing.
pub open spec fn restored(
    registry: Map<Seq<char>, RepoAgentView>,
    outcomes: Seq<RestoreOutcome>,
) -> Map<Seq<char>, RepoAgentView>
    decreases outcomes.len(),
{
    if outcomes.len() == 0 {
        registry
    } else {
        let before = restored(registry, outcomes.drop_last());
        match outcomes.last().result {
            Ok(agent) => before.insert(outcomes.last().channel_id@, agent@),
            Err(_) => before,
        }
    }
}

/// How many of the outcomes are successes.
pub open spec fn count_restored(outcomes: Seq<RestoreOutcome>) -> nat
    decreases outcomes.len(),
{
    if outcomes.len() == 0 {
        0
    } else {
        count_restored(outcomes.drop_last()) + if outcomes.last().result is Ok {
            1nat
        } else {
            0nat
        }
    }
}

/// The channels marked as configured, in the order given.
pub open spec fn configured(channels: Seq<(ChannelId, bool)>) -> Seq<Seq<char>>
    decreases channels.len(),
{
    if channels.len() == 0 {
        Seq::empty()
    } else if channels.last().1 {
        configured(channels.drop_last()).push(channels.last().0@)
    } else {
        configured(channels.drop_last())
    }
}

/// Which sessions a sweep of the registry takes out.
#[derive(Debug, Clone, Copy, PartialEq, Eq, Structural)]
pub enum Sweep {
    /// Those idle for more than `timeout` at `now`.
    Idle { now: u64, timeout: u64 },
    /// Those that no request holds.
    Unlocked,
}

/// Whether the sweep takes the session out.
pub open spec fn sweeps(sweep: Sweep, agent: RepoAgentView) -> bool {
    match sweep {
        Sweep::Idle { now, timeout } => expired(agent.last_activity, now, timeout),
        Sweep::Unlocked => !agent.in_flight,
    }
}

/// The registry after the sweep: the sessions it does not take, unchanged.
pub open spec fn swept(registry: Map<Seq<char>, RepoAgentView>, sweep: Sweep) -> Map<
    Seq<char>,
    RepoAgentView,
> {
    Map::new(
        |key: Seq<char>| registry.contains_key(key) && !sweeps(sweep, registry[key]),
        |key: Seq<char>| registry[key],
    )
}

/// Whether `eviction` reports a session that the sweep took out of
/// `registry`.
pub open spec fn evicted(
    registry: Map<Seq<char>, RepoAgentView>,
    sweep: Sweep,
    eviction: Eviction,
) -> bool {
    registry.contains_key(eviction.channel_id@) && sweeps(sweep, registry[eviction.channel_id@])
        && removal_of(eviction.removal, registry[eviction.channel_id@])
}

/// Whether one of the evictions is about the channel `key`.
pub open spec fn reports(evictions: Seq<Eviction>, key: Seq<char>) -> bool {
    exists|i: int| 0 <= i < evictions.len() && (#[trigger] evictions[i]).channel_id@ == key
}

/// Whether no channel is reported twice.
pub open spec fn evictions_distinct(evictions: Seq<Eviction>) -> bool {
    forall|i: int, j: int|
        0 <= i < evictions.len() && 0 <= j < evictions.len() && i != j ==> (
        #[trigger] evictions[i]).channel_id@ != (#[trigger] evictions[j]).channel_id@
}

/// Whether `entry` gives the session id of a session of `registry` that no
/// request holds.
pub open spec fn active_entry(
    registry: Map<Seq<char>, RepoAgentView>,
    entry: (ChannelId, String),
) -> bool {
    registry.contains_key(entry.0@) && !registry[entry.0@].in_flight && entry.1@
        == registry[entry.0@].session_id
}

/// Whether one of the entries is about the channel `key`.
pub open spec fn names(entries: Seq<(ChannelId, String)>, key: Seq<char>) -> bool {
    exists|i: int| 0 <= i < entries.len() && (#[trigger] entries[i]).0@ == key
}

/// Whether no channel is named twice.
pub open spec fn entries_distinct(entries: Seq<(ChannelId, String)>) -> bool {
    forall|i: int, j: int|
        0 <= i < entries.len() && 0 <= j < entries.len() && i != j ==> (#[trigger] entries[i]).0@
            != (#[trigger] entries[j]).0@
}

/// Whether `evictions` report exactly the sessions of `registry` that are
/// idle at `now`.
pub open spec fn idle_evictions(
    registry: Map<Seq<char>, RepoAgentView>,
    now: u64,
    timeout: u64,
    evictions: Seq<Eviction>,
) -> bool {
    &&& forall|i: int|
        0 <= i < evictions.len() ==> evicted(
            registry,
            Sweep::Idle { now, timeout },
            #[trigger] evictions[i],
        )
    &&& forall|key: Seq<char>|
        registry.contains_key(key) && expired(registry[key].last_activity, now, timeout)
            ==> reports(evictions, key)
}

/// Whether `notice` tells a channel of `registry`, whose session no
/// request holds, that this session is ready.
pub open spec fn announces(registry: Map<Seq<char>, RepoAgentView>, notice: Notice) -> bool {
    registry.contains_key(notice.channel_id@) && !registry[notice.channel_id@].in_flight
        && notice.session_id@ == registry[notice.channel_id@].session_id && notice.text@
        == startup_text(notice.session_id@)
}

/// Whether one of the notices is for the channel `key`.
pub open spec fn notifies(notices: Seq<Notice>, key: Seq<char>) -> bool {
    exists|i: int| 0 <= i < notices.len() && (#[trigger] notices[i]).channel_id@ == key
}

/// The registry of sessions, keyed by channel.
pub struct AgentManager {
    repo_agents: DashMap<String, RepoAgent>,
    agent_timeout_millis: u64,
}

impl View for AgentManager {
    type V = Map<Seq<char>, RepoAgentView>;

    closed spec fn view(&self) -> Map<Seq<char>, RepoAgentView> {
        sessions(self.repo_agents)
    }
}

impl AgentManager {
    /// How long a session may stay idle before `cleanup_inactive_agents`
    /// removes it, in milliseconds.
    pub closed spec fn timeout(&self) -> u64 {
        self.agent_timeout_millis
    }

    /// An empty registry whose sessions expire after `agent_timeout_secs`
    /// seconds without activity.
    pub fn new(agent_timeout_secs: u64) -> (res: AgentManager)
        ensures
            res@ == Map::<Seq<char>, RepoAgentView>::empty(),
            res.timeout() == (if agent_timeout_secs * 1000 > u64::MAX {
                u64::MAX
            } else {
                (agent_timeout_secs * 1000) as u64
            }),
    {
        let agent_timeout_millis = if agent_timeout_secs > u64::MAX / 1000 {
            u64::MAX
        } else {
            agent_timeout_secs * 1000
        };
        AgentManager { repo_agents: sessions_new(), agent_timeout_millis }
    }

    /// A session for the channel, made once its agent client has been
    /// asked to connect: connected and under a new identifier if that
    /// went well, the `ClaudeAgent` error if it did not.
    pub fn create_repo_agent_static(channel_id: ChannelId, connected: Result<(), String>) -> (res:
        Result<RepoAgent, SlackCoderError>)
        ensures
            match connected {
                Ok(_) => res is Ok && exists|timestamp: u64, tag: Seq<char>, now: u64|
                    is_session_tag(tag) && res->Ok_0@ == (RepoAgentView {
                        connected: true,
                        last_activity: res->Ok_0@.last_activity,
                        ..#[trigger] fresh_session(
                            channel_id@,
                            session_id_text(channel_id@, timestamp, tag),
                            now,
                        )
                    }),
                Err(why) => res == Err::<RepoAgent, SlackCoderError>(
                    SlackCoderError::ClaudeAgent(why),
                ),
            },
    {
        let mut agent = RepoAgent::new(channel_id);
        match agent.connect(connected) {
            Ok(_) => Ok(agent),
            Err(why) => Err(why),
        }
    }

    /// The notices that tell each channel whose session no request holds
    /// that the session is ready: one per channel, in no particular order.
    pub fn send_startup_notifications(&self) -> (res: Vec<Notice>)
        ensures
            forall|i: int| 0 <= i < res@.len() ==> announces(self@, #[trigger] res@[i]),
            forall|key: Seq<char>|
                self@.contains_key(key) && !self@[key].in_flight ==> notifies(res@, key),
            forall|i: int, j: int|
                0 <= i < res@.len() && 0 <= j < res@.len() && i != j ==> (
                #[trigger] res@[i]).channel_id@ != (#[trigger] res@[j]).channel_id@,
    {
        let sessions = self.get_all_active_agents();
        let mut res: Vec<Notice> = Vec::new();
        let mut i: usize = 0;
        while i < sessions.len()
            invariant
                i <= sessions.len(),
                res@.len() == i,
                forall|j: int| 0 <= j < sessions@.len() ==> active_entry(self@, #[trigger] sessions@[j]),
                forall|j: int|
                    0 <= j < i ==> (#[trigger] res@[j]).channel_id@ == sessions@[j].0@ && announces(
                        self@,
                        res@[j],
                    ),
            decreases sessions.len() - i,
        {
            res.push(
                Notice {
                    channel_id: sessions[i].0.clone(),
                    session_id: sessions[i].1.clone(),
                    text: send_startup_notice(sessions[i].1.as_str()),
                },
            );
            i += 1;
        }
        proof {
            assert forall|key: Seq<char>|
                self@.contains_key(key) && !self@[key].in_flight implies notifies(res@, key) by {
                assert(names(sessions@, key));
                let k = choose|k: int|
                    0 <= k < sessions@.len() && (#[trigger] sessions@[k]).0@ == key;
                assert(res@[k].channel_id@ == key);
            }
            assert forall|a: int, b: int|
                0 <= a < res@.len() && 0 <= b < res@.len() && a != b implies (
            #[trigger] res@[a]).channel_id@ != (#[trigger] res@[b]).channel_id@ by {
                assert(sessions@[a].0@ != sessions@[b].0@);
            }
        }
        res
    }

    /// The channels to restore: those of `channels` whose marker says that
    /// they were configured before, in the same order.
    pub fn eligible_channels(channels: &Vec<(ChannelId, bool)>) -> (res: Vec<ChannelId>)
        ensures
            crate::slack::types::channel_views(res@) == configured(channels@),
    {
        let mut res: Vec<ChannelId> = Vec::new();
        let mut i: usize = 0;
        while i < channels.len()
            invariant
                i <= channels.len(),
                crate::slack::types::channel_views(res@) == configured(channels@.take(i as int)),
            decreases channels.len() - i,
        {
            proof {
                assert(channels@.take(i + 1).drop_last() == channels@.take(i as int));
            }
            if channels[i].1 {
                let ghost before = res@;
                res.push(channels[i].0.clone());
                proof {
                    assert(crate::slack::types::channel_views(res@)
                        =~= crate::slack::types::channel_views(before).push(channels@[i as int].0@));
                }
            }
            i += 1;
        }
        proof {
            assert(channels@.take(channels.len() as int) == channels@);
        }
        res
    }

    /// Registers the sessions that a restore created. A channel whose
    /// creation failed is counted and skipped: it never keeps the others
    /// from being registered, and the call as a whole always succeeds.
    pub fn scan_and_restore_channels(&mut self, outcomes: &Vec<RestoreOutcome>) -> (res:
        RestoreSummary)
        ensures
            final(self)@ == restored(old(self)@, outcomes@),
            final(self).timeout() == old(self).timeout(),
            res.restored == count_restored(outcomes@),
            res.restored + res.failed == outcomes@.len(),
    {
        let mut restored_count: usize = 0;
        let mut failed_count: usize = 0;
        let mut i: usize = 0;
        while i < outcomes.len()
            invariant
                i <= outcomes.len(),
                self@ == restored(old(self)@, outcomes@.take(i as int)),
                self.timeout() == old(self).timeout(),
                restored_count == count_restored(outcomes@.take(i as int)),
                restored_count + failed_count == i,
            decreases outcomes.len() - i,
        {
            proof {
                assert(outcomes@.take(i + 1).drop_last() == outcomes@.take(i as int));
            }
            match &outcomes[i].result {
                Ok(agent) => {
                    sessions_insert(
                        &mut self.repo_agents,
                        outcomes[i].channel_id.0.clone(),
                        agent.clone(),
                    );
                    restored_count += 1;
                },
                Err(_) => {
                    failed_count += 1;
                },
            }
            i += 1;
        }
        proof {
            assert(outcomes@.take(outcomes.len() as int) == outcomes@);
        }
        RestoreSummary { restored: restored_count, failed: failed_count }
    }

    /// Ends the setup of a channel. If the setup succeeded its session is
    /// registered, in place of any session the channel had. If it failed,
    /// the error is passed on and the registry is left as it was.
    pub fn setup_channel(
        &mut self,
        channel_id: ChannelId,
        outcome: Result<RepoAgent, SlackCoderError>,
    ) -> (res: Result<(), SlackCoderError>)
        ensures
            final(self).timeout() == old(self).timeout(),
            match outcome {
                Ok(agent) => res is Ok && final(self)@ == old(self)@.insert(
                    channel_id@,
                    agent@,
                ),
                Err(why) => res == Err::<(), SlackCoderError>(why) && final(self)@ == old(self)@,
            },
    {
        match outcome {
            Ok(agent) => {
                sessions_insert(&mut self.repo_agents, channel_id.0, agent);
                Ok(())
            },
            Err(why) => Err(why),
        }
    }

    /// A copy of the session of the channel, or `AgentNotFound`.
    pub fn get_repo_agent(&self, channel_id: &ChannelId) -> (res: Result<
        RepoAgent,
        SlackCoderError,
    >)
        ensures
            res is Ok == self@.contains_key(channel_id@),
            res is Ok ==> res->Ok_0@ == self@[channel_id@],
            res is Err ==> res->Err_0 is AgentNotFound,
    {
        match sessions_get(&self.repo_agents, channel_id.as_str()) {
            Some(agent) => Ok(agent),
            None => Err(
                SlackCoderError::AgentNotFound(
                    String::from_str("No agent found for channel ").concat(channel_id.as_str()),
                ),
            ),
        }
    }

    /// Takes the session of the channel out of the registry. A session
    /// that no request holds is handed back for an orderly disconnect; one
    /// that is in use is handed back marked so, and is not to be
    /// disconnected.
    pub fn remove_agent(&mut self, channel_id: &ChannelId) -> (res: Removal)
        ensures
            final(self)@ == old(self)@.remove(channel_id@),
            final(self).timeout() == old(self).timeout(),
            if old(self)@.contains_key(channel_id@) {
                removal_of(res, old(self)@[channel_id@])
            } else {
                res is Absent
            },
    {
        match sessions_remove(&mut self.repo_agents, channel_id.as_str()) {
            Some(agent) => {
                if agent.is_busy() {
                    Removal::InUse(agent)
                } else {
                    Removal::Disconnect(agent)
                }
            },
            None => Removal::Absent,
        }
    }

    /// Whether the channel has a session.
    pub fn has_agent(&self, channel_id: &ChannelId) -> (b: bool)
        ensures
            b == self@.contains_key(channel_id@),
    {
        sessions_contains(&self.repo_agents, channel_id.as_str())
    }

    /// Takes out of the registry every session that the sweep selects, and
    /// reports each with what is to become of it.
    pub fn sweep(&mut self, sweep: Sweep) -> (res: Vec<Eviction>)
        ensures
            final(self)@ == swept(old(self)@, sweep),
            final(self).timeout() == old(self).timeout(),
            forall|i: int| 0 <= i < res@.len() ==> evicted(old(self)@, sweep, #[trigger] res@[i]),
            forall|key: Seq<char>|
                old(self)@.contains_key(key) && sweeps(sweep, old(self)@[key]) ==> reports(
                    res@,
                    key,
                ),
            evictions_distinct(res@),
    {
        let keys = sessions_keys(&self.repo_agents);
        let mut res: Vec<Eviction> = Vec::new();
        let mut idx: usize = 0;
        while idx < keys.len()
            invariant
                idx <= keys.len(),
                distinct(keys@),
                self.timeout() == old(self).timeout(),
                forall|key: Seq<char>| #[trigger]
                    old(self)@.contains_key(key) <==> lists(keys@, key),
                forall|key: Seq<char>| #[trigger]
                    self@.contains_key(key) ==> old(self)@.contains_key(key) && self@[key] == old(
                        self,
                    )@[key],
                forall|key: Seq<char>|
                    old(self)@.contains_key(key) && !(#[trigger] self@.contains_key(key))
                        ==> sweeps(sweep, old(self)@[key]),
                forall|j: int|
                    0 <= j < idx && sweeps(sweep, old(self)@[(#[trigger] keys@[j])@])
                        ==> !self@.contains_key(keys@[j]@) && reports(res@, keys@[j]@),
                forall|j: int|
                    idx <= j < keys@.len() ==> self@.contains_key((#[trigger] keys@[j])@),
                forall|i: int|
                    0 <= i < res@.len() ==> evicted(old(self)@, sweep, #[trigger] res@[i])
                        && exists|j: int|
                        0 <= j < idx && (#[trigger] keys@[j])@ == res@[i].channel_id@,
                evictions_distinct(res@),
            decreases keys.len() - idx,
        {
            let key = &keys[idx];
            assert(lists(keys@, key@));
            let ghost before = self@;
            let ghost reported = res@;
            match sessions_get(&self.repo_agents, key.as_str()) {
                Some(agent) => {
                    let take = match sweep {
                        Sweep::Idle { now, timeout } => agent.is_expired_at(now, timeout),
                        Sweep::Unlocked => !agent.is_busy(),
                    };
                    if take {
                        let channel_id = ChannelId(key.clone());
                        let removal = self.remove_agent(&channel_id);
                        res.push(Eviction { channel_id, removal });
                        proof {
                            assert(res@[reported.len() as int].channel_id@ == key@);
                            assert forall|i: int| 0 <= i < res@.len() implies evicted(
                                old(self)@,
                                sweep,
                                #[trigger] res@[i],
                            ) && exists|j: int|
                                0 <= j < idx + 1 && (#[trigger] keys@[j])@ == res@[i].channel_id@ by {
                                if i < reported.len() {
                                    assert(res@[i] == reported[i]);
                                    let j = choose|j: int|
                                        0 <= j < idx && (#[trigger] keys@[j])@
                                            == reported[i].channel_id@;
                                    assert(keys@[j]@ == res@[i].channel_id@);
                                } else {
                                    assert(keys@[idx as int]@ == res@[i].channel_id@);
                                }
                            }
                            assert forall|j: int|
                                0 <= j < idx + 1 && sweeps(
                                    sweep,
                                    old(self)@[(#[trigger] keys@[j])@],
                                ) implies !self@.contains_key(keys@[j]@) && reports(
                                res@,
                                keys@[j]@,
                            ) by {
                                if j < idx {
                                    let i = choose|i: int|
                                        0 <= i < reported.len() && (#[trigger] reported[i]).channel_id@
                                            == keys@[j]@;
                                    assert(res@[i] == reported[i]);
                                    assert(res@[i].channel_id@ == keys@[j]@);
                                } else {
                                    assert(res@[reported.len() as int].channel_id@ == keys@[j]@);
                                }
                            }
                            assert forall|a: int, b: int|
                                0 <= a < res@.len() && 0 <= b < res@.len() && a != b implies (
                            #[trigger] res@[a]).channel_id@ != (#[trigger] res@[b]).channel_id@ by {
                                if a < reported.len() && b < reported.len() {
                                    assert(res@[a] == reported[a]);
                                    assert(res@[b] == reported[b]);
                                } else if a < reported.len() {
                                    assert(res@[a] == reported[a]);
                                    let j = choose|j: int|
                                        0 <= j < idx && (#[trigger] keys@[j])@
                                            == reported[a].channel_id@;
                                    assert(keys@[j]@ != keys@[idx as int]@);
                                } else {
                                    assert(res@[b] == reported[b]);
                                    let j = choose|j: int|
                                        0 <= j < idx && (#[trigger] keys@[j])@
                                            == reported[b].channel_id@;
                                    assert(keys@[j]@ != keys@[idx as int]@);
                                }
                            }
                        }
                    }
                },
                None => {},
            }
            idx += 1;
        }
        proof {
            assert forall|key: Seq<char>|
                old(self)@.contains_key(key) && sweeps(sweep, old(self)@[key]) implies reports(
                res@,
                key,
            ) && !self@.contains_key(key) by {
                assert(lists(keys@, key));
                let j = choose|j: int| 0 <= j < keys@.len() && (#[trigger] keys@[j])@ == key;
                assert(sweeps(sweep, old(self)@[keys@[j]@]));
            }
            assert(self@ =~= swept(old(self)@, sweep));
        }
        res
    }

    /// Removes every session that has been idle for longer than the
    /// registry's timeout at `now`.
    pub fn cleanup_inactive_agents_at(&mut self, now: u64) -> (res: Vec<Eviction>)
        ensures
            final(self)@ == swept(
                old(self)@,
                Sweep::Idle { now, timeout: old(self).timeout() },
            ),
            final(self).timeout() == old(self).timeout(),
            forall|i: int|
                0 <= i < res@.len() ==> evicted(
                    old(self)@,
                    Sweep::Idle { now, timeout: old(self).timeout() },
                    #[trigger] res@[i],
                ),
            forall|key: Seq<char>|
                old(self)@.contains_key(key) && expired(
                    old(self)@[key].last_activity,
                    now,
                    old(self).timeout(),
                ) ==> reports(res@, key),
            evictions_distinct(res@),
    {
        let timeout = self.agent_timeout_millis;
        let res = self.sweep(Sweep::Idle { now, timeout });
        proof {
            assert forall|key: Seq<char>|
                old(self)@.contains_key(key) && expired(
                    old(self)@[key].last_activity,
                    now,
                    old(self).timeout(),
                ) implies reports(res@, key) by {
                assert(sweeps(Sweep::Idle { now, timeout }, old(self)@[key]));
            }
        }
        res
    }

    /// `cleanup_inactive_agents_at` at the present reading of the clock.
    pub fn cleanup_inactive_agents(&mut self) -> (res: Vec<Eviction>)
        ensures
            final(self).timeout() == old(self).timeout(),
            exists|now: u64|
                final(self)@ == #[trigger] swept(
                    old(self)@,
                    Sweep::Idle { now, timeout: old(self).timeout() },
                ) && idle_evictions(old(self)@, now, old(self).timeout(), res@),
            evictions_distinct(res@),
    {
        let now = unix_millis();
        let res = self.cleanup_inactive_agents_at(now);
        assert(idle_evictions(old(self)@, now, old(self).timeout(), res@));
        res
    }

    /// Releases, for the shutdown of the process, every session that no
    /// request holds. A session in use is left where it is: the caller
    /// bounds how long it waits for it.
    pub fn disconnect_all_agents(&mut self) -> (res: Vec<Eviction>)
        ensures
            final(self)@ == swept(old(self)@, Sweep::Unlocked),
            final(self).timeout() == old(self).timeout(),
            forall|i: int|
                0 <= i < res@.len() ==> evicted(old(self)@, Sweep::Unlocked, #[trigger] res@[i]),
            forall|key: Seq<char>|
                old(self)@.contains_key(key) && !old(self)@[key].in_flight ==> reports(res@, key),
            evictions_distinct(res@),
    {
        let res = self.sweep(Sweep::Unlocked);
        proof {
            assert forall|key: Seq<char>|
                old(self)@.contains_key(key) && !old(self)@[key].in_flight implies reports(
                res@,
                key,
            ) by {
                assert(sweeps(Sweep::Unlocked, old(self)@[key]));
            }
        }
        res
    }

    /// The channel and session id of every session that no request holds.
    /// A session in use is left out rather than waited for. No channel is
    /// listed twice; the order is left open.
    pub fn get_all_active_agents(&self) -> (res: Vec<(ChannelId, String)>)
        ensures
            forall|i: int| 0 <= i < res@.len() ==> active_entry(self@, #[trigger] res@[i]),
            forall|key: Seq<char>|
                self@.contains_key(key) && !self@[key].in_flight ==> names(res@, key),
            entries_distinct(res@),
    {
        let keys = sessions_keys(&self.repo_agents);
        let mut res: Vec<(ChannelId, String)> = Vec::new();
        let mut idx: usize = 0;
        while idx < keys.len()
            invariant
                idx <= keys.len(),
                distinct(keys@),
                forall|key: Seq<char>| #[trigger] self@.contains_key(key) <==> lists(keys@, key),
                forall|i: int|
                    0 <= i < res@.len() ==> active_entry(self@, #[trigger] res@[i]) && exists|
                        j: int,
                    | 0 <= j < idx && (#[trigger] keys@[j])@ == res@[i].0@,
                forall|j: int|
                    0 <= j < idx && !self@[(#[trigger] keys@[j])@].in_flight ==> names(
                        res@,
                        keys@[j]@,
                    ),
                entries_distinct(res@),
            decreases keys.len() - idx,
        {
            let key = &keys[idx];
            assert(lists(keys@, key@));
            let ghost listed = res@;
            match sessions_get(&self.repo_agents, key.as_str()) {
                Some(agent) => {
                    if !agent.is_busy() {
                        res.push((ChannelId(key.clone()), agent.get_session_id()));
                        proof {
                            assert(res@[listed.len() as int].0@ == key@);
                            assert forall|i: int| 0 <= i < res@.len() implies active_entry(
                                self@,
                                #[trigger] res@[i],
                            ) && exists|j: int|
                                0 <= j < idx + 1 && (#[trigger] keys@[j])@ == res@[i].0@ by {
                                if i < listed.len() {
                                    assert(res@[i] == listed[i]);
                                    let j = choose|j: int|
                                        0 <= j < idx && (#[trigger] keys@[j])@ == listed[i].0@;
                                    assert(keys@[j]@ == res@[i].0@);
                                } else {
                                    assert(keys@[idx as int]@ == res@[i].0@);
                                }
                            }
                            assert forall|a: int, b: int|
                                0 <= a < res@.len() && 0 <= b < res@.len() && a != b implies (
                            #[trigger] res@[a]).0@ != (#[trigger] res@[b]).0@ by {
                                if a < listed.len() && b < listed.len() {
                                    assert(res@[a] == listed[a]);
                                    assert(res@[b] == listed[b]);
                                } else if a < listed.len() {
                                    assert(res@[a] == listed[a]);
                                    let j = choose|j: int|
                                        0 <= j < idx && (#[trigger] keys@[j])@ == listed[a].0@;
                                    assert(keys@[j]@ != keys@[idx as int]@);
                                } else {
                                    assert(res@[b] == listed[b]);
                                    let j = choose|j: int|
                                        0 <= j < idx && (#[trigger] keys@[j])@ == listed[b].0@;
                                    assert(keys@[j]@ != keys@[idx as int]@);
                                }
                            }
                        }
                    }
                },
                None => {},
            }
            proof {
                assert forall|j: int|
                    0 <= j < idx + 1 && !self@[(#[trigger] keys@[j])@].in_flight implies names(
                    res@,
                    keys@[j]@,
                ) by {
                    if j < idx {
                        let i = choose|i: int|
                            0 <= i < listed.len() && (#[trigger] listed[i]).0@ == keys@[j]@;
                        assert(res@[i] == listed[i]);
                        assert(res@[i].0@ == keys@[j]@);
                    } else {
                        assert(res@[listed.len() as int].0@ == keys@[j]@);
                    }
                }
            }
            idx += 1;
        }
        proof {
            assert forall|key: Seq<char>|
                self@.contains_key(key) && !self@[key].in_flight implies names(res@, key) by {
                assert(lists(keys@, key));
                let j = choose|j: int| 0 <= j < keys@.len() && (#[trigger] keys@[j])@ == key;
                assert(!self@[keys@[j]@].in_flight);
            }
        }
        res
    }

    /// Asks the session of the channel to admit a request. Without a
    /// session the answer is `AgentNotFound`; while another request holds
    /// the session it is `AgentBusy`; in both cases nothing changes.
    /// Otherwise the request takes the lock and the answer says what to
    /// hand to the agent client.
    pub fn query(&mut self, channel_id: &ChannelId, message: &str) -> (res: Result<
        Submission,
        SlackCoderError,
    >)
        ensures
            final(self).timeout() == old(self).timeout(),
            !old(self)@.contains_key(channel_id@) ==> res is Err && res->Err_0 is AgentNotFound
                && final(self)@ == old(self)@,
            old(self)@.contains_key(channel_id@) && old(self)@[channel_id@].in_flight ==> res is Err
                && res->Err_0 is AgentBusy && final(self)@ == old(self)@,
            old(self)@.contains_key(channel_id@) && !old(self)@[channel_id@].in_flight ==> res is Ok
                && res->Ok_0.text@ == message@ && res->Ok_0.session_id@ == old(
                self,
            )@[channel_id@].session_id && final(self)@ == old(self)@.insert(
                channel_id@,
                RepoAgentView { in_flight: true, ..old(self)@[channel_id@] },
            ),
    {
        match self.get_repo_agent(channel_id) {
            Ok(mut agent) => {
                let res = agent.query(message);
                if res.is_ok() {
                    sessions_insert(&mut self.repo_agents, channel_id.0.clone(), agent);
                }
                res
            },
            Err(why) => Err(why),
        }
    }

    /// Records, at `now`, what became of handing an admitted request to
    /// the agent client: see `RepoAgent::query_submitted_at`.
    pub fn query_submitted_at(
        &mut self,
        channel_id: &ChannelId,
        outcome: Result<(), String>,
        now: u64,
    ) -> (res: Result<(), SlackCoderError>)
        ensures
            final(self).timeout() == old(self).timeout(),
            !old(self)@.contains_key(channel_id@) ==> res is Err && res->Err_0 is AgentNotFound
                && final(self)@ == old(self)@,
            old(self)@.contains_key(channel_id@) ==> match outcome {
                Ok(_) => res is Ok && final(self)@ == old(self)@.insert(
                    channel_id@,
                    RepoAgentView { last_activity: now, ..old(self)@[channel_id@] },
                ),
                Err(why) => res == Err::<(), SlackCoderError>(SlackCoderError::ClaudeAgent(why))
                    && final(self)@ == old(self)@.insert(
                    channel_id@,
                    RepoAgentView { in_flight: false, ..old(self)@[channel_id@] },
                ),
            },
    {
        match self.get_repo_agent(channel_id) {
            Ok(mut agent) => {
                let res = agent.query_submitted_at(outcome, now);
                sessions_insert(&mut self.repo_agents, channel_id.0.clone(), agent);
                res
            },
            Err(why) => Err(why),
        }
    }

    /// Consumes the response to the request that holds the channel's
    /// session, and gives the lock back: see `RepoAgent::receive_response`.
    pub fn receive_response(&mut self, channel_id: &ChannelId, events: &Vec<AgentEvent>) -> (res:
        Result<Option<ResultMessage>, SlackCoderError>)
        ensures
            final(self).timeout() == old(self).timeout(),
            !old(self)@.contains_key(channel_id@) ==> res is Err && res->Err_0 is AgentNotFound
                && final(self)@ == old(self)@,
            old(self)@.contains_key(channel_id@) ==> response_of(events@, res) && final(self)@
                == old(self)@.insert(
                channel_id@,
                RepoAgentView { in_flight: false, ..old(self)@[channel_id@] },
            ),
    {
        match self.get_repo_agent(channel_id) {
            Ok(mut agent) => {
                let res = agent.receive_response(events);
                sessions_insert(&mut self.repo_agents, channel_id.0.clone(), agent);
                res
            },
            Err(why) => Err(why),
        }
    }

    /// Gives back the lock of the channel's session once the response has
    /// been consumed. Without a session nothing changes.
    pub fn finish_query(&mut self, channel_id: &ChannelId)
        ensures
            final(self).timeout() == old(self).timeout(),
            final(self)@ == (if old(self)@.contains_key(channel_id@) {
                old(self)@.insert(
                    channel_id@,
                    RepoAgentView { in_flight: false, ..old(self)@[channel_id@] },
                )
            } else {
                old(self)@
            }),
    {
        match self.get_repo_agent(channel_id) {
            Ok(mut agent) => {
                agent.finish_query();
                sessions_insert(&mut self.repo_agents, channel_id.0.clone(), agent);
            },
            Err(_) => {},
        }
    }

    /// Starts the channel's session over under a newly generated
    /// identifier, with an empty plan, and returns the identifier. Other
    /// channels are untouched.
    pub fn start_new_session(&mut self, channel_id: &ChannelId) -> (res: Result<
        String,
        SlackCoderError,
    >)
        ensures
            final(self).timeout() == old(self).timeout(),
            res is Ok == old(self)@.contains_key(channel_id@),
            res is Err ==> res->Err_0 is AgentNotFound && final(self)@ == old(self)@,
            res is Ok ==> final(self)@ == old(self)@.insert(
                channel_id@,
                RepoAgentView {
                    session_id: res->Ok_0@,
                    plan: Seq::empty(),
                    last_activity: final(self)@[channel_id@].last_activity,
                    ..old(self)@[channel_id@]
                },
            ),
    {
        match self.get_repo_agent(channel_id) {
            Ok(mut agent) => {
                let res = agent.start_new_session();
                sessions_insert(&mut self.repo_agents, channel_id.0.clone(), agent);
                proof {
                    assert(self@ =~= old(self)@.insert(
                        channel_id@,
                        RepoAgentView {
                            session_id: res->Ok_0@,
                            plan: Seq::empty(),
                            last_activity: self@[channel_id@].last_activity,
                            ..old(self)@[channel_id@]
                        },
                    ));
                }
                res
            },
            Err(why) => Err(why),
        }
    }

    /// Merges a snapshot of the agent's tasks into the plan of the
    /// channel's session at `now`, and returns the merged plan for display.
    pub fn update_plan_at(&mut self, channel_id: &ChannelId, snapshot: &Plan, now: u64) -> (res:
        Result<Plan, SlackCoderError>)
        ensures
            final(self).timeout() == old(self).timeout(),
            res is Ok == old(self)@.contains_key(channel_id@),
            res is Err ==> res->Err_0 is AgentNotFound && final(self)@ == old(self)@,
            res is Ok ==> res->Ok_0@ == merge(old(self)@[channel_id@].plan, snapshot@, now)
                && final(self)@ == old(self)@.insert(
                channel_id@,
                RepoAgentView { plan: res->Ok_0@, ..old(self)@[channel_id@] },
            ),
    {
        match self.get_repo_agent(channel_id) {
            Ok(mut agent) => {
                let plan = agent.update_plan_at(snapshot, now);
                sessions_insert(&mut self.repo_agents, channel_id.0.clone(), agent);
                Ok(plan)
            },
            Err(why) => Err(why),
        }
    }
}

/// The registry holds at most one session per channel: registering a
/// second one replaces the first, and leaves every other channel alone.
pub proof fn law_one_session_per_channel(
    registry: Map<Seq<char>, RepoAgentView>,
    channel: Seq<char>,
    first: RepoAgentView,
    second: RepoAgentView,
    other: Seq<char>,
)
    requires
        other != channel,
    ensures
        registry.insert(channel, first).insert(channel, second) == registry.insert(
            channel,
            second,
        ),
        registry.insert(channel, second)[channel] == second,
        registry.insert(channel, second).contains_key(other) == registry.contains_key(other),
        registry.contains_key(other) ==> registry.insert(channel, second)[other]
            == registry[other],
{
    assert(registry.insert(channel, first).insert(channel, second) =~= registry.insert(
        channel,
        second,
    ));
}

/// A failed channel never keeps another from being restored: whatever
/// else the outcomes hold, the session of the last success reported for a
/// channel is registered.
pub proof fn law_restore_isolates_failures(
    registry: Map<Seq<char>, RepoAgentView>,
    outcomes: Seq<RestoreOutcome>,
    i: int,
)
    requires
        0 <= i < outcomes.len(),
        outcomes[i].result is Ok,
        forall|j: int|
            i < j < outcomes.len() && (#[trigger] outcomes[j]).result is Ok
                ==> outcomes[j].channel_id@ != outcomes[i].channel_id@,
    ensures
        restored(registry, outcomes).contains_key(outcomes[i].channel_id@),
        restored(registry, outcomes)[outcomes[i].channel_id@] == outcomes[i].result->Ok_0@,
    decreases outcomes.len(),
{
    if i == outcomes.len() - 1 {
    } else {
        law_restore_isolates_failures(registry, outcomes.drop_last(), i);
        assert(outcomes.last() == outcomes[outcomes.len() - 1]);
    }
}

/// A channel for which no success is reported is left exactly as it was.
pub proof fn law_restore_leaves_failed_absent(
    registry: Map<Seq<char>, RepoAgentView>,
    outcomes: Seq<RestoreOutcome>,
    channel: Seq<char>,
)
    requires
        forall|j: int|
            0 <= j < outcomes.len() && (#[trigger] outcomes[j]).result is Ok
                ==> outcomes[j].channel_id@ != channel,
    ensures
        restored(registry, outcomes).contains_key(channel) == registry.contains_key(channel),
        registry.contains_key(channel) ==> restored(registry, outcomes)[channel]
            == registry[channel],
    decreases outcomes.len(),
{
    if outcomes.len() > 0 {
        law_restore_leaves_failed_absent(registry, outcomes.drop_last(), channel);
        assert(outcomes.last() == outcomes[outcomes.len() - 1]);
    }
}

} // verus!
