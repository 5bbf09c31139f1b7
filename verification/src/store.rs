//! The concurrent maps that the crate keeps, each behind a small set of
//! operations whose contracts speak of the map's contents.
//!
//! Operations that change a map take it by `&mut`: the contracts describe
//! one caller at a time.

use vstd::prelude::*;
use vstd::string::*;
use dashmap::DashMap;
use crate::agent::repo_agent::{RepoAgent, RepoAgentView};
use crate::metadata::types::{stale, ChannelInfo, UserInfo};

verus! {

#[verifier::external_type_specification]
#[verifier::external_body]
#[verifier::reject_recursive_types(K)]
#[verifier::reject_recursive_types(V)]
#[verifier::reject_recursive_types(S)]
pub struct ExDashMap<K, V, S>(DashMap<K, V, S>);

/// What a map from event keys to clock readings holds.
pub uninterp spec fn stamps(map: DashMap<String, u64>) -> Map<Seq<char>, u64>;

/// Whether an entry made at `at` is no older than `ttl` at the time `now`.
pub open spec fn is_fresh(at: u64, now: u64, ttl: u64) -> bool {
    now - at <= ttl
}

/// Whether an entry made at `at` is no older than `ttl` at the time `now`.
pub fn fresh(at: u64, now: u64, ttl: u64) -> (b: bool)
    ensures
        b == is_fresh(at, now, ttl),
{
    now <= at || now - at <= ttl
}

/// An empty map of stamps.
///
/// Trusted: `DashMap::new` makes a map without entries.
#[verifier::external_body]
pub(crate) fn stamps_new() -> (map: DashMap<String, u64>)
    ensures
        stamps(map) == (Map::<Seq<char>, u64>::empty()),
{
    DashMap::new()
}

/// The stamp stored under `key`, if there is one.
///
/// Trusted: `DashMap::get` finds the entry whose key equals `key`, and only
/// that one.
#[verifier::external_body]
pub(crate) fn stamps_get(map: &DashMap<String, u64>, key: &str) -> (at: Option<u64>)
    ensures
        at == (if stamps(*map).contains_key(key@) {
            Some(stamps(*map)[key@])
        } else {
            None
        }),
{
    map.get(key).map(|entry| *entry)
}

/// Stores `at` under `key`, replacing what was there.
///
/// Trusted: `DashMap::insert` sets the entry of `key` and leaves every other
/// entry as it was.
#[verifier::external_body]
pub(crate) fn stamps_insert(map: &mut DashMap<String, u64>, key: String, at: u64)
    ensures
        stamps(*final(map)) == stamps(*old(map)).insert(key@, at),
{
    map.insert(key, at);
}

/// Drops every stamp that is not fresh at `now`.
///
/// Trusted: `DashMap::retain` keeps exactly the entries for which the
/// closure answers `true`, unchanged.
#[verifier::external_body]
pub(crate) fn stamps_retain_fresh(map: &mut DashMap<String, u64>, now: u64, ttl: u64)
    ensures
        forall|key: Seq<char>| #[trigger]
            stamps(*final(map)).contains_key(key) <==> stamps(*old(map)).contains_key(key)
                && is_fresh(stamps(*old(map))[key], now, ttl),
        forall|key: Seq<char>| #[trigger]
            stamps(*final(map)).contains_key(key) ==> stamps(*final(map))[key] == stamps(
                *old(map),
            )[key],
{
    map.retain(|_, at| fresh(*at, now, ttl));
}

/// What a map from channel keys to sessions holds.
pub uninterp spec fn sessions(map: DashMap<String, RepoAgent>) -> Map<Seq<char>, RepoAgentView>;

/// Whether no string occurs twice in `keys`.
pub open spec fn distinct(keys: Seq<String>) -> bool {
    forall|i: int, j: int|
        0 <= i < keys.len() && 0 <= j < keys.len() && i != j ==> (#[trigger] keys[i])@
            != (#[trigger] keys[j])@
}

/// Whether `key` is the view of one of `keys`.
pub open spec fn lists(keys: Seq<String>, key: Seq<char>) -> bool {
    exists|i: int| 0 <= i < keys.len() && (#[trigger] keys[i])@ == key
}

/// An empty map of sessions.
///
/// Trusted: `DashMap::new` makes a map without entries.
#[verifier::external_body]
pub(crate) fn sessions_new() -> (map: DashMap<String, RepoAgent>)
    ensures
        sessions(map) == (Map::<Seq<char>, RepoAgentView>::empty()),
{
    DashMap::new()
}

/// Whether a session is stored under `key`.
///
/// Trusted: `DashMap::contains_key` answers whether an entry has that key.
#[verifier::external_body]
pub(crate) fn sessions_contains(map: &DashMap<String, RepoAgent>, key: &str) -> (found: bool)
    ensures
        found == sessions(*map).contains_key(key@),
{
    map.contains_key(key)
}

/// A copy of the session stored under `key`, if there is one.
///
/// Trusted: `DashMap::get` finds the entry whose key equals `key`, and only
/// that one; the copy is made by `RepoAgent::clone`.
#[verifier::external_body]
pub(crate) fn sessions_get(map: &DashMap<String, RepoAgent>, key: &str) -> (found: Option<
    RepoAgent,
>)
    ensures
        found is Some == sessions(*map).contains_key(key@),
        found is Some ==> found->0@ == sessions(*map)[key@],
{
    map.get(key).map(|entry| entry.value().clone())
}

/// Stores `agent` under `key`, replacing what was there.
///
/// Trusted: `DashMap::insert` sets the entry of `key` and leaves every other
/// entry as it was.
#[verifier::external_body]
pub(crate) fn sessions_insert(map: &mut DashMap<String, RepoAgent>, key: String, agent: RepoAgent)
    ensures
        sessions(*final(map)) == sessions(*old(map)).insert(key@, agent@),
{
    map.insert(key, agent);
}

/// Takes the session stored under `key` out of the map, if there is one.
///
/// Trusted: `DashMap::remove` removes the entry of `key`, returns its value,
/// and leaves every other entry as it was.
#[verifier::external_body]
pub(crate) fn sessions_remove(map: &mut DashMap<String, RepoAgent>, key: &str) -> (taken: Option<
    RepoAgent,
>)
    ensures
        sessions(*final(map)) == sessions(*old(map)).remove(key@),
        taken is Some == sessions(*old(map)).contains_key(key@),
        taken is Some ==> taken->0@ == sessions(*old(map))[key@],
{
    map.remove(key).map(|entry| entry.1)
}

/// The keys of the map, each once, in no particular order.
///
/// Trusted: `DashMap::iter` visits every entry exactly once; the order is
/// left open.
#[verifier::external_body]
pub(crate) fn sessions_keys(map: &DashMap<String, RepoAgent>) -> (keys: Vec<String>)
    ensures
        distinct(keys@),
        forall|key: Seq<char>| #[trigger] sessions(*map).contains_key(key) <==> lists(keys@, key),
{
    map.iter().map(|entry| entry.key().clone()).collect()
}

/// What a map from channel keys to message references holds.
pub uninterp spec fn references(map: DashMap<String, String>) -> Map<Seq<char>, Seq<char>>;

/// An empty map of message references.
///
/// Trusted: `DashMap::new` makes a map without entries.
#[verifier::external_body]
pub(crate) fn references_new() -> (map: DashMap<String, String>)
    ensures
        references(map) == (Map::<Seq<char>, Seq<char>>::empty()),
{
    DashMap::new()
}

/// A copy of the reference stored under `key`, if there is one.
///
/// Trusted: `DashMap::get` finds the entry whose key equals `key`, and only
/// that one.
#[verifier::external_body]
pub(crate) fn references_get(map: &DashMap<String, String>, key: &str) -> (found: Option<String>)
    ensures
        found is Some == references(*map).contains_key(key@),
        found is Some ==> found->0@ == references(*map)[key@],
{
    map.get(key).map(|entry| entry.value().clone())
}

/// Stores `reference` under `key`, replacing what was there.
///
/// Trusted: `DashMap::insert` sets the entry of `key` and leaves every other
/// entry as it was.
#[verifier::external_body]
pub(crate) fn references_insert(map: &mut DashMap<String, String>, key: String, reference: String)
    ensures
        references(*final(map)) == references(*old(map)).insert(key@, reference@),
{
    map.insert(key, reference);
}

/// Drops the reference stored under `key`, if there is one.
///
/// Trusted: `DashMap::remove` removes the entry of `key` and leaves every
/// other entry as it was.
#[verifier::external_body]
pub(crate) fn references_remove(map: &mut DashMap<String, String>, key: &str)
    ensures
        references(*final(map)) == references(*old(map)).remove(key@),
{
    map.remove(key);
}

/// What a map from channel identifiers to what is known of them holds.
pub uninterp spec fn channel_entries(map: DashMap<String, ChannelInfo>) -> Map<
    Seq<char>,
    ChannelInfo,
>;

/// An empty map of channels.
///
/// Trusted: `DashMap::new` makes a map without entries.
#[verifier::external_body]
pub(crate) fn channels_new() -> (map: DashMap<String, ChannelInfo>)
    ensures
        channel_entries(map) == (Map::<Seq<char>, ChannelInfo>::empty()),
{
    DashMap::new()
}

/// A copy of what is stored under `key`, if anything is.
///
/// Trusted: `DashMap::get` finds the entry whose key equals `key`, and only
/// that one; the copy is made by `ChannelInfo::clone`.
#[verifier::external_body]
pub(crate) fn channels_get(map: &DashMap<String, ChannelInfo>, key: &str) -> (found: Option<
    ChannelInfo,
>)
    ensures
        found is Some == channel_entries(*map).contains_key(key@),
        found is Some ==> found->0 == channel_entries(*map)[key@],
{
    map.get(key).map(|entry| entry.value().clone())
}

/// Stores `info` under `key`, replacing what was there.
///
/// Trusted: `DashMap::insert` sets the entry of `key` and leaves every other
/// entry as it was.
#[verifier::external_body]
pub(crate) fn channels_insert(map: &mut DashMap<String, ChannelInfo>, key: String, info: ChannelInfo)
    ensures
        channel_entries(*final(map)) == channel_entries(*old(map)).insert(key@, info),
{
    map.insert(key, info);
}

/// Drops every entry that is stale at `now`.
///
/// Trusted: `DashMap::retain` keeps exactly the entries for which the
/// closure answers `true`, unchanged.
#[verifier::external_body]
pub(crate) fn channels_retain_fresh(map: &mut DashMap<String, ChannelInfo>, now: u64, ttl: u64)
    ensures
        forall|key: Seq<char>| #[trigger]
            channel_entries(*final(map)).contains_key(key) <==> channel_entries(
                *old(map),
            ).contains_key(key) && !stale(channel_entries(*old(map))[key].fetched_at, now, ttl),
        forall|key: Seq<char>| #[trigger]
            channel_entries(*final(map)).contains_key(key) ==> channel_entries(*final(map))[key]
                == channel_entries(*old(map))[key],
{
    map.retain(|_, info| info.is_fresh_at(now, ttl));
}

/// How many entries the map holds.
///
/// Trusted: `DashMap::len` counts the entries.
#[verifier::external_body]
pub(crate) fn channels_len(map: &DashMap<String, ChannelInfo>) -> (count: usize)
    ensures
        count == channel_entries(*map).len(),
{
    map.len()
}

/// What a map from user identifiers to what is known of them holds.
pub uninterp spec fn user_entries(map: DashMap<String, UserInfo>) -> Map<Seq<char>, UserInfo>;

/// An empty map of users.
///
/// Trusted: `DashMap::new` makes a map without entries.
#[verifier::external_body]
pub(crate) fn users_new() -> (map: DashMap<String, UserInfo>)
    ensures
        user_entries(map) == (Map::<Seq<char>, UserInfo>::empty()),
{
    DashMap::new()
}

/// A copy of what is stored under `key`, if anything is.
///
/// Trusted: `DashMap::get` finds the entry whose key equals `key`, and only
/// that one; the copy is made by `UserInfo::clone`.
#[verifier::external_body]
pub(crate) fn users_get(map: &DashMap<String, UserInfo>, key: &str) -> (found: Option<UserInfo>)
    ensures
        found is Some == user_entries(*map).contains_key(key@),
        found is Some ==> found->0 == user_entries(*map)[key@],
{
    map.get(key).map(|entry| entry.value().clone())
}

/// Stores `info` under `key`, replacing what was there.
///
/// Trusted: `DashMap::insert` sets the entry of `key` and leaves every other
/// entry as it was.
#[verifier::external_body]
pub(crate) fn users_insert(map: &mut DashMap<String, UserInfo>, key: String, info: UserInfo)
    ensures
        user_entries(*final(map)) == user_entries(*old(map)).insert(key@, info),
{
    map.insert(key, info);
}

/// Drops every entry that is stale at `now`.
///
/// Trusted: `DashMap::retain` keeps exactly the entries for which the
/// closure answers `true`, unchanged.
#[verifier::external_body]
pub(crate) fn users_retain_fresh(map: &mut DashMap<String, UserInfo>, now: u64, ttl: u64)
    ensures
        forall|key: Seq<char>| #[trigger]
            user_entries(*final(map)).contains_key(key) <==> user_entries(*old(map)).contains_key(
                key,
            ) && !stale(user_entries(*old(map))[key].fetched_at, now, ttl),
        forall|key: Seq<char>| #[trigger]
            user_entries(*final(map)).contains_key(key) ==> user_entries(*final(map))[key]
                == user_entries(*old(map))[key],
{
    map.retain(|_, info| info.is_fresh_at(now, ttl));
}

/// How many entries the map holds.
///
/// Trusted: `DashMap::len` counts the entries.
#[verifier::external_body]
pub(crate) fn users_len(map: &DashMap<String, UserInfo>) -> (count: usize)
    ensures
        count == user_entries(*map).len(),
{
    map.len()
}

} // verus!
