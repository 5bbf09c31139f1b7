//! A cache of what is known of channels and users, filled on demand.
//!
//! The cache never fetches anything itself. A lookup that misses tells the
//! caller to fetch; the caller reports what the fetch brought.

use vstd::prelude::*;
use vstd::string::*;
use dashmap::DashMap;
use crate::clock::unix_millis;
use crate::error::SlackCoderError;
use crate::metadata::types::{
    best_name_of, channel_display, stale, ChannelInfo, LogContext, UserInfo,
};
use crate::store::{
    channel_entries, channels_get, channels_insert, channels_len, channels_new,
    channels_retain_fresh, user_entries, users_get, users_insert, users_len, users_new,
    users_retain_fresh,
};

verus! {

/// How long an entry is taken for good where nothing else is said: one
/// hour.
pub const DEFAULT_TTL_MILLIS: u64 = 3_600_000;

/// How often the cache was asked, and with what luck.
#[derive(Debug, Clone, Copy, PartialEq, Eq, Structural)]
pub struct CacheStats {
    pub channel_hits: u64,
    pub channel_misses: u64,
    pub user_hits: u64,
    pub user_misses: u64,
    pub api_calls: u64,
    pub api_errors: u64,
}

impl Default for CacheStats {
    fn default() -> (res: CacheStats)
        ensures
            res == no_stats(),
    {
        CacheStats {
            channel_hits: 0,
            channel_misses: 0,
            user_hits: 0,
            user_misses: 0,
            api_calls: 0,
            api_errors: 0,
        }
    }
}

/// The statistics of a cache that was never asked.
pub open spec fn no_stats() -> CacheStats {
    CacheStats {
        channel_hits: 0,
        channel_misses: 0,
        user_hits: 0,
        user_misses: 0,
        api_calls: 0,
        api_errors: 0,
    }
}

/// A counter after one more count; it stays at the largest `u64`.
pub open spec fn bumped(n: u64) -> u64 {
    if n == u64::MAX {
        n
    } else {
        (n + 1) as u64
    }
}

/// The share of hits among hits and misses, in percent and rounded down;
/// zero where there were neither.
pub open spec fn hit_rate_of(hits: u64, misses: u64) -> nat {
    if hits + misses > 0 {
        (hits * 100 / (hits + misses)) as nat
    } else {
        0
    }
}

/// The share of hits among hits and misses, in percent.
pub fn hit_rate(hits: u64, misses: u64) -> (res: u32)
    ensures
        res == hit_rate_of(hits, misses),
{
    if hits > 0 || misses > 0 {
        let total: u128 = hits as u128 + misses as u128;
        let rate: u128 = (hits as u128) * 100 / total;
        assert(rate <= 100) by (nonlinear_arith)
            requires
                rate == (hits as int * 100) / (total as int),
                0 <= hits <= total,
                total > 0,
        ;
        rate as u32
    } else {
        0
    }
}

/// The entries of `cache` that are not stale at `now`.
pub open spec fn fresh_channels(cache: Map<Seq<char>, ChannelInfo>, now: u64, ttl: u64) -> Map<
    Seq<char>,
    ChannelInfo,
> {
    Map::new(
        |key: Seq<char>| cache.contains_key(key) && !stale(cache[key].fetched_at, now, ttl),
        |key: Seq<char>| cache[key],
    )
}

/// The entries of `cache` that are not stale at `now`.
pub open spec fn fresh_users(cache: Map<Seq<char>, UserInfo>, now: u64, ttl: u64) -> Map<
    Seq<char>,
    UserInfo,
> {
    Map::new(
        |key: Seq<char>| cache.contains_key(key) && !stale(cache[key].fetched_at, now, ttl),
        |key: Seq<char>| cache[key],
    )
}

/// What is known of channels and users.
pub struct MetadataCache {
    channels: DashMap<String, ChannelInfo>,
    users: DashMap<String, UserInfo>,
    ttl: u64,
    stats: CacheStats,
}

impl MetadataCache {
    /// The channels in the cache.
    pub closed spec fn channels(&self) -> Map<Seq<char>, ChannelInfo> {
        channel_entries(self.channels)
    }

    /// The users in the cache.
    pub closed spec fn users(&self) -> Map<Seq<char>, UserInfo> {
        user_entries(self.users)
    }

    /// How long an entry is taken for good, in milliseconds.
    pub closed spec fn ttl(&self) -> u64 {
        self.ttl
    }

    /// The statistics.
    pub closed spec fn stats(&self) -> CacheStats {
        self.stats
    }

    /// An empty cache whose entries are good for an hour.
    pub fn new() -> (res: MetadataCache)
        ensures
            res.channels() == Map::<Seq<char>, ChannelInfo>::empty(),
            res.users() == Map::<Seq<char>, UserInfo>::empty(),
            res.ttl() == DEFAULT_TTL_MILLIS,
            res.stats() == no_stats(),
    {
        Self::with_ttl(DEFAULT_TTL_MILLIS)
    }

    /// An empty cache whose entries are good for `ttl` milliseconds.
    pub fn with_ttl(ttl: u64) -> (res: MetadataCache)
        ensures
            res.channels() == Map::<Seq<char>, ChannelInfo>::empty(),
            res.users() == Map::<Seq<char>, UserInfo>::empty(),
            res.ttl() == ttl,
            res.stats() == no_stats(),
    {
        MetadataCache {
            channels: channels_new(),
            users: users_new(),
            ttl,
            stats: CacheStats::default(),
        }
    }

    /// Looks a channel up at `now`. An entry that is not stale is a hit
    /// and is returned; anything else is a miss, and the caller fetches.
    pub fn get_channel_info_at(&mut self, channel_id: &str, now: u64) -> (res: Option<ChannelInfo>)
        ensures
            final(self).channels() == old(self).channels(),
            final(self).users() == old(self).users(),
            final(self).ttl() == old(self).ttl(),
            if old(self).channels().contains_key(channel_id@) && !stale(
                old(self).channels()[channel_id@].fetched_at,
                now,
                old(self).ttl(),
            ) {
                res == Some(old(self).channels()[channel_id@]) && final(self).stats() == (
                CacheStats {
                    channel_hits: bumped(old(self).stats().channel_hits),
                    ..old(self).stats()
                })
            } else {
                res is None && final(self).stats() == (CacheStats {
                    channel_misses: bumped(old(self).stats().channel_misses),
                    ..old(self).stats()
                })
            },
    {
        if let Some(info) = channels_get(&self.channels, channel_id) {
            if !info.is_stale_at(now, self.ttl) {
                self.stats.channel_hits = self.stats.channel_hits.saturating_add(1);
                return Some(info);
            }
        }
        self.stats.channel_misses = self.stats.channel_misses.saturating_add(1);
        None
    }

    /// Takes in what fetching a channel brought: a success is stored and
    /// returned, a failure is counted and yields nothing.
    pub fn fetch_channel_info(
        &mut self,
        channel_id: &str,
        outcome: Result<ChannelInfo, SlackCoderError>,
    ) -> (res: Option<ChannelInfo>)
        ensures
            final(self).users() == old(self).users(),
            final(self).ttl() == old(self).ttl(),
            match outcome {
                Ok(info) => res == Some(info) && final(self).channels() == old(self).channels().insert(channel_id@, info) && final(self).stats() == (CacheStats {
                    api_calls: bumped(old(self).stats().api_calls),
                    ..old(self).stats()
                }),
                Err(_) => res is None && final(self).channels() == old(self).channels() && final(self).stats() == (CacheStats {
                    api_calls: bumped(old(self).stats().api_calls),
                    api_errors: bumped(old(self).stats().api_errors),
                    ..old(self).stats()
                }),
            },
    {
        self.stats.api_calls = self.stats.api_calls.saturating_add(1);
        match outcome {
            Ok(info) => {
                channels_insert(&mut self.channels, String::from_str(channel_id), info.clone());
                Some(info)
            },
            Err(_) => {
                self.stats.api_errors = self.stats.api_errors.saturating_add(1);
                None
            },
        }
    }

    /// Looks a user up at `now`. An entry that is not stale is a hit and
    /// is returned; anything else is a miss, and the caller fetches.
    pub fn get_user_info_at(&mut self, user_id: &str, now: u64) -> (res: Option<UserInfo>)
        ensures
            final(self).channels() == old(self).channels(),
            final(self).users() == old(self).users(),
            final(self).ttl() == old(self).ttl(),
            if old(self).users().contains_key(user_id@) && !stale(
                old(self).users()[user_id@].fetched_at,
                now,
                old(self).ttl(),
            ) {
                res == Some(old(self).users()[user_id@]) && final(self).stats() == (CacheStats {
                    user_hits: bumped(old(self).stats().user_hits),
                    ..old(self).stats()
                })
            } else {
                res is None && final(self).stats() == (CacheStats {
                    user_misses: bumped(old(self).stats().user_misses),
                    ..old(self).stats()
                })
            },
    {
        if let Some(info) = users_get(&self.users, user_id) {
            if !info.is_stale_at(now, self.ttl) {
                self.stats.user_hits = self.stats.user_hits.saturating_add(1);
                return Some(info);
            }
        }
        self.stats.user_misses = self.stats.user_misses.saturating_add(1);
        None
    }

    /// Takes in what fetching a user brought: a success is stored and
    /// returned, a failure is counted and yields nothing.
    pub fn fetch_user_info(&mut self, user_id: &str, outcome: Result<UserInfo, SlackCoderError>) -> (res:
        Option<UserInfo>)
        ensures
            final(self).channels() == old(self).channels(),
            final(self).ttl() == old(self).ttl(),
            match outcome {
                Ok(info) => res == Some(info) && final(self).users() == old(self).users().insert(
                    user_id@,
                    info,
                ) && final(self).stats() == (CacheStats {
                    api_calls: bumped(old(self).stats().api_calls),
                    ..old(self).stats()
                }),
                Err(_) => res is None && final(self).users() == old(self).users() && final(self).stats() == (CacheStats {
                    api_calls: bumped(old(self).stats().api_calls),
                    api_errors: bumped(old(self).stats().api_errors),
                    ..old(self).stats()
                }),
            },
    {
        self.stats.api_calls = self.stats.api_calls.saturating_add(1);
        match outcome {
            Ok(info) => {
                users_insert(&mut self.users, String::from_str(user_id), info.clone());
                Some(info)
            },
            Err(_) => {
                self.stats.api_errors = self.stats.api_errors.saturating_add(1);
                None
            },
        }
    }

    /// The names for a log line, from what was found of the channel and
    /// of the user.
    pub fn log_context(
        &self,
        channel_id: &str,
        channel: Option<&ChannelInfo>,
        user_id: &str,
        user: Option<&UserInfo>,
    ) -> (res: LogContext)
        ensures
            res.channel_id@ == channel_id@,
            res.user_id@ == user_id@,
            match channel {
                Some(info) => res.channel_name@ == info.name@ && res.channel_display@
                    == channel_display(info.name@, info.channel_type),
                None => res.channel_name@ == channel_id@ && res.channel_display@ == channel_id@,
            },
            match user {
                Some(info) => res.user_name@ == info.name@ && res.user_display@ == "@"@
                    + best_name_of(*info),
                None => res.user_name@ == user_id@ && res.user_display@ == "@"@ + user_id@,
            },
    {
        LogContext::from_metadata(
            String::from_str(channel_id),
            channel,
            String::from_str(user_id),
            user,
        )
    }

    /// The statistics.
    pub fn get_stats(&self) -> (res: CacheStats)
        ensures
            res == self.stats(),
    {
        self.stats
    }

    /// How many channels and how many users the cache holds.
    pub fn cache_sizes(&self) -> (res: (usize, usize))
        ensures
            res.0 == self.channels().len(),
            res.1 == self.users().len(),
    {
        (channels_len(&self.channels), users_len(&self.users))
    }

    /// Drops every entry that is stale at `now`.
    pub fn cleanup_stale_at(&mut self, now: u64)
        ensures
            final(self).channels() == fresh_channels(old(self).channels(), now, old(self).ttl()),
            final(self).users() == fresh_users(old(self).users(), now, old(self).ttl()),
            final(self).ttl() == old(self).ttl(),
            final(self).stats() == old(self).stats(),
    {
        let ttl = self.ttl;
        channels_retain_fresh(&mut self.channels, now, ttl);
        users_retain_fresh(&mut self.users, now, ttl);
        assert(self.channels() =~= fresh_channels(old(self).channels(), now, old(self).ttl()));
        assert(self.users() =~= fresh_users(old(self).users(), now, old(self).ttl()));
    }

    /// `cleanup_stale_at` at the present reading of the clock.
    pub fn cleanup_stale(&mut self)
        ensures
            exists|now: u64|
                final(self).channels() == #[trigger] fresh_channels(
                    old(self).channels(),
                    now,
                    old(self).ttl(),
                ) && final(self).users() == fresh_users(old(self).users(), now, old(self).ttl()),
            final(self).ttl() == old(self).ttl(),
            final(self).stats() == old(self).stats(),
    {
        let now = unix_millis();
        self.cleanup_stale_at(now);
    }

    /// The two hit rates, of channels and of users, in percent.
    pub fn log_stats(&self) -> (res: (u32, u32))
        ensures
            res.0 == hit_rate_of(self.stats().channel_hits, self.stats().channel_misses),
            res.1 == hit_rate_of(self.stats().user_hits, self.stats().user_misses),
    {
        (
            hit_rate(self.stats.channel_hits, self.stats.channel_misses),
            hit_rate(self.stats.user_hits, self.stats.user_misses),
        )
    }
}

} // verus!
