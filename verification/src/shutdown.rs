//! The end of the process: who is told, which sessions are released, and
//! how the telling went.

use vstd::prelude::*;
use vstd::string::*;
use crate::slack::client::{send_shutdown_notice, Notice};
use crate::slack::types::ChannelId;

verus! {

/// How long one notice may take, in seconds.
pub const NOTICE_TIMEOUT_SECS: u64 = 3;

/// How long all notices together may take, in seconds.
pub const SHUTDOWN_TIMEOUT_SECS: u64 = 10;

/// What became of one notice.
#[derive(Debug, Clone, Copy, PartialEq, Eq, Structural)]
pub enum NoticeOutcome {
    Sent,
    Failed,
    TimedOut,
}

/// How the notices went.
#[derive(Debug, Clone, Copy, PartialEq, Eq, Structural)]
pub struct ShutdownTally {
    pub succeeded: usize,
    pub failed: usize,
    pub total: usize,
    /// The share of notices sent, in percent, rounded down.
    pub success_rate: usize,
}

/// How many of the outcomes are `Sent`.
pub open spec fn count_sent(outcomes: Seq<NoticeOutcome>) -> nat
    decreases outcomes.len(),
{
    if outcomes.len() == 0 {
        0
    } else {
        count_sent(outcomes.drop_last()) + if outcomes.last() == NoticeOutcome::Sent {
            1nat
        } else {
            0nat
        }
    }
}

/// The tally of `total` notices whose outcomes are known, or `None` where
/// the time for all of them ran out: then every one counts as failed.
pub open spec fn tally_of(total: nat, outcomes: Option<Seq<NoticeOutcome>>) -> ShutdownTally {
    match outcomes {
        Some(known) => ShutdownTally {
            succeeded: count_sent(known) as usize,
            failed: (known.len() - count_sent(known)) as usize,
            total: total as usize,
            success_rate: if total > 0 {
                (count_sent(known) * 100 / total) as usize
            } else {
                0
            },
        },
        None => ShutdownTally {
            succeeded: 0,
            failed: total as usize,
            total: total as usize,
            success_rate: 0,
        },
    }
}

/// No more outcomes are `Sent` than there are outcomes.
pub proof fn lemma_count_sent_bound(outcomes: Seq<NoticeOutcome>)
    ensures
        count_sent(outcomes) <= outcomes.len(),
    decreases outcomes.len(),
{
    if outcomes.len() > 0 {
        lemma_count_sent_bound(outcomes.drop_last());
    }
}

/// Counts how the notices went.
pub fn send_shutdown_notifications(total: usize, outcomes: &Option<Vec<NoticeOutcome>>) -> (res:
    ShutdownTally)
    requires
        outcomes matches Some(known) ==> known@.len() == total,
    ensures
        res == tally_of(
            total as nat,
            match outcomes {
                Some(known) => Some(known@),
                None => None,
            },
        ),
{
    match outcomes {
        Some(known) => {
            let mut succeeded: usize = 0;
            let mut i: usize = 0;
            while i < known.len()
                invariant
                    i <= known.len(),
                    succeeded <= i,
                    succeeded == count_sent(known@.take(i as int)),
                decreases known.len() - i,
            {
                proof {
                    assert(known@.take(i + 1).drop_last() =~= known@.take(i as int));
                }
                if known[i] == NoticeOutcome::Sent {
                    succeeded += 1;
                }
                i += 1;
            }
            proof {
                assert(known@.take(known.len() as int) =~= known@);
            }
            let success_rate: usize = if total > 0 {
                ((succeeded as u128) * 100 / (total as u128)) as usize
            } else {
                0
            };
            ShutdownTally { succeeded, failed: known.len() - succeeded, total, success_rate }
        },
        None => ShutdownTally { succeeded: 0, failed: total, total, success_rate: 0 },
    }
}

/// Whether `notice` tells a channel that its session, being `entry`, has
/// ended.
pub open spec fn notice_for(notice: Notice, entry: (ChannelId, String)) -> bool {
    notice.channel_id@ == entry.0@ && notice.session_id@ == entry.1@ && notice.text@
        == "🔴 *Agent Gone*\n\nSession ID: `"@ + entry.1@ + "` ended"@
}

/// The notices that tell the given sessions that they have ended, one per
/// session, in the same order.
pub fn shutdown_notices(sessions: &Vec<(ChannelId, String)>) -> (res: Vec<Notice>)
    ensures
        res@.len() == sessions@.len(),
        forall|i: int| 0 <= i < res@.len() ==> notice_for(#[trigger] res@[i], sessions@[i]),
{
    let mut res: Vec<Notice> = Vec::new();
    let mut i: usize = 0;
    while i < sessions.len()
        invariant
            i <= sessions.len(),
            res@.len() == i,
            forall|j: int| 0 <= j < i ==> notice_for(#[trigger] res@[j], sessions@[j]),
        decreases sessions.len() - i,
    {
        res.push(
            Notice {
                channel_id: sessions[i].0.clone(),
                session_id: sessions[i].1.clone(),
                text: send_shutdown_notice(sessions[i].1.as_str()),
            },
        );
        i += 1;
    }
    res
}

} // verus!
