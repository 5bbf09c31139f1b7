//! One channel's session: its identifier, its plan, its activity clock and
//! the lock that admits one request at a time.
//!
//! The agent client itself lives with the caller. A `RepoAgent` decides;
//! the caller talks to the client and reports back what happened.

use vstd::prelude::*;
use vstd::string::*;
use crate::agent::types::{merge, Plan, TaskView};
use crate::clock::unix_millis;
use crate::error::SlackCoderError;
use crate::session::{generate_session_id, is_session_tag, session_id_text};
use crate::slack::metrics::ResultMessage;
use crate::slack::types::ChannelId;

verus! {

/// How long a request waits for the lock before it is answered `AgentBusy`.
pub const QUERY_LOCK_TIMEOUT_MILLIS: u64 = 3_000;

/// The session of one channel.
#[derive(Debug)]
pub struct RepoAgent {
    channel_id: ChannelId,
    current_session_id: String,
    last_activity: u64,
    plan: Plan,
    connected: bool,
    in_flight: bool,
}

/// What a `RepoAgent` holds, as mathematical values.
pub struct RepoAgentView {
    pub channel_id: Seq<char>,
    pub session_id: Seq<char>,
    /// Clock reading of the last successful connect or submission.
    pub last_activity: u64,
    pub plan: Seq<TaskView>,
    pub connected: bool,
    /// Whether a request holds the lock.
    pub in_flight: bool,
}

impl View for RepoAgent {
    type V = RepoAgentView;

    closed spec fn view(&self) -> RepoAgentView {
        RepoAgentView {
            channel_id: self.channel_id@,
            session_id: self.current_session_id@,
            last_activity: self.last_activity,
            plan: self.plan@,
            connected: self.connected,
            in_flight: self.in_flight,
        }
    }
}

impl Clone for RepoAgent {
    fn clone(&self) -> (res: RepoAgent)
        ensures
            res@ == self@,
    {
        RepoAgent {
            channel_id: self.channel_id.clone(),
            current_session_id: self.current_session_id.clone(),
            last_activity: self.last_activity,
            plan: self.plan.clone(),
            connected: self.connected,
            in_flight: self.in_flight,
        }
    }
}

/// A request that was admitted: what the caller hands to the agent client.
#[derive(Debug)]
pub struct Submission {
    pub session_id: String,
    pub text: String,
}

/// One event of the stream in which the agent answers a request.
#[derive(Debug)]
pub enum AgentEvent {
    /// Anything that does not end the response.
    Progress,
    /// The end of the response.
    Result(ResultMessage),
    /// The stream broke with this explanation.
    Failure(String),
}

/// The position of the first event at or after `i` that ends the
/// response, by result or by failure; the number of events where none
/// does.
pub open spec fn first_end(events: Seq<AgentEvent>, i: int) -> int
    decreases events.len() - i,
{
    if 0 <= i < events.len() && events[i] is Progress {
        first_end(events, i + 1)
    } else {
        i
    }
}

/// Whether `outcome` is what consuming the events yields: the first
/// result or failure decides, and what follows it is never read.
pub open spec fn response_of(
    events: Seq<AgentEvent>,
    outcome: Result<Option<ResultMessage>, SlackCoderError>,
) -> bool {
    let end = first_end(events, 0);
    if end >= events.len() {
        outcome matches Ok(None)
    } else {
        match events[end] {
            AgentEvent::Result(message) => outcome matches Ok(Some(m)) && m == message,
            AgentEvent::Failure(why) => outcome matches Err(SlackCoderError::ClaudeAgent(w)) && w == why,
            AgentEvent::Progress => false,
        }
    }
}

/// Whether a session last active at `last_activity` has been idle for more
/// than `timeout` at the time `now`.
pub open spec fn expired(last_activity: u64, now: u64, timeout: u64) -> bool {
    now - last_activity > timeout
}

/// The session as it stands right after its start: no plan, no request,
/// not yet connected.
pub open spec fn fresh_session(channel: Seq<char>, session_id: Seq<char>, now: u64)
    -> RepoAgentView {
    RepoAgentView {
        channel_id: channel,
        session_id,
        last_activity: now,
        plan: Seq::empty(),
        connected: false,
        in_flight: false,
    }
}

impl RepoAgent {
    /// The session of `channel_id` with the given identifier, created at
    /// `now`.
    pub fn with_session(channel_id: ChannelId, session_id: String, now: u64) -> (res: RepoAgent)
        ensures
            res@ == fresh_session(channel_id@, session_id@, now),
    {
        RepoAgent {
            channel_id,
            current_session_id: session_id,
            last_activity: now,
            plan: Plan::new(),
            connected: false,
            in_flight: false,
        }
    }

    /// A session of `channel_id` under a newly generated identifier.
    pub fn new(channel_id: ChannelId) -> (res: RepoAgent)
        ensures
            exists|timestamp: u64, tag: Seq<char>, now: u64|
                is_session_tag(tag) && res@ == #[trigger] fresh_session(
                    channel_id@,
                    session_id_text(channel_id@, timestamp, tag),
                    now,
                ),
    {
        let session_id = generate_session_id(&channel_id);
        let now = unix_millis();
        proof {
            let (timestamp, tag) = choose|timestamp: u64, tag: Seq<char>|
                is_session_tag(tag) && session_id@ == #[trigger] session_id_text(
                    channel_id@,
                    timestamp,
                    tag,
                );
            assert(fresh_session(channel_id@, session_id@, now) == fresh_session(
                channel_id@,
                session_id_text(channel_id@, timestamp, tag),
                now,
            ));
        }
        RepoAgent::with_session(channel_id, session_id, now)
    }

    /// Records the outcome of connecting the agent client at `now`. A
    /// success marks the session connected and active; a failure leaves it
    /// as it was and is passed on as an `ClaudeAgent` error.
    pub fn connect_at(&mut self, outcome: Result<(), String>, now: u64) -> (res: Result<
        (),
        SlackCoderError,
    >)
        ensures
            match outcome {
                Ok(_) => res is Ok && final(self)@ == (RepoAgentView {
                    connected: true,
                    last_activity: now,
                    ..old(self)@
                }),
                Err(why) => res == Err::<(), SlackCoderError>(SlackCoderError::ClaudeAgent(why))
                    && final(self)@ == old(self)@,
            },
    {
        match outcome {
            Ok(_) => {
                self.connected = true;
                self.last_activity = now;
                Ok(())
            },
            Err(why) => Err(SlackCoderError::ClaudeAgent(why)),
        }
    }

    /// `connect_at` at the present reading of the clock.
    pub fn connect(&mut self, outcome: Result<(), String>) -> (res: Result<(), SlackCoderError>)
        ensures
            match outcome {
                Ok(_) => res is Ok && final(self)@ == (RepoAgentView {
                    connected: true,
                    last_activity: final(self)@.last_activity,
                    ..old(self)@
                }),
                Err(why) => res == Err::<(), SlackCoderError>(SlackCoderError::ClaudeAgent(why))
                    && final(self)@ == old(self)@,
            },
    {
        let now = unix_millis();
        self.connect_at(outcome, now)
    }

    /// Asks for the lock on behalf of a request. While another request
    /// holds it the answer is `AgentBusy` and nothing changes; otherwise
    /// the request takes the lock, and the answer says what to hand to the
    /// agent client: the text, together with the current session id.
    pub fn query(&mut self, message: &str) -> (res: Result<Submission, SlackCoderError>)
        ensures
            old(self)@.in_flight ==> res is Err && res->Err_0 is AgentBusy && final(self)@ == old(
                self,
            )@,
            !old(self)@.in_flight ==> res is Ok && res->Ok_0.text@ == message@
                && res->Ok_0.session_id@ == old(self)@.session_id && final(self)@ == (
                RepoAgentView { in_flight: true, ..old(self)@ }),
    {
        if self.in_flight {
            Err(
                SlackCoderError::AgentBusy(
                    String::from_str("the agent is processing another request"),
                ),
            )
        } else {
            self.in_flight = true;
            Ok(
                Submission {
                    session_id: self.current_session_id.clone(),
                    text: String::from_str(message),
                },
            )
        }
    }

    /// Records what became of handing an admitted request to the agent
    /// client. A success marks the session active at `now` and keeps the
    /// lock for the response; a failure gives the lock back and is passed
    /// on as an `ClaudeAgent` error.
    pub fn query_submitted_at(&mut self, outcome: Result<(), String>, now: u64) -> (res: Result<
        (),
        SlackCoderError,
    >)
        ensures
            match outcome {
                Ok(_) => res is Ok && final(self)@ == (RepoAgentView {
                    last_activity: now,
                    ..old(self)@
                }),
                Err(why) => res == Err::<(), SlackCoderError>(SlackCoderError::ClaudeAgent(why))
                    && final(self)@ == (RepoAgentView { in_flight: false, ..old(self)@ }),
            },
    {
        match outcome {
            Ok(_) => {
                self.last_activity = now;
                Ok(())
            },
            Err(why) => {
                self.in_flight = false;
                Err(SlackCoderError::ClaudeAgent(why))
            },
        }
    }

    /// Consumes the response to the request that holds the lock, and
    /// gives the lock back: whether it ends with a result, breaks, or runs
    /// out, the session is ready for the next request.
    pub fn receive_response(&mut self, events: &Vec<AgentEvent>) -> (res: Result<
        Option<ResultMessage>,
        SlackCoderError,
    >)
        ensures
            response_of(events@, res),
            final(self)@ == (RepoAgentView { in_flight: false, ..old(self)@ }),
    {
        self.in_flight = false;
        let mut i: usize = 0;
        while i < events.len()
            invariant
                i <= events.len(),
                self@ == (RepoAgentView { in_flight: false, ..old(self)@ }),
                first_end(events@, i as int) == first_end(events@, 0),
            decreases events.len() - i,
        {
            match &events[i] {
                AgentEvent::Progress => {},
                AgentEvent::Result(message) => {
                    return Ok(Some(message.clone()));
                },
                AgentEvent::Failure(why) => {
                    return Err(SlackCoderError::ClaudeAgent(why.clone()));
                },
            }
            i += 1;
        }
        Ok(None)
    }

    /// Gives the lock back once the response has been consumed, or has
    /// failed: the session is ready for the next request.
    pub fn finish_query(&mut self)
        ensures
            final(self)@ == (RepoAgentView { in_flight: false, ..old(self)@ }),
    {
        self.in_flight = false;
    }

    /// A copy of the plan as it stands.
    pub fn get_plan(&self) -> (res: Plan)
        ensures
            res@ == self@.plan,
    {
        self.plan.clone()
    }

    /// Merges a snapshot of the agent's tasks into the plan at `now` and
    /// returns the merged plan, for display.
    pub fn update_plan_at(&mut self, snapshot: &Plan, now: u64) -> (res: Plan)
        ensures
            final(self)@ == (RepoAgentView {
                plan: merge(old(self)@.plan, snapshot@, now),
                ..old(self)@
            }),
            res@ == final(self)@.plan,
    {
        self.plan.update_at(snapshot, now);
        self.plan.clone()
    }

    /// Marks the session active at `now`.
    pub fn update_activity(&mut self, now: u64)
        ensures
            final(self)@ == (RepoAgentView { last_activity: now, ..old(self)@ }),
    {
        self.last_activity = now;
    }

    /// Whether the session has been idle for more than `timeout`
    /// milliseconds at the time `now`.
    pub fn is_expired_at(&self, now: u64, timeout: u64) -> (b: bool)
        ensures
            b == expired(self@.last_activity, now, timeout),
    {
        now > self.last_activity && now - self.last_activity > timeout
    }

    /// `is_expired_at` at the present reading of the clock.
    pub fn is_expired(&self, timeout: u64) -> (b: bool)
        ensures
            exists|now: u64| b == expired(self@.last_activity, now, timeout),
    {
        let now = unix_millis();
        self.is_expired_at(now, timeout)
    }

    /// The channel this session belongs to.
    pub fn channel_id(&self) -> (res: &ChannelId)
        ensures
            res@ == self@.channel_id,
    {
        &self.channel_id
    }

    /// Whether a request holds the lock.
    pub fn is_busy(&self) -> (b: bool)
        ensures
            b == self@.in_flight,
    {
        self.in_flight
    }

    /// Whether the agent client has been connected.
    pub fn is_connected(&self) -> (b: bool)
        ensures
            b == self@.connected,
    {
        self.connected
    }

    /// Starts over under `session_id` at `now`: the plan is emptied and the
    /// session marked active. The lock and the connection are untouched.
    pub fn start_session_with(&mut self, session_id: String, now: u64)
        ensures
            final(self)@ == (RepoAgentView {
                session_id: session_id@,
                plan: Seq::empty(),
                last_activity: now,
                ..old(self)@
            }),
    {
        self.current_session_id = session_id;
        self.plan = Plan::new();
        self.last_activity = now;
    }

    /// Starts over under a newly generated identifier and returns it.
    pub fn start_new_session(&mut self) -> (res: Result<String, SlackCoderError>)
        ensures
            res is Ok,
            exists|timestamp: u64, tag: Seq<char>|
                is_session_tag(tag) && res->Ok_0@ == #[trigger] session_id_text(
                    old(self)@.channel_id,
                    timestamp,
                    tag,
                ),
            final(self)@ == (RepoAgentView {
                session_id: res->Ok_0@,
                plan: Seq::empty(),
                last_activity: final(self)@.last_activity,
                ..old(self)@
            }),
    {
        let session_id = generate_session_id(&self.channel_id);
        let now = unix_millis();
        self.start_session_with(session_id.clone(), now);
        Ok(session_id)
    }

    /// The identifier of the current session.
    pub fn get_session_id(&self) -> (res: String)
        ensures
            res@ == self@.session_id,
    {
        self.current_session_id.clone()
    }

    /// Ends the session, given the outcome of disconnecting the agent
    /// client: a failure is passed on as an `ClaudeAgent` error.
    pub fn disconnect(self, outcome: Result<(), String>) -> (res: Result<(), SlackCoderError>)
        ensures
            match outcome {
                Ok(_) => res is Ok,
                Err(why) => res == Err::<(), SlackCoderError>(SlackCoderError::ClaudeAgent(why)),
            },
    {
        match outcome {
            Ok(_) => Ok(()),
            Err(why) => Err(SlackCoderError::ClaudeAgent(why)),
        }
    }
}

/// What can happen to the lock of a session.
pub enum LockStep {
    /// A request asks for the lock, as `query` does.
    Query,
    /// The lock is given back: a response was consumed, broke, or the
    /// request could not be handed to the agent.
    Release,
}

/// Whether the lock is held after the steps, given whether it was held
/// before them. A query leaves the lock held, whether it took it or found
/// it taken.
pub open spec fn held_after(held: bool, steps: Seq<LockStep>) -> bool {
    if steps.len() == 0 {
        held
    } else {
        steps.last() is Query
    }
}

/// Whether step `i` is a query that is admitted: it finds the lock free.
pub open spec fn admitted(held: bool, steps: Seq<LockStep>, i: int) -> bool {
    0 <= i < steps.len() && steps[i] is Query && !held_after(held, steps.take(i))
}

/// Responses never interleave: whatever is asked of a session and in
/// whatever order, between two requests that are admitted the lock was
/// given back, so the first response had ended before the second request
/// reached the agent.
pub proof fn law_responses_never_interleave(held: bool, steps: Seq<LockStep>, i: int, j: int)
    requires
        i < j,
        admitted(held, steps, i),
        admitted(held, steps, j),
    ensures
        exists|k: int| i < k < j && #[trigger] steps[k] is Release,
{
    assert(steps.take(j).last() == steps[j - 1]);
    assert(steps[j - 1] is Release);
}

/// The idle test is exactly `now - last_activity > timeout`: a session is
/// never expired at or before its last activity, and once expired it stays
/// so as time goes on.
pub proof fn law_expiry(last_activity: u64, now: u64, later: u64, timeout: u64)
    requires
        now <= later,
    ensures
        expired(last_activity, now, timeout) == (now - last_activity > timeout),
        now <= last_activity ==> !expired(last_activity, now, timeout),
        expired(last_activity, now, timeout) ==> expired(last_activity, later, timeout),
{
}

} // verus!
