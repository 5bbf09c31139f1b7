//! The one-shot agent that prepares a repository for a channel: what it
//! is asked, and what counts as its answer.

use vstd::prelude::*;
use vstd::string::*;
use crate::agent::repo_agent::{first_end, AgentEvent};
use crate::agent::types::{Plan, TaskView};
use crate::error::SlackCoderError;
use crate::slack::types::ChannelId;

verus! {

/// The request that asks the agent to set `repo_name` up for `channel`.
pub open spec fn setup_prompt(repo_name: Seq<char>, channel: Seq<char>) -> Seq<char> {
    "Please set up the repository "@ + repo_name + " for channel "@ + channel
        + ".\n\nTasks:\n1. Validate the repository exists and is accessible using gh CLI\n2. Clone it to ~/.slack_coder/repos/"@
        + channel
        + "\n3. Analyze the codebase comprehensively\n4. Generate a system prompt for this repository\n5. Save the system prompt to ~/.slack_coder/system/"@
        + channel + "/system_prompt.md\n\nThe repository name provided by the user is: "@
        + repo_name
}

/// Whether `outcome` is what the setup made of the agent's response: the
/// text of the first result, empty where it has none or where the
/// response ran out, and an `ClaudeAgent` error where the response broke first.
pub open spec fn setup_result(events: Seq<AgentEvent>, outcome: Result<String, SlackCoderError>)
    -> bool {
    let end = first_end(events, 0);
    if end >= events.len() {
        outcome matches Ok(text) && text@.len() == 0
    } else {
        match events[end] {
            AgentEvent::Result(message) => outcome matches Ok(text) && text@ == (
            match message.result {
                Some(result) => result@,
                None => Seq::empty(),
            }),
            AgentEvent::Failure(why) => outcome matches Err(SlackCoderError::ClaudeAgent(w)) && w == why,
            AgentEvent::Progress => false,
        }
    }
}

/// The agent that sets a repository up.
#[derive(Debug)]
pub struct MainAgent {
    plan: Plan,
}

impl MainAgent {
    /// An agent with an empty plan.
    pub fn new() -> (res: MainAgent)
        ensures
            res.plan_view() == Seq::<TaskView>::empty(),
    {
        MainAgent { plan: Plan::new() }
    }

    /// The plan, as mathematical values.
    pub closed spec fn plan_view(&self) -> Seq<TaskView> {
        self.plan@
    }

    /// Takes in the outcome of connecting the agent client: a failure is
    /// passed on as a `ClaudeAgent` error.
    pub fn connect(&self, outcome: Result<(), String>) -> (res: Result<(), SlackCoderError>)
        ensures
            match outcome {
                Ok(_) => res is Ok,
                Err(why) => res == Err::<(), SlackCoderError>(SlackCoderError::ClaudeAgent(why)),
            },
    {
        match outcome {
            Ok(_) => Ok(()),
            Err(why) => Err(SlackCoderError::ClaudeAgent(why)),
        }
    }

    /// The request that starts the setup of `repo_name` for the channel.
    pub fn setup_repository(&self, repo_name: &str, channel_id: &ChannelId) -> (res: String)
        ensures
            res@ == setup_prompt(repo_name@, channel_id@),
    {
        let mut prompt = String::from_str("Please set up the repository ");
        prompt.append(repo_name);
        prompt.append(" for channel ");
        prompt.append(channel_id.as_str());
        prompt.append(
            ".\n\nTasks:\n1. Validate the repository exists and is accessible using gh CLI\n2. Clone it to ~/.slack_coder/repos/",
        );
        prompt.append(channel_id.as_str());
        prompt.append(
            "\n3. Analyze the codebase comprehensively\n4. Generate a system prompt for this repository\n5. Save the system prompt to ~/.slack_coder/system/",
        );
        prompt.append(channel_id.as_str());
        prompt.append("/system_prompt.md\n\nThe repository name provided by the user is: ");
        prompt.append(repo_name);
        prompt
    }

    /// What the setup made of the agent's response.
    pub fn setup_finished(&self, events: &Vec<AgentEvent>) -> (res: Result<String, SlackCoderError>)
        ensures
            setup_result(events@, res),
    {
        let mut i: usize = 0;
        while i < events.len()
            invariant
                i <= events.len(),
                first_end(events@, i as int) == first_end(events@, 0),
            decreases events.len() - i,
        {
            match &events[i] {
                AgentEvent::Progress => {},
                AgentEvent::Result(message) => {
                    return Ok(
                        match &message.result {
                            Some(text) => text.clone(),
                            None => String::new(),
                        },
                    );
                },
                AgentEvent::Failure(why) => {
                    return Err(SlackCoderError::ClaudeAgent(why.clone()));
                },
            }
            i += 1;
        }
        Ok(String::new())
    }

    /// A copy of the plan as it stands.
    pub fn get_plan(&self) -> (res: Plan)
        ensures
            res@ == self.plan_view(),
    {
        self.plan.clone()
    }

    /// Ends the agent, given the outcome of disconnecting its client.
    pub fn disconnect(self, outcome: Result<(), String>) -> (res: Result<(), SlackCoderError>)
        ensures
            match outcome {
                Ok(_) => res is Ok,
                Err(why) => res == Err::<(), SlackCoderError>(SlackCoderError::ClaudeAgent(why)),
            },
    {
        match outcome {
            Ok(_) => Ok(()),
            Err(why) => Err(SlackCoderError::ClaudeAgent(why)),
        }
    }
}

} // verus!
