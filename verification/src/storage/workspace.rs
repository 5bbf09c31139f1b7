//! Where on disk a channel's repository and prompt are kept.
//!
//! Paths are plain strings with `/` between their parts.

use vstd::prelude::*;
use vstd::string::*;
use crate::slack::types::ChannelId;
use crate::text::{to_chars};

verus! {

/// `part` adjoined to `base`, as `Path::join` does it where `/` separates
/// the parts: an absolute `part` stands for itself, and a separator is put
/// between the two unless `base` is empty or ends in one.
pub open spec fn joined(base: Seq<char>, part: Seq<char>) -> Seq<char> {
    if part.len() > 0 && part[0] == '/' {
        part
    } else if base.len() == 0 || base.last() == '/' {
        base + part
    } else {
        base + "/"@ + part
    }
}

/// `part` adjoined to `base`.
pub fn join_path(base: &str, part: &str) -> (res: String)
    ensures
        res@ == joined(base@, part@),
{
    let part_chars = to_chars(part);
    if part_chars.len() > 0 && part_chars[0] == '/' {
        return String::from_str(part);
    }
    let base_chars = to_chars(base);
    let mut res = String::from_str(base);
    if base_chars.len() > 0 && base_chars[base_chars.len() - 1] != '/' {
        res.append("/");
    }
    res.append(part);
    res
}

/// The directory under which everything is kept.
pub struct Workspace {
    base_path: String,
}

impl View for Workspace {
    type V = Seq<char>;

    closed spec fn view(&self) -> Seq<char> {
        self.base_path@
    }
}

impl Workspace {
    pub fn new(base_path: String) -> (res: Workspace)
        ensures
            res@ == base_path@,
    {
        Workspace { base_path }
    }

    /// The directory of the channel's repository: `repos/{channel}` under
    /// the base.
    pub fn repo_path(&self, channel_id: &ChannelId) -> (res: String)
        ensures
            res@ == joined(joined(self@, "repos"@), channel_id@),
    {
        join_path(join_path(self.base_path.as_str(), "repos").as_str(), channel_id.as_str())
    }

    /// The file of the channel's system prompt:
    /// `system/{channel}/system_prompt.md` under the base.
    pub fn system_prompt_path(&self, channel_id: &ChannelId) -> (res: String)
        ensures
            res@ == joined(
                joined(joined(self@, "system"@), channel_id@),
                "system_prompt.md"@,
            ),
    {
        join_path(
            join_path(
                join_path(self.base_path.as_str(), "system").as_str(),
                channel_id.as_str(),
            ).as_str(),
            "system_prompt.md",
        )
    }

    /// The two directories that must exist before anything is kept.
    pub fn ensure_workspace(&self) -> (res: (String, String))
        ensures
            res.0@ == joined(self@, "repos"@),
            res.1@ == joined(self@, "system"@),
    {
        (
            join_path(self.base_path.as_str(), "repos"),
            join_path(self.base_path.as_str(), "system"),
        )
    }

    /// Whether a channel counts as set up: its repository and its system
    /// prompt must both be there.
    pub fn is_channel_setup(&self, repo_exists: bool, prompt_exists: bool) -> (res: bool)
        ensures
            res == (repo_exists && prompt_exists),
    {
        repo_exists && prompt_exists
    }

    /// The system prompt of a session: the common workflow, a rule, and
    /// the prompt written for the repository.
    pub fn compose_system_prompt(&self, workflow: &str, repo_prompt: &str) -> (res: String)
        ensures
            res@ == workflow@ + "\n\n---\n\n"@ + repo_prompt@,
    {
        let mut prompt = String::from_str(workflow);
        prompt.append("\n\n---\n\n");
        prompt.append(repo_prompt);
        prompt
    }
}

} // verus!
