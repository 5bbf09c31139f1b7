//! Setting a channel up for a repository: reading the repository's name,
//! and what the channel is told along the way.

use vstd::prelude::*;
use vstd::string::*;
use crate::error::SlackCoderError;
use crate::split::{line_views, split, split_on, trim, trimmed};
use crate::text::to_chars;

verus! {

/// What a channel is told when the bot joins it.
pub open spec fn setup_form_text() -> Seq<char> {
    "Welcome to Slack Coder Bot! 👋\n\nTo get started, please provide your GitHub repository in the format: `owner/repo-name`\n\nFor example: `tyrchen/rust-lib-template`\n\nReply with your repository name to begin setup."@
}

/// What a channel is told when the setup of `repo_name` starts.
pub open spec fn setup_started_text(repo_name: Seq<char>) -> Seq<char> {
    "🔧 Setting up repository `"@ + repo_name
        + "`...\nThis may take a minute. I'll update you on progress."@
}

/// What a channel is told when the setup of `repo_name` is done.
pub open spec fn setup_done_text(repo_name: Seq<char>) -> Seq<char> {
    ":white_check_mark: *Repository `"@ + repo_name
        + "` is now ready!*\n\nYou can now ask me to:\n• Generate code\n• Write documentation\n• Refactor existing code\n• Review and commit changes\n• Create pull requests\n\nTry: `@slack-coder /help` for more information"@
}

/// The explanation given for a name that is not of the form
/// `owner/repo-name`.
pub open spec fn invalid_format_text(name: Seq<char>) -> Seq<char> {
    "Invalid repository format: '"@ + name + "'. Expected format: owner/repo-name"@
}

/// Whether `name` names a repository: exactly one `/`, with something
/// other than white space on both sides.
pub open spec fn is_repo_name(name: Seq<char>) -> bool {
    split_on(name, '/').len() == 2 && trimmed(split_on(name, '/')[0]).len() > 0 && trimmed(
        split_on(name, '/')[1],
    ).len() > 0
}

/// What is wrong with a `name` that names no repository.
pub open spec fn name_complaint(name: Seq<char>) -> Seq<char> {
    if split_on(name, '/').len() != 2 {
        invalid_format_text(name)
    } else {
        "Owner and repository name cannot be empty"@
    }
}

/// Reads and checks names of repositories, and words the messages of a
/// setup.
pub struct FormHandler {}

impl FormHandler {
    pub fn new() -> FormHandler {
        FormHandler {  }
    }

    /// What a channel is told when the bot joins it.
    pub fn show_repo_setup_form(&self) -> (res: String)
        ensures
            res@ == setup_form_text(),
    {
        String::from_str(
            "Welcome to Slack Coder Bot! 👋\n\nTo get started, please provide your GitHub repository in the format: `owner/repo-name`\n\nFor example: `tyrchen/rust-lib-template`\n\nReply with your repository name to begin setup.",
        )
    }

    /// Opens the setup of `repo_name`: checks the name and, if it is
    /// good, returns what the channel is told while the setup runs.
    pub fn handle_repo_setup(&self, repo_name: &str) -> (res: Result<String, SlackCoderError>)
        ensures
            res is Ok == is_repo_name(repo_name@),
            res is Ok ==> res->Ok_0@ == setup_started_text(repo_name@),
            res is Err ==> (res->Err_0 matches SlackCoderError::Config(why) && why@
                == name_complaint(repo_name@)),
    {
        match Self::validate_repo_name_format(repo_name) {
            Ok(_) => {
                let mut text = String::from_str("🔧 Setting up repository `");
                text.append(repo_name);
                text.append("`...\nThis may take a minute. I'll update you on progress.");
                Ok(text)
            },
            Err(why) => Err(why),
        }
    }

    /// What the channel is told when the setup of `repo_name` is done.
    pub fn setup_completed(&self, repo_name: &str) -> (res: String)
        ensures
            res@ == setup_done_text(repo_name@),
    {
        let mut text = String::from_str(":white_check_mark: *Repository `");
        text.append(repo_name);
        text.append(
            "` is now ready!*\n\nYou can now ask me to:\n• Generate code\n• Write documentation\n• Refactor existing code\n• Review and commit changes\n• Create pull requests\n\nTry: `@slack-coder /help` for more information",
        );
        text
    }

    /// Reads `name` as `owner/repo-name` and returns the two parts,
    /// trimmed. A name with no `/` or with more than one, and a name with
    /// nothing on one side of it, are refused as a `Config` error.
    pub fn validate_repo_name_format(name: &str) -> (res: Result<(String, String), SlackCoderError>)
        ensures
            res is Ok == is_repo_name(name@),
            res is Ok ==> res->Ok_0.0@ == trimmed(split_on(name@, '/')[0]) && res->Ok_0.1@
                == trimmed(split_on(name@, '/')[1]),
            res is Err ==> (res->Err_0 matches SlackCoderError::Config(why) && why@
                == name_complaint(name@)),
    {
        let chars = to_chars(name);
        let parts = split(&chars, '/');
        assert(line_views(parts@).len() == parts@.len());
        if parts.len() != 2 {
            let mut why = String::from_str("Invalid repository format: '");
            why.append(name);
            why.append("'. Expected format: owner/repo-name");
            return Err(SlackCoderError::Config(why));
        }
        assert(line_views(parts@)[0] == parts@[0]@);
        assert(line_views(parts@)[1] == parts@[1]@);
        let owner = trim(&parts[0]);
        let repo = trim(&parts[1]);
        if owner.as_str().is_empty() || repo.as_str().is_empty() {
            return Err(
                SlackCoderError::Config(
                    String::from_str("Owner and repository name cannot be empty"),
                ),
            );
        }
        Ok((owner, repo))
    }
}

} // verus!
