//! Agent sessions: the plan an agent reports, one channel's session, and the
//! registry of all sessions.

pub mod hooks;
pub mod main_agent;
pub mod manager;
pub mod repo_agent;
pub mod types;

pub use hooks::create_todo_hooks;
pub use main_agent::MainAgent;
pub use manager::AgentManager;
pub use repo_agent::RepoAgent;
pub use types::{Plan, Task, TaskStatus};
