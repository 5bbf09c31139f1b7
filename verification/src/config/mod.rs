//! Configuration.

pub mod settings;

pub use settings::{
    load_settings, AgentConfig, ClaudeConfig, Environment, Settings, SlackConfig, WorkspaceConfig,
};
