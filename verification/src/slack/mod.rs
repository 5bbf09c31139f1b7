//! What the bot reads from and writes to the chat platform.

pub mod client;
pub mod commands;
pub mod events;
pub mod forms;
pub mod markdown;
pub mod messages;
pub mod metrics;
pub mod progress;
pub mod table;
pub mod types;

pub use commands::SlackCommandHandler;
pub use events::{EventDeduplicator, EventHandler, EventStatus};
pub use forms::FormHandler;
pub use markdown::markdown_to_slack;
pub use messages::MessageProcessor;
pub use metrics::UsageMetrics;
pub use progress::ProgressTracker;
pub use types::{ChannelId, MessageTs, SlackMessage, ThreadTs, UserId};
