//! Names for channels and users, for log lines that people can read.

pub mod cache;
pub mod types;

pub use cache::{CacheStats, MetadataCache};
pub use types::{ChannelInfo, ChannelType, LogContext, UserInfo};
