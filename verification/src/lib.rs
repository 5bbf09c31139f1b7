//! Session bookkeeping for a chat bot that binds each channel to one
//! long-lived agent session: the plan of tasks an agent reports, the cache
//! that tells repeated notifications apart from new ones, the registry of
//! sessions, and the texts the bot writes.

pub mod agent;
pub mod clock;
pub mod config;
pub mod error;
pub mod logging;
pub mod metadata;
pub mod pattern;
pub mod session;
pub mod shutdown;
pub mod slack;
pub mod split;
pub mod storage;
pub mod store;
pub mod text;

pub use error::SlackCoderError;
