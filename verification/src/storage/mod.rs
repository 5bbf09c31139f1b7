//! What is kept on disk.

pub mod workspace;

pub use workspace::Workspace;
