//! Drafting release notes from the commits made since the latest tag.

pub mod config;
pub mod git;
pub mod log;
pub mod orchestrator;
pub mod setup;
pub mod summary;
pub mod text;
