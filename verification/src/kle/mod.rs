//! The self-learning engine's decisions: staging, Admin resolution of
//! staged observations and merge requests, publishing, and which pending
//! observations to compare for duplicates.
pub mod engine;
pub mod error;
pub mod types;
