//! Collapse the commits unique to the current branch, relative to a chosen
//! target branch, into a single commit that keeps the file tree of the old
//! head and the message of the oldest collapsed commit.

pub mod ancestry;
pub mod engine;
pub mod error;
pub mod status;
pub mod store;
