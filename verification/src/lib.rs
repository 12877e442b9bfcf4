//! Verified core of a git/GitHub fleet-administration tool.
//!
//! The library contains the batch-operation engine: name filtering,
//! repository enumeration, working-tree status classification, the commit
//! state machine, GitHub REST request building and response mapping, and
//! per-target outcome reporting. Network and filesystem access live outside
//! the library and hand it plain values.

pub mod batch;
pub mod cli;
pub mod commands;
pub mod filter;
pub mod github;
pub mod local;
pub mod ops;
pub mod repo;
pub mod status;
