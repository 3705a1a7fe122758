//! Configuration model, source resolution and build sequencing for
//! container builds that are declared in configuration files.
//!
//! The crate decides; its caller performs. Every function here maps plain
//! values to plain values: which directory a repository is cloned into, which
//! command runs next, and what a failed command means for the rest of a run.

pub mod config;
pub mod command;
pub mod resolve;
pub mod builder;
pub mod collection;
pub mod document;
