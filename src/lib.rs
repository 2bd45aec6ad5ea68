//! Shifts the numeric owner and group of files by a signed offset.
//!
//! The library holds the decisions: how the command line reads, which passes
//! run, how a walk over a hierarchy proceeds, and what is to be done to each
//! entry. The caller performs the file-system work that those decisions name.
pub mod args;
pub mod config;
pub mod inodes;
pub mod item;
pub mod lemmas;
pub mod walk;
