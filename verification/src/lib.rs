//! A verified core for a database-restore tool.
//!
//! The library decides, for a target database inside a container, whether the
//! database must be created, how to recover from a missing credential by
//! prompting once and retrying, and how to report the outcome of the restore
//! command.  Everything that talks to the outside world (running the container
//! client, reading console input, persisting profiles) lives in the thin
//! unverified front end; this crate holds the decisions, the command
//! composition, and the parsing of captured command output.

pub mod catalog;
pub mod classify;
pub mod command;
pub mod orchestrator;
pub mod profile;
pub mod text;
pub mod todo;
