//! Fantasy-football data core: league configuration and resolution, provider
//! adapters for two upstream APIs, the roster/user cache with its refresh
//! policy, and the command handlers that format replies.
//!
//! All network and file transfer is done by the surrounding program, which
//! hands this library plain values (already-decoded records) and carries the
//! strings it returns back to the chat transport.

pub mod commands;
pub mod error;
pub mod espn;
pub mod fantasy;
pub mod registry;
pub mod sleeper;
pub mod text;
