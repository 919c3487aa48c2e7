//! An interactive remote-filesystem shell, as a library of decisions.
//!
//! The crate holds the rules of the shell: how a target is read, how
//! credentials are sealed and remembered, in which order authentication
//! strategies are tried, how the believed working directory follows the remote
//! host, how files and directory trees are moved, and how a line of input is
//! dispatched. The transport itself lives with the caller, which performs the
//! actions the library asks for and hands the results back.

pub mod auth;
pub mod bridge;
pub mod config;
pub mod crypto;
pub mod shell;
pub mod sync;
pub mod target;
pub mod text;
pub mod workflow;
