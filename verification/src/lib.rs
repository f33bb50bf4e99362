//! Verified core of a container-stack orchestration tool.
//!
//! The library computes everything the tool decides: resolved configuration,
//! lint scripts, ordered command plans for startup, shutdown and readiness
//! waiting, and the step-by-step execution session that threads dry-run
//! semantics and best-effort error handling through a plan.  Performing the
//! planned commands (spawning processes, touching the filesystem) is left to
//! the thin unverified binary around the library.

pub mod api;
pub mod cli;
pub mod command;
pub mod config;
pub mod lint;
pub mod session;
pub mod shutdown;
pub mod startup;
pub mod text;
pub mod waiter;
