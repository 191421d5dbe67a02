//! server-manager
//!
//! server-manager is a library for managing server processes: starting a
//! service in the foreground, detaching it into the background, tracking
//! it through a PID file and terminating it on demand, with hooks around
//! each step.
//!
//! The library decides and leaves the doing to its caller. An operation of
//! the [`ServerManager`] hands out a [`Lifecycle`], a state machine that
//! names one [`Action`] at a time (run a hook, write the PID file, spawn
//! the detached child, signal a process) and takes the caller's report of
//! what came of it as an [`Event`]. What the PID file holds and how it is
//! read back is in [`pid_file`]; what holds of every run, whatever the
//! caller reports, is stated and proved in [`laws`].

pub mod config;
pub mod decimal;
pub mod error;
pub mod laws;
pub mod lifecycle;
pub mod manager;
pub mod pid_file;
pub mod process;
pub mod terminator;
pub mod text;
pub mod watch;

pub use config::ServerManagerConfig;
pub use error::{ServerManagerError, ServerManagerResult, TerminationCause};
pub use lifecycle::{Action, Event, HookKind, Lifecycle, Operation, Phase};
pub use manager::ServerManager;
pub use process::{DaemonRole, Platform, Process, RUNNING_AS_DAEMON, RUNNING_AS_DAEMON_VALUE};
