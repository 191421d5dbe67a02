//! What a process knows of itself when it enters an operation: its
//! identifier, its platform, and on which side of the re-exec boundary of a
//! daemon start it stands.

use vstd::prelude::*;

verus! {

/// Environment variable name for daemon mode detection.
pub const RUNNING_AS_DAEMON: &'static str = "RUNNING_AS_DAEMON";

/// Value indicating the process is running in daemon mode.
pub const RUNNING_AS_DAEMON_VALUE: &'static str = "1";

/// Which side of the re-exec boundary the current process is on. It is
/// found out once, when the process starts, and never looked at again.
#[derive(Clone, Copy, Debug, PartialEq, Eq, Structural)]
pub enum DaemonRole {
    /// The first, foreground invocation, about to spawn a detached child.
    Launcher,
    /// The detached child, which runs the server body itself.
    Child,
}

/// The family of operating systems that the process runs on. The two
/// differ in how a process is terminated and how a child is detached.
#[derive(Clone, Copy, Debug, PartialEq, Eq, Structural)]
pub enum Platform {
    /// Termination is a request: the `TERM` signal is sent and the process
    /// exits on its own schedule.
    Posix,
    /// Termination is forced, through a handle to the process.
    Windows,
}

/// The process that carries out an operation.
#[derive(Clone, Copy, Debug, PartialEq, Eq, Structural)]
pub struct Process {
    /// Its identifier.
    pub pid: u32,
    /// The platform it runs on.
    pub platform: Platform,
    /// Its side of the re-exec boundary.
    pub role: DaemonRole,
}

/// The role of a process whose environment holds `marker` under
/// [`RUNNING_AS_DAEMON`]: the child if the variable is present, whatever
/// its value, and the launcher if it is absent.
pub open spec fn role_of(marker: Option<Seq<char>>) -> DaemonRole {
    if marker is Some {
        DaemonRole::Child
    } else {
        DaemonRole::Launcher
    }
}

/// The role of a process whose environment holds `marker` under
/// [`RUNNING_AS_DAEMON`].
pub fn role_from_marker(marker: Option<&str>) -> (role: DaemonRole)
    ensures
        role == role_of(
            match marker {
                Some(value) => Some(value@),
                None => None,
            },
        ),
{
    match marker {
        Some(_) => DaemonRole::Child,
        None => DaemonRole::Launcher,
    }
}

impl Process {
    /// The process `pid` on `platform`, whose environment holds `marker`
    /// under [`RUNNING_AS_DAEMON`].
    pub fn new(pid: u32, platform: Platform, marker: Option<&str>) -> (process: Process)
        ensures
            process == (Process {
                pid,
                platform,
                role: role_of(
                    match marker {
                        Some(value) => Some(value@),
                        None => None,
                    },
                ),
            }),
    {
        Process { pid, platform, role: role_from_marker(marker) }
    }
}

} // verus!
