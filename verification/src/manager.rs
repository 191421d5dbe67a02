//! The manager: the PID file path and the three hooks of one service, and
//! the operations on it.
//!
//! An operation does not run here. Each one hands out a [`Lifecycle`], the
//! state machine of that operation, which the caller drives: it carries
//! out the action that the lifecycle names, reports what came of it, and
//! goes on until the lifecycle returns.

use crate::config::{hook_copied, ServerManagerConfig};
use crate::lifecycle::{initial, HookKind, Lifecycle, Operation};
use crate::pid_file::parent_directory;
use crate::process::{DaemonRole, Process};
use vstd::prelude::*;

verus! {

/// Main structure for managing server processes.
///
/// `H` is the type of a hook: a callback that the caller runs when the
/// lifecycle asks for it. A hook that is not set does nothing.
pub struct ServerManager<H> {
    /// Path to the PID file for process tracking.
    pub(crate) pid_file: String,
    /// The hook to be run before stopping the server.
    pub(crate) stop_hook: Option<H>,
    /// The hook to be run before starting the server.
    pub(crate) start_hook: Option<H>,
    /// Server function to be executed.
    pub(crate) server_hook: Option<H>,
}

/// A manager as contracts see it.
pub struct ServerManagerView<H> {
    /// Path to the PID file.
    pub pid_file: Seq<char>,
    /// The hook to be run before stopping the server.
    pub stop_hook: Option<H>,
    /// The hook to be run before starting the server.
    pub start_hook: Option<H>,
    /// The server body.
    pub server_hook: Option<H>,
}

impl<H> ServerManagerView<H> {
    /// The hook of the given kind.
    pub open spec fn hook(self, kind: HookKind) -> Option<H> {
        match kind {
            HookKind::Start => self.start_hook,
            HookKind::Stop => self.stop_hook,
            HookKind::Server => self.server_hook,
        }
    }
}

impl<H> View for ServerManager<H> {
    type V = ServerManagerView<H>;

    closed spec fn view(&self) -> ServerManagerView<H> {
        ServerManagerView {
            pid_file: self.pid_file@,
            stop_hook: self.stop_hook,
            start_hook: self.start_hook,
            server_hook: self.server_hook,
        }
    }
}

impl<H> Default for ServerManager<H> {
    fn default() -> (manager: Self)
        ensures
            manager@ == (ServerManagerView::<H> {
                pid_file: Seq::<char>::empty(),
                stop_hook: None,
                start_hook: None,
                server_hook: None,
            }),
    {
        ServerManager {
            pid_file: String::new(),
            stop_hook: None,
            start_hook: None,
            server_hook: None,
        }
    }
}

impl<H> ServerManager<H> {
    /// A manager with an empty PID file path and no hook set.
    pub fn new() -> (manager: Self)
        ensures
            manager@ == (ServerManagerView::<H> {
                pid_file: Seq::<char>::empty(),
                stop_hook: None,
                start_hook: None,
                server_hook: None,
            }),
    {
        ServerManager {
            pid_file: String::new(),
            stop_hook: None,
            start_hook: None,
            server_hook: None,
        }
    }

    /// A manager for the PID file and the hooks of `config`, with
    /// `server_hook` as the server body.
    pub fn from_config(config: ServerManagerConfig<H>, server_hook: H) -> (manager: Self)
        ensures
            manager@ == (ServerManagerView {
                pid_file: config@.pid_file,
                stop_hook: config@.before_stop_hook,
                start_hook: config@.before_start_daemon_hook,
                server_hook: Some(server_hook),
            }),
    {
        let (pid_file, stop_hook, start_hook) = config.into_parts();
        ServerManager { pid_file, stop_hook, start_hook, server_hook: Some(server_hook) }
    }

    /// Sets the path to the PID file.
    pub fn set_pid_file(&mut self, pid_file: &str) -> (manager: &mut Self)
        ensures
            manager@ == (ServerManagerView { pid_file: pid_file@, ..old(self)@ }),
            *final(self) == *final(manager),
    {
        self.pid_file = pid_file.to_owned();
        self
    }

    /// Sets the hook to be run before starting the server.
    pub fn set_start_hook(&mut self, hook: H) -> (manager: &mut Self)
        ensures
            manager@ == (ServerManagerView { start_hook: Some(hook), ..old(self)@ }),
            *final(self) == *final(manager),
    {
        self.start_hook = Some(hook);
        self
    }

    /// Sets the server body.
    pub fn set_server_hook(&mut self, hook: H) -> (manager: &mut Self)
        ensures
            manager@ == (ServerManagerView { server_hook: Some(hook), ..old(self)@ }),
            *final(self) == *final(manager),
    {
        self.server_hook = Some(hook);
        self
    }

    /// Sets the hook to be run before stopping the server.
    pub fn set_stop_hook(&mut self, hook: H) -> (manager: &mut Self)
        ensures
            manager@ == (ServerManagerView { stop_hook: Some(hook), ..old(self)@ }),
            *final(self) == *final(manager),
    {
        self.stop_hook = Some(hook);
        self
    }

    /// The path to the PID file.
    pub fn get_pid_file(&self) -> (pid_file: &str)
        ensures
            pid_file@ == self@.pid_file,
    {
        self.pid_file.as_str()
    }

    /// The hook to be run before starting the server, if one is set.
    pub fn get_start_hook(&self) -> (hook: &Option<H>)
        ensures
            *hook == self@.start_hook,
    {
        &self.start_hook
    }

    /// The server body, if one is set.
    pub fn get_server_hook(&self) -> (hook: &Option<H>)
        ensures
            *hook == self@.server_hook,
    {
        &self.server_hook
    }

    /// The hook to be run before stopping the server, if one is set.
    pub fn get_stop_hook(&self) -> (hook: &Option<H>)
        ensures
            *hook == self@.stop_hook,
    {
        &self.stop_hook
    }

    /// The hook that the action `RunHook` of the given kind asks for, if
    /// one is set.
    pub fn hook(&self, kind: HookKind) -> (hook: &Option<H>)
        ensures
            *hook == self@.hook(kind),
    {
        match kind {
            HookKind::Start => &self.start_hook,
            HookKind::Stop => &self.stop_hook,
            HookKind::Server => &self.server_hook,
        }
    }

    /// Starts the server in foreground mode.
    ///
    /// The run that is handed out runs the start hook, writes the
    /// identifier of `process` to the PID file and runs the server body.
    /// Where the file cannot be written it prints a diagnostic and ends
    /// without running the server body. The directory that it creates
    /// first is the parent of the path as the platform's path rules give
    /// it; the empty path has none.
    pub fn start(&self, process: &Process) -> (run: Lifecycle)
        ensures
            run@ == initial(Operation::Start, *process, self@.pid_file, run@.directory),
            run@.well_formed(),
            self@.pid_file.len() == 0 ==> run@.directory is None,
    {
        let directory = parent_directory(self.pid_file.as_str());
        Lifecycle::begin(Operation::Start, *process, self.pid_file.clone(), directory)
    }

    /// Stops the running server process.
    ///
    /// The run that is handed out runs the stop hook, reads the PID file
    /// and terminates the process that it names, in the way of the
    /// platform of `process`.
    pub fn stop(&self, process: &Process) -> (run: Lifecycle)
        ensures
            run@ == initial(Operation::Stop, *process, self@.pid_file, None),
            run@.well_formed(),
    {
        Lifecycle::begin(Operation::Stop, *process, self.pid_file.clone(), None)
    }

    /// Starts the server in daemon (background) mode.
    ///
    /// The run that is handed out runs the start hook. In the launcher it
    /// then spawns the running executable again, detached and with the
    /// re-exec marker set, and returns without waiting. In the child it
    /// writes the identifier of `process` to the PID file and runs the
    /// server body to its end on an event loop of its own. Every platform
    /// detaches in this way; none is refused.
    pub fn start_daemon(&self, process: &Process) -> (run: Lifecycle)
        ensures
            run@ == initial(Operation::StartDaemon, *process, self@.pid_file, run@.directory),
            run@.well_formed(),
            process.role == DaemonRole::Launcher || self@.pid_file.len() == 0 ==> run@.directory
                is None,
    {
        let directory = match process.role {
            DaemonRole::Child => parent_directory(self.pid_file.as_str()),
            DaemonRole::Launcher => None,
        };
        Lifecycle::begin(Operation::StartDaemon, *process, self.pid_file.clone(), directory)
    }

    /// Starts the server with hot-reloading using the file watcher.
    ///
    /// The run that is handed out runs the start hook, installs the
    /// watcher if it is not installed, spawns it and ends the process.
    pub fn hot_restart(&self, process: &Process) -> (run: Lifecycle)
        ensures
            run@ == initial(
                Operation::HotRestart { wait: false },
                *process,
                self@.pid_file,
                None,
            ),
            run@.well_formed(),
    {
        Lifecycle::begin(
            Operation::HotRestart { wait: false },
            *process,
            self.pid_file.clone(),
            None,
        )
    }

    /// Starts the server with hot-reloading and waits for completion.
    ///
    /// As [`ServerManager::hot_restart`], but the run waits for the
    /// watcher to end before it ends the process.
    pub fn hot_restart_wait(&self, process: &Process) -> (run: Lifecycle)
        ensures
            run@ == initial(Operation::HotRestart { wait: true }, *process, self@.pid_file, None),
            run@.well_formed(),
    {
        Lifecycle::begin(
            Operation::HotRestart { wait: true },
            *process,
            self.pid_file.clone(),
            None,
        )
    }
}

impl<H: Clone> Clone for ServerManager<H> {
    /// The copy has its own path string and copies of the hooks, which
    /// share what a hook of type `H` shares with its copy.
    fn clone(&self) -> (copy: Self)
        ensures
            copy@.pid_file == self@.pid_file,
            hook_copied(self@.stop_hook, copy@.stop_hook),
            hook_copied(self@.start_hook, copy@.start_hook),
            hook_copied(self@.server_hook, copy@.server_hook),
    {
        ServerManager {
            pid_file: self.pid_file.clone(),
            stop_hook: self.stop_hook.clone(),
            start_hook: self.start_hook.clone(),
            server_hook: self.server_hook.clone(),
        }
    }
}

} // verus!
