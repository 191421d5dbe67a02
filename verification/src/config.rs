//! Configuration of a manager: the PID file and the two hooks that guard
//! stopping and starting.

use vstd::prelude::*;

verus! {

/// Configuration parameters for server management.
///
/// `H` is the type of a hook: a callback that the caller runs when the
/// lifecycle asks for it. A hook that is not set does nothing.
pub struct ServerManagerConfig<H> {
    /// Path to the PID file for process tracking.
    pub(crate) pid_file: String,
    /// The hook to be run before stopping the server.
    pub(crate) before_stop_hook: Option<H>,
    /// The hook to be run before starting the server daemon.
    pub(crate) before_start_daemon_hook: Option<H>,
}

/// A configuration as contracts see it.
pub struct ServerManagerConfigView<H> {
    /// Path to the PID file.
    pub pid_file: Seq<char>,
    /// The hook to be run before stopping the server.
    pub before_stop_hook: Option<H>,
    /// The hook to be run before starting the server daemon.
    pub before_start_daemon_hook: Option<H>,
}

/// Whether `copy` is what copying the optional hook `hook` gives: nothing
/// where there is no hook, else a copy of the hook as its type makes one.
pub open spec fn hook_copied<H: Clone>(hook: Option<H>, copy: Option<H>) -> bool {
    match hook {
        Some(hook) => copy is Some && cloned(hook, copy->0),
        None => copy is None,
    }
}

impl<H> View for ServerManagerConfig<H> {
    type V = ServerManagerConfigView<H>;

    closed spec fn view(&self) -> ServerManagerConfigView<H> {
        ServerManagerConfigView {
            pid_file: self.pid_file@,
            before_stop_hook: self.before_stop_hook,
            before_start_daemon_hook: self.before_start_daemon_hook,
        }
    }
}

impl<H> ServerManagerConfig<H> {
    /// A configuration for the PID file at `pid_file`, with no hook set.
    pub fn new(pid_file: String) -> (config: Self)
        ensures
            config@ == (ServerManagerConfigView::<H> {
                pid_file: pid_file@,
                before_stop_hook: None,
                before_start_daemon_hook: None,
            }),
    {
        ServerManagerConfig { pid_file, before_stop_hook: None, before_start_daemon_hook: None }
    }

    /// Sets the path to the PID file.
    pub fn set_pid_file(&mut self, pid_file: String) -> (config: &mut Self)
        ensures
            config@ == (ServerManagerConfigView { pid_file: pid_file@, ..old(self)@ }),
            *final(self) == *final(config),
    {
        self.pid_file = pid_file;
        self
    }

    /// Sets the hook to be run before stopping the server.
    pub fn set_before_stop_hook(&mut self, hook: H) -> (config: &mut Self)
        ensures
            config@ == (ServerManagerConfigView { before_stop_hook: Some(hook), ..old(self)@ }),
            *final(self) == *final(config),
    {
        self.before_stop_hook = Some(hook);
        self
    }

    /// Sets the hook to be run before starting the server daemon.
    pub fn set_before_start_daemon_hook(&mut self, hook: H) -> (config: &mut Self)
        ensures
            config@ == (ServerManagerConfigView {
                before_start_daemon_hook: Some(hook),
                ..old(self)@
            }),
            *final(self) == *final(config),
    {
        self.before_start_daemon_hook = Some(hook);
        self
    }

    /// Takes the configuration apart: the path to the PID file, the hook
    /// before stopping and the hook before starting.
    pub fn into_parts(self) -> (parts: (String, Option<H>, Option<H>))
        ensures
            parts.0@ == self@.pid_file,
            parts.1 == self@.before_stop_hook,
            parts.2 == self@.before_start_daemon_hook,
    {
        (self.pid_file, self.before_stop_hook, self.before_start_daemon_hook)
    }

    /// The path to the PID file.
    pub fn get_pid_file(&self) -> (pid_file: &str)
        ensures
            pid_file@ == self@.pid_file,
    {
        self.pid_file.as_str()
    }

    /// The hook to be run before stopping the server, if one is set.
    pub fn get_before_stop_hook(&self) -> (hook: &Option<H>)
        ensures
            *hook == self@.before_stop_hook,
    {
        &self.before_stop_hook
    }

    /// The hook to be run before starting the server daemon, if one is
    /// set.
    pub fn get_before_start_daemon_hook(&self) -> (hook: &Option<H>)
        ensures
            *hook == self@.before_start_daemon_hook,
    {
        &self.before_start_daemon_hook
    }
}

impl<H> Default for ServerManagerConfig<H> {
    fn default() -> (config: Self)
        ensures
            config@ == (ServerManagerConfigView::<H> {
                pid_file: Seq::<char>::empty(),
                before_stop_hook: None,
                before_start_daemon_hook: None,
            }),
    {
        ServerManagerConfig {
            pid_file: String::new(),
            before_stop_hook: None,
            before_start_daemon_hook: None,
        }
    }
}

impl<H: Clone> Clone for ServerManagerConfig<H> {
    /// The copy has its own path string and copies of the hooks.
    fn clone(&self) -> (copy: Self)
        ensures
            copy@.pid_file == self@.pid_file,
            hook_copied(self@.before_stop_hook, copy@.before_stop_hook),
            hook_copied(self@.before_start_daemon_hook, copy@.before_start_daemon_hook),
    {
        ServerManagerConfig {
            pid_file: self.pid_file.clone(),
            before_stop_hook: self.before_stop_hook.clone(),
            before_start_daemon_hook: self.before_start_daemon_hook.clone(),
        }
    }
}

} // verus!
