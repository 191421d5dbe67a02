//! The process-lifecycle state machine.
//!
//! Every operation of the manager (foreground start, daemon start, stop,
//! hot restart) is a run of this machine. The machine decides; it performs
//! nothing. In each state it names one [`Action`] for the caller to carry
//! out, and the caller reports what came of it as an [`Event`], which moves
//! the machine to its next state. An event that does not answer the
//! pending action is ignored: the state stays as it is and the same action
//! is named again.
//!
//! The types are generic in their texts: `String` in running code,
//! `Seq<char>` in contracts and proofs, where the machine is a pair of
//! mathematical functions, [`Lifecycle::action`] and [`Lifecycle::advance`],
//! that the executable methods of the same names are proved to compute.

use crate::error::{ErrorView, ServerManagerError, TerminationCause};
use crate::pid_file::{decode, decoded, encode, encoded};
use crate::process::{DaemonRole, Platform, Process};
use crate::terminator::{
    creation_flags, creation_flags_of, process_id, process_id_of, PROCESS_ALL_ACCESS,
    PROCESS_TERMINATE, TERMINATION_EXIT_CODE,
};
use crate::watch::{is_installed, lists_watcher, INSTALLED_NOTICE, INSTALL_FAILURE, INSTALL_NOTICE};
use vstd::prelude::*;

verus! {

/// The three hooks of a manager.
#[derive(Clone, Copy, Debug, PartialEq, Eq, Structural)]
pub enum HookKind {
    /// Runs before a start, a daemon start or a hot restart.
    Start,
    /// Runs before a stop.
    Stop,
    /// The server body itself.
    Server,
}

/// What a run of the machine is to achieve.
#[derive(Clone, Copy, Debug, PartialEq, Eq, Structural)]
pub enum Operation {
    /// Record the own identifier and run the server body in the
    /// foreground.
    Start,
    /// Terminate the process that the PID file names.
    Stop,
    /// Detach into the background: as the launcher, spawn the own
    /// executable again; as the child, record the own identifier and run
    /// the server body.
    StartDaemon,
    /// Run the file watcher, installing it first if need be; `wait` says
    /// whether to wait for it to end.
    HotRestart { wait: bool },
}

/// What the caller reports after it has carried out an action.
#[derive(Debug, PartialEq, Eq)]
pub enum Event<S = String> {
    /// The action was carried out and has nothing to tell.
    Completed,
    /// The action gave a text: the content of the file that was read, or
    /// the path of the executable.
    Text { text: S },
    /// The command ran to its end.
    Exited { success: bool, stdout: S, stderr: S },
    /// The operating system reported an error; `not_found` says whether it
    /// is of the kind "not found".
    Failed { not_found: bool, message: S },
    /// A call on a process handle failed with the platform's error `code`.
    Refused { code: u32 },
}

/// What the machine asks the caller to do next.
#[derive(Debug, PartialEq, Eq)]
pub enum Action<S = String> {
    /// Run the hook to its end. Answered by `Completed`.
    RunHook { hook: HookKind },
    /// Create the directory and all its missing parents. Answered by
    /// `Completed` or `Failed`.
    CreateDirectory { path: S },
    /// Write the file, replacing what it held. Answered by `Completed` or
    /// `Failed`.
    WriteFile { path: S, content: S },
    /// Read the whole file. Answered by `Text` or `Failed`.
    ReadFile { path: S },
    /// Find the path of the running executable. Answered by `Text` or
    /// `Failed`.
    ResolveExecutable,
    /// Spawn the executable with the re-exec marker set, null standard
    /// streams and the given creation flags, and do not wait for it.
    /// Answered by `Completed` or `Failed`.
    SpawnDaemon { executable: S, flags: u32 },
    /// Run the server body to its end on an event loop of its own.
    /// Answered by `Completed`, or by `Failed` where no loop can be had.
    ServeOnRuntime,
    /// Send the `TERM` signal to the process with the `kill` utility.
    /// Answered by `Exited` or `Failed`.
    Signal { pid: i32 },
    /// Open a handle to the process with the given access rights.
    /// Answered by `Completed` or `Refused`.
    OpenProcess { process_id: u32, access: u32 },
    /// Terminate the process behind the open handle. Answered by
    /// `Completed` or `Refused`.
    TerminateProcess { exit_code: u32 },
    /// Release the open handle. Answered by `Completed` or `Refused`.
    CloseHandle,
    /// List the installed packages. Answered by `Exited` or `Failed`.
    ListInstalled,
    /// Install the watcher and wait for the installer. Answered by
    /// `Exited` or `Failed`.
    InstallWatcher,
    /// Spawn the watcher with the caller's arguments. Answered by
    /// `Completed` or `Failed`.
    SpawnWatcher,
    /// Wait for the watcher to end. Answered by `Exited` or `Failed`.
    AwaitWatcher,
    /// Print the message as a diagnostic. Answered by `Completed`.
    Print { message: S },
    /// End the process with the given exit code. Never answered.
    Exit { code: i32 },
    /// The operation is over: hand the result to whoever asked for it.
    Return { result: Result<(), ServerManagerError<S>> },
}

/// Where a run stands: what has been asked and is not yet answered.
#[derive(Debug, PartialEq, Eq)]
pub enum Phase<S = String> {
    /// The hook that precedes the operation is running.
    Hook,
    /// The directory of the PID file is being created.
    CreatingDirectory { path: S },
    /// The PID file is being written.
    WritingPidFile,
    /// The failure to write the PID file is being printed.
    Reporting { message: S },
    /// The server body is running in the foreground.
    Serving,
    /// The server body is running on its own event loop.
    ServingOnRuntime,
    /// The path of the running executable is being looked up.
    ResolvingExecutable,
    /// The detached child is being spawned.
    Spawning { executable: S },
    /// The PID file is being read.
    ReadingPidFile,
    /// The `kill` utility is running.
    Signalling { pid: i32 },
    /// A handle to the process is being opened.
    Opening { pid: i32, access: u32 },
    /// The process behind the open handle is being terminated.
    Terminating { pid: i32 },
    /// The handle is being released; `result` is what the termination
    /// came to.
    Closing { result: Result<(), ServerManagerError<S>> },
    /// The installed packages are being listed.
    ListingInstalled,
    /// The notice that the watcher will be installed is being printed.
    AnnouncingInstall,
    /// The watcher is being installed.
    Installing,
    /// The notice that the watcher was installed is being printed.
    AnnouncingInstalled,
    /// The watcher is being spawned.
    SpawningWatcher,
    /// The watcher is running and waited for.
    AwaitingWatcher,
    /// The process is about to exit.
    Exiting,
    /// The operation is over.
    Done { result: Result<(), ServerManagerError<S>> },
}

/// One run of the machine: an operation on one PID file, and where it
/// stands.
#[derive(Debug, PartialEq, Eq)]
pub struct Lifecycle<S = String> {
    /// What the run is to achieve.
    pub operation: Operation,
    /// The process that carries out the run.
    pub process: Process,
    /// Path to the PID file.
    pub pid_file: S,
    /// The directory to create before the PID file is written, if there
    /// is one.
    pub directory: Option<S>,
    /// Where the run stands.
    pub phase: Phase<S>,
}

/// A report as contracts see it.
pub type EventView = Event<Seq<char>>;

/// An action as contracts see it.
pub type ActionView = Action<Seq<char>>;

/// A phase as contracts see it.
pub type PhaseView = Phase<Seq<char>>;

/// A run as contracts see it.
pub type LifecycleView = Lifecycle<Seq<char>>;

/// The view of the result of an operation.
pub open spec fn outcome_view(result: Result<(), ServerManagerError>) -> Result<
    (),
    ErrorView,
> {
    match result {
        Ok(_) => Ok(()),
        Err(error) => Err(error@),
    }
}

/// The view of an optional text.
pub open spec fn text_view(text: Option<String>) -> Option<Seq<char>> {
    match text {
        Some(text) => Some(text@),
        None => None,
    }
}

impl View for Event<String> {
    type V = EventView;

    open spec fn view(&self) -> EventView {
        match self {
            Event::Completed => Event::Completed,
            Event::Text { text } => Event::Text { text: text@ },
            Event::Exited { success, stdout, stderr } => Event::Exited {
                success: *success,
                stdout: stdout@,
                stderr: stderr@,
            },
            Event::Failed { not_found, message } => Event::Failed {
                not_found: *not_found,
                message: message@,
            },
            Event::Refused { code } => Event::Refused { code: *code },
        }
    }
}

impl View for Action<String> {
    type V = ActionView;

    open spec fn view(&self) -> ActionView {
        match self {
            Action::RunHook { hook } => Action::RunHook { hook: *hook },
            Action::CreateDirectory { path } => Action::CreateDirectory { path: path@ },
            Action::WriteFile { path, content } => Action::WriteFile {
                path: path@,
                content: content@,
            },
            Action::ReadFile { path } => Action::ReadFile { path: path@ },
            Action::ResolveExecutable => Action::ResolveExecutable,
            Action::SpawnDaemon { executable, flags } => Action::SpawnDaemon {
                executable: executable@,
                flags: *flags,
            },
            Action::ServeOnRuntime => Action::ServeOnRuntime,
            Action::Signal { pid } => Action::Signal { pid: *pid },
            Action::OpenProcess { process_id, access } => Action::OpenProcess {
                process_id: *process_id,
                access: *access,
            },
            Action::TerminateProcess { exit_code } => Action::TerminateProcess {
                exit_code: *exit_code,
            },
            Action::CloseHandle => Action::CloseHandle,
            Action::ListInstalled => Action::ListInstalled,
            Action::InstallWatcher => Action::InstallWatcher,
            Action::SpawnWatcher => Action::SpawnWatcher,
            Action::AwaitWatcher => Action::AwaitWatcher,
            Action::Print { message } => Action::Print { message: message@ },
            Action::Exit { code } => Action::Exit { code: *code },
            Action::Return { result } => Action::Return { result: outcome_view(*result) },
        }
    }
}

impl View for Phase<String> {
    type V = PhaseView;

    open spec fn view(&self) -> PhaseView {
        match self {
            Phase::Hook => Phase::Hook,
            Phase::CreatingDirectory { path } => Phase::CreatingDirectory { path: path@ },
            Phase::WritingPidFile => Phase::WritingPidFile,
            Phase::Reporting { message } => Phase::Reporting { message: message@ },
            Phase::Serving => Phase::Serving,
            Phase::ServingOnRuntime => Phase::ServingOnRuntime,
            Phase::ResolvingExecutable => Phase::ResolvingExecutable,
            Phase::Spawning { executable } => Phase::Spawning { executable: executable@ },
            Phase::ReadingPidFile => Phase::ReadingPidFile,
            Phase::Signalling { pid } => Phase::Signalling { pid: *pid },
            Phase::Opening { pid, access } => Phase::Opening { pid: *pid, access: *access },
            Phase::Terminating { pid } => Phase::Terminating { pid: *pid },
            Phase::Closing { result } => Phase::Closing { result: outcome_view(*result) },
            Phase::ListingInstalled => Phase::ListingInstalled,
            Phase::AnnouncingInstall => Phase::AnnouncingInstall,
            Phase::Installing => Phase::Installing,
            Phase::AnnouncingInstalled => Phase::AnnouncingInstalled,
            Phase::SpawningWatcher => Phase::SpawningWatcher,
            Phase::AwaitingWatcher => Phase::AwaitingWatcher,
            Phase::Exiting => Phase::Exiting,
            Phase::Done { result } => Phase::Done { result: outcome_view(*result) },
        }
    }
}

impl View for Lifecycle<String> {
    type V = LifecycleView;

    open spec fn view(&self) -> LifecycleView {
        Lifecycle {
            operation: self.operation,
            process: self.process,
            pid_file: self.pid_file@,
            directory: text_view(self.directory),
            phase: self.phase@,
        }
    }
}

/// The error that an operating-system failure becomes: "not found" keeps
/// its kind, every other failure is an I/O error.
pub open spec fn io_failure(not_found: bool, message: Seq<char>) -> ErrorView {
    if not_found {
        ServerManagerError::NotFound { message }
    } else {
        ServerManagerError::Io { message }
    }
}

/// What is printed where a foreground start cannot write the PID file.
pub open spec fn write_diagnostic(message: Seq<char>) -> Seq<char> {
    "Failed to write pid file: "@ + message
}

/// The state in which every run of `operation` on `pid_file` begins: the
/// hook that precedes the operation is pending.
pub open spec fn initial(
    operation: Operation,
    process: Process,
    pid_file: Seq<char>,
    directory: Option<Seq<char>>,
) -> LifecycleView {
    Lifecycle { operation, process, pid_file, directory, phase: Phase::Hook }
}

impl LifecycleView {
    /// The hook that precedes the operation.
    pub open spec fn guard(self) -> HookKind {
        match self.operation {
            Operation::Stop => HookKind::Stop,
            _ => HookKind::Start,
        }
    }

    /// Whether the operation records the own identifier in the PID file.
    pub open spec fn records_pid(self) -> bool {
        self.operation == Operation::Start || (self.operation == Operation::StartDaemon
            && self.process.role == DaemonRole::Child)
    }

    /// Whether the run is the launcher's side of a daemon start.
    pub open spec fn launches(self) -> bool {
        self.operation == Operation::StartDaemon && self.process.role == DaemonRole::Launcher
    }

    /// Whether the run is a stop on the given platform.
    pub open spec fn stops_on(self, platform: Platform) -> bool {
        self.operation == Operation::Stop && self.process.platform == platform
    }

    /// The first phase of writing the PID file: its directory is created
    /// first where the path names one.
    pub open spec fn writing(self) -> PhaseView {
        match self.directory {
            Some(path) => Phase::CreatingDirectory { path },
            None => Phase::WritingPidFile,
        }
    }

    /// The phase that follows the hook.
    pub open spec fn after_hook(self) -> PhaseView {
        match self.operation {
            Operation::Start => self.writing(),
            Operation::Stop => Phase::ReadingPidFile,
            Operation::StartDaemon => match self.process.role {
                DaemonRole::Child => self.writing(),
                DaemonRole::Launcher => Phase::ResolvingExecutable,
            },
            Operation::HotRestart { wait } => Phase::ListingInstalled,
        }
    }

    /// The phase that follows a failure to write the PID file: a
    /// foreground start prints a diagnostic and ends without an error, a
    /// daemon start ends with the error.
    pub open spec fn write_failed(self, not_found: bool, message: Seq<char>) -> PhaseView {
        match self.operation {
            Operation::Start => Phase::Reporting { message: write_diagnostic(message) },
            _ => Phase::Done { result: Err(io_failure(not_found, message)) },
        }
    }

    /// The phase that follows the writing of the PID file: the server
    /// body runs.
    pub open spec fn after_write(self) -> PhaseView {
        match self.operation {
            Operation::Start => Phase::Serving,
            Operation::StartDaemon => Phase::ServingOnRuntime,
            _ => self.phase,
        }
    }

    /// The phase that follows the reading of the PID file: the process
    /// that it names is terminated in the platform's way, or the run ends
    /// because the content names none.
    pub open spec fn after_read(self, content: Seq<char>) -> PhaseView {
        match decoded(content) {
            Ok(pid) => match self.process.platform {
                Platform::Posix => Phase::Signalling { pid },
                Platform::Windows => Phase::Opening { pid, access: PROCESS_TERMINATE },
            },
            Err(error) => Phase::Done { result: Err(error) },
        }
    }

    /// The phase that follows the spawning of the watcher.
    pub open spec fn after_watcher_spawn(self) -> PhaseView {
        match self.operation {
            Operation::HotRestart { wait } => if wait {
                Phase::AwaitingWatcher
            } else {
                Phase::Exiting
            },
            _ => self.phase,
        }
    }

    /// The action that is pending in this state.
    pub open spec fn action(self) -> ActionView {
        match self.phase {
            Phase::Hook => Action::RunHook { hook: self.guard() },
            Phase::CreatingDirectory { path } => Action::CreateDirectory { path },
            Phase::WritingPidFile => Action::WriteFile {
                path: self.pid_file,
                content: encoded(self.process.pid),
            },
            Phase::Reporting { message } => Action::Print { message },
            Phase::Serving => Action::RunHook { hook: HookKind::Server },
            Phase::ServingOnRuntime => Action::ServeOnRuntime,
            Phase::ResolvingExecutable => Action::ResolveExecutable,
            Phase::Spawning { executable } => Action::SpawnDaemon {
                executable,
                flags: creation_flags_of(self.process.platform),
            },
            Phase::ReadingPidFile => Action::ReadFile { path: self.pid_file },
            Phase::Signalling { pid } => Action::Signal { pid },
            Phase::Opening { pid, access } => Action::OpenProcess {
                process_id: process_id_of(pid),
                access,
            },
            Phase::Terminating { pid } => Action::TerminateProcess {
                exit_code: TERMINATION_EXIT_CODE,
            },
            Phase::Closing { result } => Action::CloseHandle,
            Phase::ListingInstalled => Action::ListInstalled,
            Phase::AnnouncingInstall => Action::Print { message: INSTALL_NOTICE@ },
            Phase::Installing => Action::InstallWatcher,
            Phase::AnnouncingInstalled => Action::Print { message: INSTALLED_NOTICE@ },
            Phase::SpawningWatcher => Action::SpawnWatcher,
            Phase::AwaitingWatcher => Action::AwaitWatcher,
            Phase::Exiting => Action::Exit { code: 0 },
            Phase::Done { result } => Action::Return { result },
        }
    }

    /// The phase that the report `event` leads to. A report that does not
    /// answer the pending action leads nowhere: the phase stays.
    pub open spec fn next_phase(self, event: EventView) -> PhaseView {
        match (self.phase, event) {
            (Phase::Hook, Event::Completed) => self.after_hook(),
            (Phase::CreatingDirectory { path }, Event::Completed) => Phase::WritingPidFile,
            (Phase::CreatingDirectory { path }, Event::Failed { not_found, message }) =>
                self.write_failed(not_found, message),
            (Phase::WritingPidFile, Event::Completed) => self.after_write(),
            (Phase::WritingPidFile, Event::Failed { not_found, message }) => self.write_failed(
                not_found,
                message,
            ),
            (Phase::Reporting { message }, Event::Completed) => Phase::Done { result: Ok(()) },
            (Phase::Serving, Event::Completed) => Phase::Done { result: Ok(()) },
            (Phase::ServingOnRuntime, Event::Completed) => Phase::Done { result: Ok(()) },
            (Phase::ServingOnRuntime, Event::Failed { not_found, message }) => Phase::Done {
                result: Err(io_failure(not_found, message)),
            },
            (Phase::ResolvingExecutable, Event::Text { text }) => Phase::Spawning {
                executable: text,
            },
            (Phase::ResolvingExecutable, Event::Failed { not_found, message }) => Phase::Done {
                result: Err(ServerManagerError::Spawn { message }),
            },
            (Phase::Spawning { executable }, Event::Completed) => Phase::Done { result: Ok(()) },
            (Phase::Spawning { executable }, Event::Failed { not_found, message }) => Phase::Done {
                result: Err(ServerManagerError::Spawn { message }),
            },
            (Phase::ReadingPidFile, Event::Text { text }) => self.after_read(text),
            (Phase::ReadingPidFile, Event::Failed { not_found, message }) => Phase::Done {
                result: Err(io_failure(not_found, message)),
            },
            (Phase::Signalling { pid }, Event::Exited { success, stdout, stderr }) => if success {
                Phase::Done { result: Ok(()) }
            } else {
                Phase::Done {
                    result: Err(
                        ServerManagerError::Termination {
                            pid,
                            cause: TerminationCause::Rejected { stderr },
                        },
                    ),
                }
            },
            (Phase::Signalling { pid }, Event::Failed { not_found, message }) => Phase::Done {
                result: Err(
                    ServerManagerError::Termination {
                        pid,
                        cause: TerminationCause::Unavailable { message },
                    },
                ),
            },
            (Phase::Opening { pid, access }, Event::Completed) => Phase::Terminating { pid },
            (Phase::Opening { pid, access }, Event::Refused { code }) => if access
                == PROCESS_TERMINATE {
                Phase::Opening { pid, access: PROCESS_ALL_ACCESS }
            } else {
                Phase::Done {
                    result: Err(
                        ServerManagerError::Termination {
                            pid,
                            cause: TerminationCause::OpenRefused { code },
                        },
                    ),
                }
            },
            (Phase::Terminating { pid }, Event::Completed) => Phase::Closing { result: Ok(()) },
            (Phase::Terminating { pid }, Event::Refused { code }) => Phase::Closing {
                result: Err(
                    ServerManagerError::Termination {
                        pid,
                        cause: TerminationCause::TerminateRefused { code },
                    },
                ),
            },
            (Phase::Closing { result }, Event::Completed) => Phase::Done { result },
            (Phase::Closing { result }, Event::Refused { code }) => Phase::Done { result },
            (Phase::ListingInstalled, Event::Exited { success, stdout, stderr }) => {
                if lists_watcher(stdout) {
                    Phase::SpawningWatcher
                } else {
                    Phase::AnnouncingInstall
                }
            },
            (Phase::ListingInstalled, Event::Failed { not_found, message }) => Phase::Done {
                result: Err(ServerManagerError::Spawn { message }),
            },
            (Phase::AnnouncingInstall, Event::Completed) => Phase::Installing,
            (Phase::Installing, Event::Exited { success, stdout, stderr }) => if success {
                Phase::AnnouncingInstalled
            } else {
                Phase::Done {
                    result: Err(ServerManagerError::Spawn { message: INSTALL_FAILURE@ }),
                }
            },
            (Phase::Installing, Event::Failed { not_found, message }) => Phase::Done {
                result: Err(ServerManagerError::Spawn { message }),
            },
            (Phase::AnnouncingInstalled, Event::Completed) => Phase::SpawningWatcher,
            (Phase::SpawningWatcher, Event::Completed) => self.after_watcher_spawn(),
            (Phase::SpawningWatcher, Event::Failed { not_found, message }) => Phase::Done {
                result: Err(ServerManagerError::Spawn { message }),
            },
            (Phase::AwaitingWatcher, Event::Exited { success, stdout, stderr }) => Phase::Exiting,
            (Phase::AwaitingWatcher, Event::Failed { not_found, message }) => Phase::Done {
                result: Err(io_failure(not_found, message)),
            },
            (phase, _) => phase,
        }
    }

    /// The state that the report `event` leads to: the phase moves, the
    /// rest of the run stays as it is.
    pub open spec fn advance(self, event: EventView) -> LifecycleView {
        Lifecycle { phase: self.next_phase(event), ..self }
    }

    /// Whether the phase is one that the operation can be in. Every run
    /// begins so and stays so.
    pub open spec fn well_formed(self) -> bool {
        match self.phase {
            Phase::Hook => true,
            Phase::CreatingDirectory { path } => self.records_pid() && self.directory == Some(
                path,
            ),
            Phase::WritingPidFile => self.records_pid(),
            Phase::Reporting { message } => self.operation == Operation::Start,
            Phase::Serving => self.operation == Operation::Start,
            Phase::ServingOnRuntime => self.operation == Operation::StartDaemon
                && self.process.role == DaemonRole::Child,
            Phase::ResolvingExecutable => self.launches(),
            Phase::Spawning { executable } => self.launches(),
            Phase::ReadingPidFile => self.operation == Operation::Stop,
            Phase::Signalling { pid } => self.stops_on(Platform::Posix),
            Phase::Opening { pid, access } => self.stops_on(Platform::Windows) && (access
                == PROCESS_TERMINATE || access == PROCESS_ALL_ACCESS),
            Phase::Terminating { pid } => self.stops_on(Platform::Windows),
            Phase::Closing { result } => self.stops_on(Platform::Windows),
            Phase::ListingInstalled => self.operation is HotRestart,
            Phase::AnnouncingInstall => self.operation is HotRestart,
            Phase::Installing => self.operation is HotRestart,
            Phase::AnnouncingInstalled => self.operation is HotRestart,
            Phase::SpawningWatcher => self.operation is HotRestart,
            Phase::AwaitingWatcher => self.operation == (Operation::HotRestart { wait: true }),
            Phase::Exiting => self.operation is HotRestart,
            Phase::Done { result } => true,
        }
    }

    /// The state reached once the caller has reported `events`, in order.
    pub open spec fn after(self, events: Seq<EventView>) -> LifecycleView
        decreases events.len(),
    {
        if events.len() == 0 {
            self
        } else {
            self.after(events.drop_last()).advance(events.last())
        }
    }

    /// The state in which the report `events[k]` arrives: the one reached
    /// after the `k` reports before it.
    pub open spec fn state_at(self, events: Seq<EventView>, k: int) -> LifecycleView {
        self.after(events.take(k))
    }
}

/// The error that an operating-system failure becomes.
pub fn io_error(not_found: bool, message: String) -> (error: ServerManagerError)
    ensures
        error@ == io_failure(not_found, message@),
{
    if not_found {
        ServerManagerError::NotFound { message }
    } else {
        ServerManagerError::Io { message }
    }
}

/// A copy of the result of an operation.
fn copy_outcome(result: &Result<(), ServerManagerError>) -> (copy: Result<(), ServerManagerError>)
    ensures
        copy == *result,
{
    match result {
        Ok(unit) => Ok(*unit),
        Err(error) => Err(error.clone()),
    }
}

/// A copy of an optional text.
fn copy_text(text: &Option<String>) -> (copy: Option<String>)
    ensures
        copy == *text,
{
    match text {
        Some(text) => Some(text.clone()),
        None => None,
    }
}

impl Clone for Event<String> {
    fn clone(&self) -> (copy: Self)
        ensures
            copy == *self,
    {
        match self {
            Event::Completed => Event::Completed,
            Event::Text { text } => Event::Text { text: text.clone() },
            Event::Exited { success, stdout, stderr } => Event::Exited {
                success: *success,
                stdout: stdout.clone(),
                stderr: stderr.clone(),
            },
            Event::Failed { not_found, message } => Event::Failed {
                not_found: *not_found,
                message: message.clone(),
            },
            Event::Refused { code } => Event::Refused { code: *code },
        }
    }
}

impl Clone for Phase<String> {
    fn clone(&self) -> (copy: Self)
        ensures
            copy == *self,
    {
        match self {
            Phase::Hook => Phase::Hook,
            Phase::CreatingDirectory { path } => Phase::CreatingDirectory { path: path.clone() },
            Phase::WritingPidFile => Phase::WritingPidFile,
            Phase::Reporting { message } => Phase::Reporting { message: message.clone() },
            Phase::Serving => Phase::Serving,
            Phase::ServingOnRuntime => Phase::ServingOnRuntime,
            Phase::ResolvingExecutable => Phase::ResolvingExecutable,
            Phase::Spawning { executable } => Phase::Spawning { executable: executable.clone() },
            Phase::ReadingPidFile => Phase::ReadingPidFile,
            Phase::Signalling { pid } => Phase::Signalling { pid: *pid },
            Phase::Opening { pid, access } => Phase::Opening { pid: *pid, access: *access },
            Phase::Terminating { pid } => Phase::Terminating { pid: *pid },
            Phase::Closing { result } => Phase::Closing { result: copy_outcome(result) },
            Phase::ListingInstalled => Phase::ListingInstalled,
            Phase::AnnouncingInstall => Phase::AnnouncingInstall,
            Phase::Installing => Phase::Installing,
            Phase::AnnouncingInstalled => Phase::AnnouncingInstalled,
            Phase::SpawningWatcher => Phase::SpawningWatcher,
            Phase::AwaitingWatcher => Phase::AwaitingWatcher,
            Phase::Exiting => Phase::Exiting,
            Phase::Done { result } => Phase::Done { result: copy_outcome(result) },
        }
    }
}

impl Clone for Lifecycle<String> {
    fn clone(&self) -> (copy: Self)
        ensures
            copy == *self,
    {
        Lifecycle {
            operation: self.operation,
            process: self.process,
            pid_file: self.pid_file.clone(),
            directory: copy_text(&self.directory),
            phase: self.phase.clone(),
        }
    }
}

/// The first phase of writing the PID file.
fn writing_phase(directory: &Option<String>) -> (phase: Phase)
    ensures
        phase@ == (match text_view(*directory) {
            Some(path) => Phase::CreatingDirectory { path },
            None => Phase::WritingPidFile,
        }),
{
    match directory {
        Some(path) => Phase::CreatingDirectory { path: path.clone() },
        None => Phase::WritingPidFile,
    }
}

/// The phase that follows a failure to write the PID file.
fn write_failed_phase(operation: Operation, not_found: bool, message: String) -> (phase: Phase)
    ensures
        phase@ == (match operation {
            Operation::Start => Phase::Reporting { message: write_diagnostic(message@) },
            _ => Phase::Done { result: Err(io_failure(not_found, message@)) },
        }),
{
    match operation {
        Operation::Start => {
            let mut text = "Failed to write pid file: ".to_owned();
            text.append(message.as_str());
            Phase::Reporting { message: text }
        },
        _ => Phase::Done { result: Err(io_error(not_found, message)) },
    }
}

impl Lifecycle<String> {
    /// Begins a run of `operation` by `process` on the PID file at
    /// `pid_file`; `directory` is created before the file is written.
    pub fn begin(
        operation: Operation,
        process: Process,
        pid_file: String,
        directory: Option<String>,
    ) -> (run: Self)
        ensures
            run@ == initial(operation, process, pid_file@, text_view(directory)),
            run@.well_formed(),
    {
        Lifecycle { operation, process, pid_file, directory, phase: Phase::Hook }
    }

    /// The action that is pending: what the caller is to do next.
    pub fn action(&self) -> (action: Action)
        ensures
            action@ == self@.action(),
    {
        match &self.phase {
            Phase::Hook => match self.operation {
                Operation::Stop => Action::RunHook { hook: HookKind::Stop },
                _ => Action::RunHook { hook: HookKind::Start },
            },
            Phase::CreatingDirectory { path } => Action::CreateDirectory { path: path.clone() },
            Phase::WritingPidFile => Action::WriteFile {
                path: self.pid_file.clone(),
                content: encode(self.process.pid),
            },
            Phase::Reporting { message } => Action::Print { message: message.clone() },
            Phase::Serving => Action::RunHook { hook: HookKind::Server },
            Phase::ServingOnRuntime => Action::ServeOnRuntime,
            Phase::ResolvingExecutable => Action::ResolveExecutable,
            Phase::Spawning { executable } => Action::SpawnDaemon {
                executable: executable.clone(),
                flags: creation_flags(self.process.platform),
            },
            Phase::ReadingPidFile => Action::ReadFile { path: self.pid_file.clone() },
            Phase::Signalling { pid } => Action::Signal { pid: *pid },
            Phase::Opening { pid, access } => Action::OpenProcess {
                process_id: process_id(*pid),
                access: *access,
            },
            Phase::Terminating { pid } => Action::TerminateProcess {
                exit_code: TERMINATION_EXIT_CODE,
            },
            Phase::Closing { result } => Action::CloseHandle,
            Phase::ListingInstalled => Action::ListInstalled,
            Phase::AnnouncingInstall => Action::Print { message: INSTALL_NOTICE.to_owned() },
            Phase::Installing => Action::InstallWatcher,
            Phase::AnnouncingInstalled => Action::Print { message: INSTALLED_NOTICE.to_owned() },
            Phase::SpawningWatcher => Action::SpawnWatcher,
            Phase::AwaitingWatcher => Action::AwaitWatcher,
            Phase::Exiting => Action::Exit { code: 0 },
            Phase::Done { result } => Action::Return { result: copy_outcome(result) },
        }
    }

    /// Takes the report `event` of what came of the pending action and
    /// moves to the next state.
    pub fn advance(self, event: Event) -> (next: Self)
        ensures
            next@ == self@.advance(event@),
            self@.well_formed() ==> next@.well_formed(),
    {
        let Lifecycle { operation, process, pid_file, directory, phase } = self;
        let next = match (phase, event) {
            (Phase::Hook, Event::Completed) => match operation {
                Operation::Start => writing_phase(&directory),
                Operation::Stop => Phase::ReadingPidFile,
                Operation::StartDaemon => match process.role {
                    DaemonRole::Child => writing_phase(&directory),
                    DaemonRole::Launcher => Phase::ResolvingExecutable,
                },
                Operation::HotRestart { wait } => Phase::ListingInstalled,
            },
            (Phase::CreatingDirectory { path }, Event::Completed) => Phase::WritingPidFile,
            (Phase::CreatingDirectory { path }, Event::Failed { not_found, message }) =>
                write_failed_phase(operation, not_found, message),
            (Phase::WritingPidFile, Event::Completed) => match operation {
                Operation::Start => Phase::Serving,
                Operation::StartDaemon => Phase::ServingOnRuntime,
                _ => Phase::WritingPidFile,
            },
            (Phase::WritingPidFile, Event::Failed { not_found, message }) => write_failed_phase(
                operation,
                not_found,
                message,
            ),
            (Phase::Reporting { message }, Event::Completed) => Phase::Done { result: Ok(()) },
            (Phase::Serving, Event::Completed) => Phase::Done { result: Ok(()) },
            (Phase::ServingOnRuntime, Event::Completed) => Phase::Done { result: Ok(()) },
            (Phase::ServingOnRuntime, Event::Failed { not_found, message }) => Phase::Done {
                result: Err(io_error(not_found, message)),
            },
            (Phase::ResolvingExecutable, Event::Text { text }) => Phase::Spawning {
                executable: text,
            },
            (Phase::ResolvingExecutable, Event::Failed { not_found, message }) => Phase::Done {
                result: Err(ServerManagerError::Spawn { message }),
            },
            (Phase::Spawning { executable }, Event::Completed) => Phase::Done { result: Ok(()) },
            (Phase::Spawning { executable }, Event::Failed { not_found, message }) => Phase::Done {
                result: Err(ServerManagerError::Spawn { message }),
            },
            (Phase::ReadingPidFile, Event::Text { text }) => match decode(text.as_str()) {
                Ok(pid) => match process.platform {
                    Platform::Posix => Phase::Signalling { pid },
                    Platform::Windows => Phase::Opening { pid, access: PROCESS_TERMINATE },
                },
                Err(error) => Phase::Done { result: Err(error) },
            },
            (Phase::ReadingPidFile, Event::Failed { not_found, message }) => Phase::Done {
                result: Err(io_error(not_found, message)),
            },
            (Phase::Signalling { pid }, Event::Exited { success, stdout, stderr }) => if success {
                Phase::Done { result: Ok(()) }
            } else {
                Phase::Done {
                    result: Err(
                        ServerManagerError::Termination {
                            pid,
                            cause: TerminationCause::Rejected { stderr },
                        },
                    ),
                }
            },
            (Phase::Signalling { pid }, Event::Failed { not_found, message }) => Phase::Done {
                result: Err(
                    ServerManagerError::Termination {
                        pid,
                        cause: TerminationCause::Unavailable { message },
                    },
                ),
            },
            (Phase::Opening { pid, access }, Event::Completed) => Phase::Terminating { pid },
            (Phase::Opening { pid, access }, Event::Refused { code }) => if access
                == PROCESS_TERMINATE {
                Phase::Opening { pid, access: PROCESS_ALL_ACCESS }
            } else {
                Phase::Done {
                    result: Err(
                        ServerManagerError::Termination {
                            pid,
                            cause: TerminationCause::OpenRefused { code },
                        },
                    ),
                }
            },
            (Phase::Terminating { pid }, Event::Completed) => Phase::Closing { result: Ok(()) },
            (Phase::Terminating { pid }, Event::Refused { code }) => Phase::Closing {
                result: Err(
                    ServerManagerError::Termination {
                        pid,
                        cause: TerminationCause::TerminateRefused { code },
                    },
                ),
            },
            (Phase::Closing { result }, Event::Completed) => Phase::Done { result },
            (Phase::Closing { result }, Event::Refused { code }) => Phase::Done { result },
            (Phase::ListingInstalled, Event::Exited { success, stdout, stderr }) => {
                if is_installed(stdout.as_str()) {
                    Phase::SpawningWatcher
                } else {
                    Phase::AnnouncingInstall
                }
            },
            (Phase::ListingInstalled, Event::Failed { not_found, message }) => Phase::Done {
                result: Err(ServerManagerError::Spawn { message }),
            },
            (Phase::AnnouncingInstall, Event::Completed) => Phase::Installing,
            (Phase::Installing, Event::Exited { success, stdout, stderr }) => if success {
                Phase::AnnouncingInstalled
            } else {
                Phase::Done {
                    result: Err(ServerManagerError::Spawn { message: INSTALL_FAILURE.to_owned() }),
                }
            },
            (Phase::Installing, Event::Failed { not_found, message }) => Phase::Done {
                result: Err(ServerManagerError::Spawn { message }),
            },
            (Phase::AnnouncingInstalled, Event::Completed) => Phase::SpawningWatcher,
            (Phase::SpawningWatcher, Event::Completed) => match operation {
                Operation::HotRestart { wait } => if wait {
                    Phase::AwaitingWatcher
                } else {
                    Phase::Exiting
                },
                _ => Phase::SpawningWatcher,
            },
            (Phase::SpawningWatcher, Event::Failed { not_found, message }) => Phase::Done {
                result: Err(ServerManagerError::Spawn { message }),
            },
            (Phase::AwaitingWatcher, Event::Exited { success, stdout, stderr }) => Phase::Exiting,
            (Phase::AwaitingWatcher, Event::Failed { not_found, message }) => Phase::Done {
                result: Err(io_error(not_found, message)),
            },
            (phase, _) => phase,
        };
        Lifecycle { operation, process, pid_file, directory, phase: next }
    }
}

} // verus!
