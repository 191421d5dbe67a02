//! The failures that managing a server process can end in.

use crate::decimal::{decimal, i32_to_decimal, signed_decimal, u32_to_decimal, IntegerFault};
use vstd::prelude::*;

verus! {

/// Why a process could not be terminated.
#[derive(Debug, PartialEq, Eq)]
pub enum TerminationCause<S = String> {
    /// The `kill` utility ran and reported failure; `stderr` is what it
    /// printed.
    Rejected { stderr: S },
    /// The `kill` utility could not be run.
    Unavailable { message: S },
    /// No handle to the process could be opened; `code` is the platform's
    /// error code.
    OpenRefused { code: u32 },
    /// A handle was opened and the platform refused to terminate the
    /// process; `code` is the platform's error code.
    TerminateRefused { code: u32 },
}

/// Error type for server management operations.
///
/// `S` is the type of the texts that an error carries: `String` in running
/// code, `Seq<char>` in contracts and proofs.
#[derive(Debug, PartialEq, Eq)]
pub enum ServerManagerError<S = String> {
    /// A file that was to be read or written does not exist.
    NotFound { message: S },
    /// Any other failure of the file system or of the operating system.
    Io { message: S },
    /// The PID file does not hold a process identifier.
    Malformed { content: S, fault: IntegerFault },
    /// A child process could not be launched.
    Spawn { message: S },
    /// The process `pid` could not be terminated.
    Termination { pid: i32, cause: TerminationCause<S> },
}

/// An error as contracts see it.
pub type ErrorView = ServerManagerError<Seq<char>>;

/// Result type for server management operations.
pub type ServerManagerResult = Result<(), ServerManagerError>;

impl View for TerminationCause<String> {
    type V = TerminationCause<Seq<char>>;

    open spec fn view(&self) -> TerminationCause<Seq<char>> {
        match self {
            TerminationCause::Rejected { stderr } => TerminationCause::Rejected { stderr: stderr@ },
            TerminationCause::Unavailable { message } => TerminationCause::Unavailable {
                message: message@,
            },
            TerminationCause::OpenRefused { code } => TerminationCause::OpenRefused { code: *code },
            TerminationCause::TerminateRefused { code } => TerminationCause::TerminateRefused {
                code: *code,
            },
        }
    }
}

impl View for ServerManagerError<String> {
    type V = ServerManagerError<Seq<char>>;

    open spec fn view(&self) -> ServerManagerError<Seq<char>> {
        match self {
            ServerManagerError::NotFound { message } => ServerManagerError::NotFound {
                message: message@,
            },
            ServerManagerError::Io { message } => ServerManagerError::Io { message: message@ },
            ServerManagerError::Malformed { content, fault } => ServerManagerError::Malformed {
                content: content@,
                fault: *fault,
            },
            ServerManagerError::Spawn { message } => ServerManagerError::Spawn {
                message: message@,
            },
            ServerManagerError::Termination { pid, cause } => ServerManagerError::Termination {
                pid: *pid,
                cause: cause@,
            },
        }
    }
}

impl Clone for TerminationCause<String> {
    fn clone(&self) -> (copy: Self)
        ensures
            copy == *self,
    {
        match self {
            TerminationCause::Rejected { stderr } => TerminationCause::Rejected {
                stderr: stderr.clone(),
            },
            TerminationCause::Unavailable { message } => TerminationCause::Unavailable {
                message: message.clone(),
            },
            TerminationCause::OpenRefused { code } => TerminationCause::OpenRefused { code: *code },
            TerminationCause::TerminateRefused { code } => TerminationCause::TerminateRefused {
                code: *code,
            },
        }
    }
}

impl Clone for ServerManagerError<String> {
    fn clone(&self) -> (copy: Self)
        ensures
            copy == *self,
    {
        match self {
            ServerManagerError::NotFound { message } => ServerManagerError::NotFound {
                message: message.clone(),
            },
            ServerManagerError::Io { message } => ServerManagerError::Io {
                message: message.clone(),
            },
            ServerManagerError::Malformed { content, fault } => ServerManagerError::Malformed {
                content: content.clone(),
                fault: *fault,
            },
            ServerManagerError::Spawn { message } => ServerManagerError::Spawn {
                message: message.clone(),
            },
            ServerManagerError::Termination { pid, cause } => ServerManagerError::Termination {
                pid: *pid,
                cause: cause.clone(),
            },
        }
    }
}

/// The view of a result whose error is a [`ServerManagerError`].
pub open spec fn result_view<T>(result: Result<T, ServerManagerError>) -> Result<T, ErrorView> {
    match result {
        Ok(value) => Ok(value),
        Err(error) => Err(error@),
    }
}

/// The sentence that describes why a text is no 32-bit integer.
pub open spec fn fault_text(fault: IntegerFault) -> Seq<char> {
    match fault {
        IntegerFault::Empty => "cannot parse integer from empty string"@,
        IntegerFault::InvalidDigit => "invalid digit found in string"@,
        IntegerFault::PosOverflow => "number too large to fit in target type"@,
        IntegerFault::NegOverflow => "number too small to fit in target type"@,
    }
}

impl ServerManagerError<Seq<char>> {
    /// The sentence that describes this error.
    pub open spec fn sentence(self) -> Seq<char> {
        match self {
            ServerManagerError::NotFound { message } => message,
            ServerManagerError::Io { message } => message,
            ServerManagerError::Malformed { content, fault } => fault_text(fault),
            ServerManagerError::Spawn { message } => message,
            ServerManagerError::Termination { pid, cause } => match cause {
                TerminationCause::Rejected { stderr } => "Failed to kill process with pid: "@
                    + signed_decimal(pid as int) + ", error: "@ + stderr,
                TerminationCause::Unavailable { message } => "Failed to execute kill command: "@
                    + message,
                TerminationCause::OpenRefused { code } => "Failed to open process with pid: "@
                    + signed_decimal(pid as int) + ". Error code: "@ + decimal(code as nat),
                TerminationCause::TerminateRefused { code } =>
                    "Failed to terminate process with pid: "@ + signed_decimal(pid as int)
                        + ". Error code: "@ + decimal(code as nat),
            },
        }
    }
}

/// The sentence that describes why a text is no 32-bit integer.
pub fn describe_fault(fault: IntegerFault) -> (text: &'static str)
    ensures
        text@ == fault_text(fault),
{
    match fault {
        IntegerFault::Empty => "cannot parse integer from empty string",
        IntegerFault::InvalidDigit => "invalid digit found in string",
        IntegerFault::PosOverflow => "number too large to fit in target type",
        IntegerFault::NegOverflow => "number too small to fit in target type",
    }
}

impl ServerManagerError<String> {
    /// The sentence that describes this error.
    pub fn message(&self) -> (text: String)
        ensures
            text@ == self@.sentence(),
    {
        match self {
            ServerManagerError::NotFound { message } => message.clone(),
            ServerManagerError::Io { message } => message.clone(),
            ServerManagerError::Malformed { content, fault } => describe_fault(*fault).to_owned(),
            ServerManagerError::Spawn { message } => message.clone(),
            ServerManagerError::Termination { pid, cause } => match cause {
                TerminationCause::Rejected { stderr } => {
                    let mut text = "Failed to kill process with pid: ".to_owned();
                    text.append(i32_to_decimal(*pid).as_str());
                    text.append(", error: ");
                    text.append(stderr.as_str());
                    text
                },
                TerminationCause::Unavailable { message } => {
                    let mut text = "Failed to execute kill command: ".to_owned();
                    text.append(message.as_str());
                    text
                },
                TerminationCause::OpenRefused { code } => {
                    let mut text = "Failed to open process with pid: ".to_owned();
                    text.append(i32_to_decimal(*pid).as_str());
                    text.append(". Error code: ");
                    text.append(u32_to_decimal(*code).as_str());
                    text
                },
                TerminationCause::TerminateRefused { code } => {
                    let mut text = "Failed to terminate process with pid: ".to_owned();
                    text.append(i32_to_decimal(*pid).as_str());
                    text.append(". Error code: ");
                    text.append(u32_to_decimal(*code).as_str());
                    text
                },
            },
        }
    }
}

} // verus!
