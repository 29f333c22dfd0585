//! The failures that the terminal bridge reports to its caller.

use crate::text::{chained, decimal, decimal_text};
use vstd::prelude::*;
use vstd::string::*;

verus! {

/// Why an operation of the bridge did not succeed. Every variant that
/// carries text carries the complete message for the user.
#[derive(Debug, Clone, PartialEq, Eq)]
pub enum TerminalError {
    /// The shell or one of its pipes or pseudo-consoles could not be created.
    Spawn(String),
    /// The requested directory is missing or cannot be resolved.
    Path(String),
    /// The operation, named here, needs a running session and there is none.
    NoActiveProcess(WriteOperation),
    /// Writing to the session's input failed.
    Write(String),
    /// Reading a finished command's output failed.
    Read(String),
}

/// The step of a launch that failed.
#[derive(Debug, Clone, Copy, PartialEq, Eq)]
pub enum SpawnFailure {
    /// A pipe could not be created.
    Pipes,
    /// The pseudo-console could not be created; the system's result code.
    PseudoConsole(i32),
    /// The process attribute list could not be initialised.
    AttributeList,
    /// The pseudo-console could not be attached to the attribute list.
    AttributeUpdate,
    /// The shell process could not be created.
    Process,
    /// A launch received an answer that does not belong to its current step.
    Protocol,
}

/// The message of each launch failure.
pub open spec fn spawn_failure_text(failure: SpawnFailure) -> Seq<char> {
    match failure {
        SpawnFailure::Pipes => "Failed to create pipes"@,
        SpawnFailure::PseudoConsole(code) => "Failed to create pseudo console: "@ + decimal_text(
            code as int,
        ),
        SpawnFailure::AttributeList => "Failed to initialize attribute list"@,
        SpawnFailure::AttributeUpdate => "Failed to update attribute list"@,
        SpawnFailure::Process => "Failed to create process"@,
        SpawnFailure::Protocol => "Unexpected answer during launch"@,
    }
}

/// An operation that writes to the session.
#[derive(Debug, Clone, Copy, PartialEq, Eq)]
pub enum WriteOperation {
    /// A line of input.
    Input,
    /// The command that changes the shell's directory.
    DirectoryChange,
    /// The sequence that clears the screen.
    Clear,
    /// The interrupt control character.
    Interrupt,
    /// The newline that follows an interrupt.
    Newline,
    /// The flush after any of them.
    Flush,
}

/// The words that start the message of a failed write.
pub open spec fn write_failure_prefix(operation: WriteOperation) -> Seq<char> {
    match operation {
        WriteOperation::Input => "Failed to write to PTY: "@,
        WriteOperation::DirectoryChange => "Failed to change directory: "@,
        WriteOperation::Clear => "Failed to clear terminal: "@,
        WriteOperation::Interrupt => "Failed to send kill signal: "@,
        WriteOperation::Newline => "Failed to send newline: "@,
        WriteOperation::Flush => "Failed to flush PTY: "@,
    }
}

/// The message that a session operation reports while no session runs:
/// input has a message of its own, every other operation reports that the
/// session's writer is missing.
pub open spec fn no_active_process_text(operation: WriteOperation) -> Seq<char> {
    match operation {
        WriteOperation::Input => "No active process to send input to"@,
        _ => "PTY writer not initialized"@,
    }
}

/// The message of each error.
pub open spec fn error_text(error: TerminalError) -> Seq<char> {
    match error {
        TerminalError::Spawn(text) => text@,
        TerminalError::Path(text) => text@,
        TerminalError::NoActiveProcess(operation) => no_active_process_text(operation),
        TerminalError::Write(text) => text@,
        TerminalError::Read(text) => text@,
    }
}

impl SpawnFailure {
    /// The message for the user.
    pub fn message(&self) -> (text: String)
        ensures
            text@ == spawn_failure_text(*self),
    {
        match self {
            SpawnFailure::Pipes => String::from_str("Failed to create pipes"),
            SpawnFailure::PseudoConsole(code) => {
                let number = decimal(*code);
                chained("Failed to create pseudo console: ", number.as_str())
            },
            SpawnFailure::AttributeList => String::from_str("Failed to initialize attribute list"),
            SpawnFailure::AttributeUpdate => String::from_str("Failed to update attribute list"),
            SpawnFailure::Process => String::from_str("Failed to create process"),
            SpawnFailure::Protocol => String::from_str("Unexpected answer during launch"),
        }
    }

    /// The failure as an error of the bridge.
    pub fn into_error(self) -> (error: TerminalError)
        ensures
            error matches TerminalError::Spawn(text) && text@ == spawn_failure_text(self),
    {
        TerminalError::Spawn(self.message())
    }
}

impl TerminalError {
    /// The message for the user.
    pub fn message(&self) -> (text: String)
        ensures
            text@ == error_text(*self),
    {
        match self {
            TerminalError::Spawn(text) => text.clone(),
            TerminalError::Path(text) => text.clone(),
            TerminalError::NoActiveProcess(operation) => match operation {
                WriteOperation::Input => String::from_str("No active process to send input to"),
                _ => String::from_str("PTY writer not initialized"),
            },
            TerminalError::Write(text) => text.clone(),
            TerminalError::Read(text) => text.clone(),
        }
    }

    /// The shell could not be started; `detail` is the system's description.
    pub fn command_failed(detail: &str) -> (error: TerminalError)
        ensures
            error matches TerminalError::Spawn(text) && text@ == "Command execution failed: "@
                + detail@,
    {
        TerminalError::Spawn(chained("Command execution failed: ", detail))
    }

    /// The target of a directory change could not be resolved.
    pub fn path_unresolved(detail: &str) -> (error: TerminalError)
        ensures
            error matches TerminalError::Path(text) && text@ == "Path error: "@ + detail@,
    {
        TerminalError::Path(chained("Path error: ", detail))
    }

    /// The resolved directory could not be entered.
    pub fn directory_not_entered(detail: &str) -> (error: TerminalError)
        ensures
            error matches TerminalError::Path(text) && text@ == "cd error: "@ + detail@,
    {
        TerminalError::Path(chained("cd error: ", detail))
    }

    /// The current directory could not be read.
    pub fn current_dir_unknown(detail: &str) -> (error: TerminalError)
        ensures
            error matches TerminalError::Path(text) && text@ == "Current directory error: "@
                + detail@,
    {
        TerminalError::Path(chained("Current directory error: ", detail))
    }

    /// `~` was requested and the user has no home directory.
    pub fn home_not_found() -> (error: TerminalError)
        ensures
            error matches TerminalError::Path(text) && text@ == "Home directory not found"@,
    {
        TerminalError::Path(String::from_str("Home directory not found"))
    }

    /// Writing to the session failed.
    pub fn write_failed(detail: &str) -> (error: TerminalError)
        ensures
            error matches TerminalError::Write(text) && text@ == "Write error: "@ + detail@,
    {
        TerminalError::Write(chained("Write error: ", detail))
    }

    /// Writing `operation` to the session failed; `detail` is the system's description.
    pub fn write_interrupted(operation: WriteOperation, detail: &str) -> (error: TerminalError)
        ensures
            error matches TerminalError::Write(text) && text@ == write_failure_prefix(operation)
                + detail@,
    {
        let prefix = match operation {
            WriteOperation::Input => "Failed to write to PTY: ",
            WriteOperation::DirectoryChange => "Failed to change directory: ",
            WriteOperation::Clear => "Failed to clear terminal: ",
            WriteOperation::Interrupt => "Failed to send kill signal: ",
            WriteOperation::Newline => "Failed to send newline: ",
            WriteOperation::Flush => "Failed to flush PTY: ",
        };
        TerminalError::Write(chained(prefix, detail))
    }

    /// Waiting for a finished command's output failed.
    pub fn wait_failed(detail: &str) -> (error: TerminalError)
        ensures
            error matches TerminalError::Read(text) && text@ == "Failed to wait for process: "@
                + detail@,
    {
        TerminalError::Read(chained("Failed to wait for process: ", detail))
    }
}

} // verus!
