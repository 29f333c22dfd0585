//! From a command line to the way it is run: a directory change, a
//! blocking command, or a streaming one, and the shell invocation for each.

use crate::error::TerminalError;
use crate::path::{extended_path, get_extended_path, Platform};
use crate::session::{
    handle_release, started, teardown_of_slot, LifecycleEvent, PtySize, PtyState, Release,
    Session,
};
use crate::text::{chained, first_word, leading_words, same_text, second_word};
use vstd::prelude::*;
use vstd::string::*;

verus! {

/// How a command that is no directory change is run.
#[derive(Debug, Clone, Copy, PartialEq, Eq)]
pub enum RunPlan {
    /// On pipes; the caller waits for the end and gets the whole output.
    Blocking,
    /// On pipes; output is published as it comes.
    PipeStream,
    /// Behind a pseudo-console; output is published as it comes.
    PtyStream,
}

/// What a command line asks for.
#[derive(Debug, Clone, PartialEq, Eq)]
pub enum CommandRequest {
    /// Change the working directory to this target, as typed.
    ChangeDirectory(String),
    /// Run the whole command line in a shell.
    Run { command: String, plan: RunPlan },
}

/// The way to run a command: streaming where `realtime` asks for it, behind
/// a pseudo-console where the host has one and on pipes where it has none;
/// blocking otherwise.
pub open spec fn run_plan(realtime: Option<bool>, platform: Platform) -> RunPlan {
    if realtime == Some(true) {
        match platform {
            Platform::Windows => RunPlan::PtyStream,
            Platform::Unix => RunPlan::PipeStream,
        }
    } else {
        RunPlan::Blocking
    }
}

/// The target of a `cd` command line: its second word, or `~` where it has none.
pub open spec fn cd_argument(command: Seq<char>) -> Seq<char> {
    if second_word(command).len() == 0 {
        "~"@
    } else {
        second_word(command)
    }
}

/// What `command` asks for. A command line whose first word is `cd` is a
/// directory change; every other one is run as a whole.
pub fn execute_command(command: &str, realtime: Option<bool>, platform: Platform) -> (request:
    CommandRequest)
    ensures
        match request {
            CommandRequest::ChangeDirectory(target) => first_word(command@) == "cd"@ && target@
                == cd_argument(command@),
            CommandRequest::Run { command: line, plan } => first_word(command@) != "cd"@ && line@
                == command@ && plan == run_plan(realtime, platform),
        },
{
    let (first, second) = leading_words(command);
    if same_text(first.as_str(), "cd") {
        if second.as_str().unicode_len() == 0 {
            CommandRequest::ChangeDirectory(String::from_str("~"))
        } else {
            CommandRequest::ChangeDirectory(second)
        }
    } else {
        let streaming = match realtime {
            Some(flag) => flag,
            None => false,
        };
        let plan = if streaming {
            match platform {
                Platform::Windows => RunPlan::PtyStream,
                Platform::Unix => RunPlan::PipeStream,
            }
        } else {
            RunPlan::Blocking
        };
        CommandRequest::Run { command: String::from_str(command), plan }
    }
}

/// A shell invocation on pipes. All three standard streams are piped.
#[derive(Debug, Clone, PartialEq, Eq)]
pub struct ShellCommand {
    /// The shell to start.
    pub program: String,
    /// The flag that makes the shell run one command line.
    pub flag: String,
    /// The command line.
    pub script: String,
    /// The directory to start the shell in.
    pub current_dir: String,
    /// The value of `PATH` for the shell.
    pub search_path: String,
    /// The inherited variable that the shell must not see.
    pub removed_variable: String,
}

/// The name of the shell of a host.
pub open spec fn shell_program(platform: Platform) -> Seq<char> {
    match platform {
        Platform::Windows => "cmd"@,
        Platform::Unix => "sh"@,
    }
}

/// The flag that makes the shell of a host run one command line.
pub open spec fn shell_flag(platform: Platform) -> Seq<char> {
    match platform {
        Platform::Windows => "/C"@,
        Platform::Unix => "-c"@,
    }
}

/// The variable that would make the shell's children take the host
/// application's runtime for their own.
pub open spec fn removed_variable() -> Seq<char> {
    "ELECTRON_RUN_AS_NODE"@
}

/// The shell invocation that runs `command` in `current_dir` with the
/// search path `search_path`.
pub fn shell_command(command: &str, platform: Platform, current_dir: &str, search_path: &str) -> (shell:
    ShellCommand)
    ensures
        shell.program@ == shell_program(platform),
        shell.flag@ == shell_flag(platform),
        shell.script@ == command@,
        shell.current_dir@ == current_dir@,
        shell.search_path@ == search_path@,
        shell.removed_variable@ == removed_variable(),
{
    let (program, flag) = match platform {
        Platform::Windows => (String::from_str("cmd"), String::from_str("/C")),
        Platform::Unix => (String::from_str("sh"), String::from_str("-c")),
    };
    ShellCommand {
        program,
        flag,
        script: String::from_str(command),
        current_dir: String::from_str(current_dir),
        search_path: String::from_str(search_path),
        removed_variable: String::from_str("ELECTRON_RUN_AS_NODE"),
    }
}

/// The shell invocation that runs `command` in `current_dir` on this
/// machine: its search path is the inherited one, `inherited_path`,
/// extended for the home directory that the environment names, or for none.
pub fn handle_regular_command(
    command: &str,
    platform: Platform,
    current_dir: &str,
    inherited_path: &str,
) -> (shell: ShellCommand)
    ensures
        shell.program@ == shell_program(platform),
        shell.flag@ == shell_flag(platform),
        shell.script@ == command@,
        shell.current_dir@ == current_dir@,
        exists|home: Option<Seq<char>>|
            shell.search_path@ == extended_path(inherited_path@, home, platform),
        shell.removed_variable@ == removed_variable(),
{
    let search_path = get_extended_path(inherited_path, platform);
    shell_command(command, platform, current_dir, search_path.as_str())
}

/// The command line that runs `command` behind a pseudo-console.
pub fn pty_command_line(command: &str) -> (line: String)
    ensures
        line@ == "cmd.exe /C "@ + command@,
{
    chained("cmd.exe /C ", command)
}

/// The shell of an interactive session and the size of its pseudo-terminal.
#[derive(Debug, Clone, PartialEq, Eq)]
pub struct InteractiveShell {
    pub program: String,
    pub arguments: Vec<String>,
    pub size: PtySize,
}

/// The interactive shell: PowerShell, kept open after a first command that
/// switches its console to UTF-8, on a pseudo-terminal of 24 rows and 80
/// columns.
pub fn interactive_shell() -> (shell: InteractiveShell)
    ensures
        shell.program@ == "powershell.exe"@,
        shell.arguments@.len() == 3,
        shell.arguments@[0]@ == "-NoExit"@,
        shell.arguments@[1]@ == "-Command"@,
        shell.arguments@[2]@ == "chcp 65001"@,
        shell.size == (PtySize { rows: 24, cols: 80, pixel_width: 0, pixel_height: 0 }),
{
    let mut arguments: Vec<String> = Vec::new();
    arguments.push(String::from_str("-NoExit"));
    arguments.push(String::from_str("-Command"));
    arguments.push(String::from_str("chcp 65001"));
    InteractiveShell {
        program: String::from_str("powershell.exe"),
        arguments,
        size: PtySize { rows: 24, cols: 80, pixel_width: 0, pixel_height: 0 },
    }
}

/// What to do once a streaming shell on pipes is registered.
#[derive(Debug, Clone, PartialEq, Eq)]
pub struct StreamingPlan {
    /// The releases that tear the previous session down, in order.
    pub release: Vec<Release>,
    /// The notice to publish.
    pub event: LifecycleEvent,
    /// The stream to pump as standard output.
    pub stdout: usize,
    /// The stream to pump as error output.
    pub stderr: usize,
}

/// A shell that was started and cannot be used.
#[derive(Debug, Clone, PartialEq, Eq)]
pub struct LaunchFailure {
    pub error: TerminalError,
    /// The releases that give back what was started, in order.
    pub release: Vec<Release>,
}

/// Giving back a shell on pipes that cannot be used: end the process, then
/// close its input, the output streams that exist and the process handle.
pub open spec fn discard_plan(
    process: usize,
    input: usize,
    stdout: Option<usize>,
    stderr: Option<usize>,
) -> Seq<Release> {
    seq![Release::Terminate(process), Release::CloseHandle(input)] + handle_release(stdout)
        + handle_release(stderr) + seq![Release::CloseHandle(process)]
}

/// The message for a shell whose output stream is missing.
pub open spec fn capture_failure_text(stdout: Option<usize>) -> Seq<char> {
    if stdout is None {
        "Failed to capture stdout"@
    } else {
        "Failed to capture stderr"@
    }
}

/// Registers a streaming shell on pipes as the running session.
///
/// With both output streams at hand the shell becomes the running session,
/// in place of any other, which is torn down. Where a stream is missing the
/// registry stays as it is, and the failure lists the releases that give
/// the new shell back.
pub fn handle_streaming_process(
    state: &mut PtyState,
    process: usize,
    input: usize,
    stdout: Option<usize>,
    stderr: Option<usize>,
) -> (result: Result<StreamingPlan, LaunchFailure>)
    ensures
        match (stdout, stderr) {
            (Some(out), Some(err)) => final(state)@ == started(
                old(state)@,
                Session { process, pty: None, input },
            ) && (result matches Ok(plan) && plan.release@ == teardown_of_slot(old(state)@)
                && plan.event == (LifecycleEvent { active: true }) && plan.stdout == out
                && plan.stderr == err),
            _ => final(state)@ == old(state)@ && (result matches Err(failure) && failure.release@
                == discard_plan(process, input, stdout, stderr) && (failure.error matches TerminalError::Spawn(
                text,
            ) && text@ == capture_failure_text(stdout))),
        },
{
    match (stdout, stderr) {
        (Some(out), Some(err)) => {
            let report = state.start_process(Session { process, pty: None, input });
            Ok(StreamingPlan { release: report.release, event: report.event, stdout: out, stderr: err })
        },
        _ => {
            let mut release: Vec<Release> = Vec::new();
            release.push(Release::Terminate(process));
            release.push(Release::CloseHandle(input));
            match stdout {
                Some(handle) => {
                    release.push(Release::CloseHandle(handle));
                },
                None => {},
            }
            match stderr {
                Some(handle) => {
                    release.push(Release::CloseHandle(handle));
                },
                None => {},
            }
            release.push(Release::CloseHandle(process));
            proof {
                assert(release@ =~= discard_plan(process, input, stdout, stderr));
            }
            let text = match stdout {
                None => String::from_str("Failed to capture stdout"),
                Some(_) => String::from_str("Failed to capture stderr"),
            };
            Err(LaunchFailure { error: TerminalError::Spawn(text), release })
        },
    }
}

} // verus!
