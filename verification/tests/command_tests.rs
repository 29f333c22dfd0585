use terminal_bridge::command::{
    execute_command, handle_regular_command, handle_streaming_process, interactive_shell,
    pty_command_line, shell_command, CommandRequest, LaunchFailure, RunPlan, ShellCommand,
    StreamingPlan,
};
use terminal_bridge::error::{TerminalError, WriteOperation};
use terminal_bridge::path::Platform;
use terminal_bridge::pump::{pump_step, PumpStep, ReadOutcome, StreamKind};
use terminal_bridge::session::{
    LifecycleEvent, MonitorStep, ProcessPoll, PtySize, PtyState, Release, Session,
};

#[test]
fn cd_with_target() {
    assert_eq!(
        execute_command("cd /tmp", None, Platform::Unix),
        CommandRequest::ChangeDirectory("/tmp".to_string())
    );
    assert_eq!(
        execute_command("  cd   ..   ignored", Some(true), Platform::Windows),
        CommandRequest::ChangeDirectory("..".to_string())
    );
}

#[test]
fn cd_without_target_goes_home() {
    assert_eq!(
        execute_command("cd", None, Platform::Unix),
        CommandRequest::ChangeDirectory("~".to_string())
    );
    assert_eq!(
        execute_command(" cd  ", Some(false), Platform::Windows),
        CommandRequest::ChangeDirectory("~".to_string())
    );
}

#[test]
fn words_that_only_start_with_cd_are_commands() {
    assert_eq!(
        execute_command("cdr /tmp", None, Platform::Unix),
        CommandRequest::Run { command: "cdr /tmp".to_string(), plan: RunPlan::Blocking }
    );
    assert_eq!(
        execute_command("CD /tmp", None, Platform::Unix),
        CommandRequest::Run { command: "CD /tmp".to_string(), plan: RunPlan::Blocking }
    );
}

#[test]
fn commands_block_unless_realtime() {
    assert_eq!(
        execute_command("echo hello", None, Platform::Windows),
        CommandRequest::Run { command: "echo hello".to_string(), plan: RunPlan::Blocking }
    );
    assert_eq!(
        execute_command("echo hello", Some(false), Platform::Unix),
        CommandRequest::Run { command: "echo hello".to_string(), plan: RunPlan::Blocking }
    );
}

#[test]
fn realtime_commands_stream_behind_pty_on_windows() {
    assert_eq!(
        execute_command("npm run dev", Some(true), Platform::Windows),
        CommandRequest::Run { command: "npm run dev".to_string(), plan: RunPlan::PtyStream }
    );
}

#[test]
fn realtime_commands_degrade_to_pipes_without_pty() {
    assert_eq!(
        execute_command("npm run dev", Some(true), Platform::Unix),
        CommandRequest::Run { command: "npm run dev".to_string(), plan: RunPlan::PipeStream }
    );
}

#[test]
fn empty_command_is_run_as_it_is() {
    assert_eq!(
        execute_command("", None, Platform::Unix),
        CommandRequest::Run { command: String::new(), plan: RunPlan::Blocking }
    );
    assert_eq!(
        execute_command("   ", Some(true), Platform::Unix),
        CommandRequest::Run { command: "   ".to_string(), plan: RunPlan::PipeStream }
    );
}

#[test]
fn windows_shell_invocation() {
    assert_eq!(
        shell_command("dir /b", Platform::Windows, "C:\\work", "C:\\bin"),
        ShellCommand {
            program: "cmd".to_string(),
            flag: "/C".to_string(),
            script: "dir /b".to_string(),
            current_dir: "C:\\work".to_string(),
            search_path: "C:\\bin".to_string(),
            removed_variable: "ELECTRON_RUN_AS_NODE".to_string(),
        }
    );
}

#[test]
fn unix_shell_invocation() {
    assert_eq!(
        shell_command("ls -l", Platform::Unix, "/work", "/bin"),
        ShellCommand {
            program: "sh".to_string(),
            flag: "-c".to_string(),
            script: "ls -l".to_string(),
            current_dir: "/work".to_string(),
            search_path: "/bin".to_string(),
            removed_variable: "ELECTRON_RUN_AS_NODE".to_string(),
        }
    );
}

#[test]
fn regular_command_extends_the_search_path() {
    let shell = handle_regular_command("ls", Platform::Unix, "/work", "/opt/bin");
    assert_eq!(shell.program, "sh");
    assert_eq!(shell.flag, "-c");
    assert_eq!(shell.script, "ls");
    assert_eq!(shell.current_dir, "/work");
    assert!(shell.search_path.starts_with("/usr/local/bin:/usr/bin:/bin:"));
    assert!(shell.search_path.ends_with(":/opt/bin"));
    assert_eq!(shell.removed_variable, "ELECTRON_RUN_AS_NODE");
}

#[test]
fn pty_command_line_runs_cmd() {
    assert_eq!(pty_command_line("npm run dev"), "cmd.exe /C npm run dev");
    assert_eq!(pty_command_line(""), "cmd.exe /C ");
}

#[test]
fn interactive_shell_is_powershell_in_utf8() {
    let shell = interactive_shell();
    assert_eq!(shell.program, "powershell.exe");
    assert_eq!(shell.arguments, vec!["-NoExit", "-Command", "chcp 65001"]);
    assert_eq!(shell.size, PtySize { rows: 24, cols: 80, pixel_width: 0, pixel_height: 0 });
}

#[test]
fn streaming_shell_becomes_the_session() {
    let mut state = PtyState::new();
    let result = handle_streaming_process(&mut state, 1, 2, Some(3), Some(4));
    assert_eq!(
        result,
        Ok(StreamingPlan {
            release: vec![],
            event: LifecycleEvent { active: true },
            stdout: 3,
            stderr: 4,
        })
    );
    assert_eq!(state.current(), Some(Session { process: 1, pty: None, input: 2 }));
}

#[test]
fn streaming_shell_replaces_running_session() {
    let mut state = PtyState::new();
    state.start_process(Session { process: 11, pty: Some(12), input: 13 });
    let plan = handle_streaming_process(&mut state, 1, 2, Some(3), Some(4)).unwrap();
    assert_eq!(
        plan.release,
        vec![
            Release::Terminate(11),
            Release::CloseHandle(13),
            Release::ClosePseudoConsole(12),
            Release::CloseHandle(11),
        ]
    );
    assert_eq!(state.current(), Some(Session { process: 1, pty: None, input: 2 }));
}

#[test]
fn streaming_shell_without_stdout_is_given_back() {
    let mut state = PtyState::new();
    state.start_process(Session { process: 11, pty: None, input: 13 });
    let result = handle_streaming_process(&mut state, 1, 2, None, Some(4));
    assert_eq!(
        result,
        Err(LaunchFailure {
            error: TerminalError::Spawn("Failed to capture stdout".to_string()),
            release: vec![
                Release::Terminate(1),
                Release::CloseHandle(2),
                Release::CloseHandle(4),
                Release::CloseHandle(1),
            ],
        })
    );
    assert_eq!(state.current(), Some(Session { process: 11, pty: None, input: 13 }));
}

#[test]
fn streaming_shell_without_stderr_is_given_back() {
    let mut state = PtyState::new();
    let result = handle_streaming_process(&mut state, 1, 2, Some(3), None);
    assert_eq!(
        result,
        Err(LaunchFailure {
            error: TerminalError::Spawn("Failed to capture stderr".to_string()),
            release: vec![
                Release::Terminate(1),
                Release::CloseHandle(2),
                Release::CloseHandle(3),
                Release::CloseHandle(1),
            ],
        })
    );
    assert!(!state.has_active_process());
}

#[test]
fn streaming_shell_without_streams_is_given_back() {
    let mut state = PtyState::new();
    let failure = handle_streaming_process(&mut state, 1, 2, None, None).unwrap_err();
    assert_eq!(failure.error, TerminalError::Spawn("Failed to capture stdout".to_string()));
    assert_eq!(
        failure.release,
        vec![Release::Terminate(1), Release::CloseHandle(2), Release::CloseHandle(1)]
    );
}

#[test]
fn interactive_session_from_start_to_exit() {
    let mut state = PtyState::new();
    let report = state.start_process(Session { process: 1, pty: Some(2), input: 3 });
    assert_eq!(report.event, LifecycleEvent { active: true });
    assert_eq!(state.send_input("echo hi\n"), Ok("echo hi\n\r".to_string()));
    let step = pump_step(ReadOutcome::Data(b"echo hi\nhi\n".to_vec()), StreamKind::Pty, 65001);
    match step {
        PumpStep::Publish(chunk) => {
            assert!(chunk.text.contains("hi"));
            assert_eq!(chunk.text, "echo hi\r\nhi\r\n");
            assert!(!chunk.is_error);
        }
        other => panic!("unexpected step {:?}", other),
    }
    let report = state.monitor_process(ProcessPoll::Exited(0));
    assert_eq!(report.step, MonitorStep::Exited);
    assert_eq!(report.event, Some(LifecycleEvent { active: false }));
    assert!(!state.has_active_process());
    assert_eq!(pump_step(ReadOutcome::BrokenPipe, StreamKind::Pty, 65001), PumpStep::Stop);
    assert_eq!(state.send_input("x"),
        Err(TerminalError::NoActiveProcess(WriteOperation::Input)));
}

#[test]
fn error_constructors_and_messages() {
    assert_eq!(
        TerminalError::command_failed("program not found"),
        TerminalError::Spawn("Command execution failed: program not found".to_string())
    );
    assert_eq!(
        TerminalError::write_failed("broken pipe"),
        TerminalError::Write("Write error: broken pipe".to_string())
    );
    assert_eq!(
        TerminalError::wait_failed("interrupted"),
        TerminalError::Read("Failed to wait for process: interrupted".to_string())
    );
    assert_eq!(TerminalError::wait_failed("x").message(), "Failed to wait for process: x");
    assert_eq!(TerminalError::write_failed("x").message(), "Write error: x");
    assert_eq!(TerminalError::command_failed("x").message(), "Command execution failed: x");
}

#[test]
fn write_failures_name_the_operation() {
    let cases = [
        (WriteOperation::Input, "Failed to write to PTY: e"),
        (WriteOperation::DirectoryChange, "Failed to change directory: e"),
        (WriteOperation::Clear, "Failed to clear terminal: e"),
        (WriteOperation::Interrupt, "Failed to send kill signal: e"),
        (WriteOperation::Newline, "Failed to send newline: e"),
        (WriteOperation::Flush, "Failed to flush PTY: e"),
    ];
    for (operation, text) in cases {
        assert_eq!(
            TerminalError::write_interrupted(operation, "e"),
            TerminalError::Write(text.to_string())
        );
    }
}
