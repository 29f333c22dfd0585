use terminal_bridge::error::{SpawnFailure, TerminalError};
use terminal_bridge::launcher::{
    cleanup_handles, LaunchAction, LaunchEvent, LaunchStage, PtyLaunch, CONSOLE_COLUMNS,
    CONSOLE_ROWS,
};
use terminal_bridge::session::{Release, Session};

fn launch_with_pipes() -> PtyLaunch {
    let mut launch = PtyLaunch::new();
    launch.advance(LaunchEvent::PipeCreated { read: 1, write: 2 });
    launch.advance(LaunchEvent::PipeCreated { read: 3, write: 4 });
    launch
}

fn launch_with_console() -> PtyLaunch {
    let mut launch = launch_with_pipes();
    launch.advance(LaunchEvent::ConsoleCreated(5));
    launch
}

#[test]
fn cleanup_lists_existing_handles_in_order() {
    assert_eq!(
        cleanup_handles(Some(5), Some(1), Some(2), Some(3), Some(4)),
        vec![
            Release::ClosePseudoConsole(5),
            Release::CloseHandle(1),
            Release::CloseHandle(2),
            Release::CloseHandle(3),
            Release::CloseHandle(4),
        ]
    );
}

#[test]
fn cleanup_skips_missing_handles() {
    assert_eq!(cleanup_handles(None, None, None, None, None), vec![]);
    assert_eq!(
        cleanup_handles(None, Some(1), None, None, Some(4)),
        vec![Release::CloseHandle(1), Release::CloseHandle(4)]
    );
    assert_eq!(
        cleanup_handles(Some(9), None, None, None, None),
        vec![Release::ClosePseudoConsole(9)]
    );
}

#[test]
fn launch_walks_through_all_stages() {
    let mut launch = PtyLaunch::new();
    assert_eq!(launch.stage(), LaunchStage::InputPipe);
    assert_eq!(
        launch.advance(LaunchEvent::PipeCreated { read: 1, write: 2 }),
        (LaunchAction::CreateOutputPipe, vec![])
    );
    assert_eq!(launch.stage(), LaunchStage::OutputPipe);
    assert_eq!(
        launch.advance(LaunchEvent::PipeCreated { read: 3, write: 4 }),
        (LaunchAction::CreateConsole { columns: 80, rows: 30, input: 1, output: 4 }, vec![])
    );
    assert_eq!(launch.stage(), LaunchStage::Console);
    assert_eq!(
        launch.advance(LaunchEvent::ConsoleCreated(5)),
        (LaunchAction::InitializeAttributes, vec![])
    );
    assert_eq!(launch.stage(), LaunchStage::AttributeList);
    assert_eq!(
        launch.advance(LaunchEvent::Completed),
        (LaunchAction::UpdateAttributes { console: 5 }, vec![])
    );
    assert_eq!(launch.stage(), LaunchStage::AttributeUpdate);
    assert_eq!(launch.advance(LaunchEvent::Completed), (LaunchAction::CreateProcess, vec![]));
    assert_eq!(launch.stage(), LaunchStage::Process);
    assert_eq!(
        launch.advance(LaunchEvent::ProcessCreated { process: 6, thread: 7 }),
        (
            LaunchAction::Install {
                session: Session { process: 6, pty: Some(5), input: 2 },
                output: 3,
            },
            vec![Release::CloseHandle(7), Release::CloseHandle(1), Release::CloseHandle(4)]
        )
    );
    assert_eq!(launch.stage(), LaunchStage::Finished);
}

#[test]
fn console_size_is_eighty_by_thirty() {
    assert_eq!(CONSOLE_COLUMNS, 80);
    assert_eq!(CONSOLE_ROWS, 30);
}

#[test]
fn failed_input_pipe_releases_nothing() {
    let mut launch = PtyLaunch::new();
    assert_eq!(
        launch.advance(LaunchEvent::Failed(0)),
        (LaunchAction::Abort(SpawnFailure::Pipes), vec![])
    );
    assert_eq!(launch.stage(), LaunchStage::Finished);
}

#[test]
fn failed_output_pipe_releases_input_pipe() {
    let mut launch = PtyLaunch::new();
    launch.advance(LaunchEvent::PipeCreated { read: 1, write: 2 });
    assert_eq!(
        launch.advance(LaunchEvent::Failed(0)),
        (
            LaunchAction::Abort(SpawnFailure::Pipes),
            vec![Release::CloseHandle(1), Release::CloseHandle(2)]
        )
    );
    assert_eq!(launch.stage(), LaunchStage::Finished);
}

#[test]
fn failed_console_releases_both_pipes() {
    let mut launch = launch_with_pipes();
    assert_eq!(
        launch.advance(LaunchEvent::Failed(-2147024809)),
        (
            LaunchAction::Abort(SpawnFailure::PseudoConsole(-2147024809)),
            vec![
                Release::CloseHandle(1),
                Release::CloseHandle(2),
                Release::CloseHandle(3),
                Release::CloseHandle(4),
            ]
        )
    );
}

#[test]
fn failed_attribute_list_releases_console_and_pipes() {
    let mut launch = launch_with_console();
    assert_eq!(
        launch.advance(LaunchEvent::Failed(0)),
        (
            LaunchAction::Abort(SpawnFailure::AttributeList),
            vec![
                Release::ClosePseudoConsole(5),
                Release::CloseHandle(1),
                Release::CloseHandle(2),
                Release::CloseHandle(3),
                Release::CloseHandle(4),
            ]
        )
    );
}

#[test]
fn failed_attribute_update_releases_console_and_pipes() {
    let mut launch = launch_with_console();
    launch.advance(LaunchEvent::Completed);
    let (action, release) = launch.advance(LaunchEvent::Failed(0));
    assert_eq!(action, LaunchAction::Abort(SpawnFailure::AttributeUpdate));
    assert_eq!(release.len(), 5);
    assert_eq!(release[0], Release::ClosePseudoConsole(5));
}

#[test]
fn failed_process_releases_console_and_pipes() {
    let mut launch = launch_with_console();
    launch.advance(LaunchEvent::Completed);
    launch.advance(LaunchEvent::Completed);
    let (action, release) = launch.advance(LaunchEvent::Failed(0));
    assert_eq!(action, LaunchAction::Abort(SpawnFailure::Process));
    assert_eq!(
        release,
        vec![
            Release::ClosePseudoConsole(5),
            Release::CloseHandle(1),
            Release::CloseHandle(2),
            Release::CloseHandle(3),
            Release::CloseHandle(4),
        ]
    );
    assert_eq!(launch.stage(), LaunchStage::Finished);
}

#[test]
fn unexpected_answer_aborts_and_releases_what_it_brought() {
    let mut launch = launch_with_pipes();
    assert_eq!(
        launch.advance(LaunchEvent::ProcessCreated { process: 8, thread: 9 }),
        (
            LaunchAction::Abort(SpawnFailure::Protocol),
            vec![
                Release::CloseHandle(1),
                Release::CloseHandle(2),
                Release::CloseHandle(3),
                Release::CloseHandle(4),
                Release::Terminate(8),
                Release::CloseHandle(9),
                Release::CloseHandle(8),
            ]
        )
    );
}

#[test]
fn finished_launch_only_releases_what_answers_bring() {
    let mut launch = PtyLaunch::new();
    launch.advance(LaunchEvent::Failed(1));
    assert_eq!(launch.advance(LaunchEvent::Completed), (LaunchAction::Nothing, vec![]));
    assert_eq!(
        launch.advance(LaunchEvent::ConsoleCreated(5)),
        (LaunchAction::Nothing, vec![Release::ClosePseudoConsole(5)])
    );
    assert_eq!(
        launch.advance(LaunchEvent::PipeCreated { read: 1, write: 2 }),
        (LaunchAction::Nothing, vec![Release::CloseHandle(1), Release::CloseHandle(2)])
    );
    assert_eq!(launch.stage(), LaunchStage::Finished);
}

#[test]
fn spawn_failure_messages() {
    assert_eq!(SpawnFailure::Pipes.message(), "Failed to create pipes");
    assert_eq!(
        SpawnFailure::PseudoConsole(-2147024809).message(),
        "Failed to create pseudo console: -2147024809"
    );
    assert_eq!(SpawnFailure::PseudoConsole(0).message(), "Failed to create pseudo console: 0");
    assert_eq!(SpawnFailure::PseudoConsole(87).message(), "Failed to create pseudo console: 87");
    assert_eq!(
        SpawnFailure::PseudoConsole(i32::MIN).message(),
        "Failed to create pseudo console: -2147483648"
    );
    assert_eq!(
        SpawnFailure::PseudoConsole(i32::MAX).message(),
        "Failed to create pseudo console: 2147483647"
    );
    assert_eq!(SpawnFailure::AttributeList.message(), "Failed to initialize attribute list");
    assert_eq!(SpawnFailure::AttributeUpdate.message(), "Failed to update attribute list");
    assert_eq!(SpawnFailure::Process.message(), "Failed to create process");
    assert_eq!(SpawnFailure::Protocol.message(), "Unexpected answer during launch");
}

#[test]
fn spawn_failure_becomes_spawn_error() {
    assert_eq!(
        SpawnFailure::Process.into_error(),
        TerminalError::Spawn("Failed to create process".to_string())
    );
}
