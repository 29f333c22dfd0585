use std::collections::BTreeSet;

use terminal_bridge::command::handle_streaming_process;
use terminal_bridge::launcher::{LaunchAction, LaunchEvent, PtyLaunch};
use terminal_bridge::session::{ProcessPoll, PtyState, Release, Session};

/// The handles that are open, as a test keeps account of them.
struct Ledger {
    open: BTreeSet<usize>,
    terminated: Vec<usize>,
}

impl Ledger {
    fn new() -> Self {
        Ledger { open: BTreeSet::new(), terminated: Vec::new() }
    }

    fn open_session(&mut self, session: Session) {
        assert!(self.open.insert(session.process));
        assert!(self.open.insert(session.input));
        if let Some(pty) = session.pty {
            assert!(self.open.insert(pty));
        }
    }

    fn open_all(&mut self, handles: &[usize]) {
        for handle in handles {
            assert!(self.open.insert(*handle));
        }
    }

    fn perform(&mut self, releases: &[Release]) {
        for release in releases {
            match *release {
                Release::Terminate(process) => {
                    assert!(self.open.contains(&process), "ends a process that is not open");
                    self.terminated.push(process);
                }
                Release::CloseHandle(handle) | Release::ClosePseudoConsole(handle) => {
                    assert!(self.open.remove(&handle), "closes {} twice", handle);
                }
            }
        }
    }

    fn handles(&self) -> Vec<usize> {
        self.open.iter().copied().collect()
    }
}

#[test]
fn second_start_leaves_one_session_and_no_other_handle() {
    let first = Session { process: 1, pty: Some(2), input: 3 };
    let second = Session { process: 4, pty: Some(5), input: 6 };
    let mut ledger = Ledger::new();
    let mut state = PtyState::new();

    ledger.open_session(first);
    let report = state.start_process(first);
    ledger.perform(&report.release);
    assert_eq!(ledger.handles(), vec![1, 2, 3]);

    ledger.open_session(second);
    let report = state.start_process(second);
    ledger.perform(&report.release);
    assert_eq!(state.current(), Some(second));
    assert_eq!(ledger.handles(), vec![4, 5, 6]);
    assert_eq!(ledger.terminated, vec![1]);
}

#[test]
fn many_starts_never_accumulate_handles() {
    let mut ledger = Ledger::new();
    let mut state = PtyState::new();
    for round in 0..20usize {
        let session = Session {
            process: 3 * round + 1,
            pty: if round % 2 == 0 { Some(3 * round + 2) } else { None },
            input: 3 * round + 3,
        };
        ledger.open_session(session);
        let report = state.start_process(session);
        ledger.perform(&report.release);
        assert_eq!(state.current(), Some(session));
        assert_eq!(ledger.open.len(), if round % 2 == 0 { 3 } else { 2 });
    }
    let report = state.terminate();
    ledger.perform(&report.release);
    assert!(ledger.open.is_empty());
}

#[test]
fn exit_releases_every_handle_of_the_session() {
    let session = Session { process: 1, pty: Some(2), input: 3 };
    let mut ledger = Ledger::new();
    let mut state = PtyState::new();
    ledger.open_session(session);
    state.start_process(session);
    let report = state.monitor_process(ProcessPoll::Running);
    ledger.perform(&report.release);
    assert_eq!(ledger.handles(), vec![1, 2, 3]);
    let report = state.monitor_process(ProcessPoll::Exited(0));
    ledger.perform(&report.release);
    assert!(ledger.open.is_empty());
    assert!(ledger.terminated.is_empty());
}

#[test]
fn streaming_shell_that_cannot_be_used_leaves_no_handle() {
    let mut ledger = Ledger::new();
    let mut state = PtyState::new();
    ledger.open_all(&[1, 2, 4]);
    let failure = handle_streaming_process(&mut state, 1, 2, None, Some(4)).unwrap_err();
    ledger.perform(&failure.release);
    assert!(ledger.open.is_empty());
}

/// The answers of a launch in which every call succeeds.
fn answers() -> Vec<LaunchEvent> {
    vec![
        LaunchEvent::PipeCreated { read: 1, write: 2 },
        LaunchEvent::PipeCreated { read: 3, write: 4 },
        LaunchEvent::ConsoleCreated(5),
        LaunchEvent::Completed,
        LaunchEvent::Completed,
        LaunchEvent::ProcessCreated { process: 6, thread: 7 },
    ]
}

fn brought(event: LaunchEvent) -> Vec<usize> {
    match event {
        LaunchEvent::PipeCreated { read, write } => vec![read, write],
        LaunchEvent::ConsoleCreated(console) => vec![console],
        LaunchEvent::ProcessCreated { process, thread } => vec![process, thread],
        LaunchEvent::Completed | LaunchEvent::Failed(_) => vec![],
    }
}

#[test]
fn launch_that_fails_at_any_stage_leaves_no_handle() {
    for failing in 0..answers().len() {
        let mut ledger = Ledger::new();
        let mut launch = PtyLaunch::new();
        for event in answers().into_iter().take(failing) {
            ledger.open_all(&brought(event));
            let (action, release) = launch.advance(event);
            ledger.perform(&release);
            assert!(!matches!(action, LaunchAction::Abort(_)));
        }
        let (action, release) = launch.advance(LaunchEvent::Failed(1));
        ledger.perform(&release);
        assert!(matches!(action, LaunchAction::Abort(_)), "stage {}", failing);
        assert!(ledger.open.is_empty(), "stage {}", failing);
    }
}

#[test]
fn launch_that_gets_a_wrong_answer_leaves_no_handle() {
    let wrong = [
        LaunchEvent::PipeCreated { read: 91, write: 92 },
        LaunchEvent::ConsoleCreated(93),
        LaunchEvent::Completed,
        LaunchEvent::ProcessCreated { process: 94, thread: 95 },
    ];
    for failing in 0..answers().len() {
        for event in wrong {
            let mut ledger = Ledger::new();
            let mut launch = PtyLaunch::new();
            for expected in answers().into_iter().take(failing) {
                ledger.open_all(&brought(expected));
                let (_, release) = launch.advance(expected);
                ledger.perform(&release);
            }
            ledger.open_all(&brought(event));
            let (action, release) = launch.advance(event);
            ledger.perform(&release);
            if matches!(action, LaunchAction::Abort(_)) {
                assert!(ledger.open.is_empty(), "stage {} event {:?}", failing, event);
            }
        }
    }
}

#[test]
fn successful_launch_hands_over_what_it_keeps() {
    let mut ledger = Ledger::new();
    let mut launch = PtyLaunch::new();
    let mut last = LaunchAction::CreateInputPipe;
    for event in answers() {
        ledger.open_all(&brought(event));
        let (action, release) = launch.advance(event);
        ledger.perform(&release);
        last = action;
    }
    match last {
        LaunchAction::Install { session, output } => {
            assert_eq!(session, Session { process: 6, pty: Some(5), input: 2 });
            assert_eq!(output, 3);
            assert_eq!(ledger.handles(), vec![2, 3, 5, 6]);
        }
        other => panic!("unexpected action {:?}", other),
    }
}
