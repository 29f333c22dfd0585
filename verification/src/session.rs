//! The record of the one interactive session and the operations that the
//! user interface performs on it.
//!
//! The registry holds at most one [`Session`]. Every operation is a
//! transition on it that returns what the caller has to carry out: text to
//! write to the shell, handles to release, an event to publish.

use crate::error::{TerminalError, WriteOperation};
use crate::text::{chained, replace_all, replaced};
use vstd::prelude::*;
use vstd::string::*;

verus! {

/// How a session's shell is attached.
#[derive(Debug, Clone, Copy, PartialEq, Eq)]
pub enum SessionMode {
    /// Plain pipes.
    Buffered,
    /// A pseudo-terminal.
    PtyBacked,
}

/// The operating-system resources of a running shell.
#[derive(Debug, Clone, Copy, PartialEq, Eq)]
pub struct Session {
    /// The shell process.
    pub process: usize,
    /// The pseudo-terminal, for a session attached to one.
    pub pty: Option<usize>,
    /// Where input for the shell is written.
    pub input: usize,
}

/// One step of giving resources back to the operating system.
#[derive(Debug, Clone, Copy, PartialEq, Eq)]
pub enum Release {
    /// End the process behind this handle.
    Terminate(usize),
    /// Close a process or pipe handle.
    CloseHandle(usize),
    /// Close a pseudo-console.
    ClosePseudoConsole(usize),
}

/// The lifecycle notice for the event sink.
#[derive(Debug, Clone, Copy, PartialEq, Eq)]
pub struct LifecycleEvent {
    /// Whether a session is running after the event.
    pub active: bool,
}

/// The size of a pseudo-terminal's viewport.
#[derive(Debug, Clone, Copy, PartialEq, Eq)]
pub struct PtySize {
    pub rows: u16,
    pub cols: u16,
    pub pixel_width: u16,
    pub pixel_height: u16,
}

/// A viewport change to apply to a pseudo-terminal.
#[derive(Debug, Clone, Copy, PartialEq, Eq)]
pub struct ResizeRequest {
    pub pty: usize,
    pub size: PtySize,
}

/// How to interrupt the foreground program of a session.
#[derive(Debug, Clone, PartialEq, Eq)]
pub struct InterruptPlan {
    /// The process to send the platform's interrupt signal to, for a session on plain pipes.
    pub signal: Option<usize>,
    /// What to write to the input first; empty for a session on plain pipes.
    pub control: String,
    /// How long to wait before the follow-up, in milliseconds.
    pub grace_millis: u64,
    /// What to write after the wait, to get a fresh prompt.
    pub follow_up: String,
}

/// What the registry answers to a start.
#[derive(Debug, Clone, PartialEq, Eq)]
pub struct StartReport {
    /// The releases that tear the previous session down, in order.
    pub release: Vec<Release>,
    /// The notice to publish.
    pub event: LifecycleEvent,
}

/// What an exit-status query told about the session's process.
#[derive(Debug, Clone, Copy, PartialEq, Eq)]
pub enum ProcessPoll {
    /// The query itself failed.
    Unanswered,
    /// The process still runs.
    Running,
    /// The process has ended, with this exit code.
    Exited(u32),
}

/// What the process monitor does after a poll.
#[derive(Debug, Clone, Copy, PartialEq, Eq)]
pub enum MonitorStep {
    /// No session is registered: the monitor ends.
    Stop,
    /// The process still runs: poll again after the interval.
    Wait,
    /// The process has ended: the session is gone and the monitor ends.
    Exited,
}

/// What the registry answers to a poll.
#[derive(Debug, Clone, PartialEq, Eq)]
pub struct MonitorReport {
    pub step: MonitorStep,
    /// The releases to perform, in order.
    pub release: Vec<Release>,
    /// The notice to publish, if any.
    pub event: Option<LifecycleEvent>,
}

/// The exit code that the system reports for a process that still runs.
pub const STILL_ACTIVE: u32 = 259;

/// The pause between two polls of the process monitor, in milliseconds.
pub const POLL_INTERVAL_MILLIS: u64 = 500;

/// The pause between the interrupt and the follow-up newline, in milliseconds.
pub const INTERRUPT_GRACE_MILLIS: u64 = 100;

impl Session {
    /// The mode that the session runs in: a session has a pseudo-terminal
    /// exactly when it is attached to one.
    pub open spec fn mode_of(self) -> SessionMode {
        if self.pty is Some {
            SessionMode::PtyBacked
        } else {
            SessionMode::Buffered
        }
    }

    /// The handles that the session owns.
    pub open spec fn handles(self) -> Set<usize> {
        match self.pty {
            Some(pty) => set![self.process, self.input, pty],
            None => set![self.process, self.input],
        }
    }

    /// The mode that the session runs in.
    pub fn mode(&self) -> (mode: SessionMode)
        ensures
            mode == self.mode_of(),
    {
        match self.pty {
            Some(_) => SessionMode::PtyBacked,
            None => SessionMode::Buffered,
        }
    }
}

/// The handle that a release closes; terminating a process closes none.
pub open spec fn closed_by(release: Release) -> Option<usize> {
    match release {
        Release::Terminate(_) => None,
        Release::CloseHandle(handle) => Some(handle),
        Release::ClosePseudoConsole(handle) => Some(handle),
    }
}

/// The handles that a list of releases closes.
pub open spec fn closed_handles(releases: Seq<Release>) -> Set<usize> {
    Set::new(
        |handle: usize|
            exists|i: int| 0 <= i < releases.len() && closed_by(#[trigger] releases[i]) == Some(handle),
    )
}

/// The closing of a pipe or process handle that may not exist.
pub open spec fn handle_release(handle: Option<usize>) -> Seq<Release> {
    match handle {
        Some(h) => seq![Release::CloseHandle(h)],
        None => Seq::empty(),
    }
}

/// The closing of a pseudo-console that may not exist.
pub open spec fn console_release(pty: Option<usize>) -> Seq<Release> {
    match pty {
        Some(handle) => seq![Release::ClosePseudoConsole(handle)],
        None => Seq::empty(),
    }
}

/// Tearing a running session down: end the process, then close its input,
/// its pseudo-console and the process handle.
pub open spec fn teardown_of(session: Session) -> Seq<Release> {
    seq![Release::Terminate(session.process), Release::CloseHandle(session.input)]
        + console_release(session.pty) + seq![Release::CloseHandle(session.process)]
}

/// Releasing a session whose process has ended by itself: close the process
/// handle, the pseudo-console and the input.
pub open spec fn exit_release_of(session: Session) -> Seq<Release> {
    seq![Release::CloseHandle(session.process)] + console_release(session.pty)
        + seq![Release::CloseHandle(session.input)]
}

/// The teardown of whatever the registry holds.
pub open spec fn teardown_of_slot(slot: Option<Session>) -> Seq<Release> {
    match slot {
        Some(session) => teardown_of(session),
        None => Seq::empty(),
    }
}

/// Whether a poll shows that the process has ended.
pub open spec fn has_exited(poll: ProcessPoll) -> bool {
    poll is Exited
}

/// What the system's exit-code query tells: nothing where the query failed,
/// that the process runs where the code is [`STILL_ACTIVE`], and else that
/// it has ended with that code.
pub open spec fn poll_of(answered: bool, exit_code: u32) -> ProcessPoll {
    if !answered {
        ProcessPoll::Unanswered
    } else if exit_code == STILL_ACTIVE {
        ProcessPoll::Running
    } else {
        ProcessPoll::Exited(exit_code)
    }
}

/// What the system's exit-code query tells: see [`poll_of`].
pub fn poll_from_exit_code(answered: bool, exit_code: u32) -> (poll: ProcessPoll)
    ensures
        poll == poll_of(answered, exit_code),
{
    if !answered {
        ProcessPoll::Unanswered
    } else if exit_code == STILL_ACTIVE {
        ProcessPoll::Running
    } else {
        ProcessPoll::Exited(exit_code)
    }
}

/// What is written to a session for a line of input: a session on a
/// pseudo-terminal gets a carriage return after it, one on pipes gets the
/// text as it is.
pub open spec fn input_text(mode: SessionMode, input: Seq<char>) -> Seq<char> {
    match mode {
        SessionMode::PtyBacked => input + "\r"@,
        SessionMode::Buffered => input,
    }
}

/// The shell command that changes the interactive shell's directory.
pub open spec fn directory_command(path: Seq<char>) -> Seq<char> {
    "Set-Location \""@ + replaced(path, "/"@, "\\"@) + "\"\r\n"@
}

/// The escape sequence that clears the screen and homes the cursor.
pub open spec fn clear_sequence() -> Seq<char> {
    "\x1b[2J\x1b[1;1H"@
}

/// The registry after `session` was started on it.
pub open spec fn started(slot: Option<Session>, session: Session) -> Option<Session> {
    Some(session)
}

/// A list of releases closes what its parts close.
pub proof fn lemma_closed_handles_concat(a: Seq<Release>, b: Seq<Release>)
    ensures
        closed_handles(a + b) == closed_handles(a) + closed_handles(b),
{
    assert forall|h: usize| closed_handles(a + b).contains(h) implies (closed_handles(a)
        + closed_handles(b)).contains(h) by {
        let i = choose|i: int| 0 <= i < (a + b).len() && closed_by(#[trigger] (a + b)[i]) == Some(h);
        if i < a.len() {
            assert(closed_by(a[i]) == Some(h));
        } else {
            assert(closed_by(b[i - a.len()]) == Some(h));
        }
    }
    assert forall|h: usize| (closed_handles(a) + closed_handles(b)).contains(h) implies closed_handles(
        a + b,
    ).contains(h) by {
        if closed_handles(a).contains(h) {
            let i = choose|i: int| 0 <= i < a.len() && closed_by(#[trigger] a[i]) == Some(h);
            assert((a + b)[i] == a[i]);
        } else {
            let i = choose|i: int| 0 <= i < b.len() && closed_by(#[trigger] b[i]) == Some(h);
            assert((a + b)[a.len() + i] == b[i]);
        }
    }
    assert(closed_handles(a + b) =~= closed_handles(a) + closed_handles(b));
}

/// A single release closes its handle, if it closes one; no release closes nothing.
pub proof fn lemma_closed_handles_single(release: Release)
    ensures
        closed_handles(seq![release]) == match closed_by(release) {
            Some(handle) => set![handle],
            None => Set::<usize>::empty(),
        },
        closed_handles(Seq::<Release>::empty()) == Set::<usize>::empty(),
{
    let one = seq![release];
    assert(one[0] == release);
    assert(closed_handles(one) =~= match closed_by(release) {
        Some(handle) => set![handle],
        None => Set::<usize>::empty(),
    });
    assert(closed_handles(Seq::<Release>::empty()) =~= Set::<usize>::empty());
}

/// Tearing a session down closes every handle that it owns and no other,
/// after ending its process; so does releasing it after its exit.
pub proof fn lemma_release_closes_all(session: Session)
    ensures
        closed_handles(teardown_of(session)) == session.handles(),
        closed_handles(exit_release_of(session)) == session.handles(),
        teardown_of(session)[0] == Release::Terminate(session.process),
{
    let t = teardown_of(session);
    let e = exit_release_of(session);
    match session.pty {
        Some(pty) => {
            assert(t =~= seq![
                Release::Terminate(session.process),
                Release::CloseHandle(session.input),
                Release::ClosePseudoConsole(pty),
                Release::CloseHandle(session.process),
            ]);
            assert(closed_by(t[1]) == Some(session.input));
            assert(closed_by(t[2]) == Some(pty));
            assert(closed_by(t[3]) == Some(session.process));
            assert(e =~= seq![
                Release::CloseHandle(session.process),
                Release::ClosePseudoConsole(pty),
                Release::CloseHandle(session.input),
            ]);
            assert(closed_by(e[0]) == Some(session.process));
            assert(closed_by(e[1]) == Some(pty));
            assert(closed_by(e[2]) == Some(session.input));
        },
        None => {
            assert(t =~= seq![
                Release::Terminate(session.process),
                Release::CloseHandle(session.input),
                Release::CloseHandle(session.process),
            ]);
            assert(closed_by(t[1]) == Some(session.input));
            assert(closed_by(t[2]) == Some(session.process));
            assert(e =~= seq![
                Release::CloseHandle(session.process),
                Release::CloseHandle(session.input),
            ]);
            assert(closed_by(e[0]) == Some(session.process));
            assert(closed_by(e[1]) == Some(session.input));
        },
    }
    assert(closed_handles(t) =~= session.handles());
    assert(closed_handles(e) =~= session.handles());
}

/// A start that follows a start leaves exactly one session registered, the
/// second, and releases every handle of the first, after ending its process.
pub proof fn lemma_restart_replaces_session(
    before: Option<Session>,
    first: Session,
    second: Session,
)
    ensures
        started(started(before, first), second) == Some(second),
        closed_handles(teardown_of_slot(started(before, first))) == first.handles(),
        teardown_of_slot(started(before, first))[0] == Release::Terminate(first.process),
{
    lemma_release_closes_all(first);
}

/// The registry of the active session: empty, or holding exactly one.
pub struct PtyState {
    session: Option<Session>,
}

impl View for PtyState {
    type V = Option<Session>;

    closed spec fn view(&self) -> Option<Session> {
        self.session
    }
}

impl PtyState {
    /// A registry without a session.
    pub fn new() -> (state: PtyState)
        ensures
            state@ is None,
    {
        PtyState { session: None }
    }

    /// Whether a session is running.
    pub fn has_active_process(&self) -> (active: bool)
        ensures
            active == (self@ is Some),
    {
        self.session.is_some()
    }

    /// The running session, if any.
    pub fn current(&self) -> (session: Option<Session>)
        ensures
            session == self@,
    {
        self.session
    }

    /// The process that the monitor has to poll, if any.
    pub fn monitored_process(&self) -> (process: Option<usize>)
        ensures
            process == match self@ {
                Some(session) => Some(session.process),
                None => None,
            },
    {
        match self.session {
            Some(session) => Some(session.process),
            None => None,
        }
    }

    /// Registers `session` as the running one. A session that was running
    /// before is replaced: the report lists the releases that tear it down.
    pub fn start_process(&mut self, session: Session) -> (report: StartReport)
        ensures
            final(self)@ == started(old(self)@, session),
            report.release@ == teardown_of_slot(old(self)@),
            report.event == (LifecycleEvent { active: true }),
    {
        let release = release_session(self.session, true);
        self.session = Some(session);
        StartReport { release, event: LifecycleEvent { active: true } }
    }

    /// Ends the running session on request: the registry is empty afterwards
    /// and the result lists the releases that tear the session down.
    pub fn terminate(&mut self) -> (report: MonitorReport)
        ensures
            final(self)@ is None,
            report.release@ == teardown_of_slot(old(self)@),
            old(self)@ is Some ==> report.step == MonitorStep::Exited && report.event == Some(
                LifecycleEvent { active: false },
            ),
            old(self)@ is None ==> report.step == MonitorStep::Stop && report.event is None,
    {
        let release = release_session(self.session, true);
        let was_running = self.session.is_some();
        self.session = None;
        if was_running {
            MonitorReport {
                step: MonitorStep::Exited,
                release,
                event: Some(LifecycleEvent { active: false }),
            }
        } else {
            MonitorReport { step: MonitorStep::Stop, release, event: None }
        }
    }

    /// The text to write and flush to the running session for `input`.
    /// The registry is unchanged.
    pub fn send_input(&mut self, input: &str) -> (result: Result<String, TerminalError>)
        ensures
            final(self)@ == old(self)@,
            match old(self)@ {
                Some(session) => result matches Ok(text) && text@ == input_text(
                    session.mode_of(),
                    input@,
                ),
                None => result == Err::<String, TerminalError>(TerminalError::NoActiveProcess(WriteOperation::Input)),
            },
    {
        match self.session {
            Some(session) => {
                match session.mode() {
                    SessionMode::PtyBacked => Ok(chained(input, "\r")),
                    SessionMode::Buffered => Ok(String::from_str(input)),
                }
            },
            None => Err(TerminalError::NoActiveProcess(WriteOperation::Input)),
        }
    }

    /// The viewport change for a new size of `rows` by `cols` characters:
    /// one for the pseudo-terminal of the running session, none where no
    /// session runs or the running one has no pseudo-terminal. The registry
    /// is unchanged.
    pub fn resize_pty(&mut self, rows: u16, cols: u16) -> (request: Option<ResizeRequest>)
        ensures
            final(self)@ == old(self)@,
            request == match old(self)@ {
                Some(session) => match session.pty {
                    Some(pty) => Some(
                        ResizeRequest {
                            pty,
                            size: PtySize { rows, cols, pixel_width: 0, pixel_height: 0 },
                        },
                    ),
                    None => None,
                },
                None => None,
            },
    {
        match self.session {
            Some(session) => match session.pty {
                Some(pty) => Some(
                    ResizeRequest {
                        pty,
                        size: PtySize { rows, cols, pixel_width: 0, pixel_height: 0 },
                    },
                ),
                None => None,
            },
            None => None,
        }
    }

    /// The shell command to write and flush to the running session so that
    /// its shell moves to `path`. The registry is unchanged.
    pub fn change_directory(&mut self, path: &str) -> (result: Result<String, TerminalError>)
        ensures
            final(self)@ == old(self)@,
            match old(self)@ {
                Some(_) => result matches Ok(text) && text@ == directory_command(path@),
                None => result == Err::<String, TerminalError>(TerminalError::NoActiveProcess(WriteOperation::DirectoryChange)),
            },
    {
        match self.session {
            Some(_) => {
                let escaped = replace_all(path, "/", "\\");
                let mut command = chained("Set-Location \"", escaped.as_str());
                command.append("\"\r\n");
                Ok(command)
            },
            None => Err(TerminalError::NoActiveProcess(WriteOperation::DirectoryChange)),
        }
    }

    /// The escape sequence to write and flush to the running session so that
    /// its screen is cleared. The registry is unchanged, however often this
    /// is called.
    pub fn clear_terminal(&mut self) -> (result: Result<String, TerminalError>)
        ensures
            final(self)@ == old(self)@,
            match old(self)@ {
                Some(_) => result matches Ok(text) && text@ == clear_sequence(),
                None => result == Err::<String, TerminalError>(TerminalError::NoActiveProcess(WriteOperation::Clear)),
            },
    {
        match self.session {
            Some(_) => Ok(String::from_str("\x1b[2J\x1b[1;1H")),
            None => Err(TerminalError::NoActiveProcess(WriteOperation::Clear)),
        }
    }

    /// How to interrupt the foreground program of the running session: a
    /// session on a pseudo-terminal gets the interrupt control character
    /// written to its input, one on pipes gets the platform's interrupt
    /// signal; after the grace delay both get a newline. The registry is
    /// unchanged.
    pub fn kill_process(&mut self) -> (result: Result<InterruptPlan, TerminalError>)
        ensures
            final(self)@ == old(self)@,
            match old(self)@ {
                Some(session) => result matches Ok(plan) && plan.grace_millis
                    == INTERRUPT_GRACE_MILLIS && plan.follow_up@ == "\r\n"@ && match session.pty {
                    Some(_) => plan.signal is None && plan.control@ == "\x03"@,
                    None => plan.signal == Some(session.process) && plan.control@
                        == Seq::<char>::empty(),
                },
                None => result == Err::<InterruptPlan, TerminalError>(
                    TerminalError::NoActiveProcess(WriteOperation::Interrupt),
                ),
            },
    {
        match self.session {
            Some(session) => {
                let follow_up = String::from_str("\r\n");
                match session.pty {
                    Some(_) => Ok(
                        InterruptPlan {
                            signal: None,
                            control: String::from_str("\x03"),
                            grace_millis: INTERRUPT_GRACE_MILLIS,
                            follow_up,
                        },
                    ),
                    None => Ok(
                        InterruptPlan {
                            signal: Some(session.process),
                            control: String::new(),
                            grace_millis: INTERRUPT_GRACE_MILLIS,
                            follow_up,
                        },
                    ),
                }
            },
            None => Err(TerminalError::NoActiveProcess(WriteOperation::Interrupt)),
        }
    }

    /// One round of the process monitor, given the answer to its exit-status
    /// query. Without a session the monitor stops. Where the poll shows that
    /// the process has ended, the session leaves the registry, its handles
    /// are released and the end is announced. Otherwise nothing changes and
    /// the monitor polls again.
    pub fn monitor_process(&mut self, poll: ProcessPoll) -> (report: MonitorReport)
        ensures
            match old(self)@ {
                None => final(self)@ is None && report.step == MonitorStep::Stop
                    && report.release@ == Seq::<Release>::empty() && report.event is None,
                Some(session) => if has_exited(poll) {
                    final(self)@ is None && report.step == MonitorStep::Exited && report.release@
                        == exit_release_of(session) && report.event == Some(
                        LifecycleEvent { active: false },
                    )
                } else {
                    final(self)@ == old(self)@ && report.step == MonitorStep::Wait
                        && report.release@ == Seq::<Release>::empty() && report.event is None
                },
            },
    {
        match self.session {
            None => MonitorReport { step: MonitorStep::Stop, release: Vec::new(), event: None },
            Some(_) => {
                let exited = match poll {
                    ProcessPoll::Exited(_) => true,
                    _ => false,
                };
                if exited {
                    let release = release_session(self.session, false);
                    self.session = None;
                    MonitorReport {
                        step: MonitorStep::Exited,
                        release,
                        event: Some(LifecycleEvent { active: false }),
                    }
                } else {
                    MonitorReport { step: MonitorStep::Wait, release: Vec::new(), event: None }
                }
            },
        }
    }
}

/// The releases for the session in `slot`: the teardown of a running
/// process where `running`, the release after its exit otherwise.
fn release_session(slot: Option<Session>, running: bool) -> (release: Vec<Release>)
    ensures
        release@ == match slot {
            Some(session) => if running {
                teardown_of(session)
            } else {
                exit_release_of(session)
            },
            None => Seq::empty(),
        },
{
    let mut release: Vec<Release> = Vec::new();
    match slot {
        Some(session) => {
            if running {
                release.push(Release::Terminate(session.process));
                release.push(Release::CloseHandle(session.input));
                match session.pty {
                    Some(pty) => {
                        release.push(Release::ClosePseudoConsole(pty));
                    },
                    None => {},
                }
                release.push(Release::CloseHandle(session.process));
                proof {
                    assert(release@ =~= teardown_of(session));
                }
            } else {
                release.push(Release::CloseHandle(session.process));
                match session.pty {
                    Some(pty) => {
                        release.push(Release::ClosePseudoConsole(pty));
                    },
                    None => {},
                }
                release.push(Release::CloseHandle(session.input));
                proof {
                    assert(release@ =~= exit_release_of(session));
                }
            }
        },
        None => {},
    }
    release
}

} // verus!
