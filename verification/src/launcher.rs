//! Launching a shell behind a pseudo-console, one system call at a time.
//!
//! The caller performs each system call that the launch asks for and hands
//! back what the system answered. The launch keeps account of every handle
//! that was created: whenever it gives up, it asks for all of them to be
//! released.

use crate::error::SpawnFailure;
use crate::session::{
    closed_by, closed_handles, console_release, handle_release, lemma_closed_handles_concat,
    lemma_closed_handles_single, Release, Session,
};
use vstd::prelude::*;

verus! {

/// The width of a new pseudo-console, in characters.
pub const CONSOLE_COLUMNS: u16 = 80;

/// The height of a new pseudo-console, in characters.
pub const CONSOLE_ROWS: u16 = 30;

/// Where a launch stands: the system call whose answer it waits for.
#[derive(Debug, Clone, Copy, PartialEq, Eq)]
pub enum LaunchStage {
    InputPipe,
    OutputPipe,
    Console,
    AttributeList,
    AttributeUpdate,
    Process,
    Finished,
}

/// What the system answered to the call that the launch asked for.
#[derive(Debug, Clone, Copy, PartialEq, Eq)]
pub enum LaunchEvent {
    /// A pipe was created, with these two ends.
    PipeCreated { read: usize, write: usize },
    /// The pseudo-console was created.
    ConsoleCreated(usize),
    /// A call that creates no handle succeeded.
    Completed,
    /// The shell process was created, with its main thread.
    ProcessCreated { process: usize, thread: usize },
    /// The call failed, with this result code.
    Failed(i32),
}

/// What the caller has to do next.
#[derive(Debug, Clone, Copy, PartialEq, Eq)]
pub enum LaunchAction {
    /// Create the pipe that carries input to the shell.
    CreateInputPipe,
    /// Create the pipe that carries the shell's output.
    CreateOutputPipe,
    /// Create the pseudo-console over these two pipe ends.
    CreateConsole { columns: u16, rows: u16, input: usize, output: usize },
    /// Initialise the process attribute list.
    InitializeAttributes,
    /// Attach the pseudo-console to the attribute list.
    UpdateAttributes { console: usize },
    /// Create the shell process.
    CreateProcess,
    /// The shell runs: register the session, pump `output` and start the monitor.
    Install { session: Session, output: usize },
    /// The launch failed.
    Abort(SpawnFailure),
    /// The launch is over; nothing is left to do.
    Nothing,
}

/// The handles that a launch holds at a given moment.
pub struct LaunchModel {
    pub stage: LaunchStage,
    pub console: Option<usize>,
    pub stdin_read: Option<usize>,
    pub stdin_write: Option<usize>,
    pub stdout_read: Option<usize>,
    pub stdout_write: Option<usize>,
}

/// The result of one step of a launch.
pub struct LaunchOutcome {
    pub next: LaunchModel,
    pub action: LaunchAction,
    pub release: Seq<Release>,
}

/// The releases for whatever of a pseudo-console and its four pipe ends
/// exists: the console first, then the ends of the input pipe, then those
/// of the output pipe.
pub open spec fn cleanup_plan(
    console: Option<usize>,
    stdin_read: Option<usize>,
    stdin_write: Option<usize>,
    stdout_read: Option<usize>,
    stdout_write: Option<usize>,
) -> Seq<Release> {
    console_release(console) + handle_release(stdin_read) + handle_release(stdin_write)
        + handle_release(stdout_read) + handle_release(stdout_write)
}

/// The set that holds `handle`, if there is one.
pub open spec fn handle_set(handle: Option<usize>) -> Set<usize> {
    match handle {
        Some(h) => set![h],
        None => Set::empty(),
    }
}

/// The releases for the handles that an answer brought and that the launch
/// does not take over.
pub open spec fn refused(event: LaunchEvent) -> Seq<Release> {
    match event {
        LaunchEvent::PipeCreated { read, write } => seq![
            Release::CloseHandle(read),
            Release::CloseHandle(write),
        ],
        LaunchEvent::ConsoleCreated(console) => seq![Release::ClosePseudoConsole(console)],
        LaunchEvent::ProcessCreated { process, thread } => seq![
            Release::Terminate(process),
            Release::CloseHandle(thread),
            Release::CloseHandle(process),
        ],
        LaunchEvent::Completed => Seq::empty(),
        LaunchEvent::Failed(_) => Seq::empty(),
    }
}

/// The handles that an answer brings.
pub open spec fn brought(event: LaunchEvent) -> Set<usize> {
    match event {
        LaunchEvent::PipeCreated { read, write } => set![read, write],
        LaunchEvent::ConsoleCreated(console) => set![console],
        LaunchEvent::ProcessCreated { process, thread } => set![process, thread],
        LaunchEvent::Completed => Set::empty(),
        LaunchEvent::Failed(_) => Set::empty(),
    }
}

/// The handles that an action hands over to the session and its pump.
pub open spec fn handed_over(action: LaunchAction) -> Set<usize> {
    match action {
        LaunchAction::Install { session, output } => session.handles().insert(output),
        _ => Set::empty(),
    }
}

impl LaunchModel {
    /// A launch that has created nothing yet.
    pub open spec fn initial() -> LaunchModel {
        LaunchModel {
            stage: LaunchStage::InputPipe,
            console: None,
            stdin_read: None,
            stdin_write: None,
            stdout_read: None,
            stdout_write: None,
        }
    }

    /// A launch that is over and holds nothing.
    pub open spec fn finished() -> LaunchModel {
        LaunchModel {
            stage: LaunchStage::Finished,
            console: None,
            stdin_read: None,
            stdin_write: None,
            stdout_read: None,
            stdout_write: None,
        }
    }

    /// Each stage holds exactly the handles that the stages before it created.
    pub open spec fn wf(self) -> bool {
        match self.stage {
            LaunchStage::InputPipe | LaunchStage::Finished => {
                &&& self.console is None
                &&& self.stdin_read is None
                &&& self.stdin_write is None
                &&& self.stdout_read is None
                &&& self.stdout_write is None
            },
            LaunchStage::OutputPipe => {
                &&& self.console is None
                &&& self.stdin_read is Some
                &&& self.stdin_write is Some
                &&& self.stdout_read is None
                &&& self.stdout_write is None
            },
            LaunchStage::Console => {
                &&& self.console is None
                &&& self.stdin_read is Some
                &&& self.stdin_write is Some
                &&& self.stdout_read is Some
                &&& self.stdout_write is Some
            },
            LaunchStage::AttributeList | LaunchStage::AttributeUpdate | LaunchStage::Process => {
                &&& self.console is Some
                &&& self.stdin_read is Some
                &&& self.stdin_write is Some
                &&& self.stdout_read is Some
                &&& self.stdout_write is Some
            },
        }
    }

    /// The handles that the launch holds.
    pub open spec fn owned(self) -> Set<usize> {
        handle_set(self.console) + handle_set(self.stdin_read) + handle_set(self.stdin_write)
            + handle_set(self.stdout_read) + handle_set(self.stdout_write)
    }

    /// The releases for everything that the launch holds.
    pub open spec fn cleanup(self) -> Seq<Release> {
        cleanup_plan(
            self.console,
            self.stdin_read,
            self.stdin_write,
            self.stdout_read,
            self.stdout_write,
        )
    }

    /// Giving up: everything held and everything that `event` brought is released.
    pub open spec fn abort(self, failure: SpawnFailure, event: LaunchEvent) -> LaunchOutcome {
        LaunchOutcome {
            next: LaunchModel::finished(),
            action: LaunchAction::Abort(failure),
            release: self.cleanup() + refused(event),
        }
    }

    /// Going on to `stage` with `action`, releasing nothing.
    pub open spec fn proceed(self, stage: LaunchStage, action: LaunchAction) -> LaunchOutcome {
        LaunchOutcome { next: LaunchModel { stage, ..self }, action, release: Seq::empty() }
    }

    /// The step that a launch takes on an answer of the system.
    ///
    /// The answer that a stage waits for takes the launch to the next stage.
    /// A failure aborts it with the failure of that stage. Any other answer
    /// aborts it as a breach of protocol. A launch that is over ignores
    /// answers, and only releases what they bring.
    pub open spec fn step(self, event: LaunchEvent) -> LaunchOutcome {
        match self.stage {
            LaunchStage::InputPipe => match event {
                LaunchEvent::PipeCreated { read, write } => LaunchOutcome {
                    next: LaunchModel {
                        stage: LaunchStage::OutputPipe,
                        stdin_read: Some(read),
                        stdin_write: Some(write),
                        ..self
                    },
                    action: LaunchAction::CreateOutputPipe,
                    release: Seq::empty(),
                },
                LaunchEvent::Failed(_) => self.abort(SpawnFailure::Pipes, event),
                _ => self.abort(SpawnFailure::Protocol, event),
            },
            LaunchStage::OutputPipe => match event {
                LaunchEvent::PipeCreated { read, write } => match self.stdin_read {
                    Some(input) => LaunchOutcome {
                        next: LaunchModel {
                            stage: LaunchStage::Console,
                            stdout_read: Some(read),
                            stdout_write: Some(write),
                            ..self
                        },
                        action: LaunchAction::CreateConsole {
                            columns: CONSOLE_COLUMNS,
                            rows: CONSOLE_ROWS,
                            input,
                            output: write,
                        },
                        release: Seq::empty(),
                    },
                    None => self.abort(SpawnFailure::Protocol, event),
                },
                LaunchEvent::Failed(_) => self.abort(SpawnFailure::Pipes, event),
                _ => self.abort(SpawnFailure::Protocol, event),
            },
            LaunchStage::Console => match event {
                LaunchEvent::ConsoleCreated(console) => LaunchOutcome {
                    next: LaunchModel {
                        stage: LaunchStage::AttributeList,
                        console: Some(console),
                        ..self
                    },
                    action: LaunchAction::InitializeAttributes,
                    release: Seq::empty(),
                },
                LaunchEvent::Failed(code) => self.abort(SpawnFailure::PseudoConsole(code), event),
                _ => self.abort(SpawnFailure::Protocol, event),
            },
            LaunchStage::AttributeList => match event {
                LaunchEvent::Completed => match self.console {
                    Some(console) => self.proceed(
                        LaunchStage::AttributeUpdate,
                        LaunchAction::UpdateAttributes { console },
                    ),
                    None => self.abort(SpawnFailure::Protocol, event),
                },
                LaunchEvent::Failed(_) => self.abort(SpawnFailure::AttributeList, event),
                _ => self.abort(SpawnFailure::Protocol, event),
            },
            LaunchStage::AttributeUpdate => match event {
                LaunchEvent::Completed => self.proceed(
                    LaunchStage::Process,
                    LaunchAction::CreateProcess,
                ),
                LaunchEvent::Failed(_) => self.abort(SpawnFailure::AttributeUpdate, event),
                _ => self.abort(SpawnFailure::Protocol, event),
            },
            LaunchStage::Process => match event {
                LaunchEvent::ProcessCreated { process, thread } => match (
                    self.console,
                    self.stdin_write,
                    self.stdout_read,
                ) {
                    (Some(console), Some(input), Some(output)) => LaunchOutcome {
                        next: LaunchModel::finished(),
                        action: LaunchAction::Install {
                            session: Session { process, pty: Some(console), input },
                            output,
                        },
                        release: seq![Release::CloseHandle(thread)] + handle_release(
                            self.stdin_read,
                        ) + handle_release(self.stdout_write),
                    },
                    _ => self.abort(SpawnFailure::Protocol, event),
                },
                LaunchEvent::Failed(_) => self.abort(SpawnFailure::Process, event),
                _ => self.abort(SpawnFailure::Protocol, event),
            },
            LaunchStage::Finished => LaunchOutcome {
                next: self,
                action: LaunchAction::Nothing,
                release: refused(event),
            },
        }
    }
}

/// Releasing a handle that may not exist closes it, if it does; likewise a pseudo-console.
pub proof fn lemma_optional_release(handle: Option<usize>)
    ensures
        closed_handles(handle_release(handle)) == handle_set(handle),
        closed_handles(console_release(handle)) == handle_set(handle),
{
    match handle {
        Some(h) => {
            lemma_closed_handles_single(Release::CloseHandle(h));
            lemma_closed_handles_single(Release::ClosePseudoConsole(h));
        },
        None => {
            lemma_closed_handles_single(Release::Terminate(0));
        },
    }
}

/// The cleanup of a launch closes every handle that it holds and no other.
pub proof fn lemma_cleanup_closes_owned(model: LaunchModel)
    ensures
        closed_handles(model.cleanup()) == model.owned(),
{
    let a = console_release(model.console);
    let b = handle_release(model.stdin_read);
    let c = handle_release(model.stdin_write);
    let d = handle_release(model.stdout_read);
    let e = handle_release(model.stdout_write);
    lemma_optional_release(model.console);
    lemma_optional_release(model.stdin_read);
    lemma_optional_release(model.stdin_write);
    lemma_optional_release(model.stdout_read);
    lemma_optional_release(model.stdout_write);
    lemma_closed_handles_concat(a, b);
    lemma_closed_handles_concat(a + b, c);
    lemma_closed_handles_concat(a + b + c, d);
    lemma_closed_handles_concat(a + b + c + d, e);
}

/// Refusing an answer closes every handle that it brought and no other.
pub proof fn lemma_refused_closes_brought(event: LaunchEvent)
    ensures
        closed_handles(refused(event)) == brought(event),
{
    let r = refused(event);
    match event {
        LaunchEvent::PipeCreated { read, write } => {
            assert(closed_by(r[0]) == Some(read));
            assert(closed_by(r[1]) == Some(write));
        },
        LaunchEvent::ConsoleCreated(console) => {
            assert(closed_by(r[0]) == Some(console));
        },
        LaunchEvent::ProcessCreated { process, thread } => {
            assert(closed_by(r[1]) == Some(thread));
            assert(closed_by(r[2]) == Some(process));
        },
        LaunchEvent::Completed => {},
        LaunchEvent::Failed(_) => {},
    }
    assert(closed_handles(r) =~= brought(event));
}

/// No step of a launch loses a handle. What the launch held before the step
/// and what the answer brought is, after the step, held by the launch,
/// released, or handed over to the installed session and its pump. A launch
/// that aborts holds nothing afterwards and hands nothing over: it releases
/// all of it.
pub proof fn lemma_step_conserves_handles(model: LaunchModel, event: LaunchEvent)
    requires
        model.wf(),
    ensures
        model.step(event).next.wf(),
        model.step(event).next.owned() + closed_handles(model.step(event).release) + handed_over(
            model.step(event).action,
        ) == model.owned() + brought(event),
        model.step(event).action is Abort ==> model.step(event).next.owned() == Set::<
            usize,
        >::empty() && closed_handles(model.step(event).release) == model.owned() + brought(event),
{
    let outcome = model.step(event);
    lemma_cleanup_closes_owned(model);
    lemma_refused_closes_brought(event);
    lemma_closed_handles_concat(model.cleanup(), refused(event));
    lemma_closed_handles_single(Release::Terminate(0));
    assert(LaunchModel::finished().owned() =~= Set::<usize>::empty());
    if outcome.action is Abort {
        assert(outcome == model.abort(outcome.action->Abort_0, event));
        assert(outcome.next.owned() + closed_handles(outcome.release) + handed_over(outcome.action)
            =~= model.owned() + brought(event));
    } else if outcome.action is Install {
        let thread = event->ProcessCreated_thread;
        let process = event->ProcessCreated_process;
        let a = seq![Release::CloseHandle(thread)];
        let b = handle_release(model.stdin_read);
        let c = handle_release(model.stdout_write);
        lemma_closed_handles_single(Release::CloseHandle(thread));
        lemma_optional_release(model.stdin_read);
        lemma_optional_release(model.stdout_write);
        lemma_closed_handles_concat(a, b);
        lemma_closed_handles_concat(a + b, c);
        assert(outcome.next.owned() + closed_handles(outcome.release) + handed_over(outcome.action)
            =~= model.owned() + brought(event));
    } else if outcome.action is Nothing {
        assert(outcome.next.owned() + closed_handles(outcome.release) + handed_over(outcome.action)
            =~= model.owned() + brought(event));
    } else {
        assert(outcome.release =~= Seq::<Release>::empty());
        assert(outcome.next.owned() + closed_handles(outcome.release) + handed_over(outcome.action)
            =~= model.owned() + brought(event));
    }
}

/// The releases for whatever of a pseudo-console and its four pipe ends
/// exists, in the order of [`cleanup_plan`].
pub fn cleanup_handles(
    console: Option<usize>,
    stdin_read: Option<usize>,
    stdin_write: Option<usize>,
    stdout_read: Option<usize>,
    stdout_write: Option<usize>,
) -> (release: Vec<Release>)
    ensures
        release@ == cleanup_plan(console, stdin_read, stdin_write, stdout_read, stdout_write),
{
    let mut release: Vec<Release> = Vec::new();
    match console {
        Some(handle) => {
            release.push(Release::ClosePseudoConsole(handle));
        },
        None => {},
    }
    push_close(&mut release, stdin_read);
    push_close(&mut release, stdin_write);
    push_close(&mut release, stdout_read);
    push_close(&mut release, stdout_write);
    proof {
        assert(release@ =~= cleanup_plan(
            console,
            stdin_read,
            stdin_write,
            stdout_read,
            stdout_write,
        ));
    }
    release
}

fn push_close(release: &mut Vec<Release>, handle: Option<usize>)
    ensures
        final(release)@ == old(release)@ + handle_release(handle),
{
    match handle {
        Some(h) => {
            release.push(Release::CloseHandle(h));
        },
        None => {},
    }
}

fn push_refused(release: &mut Vec<Release>, event: LaunchEvent)
    ensures
        final(release)@ == old(release)@ + refused(event),
{
    match event {
        LaunchEvent::PipeCreated { read, write } => {
            release.push(Release::CloseHandle(read));
            release.push(Release::CloseHandle(write));
        },
        LaunchEvent::ConsoleCreated(console) => {
            release.push(Release::ClosePseudoConsole(console));
        },
        LaunchEvent::ProcessCreated { process, thread } => {
            release.push(Release::Terminate(process));
            release.push(Release::CloseHandle(thread));
            release.push(Release::CloseHandle(process));
        },
        LaunchEvent::Completed => {},
        LaunchEvent::Failed(_) => {},
    }
    proof {
        assert(release@ =~= old(release)@ + refused(event));
    }
}

/// A launch in progress.
pub struct PtyLaunch {
    stage: LaunchStage,
    console: Option<usize>,
    stdin_read: Option<usize>,
    stdin_write: Option<usize>,
    stdout_read: Option<usize>,
    stdout_write: Option<usize>,
}

impl View for PtyLaunch {
    type V = LaunchModel;

    closed spec fn view(&self) -> LaunchModel {
        LaunchModel {
            stage: self.stage,
            console: self.console,
            stdin_read: self.stdin_read,
            stdin_write: self.stdin_write,
            stdout_read: self.stdout_read,
            stdout_write: self.stdout_write,
        }
    }
}

impl PtyLaunch {
    #[verifier::type_invariant]
    spec fn well_formed(self) -> bool {
        self@.wf()
    }

    /// A new launch. Its first request is [`LaunchAction::CreateInputPipe`].
    pub fn new() -> (launch: PtyLaunch)
        ensures
            launch@ == LaunchModel::initial(),
    {
        PtyLaunch {
            stage: LaunchStage::InputPipe,
            console: None,
            stdin_read: None,
            stdin_write: None,
            stdout_read: None,
            stdout_write: None,
        }
    }

    fn finished() -> (launch: PtyLaunch)
        ensures
            launch@ == LaunchModel::finished(),
    {
        PtyLaunch {
            stage: LaunchStage::Finished,
            console: None,
            stdin_read: None,
            stdin_write: None,
            stdout_read: None,
            stdout_write: None,
        }
    }

    /// The stage that the launch is in.
    pub fn stage(&self) -> (stage: LaunchStage)
        ensures
            stage == self@.stage,
    {
        self.stage
    }

    fn give_up(&mut self, failure: SpawnFailure, event: LaunchEvent) -> (result: (
        LaunchAction,
        Vec<Release>,
    ))
        ensures
            final(self)@ == old(self)@.abort(failure, event).next,
            result.0 == old(self)@.abort(failure, event).action,
            result.1@ == old(self)@.abort(failure, event).release,
    {
        let mut release = cleanup_handles(
            self.console,
            self.stdin_read,
            self.stdin_write,
            self.stdout_read,
            self.stdout_write,
        );
        push_refused(&mut release, event);
        *self = PtyLaunch::finished();
        (LaunchAction::Abort(failure), release)
    }

    /// Takes the system's answer to the last request and says what to do
    /// next and which handles to release now: see [`LaunchModel::step`].
    pub fn advance(&mut self, event: LaunchEvent) -> (result: (LaunchAction, Vec<Release>))
        ensures
            old(self)@.wf(),
            final(self)@.wf(),
            final(self)@ == old(self)@.step(event).next,
            result.0 == old(self)@.step(event).action,
            result.1@ == old(self)@.step(event).release,
    {
        proof {
            use_type_invariant(&*self);
        }
        match self.stage {
            LaunchStage::InputPipe => match event {
                LaunchEvent::PipeCreated { read, write } => {
                    *self = PtyLaunch {
                        stage: LaunchStage::OutputPipe,
                        console: None,
                        stdin_read: Some(read),
                        stdin_write: Some(write),
                        stdout_read: None,
                        stdout_write: None,
                    };
                    (LaunchAction::CreateOutputPipe, Vec::new())
                },
                LaunchEvent::Failed(_) => self.give_up(SpawnFailure::Pipes, event),
                _ => self.give_up(SpawnFailure::Protocol, event),
            },
            LaunchStage::OutputPipe => match event {
                LaunchEvent::PipeCreated { read, write } => match self.stdin_read {
                    Some(input) => {
                        *self = PtyLaunch {
                            stage: LaunchStage::Console,
                            console: None,
                            stdin_read: self.stdin_read,
                            stdin_write: self.stdin_write,
                            stdout_read: Some(read),
                            stdout_write: Some(write),
                        };
                        (
                            LaunchAction::CreateConsole {
                                columns: CONSOLE_COLUMNS,
                                rows: CONSOLE_ROWS,
                                input,
                                output: write,
                            },
                            Vec::new(),
                        )
                    },
                    None => self.give_up(SpawnFailure::Protocol, event),
                },
                LaunchEvent::Failed(_) => self.give_up(SpawnFailure::Pipes, event),
                _ => self.give_up(SpawnFailure::Protocol, event),
            },
            LaunchStage::Console => match event {
                LaunchEvent::ConsoleCreated(console) => {
                    *self = PtyLaunch {
                        stage: LaunchStage::AttributeList,
                        console: Some(console),
                        stdin_read: self.stdin_read,
                        stdin_write: self.stdin_write,
                        stdout_read: self.stdout_read,
                        stdout_write: self.stdout_write,
                    };
                    (LaunchAction::InitializeAttributes, Vec::new())
                },
                LaunchEvent::Failed(code) => self.give_up(
                    SpawnFailure::PseudoConsole(code),
                    event,
                ),
                _ => self.give_up(SpawnFailure::Protocol, event),
            },
            LaunchStage::AttributeList => match event {
                LaunchEvent::Completed => match self.console {
                    Some(console) => {
                        self.stage = LaunchStage::AttributeUpdate;
                        (LaunchAction::UpdateAttributes { console }, Vec::new())
                    },
                    None => self.give_up(SpawnFailure::Protocol, event),
                },
                LaunchEvent::Failed(_) => self.give_up(SpawnFailure::AttributeList, event),
                _ => self.give_up(SpawnFailure::Protocol, event),
            },
            LaunchStage::AttributeUpdate => match event {
                LaunchEvent::Completed => {
                    self.stage = LaunchStage::Process;
                    (LaunchAction::CreateProcess, Vec::new())
                },
                LaunchEvent::Failed(_) => self.give_up(SpawnFailure::AttributeUpdate, event),
                _ => self.give_up(SpawnFailure::Protocol, event),
            },
            LaunchStage::Process => match event {
                LaunchEvent::ProcessCreated { process, thread } => match (
                    self.console,
                    self.stdin_write,
                    self.stdout_read,
                ) {
                    (Some(console), Some(input), Some(output)) => {
                        let mut release: Vec<Release> = Vec::new();
                        release.push(Release::CloseHandle(thread));
                        push_close(&mut release, self.stdin_read);
                        push_close(&mut release, self.stdout_write);
                        *self = PtyLaunch::finished();
                        (
                            LaunchAction::Install {
                                session: Session { process, pty: Some(console), input },
                                output,
                            },
                            release,
                        )
                    },
                    _ => self.give_up(SpawnFailure::Protocol, event),
                },
                LaunchEvent::Failed(_) => self.give_up(SpawnFailure::Process, event),
                _ => self.give_up(SpawnFailure::Protocol, event),
            },
            LaunchStage::Finished => {
                let mut release: Vec<Release> = Vec::new();
                push_refused(&mut release, event);
                (LaunchAction::Nothing, release)
            },
        }
    }
}

} // verus!
