//! The driver of a run, as a state machine.
//!
//! The surrounding program owns everything that touches the outside world. It
//! starts in [`State::new`], hands each thing that happened to [`step`] as an
//! [`Event`], shows the lines of the [`Transition`] it gets back and then
//! performs its [`Action`]. The machine decides what comes next, which stage
//! an error belongs to, when the session is closed and with which code the
//! process exits.

use vstd::prelude::*;
use vstd::string::*;
use crate::args::{parse_args, parsed, usage_line, usage_text, Invocation, InvocationView};
use crate::error::{ErrorKind, ExitOutcome, ExitOutcomeView, Failure, FailureView};
use crate::executor::{
    exit_code_of_child, remote_exit_code, render_line, rendered, shell_request_of, start_shell,
    ShellRequest, ShellRequestView, StreamKind,
};
use crate::repo::{
    get_repo_info, inspected, InspectFault, RepoContext, RepoContextView, RepoReport,
    RepoSnapshot,
};
use crate::session::{
    classify_handshake, connect_request, connect_request_of, handshake_failure, ConnectRequest,
    ConnectRequestView, Handshake,
};
use crate::text::texts;
use crate::workspace::{
    create_tmp_repository, probe_command, probe_command_of, provisioned, workspace_for,
    workspace_path, ProvisionPhase, ProvisionStep, ProvisionStepView, RemoteCommand,
    RemoteCommandView, RemoteStatus,
};

verus! {

/// Where a line is shown: warnings and remote output go to stdout, errors to
/// stderr.
#[derive(Debug, Clone, Copy, PartialEq, Eq, Structural)]
pub enum Sink {
    Stdout,
    Stderr,
}

/// One line to show the user.
#[derive(Debug, PartialEq, Eq)]
pub struct OutputLine {
    pub sink: Sink,
    pub text: String,
}

/// What an `OutputLine` holds, as plain values.
pub struct OutputLineView {
    pub sink: Sink,
    pub text: Seq<char>,
}

impl View for OutputLine {
    type V = OutputLineView;

    open spec fn view(&self) -> OutputLineView {
        OutputLineView { sink: self.sink, text: self.text@ }
    }
}

/// The views of a list of output lines, in order.
pub open spec fn output_views(lines: Seq<OutputLine>) -> Seq<OutputLineView> {
    Seq::new(lines.len(), |i: int| lines[i]@)
}

/// The given texts as lines for stdout, in order.
pub open spec fn stdout_lines(lines: Seq<Seq<char>>) -> Seq<OutputLineView> {
    Seq::new(lines.len(), |i: int| OutputLineView { sink: Sink::Stdout, text: lines[i] })
}

/// The line on stderr that reports a failure.
pub open spec fn error_line(f: FailureView) -> OutputLineView {
    OutputLineView { sink: Sink::Stderr, text: f.line() }
}

/// Something that happened outside and is reported to the machine.
#[derive(Debug, PartialEq, Eq)]
pub enum Event {
    /// The process was started with this argument vector.
    Invoked(Vec<String>),
    /// The local working copy was read, or reading it failed.
    Inspected(Result<RepoSnapshot, InspectFault>),
    /// The handshake ended.
    Handshake(Handshake),
    /// The remote command that was asked for ended.
    RemoteStatus(RemoteStatus),
    /// The remote child wrote a line to one of its streams.
    RemoteLine(StreamKind, String),
    /// The remote child exited, with a code unless a signal ended it.
    ChildExited(Option<i32>),
    /// Spawning the remote child or streaming from it failed.
    ChildFailed(String),
    /// The user sent the interrupt signal.
    Interrupt,
    /// The session was closed; the message says why closing failed, if it
    /// did.
    SessionClosed(Option<String>),
}

/// What the surrounding program is asked to do next.
#[derive(Debug, PartialEq, Eq)]
pub enum Action {
    /// Read the local working copy and report `Event::Inspected`.
    Inspect,
    /// Perform the handshake and report `Event::Handshake`.
    Connect(ConnectRequest),
    /// Run the command on the remote and report `Event::RemoteStatus`.
    RunRemote(RemoteCommand),
    /// Spawn the shell, report each line it writes and how it ends, and
    /// report an interrupt if one arrives first.
    Spawn(ShellRequest),
    /// Nothing new: go on reporting events.
    Await,
    /// Close the session and report `Event::SessionClosed`.
    CloseSession,
    /// Exit the process with this code.
    Exit(i32),
}

/// What an `Action` holds, as plain values.
pub enum ActionView {
    Inspect,
    Connect(ConnectRequestView),
    RunRemote(RemoteCommandView),
    Spawn(ShellRequestView),
    Await,
    CloseSession,
    Exit(i32),
}

impl View for Action {
    type V = ActionView;

    open spec fn view(&self) -> ActionView {
        match self {
            Action::Inspect => ActionView::Inspect,
            Action::Connect(r) => ActionView::Connect(r@),
            Action::RunRemote(c) => ActionView::RunRemote(c@),
            Action::Spawn(s) => ActionView::Spawn(s@),
            Action::Await => ActionView::Await,
            Action::CloseSession => ActionView::CloseSession,
            Action::Exit(code) => ActionView::Exit(*code),
        }
    }
}

/// How far a run has come.
#[derive(Debug, PartialEq, Eq)]
pub enum State {
    /// Nothing has happened yet.
    Idle { allow_uncommitted_changes: bool },
    /// The arguments are parsed; the local working copy is being read.
    Inspecting { allow_uncommitted_changes: bool, invocation: Invocation },
    /// The working copy is inspected; the handshake runs.
    Connecting { invocation: Invocation, repo: RepoContext },
    /// The session is open; the probe or the clone runs.
    Provisioning { phase: ProvisionPhase, invocation: Invocation, repo: RepoContext },
    /// The remote child runs.
    Running,
    /// The run is decided; the session is being closed.
    Closing { outcome: ExitOutcome },
    /// The process was told to exit.
    Done { outcome: ExitOutcome },
}

/// What a `State` holds, as plain values.
pub enum StateView {
    Idle { allow_uncommitted_changes: bool },
    Inspecting { allow_uncommitted_changes: bool, invocation: InvocationView },
    Connecting { invocation: InvocationView, repo: RepoContextView },
    Provisioning { phase: ProvisionPhase, invocation: InvocationView, repo: RepoContextView },
    Running,
    Closing { outcome: ExitOutcomeView },
    Done { outcome: ExitOutcomeView },
}

impl View for State {
    type V = StateView;

    open spec fn view(&self) -> StateView {
        match self {
            State::Idle { allow_uncommitted_changes } => StateView::Idle {
                allow_uncommitted_changes: *allow_uncommitted_changes,
            },
            State::Inspecting { allow_uncommitted_changes, invocation } => StateView::Inspecting {
                allow_uncommitted_changes: *allow_uncommitted_changes,
                invocation: invocation@,
            },
            State::Connecting { invocation, repo } => StateView::Connecting {
                invocation: invocation@,
                repo: repo@,
            },
            State::Provisioning { phase, invocation, repo } => StateView::Provisioning {
                phase: *phase,
                invocation: invocation@,
                repo: repo@,
            },
            State::Running => StateView::Running,
            State::Closing { outcome } => StateView::Closing { outcome: outcome@ },
            State::Done { outcome } => StateView::Done { outcome: outcome@ },
        }
    }
}

impl StateView {
    /// Whether a session is open in this state: from the successful handshake
    /// until the process is told to exit.
    pub open spec fn holds_session(self) -> bool {
        self is Provisioning || self is Running || self is Closing
    }

    /// Whether the run is over.
    pub open spec fn is_done(self) -> bool {
        self is Done
    }

    /// What the state carries is valid: host, command, branch and upstream
    /// URL are present.
    pub open spec fn wf(self) -> bool {
        match self {
            StateView::Inspecting { invocation, .. } => invocation.wf(),
            StateView::Connecting { invocation, repo } => invocation.wf() && repo.wf(),
            StateView::Provisioning { invocation, repo, .. } => invocation.wf() && repo.wf(),
            _ => true,
        }
    }
}

/// One move of the machine: the state after it, the lines to show, in order,
/// and what to do next.
#[derive(Debug, PartialEq, Eq)]
pub struct Transition {
    pub next: State,
    pub output: Vec<OutputLine>,
    pub action: Action,
}

/// What a `Transition` holds, as plain values.
pub struct TransitionView {
    pub next: StateView,
    pub output: Seq<OutputLineView>,
    pub action: ActionView,
}

impl View for Transition {
    type V = TransitionView;

    open spec fn view(&self) -> TransitionView {
        TransitionView {
            next: self.next@,
            output: output_views(self.output@),
            action: self.action@,
        }
    }
}

/// The name under which the program was called, or `offload` where the
/// argument vector is empty.
pub open spec fn program_name(args: Seq<Seq<char>>) -> Seq<char> {
    if args.len() > 0 {
        args[0]
    } else {
        "offload"@
    }
}

/// A failure before a session exists: it is reported after `shown` and the
/// process exits at once.
pub open spec fn fail_early(shown: Seq<OutputLineView>, f: FailureView) -> TransitionView {
    let outcome = ExitOutcomeView::Failed(f);
    TransitionView {
        next: StateView::Done { outcome },
        output: shown.push(error_line(f)),
        action: ActionView::Exit(outcome.exit_code()),
    }
}

/// The end of a run that holds a session: the lines `shown` are shown and the
/// session is closed before anything else.
pub open spec fn wind_down(shown: Seq<OutputLineView>, outcome: ExitOutcomeView) -> TransitionView {
    TransitionView {
        next: StateView::Closing { outcome },
        output: shown,
        action: ActionView::CloseSession,
    }
}

/// The move after the process was started: parse the arguments, then inspect
/// the working copy. A usage error shows the usage line and the error.
pub open spec fn on_invoked(allow_uncommitted_changes: bool, args: Seq<Seq<char>>) -> TransitionView {
    match parsed(args) {
        Ok(invocation) => TransitionView {
            next: StateView::Inspecting { allow_uncommitted_changes, invocation },
            output: Seq::empty(),
            action: ActionView::Inspect,
        },
        Err(f) => fail_early(
            seq![OutputLineView { sink: Sink::Stdout, text: usage_text(program_name(args)) }],
            f,
        ),
    }
}

/// The move after the working copy was read: show the inspector's lines,
/// then connect to the host, or fail.
pub open spec fn on_inspected(
    allow_uncommitted_changes: bool,
    invocation: InvocationView,
    inspection: Result<RepoSnapshot, InspectFault>,
) -> TransitionView {
    let report = inspected(inspection, allow_uncommitted_changes);
    match report.result {
        Ok(repo) => TransitionView {
            next: StateView::Connecting { invocation, repo },
            output: stdout_lines(report.lines),
            action: ActionView::Connect(connect_request_of(invocation.host)),
        },
        Err(f) => fail_early(stdout_lines(report.lines), f),
    }
}

/// The move after the handshake: probe the workspace, or fail.
pub open spec fn on_handshake(
    invocation: InvocationView,
    repo: RepoContextView,
    handshake: Handshake,
) -> TransitionView {
    match handshake_failure(handshake) {
        None => TransitionView {
            next: StateView::Provisioning { phase: ProvisionPhase::Probing, invocation, repo },
            output: Seq::empty(),
            action: ActionView::RunRemote(probe_command_of(workspace_path(repo.branch))),
        },
        Some(f) => fail_early(Seq::empty(), f),
    }
}

/// The lines for an optional notice.
pub open spec fn notice_lines(notice: Option<Seq<char>>) -> Seq<OutputLineView> {
    match notice {
        Some(text) => seq![OutputLineView { sink: Sink::Stdout, text }],
        None => Seq::empty(),
    }
}

/// The move after the probe or the clone ended: clone, spawn the shell in
/// the workspace, or report the failure and close the session.
pub open spec fn on_remote_status(
    phase: ProvisionPhase,
    invocation: InvocationView,
    repo: RepoContextView,
    status: RemoteStatus,
) -> TransitionView {
    match provisioned(repo.branch, repo.upstream_url, phase, status) {
        ProvisionStepView::Ready { workspace, notice } => TransitionView {
            next: StateView::Running,
            output: notice_lines(notice),
            action: ActionView::Spawn(shell_request_of(invocation.command, workspace.path)),
        },
        ProvisionStepView::CloneNext(command) => TransitionView {
            next: StateView::Provisioning { phase: ProvisionPhase::Cloning, invocation, repo },
            output: Seq::empty(),
            action: ActionView::RunRemote(command),
        },
        ProvisionStepView::Failed(f) => wind_down(seq![error_line(f)], ExitOutcomeView::Failed(f)),
    }
}

/// The failure of a remote child that could not be spawned or streamed.
pub open spec fn child_failure(message: Seq<char>) -> FailureView {
    FailureView { kind: ErrorKind::ExecutionError, reason: "Error in running shell: "@ + message }
}

/// The failure to close the session. It is reported and changes nothing
/// else.
pub open spec fn close_failure(message: Seq<char>) -> FailureView {
    FailureView { kind: ErrorKind::SessionError, reason: "Error closing session: "@ + message }
}

/// The move after the session was closed: report a failure to close, then
/// exit with the code of the outcome that was decided before.
pub open spec fn on_session_closed(outcome: ExitOutcomeView, error: Option<String>) -> TransitionView {
    TransitionView {
        next: StateView::Done { outcome },
        output: match error {
            Some(m) => seq![error_line(close_failure(m@))],
            None => Seq::empty(),
        },
        action: ActionView::Exit(outcome.exit_code()),
    }
}

/// The machine's move in `state` on `event`.
///
/// Each state waits for one kind of event, `Running` for four: a line of
/// remote output, the child's exit, its failure, or the interrupt, whichever
/// comes first. An event that the state does not wait for changes nothing:
/// the state stays, nothing is shown, and the action is `Await`. So an
/// interrupt has an effect only while the remote child runs.
pub open spec fn step_spec(state: StateView, event: Event) -> TransitionView {
    match (state, event) {
        (StateView::Idle { allow_uncommitted_changes }, Event::Invoked(args)) => on_invoked(
            allow_uncommitted_changes,
            texts(args@),
        ),
        (
            StateView::Inspecting { allow_uncommitted_changes, invocation },
            Event::Inspected(inspection),
        ) => on_inspected(allow_uncommitted_changes, invocation, inspection),
        (StateView::Connecting { invocation, repo }, Event::Handshake(handshake)) => on_handshake(
            invocation,
            repo,
            handshake,
        ),
        (
            StateView::Provisioning { phase, invocation, repo },
            Event::RemoteStatus(status),
        ) => on_remote_status(phase, invocation, repo, status),
        (StateView::Running, Event::RemoteLine(kind, line)) => TransitionView {
            next: StateView::Running,
            output: seq![OutputLineView { sink: Sink::Stdout, text: rendered(kind, line@) }],
            action: ActionView::Await,
        },
        (StateView::Running, Event::ChildExited(status)) => wind_down(
            Seq::empty(),
            ExitOutcomeView::Completed(remote_exit_code(status)),
        ),
        (StateView::Running, Event::ChildFailed(message)) => wind_down(
            seq![error_line(child_failure(message@))],
            ExitOutcomeView::Failed(child_failure(message@)),
        ),
        (StateView::Running, Event::Interrupt) => wind_down(
            Seq::empty(),
            ExitOutcomeView::Interrupted,
        ),
        (StateView::Closing { outcome }, Event::SessionClosed(error)) => on_session_closed(
            outcome,
            error,
        ),
        (state, _) => TransitionView {
            next: state,
            output: Seq::empty(),
            action: ActionView::Await,
        },
    }
}

/// The given texts as lines for stdout.
fn to_stdout(lines: Vec<String>) -> (out: Vec<OutputLine>)
    ensures
        output_views(out@) == stdout_lines(texts(lines@)),
{
    let mut out: Vec<OutputLine> = Vec::new();
    let mut i: usize = 0;
    while i < lines.len()
        invariant
            i <= lines.len(),
            out.len() == i,
            forall|k: int|
                0 <= k < i ==> (#[trigger] out@[k])@ == (OutputLineView {
                    sink: Sink::Stdout,
                    text: lines@[k]@,
                }),
        decreases lines.len() - i,
    {
        out.push(OutputLine { sink: Sink::Stdout, text: lines[i].clone() });
        i = i + 1;
    }
    proof {
        assert(output_views(out@) =~= stdout_lines(texts(lines@)));
    }
    out
}

/// Reports `f` after `shown` and ends the run without a session.
fn exit_early(shown: Vec<OutputLine>, f: Failure) -> (t: Transition)
    ensures
        t@ == fail_early(output_views(shown@), f@),
{
    let mut output = shown;
    output.push(OutputLine { sink: Sink::Stderr, text: f.line() });
    let outcome = ExitOutcome::Failed(f);
    let code = outcome.exit_code();
    let t = Transition { next: State::Done { outcome }, output, action: Action::Exit(code) };
    proof {
        assert(t@.output =~= output_views(shown@).push(error_line(f@)));
    }
    t
}

/// Shows `shown` and closes the session, with the run decided as `outcome`.
fn close_with(shown: Vec<OutputLine>, outcome: ExitOutcome) -> (t: Transition)
    ensures
        t@ == wind_down(output_views(shown@), outcome@),
{
    Transition { next: State::Closing { outcome }, output: shown, action: Action::CloseSession }
}

/// The one line on stderr that reports `f`.
fn report(f: &Failure) -> (lines: Vec<OutputLine>)
    ensures
        output_views(lines@) == seq![error_line(f@)],
{
    let mut lines: Vec<OutputLine> = Vec::new();
    lines.push(OutputLine { sink: Sink::Stderr, text: f.line() });
    proof {
        assert(output_views(lines@) =~= seq![error_line(f@)]);
    }
    lines
}

/// No lines.
fn nothing() -> (lines: Vec<OutputLine>)
    ensures
        output_views(lines@) == Seq::<OutputLineView>::empty(),
{
    let lines: Vec<OutputLine> = Vec::new();
    proof {
        assert(output_views(lines@) =~= Seq::<OutputLineView>::empty());
    }
    lines
}

fn handle_invoked(allow_uncommitted_changes: bool, args: Vec<String>) -> (t: Transition)
    ensures
        t@ == on_invoked(allow_uncommitted_changes, texts(args@)),
        t@.next.wf(),
{
    let program = if args.len() > 0 {
        args[0].clone()
    } else {
        String::from_str("offload")
    };
    let ghost given = texts(args@);
    match parse_args(args) {
        Ok(invocation) => Transition {
            next: State::Inspecting { allow_uncommitted_changes, invocation },
            output: nothing(),
            action: Action::Inspect,
        },
        Err(f) => {
            let mut shown: Vec<OutputLine> = Vec::new();
            shown.push(OutputLine { sink: Sink::Stdout, text: usage_line(program.as_str()) });
            proof {
                assert(output_views(shown@) =~= seq![
                    OutputLineView { sink: Sink::Stdout, text: usage_text(program_name(given)) },
                ]);
            }
            exit_early(shown, f)
        },
    }
}

fn handle_inspected(
    allow_uncommitted_changes: bool,
    invocation: Invocation,
    inspection: Result<RepoSnapshot, InspectFault>,
) -> (t: Transition)
    ensures
        t@ == on_inspected(allow_uncommitted_changes, invocation@, inspection),
        invocation@.wf() ==> t@.next.wf(),
{
    let RepoReport { lines, result } = get_repo_info(inspection, allow_uncommitted_changes);
    let shown = to_stdout(lines);
    match result {
        Ok(repo) => {
            let request = connect_request(invocation.host.as_str());
            Transition {
                next: State::Connecting { invocation, repo },
                output: shown,
                action: Action::Connect(request),
            }
        },
        Err(f) => exit_early(shown, f),
    }
}

fn handle_handshake(invocation: Invocation, repo: RepoContext, handshake: Handshake) -> (t:
    Transition)
    ensures
        t@ == on_handshake(invocation@, repo@, handshake),
        invocation@.wf() && repo@.wf() ==> t@.next.wf(),
{
    match classify_handshake(handshake) {
        None => {
            let workspace = workspace_for(repo.branch.as_str());
            let command = probe_command(&workspace);
            Transition {
                next: State::Provisioning { phase: ProvisionPhase::Probing, invocation, repo },
                output: nothing(),
                action: Action::RunRemote(command),
            }
        },
        Some(f) => exit_early(nothing(), f),
    }
}

fn handle_remote_status(
    phase: ProvisionPhase,
    invocation: Invocation,
    repo: RepoContext,
    status: RemoteStatus,
) -> (t: Transition)
    ensures
        t@ == on_remote_status(phase, invocation@, repo@, status),
        invocation@.wf() && repo@.wf() ==> t@.next.wf(),
{
    match create_tmp_repository(repo.branch.as_str(), repo.upstream_url.as_str(), phase, status) {
        ProvisionStep::Ready { workspace, notice } => {
            let mut output: Vec<OutputLine> = Vec::new();
            match notice {
                Some(text) => {
                    output.push(OutputLine { sink: Sink::Stdout, text });
                },
                None => {},
            }
            let request = start_shell(invocation.command.as_str(), workspace.path.as_str());
            let t = Transition { next: State::Running, output, action: Action::Spawn(request) };
            proof {
                assert(t@.output =~= notice_lines(
                    match notice {
                        Some(n) => Some(n@),
                        None => None,
                    },
                ));
            }
            t
        },
        ProvisionStep::CloneNext(command) => Transition {
            next: State::Provisioning { phase: ProvisionPhase::Cloning, invocation, repo },
            output: nothing(),
            action: Action::RunRemote(command),
        },
        ProvisionStep::Failed(f) => {
            let shown = report(&f);
            close_with(shown, ExitOutcome::Failed(f))
        },
    }
}

fn handle_session_closed(outcome: ExitOutcome, error: Option<String>) -> (t: Transition)
    ensures
        t@ == on_session_closed(outcome@, error),
{
    let output = match error {
        Some(m) => {
            let f = Failure {
                kind: ErrorKind::SessionError,
                reason: String::from_str("Error closing session: ").concat(m.as_str()),
            };
            report(&f)
        },
        None => nothing(),
    };
    let code = outcome.exit_code();
    Transition { next: State::Done { outcome }, output, action: Action::Exit(code) }
}

impl State {
    /// The state in which every run starts. The flag is the policy on a
    /// dirty working copy: proceed with a warning, or fail.
    pub fn new(allow_uncommitted_changes: bool) -> (state: State)
        ensures
            state@ == (StateView::Idle { allow_uncommitted_changes }),
            state@.wf(),
    {
        State::Idle { allow_uncommitted_changes }
    }

    /// Whether the run is over: the process was told to exit.
    pub fn is_done(&self) -> (done: bool)
        ensures
            done == self@.is_done(),
    {
        match self {
            State::Done { .. } => true,
            _ => false,
        }
    }

    /// Whether a session is open in this state.
    pub fn holds_session(&self) -> (open: bool)
        ensures
            open == self@.holds_session(),
    {
        match self {
            State::Provisioning { .. } | State::Running | State::Closing { .. } => true,
            _ => false,
        }
    }
}

/// Moves the machine: given the state and what happened, the next state, the
/// lines to show and the action to perform. A valid state is followed by a
/// valid state.
pub fn step(state: State, event: Event) -> (t: Transition)
    ensures
        t@ == step_spec(state@, event),
        state@.wf() ==> t@.next.wf(),
{
    match (state, event) {
        (State::Idle { allow_uncommitted_changes }, Event::Invoked(args)) => handle_invoked(
            allow_uncommitted_changes,
            args,
        ),
        (
            State::Inspecting { allow_uncommitted_changes, invocation },
            Event::Inspected(inspection),
        ) => handle_inspected(allow_uncommitted_changes, invocation, inspection),
        (State::Connecting { invocation, repo }, Event::Handshake(handshake)) => handle_handshake(
            invocation,
            repo,
            handshake,
        ),
        (
            State::Provisioning { phase, invocation, repo },
            Event::RemoteStatus(status),
        ) => handle_remote_status(phase, invocation, repo, status),
        (State::Running, Event::RemoteLine(kind, line)) => {
            let mut output: Vec<OutputLine> = Vec::new();
            output.push(OutputLine { sink: Sink::Stdout, text: render_line(kind, line.as_str()) });
            let t = Transition { next: State::Running, output, action: Action::Await };
            proof {
                assert(t@.output =~= seq![
                    OutputLineView { sink: Sink::Stdout, text: rendered(kind, line@) },
                ]);
            }
            t
        },
        (State::Running, Event::ChildExited(status)) => close_with(
            nothing(),
            ExitOutcome::Completed(exit_code_of_child(status)),
        ),
        (State::Running, Event::ChildFailed(message)) => {
            let f = Failure {
                kind: ErrorKind::ExecutionError,
                reason: String::from_str("Error in running shell: ").concat(message.as_str()),
            };
            let shown = report(&f);
            close_with(shown, ExitOutcome::Failed(f))
        },
        (State::Running, Event::Interrupt) => close_with(nothing(), ExitOutcome::Interrupted),
        (State::Closing { outcome }, Event::SessionClosed(error)) => handle_session_closed(
            outcome,
            error,
        ),
        (state, _) => Transition { next: state, output: nothing(), action: Action::Await },
    }
}

} // verus!
