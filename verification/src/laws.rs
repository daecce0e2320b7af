//! What holds of every run of the machine.
//!
//! A run is the sequence of events that the surrounding program reports, one
//! after the other, starting from the initial state. The statements here are
//! about the model of [`step`](crate::pipeline::step), which that function is
//! proved to follow.

use vstd::prelude::*;
use crate::args::InvocationView;
use crate::error::{ErrorKind, ExitOutcomeView};
use crate::executor::{rendered, shell_request_of};
use crate::pipeline::{
    on_remote_status, step_spec, ActionView, Event, OutputLineView, Sink, StateView,
    TransitionView,
};
use crate::repo::{inspected, is_clean, InspectFault, RepoContextView, RepoSnapshot};
use crate::session::{connect_request_of, Handshake, HostKeyCheck};
use crate::workspace::{
    clone_command_of, probe_command_of, workspace_path, ProvisionPhase, RemoteStatus,
};

verus! {

/// The state in which every run starts.
pub open spec fn initial(allow_uncommitted_changes: bool) -> StateView {
    StateView::Idle { allow_uncommitted_changes }
}

/// The state that the machine is in after `events`, starting from `state`.
pub open spec fn run(state: StateView, events: Seq<Event>) -> StateView
    decreases events.len(),
{
    if events.len() == 0 {
        state
    } else {
        step_spec(run(state, events.drop_last()), events.last()).next
    }
}

/// The machine's move on the event at index `i` of a run that starts in
/// `state`.
pub open spec fn move_at(state: StateView, events: Seq<Event>, i: int) -> TransitionView
    recommends
        0 <= i < events.len(),
{
    step_spec(run(state, events.take(i)), events[i])
}

/// Every line that a run shows, in order.
pub open spec fn transcript(state: StateView, events: Seq<Event>) -> Seq<OutputLineView>
    decreases events.len(),
{
    if events.len() == 0 {
        Seq::empty()
    } else {
        transcript(state, events.drop_last()) + step_spec(
            run(state, events.drop_last()),
            events.last(),
        ).output
    }
}

/// The state after the first `i + 1` events is the state that move `i` leads
/// to.
pub proof fn lemma_run_take(state: StateView, events: Seq<Event>, i: int)
    requires
        0 <= i < events.len(),
    ensures
        run(state, events.take(i + 1)) == move_at(state, events, i).next,
{
    assert(events.take(i + 1).drop_last() =~= events.take(i));
    assert(events.take(i + 1).last() == events[i]);
}

/// Once the process was told to exit, nothing changes any more.
pub proof fn lemma_done_is_final(state: StateView, events: Seq<Event>, i: int, n: int)
    requires
        0 <= i <= n <= events.len(),
        run(state, events.take(i)).is_done(),
    ensures
        run(state, events.take(n)) == run(state, events.take(i)),
    decreases n - i,
{
    if i < n {
        lemma_done_is_final(state, events, i, n - 1);
        lemma_run_take(state, events, n - 1);
    }
}

/// The process is told to exit at most once: of two moves of a run, at most
/// one is an `Exit`.
pub proof fn lemma_exit_at_most_once(state: StateView, events: Seq<Event>, i: int, j: int)
    requires
        0 <= i < j < events.len(),
        move_at(state, events, i).action is Exit,
    ensures
        !(move_at(state, events, j).action is Exit),
{
    lemma_run_take(state, events, i);
    lemma_done_is_final(state, events, i + 1, j);
}

/// An `Exit` ends the run, and its code is the code of the outcome: the
/// remote code of a completed run, 130 after an interrupt, 2 for a usage
/// error and 1 for every other failure.
pub proof fn lemma_exit_code_is_mapped(state: StateView, events: Seq<Event>, i: int)
    requires
        0 <= i < events.len(),
        move_at(state, events, i).action is Exit,
    ensures
        run(state, events) is Done,
        move_at(state, events, i).action == ActionView::Exit(
            run(state, events)->Done_outcome.exit_code(),
        ),
        run(state, events)->Done_outcome matches ExitOutcomeView::Completed(code)
            ==> run(state, events)->Done_outcome.exit_code() == code,
        run(state, events)->Done_outcome is Interrupted ==> run(
            state,
            events,
        )->Done_outcome.exit_code() == 130,
        run(state, events)->Done_outcome matches ExitOutcomeView::Failed(f) ==> run(
            state,
            events,
        )->Done_outcome.exit_code() == (if f.kind == ErrorKind::UsageError {
            2i32
        } else {
            1i32
        }),
{
    lemma_run_take(state, events, i);
    lemma_done_is_final(state, events, i + 1, events.len() as int);
    assert(events.take(events.len() as int) =~= events);
}

/// A run that is over was told to exit: some move of it is the `Exit`.
pub proof fn lemma_done_run_has_exited(state: StateView, events: Seq<Event>) -> (i: int)
    requires
        !state.is_done(),
        run(state, events).is_done(),
    ensures
        0 <= i < events.len(),
        move_at(state, events, i).action is Exit,
    decreases events.len(),
{
    let before = events.drop_last();
    if run(state, before).is_done() {
        let i = lemma_done_run_has_exited(state, before);
        assert(events.take(i) =~= before.take(i));
        i
    } else {
        let i = events.len() - 1;
        assert(events.take(i) =~= before);
        i
    }
}

/// For every run, the process exits exactly once: a run from the initial
/// state that is over has one move that is an `Exit`, and no other.
pub proof fn lemma_exit_exactly_once(allow_uncommitted_changes: bool, events: Seq<Event>) -> (i:
    int)
    requires
        run(initial(allow_uncommitted_changes), events).is_done(),
    ensures
        0 <= i < events.len(),
        move_at(initial(allow_uncommitted_changes), events, i).action is Exit,
        forall|j: int|
            0 <= j < events.len() && j != i ==> !(#[trigger] move_at(
                initial(allow_uncommitted_changes),
                events,
                j,
            ).action is Exit),
{
    let start = initial(allow_uncommitted_changes);
    let i = lemma_done_run_has_exited(start, events);
    assert forall|j: int| 0 <= j < events.len() && j != i implies !(#[trigger] move_at(
        start,
        events,
        j,
    ).action is Exit) by {
        if j < i {
            if move_at(start, events, j).action is Exit {
                lemma_exit_at_most_once(start, events, j, i);
            }
        } else {
            lemma_exit_at_most_once(start, events, i, j);
        }
    }
    i
}

/// Whether some state among the first `m` moves of the run held a session.
pub open spec fn session_seen(state: StateView, events: Seq<Event>, m: int) -> bool {
    exists|j: int| 0 <= j <= m && (#[trigger] run(state, events.take(j))).holds_session()
}

/// Whether one of the first `m` moves of the run asked to close the session.
pub open spec fn close_seen(state: StateView, events: Seq<Event>, m: int) -> bool {
    exists|k: int| 0 <= k < m && (#[trigger] move_at(state, events, k)).action is CloseSession
}

proof fn lemma_close_follows_session(allow_uncommitted_changes: bool, events: Seq<Event>, m: int)
    requires
        0 <= m <= events.len(),
    ensures
        ({
            let s = run(initial(allow_uncommitted_changes), events.take(m));
            session_seen(initial(allow_uncommitted_changes), events, m) && !(s is Provisioning)
                && !(s is Running) ==> close_seen(initial(allow_uncommitted_changes), events, m)
        }),
    decreases m,
{
    let start = initial(allow_uncommitted_changes);
    let s = run(start, events.take(m));
    if m == 0 {
        assert(events.take(0) =~= Seq::<Event>::empty());
        if session_seen(start, events, m) {
            let j = choose|j: int|
                0 <= j <= m && (#[trigger] run(start, events.take(j))).holds_session();
            assert(j == 0);
        }
    } else {
        lemma_close_follows_session(allow_uncommitted_changes, events, m - 1);
        lemma_run_take(start, events, m - 1);
        let before = run(start, events.take(m - 1));
        if session_seen(start, events, m) && !(s is Provisioning) && !(s is Running) {
            let j = choose|j: int|
                0 <= j <= m && (#[trigger] run(start, events.take(j))).holds_session();
            if j == m {
                // The state after move `m - 1` holds a session and is neither
                // provisioning nor running, so it is closing. A state that closes
                // follows one that held a session, too.
                assert(s is Closing);
                assert(before.holds_session());
            }
            assert(session_seen(start, events, m - 1));
            if before is Provisioning || before is Running {
                assert(move_at(start, events, m - 1).action is CloseSession);
            } else {
                let k = choose|k: int|
                    0 <= k < m - 1 && (#[trigger] move_at(start, events, k)).action is CloseSession;
                assert(0 <= k < m && move_at(start, events, k).action is CloseSession);
            }
        }
    }
}

/// For every run that opens a session, the session is closed before the
/// process exits: if some state before the `Exit` held a session, a move
/// before the `Exit` asked to close it.
pub proof fn lemma_session_closed_before_exit(
    allow_uncommitted_changes: bool,
    events: Seq<Event>,
    held_at: int,
    exit_at: int,
)
    requires
        0 <= held_at <= exit_at < events.len(),
        run(initial(allow_uncommitted_changes), events.take(held_at)).holds_session(),
        move_at(initial(allow_uncommitted_changes), events, exit_at).action is Exit,
    ensures
        exists|k: int|
            0 <= k < exit_at && (#[trigger] move_at(
                initial(allow_uncommitted_changes),
                events,
                k,
            )).action is CloseSession,
{
    lemma_close_follows_session(allow_uncommitted_changes, events, exit_at);
    assert(session_seen(initial(allow_uncommitted_changes), events, exit_at));
}

/// The line that the machine shows for a line of remote output.
pub open spec fn shown_line(event: Event) -> OutputLineView {
    match event {
        Event::RemoteLine(kind, line) => OutputLineView {
            sink: Sink::Stdout,
            text: rendered(kind, line@),
        },
        _ => arbitrary(),
    }
}

/// While the remote child runs, every line that it writes is shown exactly
/// once, with the prefix of its stream, in the order in which the lines were
/// reported: the transcript of the lines is their rendering, one for one.
pub proof fn lemma_remote_lines_are_relayed(events: Seq<Event>)
    requires
        forall|i: int| 0 <= i < events.len() ==> #[trigger] events[i] is RemoteLine,
    ensures
        run(StateView::Running, events) == StateView::Running,
        transcript(StateView::Running, events) == Seq::new(
            events.len(),
            |i: int| shown_line(events[i]),
        ),
    decreases events.len(),
{
    if events.len() > 0 {
        let before = events.drop_last();
        lemma_remote_lines_are_relayed(before);
        assert(events.last() is RemoteLine);
        assert(transcript(StateView::Running, events) =~= Seq::new(
            events.len(),
            |i: int| shown_line(events[i]),
        ));
    } else {
        assert(transcript(StateView::Running, events) =~= Seq::new(
            events.len(),
            |i: int| shown_line(events[i]),
        ));
    }
}

/// The workspace path used on the remote is the scratch root, a slash and
/// the inspected branch: the branch of the context is the branch that was
/// read, the probe tests that path, the clone clones into it and the shell
/// changes to it.
pub proof fn lemma_workspace_is_scratch_root_slash_branch(
    allow_uncommitted_changes: bool,
    invocation: InvocationView,
    snapshot: RepoSnapshot,
    repo: RepoContextView,
    phase: ProvisionPhase,
    status: RemoteStatus,
)
    ensures
        workspace_path(repo.branch) == "/tmp"@ + "/"@ + repo.branch,
        step_spec(
            StateView::Inspecting { allow_uncommitted_changes, invocation },
            Event::Inspected(Ok(snapshot)),
        ).next matches StateView::Connecting { repo: inspected, .. } ==> inspected.branch
            == snapshot.branch@,
        step_spec(
            StateView::Connecting { invocation, repo },
            Event::Handshake(Handshake::Established),
        ).action == ActionView::RunRemote(probe_command_of(workspace_path(repo.branch))),
        step_spec(
            StateView::Provisioning { phase, invocation, repo },
            Event::RemoteStatus(status),
        ).action matches ActionView::RunRemote(command) ==> command == clone_command_of(
            repo.branch,
            repo.upstream_url,
            workspace_path(repo.branch),
        ),
        step_spec(
            StateView::Provisioning { phase, invocation, repo },
            Event::RemoteStatus(status),
        ).action matches ActionView::Spawn(request) ==> request.script == "cd "@ + workspace_path(
            repo.branch,
        ) + " && "@ + invocation.command,
{
}

/// What the probe answers on a remote whose existing directories are
/// `scratch`.
pub open spec fn probe_answer(scratch: Set<Seq<char>>, path: Seq<char>) -> RemoteStatus {
    if scratch.contains(path) {
        RemoteStatus::Success
    } else {
        RemoteStatus::Failure
    }
}

/// What the clone answers.
pub open spec fn clone_answer(clone_succeeds: bool) -> RemoteStatus {
    if clone_succeeds {
        RemoteStatus::Success
    } else {
        RemoteStatus::Failure
    }
}

/// How provisioning goes on a remote: the actions that the machine asks for
/// after the probe was sent, the state it reaches and the directories that
/// exist afterwards.
pub struct ProvisioningRun {
    pub actions: Seq<ActionView>,
    pub reached: StateView,
    pub scratch: Set<Seq<char>>,
}

/// Provisioning on a remote whose existing directories are `scratch`. The
/// probe succeeds when the workspace path is among them. A clone that
/// succeeds creates the workspace; nothing else changes the remote.
pub open spec fn provisioning(
    invocation: InvocationView,
    repo: RepoContextView,
    scratch: Set<Seq<char>>,
    clone_succeeds: bool,
) -> ProvisioningRun {
    let path = workspace_path(repo.branch);
    let probed = on_remote_status(
        ProvisionPhase::Probing,
        invocation,
        repo,
        probe_answer(scratch, path),
    );
    if probed.action is RunRemote {
        let cloned = on_remote_status(
            ProvisionPhase::Cloning,
            invocation,
            repo,
            clone_answer(clone_succeeds),
        );
        ProvisioningRun {
            actions: seq![probed.action, cloned.action],
            reached: cloned.next,
            scratch: if clone_succeeds {
                scratch.insert(path)
            } else {
                scratch
            },
        }
    } else {
        ProvisioningRun { actions: seq![probed.action], reached: probed.next, scratch }
    }
}

/// Running the same invocation twice with an unchanged remote scratch: if
/// the first run provisioned the workspace, the second run asks for no clone
/// and leaves the remote as it is, and spawns the same shell as the first.
pub proof fn lemma_second_run_skips_clone(
    invocation: InvocationView,
    repo: RepoContextView,
    scratch: Set<Seq<char>>,
    first_clone_succeeds: bool,
    second_clone_succeeds: bool,
)
    requires
        provisioning(invocation, repo, scratch, first_clone_succeeds).reached is Running,
    ensures
        ({
            let first = provisioning(invocation, repo, scratch, first_clone_succeeds);
            let second = provisioning(invocation, repo, first.scratch, second_clone_succeeds);
            &&& second.reached is Running
            &&& second.scratch == first.scratch
            &&& second.actions == seq![
                ActionView::Spawn(
                    shell_request_of(invocation.command, workspace_path(repo.branch)),
                ),
            ]
            &&& second.actions.last() == first.actions.last()
        }),
{
    let first = provisioning(invocation, repo, scratch, first_clone_succeeds);
    assert(first.scratch.contains(workspace_path(repo.branch)));
}

/// Fewer than two tokens after the program's name: a usage error, and the
/// process exits with code 2.
pub proof fn lemma_too_few_arguments(allow_uncommitted_changes: bool, args: Vec<String>)
    requires
        args@.len() < 3,
    ensures
        ({
            let t = step_spec(initial(allow_uncommitted_changes), Event::Invoked(args));
            &&& t.next matches StateView::Done { outcome: ExitOutcomeView::Failed(f) }
            &&& f.kind == ErrorKind::UsageError
            &&& t.action == ActionView::Exit(2)
        }),
{
}

/// A working copy that cannot be read, a detached HEAD among the cases, is
/// `LocalRepoInvalid`: the process exits with code 1 and no session is
/// opened.
pub proof fn lemma_unreadable_repo_opens_no_session(
    allow_uncommitted_changes: bool,
    invocation: InvocationView,
    fault: InspectFault,
)
    ensures
        ({
            let t = step_spec(
                StateView::Inspecting { allow_uncommitted_changes, invocation },
                Event::Inspected(Err(fault)),
            );
            &&& t.next matches StateView::Done { outcome: ExitOutcomeView::Failed(f) }
            &&& f.kind == ErrorKind::LocalRepoInvalid
            &&& t.action == ActionView::Exit(1)
            &&& !t.next.holds_session()
        }),
{
}

/// A dirty working copy under the policy that forbids it is
/// `DirtyWorkingCopy`: the process exits with code 1 and no session is
/// opened. Under the policy that allows it the warnings are shown and the run
/// goes on to the handshake.
pub proof fn lemma_dirty_working_copy(
    allow_uncommitted_changes: bool,
    invocation: InvocationView,
    snapshot: RepoSnapshot,
)
    requires
        snapshot.branch@.len() > 0,
        snapshot.upstream_url@.len() > 0,
        !is_clean(snapshot.entries@),
    ensures
        ({
            let t = step_spec(
                StateView::Inspecting { allow_uncommitted_changes, invocation },
                Event::Inspected(Ok(snapshot)),
            );
            let lines = inspected(Ok(snapshot), allow_uncommitted_changes).lines;
            &&& lines.len() > 0
            &&& !allow_uncommitted_changes ==> {
                &&& t.next matches StateView::Done { outcome: ExitOutcomeView::Failed(f) }
                &&& f.kind == ErrorKind::DirtyWorkingCopy
                &&& t.action == ActionView::Exit(1)
                &&& !t.next.holds_session()
            }
            &&& allow_uncommitted_changes ==> {
                &&& t.next is Connecting
                &&& t.action == ActionView::Connect(connect_request_of(invocation.host))
                &&& t.output.len() == lines.len()
                &&& forall|i: int|
                    0 <= i < lines.len() ==> #[trigger] t.output[i] == (OutputLineView {
                        sink: Sink::Stdout,
                        text: lines[i],
                    })
            }
        }),
{
}

/// The handshake is asked for with strict host key checking and a deadline
/// of 5 seconds, and a handshake that exceeds the deadline is
/// `ConnectTimeout`: the process exits with code 1.
pub proof fn lemma_handshake_deadline(invocation: InvocationView, repo: RepoContextView)
    ensures
        connect_request_of(invocation.host).timeout_secs == 5,
        connect_request_of(invocation.host).host_keys == HostKeyCheck::Strict,
        ({
            let t = step_spec(
                StateView::Connecting { invocation, repo },
                Event::Handshake(Handshake::DeadlineExceeded),
            );
            &&& t.next matches StateView::Done { outcome: ExitOutcomeView::Failed(f) }
            &&& f.kind == ErrorKind::ConnectTimeout
            &&& t.action == ActionView::Exit(1)
        }),
{
}

/// An interrupt while the remote child runs: the session is closed, and
/// then the process exits with code 130, whether closing worked or not.
pub proof fn lemma_interrupt_while_running(closed: Option<String>)
    ensures
        ({
            let interrupted = step_spec(StateView::Running, Event::Interrupt);
            let exited = step_spec(interrupted.next, Event::SessionClosed(closed));
            &&& interrupted.action == ActionView::CloseSession
            &&& interrupted.next == (StateView::Closing { outcome: ExitOutcomeView::Interrupted })
            &&& exited.action == ActionView::Exit(130)
            &&& exited.next == (StateView::Done { outcome: ExitOutcomeView::Interrupted })
        }),
{
}

} // verus!
