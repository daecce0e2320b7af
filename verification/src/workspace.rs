//! The remote workspace provisioner: where the working copy lives on the
//! remote, how its presence is probed and how it is cloned.

use vstd::prelude::*;
use vstd::string::*;
use crate::error::{ErrorKind, Failure, FailureView};
use crate::text::texts;

verus! {

/// The directory on the remote that holds the working copy of one branch.
/// The path is absolute.
#[derive(Debug, PartialEq, Eq)]
pub struct RemoteWorkspace {
    pub path: String,
}

/// What a `RemoteWorkspace` holds, as plain values.
pub struct RemoteWorkspaceView {
    pub path: Seq<char>,
}

impl View for RemoteWorkspace {
    type V = RemoteWorkspaceView;

    open spec fn view(&self) -> RemoteWorkspaceView {
        RemoteWorkspaceView { path: self.path@ }
    }
}

/// The writable directory on the remote under which workspaces are made.
pub open spec fn scratch_root() -> Seq<char> {
    "/tmp"@
}

/// The path of the workspace for `branch`: the scratch root, a slash and the
/// branch name.
pub open spec fn workspace_path(branch: Seq<char>) -> Seq<char> {
    scratch_root() + "/"@ + branch
}

/// The workspace for `branch`.
pub fn workspace_for(branch: &str) -> (workspace: RemoteWorkspace)
    ensures
        workspace@.path == workspace_path(branch@),
        workspace@.path.len() > 0,
        workspace@.path[0] == '/',
{
    proof {
        reveal_strlit("/tmp");
        reveal_strlit("/");
    }
    let path = String::from_str("/tmp").concat("/").concat(branch);
    RemoteWorkspace { path }
}

/// A command to run on the remote to completion, for its exit status.
#[derive(Debug, PartialEq, Eq)]
pub struct RemoteCommand {
    pub program: String,
    pub args: Vec<String>,
}

/// What a `RemoteCommand` holds, as plain values.
pub struct RemoteCommandView {
    pub program: Seq<char>,
    pub args: Seq<Seq<char>>,
}

impl View for RemoteCommand {
    type V = RemoteCommandView;

    open spec fn view(&self) -> RemoteCommandView {
        RemoteCommandView { program: self.program@, args: texts(self.args@) }
    }
}

/// The test whether `path` is a directory.
pub open spec fn probe_command_of(path: Seq<char>) -> RemoteCommandView {
    RemoteCommandView { program: "test"@, args: seq!["-d"@, path] }
}

/// The single-branch clone of `remote_url` at `branch` into `path`.
pub open spec fn clone_command_of(
    branch: Seq<char>,
    remote_url: Seq<char>,
    path: Seq<char>,
) -> RemoteCommandView {
    RemoteCommandView {
        program: "git"@,
        args: seq!["clone"@, "--single-branch"@, "--branch"@, branch, remote_url, path],
    }
}

/// The command that tests whether the workspace exists.
pub fn probe_command(workspace: &RemoteWorkspace) -> (command: RemoteCommand)
    ensures
        command@ == probe_command_of(workspace@.path),
{
    let mut args: Vec<String> = Vec::new();
    args.push(String::from_str("-d"));
    args.push(workspace.path.clone());
    let command = RemoteCommand { program: String::from_str("test"), args };
    proof {
        assert(command@.args =~= probe_command_of(workspace@.path).args);
    }
    command
}

/// The command that clones the upstream at the branch into the workspace.
pub fn clone_command(branch: &str, remote_url: &str, workspace: &RemoteWorkspace) -> (command:
    RemoteCommand)
    ensures
        command@ == clone_command_of(branch@, remote_url@, workspace@.path),
{
    let mut args: Vec<String> = Vec::new();
    args.push(String::from_str("clone"));
    args.push(String::from_str("--single-branch"));
    args.push(String::from_str("--branch"));
    args.push(String::from_str(branch));
    args.push(String::from_str(remote_url));
    args.push(workspace.path.clone());
    let command = RemoteCommand { program: String::from_str("git"), args };
    proof {
        assert(command@.args =~= clone_command_of(branch@, remote_url@, workspace@.path).args);
    }
    command
}

/// Which answer the provisioner waits for.
#[derive(Debug, Clone, Copy, PartialEq, Eq, Structural)]
pub enum ProvisionPhase {
    /// The existence probe runs.
    Probing,
    /// The clone runs.
    Cloning,
}

/// How a remote command ended.
#[derive(Debug, PartialEq, Eq)]
pub enum RemoteStatus {
    /// It exited with status zero.
    Success,
    /// It exited with another status.
    Failure,
    /// It could not be run, or its status could not be had.
    Unavailable(String),
}

/// What the provisioner decides after an answer.
#[derive(Debug, PartialEq, Eq)]
pub enum ProvisionStep {
    /// The workspace exists. `notice` is a line to show the user, if any.
    Ready { workspace: RemoteWorkspace, notice: Option<String> },
    /// The workspace is absent: run this clone next.
    CloneNext(RemoteCommand),
    /// Provisioning failed.
    Failed(Failure),
}

/// What a `ProvisionStep` holds, as plain values.
pub enum ProvisionStepView {
    Ready { workspace: RemoteWorkspaceView, notice: Option<Seq<char>> },
    CloneNext(RemoteCommandView),
    Failed(FailureView),
}

impl View for ProvisionStep {
    type V = ProvisionStepView;

    open spec fn view(&self) -> ProvisionStepView {
        match self {
            ProvisionStep::Ready { workspace, notice } => ProvisionStepView::Ready {
                workspace: workspace@,
                notice: match notice {
                    Some(n) => Some(n@),
                    None => None,
                },
            },
            ProvisionStep::CloneNext(c) => ProvisionStepView::CloneNext(c@),
            ProvisionStep::Failed(f) => ProvisionStepView::Failed(f@),
        }
    }
}

/// The provisioner's decision.
///
/// A probe that finds the directory makes the workspace ready without a
/// clone, and says so. A probe that does not find it asks for the clone. A
/// clone that exits with zero makes the workspace ready. A clone that exits
/// otherwise, and any command that could not be run, is `ProvisionFailed`.
pub open spec fn provisioned(
    branch: Seq<char>,
    remote_url: Seq<char>,
    phase: ProvisionPhase,
    status: RemoteStatus,
) -> ProvisionStepView {
    let path = workspace_path(branch);
    match (phase, status) {
        (ProvisionPhase::Probing, RemoteStatus::Success) => ProvisionStepView::Ready {
            workspace: RemoteWorkspaceView { path },
            notice: Some("Directory already exists, skipping clone"@),
        },
        (ProvisionPhase::Probing, RemoteStatus::Failure) => ProvisionStepView::CloneNext(
            clone_command_of(branch, remote_url, path),
        ),
        (ProvisionPhase::Probing, RemoteStatus::Unavailable(m)) => ProvisionStepView::Failed(
            FailureView {
                kind: ErrorKind::ProvisionFailed,
                reason: "Failed to probe the remote workspace: "@ + m@,
            },
        ),
        (ProvisionPhase::Cloning, RemoteStatus::Success) => ProvisionStepView::Ready {
            workspace: RemoteWorkspaceView { path },
            notice: None,
        },
        (ProvisionPhase::Cloning, RemoteStatus::Failure) => ProvisionStepView::Failed(
            FailureView {
                kind: ErrorKind::ProvisionFailed,
                reason: "Failed to create repository on host"@,
            },
        ),
        (ProvisionPhase::Cloning, RemoteStatus::Unavailable(m)) => ProvisionStepView::Failed(
            FailureView {
                kind: ErrorKind::ProvisionFailed,
                reason: "Failed to create repository on host: "@ + m@,
            },
        ),
    }
}

/// Decides the provisioner's next move from the answer to the command that
/// ran last: the probe in phase `Probing`, the clone in phase `Cloning`.
pub fn create_tmp_repository(
    branch_name: &str,
    remote_url: &str,
    phase: ProvisionPhase,
    status: RemoteStatus,
) -> (step: ProvisionStep)
    ensures
        step@ == provisioned(branch_name@, remote_url@, phase, status),
{
    let workspace = workspace_for(branch_name);
    match phase {
        ProvisionPhase::Probing => match status {
            RemoteStatus::Success => ProvisionStep::Ready {
                workspace,
                notice: Some(String::from_str("Directory already exists, skipping clone")),
            },
            RemoteStatus::Failure => ProvisionStep::CloneNext(
                clone_command(branch_name, remote_url, &workspace),
            ),
            RemoteStatus::Unavailable(m) => ProvisionStep::Failed(
                Failure {
                    kind: ErrorKind::ProvisionFailed,
                    reason: String::from_str("Failed to probe the remote workspace: ").concat(
                        m.as_str(),
                    ),
                },
            ),
        },
        ProvisionPhase::Cloning => match status {
            RemoteStatus::Success => ProvisionStep::Ready { workspace, notice: None },
            RemoteStatus::Failure => ProvisionStep::Failed(
                Failure::new(ErrorKind::ProvisionFailed, "Failed to create repository on host"),
            ),
            RemoteStatus::Unavailable(m) => ProvisionStep::Failed(
                Failure {
                    kind: ErrorKind::ProvisionFailed,
                    reason: String::from_str("Failed to create repository on host: ").concat(
                        m.as_str(),
                    ),
                },
            ),
        },
    }
}

} // verus!
