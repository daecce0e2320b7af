//! Stages, error kinds, the outcome of a run and its exit code.

use vstd::prelude::*;
use vstd::string::*;
use crate::text::{flattened, is_single_line, lemma_single_line_concat, single_line};

verus! {

/// The component of the pipeline that an error is attributed to.
#[derive(Debug, Clone, Copy, PartialEq, Eq, Structural)]
pub enum Stage {
    ArgumentParser,
    RepoInspector,
    SessionManager,
    WorkspaceProvisioner,
    Executor,
    CancellationBroker,
}

/// What went wrong.
#[derive(Debug, Clone, Copy, PartialEq, Eq, Structural)]
pub enum ErrorKind {
    /// Malformed invocation.
    UsageError,
    /// Not a working copy, no origin, detached HEAD, or another inspection
    /// failure.
    LocalRepoInvalid,
    /// The working copy is dirty and the policy forbids proceeding.
    DirtyWorkingCopy,
    /// The host's key is not known and host key checking is strict.
    HostUnknown,
    /// The handshake took longer than its deadline.
    ConnectTimeout,
    /// The remote host denied the login.
    AuthFailed,
    /// Another fault of the remote session.
    SessionError,
    /// Probing or cloning the remote workspace failed.
    ProvisionFailed,
    /// Spawning or streaming the remote child failed before an exit code was
    /// available.
    ExecutionError,
    /// The user sent the interrupt signal.
    Interrupted,
}

/// Exit code of a usage error.
pub const EXIT_USAGE: i32 = 2;

/// Exit code after an interrupt.
pub const EXIT_INTERRUPTED: i32 = 130;

/// Exit code of every other local or session failure, and of a remote child
/// that ended without a numeric code.
pub const EXIT_FAILURE: i32 = 1;

impl ErrorKind {
    /// The stage that errors of this kind come from.
    pub open spec fn stage_spec(self) -> Stage {
        match self {
            ErrorKind::UsageError => Stage::ArgumentParser,
            ErrorKind::LocalRepoInvalid | ErrorKind::DirtyWorkingCopy => Stage::RepoInspector,
            ErrorKind::HostUnknown
            | ErrorKind::ConnectTimeout
            | ErrorKind::AuthFailed
            | ErrorKind::SessionError => Stage::SessionManager,
            ErrorKind::ProvisionFailed => Stage::WorkspaceProvisioner,
            ErrorKind::ExecutionError => Stage::Executor,
            ErrorKind::Interrupted => Stage::CancellationBroker,
        }
    }

    /// The stage that errors of this kind come from.
    #[verifier::when_used_as_spec(stage_spec)]
    pub fn stage(self) -> (s: Stage)
        ensures
            s == self.stage_spec(),
    {
        match self {
            ErrorKind::UsageError => Stage::ArgumentParser,
            ErrorKind::LocalRepoInvalid | ErrorKind::DirtyWorkingCopy => Stage::RepoInspector,
            ErrorKind::HostUnknown
            | ErrorKind::ConnectTimeout
            | ErrorKind::AuthFailed
            | ErrorKind::SessionError => Stage::SessionManager,
            ErrorKind::ProvisionFailed => Stage::WorkspaceProvisioner,
            ErrorKind::ExecutionError => Stage::Executor,
            ErrorKind::Interrupted => Stage::CancellationBroker,
        }
    }

    /// The kind's name as it is printed.
    pub open spec fn name_spec(self) -> Seq<char> {
        match self {
            ErrorKind::UsageError => "UsageError"@,
            ErrorKind::LocalRepoInvalid => "LocalRepoInvalid"@,
            ErrorKind::DirtyWorkingCopy => "DirtyWorkingCopy"@,
            ErrorKind::HostUnknown => "HostUnknown"@,
            ErrorKind::ConnectTimeout => "ConnectTimeout"@,
            ErrorKind::AuthFailed => "AuthFailed"@,
            ErrorKind::SessionError => "SessionError"@,
            ErrorKind::ProvisionFailed => "ProvisionFailed"@,
            ErrorKind::ExecutionError => "ExecutionError"@,
            ErrorKind::Interrupted => "Interrupted"@,
        }
    }

    /// The kind's name as it is printed.
    pub fn name(self) -> (s: &'static str)
        ensures
            s@ == self.name_spec(),
            is_single_line(s@),
    {
        proof {
            reveal_strlit("UsageError");
            reveal_strlit("LocalRepoInvalid");
            reveal_strlit("DirtyWorkingCopy");
            reveal_strlit("HostUnknown");
            reveal_strlit("ConnectTimeout");
            reveal_strlit("AuthFailed");
            reveal_strlit("SessionError");
            reveal_strlit("ProvisionFailed");
            reveal_strlit("ExecutionError");
            reveal_strlit("Interrupted");
        }
        match self {
            ErrorKind::UsageError => "UsageError",
            ErrorKind::LocalRepoInvalid => "LocalRepoInvalid",
            ErrorKind::DirtyWorkingCopy => "DirtyWorkingCopy",
            ErrorKind::HostUnknown => "HostUnknown",
            ErrorKind::ConnectTimeout => "ConnectTimeout",
            ErrorKind::AuthFailed => "AuthFailed",
            ErrorKind::SessionError => "SessionError",
            ErrorKind::ProvisionFailed => "ProvisionFailed",
            ErrorKind::ExecutionError => "ExecutionError",
            ErrorKind::Interrupted => "Interrupted",
        }
    }
}

impl Stage {
    /// The stage's label as it is printed.
    pub open spec fn label_spec(self) -> Seq<char> {
        match self {
            Stage::ArgumentParser => "arguments"@,
            Stage::RepoInspector => "inspect"@,
            Stage::SessionManager => "connect"@,
            Stage::WorkspaceProvisioner => "provision"@,
            Stage::Executor => "execute"@,
            Stage::CancellationBroker => "cancel"@,
        }
    }

    /// The stage's label as it is printed.
    pub fn label(self) -> (s: &'static str)
        ensures
            s@ == self.label_spec(),
            is_single_line(s@),
    {
        proof {
            reveal_strlit("arguments");
            reveal_strlit("inspect");
            reveal_strlit("connect");
            reveal_strlit("provision");
            reveal_strlit("execute");
            reveal_strlit("cancel");
        }
        match self {
            Stage::ArgumentParser => "arguments",
            Stage::RepoInspector => "inspect",
            Stage::SessionManager => "connect",
            Stage::WorkspaceProvisioner => "provision",
            Stage::Executor => "execute",
            Stage::CancellationBroker => "cancel",
        }
    }
}

/// A terminal error of one stage: its kind and a human-readable reason.
#[derive(Debug, PartialEq, Eq)]
pub struct Failure {
    pub kind: ErrorKind,
    pub reason: String,
}

/// What a `Failure` holds, as plain values.
pub struct FailureView {
    pub kind: ErrorKind,
    pub reason: Seq<char>,
}

impl View for Failure {
    type V = FailureView;

    open spec fn view(&self) -> FailureView {
        FailureView { kind: self.kind, reason: self.reason@ }
    }
}

impl FailureView {
    /// The line that reports this failure: the stage's label, the kind's name
    /// and the reason on one line.
    pub open spec fn line(self) -> Seq<char> {
        "error["@ + self.kind.stage_spec().label_spec() + "]: "@ + self.kind.name_spec() + ": "@
            + flattened(self.reason)
    }
}

impl Failure {
    /// A failure of the given kind.
    pub fn new(kind: ErrorKind, reason: &str) -> (f: Failure)
        ensures
            f@ == (FailureView { kind, reason: reason@ }),
    {
        Failure { kind, reason: String::from_str(reason) }
    }

    /// The stage that failed.
    pub fn stage(&self) -> (s: Stage)
        ensures
            s == self@.kind.stage_spec(),
    {
        self.kind.stage()
    }

    /// The single line that reports this failure to the user.
    pub fn line(&self) -> (out: String)
        ensures
            out@ == self@.line(),
            is_single_line(out@),
    {
        proof {
            reveal_strlit("error[");
            reveal_strlit("]: ");
            reveal_strlit(": ");
        }
        let mut out = String::from_str("error[");
        let label = self.kind.stage().label();
        out.append(label);
        proof {
            lemma_single_line_concat("error["@, label@);
        }
        out.append("]: ");
        proof {
            lemma_single_line_concat("error["@ + label@, "]: "@);
        }
        let name = self.kind.name();
        let ghost head = out@;
        out.append(name);
        proof {
            lemma_single_line_concat(head, name@);
        }
        let ghost head = out@;
        out.append(": ");
        proof {
            lemma_single_line_concat(head, ": "@);
        }
        let reason = single_line(self.reason.as_str());
        let ghost head = out@;
        out.append(reason.as_str());
        proof {
            lemma_single_line_concat(head, reason@);
        }
        out
    }
}

/// How a run ended.
#[derive(Debug, PartialEq, Eq)]
pub enum ExitOutcome {
    /// The remote command ran and ended with this code.
    Completed(i32),
    /// The interrupt signal arrived while the remote command ran.
    Interrupted,
    /// A stage failed.
    Failed(Failure),
}

/// What an `ExitOutcome` holds, as plain values.
pub enum ExitOutcomeView {
    Completed(i32),
    Interrupted,
    Failed(FailureView),
}

impl View for ExitOutcome {
    type V = ExitOutcomeView;

    open spec fn view(&self) -> ExitOutcomeView {
        match self {
            ExitOutcome::Completed(code) => ExitOutcomeView::Completed(*code),
            ExitOutcome::Interrupted => ExitOutcomeView::Interrupted,
            ExitOutcome::Failed(f) => ExitOutcomeView::Failed(f@),
        }
    }
}

impl ExitOutcomeView {
    /// The process exit code of this outcome: the remote code of a completed
    /// run, 130 after an interrupt, 2 for a usage error and 1 for every
    /// other failure.
    pub open spec fn exit_code(self) -> i32 {
        match self {
            ExitOutcomeView::Completed(code) => code,
            ExitOutcomeView::Interrupted => EXIT_INTERRUPTED,
            ExitOutcomeView::Failed(f) => if f.kind == ErrorKind::UsageError {
                EXIT_USAGE
            } else {
                EXIT_FAILURE
            },
        }
    }
}

impl ExitOutcome {
    /// The process exit code of this outcome.
    pub fn exit_code(&self) -> (code: i32)
        ensures
            code == self@.exit_code(),
    {
        match self {
            ExitOutcome::Completed(code) => *code,
            ExitOutcome::Interrupted => EXIT_INTERRUPTED,
            ExitOutcome::Failed(f) => match f.kind {
                ErrorKind::UsageError => EXIT_USAGE,
                _ => EXIT_FAILURE,
            },
        }
    }
}

} // verus!
