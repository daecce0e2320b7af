use offload::error::{
    ErrorKind, ExitOutcome, Failure, Stage, EXIT_FAILURE, EXIT_INTERRUPTED, EXIT_USAGE,
};

const KINDS: [ErrorKind; 10] = [
    ErrorKind::UsageError,
    ErrorKind::LocalRepoInvalid,
    ErrorKind::DirtyWorkingCopy,
    ErrorKind::HostUnknown,
    ErrorKind::ConnectTimeout,
    ErrorKind::AuthFailed,
    ErrorKind::SessionError,
    ErrorKind::ProvisionFailed,
    ErrorKind::ExecutionError,
    ErrorKind::Interrupted,
];

#[test]
fn exit_codes_are_the_documented_ones() {
    assert_eq!(EXIT_USAGE, 2);
    assert_eq!(EXIT_INTERRUPTED, 130);
    assert_eq!(EXIT_FAILURE, 1);
}

#[test]
fn completed_run_exits_with_the_remote_code() {
    assert_eq!(ExitOutcome::Completed(0).exit_code(), 0);
    assert_eq!(ExitOutcome::Completed(3).exit_code(), 3);
    assert_eq!(ExitOutcome::Completed(255).exit_code(), 255);
    assert_eq!(ExitOutcome::Completed(-1).exit_code(), -1);
}

#[test]
fn interrupted_run_exits_with_130() {
    assert_eq!(ExitOutcome::Interrupted.exit_code(), 130);
}

#[test]
fn usage_error_exits_with_2_and_other_failures_with_1() {
    for kind in KINDS {
        let code = ExitOutcome::Failed(Failure::new(kind, "why")).exit_code();
        if kind == ErrorKind::UsageError {
            assert_eq!(code, 2);
        } else {
            assert_eq!(code, 1);
        }
    }
}

#[test]
fn each_kind_belongs_to_its_stage() {
    assert_eq!(ErrorKind::UsageError.stage(), Stage::ArgumentParser);
    assert_eq!(ErrorKind::LocalRepoInvalid.stage(), Stage::RepoInspector);
    assert_eq!(ErrorKind::DirtyWorkingCopy.stage(), Stage::RepoInspector);
    assert_eq!(ErrorKind::HostUnknown.stage(), Stage::SessionManager);
    assert_eq!(ErrorKind::ConnectTimeout.stage(), Stage::SessionManager);
    assert_eq!(ErrorKind::AuthFailed.stage(), Stage::SessionManager);
    assert_eq!(ErrorKind::SessionError.stage(), Stage::SessionManager);
    assert_eq!(ErrorKind::ProvisionFailed.stage(), Stage::WorkspaceProvisioner);
    assert_eq!(ErrorKind::ExecutionError.stage(), Stage::Executor);
    assert_eq!(ErrorKind::Interrupted.stage(), Stage::CancellationBroker);
}

#[test]
fn kind_names_are_the_taxonomy_names() {
    let names = [
        "UsageError",
        "LocalRepoInvalid",
        "DirtyWorkingCopy",
        "HostUnknown",
        "ConnectTimeout",
        "AuthFailed",
        "SessionError",
        "ProvisionFailed",
        "ExecutionError",
        "Interrupted",
    ];
    for (kind, name) in KINDS.iter().zip(names) {
        assert_eq!(kind.name(), name);
    }
}

#[test]
fn stage_labels() {
    assert_eq!(Stage::ArgumentParser.label(), "arguments");
    assert_eq!(Stage::RepoInspector.label(), "inspect");
    assert_eq!(Stage::SessionManager.label(), "connect");
    assert_eq!(Stage::WorkspaceProvisioner.label(), "provision");
    assert_eq!(Stage::Executor.label(), "execute");
    assert_eq!(Stage::CancellationBroker.label(), "cancel");
}

#[test]
fn failure_line_names_stage_kind_and_reason() {
    let f = Failure::new(ErrorKind::DirtyWorkingCopy, "Uncommitted changes");
    assert_eq!(f.stage(), Stage::RepoInspector);
    assert_eq!(f.line(), "error[inspect]: DirtyWorkingCopy: Uncommitted changes");
    let f = Failure::new(ErrorKind::ConnectTimeout, "Timed out connecting to host");
    assert_eq!(f.line(), "error[connect]: ConnectTimeout: Timed out connecting to host");
}

#[test]
fn failure_line_is_one_line_whatever_the_reason() {
    let f = Failure::new(ErrorKind::SessionError, "first\nsecond\r\nthird");
    assert_eq!(f.reason, "first\nsecond\r\nthird");
    assert_eq!(f.line(), "error[connect]: SessionError: first second  third");
    for kind in KINDS {
        let line = Failure::new(kind, "a\nb").line();
        assert!(!line.contains('\n') && !line.contains('\r'));
    }
}
