use offload::error::{ErrorKind, Failure};
use offload::workspace::{
    clone_command, create_tmp_repository, probe_command, workspace_for, ProvisionPhase,
    ProvisionStep, RemoteCommand, RemoteStatus, RemoteWorkspace,
};

fn strings(items: &[&str]) -> Vec<String> {
    items.iter().map(|s| s.to_string()).collect()
}

const ORIGIN: &str = "git@example.com:acme/widget.git";

#[test]
fn workspace_is_the_scratch_root_joined_with_the_branch() {
    assert_eq!(workspace_for("main"), RemoteWorkspace { path: "/tmp/main".to_string() });
    assert_eq!(workspace_for("feature/x").path, "/tmp/feature/x");
}

#[test]
fn workspace_path_is_absolute() {
    for branch in ["main", "feature/x", "", "../up", " spaced"] {
        let path = workspace_for(branch).path;
        assert!(path.starts_with('/'));
        assert_eq!(path, format!("/tmp/{}", branch));
    }
}

#[test]
fn probe_tests_for_a_directory() {
    assert_eq!(
        probe_command(&workspace_for("feature/x")),
        RemoteCommand { program: "test".to_string(), args: strings(&["-d", "/tmp/feature/x"]) }
    );
}

#[test]
fn clone_is_a_single_branch_clone_into_the_workspace() {
    assert_eq!(
        clone_command("feature/x", ORIGIN, &workspace_for("feature/x")),
        RemoteCommand {
            program: "git".to_string(),
            args: strings(&[
                "clone",
                "--single-branch",
                "--branch",
                "feature/x",
                ORIGIN,
                "/tmp/feature/x",
            ]),
        }
    );
}

#[test]
fn existing_directory_skips_the_clone() {
    assert_eq!(
        create_tmp_repository("feature/x", ORIGIN, ProvisionPhase::Probing, RemoteStatus::Success),
        ProvisionStep::Ready {
            workspace: RemoteWorkspace { path: "/tmp/feature/x".to_string() },
            notice: Some("Directory already exists, skipping clone".to_string()),
        }
    );
}

#[test]
fn absent_directory_asks_for_the_clone() {
    assert_eq!(
        create_tmp_repository("feature/x", ORIGIN, ProvisionPhase::Probing, RemoteStatus::Failure),
        ProvisionStep::CloneNext(clone_command("feature/x", ORIGIN, &workspace_for("feature/x")))
    );
}

#[test]
fn successful_clone_makes_the_workspace_ready() {
    assert_eq!(
        create_tmp_repository("main", ORIGIN, ProvisionPhase::Cloning, RemoteStatus::Success),
        ProvisionStep::Ready {
            workspace: RemoteWorkspace { path: "/tmp/main".to_string() },
            notice: None,
        }
    );
}

#[test]
fn failed_clone_is_provision_failed() {
    assert_eq!(
        create_tmp_repository("main", ORIGIN, ProvisionPhase::Cloning, RemoteStatus::Failure),
        ProvisionStep::Failed(Failure::new(
            ErrorKind::ProvisionFailed,
            "Failed to create repository on host"
        ))
    );
}

#[test]
fn command_that_could_not_run_is_provision_failed() {
    let unavailable = || RemoteStatus::Unavailable("the connection was terminated".to_string());
    assert_eq!(
        create_tmp_repository("main", ORIGIN, ProvisionPhase::Probing, unavailable()),
        ProvisionStep::Failed(Failure::new(
            ErrorKind::ProvisionFailed,
            "Failed to probe the remote workspace: the connection was terminated"
        ))
    );
    assert_eq!(
        create_tmp_repository("main", ORIGIN, ProvisionPhase::Cloning, unavailable()),
        ProvisionStep::Failed(Failure::new(
            ErrorKind::ProvisionFailed,
            "Failed to create repository on host: the connection was terminated"
        ))
    );
}
