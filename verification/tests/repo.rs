use offload::error::{ErrorKind, Failure};
use offload::repo::{get_repo_info, InspectFault, RepoContext, RepoReport, RepoSnapshot, StatusEntry};

fn entry(path: &str, status: u32) -> StatusEntry {
    StatusEntry { path: path.to_string(), status }
}

fn snapshot(branch: &str, url: &str, entries: Vec<StatusEntry>) -> RepoSnapshot {
    RepoSnapshot { branch: branch.to_string(), upstream_url: url.to_string(), entries }
}

fn context(branch: &str, url: &str, is_clean: bool) -> RepoContext {
    RepoContext { branch: branch.to_string(), upstream_url: url.to_string(), is_clean }
}

const ORIGIN: &str = "git@example.com:acme/widget.git";

#[test]
fn clean_working_copy_gives_the_context_and_no_lines() {
    for allow in [true, false] {
        let report = get_repo_info(Ok(snapshot("feature/x", ORIGIN, vec![])), allow);
        assert_eq!(
            report,
            RepoReport { lines: vec![], result: Ok(context("feature/x", ORIGIN, true)) }
        );
    }
}

#[test]
fn current_entries_do_not_make_the_working_copy_dirty() {
    let entries = vec![entry("a.rs", 0), entry("b.rs", 0)];
    let report = get_repo_info(Ok(snapshot("main", ORIGIN, entries)), false);
    assert_eq!(report, RepoReport { lines: vec![], result: Ok(context("main", ORIGIN, true)) });
}

#[test]
fn dirty_working_copy_is_fatal_when_the_policy_forbids_it() {
    // One modified path: the flag of a file modified in the working tree.
    let entries = vec![entry("README.md", git2::Status::WT_MODIFIED.bits())];
    let report = get_repo_info(Ok(snapshot("main", ORIGIN, entries)), false);
    assert_eq!(
        report.lines,
        vec![
            "Uncommitted changes: README.md".to_string(),
            "There are uncommitted changes. Aborting...".to_string(),
        ]
    );
    assert_eq!(
        report.result,
        Err(Failure::new(ErrorKind::DirtyWorkingCopy, "Uncommitted changes"))
    );
}

#[test]
fn dirty_working_copy_is_a_warning_when_the_policy_allows_it() {
    let entries = vec![entry("README.md", git2::Status::WT_MODIFIED.bits())];
    let report = get_repo_info(Ok(snapshot("main", ORIGIN, entries)), true);
    assert_eq!(
        report.lines,
        vec![
            "Uncommitted changes: README.md".to_string(),
            "There are uncommitted changes. Continuing anyways as specified...".to_string(),
        ]
    );
    assert_eq!(report.result, Ok(context("main", ORIGIN, false)));
}

#[test]
fn every_entry_that_is_not_current_is_named_in_order() {
    let entries = vec![
        entry("src/new.rs", git2::Status::WT_NEW.bits()),
        entry("src/same.rs", git2::Status::CURRENT.bits()),
        entry("Cargo.toml", git2::Status::INDEX_MODIFIED.bits()),
        entry("gone.txt", git2::Status::WT_DELETED.bits() | git2::Status::INDEX_MODIFIED.bits()),
        entry("target", git2::Status::IGNORED.bits()),
    ];
    let report = get_repo_info(Ok(snapshot("main", ORIGIN, entries)), true);
    assert_eq!(
        report.lines,
        vec![
            "Uncommitted changes: src/new.rs".to_string(),
            "Uncommitted changes: Cargo.toml".to_string(),
            "Uncommitted changes: gone.txt".to_string(),
            "Uncommitted changes: target".to_string(),
            "There are uncommitted changes. Continuing anyways as specified...".to_string(),
        ]
    );
}

#[test]
fn any_set_bit_makes_an_entry_dirty() {
    for bit in 0..32 {
        let report = get_repo_info(Ok(snapshot("main", ORIGIN, vec![entry("f", 1 << bit)])), true);
        assert_eq!(report.result, Ok(context("main", ORIGIN, false)));
        assert_eq!(report.lines.len(), 2);
    }
}

#[test]
fn detached_head_is_local_repo_invalid() {
    for allow in [true, false] {
        let report = get_repo_info(Err(InspectFault::DetachedHead), allow);
        assert_eq!(
            report,
            RepoReport {
                lines: vec![],
                result: Err(Failure::new(ErrorKind::LocalRepoInvalid, "Failed to get branch name")),
            }
        );
    }
}

#[test]
fn each_fault_is_local_repo_invalid_with_its_reason() {
    let cases = vec![
        (
            InspectFault::OpenFailed("could not find repository".to_string()),
            "Failed to open repository: could not find repository",
        ),
        (
            InspectFault::RemoteNotFound("remote 'origin' does not exist".to_string()),
            "Failed to find remote repository: remote 'origin' does not exist",
        ),
        (InspectFault::UrlUnavailable, "Failed to get remote URL"),
        (
            InspectFault::HeadUnavailable("reference 'refs/heads/main' not found".to_string()),
            "Failed to get HEAD: reference 'refs/heads/main' not found",
        ),
        (InspectFault::DetachedHead, "Failed to get branch name"),
        (
            InspectFault::StatusUnavailable("index is locked".to_string()),
            "Failed to get statuses: index is locked",
        ),
    ];
    for (fault, reason) in cases {
        let report = get_repo_info(Err(fault), true);
        assert!(report.lines.is_empty());
        assert_eq!(report.result, Err(Failure::new(ErrorKind::LocalRepoInvalid, reason)));
    }
}

#[test]
fn missing_branch_name_or_url_is_local_repo_invalid() {
    let dirty = || vec![entry("README.md", 256)];
    let report = get_repo_info(Ok(snapshot("", ORIGIN, dirty())), true);
    assert!(report.lines.is_empty());
    assert_eq!(
        report.result,
        Err(Failure::new(ErrorKind::LocalRepoInvalid, "Failed to get branch name"))
    );
    let report = get_repo_info(Ok(snapshot("main", "", dirty())), true);
    assert!(report.lines.is_empty());
    assert_eq!(
        report.result,
        Err(Failure::new(ErrorKind::LocalRepoInvalid, "Failed to get remote URL"))
    );
}
