//! The local repository inspector: from what was read of the working copy to
//! the branch, the upstream URL and the verdict on uncommitted changes.

use vstd::prelude::*;
use vstd::string::*;
use crate::error::{ErrorKind, Failure, FailureView};
use crate::text::texts;

verus! {

/// One entry of the working copy's status list: a path and its status flags
/// as git reports them.
#[derive(Debug, PartialEq, Eq)]
pub struct StatusEntry {
    pub path: String,
    pub status: u32,
}

/// The step at which reading the working copy failed. Where git gave a
/// message, the variant carries it.
#[derive(Debug, PartialEq, Eq)]
pub enum InspectFault {
    /// The current directory is not inside a working copy.
    OpenFailed(String),
    /// There is no remote named "origin".
    RemoteNotFound(String),
    /// The remote "origin" has no usable URL.
    UrlUnavailable,
    /// HEAD could not be resolved.
    HeadUnavailable(String),
    /// HEAD is detached: it has no short branch name.
    DetachedHead,
    /// The status entries could not be listed.
    StatusUnavailable(String),
}

/// What was read of the working copy: the short name of HEAD, the URL of the
/// remote "origin" and every status entry, untracked files included.
#[derive(Debug, PartialEq, Eq)]
pub struct RepoSnapshot {
    pub branch: String,
    pub upstream_url: String,
    pub entries: Vec<StatusEntry>,
}

/// The source-control context of a run. Branch and upstream URL are
/// non-empty.
#[derive(Debug, PartialEq, Eq)]
pub struct RepoContext {
    pub branch: String,
    pub upstream_url: String,
    pub is_clean: bool,
}

/// What a `RepoContext` holds, as plain values.
pub struct RepoContextView {
    pub branch: Seq<char>,
    pub upstream_url: Seq<char>,
    pub is_clean: bool,
}

impl View for RepoContext {
    type V = RepoContextView;

    open spec fn view(&self) -> RepoContextView {
        RepoContextView {
            branch: self.branch@,
            upstream_url: self.upstream_url@,
            is_clean: self.is_clean,
        }
    }
}

impl RepoContextView {
    /// Branch and upstream URL are both present.
    pub open spec fn wf(self) -> bool {
        self.branch.len() > 0 && self.upstream_url.len() > 0
    }
}

/// What the inspector hands back: the lines to show the user, in order, and
/// the context or the failure.
#[derive(Debug, PartialEq, Eq)]
pub struct RepoReport {
    pub lines: Vec<String>,
    pub result: Result<RepoContext, Failure>,
}

/// What a `RepoReport` holds, as plain values.
pub struct RepoReportView {
    pub lines: Seq<Seq<char>>,
    pub result: Result<RepoContextView, FailureView>,
}

impl View for RepoReport {
    type V = RepoReportView;

    open spec fn view(&self) -> RepoReportView {
        RepoReportView {
            lines: texts(self.lines@),
            result: match self.result {
                Ok(ctx) => Ok(ctx@),
                Err(f) => Err(f@),
            },
        }
    }
}

/// Whether status flags say "current": no flag is set.
pub open spec fn is_current(status: u32) -> bool {
    status == 0
}

/// The entries that are not current, in order.
pub open spec fn dirty_entries(entries: Seq<StatusEntry>) -> Seq<StatusEntry> {
    entries.filter(|e: StatusEntry| !is_current(e.status))
}

/// The warning that names one offending path.
pub open spec fn path_warning(path: Seq<char>) -> Seq<char> {
    "Uncommitted changes: "@ + path
}

/// One warning for each entry that is not current, in order.
pub open spec fn path_warnings(entries: Seq<StatusEntry>) -> Seq<Seq<char>> {
    dirty_entries(entries).map_values(|e: StatusEntry| path_warning(e.path@))
}

/// The working copy is clean when every entry is current.
pub open spec fn is_clean(entries: Seq<StatusEntry>) -> bool {
    dirty_entries(entries).len() == 0
}

/// The line that closes the warnings of a dirty working copy.
pub open spec fn dirty_verdict(allow_uncommitted_changes: bool) -> Seq<char> {
    if allow_uncommitted_changes {
        "There are uncommitted changes. Continuing anyways as specified..."@
    } else {
        "There are uncommitted changes. Aborting..."@
    }
}

/// The reason given for a failed read.
pub open spec fn fault_reason(fault: InspectFault) -> Seq<char> {
    match fault {
        InspectFault::OpenFailed(m) => "Failed to open repository: "@ + m@,
        InspectFault::RemoteNotFound(m) => "Failed to find remote repository: "@ + m@,
        InspectFault::UrlUnavailable => "Failed to get remote URL"@,
        InspectFault::HeadUnavailable(m) => "Failed to get HEAD: "@ + m@,
        InspectFault::DetachedHead => "Failed to get branch name"@,
        InspectFault::StatusUnavailable(m) => "Failed to get statuses: "@ + m@,
    }
}

/// What the inspector reports.
///
/// A failed read, a missing branch name and a missing URL are
/// `LocalRepoInvalid`, with nothing shown. Otherwise each entry that is not
/// current is named; if there is one, a closing line follows and the policy
/// decides: proceed, or fail with `DirtyWorkingCopy`.
pub open spec fn inspected(
    inspection: Result<RepoSnapshot, InspectFault>,
    allow_uncommitted_changes: bool,
) -> RepoReportView {
    match inspection {
        Err(fault) => RepoReportView {
            lines: Seq::empty(),
            result: Err(
                FailureView { kind: ErrorKind::LocalRepoInvalid, reason: fault_reason(fault) },
            ),
        },
        Ok(snapshot) => if snapshot.branch@.len() == 0 {
            RepoReportView {
                lines: Seq::empty(),
                result: Err(
                    FailureView {
                        kind: ErrorKind::LocalRepoInvalid,
                        reason: "Failed to get branch name"@,
                    },
                ),
            }
        } else if snapshot.upstream_url@.len() == 0 {
            RepoReportView {
                lines: Seq::empty(),
                result: Err(
                    FailureView {
                        kind: ErrorKind::LocalRepoInvalid,
                        reason: "Failed to get remote URL"@,
                    },
                ),
            }
        } else if is_clean(snapshot.entries@) {
            RepoReportView {
                lines: Seq::empty(),
                result: Ok(
                    RepoContextView {
                        branch: snapshot.branch@,
                        upstream_url: snapshot.upstream_url@,
                        is_clean: true,
                    },
                ),
            }
        } else {
            RepoReportView {
                lines: path_warnings(snapshot.entries@).push(
                    dirty_verdict(allow_uncommitted_changes),
                ),
                result: if allow_uncommitted_changes {
                    Ok(
                        RepoContextView {
                            branch: snapshot.branch@,
                            upstream_url: snapshot.upstream_url@,
                            is_clean: false,
                        },
                    )
                } else {
                    Err(
                        FailureView {
                            kind: ErrorKind::DirtyWorkingCopy,
                            reason: "Uncommitted changes"@,
                        },
                    )
                },
            }
        },
    }
}

/// Compares status flags with `git2::Status::CURRENT`. That constant is the
/// empty flag set, and two flag sets are equal when their bits are, so the
/// answer is whether no bit of `status` is set.
#[verifier::external_body]
fn status_is_current(status: u32) -> (r: bool)
    ensures
        r == is_current(status),
{
    git2::Status::from_bits_retain(status) == git2::Status::CURRENT
}

/// The reason for a failed read, as text.
fn describe_fault(fault: InspectFault) -> (reason: String)
    ensures
        reason@ == fault_reason(fault),
{
    match fault {
        InspectFault::OpenFailed(m) => String::from_str("Failed to open repository: ").concat(
            m.as_str(),
        ),
        InspectFault::RemoteNotFound(m) => String::from_str(
            "Failed to find remote repository: ",
        ).concat(m.as_str()),
        InspectFault::UrlUnavailable => String::from_str("Failed to get remote URL"),
        InspectFault::HeadUnavailable(m) => String::from_str("Failed to get HEAD: ").concat(
            m.as_str(),
        ),
        InspectFault::DetachedHead => String::from_str("Failed to get branch name"),
        InspectFault::StatusUnavailable(m) => String::from_str("Failed to get statuses: ").concat(
            m.as_str(),
        ),
    }
}

/// The warnings for the entries that are not current, in order.
fn list_uncommitted(entries: &Vec<StatusEntry>) -> (lines: Vec<String>)
    ensures
        texts(lines@) == path_warnings(entries@),
{
    let mut lines: Vec<String> = Vec::new();
    let mut i: usize = 0;
    proof {
        assert(entries@.take(0) =~= Seq::<StatusEntry>::empty());
        assert(texts(lines@) =~= path_warnings(entries@.take(0)));
    }
    while i < entries.len()
        invariant
            i <= entries.len(),
            texts(lines@) == path_warnings(entries@.take(i as int)),
        decreases entries.len() - i,
    {
        let ghost seen = entries@.take(i as int);
        let ghost shown = lines@;
        proof {
            assert(entries@.take(i + 1) =~= seen.push(entries@[i as int]));
            seen.lemma_filter_push(entries@[i as int], |e: StatusEntry| !is_current(e.status));
        }
        if !status_is_current(entries[i].status) {
            let line = String::from_str("Uncommitted changes: ").concat(entries[i].path.as_str());
            lines.push(line);
            proof {
                assert(texts(lines@) =~= texts(shown).push(path_warning(entries@[i as int].path@)));
                assert(path_warnings(seen.push(entries@[i as int])) =~= path_warnings(seen).push(
                    path_warning(entries@[i as int].path@),
                ));
            }
        }
        i = i + 1;
    }
    proof {
        assert(entries@.take(entries.len() as int) =~= entries@);
    }
    lines
}

/// Derives the context of a run from what was read of the working copy, and
/// applies the policy on uncommitted changes.
pub fn get_repo_info(
    inspection: Result<RepoSnapshot, InspectFault>,
    allow_uncommitted_changes: bool,
) -> (report: RepoReport)
    ensures
        report@ == inspected(inspection, allow_uncommitted_changes),
        report.result matches Ok(ctx) ==> ctx@.wf(),
{
    match inspection {
        Err(fault) => {
            let reason = describe_fault(fault);
            let report = RepoReport {
                lines: Vec::new(),
                result: Err(Failure { kind: ErrorKind::LocalRepoInvalid, reason }),
            };
            proof {
                assert(report@.lines =~= Seq::<Seq<char>>::empty());
            }
            report
        },
        Ok(snapshot) => {
            let RepoSnapshot { branch, upstream_url, entries } = snapshot;
            if branch.as_str().is_empty() {
                let report = RepoReport {
                    lines: Vec::new(),
                    result: Err(
                        Failure::new(ErrorKind::LocalRepoInvalid, "Failed to get branch name"),
                    ),
                };
                proof {
                    assert(report@.lines =~= Seq::<Seq<char>>::empty());
                }
                return report;
            }
            if upstream_url.as_str().is_empty() {
                let report = RepoReport {
                    lines: Vec::new(),
                    result: Err(
                        Failure::new(ErrorKind::LocalRepoInvalid, "Failed to get remote URL"),
                    ),
                };
                proof {
                    assert(report@.lines =~= Seq::<Seq<char>>::empty());
                }
                return report;
            }
            let mut lines = list_uncommitted(&entries);
            if lines.len() == 0 {
                proof {
                    assert(texts(lines@).len() == dirty_entries(entries@).len());
                    assert(texts(lines@) =~= Seq::<Seq<char>>::empty());
                }
                return RepoReport {
                    lines,
                    result: Ok(RepoContext { branch, upstream_url, is_clean: true }),
                };
            }
            let ghost warnings = lines@;
            if allow_uncommitted_changes {
                lines.push(
                    String::from_str(
                        "There are uncommitted changes. Continuing anyways as specified...",
                    ),
                );
                proof {
                    assert(texts(lines@) =~= texts(warnings).push(dirty_verdict(true)));
                }
                RepoReport {
                    lines,
                    result: Ok(RepoContext { branch, upstream_url, is_clean: false }),
                }
            } else {
                lines.push(String::from_str("There are uncommitted changes. Aborting..."));
                proof {
                    assert(texts(lines@) =~= texts(warnings).push(dirty_verdict(false)));
                }
                RepoReport {
                    lines,
                    result: Err(Failure::new(ErrorKind::DirtyWorkingCopy, "Uncommitted changes")),
                }
            }
        },
    }
}

} // verus!
