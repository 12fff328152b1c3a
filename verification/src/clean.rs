//! The clean stage: what its workers report, and what that comes to.

use crate::error::{verdict_view, ExecutionError, ExecutionErrorView};
use crate::model::{Config, ConfigView};
use vstd::prelude::*;

verus! {

/// What one worker of the clean stage reports about its directory.
#[derive(Debug, PartialEq, Eq)]
pub enum Removal {
    /// The directory did not exist: nothing was removed, nothing went wrong.
    Absent,
    /// The directory existed and was removed with all it held.
    Removed,
    /// The directory existed and could not be removed; holds the cause.
    Failed(String),
    /// The worker died before it could report.
    Aborted,
}

pub enum RemovalView {
    Absent,
    Removed,
    Failed(Seq<char>),
    Aborted,
}

impl View for Removal {
    type V = RemovalView;

    open spec fn view(&self) -> RemovalView {
        match self {
            Removal::Absent => RemovalView::Absent,
            Removal::Removed => RemovalView::Removed,
            Removal::Failed(cause) => RemovalView::Failed(cause@),
            Removal::Aborted => RemovalView::Aborted,
        }
    }
}

impl DeepView for Removal {
    type V = RemovalView;

    open spec fn deep_view(&self) -> RemovalView {
        self@
    }
}

/// The cause reported for a worker that died.
pub open spec fn aborted_cause() -> Seq<char> {
    "Thread panicked during cleanup"@
}

impl RemovalView {
    /// Why this report counts as a failure, if it does. A directory that was
    /// absent beforehand is as good as one that was removed.
    pub open spec fn fault(self) -> Option<Seq<char>> {
        match self {
            RemovalView::Absent => None,
            RemovalView::Removed => None,
            RemovalView::Failed(cause) => Some(cause),
            RemovalView::Aborted => Some(aborted_cause()),
        }
    }
}

/// The report on the directory at `at`. A directory that the host reports
/// nothing about counts as one whose worker died: no directory is passed
/// over in silence.
pub open spec fn report_at(reports: Seq<RemovalView>, at: int) -> RemovalView {
    if 0 <= at < reports.len() {
        reports[at]
    } else {
        RemovalView::Aborted
    }
}

/// Among `count` directories, the one at `at` is the first whose report
/// counts as a failure.
pub open spec fn first_fault_at(count: int, reports: Seq<RemovalView>, at: int) -> bool {
    &&& 0 <= at < count
    &&& report_at(reports, at).fault() is Some
    &&& forall|i: int| 0 <= i < at ==> (#[trigger] report_at(reports, i)).fault() is None
}

/// How the clean stage ends for `count` directories. It succeeds when the
/// report on every directory is good, and otherwise fails with the failure
/// that comes first in the order of the directories. Reports beyond the
/// directories play no part.
pub open spec fn clean_verdict(
    count: int,
    reports: Seq<RemovalView>,
) -> Result<(), ExecutionErrorView> {
    if exists|at: int| first_fault_at(count, reports, at) {
        let at = choose|at: int| first_fault_at(count, reports, at);
        Err(ExecutionErrorView::CleanupFailed(report_at(reports, at).fault()->0))
    } else {
        Ok(())
    }
}

impl ConfigView {
    /// How this configuration's clean stage ends. Without a clean section
    /// there is nothing to do and nothing to fail.
    pub open spec fn clean_outcome(
        self,
        reports: Seq<RemovalView>,
    ) -> Result<(), ExecutionErrorView> {
        clean_verdict(self.directories().len() as int, reports)
    }
}

/// Judges the reports of the clean stage's workers on `count` directories,
/// one report per directory and in the order of the directories.
pub fn judge_removals(
    count: usize,
    reports: &Vec<Removal>,
) -> (verdict: Result<(), ExecutionError>)
    ensures
        verdict_view(verdict) == clean_verdict(count as int, reports.deep_view()),
{
    let ghost all = reports.deep_view();
    let mut i: usize = 0;
    while i < count
        invariant
            i <= count,
            all == reports.deep_view(),
            forall|j: int| 0 <= j < i ==> (#[trigger] report_at(all, j)).fault() is None,
        decreases count - i,
    {
        if i < reports.len() {
            match &reports[i] {
                Removal::Failed(cause) => {
                    assert(first_fault_at(count as int, all, i as int));
                    return Err(ExecutionError::CleanupFailed(cause.clone()));
                },
                Removal::Aborted => {
                    assert(first_fault_at(count as int, all, i as int));
                    return Err(
                        ExecutionError::CleanupFailed("Thread panicked during cleanup".to_owned()),
                    );
                },
                _ => {},
            }
        } else {
            assert(first_fault_at(count as int, all, i as int));
            return Err(ExecutionError::CleanupFailed("Thread panicked during cleanup".to_owned()));
        }
        i = i + 1;
    }
    Ok(())
}

impl Config {
    /// How the clean stage ends, once every worker has reported.
    pub fn perform_clean(&self, reports: &Vec<Removal>) -> (verdict: Result<(), ExecutionError>)
        ensures
            verdict_view(verdict) == self@.clean_outcome(reports.deep_view()),
    {
        match &self.clean {
            Some(clean) => judge_removals(clean.directories.len(), reports),
            None => judge_removals(0, reports),
        }
    }
}

} // verus!
