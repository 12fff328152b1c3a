//! What can go wrong during a run.

use vstd::prelude::*;

verus! {

/// The reason a run stopped early.
#[derive(Debug, PartialEq, Eq)]
pub enum ExecutionError {
    /// The shell could not be started; holds the cause as the host gave it.
    SpawnFailed(String),
    /// The command ran and did not report success; holds the literal command
    /// line and the exit code, where there was one.
    CommandFailed(String, Option<i32>),
    /// A directory could not be removed, or the worker removing it died;
    /// holds the cause.
    CleanupFailed(String),
    /// A project names a generate task that has not completed; holds the
    /// project's name and the missing task's name.
    DependencyUnmet(String, String),
}

/// A failure together with the generate task or project it belongs to.
/// A failure of the clean stage belongs to no unit.
#[derive(Debug, PartialEq, Eq)]
pub struct Failure {
    pub unit: Option<String>,
    pub error: ExecutionError,
}

pub enum ExecutionErrorView {
    SpawnFailed(Seq<char>),
    CommandFailed(Seq<char>, Option<i32>),
    CleanupFailed(Seq<char>),
    DependencyUnmet(Seq<char>, Seq<char>),
}

pub struct FailureView {
    pub unit: Option<Seq<char>>,
    pub error: ExecutionErrorView,
}

impl View for ExecutionError {
    type V = ExecutionErrorView;

    open spec fn view(&self) -> ExecutionErrorView {
        match self {
            ExecutionError::SpawnFailed(cause) => ExecutionErrorView::SpawnFailed(cause@),
            ExecutionError::CommandFailed(line, code) => ExecutionErrorView::CommandFailed(
                line@,
                *code,
            ),
            ExecutionError::CleanupFailed(cause) => ExecutionErrorView::CleanupFailed(cause@),
            ExecutionError::DependencyUnmet(project, task) => ExecutionErrorView::DependencyUnmet(
                project@,
                task@,
            ),
        }
    }
}

impl DeepView for ExecutionError {
    type V = ExecutionErrorView;

    open spec fn deep_view(&self) -> ExecutionErrorView {
        self@
    }
}

impl View for Failure {
    type V = FailureView;

    open spec fn view(&self) -> FailureView {
        FailureView { unit: self.unit.deep_view(), error: self.error@ }
    }
}

impl DeepView for Failure {
    type V = FailureView;

    open spec fn deep_view(&self) -> FailureView {
        self@
    }
}

/// The outcome of a command or of the clean stage, as the model sees it.
pub open spec fn verdict_view(
    verdict: Result<(), ExecutionError>,
) -> Result<(), ExecutionErrorView> {
    match verdict {
        Ok(_) => Ok(()),
        Err(error) => Err(error@),
    }
}

/// The result of a run, as the model sees it.
pub open spec fn outcome_view(outcome: Result<(), Failure>) -> Result<(), FailureView> {
    match outcome {
        Ok(_) => Ok(()),
        Err(failure) => Err(failure@),
    }
}

impl Clone for ExecutionError {
    fn clone(&self) -> (copy: Self)
        ensures
            copy@ == self@,
    {
        match self {
            ExecutionError::SpawnFailed(cause) => ExecutionError::SpawnFailed(cause.clone()),
            ExecutionError::CommandFailed(line, code) => ExecutionError::CommandFailed(
                line.clone(),
                *code,
            ),
            ExecutionError::CleanupFailed(cause) => ExecutionError::CleanupFailed(cause.clone()),
            ExecutionError::DependencyUnmet(project, task) => ExecutionError::DependencyUnmet(
                project.clone(),
                task.clone(),
            ),
        }
    }
}

impl Clone for Failure {
    fn clone(&self) -> (copy: Self)
        ensures
            copy@ == self@,
    {
        let unit = match &self.unit {
            Some(name) => Some(name.clone()),
            None => None,
        };
        Failure { unit, error: self.error.clone() }
    }
}

} // verus!
