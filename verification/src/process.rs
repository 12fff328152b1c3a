//! The process runner's decisions: which shell gets the command line, and
//! what the child's exit means.

use crate::alias::AliasTable;
use crate::error::{verdict_view, ExecutionError, ExecutionErrorView};
use crate::model::{Generate, Project};
use vstd::prelude::*;

verus! {

/// What the host saw when it ran one command line through the shell and
/// waited for the child to exit.
#[derive(Debug, PartialEq, Eq)]
pub enum ProcessOutcome {
    /// The shell could not be started; holds the cause.
    SpawnFailed(String),
    /// The child ran and exited: whether its status reports success, and its
    /// exit code where it has one (a child killed by a signal has none).
    Exited { success: bool, code: Option<i32> },
    /// The child was started, but how it ended could not be learnt.
    Unknown,
}

pub enum ProcessOutcomeView {
    SpawnFailed(Seq<char>),
    Exited { success: bool, code: Option<i32> },
    Unknown,
}

impl View for ProcessOutcome {
    type V = ProcessOutcomeView;

    open spec fn view(&self) -> ProcessOutcomeView {
        match self {
            ProcessOutcome::SpawnFailed(cause) => ProcessOutcomeView::SpawnFailed(cause@),
            ProcessOutcome::Exited { success, code } => ProcessOutcomeView::Exited {
                success: *success,
                code: *code,
            },
            ProcessOutcome::Unknown => ProcessOutcomeView::Unknown,
        }
    }
}

impl DeepView for ProcessOutcome {
    type V = ProcessOutcomeView;

    open spec fn deep_view(&self) -> ProcessOutcomeView {
        self@
    }
}

impl ProcessOutcomeView {
    /// The child ran and its status reports success.
    pub open spec fn succeeded(self) -> bool {
        self matches ProcessOutcomeView::Exited { success, .. } && success
    }
}

/// What running `line` amounts to, given what the host saw: success exactly
/// when the child's status reports it; a child that did not succeed, or
/// whose end is not known, fails with the command line and its exit code,
/// where there is one; a shell that did not start fails with the cause.
pub open spec fn judge(
    line: Seq<char>,
    outcome: ProcessOutcomeView,
) -> Result<(), ExecutionErrorView> {
    match outcome {
        ProcessOutcomeView::SpawnFailed(cause) => Err(ExecutionErrorView::SpawnFailed(cause)),
        ProcessOutcomeView::Exited { success, code } => if success {
            Ok(())
        } else {
            Err(ExecutionErrorView::CommandFailed(line, code))
        },
        ProcessOutcomeView::Unknown => Err(ExecutionErrorView::CommandFailed(line, None)),
    }
}

/// The program and arguments that run one command line through the host's
/// shell. The command line is a single argument, so the shell does its own
/// splitting, redirection and piping.
#[derive(Debug, PartialEq, Eq)]
pub struct ShellInvocation {
    pub program: String,
    pub arguments: Vec<String>,
}

/// The shell's name on the given family of hosts.
pub open spec fn shell_program(windows: bool) -> Seq<char> {
    if windows {
        "cmd"@
    } else {
        "sh"@
    }
}

/// The flag that makes the shell run its next argument as a command line.
pub open spec fn shell_flag(windows: bool) -> Seq<char> {
    if windows {
        "/C"@
    } else {
        "-c"@
    }
}

/// Picks the shell for `command`: `cmd /C` on a Windows host, `sh -c`
/// elsewhere.
pub fn shell_invocation(windows: bool, command: &str) -> (call: ShellInvocation)
    ensures
        call.program@ == shell_program(windows),
        call.arguments.deep_view() == seq![shell_flag(windows), command@],
{
    let program = if windows {
        "cmd".to_owned()
    } else {
        "sh".to_owned()
    };
    let flag = if windows {
        "/C".to_owned()
    } else {
        "-c".to_owned()
    };
    let mut arguments: Vec<String> = Vec::new();
    arguments.push(flag);
    arguments.push(command.to_owned());
    ShellInvocation { program, arguments }
}

/// Decides what running `command` amounts to, from what the host saw.
pub fn run_command(
    command: &str,
    outcome: &ProcessOutcome,
) -> (verdict: Result<(), ExecutionError>)
    ensures
        verdict_view(verdict) == judge(command@, outcome@),
{
    match outcome {
        ProcessOutcome::SpawnFailed(cause) => Err(ExecutionError::SpawnFailed(cause.clone())),
        ProcessOutcome::Exited { success, code } => {
            if *success {
                Ok(())
            } else {
                Err(ExecutionError::CommandFailed(command.to_owned(), *code))
            }
        },
        ProcessOutcome::Unknown => Err(ExecutionError::CommandFailed(command.to_owned(), None)),
    }
}

impl Generate {
    /// Decides what running the command amounts to. The command is
    /// taken literally: the alias table plays no part.
    pub fn execute(&self, outcome: &ProcessOutcome) -> (verdict: Result<(), ExecutionError>)
        ensures
            verdict_view(verdict) == judge(self@.command, outcome@),
    {
        run_command(self.command.as_str(), outcome)
    }
}

impl Project {
    /// Decides what running this project amounts to: its command line is
    /// resolved through `commands`, then judged like any other.
    pub fn execute(
        &self,
        commands: &AliasTable,
        outcome: &ProcessOutcome,
    ) -> (verdict: Result<(), ExecutionError>)
        ensures
            verdict_view(verdict) == judge(self@.command_line(commands@), outcome@),
    {
        let line = self.resolve_command(commands);
        run_command(line.as_str(), outcome)
    }
}

} // verus!
