//! A declarative task orchestrator.
//!
//! A [`Config`] names directories to clean, one-shot generate tasks, projects
//! and groups of projects. The engine turns it into an ordered series of
//! requests to the host (remove these directories, run this command line) and
//! decides, from what the host reports back, how the run goes on: clean, then
//! generate, then projects, stopping at the first failure.
//!
//! The library never touches the file system or spawns a process itself. The
//! caller performs each [`Action`] and hands the resulting [`Event`] to
//! [`Config::advance`]; every decision in between is verified against the
//! model in this crate.
//!
//! - [`model`]: the configuration and its view.
//! - [`alias`] and [`loader`]: the alias table, and reading it from TOML.
//! - [`resolve`]: from a project to its literal command line.
//! - [`process`]: which shell runs a command line, and what its exit means.
//! - [`clean`]: what the clean stage's workers report, and what it comes to.
//! - [`group`] and [`names`]: lookup by name, and whether names are unique.
//! - [`engine`]: the state of a run, its model and its transitions.
//! - [`error`]: what can go wrong.
//! - [`laws`]: what holds of every run.

pub mod alias;
pub mod clean;
pub mod engine;
pub mod error;
pub mod group;
pub mod laws;
pub mod loader;
pub mod model;
pub mod names;
pub mod process;
pub mod resolve;

pub use alias::AliasTable;
pub use clean::{judge_removals, Removal};
pub use engine::{Action, Engine, Event, Stage, Transcript};
pub use error::{ExecutionError, Failure};
pub use loader::{commands_or_empty, parse_commands, ParseError};
pub use model::{Clean, Config, Generate, Group, Project};
pub use process::{run_command, shell_invocation, ProcessOutcome, ShellInvocation};
