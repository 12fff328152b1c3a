//! The execution engine: clean, then generate, then projects, stopping at
//! the first failure.
//!
//! The engine decides and the host acts. An [`Engine`] always has one
//! pending [`Action`]; the host performs it and reports an [`Event`];
//! [`Config::advance`] takes the event and yields the next state. The model
//! of all this is [`ConfigView::advance`], a function on views that the
//! executable code is proved to follow.

use crate::alias::AliasTable;
use crate::clean::{clean_verdict, judge_removals, Removal, RemovalView};
use crate::error::{outcome_view, ExecutionError, ExecutionErrorView, Failure, FailureView};
use crate::laws::{law_advance_keeps_admitted, law_initial_is_admitted, law_runs_stay_admitted};
use crate::model::{Config, ConfigView};
use crate::process::{judge, run_command, ProcessOutcome, ProcessOutcomeView};
use vstd::prelude::*;

verus! {

/// What the engine asks of the host.
#[derive(Debug, PartialEq, Eq)]
pub enum Action {
    /// Remove each of these directories that exists, with all it holds, one
    /// worker per directory and all of them started before any is waited for.
    /// Answered by [`Event::Cleaned`] with one report per directory.
    Clean(Vec<String>),
    /// Run a generate task's command line through the shell and wait for it.
    /// Answered by [`Event::Exited`].
    Generate { task: String, command: String },
    /// Run a project's command line through the shell and wait for it.
    /// Answered by [`Event::Exited`].
    Project { project: String, command: String },
    /// Nothing is left to do: the run is over, with this result.
    Finish(Result<(), Failure>),
}

/// What the host reports back.
#[derive(Debug, PartialEq, Eq)]
pub enum Event {
    /// Every worker of the clean stage is done; one report per directory, in
    /// the order of the directories. A directory without a report counts as
    /// one whose worker died.
    Cleaned(Vec<Removal>),
    /// The command was run, or could not be.
    Exited(ProcessOutcome),
}

pub enum ActionView {
    Clean(Seq<Seq<char>>),
    Generate { task: Seq<char>, command: Seq<char> },
    Project { project: Seq<char>, command: Seq<char> },
    Finish(Result<(), FailureView>),
}

pub enum EventView {
    Cleaned(Seq<RemovalView>),
    Exited(ProcessOutcomeView),
}

impl View for Action {
    type V = ActionView;

    open spec fn view(&self) -> ActionView {
        match self {
            Action::Clean(directories) => ActionView::Clean(directories.deep_view()),
            Action::Generate { task, command } => ActionView::Generate {
                task: task@,
                command: command@,
            },
            Action::Project { project, command } => ActionView::Project {
                project: project@,
                command: command@,
            },
            Action::Finish(outcome) => ActionView::Finish(outcome_view(*outcome)),
        }
    }
}

impl DeepView for Action {
    type V = ActionView;

    open spec fn deep_view(&self) -> ActionView {
        self@
    }
}

impl View for Event {
    type V = EventView;

    open spec fn view(&self) -> EventView {
        match self {
            Event::Cleaned(reports) => EventView::Cleaned(reports.deep_view()),
            Event::Exited(outcome) => EventView::Exited(outcome@),
        }
    }
}

impl DeepView for Event {
    type V = EventView;

    open spec fn deep_view(&self) -> EventView {
        self@
    }
}

/// Where a run stands: what it is waiting for, or how it ended.
#[derive(Debug)]
enum Phase {
    Clean(Vec<String>),
    Generate { index: usize, task: String, command: String },
    Project { index: usize, project: String, command: String },
    Done,
    Failed(Failure),
}

/// The state of one run. It lives as long as the run and is owned by
/// whoever drives it; the configuration is never changed.
#[derive(Debug)]
pub struct Engine {
    phase: Phase,
    completed: Vec<String>,
}

/// What a whole session came to: every action the engine asked for, the
/// one pending at the end being the last, and the state it ended in.
#[derive(Debug)]
pub struct Transcript {
    pub actions: Vec<Action>,
    pub end: Engine,
}

/// Where a run stands, in the model.
pub enum PhaseView {
    /// Waiting for the clean stage's workers to remove these directories.
    Clean(Seq<Seq<char>>),
    /// Waiting for the generate task at `index` to exit.
    Generate { index: int, task: Seq<char>, command: Seq<char> },
    /// Waiting for the project at `index` to exit.
    Project { index: int, project: Seq<char>, command: Seq<char> },
    /// Every stage completed.
    Done,
    /// A stage failed; nothing later was attempted.
    Failed(FailureView),
}

/// The state of one run, in the model: its phase and the names of the
/// generate tasks that completed so far, in the order of completion.
pub struct EngineView {
    pub phase: PhaseView,
    pub completed: Seq<Seq<char>>,
}

/// The stages of a run. They follow one another in this order, and a run
/// ends in `Done` or, from any stage, in `Failed`.
#[derive(Debug, Clone, Copy, PartialEq, Eq)]
pub enum Stage {
    Clean,
    Generate,
    Project,
    Done,
    Failed,
}

impl Stage {
    /// The place of a stage in the order of the stages; the two ways a run
    /// can end share the last place.
    pub open spec fn order(self) -> int {
        match self {
            Stage::Clean => 0,
            Stage::Generate => 1,
            Stage::Project => 2,
            Stage::Done => 3,
            Stage::Failed => 3,
        }
    }
}

impl View for Phase {
    type V = PhaseView;

    closed spec fn view(&self) -> PhaseView {
        match self {
            Phase::Clean(directories) => PhaseView::Clean(directories.deep_view()),
            Phase::Generate { index, task, command } => PhaseView::Generate {
                index: *index as int,
                task: task@,
                command: command@,
            },
            Phase::Project { index, project, command } => PhaseView::Project {
                index: *index as int,
                project: project@,
                command: command@,
            },
            Phase::Done => PhaseView::Done,
            Phase::Failed(failure) => PhaseView::Failed(failure@),
        }
    }
}

impl View for Engine {
    type V = EngineView;

    closed spec fn view(&self) -> EngineView {
        EngineView { phase: self.phase@, completed: self.completed.deep_view() }
    }
}

/// `at` is the first position in `wanted` whose name is not among `completed`.
pub open spec fn first_missing_at(
    wanted: Seq<Seq<char>>,
    completed: Seq<Seq<char>>,
    at: int,
) -> bool {
    &&& 0 <= at < wanted.len()
    &&& !completed.contains(wanted[at])
    &&& forall|i: int| 0 <= i < at ==> completed.contains(#[trigger] wanted[i])
}

/// The first of the `wanted` names that is not among `completed`, if any.
pub open spec fn missing_dependency(
    wanted: Seq<Seq<char>>,
    completed: Seq<Seq<char>>,
) -> Option<Seq<char>> {
    if exists|at: int| first_missing_at(wanted, completed, at) {
        Some(wanted[choose|at: int| first_missing_at(wanted, completed, at)])
    } else {
        None
    }
}

impl PhaseView {
    /// What the host is asked to do in this phase.
    pub open spec fn action(self) -> ActionView {
        match self {
            PhaseView::Clean(directories) => ActionView::Clean(directories),
            PhaseView::Generate { task, command, .. } => ActionView::Generate { task, command },
            PhaseView::Project { project, command, .. } => ActionView::Project { project, command },
            PhaseView::Done => ActionView::Finish(Ok(())),
            PhaseView::Failed(failure) => ActionView::Finish(Err(failure)),
        }
    }

    /// The run is over.
    pub open spec fn finished(self) -> bool {
        self is Done || self is Failed
    }

    /// The stage that the run is in.
    pub open spec fn stage(self) -> Stage {
        match self {
            PhaseView::Clean(_) => Stage::Clean,
            PhaseView::Generate { .. } => Stage::Generate,
            PhaseView::Project { .. } => Stage::Project,
            PhaseView::Done => Stage::Done,
            PhaseView::Failed(_) => Stage::Failed,
        }
    }

    /// The position, within its stage, of the unit that is pending.
    pub open spec fn cursor(self) -> int {
        match self {
            PhaseView::Generate { index, .. } => index,
            PhaseView::Project { index, .. } => index,
            _ => 0,
        }
    }
}

impl EngineView {
    /// What the host is asked to do now.
    pub open spec fn action(self) -> ActionView {
        self.phase.action()
    }

    /// The run's result, once it is over.
    pub open spec fn result(self) -> Option<Result<(), FailureView>> {
        match self.phase {
            PhaseView::Done => Some(Ok(())),
            PhaseView::Failed(failure) => Some(Err(failure)),
            _ => None,
        }
    }
}

impl ConfigView {
    /// The phase in which the project stage goes on from the project at
    /// `from`: done when no project is left; failed when the project names a
    /// generate task that has not completed; else waiting for the project.
    pub open spec fn enter_projects(
        self,
        aliases: Map<Seq<char>, Seq<char>>,
        from: int,
        completed: Seq<Seq<char>>,
    ) -> PhaseView {
        if 0 <= from < self.project_list().len() {
            let project = self.project_list()[from];
            match missing_dependency(project.dependencies(), completed) {
                Some(task) => PhaseView::Failed(
                    FailureView {
                        unit: Some(project.name),
                        error: ExecutionErrorView::DependencyUnmet(project.name, task),
                    },
                ),
                None => PhaseView::Project {
                    index: from,
                    project: project.name,
                    command: project.command_line(aliases),
                },
            }
        } else {
            PhaseView::Done
        }
    }

    /// The phase in which the generate stage goes on from the task at
    /// `from`: waiting for that task, or, when no task is left, the start of
    /// the project stage.
    pub open spec fn enter_generate(
        self,
        aliases: Map<Seq<char>, Seq<char>>,
        from: int,
        completed: Seq<Seq<char>>,
    ) -> PhaseView {
        if 0 <= from < self.tasks().len() {
            let task = self.tasks()[from];
            PhaseView::Generate { index: from, task: task.name, command: task.command }
        } else {
            self.enter_projects(aliases, 0, completed)
        }
    }

    /// The state in which the generate stage begins: nothing has completed
    /// yet, and the first task is pending if there is one.
    pub open spec fn generate_entry(self, aliases: Map<Seq<char>, Seq<char>>) -> EngineView {
        EngineView {
            phase: self.enter_generate(aliases, 0, Seq::empty()),
            completed: Seq::empty(),
        }
    }

    /// The state in which the project stage begins, the tasks named in
    /// `completed` having completed.
    pub open spec fn project_entry(
        self,
        aliases: Map<Seq<char>, Seq<char>>,
        completed: Seq<Seq<char>>,
    ) -> EngineView {
        EngineView { phase: self.enter_projects(aliases, 0, completed), completed }
    }

    /// Every generate task that the project at `at` depends on is among
    /// `completed`.
    pub open spec fn dependencies_met(self, at: int, completed: Seq<Seq<char>>) -> bool {
        forall|i: int|
            0 <= i < self.project_list()[at].dependencies().len() ==> completed.contains(
                #[trigger] self.project_list()[at].dependencies()[i],
            )
    }

    /// What holds of every state that a run of this configuration can be in.
    ///
    /// While a generate task is pending, exactly the tasks before it have
    /// completed. While a project is pending, every generate task has
    /// completed and every task the project depends on is among them. What
    /// is pending is always the unit at the cursor, with its own command.
    pub open spec fn admits(self, aliases: Map<Seq<char>, Seq<char>>, state: EngineView) -> bool {
        match state.phase {
            PhaseView::Clean(directories) => {
                &&& self.clean is Some
                &&& directories == self.directories()
                &&& state.completed == Seq::<Seq<char>>::empty()
            },
            PhaseView::Generate { index, task, command } => {
                &&& 0 <= index < self.tasks().len()
                &&& task == self.tasks()[index].name
                &&& command == self.tasks()[index].command
                &&& state.completed == self.task_names().take(index)
            },
            PhaseView::Project { index, project, command } => {
                &&& 0 <= index < self.project_list().len()
                &&& project == self.project_list()[index].name
                &&& command == self.project_list()[index].command_line(aliases)
                &&& state.completed == self.task_names()
                &&& self.dependencies_met(index, state.completed)
            },
            PhaseView::Done => state.completed == self.task_names(),
            PhaseView::Failed(_) => state.completed.is_prefix_of(self.task_names()),
        }
    }

    /// The state in which a run starts: cleaning where there is a clean
    /// section, else the start of the generate stage.
    pub open spec fn initial(self, aliases: Map<Seq<char>, Seq<char>>) -> EngineView {
        EngineView {
            phase: match self.clean {
                Some(clean) => PhaseView::Clean(clean.directories),
                None => self.enter_generate(aliases, 0, Seq::empty()),
            },
            completed: Seq::empty(),
        }
    }

    /// The state that follows `state` when the host reports `event`.
    ///
    /// A stage goes on to the next unit, or to the next stage, only on
    /// success; a failure ends the run there. An event that does not answer
    /// the pending action changes nothing, and neither does any event once
    /// the run is over.
    pub open spec fn advance(
        self,
        aliases: Map<Seq<char>, Seq<char>>,
        state: EngineView,
        event: EventView,
    ) -> EngineView {
        match (state.phase, event) {
            (PhaseView::Clean(directories), EventView::Cleaned(reports)) => match clean_verdict(
                directories.len() as int,
                reports,
            ) {
                Ok(_) => EngineView {
                    phase: self.enter_generate(aliases, 0, state.completed),
                    completed: state.completed,
                },
                Err(error) => EngineView {
                    phase: PhaseView::Failed(FailureView { unit: None, error }),
                    completed: state.completed,
                },
            },
            (
                PhaseView::Generate { index, task, command },
                EventView::Exited(outcome),
            ) => match judge(command, outcome) {
                Ok(_) => EngineView {
                    phase: self.enter_generate(aliases, index + 1, state.completed.push(task)),
                    completed: state.completed.push(task),
                },
                Err(error) => EngineView {
                    phase: PhaseView::Failed(FailureView { unit: Some(task), error }),
                    completed: state.completed,
                },
            },
            (
                PhaseView::Project { index, project, command },
                EventView::Exited(outcome),
            ) => match judge(command, outcome) {
                Ok(_) => EngineView {
                    phase: self.enter_projects(aliases, index + 1, state.completed),
                    completed: state.completed,
                },
                Err(error) => EngineView {
                    phase: PhaseView::Failed(FailureView { unit: Some(project), error }),
                    completed: state.completed,
                },
            },
            _ => state,
        }
    }

    /// The state reached from `state` when the host reports `events` one
    /// after the other.
    pub open spec fn run(
        self,
        aliases: Map<Seq<char>, Seq<char>>,
        state: EngineView,
        events: Seq<EventView>,
    ) -> EngineView
        decreases events.len(),
    {
        if events.len() == 0 {
            state
        } else {
            self.advance(aliases, self.run(aliases, state, events.drop_last()), events.last())
        }
    }

    /// The actions asked of the host over a whole session: the one pending
    /// at the start, then the one pending after each event.
    pub open spec fn trace(
        self,
        aliases: Map<Seq<char>, Seq<char>>,
        state: EngineView,
        events: Seq<EventView>,
    ) -> Seq<ActionView> {
        Seq::new(events.len() + 1, |i: int| self.run(aliases, state, events.take(i)).action())
    }
}

/// Whether `name` is among `names`.
fn has_name(names: &Vec<String>, name: &String) -> (found: bool)
    ensures
        found == names.deep_view().contains(name@),
{
    let ghost all = names.deep_view();
    let mut i: usize = 0;
    while i < names.len()
        invariant
            i <= names.len(),
            all == names.deep_view(),
            forall|j: int| 0 <= j < i ==> all[j] != name@,
        decreases names.len() - i,
    {
        if names[i] == *name {
            assert(all[i as int] == name@);
            return true;
        }
        i = i + 1;
    }
    false
}

/// The first of the `wanted` names that is not among `completed`.
fn find_missing(wanted: &Vec<String>, completed: &Vec<String>) -> (missing: Option<String>)
    ensures
        missing.deep_view() == missing_dependency(wanted.deep_view(), completed.deep_view()),
{
    let ghost names = wanted.deep_view();
    let ghost done = completed.deep_view();
    let mut i: usize = 0;
    while i < wanted.len()
        invariant
            i <= wanted.len(),
            names == wanted.deep_view(),
            done == completed.deep_view(),
            forall|j: int| 0 <= j < i ==> done.contains(#[trigger] names[j]),
        decreases wanted.len() - i,
    {
        if !has_name(completed, &wanted[i]) {
            assert(first_missing_at(names, done, i as int));
            return Some(wanted[i].clone());
        }
        i = i + 1;
    }
    None
}

impl Config {
    /// No section holds more units than an index can count.
    proof fn lemma_counts_fit(&self)
        ensures
            self@.tasks().len() <= usize::MAX,
            self@.project_list().len() <= usize::MAX,
    {
        if let Some(tasks) = self.generate {
            assert(tasks.deep_view().len() == tasks.len());
        }
        if let Some(projects) = self.projects {
            assert(projects.deep_view().len() == projects.len());
        }
    }

    fn enter_projects(
        &self,
        commands: &AliasTable,
        from: usize,
        completed: &Vec<String>,
    ) -> (phase: Phase)
        ensures
            phase@ == self@.enter_projects(commands@, from as int, completed.deep_view()),
    {
        if let Some(projects) = &self.projects {
            if from < projects.len() {
                let project = &projects[from];
                let missing = match &project.depends_on {
                    Some(wanted) => find_missing(wanted, completed),
                    None => None,
                };
                return match missing {
                    Some(task) => Phase::Failed(
                        Failure {
                            unit: Some(project.name.clone()),
                            error: ExecutionError::DependencyUnmet(project.name.clone(), task),
                        },
                    ),
                    None => Phase::Project {
                        index: from,
                        project: project.name.clone(),
                        command: project.resolve_command(commands),
                    },
                };
            }
        }
        Phase::Done
    }

    fn enter_generate(
        &self,
        commands: &AliasTable,
        from: usize,
        completed: &Vec<String>,
    ) -> (phase: Phase)
        ensures
            phase@ == self@.enter_generate(commands@, from as int, completed.deep_view()),
    {
        if let Some(tasks) = &self.generate {
            if from < tasks.len() {
                let task = &tasks[from];
                return Phase::Generate {
                    index: from,
                    task: task.name.clone(),
                    command: task.command.clone(),
                };
            }
        }
        self.enter_projects(commands, 0, completed)
    }

    /// Starts a run. Nothing has been asked of the host yet: the first
    /// request is the new state's [`Engine::action`].
    pub fn start(&self, commands: &AliasTable) -> (engine: Engine)
        ensures
            engine@ == self@.initial(commands@),
            self@.admits(commands@, engine@),
    {
        proof {
            law_initial_is_admitted(self@, commands@);
        }
        let completed: Vec<String> = Vec::new();
        assert(completed.deep_view() =~= Seq::empty());
        let phase = match &self.clean {
            Some(clean) => Phase::Clean(clean.directories.clone()),
            None => self.enter_generate(commands, 0, &completed),
        };
        Engine { phase, completed }
    }

    /// Takes the host's report on the pending action and moves the run on.
    pub fn advance(&self, commands: &AliasTable, engine: Engine, event: &Event) -> (next: Engine)
        ensures
            next@ == self@.advance(commands@, engine@, event@),
            self@.admits(commands@, engine@) ==> self@.admits(commands@, next@),
    {
        proof {
            if self@.admits(commands@, engine@) {
                law_advance_keeps_admitted(self@, commands@, engine@, event@);
            }
        }
        let Engine { phase, completed } = engine;
        match (phase, event) {
            (Phase::Clean(directories), Event::Cleaned(reports)) => {
                match judge_removals(directories.len(), reports) {
                    Ok(_) => {
                        let phase = self.enter_generate(commands, 0, &completed);
                        Engine { phase, completed }
                    },
                    Err(error) => Engine {
                        phase: Phase::Failed(Failure { unit: None, error }),
                        completed,
                    },
                }
            },
            (Phase::Generate { index, task, command }, Event::Exited(outcome)) => {
                match run_command(command.as_str(), outcome) {
                    Ok(_) => {
                        let ghost before = completed.deep_view();
                        let mut completed = completed;
                        completed.push(task);
                        assert(completed.deep_view() =~= before.push(task@));
                        let phase = if index < usize::MAX {
                            self.enter_generate(commands, index + 1, &completed)
                        } else {
                            proof {
                                self.lemma_counts_fit();
                            }
                            self.enter_projects(commands, 0, &completed)
                        };
                        Engine { phase, completed }
                    },
                    Err(error) => Engine {
                        phase: Phase::Failed(Failure { unit: Some(task), error }),
                        completed,
                    },
                }
            },
            (Phase::Project { index, project, command }, Event::Exited(outcome)) => {
                match run_command(command.as_str(), outcome) {
                    Ok(_) => {
                        let phase = if index < usize::MAX {
                            self.enter_projects(commands, index + 1, &completed)
                        } else {
                            proof {
                                self.lemma_counts_fit();
                            }
                            Phase::Done
                        };
                        Engine { phase, completed }
                    },
                    Err(error) => Engine {
                        phase: Phase::Failed(Failure { unit: Some(project), error }),
                        completed,
                    },
                }
            },
            (phase, _) => Engine { phase, completed },
        }
    }

    /// Runs the engine over a recorded session: the events that a host
    /// reported, in order, each taken as the answer to the action pending
    /// when it arrives.
    ///
    /// The transcript holds the action pending at the start and the one
    /// pending after each event, and the state after the last event. A
    /// session that is too short leaves the run waiting; events past the end
    /// of the run change nothing.
    pub fn execute_all(
        &self,
        commands: &AliasTable,
        session: &Vec<Event>,
    ) -> (transcript: Transcript)
        ensures
            transcript.end@ == self@.run(
                commands@,
                self@.initial(commands@),
                session.deep_view(),
            ),
            transcript.actions.deep_view() == self@.trace(
                commands@,
                self@.initial(commands@),
                session.deep_view(),
            ),
            self@.admits(commands@, transcript.end@),
    {
        proof {
            law_runs_stay_admitted(self@, commands@, session.deep_view());
        }
        let ghost events = session.deep_view();
        let ghost origin = self@.initial(commands@);
        let mut engine = self.start(commands);
        let mut actions: Vec<Action> = Vec::new();
        actions.push(engine.action());
        let mut i: usize = 0;
        while i < session.len()
            invariant
                i <= session.len(),
                events == session.deep_view(),
                origin == self@.initial(commands@),
                engine@ == self@.run(commands@, origin, events.take(i as int)),
                actions.len() == i + 1,
                forall|k: int|
                    0 <= k <= i ==> (#[trigger] actions.deep_view()[k]) == self@.run(
                        commands@,
                        origin,
                        events.take(k),
                    ).action(),
            decreases session.len() - i,
        {
            let ghost asked = actions.deep_view();
            assert(events.take(i + 1).drop_last() =~= events.take(i as int));
            engine = self.advance(commands, engine, &session[i]);
            actions.push(engine.action());
            assert forall|k: int| 0 <= k <= i + 1 implies (#[trigger] actions.deep_view()[k])
                == self@.run(commands@, origin, events.take(k)).action() by {
                if k <= i {
                    assert(actions.deep_view()[k] == asked[k]);
                }
            }
            i = i + 1;
        }
        assert(events.take(i as int) =~= events);
        Transcript { actions, end: engine }
    }
}

impl Engine {
    /// What the host is asked to do now.
    pub fn action(&self) -> (action: Action)
        ensures
            action@ == self@.action(),
    {
        match &self.phase {
            Phase::Clean(directories) => Action::Clean(directories.clone()),
            Phase::Generate { task, command, .. } => Action::Generate {
                task: task.clone(),
                command: command.clone(),
            },
            Phase::Project { project, command, .. } => Action::Project {
                project: project.clone(),
                command: command.clone(),
            },
            Phase::Done => Action::Finish(Ok(())),
            Phase::Failed(failure) => Action::Finish(Err(failure.clone())),
        }
    }

    /// The run's result, once it is over; `None` while the engine still
    /// waits for the host.
    pub fn result(&self) -> (outcome: Option<Result<(), Failure>>)
        ensures
            match outcome {
                Some(outcome) => self@.result() == Some(outcome_view(outcome)),
                None => self@.result() is None,
            },
    {
        match &self.phase {
            Phase::Done => Some(Ok(())),
            Phase::Failed(failure) => Some(Err(failure.clone())),
            _ => None,
        }
    }

    /// The stage that the run is in.
    pub fn stage(&self) -> (stage: Stage)
        ensures
            stage == self@.phase.stage(),
    {
        match &self.phase {
            Phase::Clean(_) => Stage::Clean,
            Phase::Generate { .. } => Stage::Generate,
            Phase::Project { .. } => Stage::Project,
            Phase::Done => Stage::Done,
            Phase::Failed(_) => Stage::Failed,
        }
    }

    /// The names of the generate tasks that have completed, in the order of
    /// completion.
    pub fn completed(&self) -> (names: &Vec<String>)
        ensures
            names.deep_view() == self@.completed,
    {
        &self.completed
    }
}

} // verus!
