//! What holds of every run of the engine, of the command resolver and of
//! the group index, proved over their models.
//!
//! The laws on a single stage speak of the state in which that stage
//! begins. [`law_no_clean_section_no_clean_stage`] and
//! [`law_run_after_clean`] tie the generate stage to the start of a run,
//! [`law_generate_completes`] ties the project stage to the end of the
//! generate stage, and [`law_run_composes`] puts sessions together.

use crate::clean::{clean_verdict, first_fault_at, report_at, RemovalView};
use crate::engine::{
    first_missing_at, missing_dependency, ActionView, EngineView, EventView, PhaseView,
};
use crate::error::{ExecutionErrorView, FailureView};
use crate::group::{first_named_at, position_of};
use crate::model::{ConfigView, GenerateView, ProjectView};
use crate::process::{judge, ProcessOutcomeView};
use crate::resolve::join_tokens;
use vstd::prelude::*;

verus! {

/// Where no dependency is reported missing, every one has completed.
pub proof fn lemma_nothing_missing(wanted: Seq<Seq<char>>, completed: Seq<Seq<char>>, upto: int)
    requires
        missing_dependency(wanted, completed) is None,
        0 <= upto <= wanted.len(),
    ensures
        forall|i: int| 0 <= i < upto ==> completed.contains(#[trigger] wanted[i]),
    decreases upto,
{
    if upto > 0 {
        lemma_nothing_missing(wanted, completed, upto - 1);
        if !completed.contains(wanted[upto - 1]) {
            assert(first_missing_at(wanted, completed, upto - 1));
        }
    }
}

/// A dependency that is reported missing is one that was asked for and has
/// not completed, and everything asked for before it has.
pub proof fn lemma_missing_is_unmet(wanted: Seq<Seq<char>>, completed: Seq<Seq<char>>)
    requires
        missing_dependency(wanted, completed) is Some,
    ensures
        exists|at: int|
            first_missing_at(wanted, completed, at) && missing_dependency(wanted, completed)
                == Some(wanted[at]),
{
    let at = choose|at: int| first_missing_at(wanted, completed, at);
    assert(first_missing_at(wanted, completed, at));
}

/// The clean stage succeeds exactly when the report on every directory is
/// good, be the directory present or absent beforehand; when it fails, it
/// fails with the cause that comes first in the order of the directories.
pub proof fn law_clean_verdict(count: int, reports: Seq<RemovalView>)
    ensures
        clean_verdict(count, reports) is Ok <==> forall|i: int|
            0 <= i < count ==> (#[trigger] report_at(reports, i)).fault() is None,
        clean_verdict(count, reports) is Ok ==> forall|i: int|
            0 <= i < count ==> 0 <= i < reports.len() && ((#[trigger] reports[i])
                == RemovalView::Absent || reports[i] == RemovalView::Removed),
        clean_verdict(count, reports) is Err ==> exists|at: int|
            first_fault_at(count, reports, at) && clean_verdict(count, reports) == Err::<
                (),
                ExecutionErrorView,
            >(ExecutionErrorView::CleanupFailed(report_at(reports, at).fault()->0)),
{
    if exists|at: int| first_fault_at(count, reports, at) {
        let at = choose|at: int| first_fault_at(count, reports, at);
        assert(first_fault_at(count, reports, at));
    } else {
        if count > 0 {
            lemma_no_fault(count, reports, count);
        }
        assert forall|i: int| 0 <= i < count implies 0 <= i < reports.len() && ((
        #[trigger] reports[i]) == RemovalView::Absent || reports[i] == RemovalView::Removed) by {
            assert(report_at(reports, i).fault() is None);
        }
    }
}

/// Where no directory is the first with a failure, none has one.
proof fn lemma_no_fault(count: int, reports: Seq<RemovalView>, upto: int)
    requires
        !exists|at: int| first_fault_at(count, reports, at),
        0 <= upto <= count,
    ensures
        forall|i: int| 0 <= i < upto ==> (#[trigger] report_at(reports, i)).fault() is None,
    decreases upto,
{
    if upto > 0 {
        lemma_no_fault(count, reports, upto - 1);
        if report_at(reports, upto - 1).fault() is Some {
            assert(first_fault_at(count, reports, upto - 1));
        }
    }
}

/// A run starts in a state that the configuration admits.
pub proof fn law_initial_is_admitted(config: ConfigView, aliases: Map<Seq<char>, Seq<char>>)
    ensures
        config.admits(aliases, config.initial(aliases)),
{
    if config.clean is None {
        assert(config.task_names().take(0) =~= Seq::<Seq<char>>::empty());
        lemma_generate_entry_is_admitted(config, aliases, 0);
    }
}

/// Entering the generate stage at `from`, with exactly the tasks before
/// `from` completed, gives a state that the configuration admits.
proof fn lemma_generate_entry_is_admitted(
    config: ConfigView,
    aliases: Map<Seq<char>, Seq<char>>,
    from: int,
)
    requires
        0 <= from <= config.tasks().len(),
    ensures
        config.admits(
            aliases,
            EngineView {
                phase: config.enter_generate(aliases, from, config.task_names().take(from)),
                completed: config.task_names().take(from),
            },
        ),
{
    if from == config.tasks().len() {
        assert(config.task_names().take(from) =~= config.task_names());
        lemma_project_entry_is_admitted(config, aliases, 0);
    }
}

/// Entering the project stage at `from`, with every generate task
/// completed, gives a state that the configuration admits.
proof fn lemma_project_entry_is_admitted(
    config: ConfigView,
    aliases: Map<Seq<char>, Seq<char>>,
    from: int,
)
    requires
        0 <= from,
    ensures
        config.admits(
            aliases,
            EngineView {
                phase: config.enter_projects(aliases, from, config.task_names()),
                completed: config.task_names(),
            },
        ),
{
    if from < config.project_list().len() {
        let wanted = config.project_list()[from].dependencies();
        if missing_dependency(wanted, config.task_names()) is None {
            lemma_nothing_missing(wanted, config.task_names(), wanted.len() as int);
        }
    }
}

/// Whatever the host reports, a state that the configuration admits is
/// followed by one that it admits.
pub proof fn law_advance_keeps_admitted(
    config: ConfigView,
    aliases: Map<Seq<char>, Seq<char>>,
    state: EngineView,
    event: EventView,
)
    requires
        config.admits(aliases, state),
    ensures
        config.admits(aliases, config.advance(aliases, state, event)),
{
    let names = config.task_names();
    match (state.phase, event) {
        (PhaseView::Clean(_), EventView::Cleaned(reports)) => {
            assert(names.take(0) =~= Seq::<Seq<char>>::empty());
            if clean_verdict(config.directories().len() as int, reports) is Ok {
                lemma_generate_entry_is_admitted(config, aliases, 0);
            }
        },
        (PhaseView::Generate { index, task, command }, EventView::Exited(outcome)) => {
            if judge(command, outcome) is Ok {
                assert(state.completed.push(task) =~= names.take(index + 1));
                lemma_generate_entry_is_admitted(config, aliases, index + 1);
            }
        },
        (PhaseView::Project { index, project, command }, EventView::Exited(outcome)) => {
            if judge(command, outcome) is Ok {
                lemma_project_entry_is_admitted(config, aliases, index + 1);
            }
        },
        _ => {},
    }
}

/// Every state that a run passes through, whatever the host reports and
/// however long the session, is one that the configuration admits. So a
/// project is only ever pending once every generate task has completed and
/// every task it depends on is among them.
pub proof fn law_runs_stay_admitted(
    config: ConfigView,
    aliases: Map<Seq<char>, Seq<char>>,
    events: Seq<EventView>,
)
    ensures
        config.admits(aliases, config.run(aliases, config.initial(aliases), events)),
    decreases events.len(),
{
    if events.len() == 0 {
        law_initial_is_admitted(config, aliases);
    } else {
        law_runs_stay_admitted(config, aliases, events.drop_last());
        law_advance_keeps_admitted(
            config,
            aliases,
            config.run(aliases, config.initial(aliases), events.drop_last()),
            events.last(),
        );
    }
}

/// Dependency gating, over whole runs. Whatever the host reports, a project
/// is only ever pending when every generate task has completed and every
/// task it depends on is among them. So a project that names a task which
/// has not completed is never run.
pub proof fn law_pending_project_has_dependencies_met(
    config: ConfigView,
    aliases: Map<Seq<char>, Seq<char>>,
    events: Seq<EventView>,
)
    ensures
        ({
            let state = config.run(aliases, config.initial(aliases), events);
            state.phase matches PhaseView::Project { index, project, command } ==> {
                &&& 0 <= index < config.project_list().len()
                &&& state.action() == project_action(config.project_list()[index], aliases)
                &&& state.completed == config.task_names()
                &&& config.dependencies_met(index, state.completed)
            }
        }),
{
    law_runs_stay_admitted(config, aliases, events);
}

/// Generation comes first, over whole runs. Whatever the host reports,
/// while a generate task is pending exactly the tasks declared before it
/// have completed, and no project has been asked for; when the run is done,
/// every generate task has completed.
pub proof fn law_generate_precedes_projects(
    config: ConfigView,
    aliases: Map<Seq<char>, Seq<char>>,
    events: Seq<EventView>,
)
    ensures
        ({
            let state = config.run(aliases, config.initial(aliases), events);
            &&& state.phase matches PhaseView::Generate { index, task, command } ==> {
                &&& 0 <= index < config.tasks().len()
                &&& state.action() == generate_action(config.tasks()[index])
                &&& state.completed == config.task_names().take(index)
            }
            &&& state.phase is Done ==> state.completed == config.task_names()
            &&& state.completed.is_prefix_of(config.task_names())
        }),
{
    law_runs_stay_admitted(config, aliases, events);
}

/// A run that is over stays as it is: no event changes its state, so no
/// later unit is ever asked for.
pub proof fn law_finished_is_final(
    config: ConfigView,
    aliases: Map<Seq<char>, Seq<char>>,
    state: EngineView,
    events: Seq<EventView>,
)
    requires
        state.phase.finished(),
    ensures
        config.run(aliases, state, events) == state,
    decreases events.len(),
{
    if events.len() > 0 {
        law_finished_is_final(config, aliases, state, events.drop_last());
    }
}

/// No stage is entered again once left, and within a stage no unit is
/// taken up twice: an event either changes nothing, or moves the run to a
/// later stage, or to the next unit of the same stage.
pub proof fn law_advance_moves_forward(
    config: ConfigView,
    aliases: Map<Seq<char>, Seq<char>>,
    state: EngineView,
    event: EventView,
)
    ensures
        ({
            let next = config.advance(aliases, state, event);
            ||| next == state
            ||| next.phase.stage().order() > state.phase.stage().order()
            ||| next.phase.stage() == state.phase.stage() && next.phase.cursor()
                == state.phase.cursor() + 1
        }),
{
}

/// Handing over one session after another is handing over both at once.
pub proof fn law_run_composes(
    config: ConfigView,
    aliases: Map<Seq<char>, Seq<char>>,
    state: EngineView,
    first: Seq<EventView>,
    second: Seq<EventView>,
)
    ensures
        config.run(aliases, state, first + second) == config.run(
            aliases,
            config.run(aliases, state, first),
            second,
        ),
    decreases second.len(),
{
    if second.len() == 0 {
        assert(first + second =~= first);
    } else {
        assert((first + second).drop_last() =~= first + second.drop_last());
        law_run_composes(config, aliases, state, first, second.drop_last());
    }
}

/// A clean stage in which the report on every directory is good leads to
/// the start of the generate stage; any other ends the run with the first
/// failure, which belongs to no unit.
pub proof fn law_clean_stage(
    config: ConfigView,
    aliases: Map<Seq<char>, Seq<char>>,
    reports: Seq<RemovalView>,
)
    requires
        config.clean is Some,
    ensures
        config.initial(aliases).action() == ActionView::Clean(config.directories()),
        config.clean_outcome(reports) is Ok ==> config.advance(
            aliases,
            config.initial(aliases),
            EventView::Cleaned(reports),
        ) == config.generate_entry(aliases),
        config.clean_outcome(reports) matches Err(error) ==> config.advance(
            aliases,
            config.initial(aliases),
            EventView::Cleaned(reports),
        ) == (EngineView {
            phase: PhaseView::Failed(FailureView { unit: None, error }),
            completed: Seq::empty(),
        }),
{
}

/// What follows the clean stage. In a run that begins with the clean
/// stage, once the host has reported on the directories: where every
/// report is good, the rest of the session is taken as it would be by a
/// run that begins with the generate stage; where one is not, the run has
/// failed, and the rest of the session changes nothing.
pub proof fn law_run_after_clean(
    config: ConfigView,
    aliases: Map<Seq<char>, Seq<char>>,
    reports: Seq<RemovalView>,
    rest: Seq<EventView>,
)
    requires
        config.clean is Some,
    ensures
        config.clean_outcome(reports) is Ok ==> config.run(
            aliases,
            config.initial(aliases),
            seq![EventView::Cleaned(reports)] + rest,
        ) == config.run(aliases, config.generate_entry(aliases), rest),
        config.clean_outcome(reports) matches Err(error) ==> config.run(
            aliases,
            config.initial(aliases),
            seq![EventView::Cleaned(reports)] + rest,
        ) == (EngineView {
            phase: PhaseView::Failed(FailureView { unit: None, error }),
            completed: Seq::empty(),
        }),
{
    let first = seq![EventView::Cleaned(reports)];
    let cleaned = config.advance(aliases, config.initial(aliases), first[0]);
    law_run_composes(config, aliases, config.initial(aliases), first, rest);
    assert(first.drop_last() =~= Seq::<EventView>::empty());
    assert(config.run(aliases, config.initial(aliases), first.drop_last()) == config.initial(
        aliases,
    ));
    assert(config.run(aliases, config.initial(aliases), first) == cleaned);
    law_clean_stage(config, aliases, reports);
    if config.clean_outcome(reports) is Err {
        law_finished_is_final(config, aliases, cleaned, rest);
    }
}

/// The session in which the host reports these exits, one per command.
pub open spec fn exited(exits: Seq<ProcessOutcomeView>) -> Seq<EventView> {
    exits.map_values(|outcome: ProcessOutcomeView| EventView::Exited(outcome))
}

/// The request to run a generate task.
pub open spec fn generate_action(task: GenerateView) -> ActionView {
    ActionView::Generate { task: task.name, command: task.command }
}

/// After the first `count` generate tasks have each exited with success,
/// exactly they have completed and the generate stage goes on from there.
proof fn lemma_generate_progress(
    config: ConfigView,
    aliases: Map<Seq<char>, Seq<char>>,
    exits: Seq<ProcessOutcomeView>,
    count: int,
)
    requires
        0 <= count <= config.tasks().len(),
        count <= exits.len(),
        forall|i: int| 0 <= i < count ==> (#[trigger] exits[i]).succeeded(),
    ensures
        config.run(aliases, config.generate_entry(aliases), exited(exits).take(count)) == (
        EngineView {
            phase: config.enter_generate(aliases, count, config.task_names().take(count)),
            completed: config.task_names().take(count),
        }),
    decreases count,
{
    let names = config.task_names();
    if count == 0 {
        assert(names.take(0) =~= Seq::<Seq<char>>::empty());
    } else {
        lemma_generate_progress(config, aliases, exits, count - 1);
        assert(exited(exits).take(count).drop_last() =~= exited(exits).take(count - 1));
        assert(names.take(count - 1).push(names[count - 1]) =~= names.take(count));
    }
}

/// Fail-fast generation. If the generate task at `failing` is the first
/// whose command does not succeed, then once the host has reported the
/// exits up to that one:
/// the run has failed with that task's failure, tagged with its name;
/// exactly the tasks before it have completed;
/// and the engine has asked for the tasks up to it, one after the other,
/// and then for nothing but the end of the run. No later task and no
/// project was asked for.
pub proof fn law_generate_stops_at_first_failure(
    config: ConfigView,
    aliases: Map<Seq<char>, Seq<char>>,
    exits: Seq<ProcessOutcomeView>,
    failing: int,
)
    requires
        0 <= failing < config.tasks().len(),
        exits.len() == failing + 1,
        forall|i: int| 0 <= i < failing ==> (#[trigger] exits[i]).succeeded(),
        !exits[failing].succeeded(),
    ensures
        ({
            let task = config.tasks()[failing];
            let end = config.run(aliases, config.generate_entry(aliases), exited(exits));
            let asked = config.trace(aliases, config.generate_entry(aliases), exited(exits));
            &&& judge(task.command, exits[failing]) matches Err(error) && end.phase
                == PhaseView::Failed(FailureView { unit: Some(task.name), error })
            &&& end.completed == config.task_names().take(failing)
            &&& asked.len() == failing + 2
            &&& forall|i: int|
                0 <= i <= failing ==> #[trigger] asked[i] == generate_action(config.tasks()[i])
            &&& asked[failing + 1] == end.action()
            &&& end.action() is Finish
        }),
{
    let entry = config.generate_entry(aliases);
    let events = exited(exits);
    let asked = config.trace(aliases, entry, events);
    lemma_generate_progress(config, aliases, exits, failing);
    assert(events.take(failing + 1) =~= events);
    assert forall|i: int| 0 <= i <= failing implies #[trigger] asked[i] == generate_action(
        config.tasks()[i],
    ) by {
        lemma_generate_progress(config, aliases, exits, i);
    }
}

/// When every generate task exits with success, all of them have
/// completed, in declaration order, and the project stage begins: the
/// first project is pending, or the run is over where there is none or a
/// dependency is unmet.
pub proof fn law_generate_completes(
    config: ConfigView,
    aliases: Map<Seq<char>, Seq<char>>,
    exits: Seq<ProcessOutcomeView>,
)
    requires
        exits.len() == config.tasks().len(),
        forall|i: int| 0 <= i < exits.len() ==> (#[trigger] exits[i]).succeeded(),
    ensures
        config.run(aliases, config.generate_entry(aliases), exited(exits)) == (EngineView {
            phase: config.enter_projects(aliases, 0, config.task_names()),
            completed: config.task_names(),
        }),
{
    lemma_generate_progress(config, aliases, exits, exits.len() as int);
    assert(exited(exits).take(exits.len() as int) =~= exited(exits));
    assert(config.task_names().take(exits.len() as int) =~= config.task_names());
}

/// Without a clean section the run begins with the generate stage.
pub proof fn law_no_clean_section_no_clean_stage(
    config: ConfigView,
    aliases: Map<Seq<char>, Seq<char>>,
)
    requires
        config.clean is None,
    ensures
        config.initial(aliases) == config.generate_entry(aliases),
        !(config.initial(aliases).action() is Clean),
{
}

/// The request to run a project.
pub open spec fn project_action(
    project: ProjectView,
    aliases: Map<Seq<char>, Seq<char>>,
) -> ActionView {
    ActionView::Project { project: project.name, command: project.command_line(aliases) }
}

/// A project whose dependencies are all met has none missing.
proof fn lemma_met_means_none_missing(config: ConfigView, at: int, completed: Seq<Seq<char>>)
    requires
        0 <= at < config.project_list().len(),
        config.dependencies_met(at, completed),
    ensures
        missing_dependency(config.project_list()[at].dependencies(), completed) is None,
{
    let wanted = config.project_list()[at].dependencies();
    if missing_dependency(wanted, completed) is Some {
        lemma_missing_is_unmet(wanted, completed);
    }
}

/// After the first `count` projects have each exited with success, the
/// project stage goes on from the project at `count`, and what has
/// completed is what had completed when the stage began.
proof fn lemma_project_progress(
    config: ConfigView,
    aliases: Map<Seq<char>, Seq<char>>,
    completed: Seq<Seq<char>>,
    exits: Seq<ProcessOutcomeView>,
    count: int,
)
    requires
        0 <= count <= config.project_list().len(),
        count <= exits.len(),
        forall|i: int| 0 <= i < count ==> (#[trigger] exits[i]).succeeded(),
        forall|i: int| 0 <= i < count ==> config.dependencies_met(i, completed),
    ensures
        config.run(aliases, config.project_entry(aliases, completed), exited(exits).take(count))
            == (EngineView { phase: config.enter_projects(aliases, count, completed), completed }),
    decreases count,
{
    if count > 0 {
        lemma_project_progress(config, aliases, completed, exits, count - 1);
        lemma_met_means_none_missing(config, count - 1, completed);
        assert(exited(exits).take(count).drop_last() =~= exited(exits).take(count - 1));
    }
}

/// Fail-fast projects. If the project at `failing` is the first whose
/// command does not succeed, every project up to it having its
/// dependencies met, then once the host has reported the exits up to that
/// one: the run has failed with that project's failure, which holds its
/// resolved command line and is tagged with its name; and the engine has
/// asked for the projects up to it, in declaration order, and then for
/// nothing but the end of the run.
pub proof fn law_projects_stop_at_first_failure(
    config: ConfigView,
    aliases: Map<Seq<char>, Seq<char>>,
    completed: Seq<Seq<char>>,
    exits: Seq<ProcessOutcomeView>,
    failing: int,
)
    requires
        0 <= failing < config.project_list().len(),
        exits.len() == failing + 1,
        forall|i: int| 0 <= i < failing ==> (#[trigger] exits[i]).succeeded(),
        !exits[failing].succeeded(),
        forall|i: int| 0 <= i <= failing ==> config.dependencies_met(i, completed),
    ensures
        ({
            let project = config.project_list()[failing];
            let entry = config.project_entry(aliases, completed);
            let end = config.run(aliases, entry, exited(exits));
            let asked = config.trace(aliases, entry, exited(exits));
            &&& judge(project.command_line(aliases), exits[failing]) matches Err(error)
                && end.phase == PhaseView::Failed(
                FailureView { unit: Some(project.name), error },
            )
            &&& end.completed == completed
            &&& asked.len() == failing + 2
            &&& forall|i: int|
                0 <= i <= failing ==> #[trigger] asked[i] == project_action(
                    config.project_list()[i],
                    aliases,
                )
            &&& asked[failing + 1] == end.action()
            &&& end.action() is Finish
        }),
{
    let entry = config.project_entry(aliases, completed);
    let events = exited(exits);
    let asked = config.trace(aliases, entry, events);
    lemma_project_progress(config, aliases, completed, exits, failing);
    lemma_met_means_none_missing(config, failing, completed);
    assert(events.take(failing + 1) =~= events);
    assert forall|i: int| 0 <= i <= failing implies #[trigger] asked[i] == project_action(
        config.project_list()[i],
        aliases,
    ) by {
        lemma_project_progress(config, aliases, completed, exits, i);
        lemma_met_means_none_missing(config, i, completed);
    }
}

/// When every project has its dependencies met and exits with success,
/// the run is done.
pub proof fn law_projects_complete(
    config: ConfigView,
    aliases: Map<Seq<char>, Seq<char>>,
    completed: Seq<Seq<char>>,
    exits: Seq<ProcessOutcomeView>,
)
    requires
        exits.len() == config.project_list().len(),
        forall|i: int| 0 <= i < exits.len() ==> (#[trigger] exits[i]).succeeded(),
        forall|i: int| 0 <= i < exits.len() ==> config.dependencies_met(i, completed),
    ensures
        config.run(aliases, config.project_entry(aliases, completed), exited(exits)) == (
        EngineView { phase: PhaseView::Done, completed }),
{
    lemma_project_progress(config, aliases, completed, exits, exits.len() as int);
    assert(exited(exits).take(exits.len() as int) =~= exited(exits));
}

/// A whole run that goes well. Where every project depends only on
/// generate tasks that the configuration declares, and the host reports
/// success for every generate task and then for every project, the run
/// that begins with the generate stage ends done, with every generate task
/// completed.
pub proof fn law_successful_run(
    config: ConfigView,
    aliases: Map<Seq<char>, Seq<char>>,
    generated: Seq<ProcessOutcomeView>,
    built: Seq<ProcessOutcomeView>,
)
    requires
        generated.len() == config.tasks().len(),
        built.len() == config.project_list().len(),
        forall|i: int| 0 <= i < generated.len() ==> (#[trigger] generated[i]).succeeded(),
        forall|i: int| 0 <= i < built.len() ==> (#[trigger] built[i]).succeeded(),
        forall|i: int|
            0 <= i < config.project_list().len() ==> config.dependencies_met(
                i,
                config.task_names(),
            ),
    ensures
        config.run(aliases, config.generate_entry(aliases), exited(generated) + exited(built)) == (
        EngineView { phase: PhaseView::Done, completed: config.task_names() }),
{
    law_run_composes(
        config,
        aliases,
        config.generate_entry(aliases),
        exited(generated),
        exited(built),
    );
    law_generate_completes(config, aliases, generated);
    law_projects_complete(config, aliases, config.task_names(), built);
}

/// Dependency gating. A project that depends on exactly one generate task
/// is not run while that task is not among the completed ones: when its
/// turn comes, the run fails with the project's and the task's names, and
/// what the engine asks for is the end of the run, not the project's
/// command.
pub proof fn law_unmet_dependency_blocks_project(
    config: ConfigView,
    aliases: Map<Seq<char>, Seq<char>>,
    at: int,
    task: Seq<char>,
    completed: Seq<Seq<char>>,
)
    requires
        0 <= at < config.project_list().len(),
        config.project_list()[at].depends_on == Some(seq![task]),
        !completed.contains(task),
    ensures
        ({
            let project = config.project_list()[at];
            let failure = FailureView {
                unit: Some(project.name),
                error: ExecutionErrorView::DependencyUnmet(project.name, task),
            };
            &&& config.enter_projects(aliases, at, completed) == PhaseView::Failed(failure)
            &&& config.enter_projects(aliases, at, completed).action() == ActionView::Finish(
                Err(failure),
            )
        }),
{
    let wanted = config.project_list()[at].dependencies();
    assert(first_missing_at(wanted, completed, 0));
}

/// Dependency gating, over the project stage. Let the project at `at`
/// depend on exactly one generate task, which has not completed, and let
/// every project before it have its dependencies met and exit with
/// success. Then the run fails when the project's turn comes, with the
/// project's and the task's names; the engine has asked for the projects
/// before it, in declaration order, and then for the end of the run: the
/// project's own command is never asked for.
pub proof fn law_unmet_dependency_fails_the_run(
    config: ConfigView,
    aliases: Map<Seq<char>, Seq<char>>,
    completed: Seq<Seq<char>>,
    exits: Seq<ProcessOutcomeView>,
    at: int,
    task: Seq<char>,
)
    requires
        0 <= at < config.project_list().len(),
        exits.len() == at,
        forall|i: int| 0 <= i < at ==> (#[trigger] exits[i]).succeeded(),
        forall|i: int| 0 <= i < at ==> config.dependencies_met(i, completed),
        config.project_list()[at].depends_on == Some(seq![task]),
        !completed.contains(task),
    ensures
        ({
            let project = config.project_list()[at];
            let failure = FailureView {
                unit: Some(project.name),
                error: ExecutionErrorView::DependencyUnmet(project.name, task),
            };
            let entry = config.project_entry(aliases, completed);
            let end = config.run(aliases, entry, exited(exits));
            let asked = config.trace(aliases, entry, exited(exits));
            &&& end == EngineView { phase: PhaseView::Failed(failure), completed }
            &&& asked.len() == at + 1
            &&& forall|i: int|
                0 <= i < at ==> #[trigger] asked[i] == project_action(
                    config.project_list()[i],
                    aliases,
                )
            &&& asked[at] == ActionView::Finish(Err(failure))
        }),
{
    let entry = config.project_entry(aliases, completed);
    let events = exited(exits);
    let asked = config.trace(aliases, entry, events);
    lemma_project_progress(config, aliases, completed, exits, at);
    law_unmet_dependency_blocks_project(config, aliases, at, task, completed);
    assert(events.take(at) =~= events);
    assert forall|i: int| 0 <= i < at implies #[trigger] asked[i] == project_action(
        config.project_list()[i],
        aliases,
    ) by {
        lemma_project_progress(config, aliases, completed, exits, i);
        lemma_met_means_none_missing(config, i, completed);
    }
}

/// A project whose turn comes is pending exactly when each generate task it
/// depends on has completed; a project without dependencies always is.
pub proof fn law_project_runs_iff_dependencies_met(
    config: ConfigView,
    aliases: Map<Seq<char>, Seq<char>>,
    at: int,
    completed: Seq<Seq<char>>,
)
    requires
        0 <= at < config.project_list().len(),
    ensures
        config.enter_projects(aliases, at, completed) is Project <==> forall|i: int|
            0 <= i < config.project_list()[at].dependencies().len() ==> completed.contains(
                #[trigger] config.project_list()[at].dependencies()[i],
            ),
        !(config.enter_projects(aliases, at, completed) is Project) ==> config.enter_projects(
            aliases,
            at,
            completed,
        ) is Failed,
{
    let wanted = config.project_list()[at].dependencies();
    if missing_dependency(wanted, completed) is None {
        lemma_nothing_missing(wanted, completed, wanted.len() as int);
    } else {
        lemma_missing_is_unmet(wanted, completed);
    }
}

/// The command resolver reads the alias table at one key only, the
/// project's command: two tables that agree there give the same command
/// line.
pub proof fn law_resolution_reads_one_alias(
    project: ProjectView,
    one: Map<Seq<char>, Seq<char>>,
    other: Map<Seq<char>, Seq<char>>,
)
    requires
        one.contains_key(project.command) == other.contains_key(project.command),
        one.contains_key(project.command) ==> one[project.command] == other[project.command],
    ensures
        project.command_line(one) == project.command_line(other),
{
}

/// A command that is no alias stands for itself, and an alias is replaced
/// once: what it stands for is not looked up again.
pub proof fn law_resolution_is_one_step(project: ProjectView, aliases: Map<Seq<char>, Seq<char>>)
    ensures
        !aliases.contains_key(project.command) ==> project.base_command(aliases)
            == project.command,
        aliases.contains_key(project.command) ==> project.base_command(aliases)
            == aliases[project.command],
        project.args is None ==> project.command_line(aliases) == project.base_command(aliases),
{
}

/// Tokens are appended in order: appending one list and then another is
/// appending the two in a row.
pub proof fn law_join_tokens_in_order(
    base: Seq<char>,
    first: Seq<Seq<char>>,
    second: Seq<Seq<char>>,
)
    ensures
        join_tokens(base, first + second) == join_tokens(join_tokens(base, first), second),
    decreases second.len(),
{
    if second.len() == 0 {
        assert(first + second =~= first);
    } else {
        assert((first + second).drop_last() =~= first + second.drop_last());
        law_join_tokens_in_order(base, first, second.drop_last());
    }
}

/// One token is appended after a single space, and no token at all leaves
/// the base as it is.
pub proof fn law_join_tokens_small(base: Seq<char>, token: Seq<char>)
    ensures
        join_tokens(base, Seq::empty()) == base,
        join_tokens(base, seq![token]) == base + seq![' '] + token,
{
    let one = seq![token];
    assert(one.drop_last() =~= Seq::<Seq<char>>::empty());
    assert(one.last() == token);
    assert(join_tokens(base, one.drop_last()) == base);
}

/// Where no position is the first to hold `wanted`, none holds it.
proof fn lemma_not_named(names: Seq<Seq<char>>, wanted: Seq<char>, upto: int)
    requires
        position_of(names, wanted) is None,
        0 <= upto <= names.len(),
    ensures
        forall|i: int| 0 <= i < upto ==> #[trigger] names[i] != wanted,
    decreases upto,
{
    if upto > 0 {
        lemma_not_named(names, wanted, upto - 1);
        if names[upto - 1] == wanted {
            assert(first_named_at(names, wanted, upto - 1));
        }
    }
}

/// Looking a name up finds the first position that holds it, and finds
/// nothing exactly when no position does.
pub proof fn law_position_of(names: Seq<Seq<char>>, wanted: Seq<char>)
    ensures
        position_of(names, wanted) is None <==> !names.contains(wanted),
        position_of(names, wanted) matches Some(at) ==> first_named_at(names, wanted, at),
{
    if position_of(names, wanted) is None {
        lemma_not_named(names, wanted, names.len() as int);
    } else {
        let at = choose|at: int| first_named_at(names, wanted, at);
        assert(names[at] == wanted);
    }
}

/// A project is found by name exactly when some project bears the name,
/// and the one found is the first that does.
pub proof fn law_project_named(config: ConfigView, name: Seq<char>)
    ensures
        config.project_named(name) is None <==> forall|i: int|
            0 <= i < config.project_list().len() ==> (#[trigger] config.project_list()[i]).name
                != name,
        config.project_named(name) matches Some(project) ==> exists|at: int|
            {
                &&& 0 <= at < config.project_list().len()
                &&& config.project_list()[at] == project
                &&& project.name == name
                &&& forall|i: int|
                    0 <= i < at ==> (#[trigger] config.project_list()[i]).name != name
            },
{
    let names = config.project_names();
    law_position_of(names, name);
    match position_of(names, name) {
        Some(at) => {
            assert(names[at] == config.project_list()[at].name);
            assert forall|i: int| 0 <= i < at implies (#[trigger] config.project_list()[i]).name
                != name by {
                assert(names[i] != name);
            }
        },
        None => {
            assert forall|i: int| 0 <= i < config.project_list().len() implies (
            #[trigger] config.project_list()[i]).name != name by {
                assert(names[i] == config.project_list()[i].name);
            }
        },
    }
    if forall|i: int|
        0 <= i < config.project_list().len() ==> (#[trigger] config.project_list()[i]).name
            != name {
        if names.contains(name) {
            let at = choose|at: int| 0 <= at < names.len() && names[at] == name;
            assert(config.project_list()[at].name == name);
        }
    }
}

/// Group lookup. Looking up a name that no group bears gives no result,
/// and that is the only case in which it gives none.
pub proof fn law_unknown_group_has_no_result(config: ConfigView, name: Seq<char>)
    ensures
        config.group_projects(name) is None <==> forall|i: int|
            0 <= i < config.group_list().len() ==> (#[trigger] config.group_list()[i]).name != name,
{
    let titles = config.group_names();
    law_position_of(titles, name);
    if position_of(titles, name) is None {
        assert forall|i: int| 0 <= i < config.group_list().len() implies (
        #[trigger] config.group_list()[i]).name != name by {
            assert(titles[i] == config.group_list()[i].name);
        }
    } else {
        let at = position_of(titles, name)->0;
        assert(config.group_list()[at].name == titles[at]);
    }
}

/// Group lookup. A listed name that no project bears is passed over in
/// silence: the selection is what it would be had the name not been listed.
pub proof fn law_unknown_member_is_omitted(config: ConfigView, names: Seq<Seq<char>>, at: int)
    requires
        0 <= at < names.len(),
        config.project_named(names[at]) is None,
    ensures
        config.select(names) == config.select(names.remove(at)),
    decreases names.len(),
{
    if at == names.len() - 1 {
        assert(names.remove(at) =~= names.drop_last());
    } else {
        assert(names.remove(at).drop_last() =~= names.drop_last().remove(at));
        assert(names.remove(at).last() == names.last());
        law_unknown_member_is_omitted(config, names.drop_last(), at);
    }
}

/// Group lookup. Where every listed name is borne by a project, the
/// selection has one project per name, in the order of the names: the first
/// project that bears it.
pub proof fn law_known_members_are_selected_in_order(config: ConfigView, names: Seq<Seq<char>>)
    requires
        forall|i: int| 0 <= i < names.len() ==> config.project_named(#[trigger] names[i]) is Some,
    ensures
        config.select(names).len() == names.len(),
        forall|i: int|
            0 <= i < names.len() ==> Some(#[trigger] config.select(names)[i])
                == config.project_named(names[i]),
    decreases names.len(),
{
    if names.len() > 0 {
        let front = names.drop_last();
        assert forall|i: int| 0 <= i < front.len() implies config.project_named(
            #[trigger] front[i],
        ) is Some by {
            assert(front[i] == names[i]);
        }
        law_known_members_are_selected_in_order(config, front);
        assert(config.project_named(names[names.len() - 1]) is Some);
        assert forall|i: int| 0 <= i < names.len() implies Some(
            #[trigger] config.select(names)[i],
        ) == config.project_named(names[i]) by {
            if i < front.len() {
                assert(config.select(names)[i] == config.select(front)[i]);
                assert(front[i] == names[i]);
            }
        }
    }
}

} // verus!
