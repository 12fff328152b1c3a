use drom::{
    Action, AliasTable, Clean, Config, Event, ExecutionError, Failure, Generate, ProcessOutcome,
    Project, Removal, Stage,
};

fn task(name: &str, command: &str) -> Generate {
    Generate { name: name.to_string(), command: command.to_string() }
}

fn project(name: &str, command: &str, args: Option<Vec<&str>>, deps: Option<Vec<&str>>) -> Project {
    Project {
        name: name.to_string(),
        command: command.to_string(),
        args: args.map(|list| list.into_iter().map(|a| a.to_string()).collect()),
        depends_on: deps.map(|list| list.into_iter().map(|d| d.to_string()).collect()),
    }
}

fn ok() -> Event {
    Event::Exited(ProcessOutcome::Exited { success: true, code: Some(0) })
}

fn exit(code: i32) -> Event {
    Event::Exited(ProcessOutcome::Exited { success: code == 0, code: Some(code) })
}

fn generate_action(name: &str, command: &str) -> Action {
    Action::Generate { task: name.to_string(), command: command.to_string() }
}

fn project_action(name: &str, command: &str) -> Action {
    Action::Project { project: name.to_string(), command: command.to_string() }
}

fn failed(unit: Option<&str>, error: ExecutionError) -> Result<(), Failure> {
    Err(Failure { unit: unit.map(|u| u.to_string()), error })
}

fn names(list: Vec<&str>) -> Vec<String> {
    list.into_iter().map(|n| n.to_string()).collect()
}

#[test]
fn test_dependency_execution() {
    let config = Config {
        clean: None,
        generate: Some(vec![task("gen", "echo 'generating' > gen.txt")]),
        projects: Some(vec![project("proj", "cat", Some(vec!["gen.txt"]), Some(vec!["gen"]))]),
        groups: None,
    };
    let commands = AliasTable::new();

    let run = config.execute_all(&commands, &vec![ok(), ok()]);
    assert_eq!(run.end.result(), Some(Ok(())));
    assert_eq!(
        run.actions,
        vec![
            generate_action("gen", "echo 'generating' > gen.txt"),
            project_action("proj", "cat gen.txt"),
            Action::Finish(Ok(())),
        ]
    );
    assert_eq!(run.end.completed(), &names(vec!["gen"]));
}

#[test]
fn test_failing_dependency() {
    let config = Config {
        clean: None,
        generate: Some(vec![task("fail_gen", "exit 1")]),
        projects: Some(vec![project("proj", "echo success", None, Some(vec!["fail_gen"]))]),
        groups: None,
    };
    let commands = AliasTable::new();
    let run = config.execute_all(&commands, &vec![exit(1)]);
    assert!(run.end.result().unwrap().is_err());
    assert_eq!(
        run.end.result(),
        Some(failed(
            Some("fail_gen"),
            ExecutionError::CommandFailed("exit 1".to_string(), Some(1))
        ))
    );
    assert_eq!(
        run.actions,
        vec![generate_action("fail_gen", "exit 1"), Action::Finish(run.end.result().unwrap())]
    );
    assert!(run.end.completed().is_empty());
}

#[test]
fn stages_run_in_order() {
    let config = Config {
        clean: Some(Clean { directories: names(vec!["dist", "build"]) }),
        generate: Some(vec![task("proto", "protoc"), task("schema", "gen-schema")]),
        projects: Some(vec![
            project("api", "cargo", Some(vec!["run"]), Some(vec!["proto"])),
            project("web", "npm", Some(vec!["run", "build"]), Some(vec!["schema", "proto"])),
            project("docs", "doc", None, None),
        ]),
        groups: None,
    };
    let mut commands = AliasTable::new();
    commands.insert("doc".to_string(), "mdbook build".to_string());

    let mut engine = config.start(&commands);
    assert_eq!(engine.action(), Action::Clean(names(vec!["dist", "build"])));
    assert_eq!(engine.result(), None);
    assert_eq!(engine.stage(), Stage::Clean);

    engine = config.advance(
        &commands,
        engine,
        &Event::Cleaned(vec![Removal::Removed, Removal::Absent]),
    );
    assert_eq!(engine.action(), generate_action("proto", "protoc"));
    assert!(engine.completed().is_empty());
    assert_eq!(engine.stage(), Stage::Generate);

    engine = config.advance(&commands, engine, &ok());
    assert_eq!(engine.action(), generate_action("schema", "gen-schema"));
    assert_eq!(engine.completed(), &names(vec!["proto"]));

    engine = config.advance(&commands, engine, &ok());
    assert_eq!(engine.action(), project_action("api", "cargo run"));
    assert_eq!(engine.completed(), &names(vec!["proto", "schema"]));
    assert_eq!(engine.stage(), Stage::Project);

    engine = config.advance(&commands, engine, &ok());
    assert_eq!(engine.action(), project_action("web", "npm run build"));

    engine = config.advance(&commands, engine, &ok());
    assert_eq!(engine.action(), project_action("docs", "mdbook build"));
    assert_eq!(engine.result(), None);

    engine = config.advance(&commands, engine, &ok());
    assert_eq!(engine.action(), Action::Finish(Ok(())));
    assert_eq!(engine.result(), Some(Ok(())));
    assert_eq!(engine.completed(), &names(vec!["proto", "schema"]));
    assert_eq!(engine.stage(), Stage::Done);
}

#[test]
fn empty_configuration_is_done_at_once() {
    let config = Config { clean: None, generate: None, projects: None, groups: None };
    let commands = AliasTable::new();
    let engine = config.start(&commands);
    assert_eq!(engine.action(), Action::Finish(Ok(())));
    assert_eq!(engine.result(), Some(Ok(())));

    let empty_sections =
        Config { clean: None, generate: Some(vec![]), projects: Some(vec![]), groups: None };
    assert_eq!(empty_sections.start(&commands).result(), Some(Ok(())));
}

#[test]
fn clean_section_without_directories_still_asks() {
    let config = Config {
        clean: Some(Clean { directories: vec![] }),
        generate: None,
        projects: None,
        groups: None,
    };
    let commands = AliasTable::new();
    let engine = config.start(&commands);
    assert_eq!(engine.action(), Action::Clean(vec![]));
    let engine = config.advance(&commands, engine, &Event::Cleaned(vec![]));
    assert_eq!(engine.result(), Some(Ok(())));
}

#[test]
fn failed_clean_stops_the_run() {
    let config = Config {
        clean: Some(Clean { directories: names(vec!["a", "b"]) }),
        generate: Some(vec![task("gen", "make gen")]),
        projects: Some(vec![project("p", "make", None, None)]),
        groups: None,
    };
    let commands = AliasTable::new();
    let session = vec![
        Event::Cleaned(vec![Removal::Removed, Removal::Failed("read-only".to_string())]),
        ok(),
        ok(),
    ];
    let run = config.execute_all(&commands, &session);
    let failure = failed(None, ExecutionError::CleanupFailed("read-only".to_string()));
    assert_eq!(run.end.result(), Some(failure));
    assert_eq!(run.actions.len(), 4);
    assert_eq!(run.actions[0], Action::Clean(names(vec!["a", "b"])));
    for asked in &run.actions[1..] {
        assert_eq!(
            asked,
            &Action::Finish(failed(None, ExecutionError::CleanupFailed("read-only".to_string())))
        );
    }
    assert!(run.end.completed().is_empty());
}

#[test]
fn generate_stops_at_the_first_failure() {
    let config = Config {
        clean: None,
        generate: Some(vec![
            task("one", "gen 1"),
            task("two", "gen 2"),
            task("three", "gen 3"),
            task("four", "gen 4"),
        ]),
        projects: Some(vec![project("p", "make", None, None)]),
        groups: None,
    };
    let commands = AliasTable::new();
    let session = vec![ok(), ok(), exit(7)];
    let run = config.execute_all(&commands, &session);
    let failure =
        failed(Some("three"), ExecutionError::CommandFailed("gen 3".to_string(), Some(7)));
    assert_eq!(run.end.result(), Some(failure));
    assert_eq!(run.end.completed(), &names(vec!["one", "two"]));
    assert_eq!(
        run.actions,
        vec![
            generate_action("one", "gen 1"),
            generate_action("two", "gen 2"),
            generate_action("three", "gen 3"),
            Action::Finish(failed(
                Some("three"),
                ExecutionError::CommandFailed("gen 3".to_string(), Some(7))
            )),
        ]
    );
}

#[test]
fn generate_failure_at_the_first_task_completes_nothing() {
    let config = Config {
        clean: None,
        generate: Some(vec![task("one", "gen 1"), task("two", "gen 2")]),
        projects: None,
        groups: None,
    };
    let commands = AliasTable::new();
    let spawn = Event::Exited(ProcessOutcome::SpawnFailed("no sh".to_string()));
    let run = config.execute_all(&commands, &vec![spawn]);
    assert_eq!(
        run.end.result(),
        Some(failed(Some("one"), ExecutionError::SpawnFailed("no sh".to_string())))
    );
    assert!(run.end.completed().is_empty());
    assert_eq!(run.actions.len(), 2);
}

#[test]
fn generate_commands_bypass_the_alias_table() {
    let config = Config {
        clean: None,
        generate: Some(vec![task("gen", "mvn")]),
        projects: Some(vec![project("p", "mvn", None, None)]),
        groups: None,
    };
    let mut commands = AliasTable::new();
    commands.insert("mvn".to_string(), "mvn clean compile".to_string());
    let run = config.execute_all(&commands, &vec![ok()]);
    assert_eq!(
        run.actions,
        vec![generate_action("gen", "mvn"), project_action("p", "mvn clean compile")]
    );
    assert_eq!(run.end.result(), None);
}

#[test]
fn unmet_dependency_blocks_the_project() {
    let config = Config {
        clean: None,
        generate: Some(vec![task("gen", "make gen")]),
        projects: Some(vec![
            project("first", "echo 1", None, Some(vec!["gen"])),
            project("second", "echo 2", None, Some(vec!["nowhere"])),
            project("third", "echo 3", None, None),
        ]),
        groups: None,
    };
    let commands = AliasTable::new();
    let run = config.execute_all(&commands, &vec![ok(), ok(), ok(), ok()]);
    let failure = failed(
        Some("second"),
        ExecutionError::DependencyUnmet("second".to_string(), "nowhere".to_string()),
    );
    assert_eq!(run.end.result(), Some(failure));
    assert_eq!(run.actions[0], generate_action("gen", "make gen"));
    assert_eq!(run.actions[1], project_action("first", "echo 1"));
    for asked in &run.actions[2..] {
        assert!(matches!(asked, Action::Finish(Err(_))));
    }
    assert!(!run.actions.contains(&project_action("second", "echo 2")));
    assert!(!run.actions.contains(&project_action("third", "echo 3")));
}

#[test]
fn unmet_dependency_on_the_first_project_fails_at_start() {
    let config = Config {
        clean: None,
        generate: None,
        projects: Some(vec![project("p", "echo", None, Some(vec!["d"]))]),
        groups: None,
    };
    let commands = AliasTable::new();
    let engine = config.start(&commands);
    assert_eq!(
        engine.result(),
        Some(failed(Some("p"), ExecutionError::DependencyUnmet("p".to_string(), "d".to_string())))
    );
    assert!(matches!(engine.action(), Action::Finish(Err(_))));
}

#[test]
fn a_project_name_is_no_dependency() {
    let config = Config {
        clean: None,
        generate: Some(vec![task("gen", "g")]),
        projects: Some(vec![
            project("lib", "build lib", None, None),
            project("app", "build app", None, Some(vec!["gen", "lib"])),
        ]),
        groups: None,
    };
    let commands = AliasTable::new();
    let run = config.execute_all(&commands, &vec![ok(), ok()]);
    assert_eq!(
        run.end.result(),
        Some(failed(
            Some("app"),
            ExecutionError::DependencyUnmet("app".to_string(), "lib".to_string())
        ))
    );
}

#[test]
fn the_first_missing_dependency_is_reported() {
    let config = Config {
        clean: None,
        generate: Some(vec![task("b", "g")]),
        projects: Some(vec![project("p", "x", None, Some(vec!["b", "c", "a"]))]),
        groups: None,
    };
    let commands = AliasTable::new();
    let run = config.execute_all(&commands, &vec![ok()]);
    assert_eq!(
        run.end.result(),
        Some(failed(Some("p"), ExecutionError::DependencyUnmet("p".to_string(), "c".to_string())))
    );
}

#[test]
fn empty_dependency_list_is_always_met() {
    let config = Config {
        clean: None,
        generate: None,
        projects: Some(vec![project("p", "x", None, Some(vec![]))]),
        groups: None,
    };
    let commands = AliasTable::new();
    assert_eq!(config.start(&commands).action(), project_action("p", "x"));
}

#[test]
fn project_failure_stops_the_run() {
    let config = Config {
        clean: None,
        generate: None,
        projects: Some(vec![
            project("a", "build a", None, None),
            project("b", "build b", None, None),
            project("c", "build c", None, None),
        ]),
        groups: None,
    };
    let commands = AliasTable::new();
    let killed = Event::Exited(ProcessOutcome::Exited { success: false, code: None });
    let run = config.execute_all(&commands, &vec![ok(), killed, ok()]);
    let failure = failed(Some("b"), ExecutionError::CommandFailed("build b".to_string(), None));
    assert_eq!(run.end.result(), Some(failure));
    assert_eq!(run.end.stage(), Stage::Failed);
    assert_eq!(run.actions[0], project_action("a", "build a"));
    assert_eq!(run.actions[1], project_action("b", "build b"));
    assert!(matches!(run.actions[2], Action::Finish(Err(_))));
    assert!(matches!(run.actions[3], Action::Finish(Err(_))));
}

#[test]
fn a_finished_run_ignores_events() {
    let config = Config {
        clean: None,
        generate: Some(vec![task("gen", "g")]),
        projects: None,
        groups: None,
    };
    let commands = AliasTable::new();
    let run = config.execute_all(
        &commands,
        &vec![ok(), exit(1), Event::Cleaned(vec![Removal::Aborted]), ok()],
    );
    assert_eq!(run.end.result(), Some(Ok(())));
    assert_eq!(run.end.completed(), &names(vec!["gen"]));
    assert_eq!(run.actions.len(), 5);
    assert_eq!(run.actions[4], Action::Finish(Ok(())));
}

#[test]
fn an_event_that_answers_nothing_is_ignored() {
    let config = Config {
        clean: Some(Clean { directories: names(vec!["dist"]) }),
        generate: Some(vec![task("gen", "g")]),
        projects: None,
        groups: None,
    };
    let commands = AliasTable::new();
    let mut engine = config.start(&commands);
    engine = config.advance(&commands, engine, &exit(1));
    assert_eq!(engine.action(), Action::Clean(names(vec!["dist"])));
    engine = config.advance(&commands, engine, &Event::Cleaned(vec![Removal::Absent]));
    assert_eq!(engine.action(), generate_action("gen", "g"));
    engine = config.advance(&commands, engine, &Event::Cleaned(vec![Removal::Aborted]));
    assert_eq!(engine.action(), generate_action("gen", "g"));
    assert_eq!(engine.result(), None);
}

#[test]
fn a_short_session_leaves_the_run_waiting() {
    let config = Config {
        clean: None,
        generate: Some(vec![task("a", "1"), task("b", "2")]),
        projects: None,
        groups: None,
    };
    let commands = AliasTable::new();
    let run = config.execute_all(&commands, &vec![]);
    assert_eq!(run.actions, vec![generate_action("a", "1")]);
    assert_eq!(run.end.result(), None);
    let run = config.execute_all(&commands, &vec![ok()]);
    assert_eq!(run.actions, vec![generate_action("a", "1"), generate_action("b", "2")]);
    assert_eq!(run.end.result(), None);
}

#[test]
fn replay_agrees_with_stepping() {
    let config = Config {
        clean: Some(Clean { directories: names(vec!["out"]) }),
        generate: Some(vec![task("a", "1"), task("b", "2")]),
        projects: Some(vec![project("p", "x", Some(vec!["y"]), Some(vec!["b"]))]),
        groups: None,
    };
    let commands = AliasTable::new();
    let session = vec![Event::Cleaned(vec![Removal::Removed]), ok(), ok(), exit(2)];
    let run = config.execute_all(&commands, &session);

    let mut engine = config.start(&commands);
    let mut asked = vec![engine.action()];
    for event in &session {
        engine = config.advance(&commands, engine, event);
        asked.push(engine.action());
    }
    assert_eq!(run.actions, asked);
    assert_eq!(run.end.result(), engine.result());
    assert_eq!(run.end.completed(), engine.completed());
    assert_eq!(
        engine.result(),
        Some(failed(Some("p"), ExecutionError::CommandFailed("x y".to_string(), Some(2))))
    );
}

#[test]
fn running_does_not_change_the_configuration() {
    let config = Config {
        clean: Some(Clean { directories: names(vec!["out"]) }),
        generate: Some(vec![task("a", "1")]),
        projects: Some(vec![project("p", "x", None, Some(vec!["a"]))]),
        groups: None,
    };
    let before = config.clone();
    let commands = AliasTable::new();
    let _ = config.execute_all(&commands, &vec![Event::Cleaned(vec![Removal::Absent]), ok(), ok()]);
    assert_eq!(config, before);
}

#[test]
fn duplicate_task_names_meet_the_dependency_once_one_completed() {
    let config = Config {
        clean: None,
        generate: Some(vec![task("gen", "first"), task("gen", "second")]),
        projects: Some(vec![project("p", "x", None, Some(vec!["gen"]))]),
        groups: None,
    };
    let commands = AliasTable::new();
    let run = config.execute_all(&commands, &vec![ok(), ok()]);
    assert_eq!(run.end.completed(), &names(vec!["gen", "gen"]));
    assert_eq!(run.end.action(), project_action("p", "x"));
}

#[test]
fn clean_with_a_missing_report_fails_the_run() {
    let config = Config {
        clean: Some(Clean { directories: names(vec!["a", "b"]) }),
        generate: Some(vec![task("gen", "g")]),
        projects: None,
        groups: None,
    };
    let commands = AliasTable::new();
    let run = config.execute_all(&commands, &vec![Event::Cleaned(vec![Removal::Removed])]);
    assert_eq!(
        run.end.result(),
        Some(failed(
            None,
            ExecutionError::CleanupFailed("Thread panicked during cleanup".to_string())
        ))
    );
    assert_eq!(run.actions.len(), 2);
    assert!(matches!(run.actions[1], Action::Finish(Err(_))));
}
