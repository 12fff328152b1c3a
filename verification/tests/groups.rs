use drom::{Config, Group, Project};

fn project(name: &str, command: &str) -> Project {
    Project { name: name.to_string(), command: command.to_string(), args: None, depends_on: None }
}

fn group(name: &str, projects: Vec<&str>) -> Group {
    Group {
        name: name.to_string(),
        projects: projects.into_iter().map(|p| p.to_string()).collect(),
    }
}

fn config(projects: Option<Vec<Project>>, groups: Option<Vec<Group>>) -> Config {
    Config { clean: None, generate: None, projects, groups }
}

#[test]
fn test_get_group_projects() {
    let config = config(
        Some(vec![project("api", "echo api"), project("web", "echo web")]),
        Some(vec![group("backend", vec!["api"])]),
    );
    let backend_projects = config.get_group_projects("backend").unwrap();
    assert_eq!(backend_projects.len(), 1);
    assert_eq!(backend_projects[0].name, "api");

    assert!(config.get_group_projects("non_existent").is_none());
}

#[test]
fn group_lookup_omits_unknown_names() {
    let config = config(
        Some(vec![project("api", "echo api"), project("web", "echo web")]),
        Some(vec![group("all", vec!["ghost", "web", "nobody", "api", ""])]),
    );
    let found = config.get_group_projects("all").unwrap();
    assert_eq!(found, vec![&project("web", "echo web"), &project("api", "echo api")]);
}

#[test]
fn group_lookup_follows_the_groups_order_and_repeats() {
    let config = config(
        Some(vec![project("a", "1"), project("b", "2"), project("c", "3")]),
        Some(vec![group("g", vec!["c", "a", "c"])]),
    );
    let names: Vec<&str> =
        config.get_group_projects("g").unwrap().into_iter().map(|p| p.name.as_str()).collect();
    assert_eq!(names, vec!["c", "a", "c"]);
}

#[test]
fn group_lookup_without_groups_or_projects() {
    let none = config(Some(vec![project("a", "1")]), None);
    assert!(none.get_group_projects("g").is_none());

    let no_projects = config(None, Some(vec![group("g", vec!["a"])]));
    assert_eq!(no_projects.get_group_projects("g"), Some(vec![]));

    let empty = config(Some(vec![]), Some(vec![group("g", vec![])]));
    assert_eq!(empty.get_group_projects("g"), Some(vec![]));
    assert!(empty.get_group_projects("G").is_none());
}

#[test]
fn group_lookup_takes_the_first_bearer_of_a_name() {
    let config = config(
        Some(vec![project("a", "first"), project("a", "second")]),
        Some(vec![group("g", vec!["a"]), group("g", vec![])]),
    );
    let found = config.get_group_projects("g").unwrap();
    assert_eq!(found.len(), 1);
    assert_eq!(found[0].command, "first");
}

#[test]
fn unique_names_are_recognised() {
    let fine = config(
        Some(vec![project("a", "1"), project("b", "2")]),
        Some(vec![group("a", vec!["a", "a"]), group("b", vec![])]),
    );
    assert!(fine.has_unique_names());
    assert!(config(None, None).has_unique_names());

    let twice_project =
        config(Some(vec![project("a", "1"), project("b", "2"), project("a", "3")]), None);
    assert!(!twice_project.has_unique_names());

    let twice_group = config(None, Some(vec![group("g", vec![]), group("g", vec![])]));
    assert!(!twice_group.has_unique_names());

    let mut twice_task = config(None, None);
    twice_task.generate = Some(vec![
        drom::Generate { name: "gen".to_string(), command: "a".to_string() },
        drom::Generate { name: "other".to_string(), command: "b".to_string() },
        drom::Generate { name: "gen".to_string(), command: "c".to_string() },
    ]);
    assert!(!twice_task.has_unique_names());
    twice_task.generate.as_mut().unwrap().pop();
    assert!(twice_task.has_unique_names());
}

#[test]
fn clones_are_equal() {
    let original = Config {
        clean: Some(drom::Clean { directories: vec!["dist".to_string()] }),
        generate: Some(vec![drom::Generate { name: "g".to_string(), command: "c".to_string() }]),
        projects: Some(vec![Project {
            name: "p".to_string(),
            command: "c".to_string(),
            args: Some(vec!["x".to_string()]),
            depends_on: Some(vec!["g".to_string()]),
        }]),
        groups: Some(vec![group("all", vec!["p"])]),
    };
    assert_eq!(original.clone(), original);
}
