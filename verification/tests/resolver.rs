use drom::{AliasTable, Project};

fn project(command: &str, args: Option<Vec<&str>>) -> Project {
    Project {
        name: "api".to_string(),
        command: command.to_string(),
        args: args.map(|tokens| tokens.into_iter().map(|t| t.to_string()).collect()),
        depends_on: None,
    }
}

#[test]
fn test_resolve_command() {
    let mut commands = AliasTable::new();
    commands.insert("mvn".to_string(), "mvn clean compile".to_string());

    let project = Project {
        name: "api".to_string(),
        command: "mvn".to_string(),
        args: Some(vec!["test".to_string()]),
        depends_on: None,
    };

    let resolved = project.resolve_command(&commands);
    assert_eq!(resolved, "mvn clean compile test");
}

#[test]
fn test_resolve_command_no_alias() {
    let commands = AliasTable::new();
    let project = Project {
        name: "api".to_string(),
        command: "ls".to_string(),
        args: Some(vec!["-la".to_string()]),
        depends_on: None,
    };
    let resolved = project.resolve_command(&commands);
    assert_eq!(resolved, "ls -la");
}

#[test]
fn resolve_without_args_is_the_base_command() {
    let mut commands = AliasTable::new();
    commands.insert("python".to_string(), "uv run python".to_string());
    assert_eq!(project("python", None).resolve_command(&commands), "uv run python");
    assert_eq!(project("cargo build", None).resolve_command(&commands), "cargo build");
}

#[test]
fn resolve_with_no_tokens_appends_nothing() {
    let commands = AliasTable::new();
    assert_eq!(project("make", Some(vec![])).resolve_command(&commands), "make");
}

#[test]
fn resolve_keeps_token_order_and_does_not_quote() {
    let mut commands = AliasTable::new();
    commands.insert("run".to_string(), "cargo run".to_string());
    let resolved = project("run", Some(vec!["--bin", "my tool", "--", "a;b", ""]))
        .resolve_command(&commands);
    assert_eq!(resolved, "cargo run --bin my tool -- a;b ");
}

#[test]
fn resolve_looks_the_command_up_once() {
    let mut commands = AliasTable::new();
    commands.insert("a".to_string(), "b".to_string());
    commands.insert("b".to_string(), "c".to_string());
    assert_eq!(project("a", Some(vec!["x"])).resolve_command(&commands), "b x");
}

#[test]
fn resolve_matches_the_whole_command_only() {
    let mut commands = AliasTable::new();
    commands.insert("mvn".to_string(), "mvn clean compile".to_string());
    assert_eq!(project("mvn test", None).resolve_command(&commands), "mvn test");
    assert_eq!(project("Mvn", None).resolve_command(&commands), "Mvn");
}

#[test]
fn resolve_is_repeatable() {
    let mut commands = AliasTable::new();
    commands.insert("mvn".to_string(), "mvn clean compile".to_string());
    let p = project("mvn", Some(vec!["test"]));
    let first = p.resolve_command(&commands);
    let second = p.resolve_command(&commands);
    assert_eq!(first, second);
    assert_eq!(p, project("mvn", Some(vec!["test"])));
    assert_eq!(commands.get("mvn").unwrap(), "mvn clean compile");
}

#[test]
fn alias_table_insert_replaces() {
    let mut commands = AliasTable::new();
    assert!(commands.get("mvn").is_none());
    commands.insert("mvn".to_string(), "mvn clean compile".to_string());
    commands.insert("go".to_string(), "go build".to_string());
    commands.insert("mvn".to_string(), "mvn -q".to_string());
    assert_eq!(commands.get("mvn").unwrap(), "mvn -q");
    assert_eq!(commands.get("go").unwrap(), "go build");
    assert!(commands.get("").is_none());
    assert!(commands.get("mv").is_none());
}

#[test]
fn alias_table_from_pairs_later_pair_wins() {
    let commands = AliasTable::from_pairs(vec![
        ("k".to_string(), "first".to_string()),
        ("other".to_string(), "o".to_string()),
        ("k".to_string(), "second".to_string()),
    ]);
    assert_eq!(commands.get("k").unwrap(), "second");
    assert_eq!(commands.get("other").unwrap(), "o");
    assert!(commands.get("missing").is_none());
}

#[test]
fn alias_table_default_is_empty() {
    let commands = AliasTable::default();
    assert!(commands.get("mvn").is_none());
    assert_eq!(project("mvn", None).resolve_command(&commands), "mvn");
}
