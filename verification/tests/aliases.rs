use drom::{commands_or_empty, parse_commands, Project};

#[test]
fn test_parse_commands() {
    let content = r#"
mvn = "mvn clean compile"
python = "uv run python"
"#;
    let commands = parse_commands(content).unwrap();
    assert_eq!(commands.get("mvn").unwrap(), "mvn clean compile");
    assert_eq!(commands.get("python").unwrap(), "uv run python");
}

#[test]
fn parse_commands_holds_nothing_else() {
    let commands = parse_commands("mvn = \"mvn clean compile\"\n").unwrap();
    assert!(commands.get("python").is_none());
    assert!(commands.get("mvn = \"mvn clean compile\"\n").is_none());
}

#[test]
fn parse_commands_of_an_empty_document_is_empty() {
    let commands = parse_commands("").unwrap();
    assert!(commands.get("mvn").is_none());
}

#[test]
fn parse_commands_refuses_malformed_documents() {
    let error = parse_commands("invalid toml").unwrap_err();
    assert!(!error.message.is_empty());
    assert!(parse_commands("mvn = 3").is_err());
    assert!(parse_commands("a = \"1\"\na = \"2\"").is_err());
    assert!(parse_commands("[section]\nkey = \"v\"").is_err());
}

#[test]
fn malformed_aliases_fall_back_to_pass_through() {
    let commands = commands_or_empty(parse_commands("invalid toml"));
    let project = Project {
        name: "api".to_string(),
        command: "mvn".to_string(),
        args: Some(vec!["test".to_string()]),
        depends_on: None,
    };
    assert_eq!(project.resolve_command(&commands), "mvn test");

    let read = commands_or_empty(parse_commands("mvn = \"mvn -q\""));
    assert_eq!(project.resolve_command(&read), "mvn -q test");
}
