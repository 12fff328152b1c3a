use drom::{
    run_command, shell_invocation, AliasTable, ExecutionError, Generate, ProcessOutcome, Project,
};

fn exited(code: i32) -> ProcessOutcome {
    ProcessOutcome::Exited { success: code == 0, code: Some(code) }
}

#[test]
fn test_task_execute_success() {
    let project = Project {
        name: "test".to_string(),
        command: "echo 'success'".to_string(),
        args: None,
        depends_on: None,
    };
    let commands = AliasTable::new();
    assert!(project.execute(&commands, &exited(0)).is_ok());
}

#[test]
fn test_task_execute_failure() {
    let project = Project {
        name: "fail".to_string(),
        command: "exit 1".to_string(),
        args: None,
        depends_on: None,
    };
    let commands = AliasTable::new();
    assert!(project.execute(&commands, &exited(1)).is_err());
}

#[test]
fn run_command_succeeds_on_success_status() {
    assert_eq!(run_command("true", &exited(0)), Ok(()));
}

#[test]
fn run_command_reports_line_and_code() {
    assert_eq!(
        run_command("exit 3", &exited(3)),
        Err(ExecutionError::CommandFailed("exit 3".to_string(), Some(3)))
    );
    assert_eq!(
        run_command("exit -1", &exited(-1)),
        Err(ExecutionError::CommandFailed("exit -1".to_string(), Some(-1)))
    );
}

#[test]
fn run_command_reports_killed_child_without_code() {
    let killed = ProcessOutcome::Exited { success: false, code: None };
    assert_eq!(
        run_command("sleep 100", &killed),
        Err(ExecutionError::CommandFailed("sleep 100".to_string(), None))
    );
}

#[test]
fn run_command_reports_spawn_failure() {
    let outcome = ProcessOutcome::SpawnFailed("No such file or directory".to_string());
    assert_eq!(
        run_command("ls", &outcome),
        Err(ExecutionError::SpawnFailed("No such file or directory".to_string()))
    );
}

#[test]
fn run_command_goes_by_the_status_not_the_code() {
    let odd = ProcessOutcome::Exited { success: true, code: None };
    assert_eq!(run_command("x", &odd), Ok(()));
}

#[test]
fn generate_execute_takes_the_command_literally() {
    let task = Generate { name: "proto".to_string(), command: "mvn".to_string() };
    assert_eq!(task.execute(&exited(0)), Ok(()));
    assert_eq!(
        task.execute(&exited(2)),
        Err(ExecutionError::CommandFailed("mvn".to_string(), Some(2)))
    );
}

#[test]
fn project_execute_reports_the_resolved_line() {
    let mut commands = AliasTable::new();
    commands.insert("mvn".to_string(), "mvn clean compile".to_string());
    let project = Project {
        name: "api".to_string(),
        command: "mvn".to_string(),
        args: Some(vec!["test".to_string()]),
        depends_on: None,
    };
    assert_eq!(
        project.execute(&commands, &exited(1)),
        Err(ExecutionError::CommandFailed("mvn clean compile test".to_string(), Some(1)))
    );
    assert_eq!(
        project.execute(&commands, &ProcessOutcome::SpawnFailed("no shell".to_string())),
        Err(ExecutionError::SpawnFailed("no shell".to_string()))
    );
}

#[test]
fn shell_on_unix_is_sh_c() {
    let call = shell_invocation(false, "echo a | wc -l > out.txt");
    assert_eq!(call.program, "sh");
    assert_eq!(call.arguments, vec!["-c".to_string(), "echo a | wc -l > out.txt".to_string()]);
}

#[test]
fn shell_on_windows_is_cmd_c() {
    let call = shell_invocation(true, "dir /B");
    assert_eq!(call.program, "cmd");
    assert_eq!(call.arguments, vec!["/C".to_string(), "dir /B".to_string()]);
}

#[test]
fn run_command_fails_when_the_end_is_unknown() {
    assert_eq!(
        run_command("make", &ProcessOutcome::Unknown),
        Err(ExecutionError::CommandFailed("make".to_string(), None))
    );
}
