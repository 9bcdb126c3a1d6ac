use setup_gh::errors::SetupError;
use setup_gh::session::command_outcome;
use setup_gh::session::Config;
use setup_gh::session::Session;

fn config(origin: &str, master: bool, no_check: bool) -> Config {
    Config {
        origin: origin.to_string(),
        pathspec: ".".to_string(),
        commit_message: "init".to_string(),
        master,
        no_check,
    }
}

#[test]
fn invalid_origin_runs_no_commands() {
    let cfg = config("not-real", false, false);
    match Session::start(&cfg) {
        Ok(_) => panic!("an invalid origin must be rejected"),
        Err(SetupError::InvalidOrigin(addr)) => assert_eq!(addr, "not-real"),
        Err(_) => panic!("rejection must be InvalidOrigin"),
    }
}

#[test]
fn no_check_proceeds_with_invalid_origin() {
    let cfg = config("not-real", false, true);
    let mut session = Session::start(&cfg).expect("validation was skipped");
    let mut seen: Vec<Vec<String>> = Vec::new();
    while let Some(cmd) = session.next_command() {
        seen.push(cmd.args.clone());
        session.advance(true, String::new());
    }
    let expected: Vec<Vec<&str>> = vec![
        vec!["add", "."],
        vec!["commit", "-m", "init"],
        vec!["branch", "-M", "main"],
        vec!["remote", "add", "origin", "not-real"],
        vec!["push", "-u", "origin", "main"],
    ];
    assert_eq!(seen.len(), expected.len());
    for (got, want) in seen.iter().zip(expected.iter()) {
        assert_eq!(got, want);
    }
    assert!(session.into_result().is_ok());
}

#[test]
fn commit_failure_stops_the_run() {
    let cfg = config("git@github.com:test-account-123/test-repo-123.git", false, false);
    let mut session = Session::start(&cfg).expect("a valid origin is accepted");

    let first = session.next_command().expect("the stage step comes first");
    assert_eq!(first.args[0], "add");
    session.advance(true, String::new());

    let second = session.next_command().expect("the commit step comes second");
    assert_eq!(second.args[0], "commit");
    session.advance(false, "exited with status 1".to_string());

    assert!(session.next_command().is_none());
    match session.into_result() {
        Err(SetupError::CommandFailed(cmd, diag)) => {
            assert_eq!(cmd, "commit");
            assert_eq!(diag, "exited with status 1");
        }
        _ => panic!("the failed commit must surface as CommandFailed"),
    }
}

#[test]
fn keep_master_skips_rename_and_pushes_master() {
    let cfg = config("git@github.com:a/b.git", true, false);
    let mut session = Session::start(&cfg).expect("a valid origin is accepted");
    let mut seen: Vec<Vec<String>> = Vec::new();
    while let Some(cmd) = session.next_command() {
        seen.push(cmd.args.clone());
        session.advance(true, String::new());
    }
    let expected: Vec<Vec<&str>> = vec![
        vec!["add", "."],
        vec!["commit", "-m", "init"],
        vec!["remote", "add", "origin", "git@github.com:a/b.git"],
        vec!["push", "-u", "origin", "master"],
    ];
    assert_eq!(seen.len(), expected.len());
    for (got, want) in seen.iter().zip(expected.iter()) {
        assert_eq!(got, want);
    }
    assert!(session.into_result().is_ok());
}

#[test]
fn configured_values_reach_the_commands() {
    let cfg = Config {
        origin: "git@github.com:owner-1/repo-2.git".to_string(),
        pathspec: "src".to_string(),
        commit_message: "first commit".to_string(),
        master: false,
        no_check: false,
    };
    let mut session = Session::start(&cfg).expect("a valid origin is accepted");
    let mut seen: Vec<Vec<String>> = Vec::new();
    while let Some(cmd) = session.next_command() {
        seen.push(cmd.args.clone());
        session.advance(true, String::new());
    }
    assert_eq!(seen[0], vec!["add", "src"]);
    assert_eq!(seen[1], vec!["commit", "-m", "first commit"]);
    assert_eq!(seen[3], vec!["remote", "add", "origin", "git@github.com:owner-1/repo-2.git"]);
}

#[test]
fn command_outcome_passes_success_through() {
    assert!(command_outcome("add".to_string(), true, String::new()).is_ok());
}

#[test]
fn command_outcome_reports_failure() {
    match command_outcome("push".to_string(), false, "remote rejected".to_string()) {
        Err(SetupError::CommandFailed(cmd, diag)) => {
            assert_eq!(cmd, "push");
            assert_eq!(diag, "remote rejected");
        }
        _ => panic!("a failing status must yield CommandFailed"),
    }
}
