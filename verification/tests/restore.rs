use rdo::orchestrator::{Event, Phase, RestoreError, RestoreOrchestrator};
use rdo::profile::Args;

fn capable_profile() -> Args {
    Args::new(
        String::from("db"),
        5432,
        String::from("odoo"),
        None,
        String::from("c1"),
        None,
    )
}

fn completed(exit_success: bool, stdout: &str, stderr: &str) -> Event {
    Event::Completed {
        exit_success,
        stdout: String::from(stdout),
        stderr: String::from(stderr),
    }
}

fn answered(line: &str) -> Event {
    Event::Answered { line: String::from(line) }
}

#[test]
fn missing_profile_field_rejected_before_any_command() {
    let profile = Args {
        xhost: Some(String::from("db")),
        port: Some(5432),
        username: None,
        password: None,
        container_id: Some(String::from("c1")),
        dir_backup: None,
    };
    let r = RestoreOrchestrator::new(profile, String::from("sales"));
    assert!(matches!(r, Err(RestoreError::MissingProfileData)));
}

#[test]
fn capable_profile_starts_at_probe() {
    let o = RestoreOrchestrator::new(capable_profile(), String::from("sales")).unwrap();
    assert!(matches!(o.phase, Phase::Probe));
}

#[test]
fn probe_with_one_row_marker_goes_straight_to_restore() {
    let mut o = RestoreOrchestrator::new(capable_profile(), String::from("sales")).unwrap();
    o.step(completed(true, " ?column? \n----------\n        1\n(1 row)\n", ""));
    assert!(matches!(o.phase, Phase::Restore));
}

#[test]
fn probe_with_zero_rows_counts_as_missing() {
    let mut o = RestoreOrchestrator::new(capable_profile(), String::from("sales")).unwrap();
    o.step(completed(true, " ?column? \n----------\n(0 rows)\n", ""));
    assert!(matches!(o.phase, Phase::ConfirmCreate));
}

#[test]
fn failing_probe_counts_as_missing() {
    let mut o = RestoreOrchestrator::new(capable_profile(), String::from("sales")).unwrap();
    o.step(completed(false, "(1 row)", "connection refused"));
    assert!(matches!(o.phase, Phase::ConfirmCreate));
}

#[test]
fn declined_confirmation_cancels_without_creation() {
    let mut o = RestoreOrchestrator::new(capable_profile(), String::from("sales")).unwrap();
    o.step(completed(true, "(0 rows)", ""));
    o.step(answered("n"));
    assert!(matches!(
        o.phase,
        Phase::Failed { error: RestoreError::UserCancelled }
    ));
}

#[test]
fn uppercase_short_affirmative_proceeds_to_creation() {
    let mut o = RestoreOrchestrator::new(capable_profile(), String::from("sales")).unwrap();
    o.step(completed(true, "(0 rows)", ""));
    o.step(answered("S"));
    assert!(matches!(o.phase, Phase::Create));
}

#[test]
fn yes_answer_proceeds_to_creation() {
    let mut o = RestoreOrchestrator::new(capable_profile(), String::from("sales")).unwrap();
    o.step(completed(true, "(0 rows)", ""));
    o.step(answered("yes"));
    assert!(matches!(o.phase, Phase::Create));
}

#[test]
fn creation_without_password_prompts_once_and_retries() {
    let mut o = RestoreOrchestrator::new(capable_profile(), String::from("sales")).unwrap();
    o.step(completed(true, "(0 rows)", ""));
    o.step(answered("s"));
    assert!(matches!(o.phase, Phase::Create));
    o.step(completed(
        false,
        "",
        "psql: error: fe_sendauth: no password supplied",
    ));
    assert!(matches!(
        o.phase,
        Phase::PromptPassword { retry_restore: false }
    ));
    o.step(answered("hunter2"));
    assert!(matches!(o.phase, Phase::Create));
    assert_eq!(o.profile.password.as_deref(), Some("hunter2"));
    o.step(completed(true, "CREATE DATABASE", ""));
    assert!(matches!(o.phase, Phase::Restore));
}

#[test]
fn credential_failure_with_password_present_is_fatal() {
    let mut profile = capable_profile();
    profile.password = Some(String::from("wrong"));
    let mut o = RestoreOrchestrator::new(profile, String::from("sales")).unwrap();
    o.step(completed(true, "(0 rows)", ""));
    o.step(answered("s"));
    o.step(completed(
        false,
        "",
        "psql: error: fe_sendauth: no password supplied",
    ));
    match &o.phase {
        Phase::Failed { error: RestoreError::ExecutionFailure { stderr } } => {
            assert!(stderr.contains("no password supplied"));
        }
        other => panic!("expected a fatal failure, got {:?}", other),
    }
}

#[test]
fn restore_on_missing_database_reconfirms_and_retries_without_probe() {
    let mut o = RestoreOrchestrator::new(capable_profile(), String::from("sales")).unwrap();
    o.step(completed(true, "(1 row)", ""));
    assert!(matches!(o.phase, Phase::Restore));
    o.step(completed(
        false,
        "",
        "psql: error: FATAL:  database \"sales\" does not exist",
    ));
    assert!(matches!(o.phase, Phase::ConfirmCreate));
    o.step(answered("s"));
    assert!(matches!(o.phase, Phase::Create));
    o.step(completed(true, "CREATE DATABASE", ""));
    // The retry runs the restore again; no existence probe on the way.
    assert!(matches!(o.phase, Phase::Restore));
    o.step(completed(true, "SET\nCREATE TABLE\nCOPY 42\n", ""));
    assert!(matches!(o.phase, Phase::Done { .. }));
}

#[test]
fn restore_without_password_prompts_and_retries_the_restore() {
    let mut o = RestoreOrchestrator::new(capable_profile(), String::from("sales")).unwrap();
    o.step(completed(true, "(1 row)", ""));
    o.step(completed(
        false,
        "",
        "psql: error: fe_sendauth: no password supplied",
    ));
    assert!(matches!(
        o.phase,
        Phase::PromptPassword { retry_restore: true }
    ));
    o.step(answered("hunter2"));
    assert!(matches!(o.phase, Phase::Restore));
    assert_eq!(o.profile.password.as_deref(), Some("hunter2"));
}

#[test]
fn unclassified_restore_failure_is_fatal_with_its_text() {
    let mut o = RestoreOrchestrator::new(capable_profile(), String::from("sales")).unwrap();
    o.step(completed(true, "(1 row)", ""));
    o.step(completed(false, "", "psql: error: could not connect to server"));
    match &o.phase {
        Phase::Failed { error: RestoreError::ExecutionFailure { stderr } } => {
            assert_eq!(stderr, "psql: error: could not connect to server");
        }
        other => panic!("expected a fatal failure, got {:?}", other),
    }
}

#[test]
fn end_to_end_create_and_restore_without_password_prompt() {
    // Profile {db, 5432, odoo, c1}, no password; "sales" absent; confirmation
    // affirmative; creation and restore succeed.
    let mut o = RestoreOrchestrator::new(capable_profile(), String::from("sales")).unwrap();
    o.step(completed(true, "(0 rows)", ""));
    assert!(matches!(o.phase, Phase::ConfirmCreate));
    o.step(answered("s"));
    assert!(matches!(o.phase, Phase::Create));
    o.step(completed(true, "CREATE DATABASE", ""));
    assert!(matches!(o.phase, Phase::Restore));
    o.step(completed(true, "restore output", ""));
    match &o.phase {
        Phase::Done { output } => assert_eq!(output, "restore output"),
        other => panic!("expected Done, got {:?}", other),
    }
    // No password prompt was ever issued: the profile still carries none.
    assert!(o.profile.password.is_none());
}
