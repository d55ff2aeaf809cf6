use todo_store::setup::{DATABASE_FILE, READY, STATUS_EVENT};
use todo_store::{setup_db, Failure, FailureKind, RepoError, Setup, SetupStep};

fn failed(kind: FailureKind, cause: &str) -> Result<(), Failure> {
    Err(Failure { kind, cause: cause.to_string() })
}

#[test]
fn names_of_file_and_signal() {
    assert_eq!(DATABASE_FILE, "data.db");
    assert_eq!(STATUS_EVENT, "dbstatus");
    assert_eq!(READY, "ready");
}

#[test]
fn setup_begins_with_the_directory() {
    assert_eq!(setup_db(None), Setup::Run(SetupStep::CreateDirectory));
}

#[test]
fn setup_runs_the_steps_in_order() {
    assert_eq!(
        setup_db(Some((SetupStep::CreateDirectory, Ok(())))),
        Setup::Run(SetupStep::CreateFile)
    );
    assert_eq!(setup_db(Some((SetupStep::CreateFile, Ok(())))), Setup::Run(SetupStep::EncodePath));
    assert_eq!(setup_db(Some((SetupStep::EncodePath, Ok(())))), Setup::Run(SetupStep::Connect));
    assert_eq!(setup_db(Some((SetupStep::Connect, Ok(())))), Setup::Run(SetupStep::CreateTable));
    assert_eq!(setup_db(Some((SetupStep::CreateTable, Ok(())))), Setup::Ready);
}

#[test]
fn a_whole_run_ends_ready() {
    let mut at = setup_db(None);
    let mut carried_out = Vec::new();
    while let Setup::Run(step) = at {
        carried_out.push(step);
        at = setup_db(Some((step, Ok(()))));
    }
    assert_eq!(at, Setup::Ready);
    assert_eq!(
        carried_out,
        vec![
            SetupStep::CreateDirectory,
            SetupStep::CreateFile,
            SetupStep::EncodePath,
            SetupStep::Connect,
            SetupStep::CreateTable,
        ]
    );
}

#[test]
fn an_existing_database_file_is_reused() {
    assert_eq!(
        setup_db(Some((SetupStep::CreateFile, failed(FailureKind::AlreadyExists, "File exists (os error 17)")))),
        Setup::Run(SetupStep::EncodePath)
    );
}

#[test]
fn a_second_run_over_an_existing_file_ends_ready() {
    let mut at = setup_db(None);
    while let Setup::Run(step) = at {
        let reply = match step {
            SetupStep::CreateFile => failed(FailureKind::AlreadyExists, "File exists (os error 17)"),
            _ => Ok(()),
        };
        at = setup_db(Some((step, reply)));
    }
    assert_eq!(at, Setup::Ready);
}

#[test]
fn a_failed_directory_ends_setup_with_its_cause() {
    assert_eq!(
        setup_db(Some((SetupStep::CreateDirectory, failed(FailureKind::Other, "Permission denied (os error 13)")))),
        Setup::Failed("Permission denied (os error 13)".to_string())
    );
}

#[test]
fn existing_is_a_failure_for_every_step_but_the_file() {
    assert_eq!(
        setup_db(Some((SetupStep::CreateDirectory, failed(FailureKind::AlreadyExists, "File exists (os error 17)")))),
        Setup::Failed("File exists (os error 17)".to_string())
    );
    assert_eq!(
        setup_db(Some((SetupStep::Connect, failed(FailureKind::AlreadyExists, "c")))),
        Setup::Failed("c".to_string())
    );
    assert_eq!(
        setup_db(Some((SetupStep::CreateTable, failed(FailureKind::AlreadyExists, "t")))),
        Setup::Failed("t".to_string())
    );
    assert_eq!(
        setup_db(Some((SetupStep::EncodePath, failed(FailureKind::AlreadyExists, "p")))),
        Setup::Failed("Failed to convert path to string".to_string())
    );
}

#[test]
fn a_failed_file_ends_setup_with_a_prefixed_cause() {
    assert_eq!(
        setup_db(Some((SetupStep::CreateFile, failed(FailureKind::Other, "Permission denied (os error 13)")))),
        Setup::Failed("Failed to create database file: Permission denied (os error 13)".to_string())
    );
}

#[test]
fn a_path_that_is_no_text_ends_setup() {
    assert_eq!(
        setup_db(Some((SetupStep::EncodePath, failed(FailureKind::Other, "")))),
        Setup::Failed("Failed to convert path to string".to_string())
    );
    assert_eq!(
        setup_db(Some((SetupStep::EncodePath, failed(FailureKind::Other, "ignored")))),
        Setup::Failed("Failed to convert path to string".to_string())
    );
}

#[test]
fn a_failed_connection_ends_setup_with_its_cause() {
    assert_eq!(
        setup_db(Some((SetupStep::Connect, failed(FailureKind::Other, "unable to open database file")))),
        Setup::Failed("unable to open database file".to_string())
    );
}

#[test]
fn a_failed_table_creation_ends_setup_with_its_cause() {
    assert_eq!(
        setup_db(Some((SetupStep::CreateTable, failed(FailureKind::Other, "near \"TABEL\": syntax error")))),
        Setup::Failed("near \"TABEL\": syntax error".to_string())
    );
}

#[test]
fn only_the_end_is_signalled() {
    assert_eq!(Setup::Run(SetupStep::Connect).status(), None);
    assert_eq!(Setup::Ready.status(), Some("ready".to_string()));
    assert_eq!(Setup::Failed("why".to_string()).status(), Some("why".to_string()));
}

#[test]
fn only_readiness_publishes_the_handle() {
    assert_eq!(Setup::Ready.publish(7u8).map(|state| state.db), Some(7u8));
    assert!(Setup::Failed("why".to_string()).publish(7u8).is_none());
    assert!(Setup::Run(SetupStep::CreateTable).publish(7u8).is_none());
    assert!(Setup::Run(SetupStep::CreateDirectory).publish(7u8).is_none());
}

#[test]
fn operations_become_available_with_readiness() {
    let failed = Setup::Failed("unable to open database file".to_string()).publish(1u8);
    assert_eq!(todo_store::get_todos(failed.as_ref()).map(|_| ()), Err(RepoError::Unavailable));
    let ready = Setup::Ready.publish(1u8);
    assert_eq!(todo_store::get_todos(ready.as_ref()).map(|begun| *begun.0), Ok(1u8));
}
