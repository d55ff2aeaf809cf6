use std::future::Future;

use sqlx::sqlite::{SqliteArguments, SqlitePool, SqlitePoolOptions, SqliteRow};
use sqlx::{Row as SqlRow, Sqlite};
use todo_store::{
    add_todo, delete_todo, get_todos, update_todo, AppState, Param, Query, RepoError, Row, Status,
    Todo,
};

type Db = SqlitePool;

const NOT_FOUND: &str = "no rows returned by a query that expected to return at least one row";

fn absent(message: String) -> RepoError {
    RepoError::NotFound { message }
}

fn run<F: Future>(future: F) -> F::Output {
    tokio::runtime::Builder::new_current_thread().enable_all().build().unwrap().block_on(future)
}

async fn open() -> AppState<Db> {
    let db = SqlitePoolOptions::new().max_connections(1).connect("sqlite::memory:").await.unwrap();
    AppState { db }
}

async fn ready() -> AppState<Db> {
    let state = open().await;
    execute(&state.db, &Query::CreateTable).await.unwrap();
    state
}

fn bound(query: &Query) -> sqlx::query::Query<'static, Sqlite, SqliteArguments<'static>> {
    let mut statement = sqlx::query(query.sql());
    for param in query.params() {
        statement = match param {
            Param::Integer(number) => statement.bind(number),
            Param::Text(text) => statement.bind(text),
        };
    }
    statement
}

fn read(row: &SqliteRow) -> Result<Row, sqlx::Error> {
    Ok(Row {
        id: row.try_get("id")?,
        title: row.try_get("title")?,
        description: row.try_get("description")?,
        status: row.try_get("status")?,
    })
}

async fn execute(db: &Db, query: &Query) -> Result<(), String> {
    bound(query).execute(db).await.map(|_| ()).map_err(|e| e.to_string())
}

async fn insert(db: &Db, query: &Query) -> Result<i64, String> {
    let row = bound(query).fetch_one(db).await.map_err(|e| e.to_string())?;
    row.try_get(0).map_err(|e| e.to_string())
}

async fn lookup(db: &Db, query: &Query) -> Result<Option<Row>, String> {
    match bound(query).fetch_optional(db).await.map_err(|e| e.to_string())? {
        Some(row) => read(&row).map(Some).map_err(|e| e.to_string()),
        None => Ok(None),
    }
}

async fn fetch_all(db: &Db, query: &Query) -> Result<Vec<Row>, String> {
    let rows = bound(query).fetch_all(db).await.map_err(|e| e.to_string())?;
    rows.iter().map(|row| read(row).map_err(|e| e.to_string())).collect()
}

async fn create(state: Option<&AppState<Db>>, title: &str, description: &str) -> Result<Todo, RepoError> {
    let (db, operation) = add_todo(state, title, description)?;
    let reply = insert(db, &operation.query()).await;
    operation.finish(reply)
}

async fn list(state: Option<&AppState<Db>>) -> Result<Vec<Todo>, RepoError> {
    let (db, operation) = get_todos(state)?;
    let reply = fetch_all(db, &operation.query()).await;
    operation.finish(reply)
}

async fn update(state: Option<&AppState<Db>>, todo: Todo) -> Result<Todo, RepoError> {
    let (db, operation) = update_todo(state, todo)?;
    let reply = lookup(db, &operation.query()).await;
    let write = operation.fetched(reply)?;
    let reply = execute(db, &write.query()).await;
    write.finish(reply)
}

async fn delete(state: Option<&AppState<Db>>, id: u64) -> Result<(), RepoError> {
    let (db, operation) = delete_todo(state, id)?;
    let reply = lookup(db, &operation.query()).await;
    let removal = operation.fetched(reply)?;
    let reply = execute(db, &removal.query()).await;
    removal.finish(reply)
}

async fn raw(db: &Db, statement: &'static str) {
    sqlx::query(statement).execute(db).await.unwrap();
}

fn todo(id: u64, title: &str, description: &str, status: Status) -> Todo {
    Todo { id, title: title.to_string(), description: description.to_string(), status }
}

fn failure(message: String, previous: Option<Todo>) -> RepoError {
    RepoError::Store { message, previous }
}

#[test]
fn creating_the_table_twice_keeps_the_rows() {
    run(async {
        let state = open().await;
        assert_eq!(execute(&state.db, &Query::CreateTable).await, Ok(()));
        let created = create(Some(&state), "A", "B").await.unwrap();
        assert_eq!(execute(&state.db, &Query::CreateTable).await, Ok(()));
        assert_eq!(list(Some(&state)).await, Ok(vec![created]));
    });
}

#[test]
fn create_then_list_yields_the_record() {
    run(async {
        let state = ready().await;
        assert_eq!(list(Some(&state)).await, Ok(vec![]));
        let created = create(Some(&state), "A", "B").await.unwrap();
        assert_eq!(created.title, "A");
        assert_eq!(created.description, "B");
        assert_eq!(created.status, Status::Incomplete);
        assert_eq!(list(Some(&state)).await, Ok(vec![created]));
    });
}

#[test]
fn created_records_get_fresh_identifiers() {
    run(async {
        let state = ready().await;
        let first = create(Some(&state), "A", "B").await.unwrap();
        let second = create(Some(&state), "A", "B").await.unwrap();
        let third = create(Some(&state), "C", "").await.unwrap();
        assert_ne!(first.id, second.id);
        assert_ne!(first.id, third.id);
        assert_ne!(second.id, third.id);
        assert_eq!(list(Some(&state)).await.unwrap().len(), 3);
    });
}

#[test]
fn status_is_persisted_as_its_text() {
    run(async {
        let state = ready().await;
        let created = create(Some(&state), "A", "B").await.unwrap();
        let rows = fetch_all(&state.db, &Query::SelectAll).await.unwrap();
        assert_eq!(
            rows,
            vec![Row {
                id: i64::try_from(created.id).unwrap(),
                title: "A".to_string(),
                description: "B".to_string(),
                status: "Incomplete".to_string(),
            }]
        );
    });
}

#[test]
fn update_merges_with_the_stored_record() {
    run(async {
        let state = ready().await;
        raw(&state.db, "INSERT INTO todos (id, title, description, status) VALUES (1, 'X', 'Y', 'Incomplete')").await;
        let updated = update(Some(&state), todo(1, "", "Z", Status::Complete)).await;
        assert_eq!(updated, Ok(todo(1, "X", "Z", Status::Complete)));
        assert_eq!(list(Some(&state)).await, Ok(vec![todo(1, "X", "Z", Status::Complete)]));
    });
}

#[test]
fn update_touches_no_other_record() {
    run(async {
        let state = ready().await;
        let first = create(Some(&state), "one", "1").await.unwrap();
        let second = create(Some(&state), "two", "2").await.unwrap();
        let wanted = todo(second.id, "zwei", " ", Status::Complete);
        let updated = update(Some(&state), wanted).await.unwrap();
        assert_eq!(updated, todo(second.id, "zwei", "2", Status::Complete));
        assert_eq!(list(Some(&state)).await, Ok(vec![first, updated]));
    });
}

#[test]
fn update_of_an_absent_record_fails_without_a_snapshot() {
    run(async {
        let state = ready().await;
        let outcome = update(Some(&state), todo(5, "t", "d", Status::Complete)).await;
        assert_eq!(
            outcome,
            Err(absent(format!(
                "Failed to fetch previous todo state (possible data loss): {}",
                NOT_FOUND
            )))
        );
        assert_eq!(list(Some(&state)).await, Ok(vec![]));
    });
}

#[test]
fn delete_removes_the_record_for_good() {
    run(async {
        let state = ready().await;
        let kept = create(Some(&state), "keep", "k").await.unwrap();
        let gone = create(Some(&state), "drop", "d").await.unwrap();
        assert_eq!(delete(Some(&state), gone.id).await, Ok(()));
        assert_eq!(list(Some(&state)).await, Ok(vec![kept]));
        assert_eq!(
            delete(Some(&state), gone.id).await,
            Err(absent(format!(
                "Failed to fetch todo for deletion (possible data loss): {}",
                NOT_FOUND
            )))
        );
        assert_eq!(
            update(Some(&state), todo(gone.id, "again", "a", Status::Complete)).await,
            Err(absent(format!(
                "Failed to fetch previous todo state (possible data loss): {}",
                NOT_FOUND
            )))
        );
    });
}

#[test]
fn the_message_for_an_absent_record_is_the_one_of_the_driver() {
    run(async {
        let state = ready().await;
        let found = bound(&Query::SelectById { id: 1 }).fetch_one(&state.db).await;
        assert_eq!(found.map(|_| ()).map_err(|e| e.to_string()), Err(NOT_FOUND.to_string()));
        assert_eq!(todo_store::error::NOT_FOUND, NOT_FOUND);
        assert_eq!(sqlx::Error::RowNotFound.to_string(), NOT_FOUND);
    });
}

#[test]
fn columns_left_empty_are_read_as_empty_text() {
    run(async {
        let state = ready().await;
        raw(&state.db, "INSERT INTO todos (id, status) VALUES (3, 'Complete')").await;
        assert_eq!(list(Some(&state)).await, Ok(vec![todo(3, "", "", Status::Complete)]));
        raw(&state.db, "INSERT INTO todos (id, title) VALUES (4, 'no status')").await;
        assert_eq!(
            update(Some(&state), todo(4, "t", "d", Status::Complete)).await,
            Err(failure(
                "Failed to fetch previous todo state (possible data loss): error occurred while decoding column \"status\": invalid value \"\" for enum Status".to_string(),
                None
            ))
        );
    });
}

#[test]
fn a_row_with_an_unknown_status_fails_the_list() {
    run(async {
        let state = ready().await;
        raw(&state.db, "INSERT INTO todos (id, title, description, status) VALUES (1, 'X', 'Y', 'Started')").await;
        assert_eq!(
            list(Some(&state)).await,
            Err(failure(
                "Failed to get todos error occurred while decoding column \"status\": invalid value \"Started\" for enum Status".to_string(),
                None
            ))
        );
    });
}

#[test]
fn identifiers_beyond_sixteen_bits_work_like_any_other() {
    run(async {
        let state = ready().await;
        raw(&state.db, "INSERT INTO todos (id, title, description, status) VALUES (65535, 'X', 'Y', 'Complete')").await;
        let created = create(Some(&state), "A", "B").await.unwrap();
        assert_eq!(created, todo(65536, "A", "B", Status::Incomplete));
        assert_eq!(
            list(Some(&state)).await,
            Ok(vec![todo(65535, "X", "Y", Status::Complete), created.clone()])
        );
        let updated = update(Some(&state), todo(created.id, "C", "", Status::Complete)).await;
        assert_eq!(updated, Ok(todo(65536, "C", "B", Status::Complete)));
        assert_eq!(
            list(Some(&state)).await,
            Ok(vec![
                todo(65535, "X", "Y", Status::Complete),
                todo(65536, "C", "B", Status::Complete)
            ])
        );
        assert_eq!(delete(Some(&state), created.id).await, Ok(()));
        assert_eq!(list(Some(&state)).await, Ok(vec![todo(65535, "X", "Y", Status::Complete)]));
    });
}

#[test]
fn the_largest_key_of_the_store_is_an_identifier() {
    run(async {
        let state = ready().await;
        raw(&state.db, "INSERT INTO todos (id, title, description, status) VALUES (9223372036854775807, 'X', 'Y', 'Complete')").await;
        let largest = 9_223_372_036_854_775_807_u64;
        assert_eq!(list(Some(&state)).await, Ok(vec![todo(largest, "X", "Y", Status::Complete)]));
        assert_eq!(
            update(Some(&state), todo(largest, "", "Z", Status::Incomplete)).await,
            Ok(todo(largest, "X", "Z", Status::Incomplete))
        );
        assert_eq!(
            delete(Some(&state), largest + 1).await,
            Err(absent(format!(
                "Failed to fetch todo for deletion (possible data loss): {}",
                NOT_FOUND
            )))
        );
        assert_eq!(delete(Some(&state), largest).await, Ok(()));
        assert_eq!(list(Some(&state)).await, Ok(vec![]));
    });
}

#[test]
fn a_row_with_a_negative_identifier_fails_the_list() {
    run(async {
        let state = ready().await;
        raw(&state.db, "INSERT INTO todos (id, title, description, status) VALUES (-1, 'X', 'Y', 'Complete')").await;
        assert_eq!(
            list(Some(&state)).await,
            Err(failure(
                "Failed to get todos error occurred while decoding column \"id\": out of range integral type conversion attempted".to_string(),
                None
            ))
        );
    });
}

#[test]
fn a_write_that_the_store_rejects_reports_the_snapshot() {
    run(async {
        let state = ready().await;
        let created = create(Some(&state), "A", "B").await.unwrap();
        raw(&state.db, "CREATE TRIGGER frozen BEFORE UPDATE ON todos BEGIN SELECT RAISE(ABORT, 'frozen'); END").await;
        raw(&state.db, "CREATE TRIGGER kept BEFORE DELETE ON todos BEGIN SELECT RAISE(ABORT, 'kept'); END").await;
        let outcome = update(Some(&state), todo(created.id, "C", "D", Status::Complete)).await;
        match outcome {
            Err(RepoError::Store { message, previous }) => {
                assert!(message.starts_with("Failed to update todo: "), "{}", message);
                assert!(message.contains("frozen"), "{}", message);
                assert_eq!(previous, Some(created.clone()));
            },
            other => panic!("{:?}", other),
        }
        match delete(Some(&state), created.id).await {
            Err(RepoError::Store { message, previous }) => {
                assert!(message.starts_with("Failed to delete todo: "), "{}", message);
                assert!(message.contains("kept"), "{}", message);
                assert_eq!(previous, Some(created.clone()));
            },
            other => panic!("{:?}", other),
        }
        assert_eq!(list(Some(&state)).await, Ok(vec![created]));
    });
}

#[test]
fn without_a_table_the_store_fails_and_is_not_unavailable() {
    run(async {
        let state = open().await;
        match list(Some(&state)).await {
            Err(RepoError::Store { message, previous }) => {
                assert!(message.starts_with("Failed to get todos "), "{}", message);
                assert_eq!(previous, None);
            },
            other => panic!("{:?}", other),
        }
        match create(Some(&state), "A", "B").await {
            Err(RepoError::Store { message, previous }) => {
                assert!(message.starts_with("Error saving todo: "), "{}", message);
                assert_eq!(previous, None);
            },
            other => panic!("{:?}", other),
        }
    });
}

#[test]
fn before_initialization_nothing_reaches_the_store() {
    run(async {
        assert_eq!(create(None, "A", "B").await, Err(RepoError::Unavailable));
        assert_eq!(list(None).await, Err(RepoError::Unavailable));
        assert_eq!(update(None, todo(1, "A", "B", Status::Complete)).await, Err(RepoError::Unavailable));
        assert_eq!(delete(None, 1).await, Err(RepoError::Unavailable));
    });
}
