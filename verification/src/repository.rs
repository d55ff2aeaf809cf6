//! The four repository operations.
//!
//! An operation never talks to the store itself.  It is begun with the
//! published state, which yields the store handle and a value that stands
//! for the operation in progress.  That value names the next request to put
//! to the store (`query`), and is resumed with the store's answer.  An
//! update and a removal take two requests: the record is read first, so
//! that a failed write can report what the record was.  They name the row
//! by the store's key for the record's identifier; an identifier for which
//! the store has no key names no record, and the operation ends as not
//! found before the store is asked.

use crate::error::{not_found, store_failure, RepoError, RepoErrorView};
use crate::query::{Query, QueryView};
use crate::state::AppState;
use crate::status::Status;
use crate::todo::{
    decode_row, key_of, merged, store_key, Row, RowView, Todo, TodoView, ID_OUT_OF_RANGE,
};
use crate::values::{view_result, views};
use vstd::prelude::*;
use vstd::string::*;

verus! {

/// Starts the message of a failed insert.
pub const SAVE_FAILED: &'static str = "Error saving todo: ";

/// Starts the message of a failed read of all records.
pub const LIST_FAILED: &'static str = "Failed to get todos ";

/// Starts the message of a failed lookup before an update.
pub const UPDATE_FETCH_FAILED: &'static str =
    "Failed to fetch previous todo state (possible data loss): ";

/// Starts the message of a failed write of an update.
pub const UPDATE_FAILED: &'static str = "Failed to update todo: ";

/// Starts the message of a failed lookup before a removal.
pub const DELETE_FETCH_FAILED: &'static str =
    "Failed to fetch todo for deletion (possible data loss): ";

/// Starts the message of a failed removal.
pub const DELETE_FAILED: &'static str = "Failed to delete todo: ";

/// The store's answer to the lookup of one record, as a mathematical
/// value.
pub open spec fn view_lookup(reply: Result<Option<Row>, String>) -> Result<
    Option<RowView>,
    Seq<char>,
> {
    match reply {
        Ok(Some(row)) => Ok(Some(row@)),
        Ok(None) => Ok(None),
        Err(cause) => Err(cause@),
    }
}

/// What the lookup of one record yields: the record that the row found
/// stands for; else a failure without an earlier record, whose message
/// starts with `prefix`.  That failure tells a record that does not exist
/// from a lookup that failed and from a row that stands for no record.
pub open spec fn fetched(prefix: Seq<char>, reply: Result<Option<RowView>, Seq<char>>) -> Result<
    TodoView,
    RepoErrorView,
> {
    match reply {
        Ok(Some(row)) => match decode_row(row) {
            Ok(todo) => Ok(todo),
            Err(cause) => Err(store_failure(prefix, cause, None)),
        },
        Ok(None) => Err(not_found(prefix)),
        Err(cause) => Err(store_failure(prefix, cause, None)),
    }
}

/// The record that a lookup found, if it found one: the store answered
/// with a row, and the row stands for a record.
pub open spec fn found(reply: Result<Option<RowView>, Seq<char>>) -> Option<TodoView> {
    match reply {
        Ok(Some(row)) => match decode_row(row) {
            Ok(todo) => Some(todo),
            Err(_) => None,
        },
        _ => None,
    }
}

/// Interprets the store's answer to the lookup of one record.
fn read_one(prefix: &str, reply: Result<Option<Row>, String>) -> (found: Result<Todo, RepoError>)
    ensures
        view_result(found) == fetched(prefix@, view_lookup(reply)),
{
    match reply {
        Ok(Some(row)) => match Todo::from_row(row) {
            Ok(todo) => Ok(todo),
            Err(cause) => Err(RepoError::store(prefix, cause.as_str(), None)),
        },
        Ok(None) => Err(RepoError::not_found(prefix)),
        Err(cause) => Err(RepoError::store(prefix, cause.as_str(), None)),
    }
}

// ---------------------------------------------------------------- create

/// A creation in progress.
#[derive(Debug, Clone, PartialEq, Eq)]
pub struct AddTodo {
    pub title: String,
    pub description: String,
}

/// The outcome of a creation, given the store's answer to the insert.  The
/// record carries the identifier that the store assigned, whatever its
/// size.  An answer that is no identifier, a negative one, is a failure of
/// the store.
pub open spec fn added(
    title: Seq<char>,
    description: Seq<char>,
    reply: Result<i64, Seq<char>>,
) -> Result<TodoView, RepoErrorView> {
    match reply {
        Ok(raw) => if raw >= 0 {
            Ok(TodoView { id: raw as u64, title, description, status: Status::Incomplete })
        } else {
            Err(store_failure(SAVE_FAILED@, ID_OUT_OF_RANGE@, None))
        },
        Err(cause) => Err(store_failure(SAVE_FAILED@, cause, None)),
    }
}

/// Begins the creation of a record with the given title and description.
/// Fails as unavailable, and only then, where no state is published.
pub fn add_todo<'a, D>(state: Option<&'a AppState<D>>, title: &str, description: &str) -> (begun:
    Result<(&'a D, AddTodo), RepoError>)
    ensures
        state is None ==> begun == Err::<(&D, AddTodo), RepoError>(RepoError::Unavailable),
        state matches Some(published) ==> begun matches Ok((db, operation)) && *db
            == published.db && operation.title@ == title@ && operation.description@
            == description@,
{
    match AppState::handle(state) {
        Err(unavailable) => Err(unavailable),
        Ok(db) => Ok(
            (
                db,
                AddTodo {
                    title: String::from_str(title),
                    description: String::from_str(description),
                },
            ),
        ),
    }
}

impl AddTodo {
    /// The insert to run: the new row is always incomplete.
    pub fn query(&self) -> (request: Query)
        ensures
            request@ == (QueryView::Insert {
                title: self.title@,
                description: self.description@,
                status: Status::Incomplete,
            }),
    {
        Query::Insert {
            title: self.title.clone(),
            description: self.description.clone(),
            status: Status::Incomplete,
        }
    }

    /// Ends the creation with the store's answer: the identifier it
    /// assigned, or why the insert failed.
    pub fn finish(self, reply: Result<i64, String>) -> (outcome: Result<Todo, RepoError>)
        ensures
            view_result(outcome) == added(self.title@, self.description@, view_result(reply)),
    {
        match reply {
            Ok(raw) => if raw >= 0 {
                Ok(
                    Todo {
                        id: raw as u64,
                        title: self.title,
                        description: self.description,
                        status: Status::Incomplete,
                    },
                )
            } else {
                Err(RepoError::store(SAVE_FAILED, ID_OUT_OF_RANGE, None))
            },
            Err(cause) => Err(RepoError::store(SAVE_FAILED, cause.as_str(), None)),
        }
    }
}

// ------------------------------------------------------------------ list

/// A read of all records in progress.
#[derive(Debug, Clone, Copy, PartialEq, Eq)]
pub struct GetTodos {}

/// Whether every row stands for a record.
pub open spec fn all_decode(rows: Seq<RowView>) -> bool {
    forall|i: int| 0 <= i < rows.len() ==> (#[trigger] decode_row(rows[i])) is Ok
}

/// Whether the row at `k` is the first that stands for no record.
pub open spec fn is_first_malformed(rows: Seq<RowView>, k: int) -> bool {
    &&& 0 <= k < rows.len()
    &&& decode_row(rows[k]) is Err
    &&& forall|j: int| 0 <= j < k ==> (#[trigger] decode_row(rows[j])) is Ok
}

/// The position of the first row that stands for no record, where there
/// is one.
pub open spec fn first_malformed(rows: Seq<RowView>) -> int {
    choose|k: int| is_first_malformed(rows, k)
}

/// The outcome of a read of all records, given the store's answer.  The
/// records come in the order of the rows.  Where the read failed, or a row
/// stands for no record, the whole read fails, with the cause that was met
/// first.  No rows give no records.
pub open spec fn listed(reply: Result<Seq<RowView>, Seq<char>>) -> Result<
    Seq<TodoView>,
    RepoErrorView,
> {
    match reply {
        Err(cause) => Err(store_failure(LIST_FAILED@, cause, None)),
        Ok(rows) => if all_decode(rows) {
            Ok(rows.map_values(|row: RowView| decode_row(row)->Ok_0))
        } else {
            Err(
                store_failure(LIST_FAILED@, decode_row(rows[first_malformed(rows)])->Err_0, None),
            )
        },
    }
}

/// The store's answer to a read of all records, as a mathematical value.
pub open spec fn view_rows(reply: Result<Vec<Row>, String>) -> Result<Seq<RowView>, Seq<char>> {
    match reply {
        Ok(rows) => Ok(views(rows@)),
        Err(cause) => Err(cause@),
    }
}

/// The outcome of a read of all records, as a mathematical value.
pub open spec fn view_todos(outcome: Result<Vec<Todo>, RepoError>) -> Result<
    Seq<TodoView>,
    RepoErrorView,
> {
    match outcome {
        Ok(todos) => Ok(views(todos@)),
        Err(error) => Err(error@),
    }
}

/// Begins the read of all records.
/// Fails as unavailable, and only then, where no state is published.
pub fn get_todos<'a, D>(state: Option<&'a AppState<D>>) -> (begun: Result<
    (&'a D, GetTodos),
    RepoError,
>)
    ensures
        state is None ==> begun == Err::<(&D, GetTodos), RepoError>(RepoError::Unavailable),
        state matches Some(published) ==> begun matches Ok((db, _)) && *db == published.db,
{
    match AppState::handle(state) {
        Err(unavailable) => Err(unavailable),
        Ok(db) => Ok((db, GetTodos {  })),
    }
}

impl GetTodos {
    /// The read to run: every row, without a filter.
    pub fn query(&self) -> (request: Query)
        ensures
            request == Query::SelectAll,
    {
        Query::SelectAll
    }

    /// Ends the read with the store's answer.
    pub fn finish(self, reply: Result<Vec<Row>, String>) -> (outcome: Result<Vec<Todo>, RepoError>)
        ensures
            view_todos(outcome) == listed(view_rows(reply)),
    {
        match reply {
            Err(cause) => Err(RepoError::store(LIST_FAILED, cause.as_str(), None)),
            Ok(rows) => {
                let ghost all = views(rows@);
                let mut todos: Vec<Todo> = Vec::new();
                for row in it: rows.into_iter()
                    invariant
                        view_rows(reply) == Ok::<Seq<RowView>, Seq<char>>(all),
                        views(it.seq()) == all,
                        todos.len() == it.index(),
                        forall|j: int|
                            0 <= j < it.index() ==> (#[trigger] decode_row(all[j])) == Ok::<
                                TodoView,
                                Seq<char>,
                            >(todos@[j]@),
                {
                    match Todo::from_row(row) {
                        Ok(todo) => {
                            todos.push(todo);
                        },
                        Err(cause) => {
                            proof {
                                // This row is the first that stands for no record.
                                assert(is_first_malformed(all, it.index() as int));
                            }
                            return Err(RepoError::store(LIST_FAILED, cause.as_str(), None));
                        },
                    }
                }
                assert(views(todos@) =~= all.map_values(|row: RowView| decode_row(row)->Ok_0));
                Ok(todos)
            },
        }
    }
}

// ---------------------------------------------------------------- update

/// An update that has yet to read the stored record.
#[derive(Debug, Clone, PartialEq, Eq)]
pub struct UpdateTodo {
    /// The store's key of the row to update.
    pub key: i64,
    pub wanted: Todo,
}

/// An update that has read the stored record and has yet to write.
#[derive(Debug, Clone, PartialEq, Eq)]
pub struct WriteTodo {
    /// The store's key of the row to update.
    pub key: i64,
    pub previous: Todo,
    pub merged: Todo,
}

/// The mathematical value of a [`WriteTodo`].
pub struct WriteTodoView {
    pub key: i64,
    pub previous: TodoView,
    pub merged: TodoView,
}

impl View for WriteTodo {
    type V = WriteTodoView;

    open spec fn view(&self) -> WriteTodoView {
        WriteTodoView { key: self.key, previous: self.previous@, merged: self.merged@ }
    }
}

/// How an update of the row `key` goes on once the stored record was
/// looked up.  Where the record does not exist or could not be read, the
/// update fails and has no earlier record to report.  Otherwise the record
/// read is kept, and what is to be written is merged from it and from what
/// the caller wants.
pub open spec fn update_read(
    key: i64,
    wanted: TodoView,
    reply: Result<Option<RowView>, Seq<char>>,
) -> Result<WriteTodoView, RepoErrorView> {
    match fetched(UPDATE_FETCH_FAILED@, reply) {
        Ok(previous) => Ok(WriteTodoView { key, previous, merged: merged(wanted, previous) }),
        Err(error) => Err(error),
    }
}

/// The outcome of an update, given the store's answer to the write: what
/// was written, or a failure that carries the record as it was read.
pub open spec fn update_written(write: WriteTodoView, reply: Result<(), Seq<char>>) -> Result<
    TodoView,
    RepoErrorView,
> {
    match reply {
        Ok(_) => Ok(write.merged),
        Err(cause) => Err(store_failure(UPDATE_FAILED@, cause, Some(write.previous))),
    }
}

/// The outcome of a whole update, given the store's answers to the read and
/// to the write.  Nothing is read where the store has no key for the
/// identifier, and nothing is written where the read failed.
pub open spec fn update_outcome(
    wanted: TodoView,
    read: Result<Option<RowView>, Seq<char>>,
    write: Result<(), Seq<char>>,
) -> Result<TodoView, RepoErrorView> {
    match key_of(wanted.id) {
        None => Err(not_found(UPDATE_FETCH_FAILED@)),
        Some(key) => match update_read(key, wanted, read) {
            Ok(pending) => update_written(pending, write),
            Err(error) => Err(error),
        },
    }
}

/// Begins the update of the record whose identifier `todo` holds.
/// Fails as unavailable, and only then, where no state is published.
/// Fails as not found where the store has no key for the identifier.
pub fn update_todo<'a, D>(state: Option<&'a AppState<D>>, todo: Todo) -> (begun: Result<
    (&'a D, UpdateTodo),
    RepoError,
>)
    ensures
        state is None ==> begun == Err::<(&D, UpdateTodo), RepoError>(RepoError::Unavailable),
        state matches Some(published) ==> match key_of(todo.id) {
            Some(key) => begun matches Ok((db, operation)) && *db == published.db
                && operation.key == key && operation.wanted == todo,
            None => begun matches Err(error) && error@ == not_found(UPDATE_FETCH_FAILED@),
        },
{
    match AppState::handle(state) {
        Err(unavailable) => Err(unavailable),
        Ok(db) => match store_key(todo.id) {
            Some(key) => Ok((db, UpdateTodo { key, wanted: todo })),
            None => Err(RepoError::not_found(UPDATE_FETCH_FAILED)),
        },
    }
}

impl UpdateTodo {
    /// The read to run first: the row with the key.
    pub fn query(&self) -> (request: Query)
        ensures
            request == (Query::SelectById { id: self.key }),
    {
        Query::SelectById { id: self.key }
    }

    /// Goes on with the store's answer to the lookup: the row with the
    /// key, or none where no row has it.
    pub fn fetched(self, reply: Result<Option<Row>, String>) -> (next: Result<
        WriteTodo,
        RepoError,
    >)
        ensures
            view_result(next) == update_read(self.key, self.wanted@, view_lookup(reply)),
    {
        match read_one(UPDATE_FETCH_FAILED, reply) {
            Ok(previous) => {
                let merged = self.wanted.merge(&previous);
                Ok(WriteTodo { key: self.key, previous, merged })
            },
            Err(error) => Err(error),
        }
    }
}

impl WriteTodo {
    /// The write to run: the merged fields, for the row with the key.
    pub fn query(&self) -> (request: Query)
        ensures
            request@ == (QueryView::Update {
                id: self.key,
                title: self.merged.title@,
                description: self.merged.description@,
                status: self.merged.status,
            }),
    {
        Query::Update {
            id: self.key,
            title: self.merged.title.clone(),
            description: self.merged.description.clone(),
            status: self.merged.status,
        }
    }

    /// Ends the update with the store's answer to the write.
    pub fn finish(self, reply: Result<(), String>) -> (outcome: Result<Todo, RepoError>)
        ensures
            view_result(outcome) == update_written(self@, view_result(reply)),
    {
        match reply {
            Ok(_) => Ok(self.merged),
            Err(cause) => Err(
                RepoError::store(UPDATE_FAILED, cause.as_str(), Some(self.previous)),
            ),
        }
    }
}

// ---------------------------------------------------------------- delete

/// A removal that has yet to read the stored record.
#[derive(Debug, Clone, Copy, PartialEq, Eq)]
pub struct DeleteTodo {
    /// The store's key of the row to remove.
    pub key: i64,
}

/// A removal that has read the stored record and has yet to remove it.
#[derive(Debug, Clone, PartialEq, Eq)]
pub struct RemoveTodo {
    /// The store's key of the row to remove.
    pub key: i64,
    pub previous: Todo,
}

/// The mathematical value of a [`RemoveTodo`].
pub struct RemoveTodoView {
    pub key: i64,
    pub previous: TodoView,
}

impl View for RemoveTodo {
    type V = RemoveTodoView;

    open spec fn view(&self) -> RemoveTodoView {
        RemoveTodoView { key: self.key, previous: self.previous@ }
    }
}

/// How a removal of the row `key` goes on once the stored record was
/// looked up.  Where the record does not exist or could not be read, the
/// removal fails and has no earlier record to report.  Otherwise the record
/// read is kept.
pub open spec fn delete_read(key: i64, reply: Result<Option<RowView>, Seq<char>>) -> Result<
    RemoveTodoView,
    RepoErrorView,
> {
    match fetched(DELETE_FETCH_FAILED@, reply) {
        Ok(previous) => Ok(RemoveTodoView { key, previous }),
        Err(error) => Err(error),
    }
}

/// The outcome of a removal, given the store's answer to the delete:
/// nothing, or a failure that carries the record as it was read.
pub open spec fn delete_written(removal: RemoveTodoView, reply: Result<(), Seq<char>>) -> Result<
    (),
    RepoErrorView,
> {
    match reply {
        Ok(_) => Ok(()),
        Err(cause) => Err(store_failure(DELETE_FAILED@, cause, Some(removal.previous))),
    }
}

/// The outcome of a whole removal, given the store's answers to the read
/// and to the delete.  Nothing is read where the store has no key for the
/// identifier, and nothing is deleted where the read failed.
pub open spec fn delete_outcome(
    id: u64,
    read: Result<Option<RowView>, Seq<char>>,
    write: Result<(), Seq<char>>,
) -> Result<(), RepoErrorView> {
    match key_of(id) {
        None => Err(not_found(DELETE_FETCH_FAILED@)),
        Some(key) => match delete_read(key, read) {
            Ok(pending) => delete_written(pending, write),
            Err(error) => Err(error),
        },
    }
}

/// Begins the removal of the record with the given identifier.
/// Fails as unavailable, and only then, where no state is published.
/// Fails as not found where the store has no key for the identifier.
pub fn delete_todo<'a, D>(state: Option<&'a AppState<D>>, id: u64) -> (begun: Result<
    (&'a D, DeleteTodo),
    RepoError,
>)
    ensures
        state is None ==> begun == Err::<(&D, DeleteTodo), RepoError>(RepoError::Unavailable),
        state matches Some(published) ==> match key_of(id) {
            Some(key) => begun matches Ok((db, operation)) && *db == published.db
                && operation.key == key,
            None => begun matches Err(error) && error@ == not_found(DELETE_FETCH_FAILED@),
        },
{
    match AppState::handle(state) {
        Err(unavailable) => Err(unavailable),
        Ok(db) => match store_key(id) {
            Some(key) => Ok((db, DeleteTodo { key })),
            None => Err(RepoError::not_found(DELETE_FETCH_FAILED)),
        },
    }
}

impl DeleteTodo {
    /// The read to run first: the row with the key.
    pub fn query(&self) -> (request: Query)
        ensures
            request == (Query::SelectById { id: self.key }),
    {
        Query::SelectById { id: self.key }
    }

    /// Goes on with the store's answer to the lookup: the row with the
    /// key, or none where no row has it.
    pub fn fetched(self, reply: Result<Option<Row>, String>) -> (next: Result<
        RemoveTodo,
        RepoError,
    >)
        ensures
            view_result(next) == delete_read(self.key, view_lookup(reply)),
    {
        match read_one(DELETE_FETCH_FAILED, reply) {
            Ok(previous) => Ok(RemoveTodo { key: self.key, previous }),
            Err(error) => Err(error),
        }
    }
}

impl RemoveTodo {
    /// The delete to run: the row with the key.
    pub fn query(&self) -> (request: Query)
        ensures
            request == (Query::DeleteById { id: self.key }),
    {
        Query::DeleteById { id: self.key }
    }

    /// Ends the removal with the store's answer to the delete.
    pub fn finish(self, reply: Result<(), String>) -> (outcome: Result<(), RepoError>)
        ensures
            view_result(outcome) == delete_written(self@, view_result(reply)),
    {
        match reply {
            Ok(_) => Ok(()),
            Err(cause) => Err(
                RepoError::store(DELETE_FAILED, cause.as_str(), Some(self.previous)),
            ),
        }
    }
}

} // verus!
