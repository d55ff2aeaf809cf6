//! The requests that the repository puts to the store: which statement is
//! run, and which values are bound to its placeholders.

use crate::status::Status;
use crate::values::views;
use vstd::prelude::*;
use vstd::string::*;

verus! {

/// Creates the table unless it is there already; rows that exist are kept.
pub const CREATE_TABLE: &'static str =
    "CREATE TABLE IF NOT EXISTS todos (id INTEGER PRIMARY KEY, title TEXT, description TEXT, status TEXT)";

/// Inserts one row and hands back the identifier that the store gave it.
pub const INSERT: &'static str =
    "INSERT INTO todos (title, description, status) VALUES (?1, ?2, ?3) RETURNING id";

/// Reads every row.
pub const SELECT_ALL: &'static str = "SELECT * FROM todos";

/// Reads the row with a given identifier.
pub const SELECT_BY_ID: &'static str = "SELECT * FROM todos WHERE id = ?1";

/// Overwrites title, description and status of the row with a given
/// identifier.
pub const UPDATE: &'static str =
    "UPDATE todos SET title = ?1, description = ?2, status = ?3 WHERE id = ?4";

/// Removes the row with a given identifier.
pub const DELETE_BY_ID: &'static str = "DELETE FROM todos WHERE id = ?1";

/// A value bound to a placeholder of a statement.
#[derive(Debug, Clone, PartialEq, Eq)]
pub enum Param {
    Integer(i64),
    Text(String),
}

/// The mathematical value of a [`Param`].
pub enum ParamView {
    Integer(i64),
    Text(Seq<char>),
}

impl View for Param {
    type V = ParamView;

    open spec fn view(&self) -> ParamView {
        match self {
            Param::Integer(n) => ParamView::Integer(*n),
            Param::Text(s) => ParamView::Text(s@),
        }
    }
}

/// A request to the store.  A row is named by its key, as the store has
/// it.
#[derive(Debug, Clone, PartialEq, Eq)]
pub enum Query {
    CreateTable,
    Insert { title: String, description: String, status: Status },
    SelectAll,
    SelectById { id: i64 },
    Update { id: i64, title: String, description: String, status: Status },
    DeleteById { id: i64 },
}

/// The mathematical value of a [`Query`].
pub enum QueryView {
    CreateTable,
    Insert { title: Seq<char>, description: Seq<char>, status: Status },
    SelectAll,
    SelectById { id: i64 },
    Update { id: i64, title: Seq<char>, description: Seq<char>, status: Status },
    DeleteById { id: i64 },
}

impl View for Query {
    type V = QueryView;

    open spec fn view(&self) -> QueryView {
        match self {
            Query::CreateTable => QueryView::CreateTable,
            Query::Insert { title, description, status } => QueryView::Insert {
                title: title@,
                description: description@,
                status: *status,
            },
            Query::SelectAll => QueryView::SelectAll,
            Query::SelectById { id } => QueryView::SelectById { id: *id },
            Query::Update { id, title, description, status } => QueryView::Update {
                id: *id,
                title: title@,
                description: description@,
                status: *status,
            },
            Query::DeleteById { id } => QueryView::DeleteById { id: *id },
        }
    }
}

impl QueryView {
    /// The statement that carries the request.
    pub open spec fn sql(self) -> Seq<char> {
        match self {
            QueryView::CreateTable => CREATE_TABLE@,
            QueryView::Insert { .. } => INSERT@,
            QueryView::SelectAll => SELECT_ALL@,
            QueryView::SelectById { .. } => SELECT_BY_ID@,
            QueryView::Update { .. } => UPDATE@,
            QueryView::DeleteById { .. } => DELETE_BY_ID@,
        }
    }

    /// The values bound to the statement's placeholders, the first one to
    /// `?1`.  A status is bound as its text, a key as an integer.
    pub open spec fn params(self) -> Seq<ParamView> {
        match self {
            QueryView::CreateTable => seq![],
            QueryView::Insert { title, description, status } => seq![
                ParamView::Text(title),
                ParamView::Text(description),
                ParamView::Text(status.text()),
            ],
            QueryView::SelectAll => seq![],
            QueryView::SelectById { id } => seq![ParamView::Integer(id)],
            QueryView::Update { id, title, description, status } => seq![
                ParamView::Text(title),
                ParamView::Text(description),
                ParamView::Text(status.text()),
                ParamView::Integer(id),
            ],
            QueryView::DeleteById { id } => seq![ParamView::Integer(id)],
        }
    }
}

impl Query {
    /// Returns the statement to run.
    pub fn sql(&self) -> (statement: &'static str)
        ensures
            statement@ == self@.sql(),
    {
        match self {
            Query::CreateTable => CREATE_TABLE,
            Query::Insert { .. } => INSERT,
            Query::SelectAll => SELECT_ALL,
            Query::SelectById { .. } => SELECT_BY_ID,
            Query::Update { .. } => UPDATE,
            Query::DeleteById { .. } => DELETE_BY_ID,
        }
    }

    /// Returns the values to bind, in the order of the placeholders.
    pub fn params(&self) -> (bound: Vec<Param>)
        ensures
            views(bound@) == self@.params(),
    {
        let mut bound: Vec<Param> = Vec::new();
        match self {
            Query::CreateTable => {},
            Query::Insert { title, description, status } => {
                bound.push(Param::Text(title.clone()));
                bound.push(Param::Text(description.clone()));
                bound.push(Param::Text(String::from_str(status.as_text())));
            },
            Query::SelectAll => {},
            Query::SelectById { id } => {
                bound.push(Param::Integer(*id));
            },
            Query::Update { id, title, description, status } => {
                bound.push(Param::Text(title.clone()));
                bound.push(Param::Text(description.clone()));
                bound.push(Param::Text(String::from_str(status.as_text())));
                bound.push(Param::Integer(*id));
            },
            Query::DeleteById { id } => {
                bound.push(Param::Integer(*id));
            },
        }
        assert(views(bound@) =~= self@.params());
        bound
    }
}

} // verus!
