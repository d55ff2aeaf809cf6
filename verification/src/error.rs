//! The failures that a repository operation reports.

use crate::text::prefixed;
use crate::todo::{Todo, TodoView};
use crate::values::view_option;
use vstd::prelude::*;
use vstd::string::*;

verus! {

/// Message of the failure reported while no connection pool is published.
pub const UNAVAILABLE: &'static str = "no managed state: the database has not been initialized";

/// Cause named where a record was looked up by its identifier and no row
/// has that identifier.
pub const NOT_FOUND: &'static str =
    "no rows returned by a query that expected to return at least one row";

/// Why a repository operation failed.
#[derive(Debug, Clone, PartialEq, Eq)]
pub enum RepoError {
    /// No connection pool is published: initialization has not run, has not
    /// finished, or has failed.  The store was not asked anything.
    Unavailable,
    /// The record to change or remove does not exist.  Nothing was changed.
    NotFound { message: String },
    /// The store could not answer a request.  `previous` is the record as
    /// it was read before a change was attempted, where one was read.
    Store { message: String, previous: Option<Todo> },
}

/// The mathematical value of a [`RepoError`].
pub enum RepoErrorView {
    Unavailable,
    NotFound { message: Seq<char> },
    Store { message: Seq<char>, previous: Option<TodoView> },
}

impl View for RepoError {
    type V = RepoErrorView;

    open spec fn view(&self) -> RepoErrorView {
        match self {
            RepoError::Unavailable => RepoErrorView::Unavailable,
            RepoError::NotFound { message } => RepoErrorView::NotFound { message: message@ },
            RepoError::Store { message, previous } => RepoErrorView::Store {
                message: message@,
                previous: view_option(*previous),
            },
        }
    }
}

impl RepoErrorView {
    /// The text shown for the failure.
    pub open spec fn message(self) -> Seq<char> {
        match self {
            RepoErrorView::Unavailable => UNAVAILABLE@,
            RepoErrorView::NotFound { message } => message,
            RepoErrorView::Store { message, .. } => message,
        }
    }

    /// The record as it was before the failed change, where it is known.
    pub open spec fn previous(self) -> Option<TodoView> {
        match self {
            RepoErrorView::Unavailable => None,
            RepoErrorView::NotFound { .. } => None,
            RepoErrorView::Store { previous, .. } => previous,
        }
    }
}

/// The failure of a request to the store: its message is `prefix` followed
/// by the store's own description of the cause.
pub open spec fn store_failure(
    prefix: Seq<char>,
    cause: Seq<char>,
    previous: Option<TodoView>,
) -> RepoErrorView {
    RepoErrorView::Store { message: prefix + cause, previous }
}

/// The failure of a lookup that found no row: its message is `prefix`
/// followed by [`NOT_FOUND`].
pub open spec fn not_found(prefix: Seq<char>) -> RepoErrorView {
    RepoErrorView::NotFound { message: prefix + NOT_FOUND@ }
}

impl RepoError {
    /// Builds the failure of a lookup that found no row.
    pub fn not_found(prefix: &str) -> (error: RepoError)
        ensures
            error@ == not_found(prefix@),
    {
        RepoError::NotFound { message: prefixed(prefix, NOT_FOUND) }
    }

    /// Builds the failure of a request to the store.
    pub fn store(prefix: &str, cause: &str, previous: Option<Todo>) -> (error: RepoError)
        ensures
            error@ == store_failure(prefix@, cause@, view_option(previous)),
    {
        RepoError::Store { message: prefixed(prefix, cause), previous }
    }

    /// Splits the failure into its message and the record as it was before,
    /// the form in which it is handed to the caller.
    pub fn into_parts(self) -> (parts: (String, Option<Todo>))
        ensures
            parts.0@ == self@.message(),
            view_option(parts.1) == self@.previous(),
    {
        match self {
            RepoError::Unavailable => (String::from_str(UNAVAILABLE), None),
            RepoError::NotFound { message } => (message, None),
            RepoError::Store { message, previous } => (message, previous),
        }
    }
}

} // verus!
