//! Verified decision core of a small todo repository.
//!
//! The repository keeps one kind of record, the [`Todo`], in a table of an
//! embedded relational store.  This library decides everything about the
//! four operations on that table and about the initialization of the store,
//! and performs none of it: it names the requests to put to the store and
//! says what follows from each answer.  Whoever uses it carries out the
//! requests.

pub mod error;
pub mod laws;
pub mod query;
pub mod repository;
pub mod setup;
pub mod state;
pub mod status;
pub mod text;
pub mod todo;
pub mod values;

pub use error::RepoError;
pub use query::{Param, Query};
pub use repository::{add_todo, delete_todo, get_todos, update_todo};
pub use setup::{setup_db, Failure, FailureKind, Setup, SetupStep};
pub use state::AppState;
pub use status::Status;
pub use todo::{Row, Todo};
