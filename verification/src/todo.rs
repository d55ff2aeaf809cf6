//! The record kept by the repository, the raw row it is read from, and the
//! rules that turn one into the other.

use crate::status::Status;
use crate::text::{blank, is_blank, prefixed};
use crate::values::view_result;
use vstd::prelude::*;
use vstd::string::*;

verus! {

/// Cause reported for an identifier of the store that is no identifier of
/// a record: a negative one.
pub const ID_OUT_OF_RANGE: &'static str =
    "error occurred while decoding column \"id\": out of range integral type conversion attempted";

/// What precedes the offending text in the cause reported for a row whose
/// `status` is not the text of any status.  The offending text follows as
/// it is, without escapes.
pub const BAD_STATUS_HEAD: &'static str =
    "error occurred while decoding column \"status\": invalid value \"";

/// What follows the offending text in that cause.
pub const BAD_STATUS_TAIL: &'static str = "\" for enum Status";

/// One task of the list.  Its identifier is assigned by the store and is
/// never negative.
#[derive(Debug, Clone, PartialEq, Eq)]
pub struct Todo {
    pub id: u64,
    pub title: String,
    pub description: String,
    pub status: Status,
}

/// The mathematical value of a [`Todo`].
pub struct TodoView {
    pub id: u64,
    pub title: Seq<char>,
    pub description: Seq<char>,
    pub status: Status,
}

impl View for Todo {
    type V = TodoView;

    open spec fn view(&self) -> TodoView {
        TodoView {
            id: self.id,
            title: self.title@,
            description: self.description@,
            status: self.status,
        }
    }
}

/// A row of the `todos` table as the store hands it out, before any of its
/// columns has been interpreted.
#[derive(Debug, Clone, PartialEq, Eq)]
pub struct Row {
    pub id: i64,
    pub title: String,
    pub description: String,
    pub status: String,
}

/// The mathematical value of a [`Row`].
pub struct RowView {
    pub id: i64,
    pub title: Seq<char>,
    pub description: Seq<char>,
    pub status: Seq<char>,
}

impl View for Row {
    type V = RowView;

    open spec fn view(&self) -> RowView {
        RowView {
            id: self.id,
            title: self.title@,
            description: self.description@,
            status: self.status@,
        }
    }
}

/// The cause reported for a row whose `status` column holds `text`.
pub open spec fn bad_status(text: Seq<char>) -> Seq<char> {
    BAD_STATUS_HEAD@ + text + BAD_STATUS_TAIL@
}

/// The key under which the store holds the record with this identifier.
/// The store's keys end at `i64::MAX`: it holds no record with an
/// identifier beyond.
pub open spec fn key_of(id: u64) -> Option<i64> {
    if id <= i64::MAX {
        Some(id as i64)
    } else {
        None
    }
}

/// The record that a row stands for, or the cause for which it stands for
/// none.  The identifier is examined first: it must not be negative.  Then
/// the status must be the text of a status.  Title and description are
/// taken as they are.
pub open spec fn decode_row(row: RowView) -> Result<TodoView, Seq<char>> {
    if row.id < 0 {
        Err(ID_OUT_OF_RANGE@)
    } else {
        match Status::parse(row.status) {
            None => Err(bad_status(row.status)),
            Some(status) => Ok(
                TodoView {
                    id: row.id as u64,
                    title: row.title,
                    description: row.description,
                    status,
                },
            ),
        }
    }
}

/// The row under which a record is persisted, for a record whose
/// identifier the store has a key for.
pub open spec fn encode_row(todo: TodoView) -> RowView
    recommends
        key_of(todo.id) is Some,
{
    RowView {
        id: todo.id as i64,
        title: todo.title,
        description: todo.description,
        status: todo.status.text(),
    }
}

/// What an update writes, given the record the caller wants, the record
/// that is stored, and for title and description whether the stored text is
/// to be kept.  The status is always the caller's, and so is the
/// identifier.
pub open spec fn merged_with(
    wanted: TodoView,
    stored: TodoView,
    keep_title: bool,
    keep_description: bool,
) -> TodoView {
    TodoView {
        id: wanted.id,
        title: if keep_title {
            stored.title
        } else {
            wanted.title
        },
        description: if keep_description {
            stored.description
        } else {
            wanted.description
        },
        status: wanted.status,
    }
}

/// What an update writes, given the record the caller wants and the record
/// that is stored: a blank title or description keeps the stored one, any
/// other replaces it.
pub open spec fn merged(wanted: TodoView, stored: TodoView) -> TodoView {
    merged_with(wanted, stored, is_blank(wanted.title), is_blank(wanted.description))
}

/// Returns the key under which the store holds the record with this
/// identifier, if it has a key for it.
pub fn store_key(id: u64) -> (key: Option<i64>)
    ensures
        key == key_of(id),
{
    if id <= 0x7fff_ffff_ffff_ffff {
        Some(id as i64)
    } else {
        None
    }
}

impl Todo {
    /// Interprets a row of the table.
    pub fn from_row(row: Row) -> (decoded: Result<Todo, String>)
        ensures
            view_result(decoded) == decode_row(row@),
    {
        if row.id < 0 {
            return Err(String::from_str(ID_OUT_OF_RANGE));
        }
        match Status::from_text(row.status.as_str()) {
            None => {
                let head = prefixed(BAD_STATUS_HEAD, row.status.as_str());
                Err(head.concat(BAD_STATUS_TAIL))
            },
            Some(status) => Ok(
                Todo {
                    id: row.id as u64,
                    title: row.title,
                    description: row.description,
                    status,
                },
            ),
        }
    }

    /// Builds what an update writes: `self` is what the caller wants,
    /// `stored` is what the store holds, and the two flags say which of the
    /// stored texts are kept.
    pub fn merge_with(self, stored: &Todo, keep_title: bool, keep_description: bool) -> (result:
        Todo)
        ensures
            result@ == merged_with(self@, stored@, keep_title, keep_description),
    {
        let title = if keep_title {
            stored.title.clone()
        } else {
            self.title
        };
        let description = if keep_description {
            stored.description.clone()
        } else {
            self.description
        };
        Todo { id: self.id, title, description, status: self.status }
    }

    /// Applies the merge policy of an update: `self` is what the caller
    /// wants, `stored` is what the store holds.
    pub fn merge(self, stored: &Todo) -> (result: Todo)
        ensures
            result@ == merged(self@, stored@),
    {
        let keep_title = blank(self.title.as_str());
        let keep_description = blank(self.description.as_str());
        self.merge_with(stored, keep_title, keep_description)
    }
}

} // verus!
