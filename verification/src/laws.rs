//! Laws that hold of the repository's rules, for every input.

use crate::error::{store_failure, RepoErrorView};
use crate::query::{ParamView, QueryView};
use crate::repository::{
    added, all_decode, delete_outcome, found, listed, update_outcome, SAVE_FAILED,
};
use crate::setup::{
    setup_after, setup_next, steps, FailureKind, FailureView, SetupStep, SetupView,
};
use crate::status::{lemma_status_text_round_trip, Status};
use crate::text::is_blank;
use crate::todo::{decode_row, encode_row, key_of, merged, RowView, TodoView, ID_OUT_OF_RANGE};
use vstd::prelude::*;

verus! {

/// The empty text is blank.
pub proof fn lemma_empty_is_blank()
    ensures
        is_blank(Seq::<char>::empty()),
{
}

/// The merge policy of an update, field by field: a blank title keeps the
/// stored title and any other title replaces it; the same holds of the
/// description; the status is overwritten whatever it is; the identifier is
/// the caller's.  In particular an empty title or description keeps what is
/// stored.
pub proof fn lemma_merge_policy(wanted: TodoView, stored: TodoView)
    ensures
        merged(wanted, stored).id == wanted.id,
        merged(wanted, stored).status == wanted.status,
        is_blank(wanted.title) ==> merged(wanted, stored).title == stored.title,
        !is_blank(wanted.title) ==> merged(wanted, stored).title == wanted.title,
        is_blank(wanted.description) ==> merged(wanted, stored).description
            == stored.description,
        !is_blank(wanted.description) ==> merged(wanted, stored).description
            == wanted.description,
        wanted.title.len() == 0 ==> merged(wanted, stored).title == stored.title,
        wanted.description.len() == 0 ==> merged(wanted, stored).description
            == stored.description,
{
}

/// A repeated update changes nothing: once an update has written, the
/// same update over what is now stored writes the same again.
pub proof fn lemma_merge_is_idempotent(wanted: TodoView, stored: TodoView)
    ensures
        merged(wanted, merged(wanted, stored)) == merged(wanted, stored),
{
}

/// An update of a record that the store can hold, whose lookup found the
/// record and whose write succeeded, returns exactly the merged record.
pub proof fn lemma_update_returns_merged(wanted: TodoView, row: RowView, stored: TodoView)
    requires
        decode_row(row) == Ok::<TodoView, Seq<char>>(stored),
    ensures
        key_of(wanted.id) is Some ==> update_outcome(wanted, Ok(Some(row)), Ok(())) == Ok::<
            TodoView,
            RepoErrorView,
        >(merged(wanted, stored)),
{
}

/// An update succeeds exactly when the store has a key for the
/// identifier, the lookup found a record and the write succeeded.  When it
/// fails, the record that it reports as the earlier one is the record that
/// the lookup had found: none, where the record does not exist or could
/// not be read.  It fails as not found exactly when the store has no key
/// for the identifier or no row has the key, and never as unavailable.
pub proof fn lemma_update_snapshot(
    wanted: TodoView,
    read: Result<Option<RowView>, Seq<char>>,
    write: Result<(), Seq<char>>,
)
    ensures
        update_outcome(wanted, read, write) is Ok <==> key_of(wanted.id) is Some && found(read)
            is Some && write is Ok,
        update_outcome(wanted, read, write) matches Err(error) ==> {
            &&& key_of(wanted.id) is Some ==> error.previous() == found(read)
            &&& key_of(wanted.id) is None ==> error.previous() is None
            &&& error is NotFound <==> key_of(wanted.id) is None || read == Ok::<
                Option<RowView>,
                Seq<char>,
            >(None)
            &&& !(error is Unavailable)
        },
{
}

/// A removal succeeds exactly when the store has a key for the
/// identifier, the lookup found a record and the delete succeeded.  When it
/// fails, the record that it reports as the earlier one is the record that
/// the lookup had found: none, where the record does not exist or could
/// not be read.  It fails as not found exactly when the store has no key
/// for the identifier or no row has the key, and never as unavailable.
pub proof fn lemma_delete_snapshot(
    id: u64,
    read: Result<Option<RowView>, Seq<char>>,
    write: Result<(), Seq<char>>,
)
    ensures
        delete_outcome(id, read, write) is Ok <==> key_of(id) is Some && found(read) is Some
            && write is Ok,
        delete_outcome(id, read, write) matches Err(error) ==> {
            &&& key_of(id) is Some ==> error.previous() == found(read)
            &&& key_of(id) is None ==> error.previous() is None
            &&& error is NotFound <==> key_of(id) is None || read == Ok::<
                Option<RowView>,
                Seq<char>,
            >(None)
            &&& !(error is Unavailable)
        },
{
}

/// A created record carries the identifier that the store assigned,
/// whatever its size, echoes title and description and is incomplete.  The
/// store's key for that identifier is the one it assigned, so a later
/// update or removal by the identifier names that row.  A negative answer
/// of the store is no identifier: the creation fails.
pub proof fn lemma_created_record(title: Seq<char>, description: Seq<char>, raw: i64)
    ensures
        raw >= 0 ==> (added(title, description, Ok(raw)) matches Ok(created) && created.id == raw
            && key_of(created.id) == Some(raw) && created.title == title && created.description
            == description && created.status == Status::Incomplete),
        raw < 0 ==> added(title, description, Ok(raw)) == Err::<TodoView, RepoErrorView>(
            store_failure(SAVE_FAILED@, ID_OUT_OF_RANGE@, None),
        ),
{
}

/// A record that the store can hold is read back from the row under which
/// it is persisted.
pub proof fn lemma_row_round_trip(todo: TodoView)
    requires
        key_of(todo.id) is Some,
    ensures
        decode_row(encode_row(todo)) == Ok::<TodoView, Seq<char>>(todo),
        Some(encode_row(todo).id) == key_of(todo.id),
{
    lemma_status_text_round_trip(todo.status);
}

/// The insert of a creation binds, in the order of the columns, what the
/// row of the created record holds, and the key of that row is the
/// identifier that the store assigned.  So a creation returns the very
/// record that a later read of its row yields.
pub proof fn lemma_insert_binds_created_row(title: Seq<char>, description: Seq<char>, raw: i64)
    ensures
        added(title, description, Ok(raw)) matches Ok(created) ==> {
            let row = encode_row(created);
            let insert = QueryView::Insert { title, description, status: Status::Incomplete };
            &&& row.id == raw
            &&& insert.params() == seq![
                ParamView::Text(row.title),
                ParamView::Text(row.description),
                ParamView::Text(row.status),
            ]
            &&& decode_row(row) == Ok::<TodoView, Seq<char>>(created)
        },
{
    if raw >= 0 {
        lemma_row_round_trip(added(title, description, Ok(raw))->Ok_0);
    }
}

/// The write of an update binds what the row of the merged record holds,
/// and names that row by the store's key for the identifier the caller
/// gave.
pub proof fn lemma_update_binds_merged_row(wanted: TodoView, stored: TodoView)
    ensures
        key_of(wanted.id) matches Some(key) ==> {
            let result = merged(wanted, stored);
            let row = encode_row(result);
            let write = QueryView::Update {
                id: key,
                title: result.title,
                description: result.description,
                status: result.status,
            };
            &&& write.params() == seq![
                ParamView::Text(row.title),
                ParamView::Text(row.description),
                ParamView::Text(row.status),
                ParamView::Integer(row.id),
            ]
            &&& row.id == key
            &&& decode_row(row) == Ok::<TodoView, Seq<char>>(result)
        },
{
    if key_of(wanted.id) is Some {
        lemma_row_round_trip(merged(wanted, stored));
    }
}

/// Reading all records yields one record for each row, in the order of the
/// rows, where every row stands for a record; and fails otherwise.
pub proof fn lemma_list_is_rowwise(rows: Seq<RowView>)
    ensures
        listed(Ok(rows)) is Ok <==> all_decode(rows),
        listed(Ok(rows)) matches Ok(todos) ==> todos.len() == rows.len() && forall|i: int|
            0 <= i < rows.len() ==> decode_row(rows[i]) == Ok::<TodoView, Seq<char>>(
                #[trigger] todos[i],
            ),
        listed(Ok(Seq::<RowView>::empty())) == Ok::<Seq<TodoView>, RepoErrorView>(
            Seq::<TodoView>::empty(),
        ),
{
    assert(all_decode(Seq::<RowView>::empty()));
    assert(Seq::<RowView>::empty().map_values(|row: RowView| decode_row(row)->Ok_0)
        =~= Seq::<TodoView>::empty());
}

/// Every record of a list carries the identifier of its row: the store's
/// key for it is the key of the row at the same place.
pub proof fn lemma_list_shows_the_rows(rows: Seq<RowView>)
    ensures
        listed(Ok(rows)) matches Ok(todos) ==> forall|i: int|
            0 <= i < todos.len() ==> key_of(#[trigger] todos[i].id) == Some(rows[i].id),
{
    if all_decode(rows) {
        let todos = listed(Ok(rows))->Ok_0;
        assert forall|i: int| 0 <= i < todos.len() implies key_of(#[trigger] todos[i].id) == Some(
            rows[i].id,
        ) by {
            assert(decode_row(rows[i]) is Ok);
        }
    }
}

/// A list shows no record whose row is not among the rows read.  So once
/// a record's row is gone from the table, as after its removal, no later
/// list shows the record.
pub proof fn lemma_list_excludes_absent_rows(rows: Seq<RowView>, id: u64)
    requires
        forall|i: int| 0 <= i < rows.len() ==> Some(#[trigger] rows[i].id) != key_of(id),
    ensures
        listed(Ok(rows)) matches Ok(todos) ==> forall|i: int|
            0 <= i < todos.len() ==> (#[trigger] todos[i]).id != id,
{
    lemma_list_shows_the_rows(rows);
    if all_decode(rows) {
        let todos = listed(Ok(rows))->Ok_0;
        assert forall|i: int| 0 <= i < todos.len() implies (#[trigger] todos[i]).id != id by {
            assert(key_of(todos[i].id) == Some(rows[i].id));
        }
    }
}

/// Reading the rows under which records are persisted yields those
/// records, for records that the store can hold.
pub proof fn lemma_list_reads_back(todos: Seq<TodoView>)
    requires
        forall|i: int| 0 <= i < todos.len() ==> key_of(#[trigger] todos[i].id) is Some,
    ensures
        listed(Ok(todos.map_values(|todo: TodoView| encode_row(todo)))) == Ok::<
            Seq<TodoView>,
            RepoErrorView,
        >(todos),
{
    let rows = todos.map_values(|todo: TodoView| encode_row(todo));
    assert forall|i: int| 0 <= i < rows.len() implies (#[trigger] decode_row(rows[i])) == Ok::<
        TodoView,
        Seq<char>,
    >(todos[i]) by {
        lemma_row_round_trip(todos[i]);
    }
    assert(all_decode(rows));
    assert(rows.map_values(|row: RowView| decode_row(row)->Ok_0) =~= todos);
}

/// A database file that exists already is no failure: the initialization
/// goes on as if the file had just been created.
pub proof fn lemma_existing_file_is_reused(cause: Seq<char>)
    ensures
        setup_next(
            Some(
                (
                    SetupStep::CreateFile,
                    Err(FailureView { kind: FailureKind::AlreadyExists, cause }),
                ),
            ),
        ) == setup_next(Some((SetupStep::CreateFile, Ok(())))),
        setup_next(Some((SetupStep::CreateFile, Ok(())))) == SetupView::Run(
            SetupStep::EncodePath,
        ),
{
}

/// Whether the first `n` steps are done with the answers they got.
pub open spec fn done_through(replies: Seq<Result<(), FailureView>>, n: int) -> bool {
    forall|i: int| 0 <= i < n ==> (#[trigger] steps()[i]).done_with(replies[i])
}

/// A run of the initialization.  While every step so far is done, the
/// next step in order is named.  Readiness is reached exactly when all five
/// steps are done, and a failure exactly when a step is not: then what is
/// signalled is the failure text of the first such step, whatever was
/// answered later, and readiness is never reached.
pub proof fn lemma_setup_run(replies: Seq<Result<(), FailureView>>)
    ensures
        replies.len() < 5 && done_through(replies, replies.len() as int) ==> setup_after(replies)
            == SetupView::Run(steps()[replies.len() as int]),
        replies.len() >= 5 && done_through(replies, 5) ==> setup_after(replies)
            == SetupView::Ready,
        forall|k: int|
            0 <= k < replies.len() && k < 5 && done_through(replies, k) && !(
            #[trigger] steps()[k]).done_with(replies[k]) ==> setup_after(replies)
                == SetupView::Failed(steps()[k].failure_text(replies[k]->Err_0.cause)),
        setup_after(replies) is Ready <==> replies.len() >= 5 && done_through(replies, 5),
    decreases replies.len(),
{
    if replies.len() == 0 {
        assert(steps()[0] == SetupStep::CreateDirectory);
    } else {
        let before = replies.drop_last();
        let n = before.len() as int;
        lemma_setup_run(before);
        // The earlier answers are the same in both runs.
        assert forall|m: int| 0 <= m <= n implies done_through(before, m) == done_through(
            replies,
            m,
        ) by {
            assert forall|i: int| 0 <= i < m implies before[i] == replies[i] by {}
        }
        if n < 5 && done_through(before, n) {
            // The run had reached step `n`, and the last answer is the answer to it.
            assert(replies.last() == replies[n]);
            if steps()[n].done_with(replies[n]) {
                assert(done_through(replies, n + 1));
            } else {
                assert(!done_through(replies, 5)) by {
                    if done_through(replies, 5) {
                        assert(steps()[n].done_with(replies[n]));
                    }
                }
            }
        } else if n < 5 {
            // The run had failed before, and stays failed.
            let k = lemma_first_undone(before, n);
            assert(!done_through(replies, 5)) by {
                if done_through(replies, 5) {
                    assert(steps()[k].done_with(replies[k]));
                }
            }
        }
        assert forall|k: int|
            0 <= k < replies.len() && k < 5 && done_through(replies, k) && !(
            #[trigger] steps()[k]).done_with(replies[k]) implies setup_after(replies)
            == SetupView::Failed(steps()[k].failure_text(replies[k]->Err_0.cause)) by {
            if k < n {
                assert(before[k] == replies[k]);
            }
        }
    }
}

/// Where not every one of the first `n` steps is done, some step is the
/// first that is not.
proof fn lemma_first_undone(replies: Seq<Result<(), FailureView>>, n: int) -> (k: int)
    requires
        0 <= n,
        !done_through(replies, n),
    ensures
        0 <= k < n,
        done_through(replies, k),
        !steps()[k].done_with(replies[k]),
    decreases n,
{
    if done_through(replies, n - 1) {
        n - 1
    } else {
        lemma_first_undone(replies, n - 1)
    }
}

} // verus!
