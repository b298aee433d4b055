//! The decisions of a store that keeps responses in a database file.
use vstd::prelude::*;

use crate::models::responses::ResponseItem;
use crate::response_store;
use crate::response_store::response_item_id;
use crate::text;

verus! {

/// The version of the database schema.
pub const SQLITE_SCHEMA_VERSION: i64 = 4;

/// How many seconds a locked database is waited for.
pub const SQLITE_BUSY_TIMEOUT_SECONDS: u64 = 2;

/// What brings a database to the current schema.
#[derive(Debug, Clone, Copy, PartialEq, Eq, Structural)]
pub enum SchemaStep {
    /// It is new: stamp it with the version.
    Stamp,
    /// Build the index of items anew, then add the committed state.
    RebuildItemIndex,
    /// Add the committed state.
    AddCommittedState,
    /// It is current.
    Nothing,
    /// It is of a version that is not known.
    Refuse,
}

/// What brings a database of this version to the current schema.
pub fn schema_step(version: Option<i64>) -> (r: SchemaStep)
    ensures
        r == match version {
            None => SchemaStep::Stamp,
            Some(v) => if v == 1 || v == 2 {
                SchemaStep::RebuildItemIndex
            } else if v == 3 {
                SchemaStep::AddCommittedState
            } else if v == SQLITE_SCHEMA_VERSION {
                SchemaStep::Nothing
            } else {
                SchemaStep::Refuse
            },
        },
{
    match version {
        None => SchemaStep::Stamp,
        Some(v) => if v == 1 || v == 2 {
            SchemaStep::RebuildItemIndex
        } else if v == 3 {
            SchemaStep::AddCommittedState
        } else if v == SQLITE_SCHEMA_VERSION {
            SchemaStep::Nothing
        } else {
            SchemaStep::Refuse
        },
    }
}

/// How many rows of each kind there may be: at least one.
pub open spec fn rows_allowed(max_entries: usize) -> int {
    if max_entries == 0 {
        1
    } else if max_entries > i64::MAX {
        i64::MAX as int
    } else {
        max_entries as int
    }
}

/// How many rows of each kind there may be.
pub fn row_limit(max_entries: usize) -> (r: i64)
    ensures
        r == rows_allowed(max_entries),
{
    let entries: u64 = max_entries as u64;
    if entries == 0 {
        1
    } else if entries > 9223372036854775807 {
        i64::MAX
    } else {
        entries as i64
    }
}

/// Whether no further response can be pending beside `others`.
pub fn pending_is_full(others: i64, max_entries: usize) -> (r: bool)
    ensures
        r == (others >= rows_allowed(max_entries)),
{
    others >= row_limit(max_entries)
}

/// The access stamp after the latest one: one more, as far as numbers go.
pub fn next_access_stamp(latest: Option<i64>) -> (r: i64)
    ensures
        r == match latest {
            None => 1,
            Some(stamp) => if stamp == i64::MAX {
                stamp as int
            } else {
                stamp + 1
            },
        },
{
    match latest {
        None => 1,
        Some(stamp) => if stamp == i64::MAX {
            stamp
        } else {
            stamp + 1
        },
    }
}

/// The ids of the first `n` items that have one.
pub open spec fn item_ids(history: Seq<ResponseItem>, n: int) -> Seq<Seq<char>>
    decreases n,
{
    if n <= 0 || n > history.len() {
        Seq::empty()
    } else {
        match response_store::item_id(history[n - 1]) {
            Some(id) => item_ids(history, n - 1).push(id),
            None => item_ids(history, n - 1),
        }
    }
}

/// The ids under which a response is indexed.
pub fn indexed_item_ids(history: &Vec<ResponseItem>) -> (r: Vec<String>)
    ensures
        text::strings_view(r@) == item_ids(history@, history@.len() as int),
{
    let mut ids: Vec<String> = Vec::new();
    assert(text::strings_view(ids@) =~= Seq::<Seq<char>>::empty());
    let mut i: usize = 0;
    while i < history.len()
        invariant
            i <= history@.len(),
            text::strings_view(ids@) == item_ids(history@, i as int),
        decreases history@.len() - i,
    {
        if let Some(id) = response_item_id(&history[i]) {
            let ghost before = ids@;
            ids.push(id.to_owned());
            assert(text::strings_view(ids@) =~= text::strings_view(before).push(id@));
        }
        i += 1;
    }
    ids
}

/// As many rows are allowed as asked for, but at least one.
pub proof fn law_rows_are_allowed(max_entries: usize)
    ensures
        rows_allowed(max_entries) >= 1,
        1 <= max_entries <= i64::MAX ==> rows_allowed(max_entries) == max_entries,
        rows_allowed(max_entries) <= i64::MAX,
{
}

/// The ids of a history are those of its items, in their order.
pub proof fn law_ids_are_those_of_the_items(history: Seq<ResponseItem>, n: int, id: Seq<char>)
    requires
        0 <= n < history.len(),
    ensures
        item_ids(history, 0).len() == 0,
        response_store::item_id(history[n]) == Some(id) ==> item_ids(history, n + 1) == item_ids(
            history,
            n,
        ).push(id),
        response_store::item_id(history[n]) is None ==> item_ids(history, n + 1) == item_ids(
            history,
            n,
        ),
{
}

} // verus!
