//! Which rows of a store in a database file leave it: those that are expired, and of the
//! committed or of the pending ones the least recently used beyond the limit.
use vstd::prelude::*;

use crate::response_store::durable;
use crate::response_store::durable::row_limit;
use crate::text;

verus! {

/// What is known of a row.
#[derive(Debug, Clone)]
pub struct Row {
    /// Id of the response.
    pub id: String,
    /// When it expires, in seconds since the epoch.
    pub expires_at: i64,
    /// The stamp of its last use.
    pub last_access: i64,
    /// Whether it is committed, or else pending.
    pub committed: bool,
}

/// Whether a row is alive and of the kind that is looked at.
pub open spec fn is_rival(row: Row, now: i64, committed: bool) -> bool {
    row.expires_at > now && row.committed == committed
}

/// Whether `a` was used after `b`; of two that were used at once, the greater id counts
/// as the later one.
pub open spec fn used_after(a: Row, b: Row) -> bool {
    a.last_access > b.last_access || (a.last_access == b.last_access && text::before(b.id@, a.id@))
}

/// How many of the first `n` rows are alive, of that kind, and used after `row`.
pub open spec fn later_rivals(rows: Seq<Row>, row: Row, now: i64, committed: bool, n: int) -> int
    decreases n,
{
    if n <= 0 || n > rows.len() {
        0
    } else {
        later_rivals(rows, row, now, committed, n - 1) + if is_rival(rows[n - 1], now, committed)
            && used_after(rows[n - 1], row) {
            1int
        } else {
            0
        }
    }
}

/// Whether the row at `i` leaves when the committed or the pending rows are pruned.
pub open spec fn leaves(
    rows: Seq<Row>,
    i: int,
    now: i64,
    max_entries: usize,
    committed: bool,
) -> bool {
    rows[i].expires_at <= now || (rows[i].committed == committed && later_rivals(
        rows,
        rows[i],
        now,
        committed,
        rows.len() as int,
    ) >= durable::rows_allowed(max_entries))
}

/// How many of the first `n` rows are alive and of that kind.
pub open spec fn rivals(rows: Seq<Row>, now: i64, committed: bool, n: int) -> int
    decreases n,
{
    if n <= 0 || n > rows.len() {
        0
    } else {
        rivals(rows, now, committed, n - 1) + if is_rival(rows[n - 1], now, committed) {
            1int
        } else {
            0
        }
    }
}

/// Whether the row at `k` is of that kind and stays.
pub open spec fn stays(
    rows: Seq<Row>,
    k: int,
    now: i64,
    max_entries: usize,
    committed: bool,
) -> bool {
    rows[k].committed == committed && !leaves(rows, k, now, max_entries, committed)
}

/// How many of the first `n` rows are of that kind and stay.
pub open spec fn staying(
    rows: Seq<Row>,
    now: i64,
    max_entries: usize,
    committed: bool,
    n: int,
) -> int
    decreases n,
{
    if n <= 0 || n > rows.len() {
        0
    } else {
        staying(rows, now, max_entries, committed, n - 1) + if stays(
            rows,
            n - 1,
            now,
            max_entries,
            committed,
        ) {
            1int
        } else {
            0
        }
    }
}

fn is_used_after(a: &Row, b: &Row) -> (r: bool)
    ensures
        r == used_after(*a, *b),
{
    a.last_access > b.last_access || (a.last_access == b.last_access && text::is_before(
        b.id.as_str(),
        a.id.as_str(),
    ))
}

fn count_rivals(rows: &Vec<Row>, now: i64, committed: bool) -> (r: usize)
    ensures
        r == rivals(rows@, now, committed, rows@.len() as int),
{
    let mut count: usize = 0;
    let mut i: usize = 0;
    while i < rows.len()
        invariant
            i <= rows@.len(),
            count <= i,
            count == rivals(rows@, now, committed, i as int),
        decreases rows@.len() - i,
    {
        if rows[i].expires_at > now && rows[i].committed == committed {
            count += 1;
        }
        i += 1;
    }
    count
}

fn count_later_rivals(rows: &Vec<Row>, row: &Row, now: i64, committed: bool) -> (r: usize)
    ensures
        r == later_rivals(rows@, *row, now, committed, rows@.len() as int),
{
    let mut count: usize = 0;
    let mut i: usize = 0;
    while i < rows.len()
        invariant
            i <= rows@.len(),
            count <= i,
            count == later_rivals(rows@, *row, now, committed, i as int),
        decreases rows@.len() - i,
    {
        if rows[i].expires_at > now && rows[i].committed == committed && is_used_after(
            &rows[i],
            row,
        ) {
            count += 1;
        }
        i += 1;
    }
    count
}

/// Which rows leave when the committed or the pending rows are pruned.
pub fn rows_to_prune(rows: &Vec<Row>, now: i64, max_entries: usize, committed: bool) -> (r: Vec<
    bool,
>)
    ensures
        r@.len() == rows@.len(),
        forall|i: int|
            0 <= i < rows@.len() ==> #[trigger] r@[i] == leaves(
                rows@,
                i,
                now,
                max_entries,
                committed,
            ),
{
    let limit: u64 = row_limit(max_entries) as u64;
    let crowded = count_rivals(rows, now, committed) as u64 > limit;
    let mut out: Vec<bool> = Vec::new();
    let mut i: usize = 0;
    while i < rows.len()
        invariant
            i <= rows@.len(),
            limit == durable::rows_allowed(max_entries),
            crowded == (rivals(rows@, now, committed, rows@.len() as int) > limit),
            out@.len() == i,
            forall|k: int|
                0 <= k < i ==> #[trigger] out@[k] == leaves(rows@, k, now, max_entries, committed),
        decreases rows@.len() - i,
    {
        let row = &rows[i];
        let expired = row.expires_at <= now;
        let excess = crowded && row.committed == committed && count_later_rivals(
            rows,
            row,
            now,
            committed,
        ) as u64 >= limit;
        proof {
            if !crowded && !expired && row.committed == committed {
                lemma_later_are_fewer(rows@, i as int, now, committed, rows@.len() as int);
            }
        }
        out.push(expired || excess);
        i += 1;
    }
    out
}

// --- Laws --------------------------------------------------------------------------------------

/// Whether no two rows have the same id.
pub open spec fn distinct_ids(rows: Seq<Row>) -> bool {
    forall|i: int, j: int| 0 <= i < j < rows.len() ==> (#[trigger] rows[i]).id@ != (
    #[trigger] rows[j]).id@
}

proof fn lemma_later_are_fewer(rows: Seq<Row>, i: int, now: i64, committed: bool, n: int)
    requires
        0 <= i < rows.len(),
        0 <= n <= rows.len(),
        is_rival(rows[i], now, committed),
    ensures
        later_rivals(rows, rows[i], now, committed, n) + (if i < n {
            1int
        } else {
            0
        }) <= rivals(rows, now, committed, n),
    decreases n,
{
    if n > 0 {
        lemma_later_are_fewer(rows, i, now, committed, n - 1);
        text::lemma_before_irreflexive(rows[i].id@, 0);
    }
}

proof fn lemma_total(a: Row, b: Row)
    requires
        a.id@ != b.id@,
    ensures
        used_after(a, b) || used_after(b, a),
{
    assert(a.id@.take(0) =~= b.id@.take(0));
    text::lemma_before_total(a.id@, b.id@, 0);
}

proof fn lemma_transitive(a: Row, b: Row, c: Row)
    requires
        used_after(a, b),
        used_after(b, c),
    ensures
        used_after(a, c),
{
    if text::before(c.id@, b.id@) && text::before(b.id@, a.id@) {
        text::lemma_before_transitive(c.id@, b.id@, a.id@, 0);
    }
}

proof fn lemma_earlier_has_more(rows: Seq<Row>, i: int, j: int, now: i64, committed: bool, n: int)
    requires
        0 <= j < rows.len(),
        0 <= i < rows.len(),
        0 <= n <= rows.len(),
        is_rival(rows[j], now, committed),
        used_after(rows[j], rows[i]),
    ensures
        later_rivals(rows, rows[i], now, committed, n) >= later_rivals(
            rows,
            rows[j],
            now,
            committed,
            n,
        ) + (if j < n {
            1int
        } else {
            0
        }),
    decreases n,
{
    if n > 0 {
        lemma_earlier_has_more(rows, i, j, now, committed, n - 1);
        text::lemma_before_irreflexive(rows[j].id@, 0);
        if used_after(rows[n - 1], rows[j]) {
            lemma_transitive(rows[n - 1], rows[j], rows[i]);
        }
    }
}

proof fn lemma_first_to_stay(
    rows: Seq<Row>,
    now: i64,
    max_entries: usize,
    committed: bool,
    n: int,
) -> (m: int)
    requires
        distinct_ids(rows),
        0 <= n <= rows.len(),
        staying(rows, now, max_entries, committed, n) > 0,
    ensures
        0 <= m < n,
        stays(rows, m, now, max_entries, committed),
        forall|k: int|
            0 <= k < n && k != m && stays(rows, k, now, max_entries, committed) ==> used_after(
                #[trigger] rows[k],
                rows[m],
            ),
    decreases n,
{
    if staying(rows, now, max_entries, committed, n - 1) == 0 {
        lemma_none_stays(rows, now, max_entries, committed, n - 1);
        n - 1
    } else {
        let m = lemma_first_to_stay(rows, now, max_entries, committed, n - 1);
        lemma_total(rows[n - 1], rows[m]);
        if stays(rows, n - 1, now, max_entries, committed) && used_after(rows[m], rows[n - 1]) {
            assert forall|k: int|
                0 <= k < n && k != n - 1 && stays(rows, k, now, max_entries, committed) implies used_after(
                #[trigger] rows[k],
                rows[n - 1],
            ) by {
                if k != m {
                    lemma_transitive(rows[k], rows[m], rows[n - 1]);
                }
            }
            n - 1
        } else {
            m
        }
    }
}

proof fn lemma_none_stays(rows: Seq<Row>, now: i64, max_entries: usize, committed: bool, n: int)
    requires
        0 <= n <= rows.len(),
        staying(rows, now, max_entries, committed, n) <= 0,
    ensures
        staying(rows, now, max_entries, committed, n) == 0,
        forall|k: int| 0 <= k < n ==> !stays(rows, k, now, max_entries, committed),
    decreases n,
{
    if n > 0 {
        lemma_staying_not_negative(rows, now, max_entries, committed, n - 1);
        lemma_none_stays(rows, now, max_entries, committed, n - 1);
    }
}

proof fn lemma_staying_not_negative(
    rows: Seq<Row>,
    now: i64,
    max_entries: usize,
    committed: bool,
    n: int,
)
    ensures
        staying(rows, now, max_entries, committed, n) >= 0,
    decreases n,
{
    if 0 < n <= rows.len() {
        lemma_staying_not_negative(rows, now, max_entries, committed, n - 1);
    }
}

proof fn lemma_staying_are_later(
    rows: Seq<Row>,
    now: i64,
    max_entries: usize,
    committed: bool,
    m: int,
    n: int,
)
    requires
        0 <= n <= rows.len(),
        0 <= m < rows.len(),
        forall|k: int|
            0 <= k < rows.len() && k != m && stays(rows, k, now, max_entries, committed)
                ==> used_after(#[trigger] rows[k], rows[m]),
    ensures
        staying(rows, now, max_entries, committed, n) <= later_rivals(
            rows,
            rows[m],
            now,
            committed,
            n,
        ) + (if m < n {
            1int
        } else {
            0
        }),
    decreases n,
{
    if n > 0 {
        lemma_staying_are_later(rows, now, max_entries, committed, m, n - 1);
    }
}

/// No more rows of the pruned kind stay than the limit allows.
pub proof fn law_staying_rows_fit(rows: Seq<Row>, now: i64, max_entries: usize, committed: bool)
    requires
        distinct_ids(rows),
    ensures
        staying(rows, now, max_entries, committed, rows.len() as int) <= durable::rows_allowed(
            max_entries,
        ),
{
    let n = rows.len() as int;
    if staying(rows, now, max_entries, committed, n) > 0 {
        let m = lemma_first_to_stay(rows, now, max_entries, committed, n);
        lemma_staying_are_later(rows, now, max_entries, committed, m, n);
    }
}

/// A row that stays was used after every row of its kind that had to make room.
pub proof fn law_least_recently_used_rows_leave(
    rows: Seq<Row>,
    now: i64,
    max_entries: usize,
    committed: bool,
    i: int,
    j: int,
)
    requires
        distinct_ids(rows),
        0 <= i < rows.len(),
        0 <= j < rows.len(),
        stays(rows, i, now, max_entries, committed),
        is_rival(rows[j], now, committed),
        leaves(rows, j, now, max_entries, committed),
    ensures
        used_after(rows[i], rows[j]),
{
    assert(i != j);
    assert(rows[i].id@ != rows[j].id@);
    lemma_total(rows[i], rows[j]);
    if used_after(rows[j], rows[i]) {
        lemma_earlier_has_more(rows, i, j, now, committed, rows.len() as int);
    }
}

/// Pruning the rows of one kind takes no row of the other kind that is alive.
pub proof fn law_other_kind_stays(
    rows: Seq<Row>,
    now: i64,
    max_entries: usize,
    committed: bool,
    i: int,
)
    requires
        0 <= i < rows.len(),
        is_rival(rows[i], now, !committed),
    ensures
        !leaves(rows, i, now, max_entries, committed),
{
}

/// Where no more rows of a kind are alive than the limit allows, none has to make room.
pub proof fn law_rows_within_the_limit_stay(
    rows: Seq<Row>,
    now: i64,
    max_entries: usize,
    committed: bool,
    i: int,
)
    requires
        0 <= i < rows.len(),
        rows[i].expires_at > now,
        rivals(rows, now, committed, rows.len() as int) <= durable::rows_allowed(max_entries),
    ensures
        !leaves(rows, i, now, max_entries, committed),
{
    if rows[i].committed == committed {
        lemma_later_are_fewer(rows, i, now, committed, rows.len() as int);
    }
}

/// A row that has expired leaves, whatever its kind.
pub proof fn law_expired_row_leaves(
    rows: Seq<Row>,
    i: int,
    now: i64,
    max_entries: usize,
    committed: bool,
)
    ensures
        rows[i].expires_at <= now ==> leaves(rows, i, now, max_entries, committed),
{
}

/// Of two rows the one that was used later counts as later, and of two that were used at once
/// the one with the greater id.
pub proof fn law_use_orders_rows(a: Row, b: Row)
    ensures
        a.last_access > b.last_access ==> used_after(a, b) && !used_after(b, a),
        a.last_access == b.last_access && a.id@ != b.id@ ==> (used_after(a, b) <==> text::before(
            b.id@,
            a.id@,
        )) && (used_after(a, b) <==> !used_after(b, a)),
        !used_after(a, a),
{
    text::lemma_before_irreflexive(a.id@, 0);
    assert(a.id@.take(0) =~= b.id@.take(0));
    text::lemma_before_total(a.id@, b.id@, 0);
}

/// A row leaves for its number only where as many rows as there may be are alive, of its kind
/// and used later: one more such row makes one more rival, and any other row none.
pub proof fn law_rivals_are_counted(rows: Seq<Row>, row: Row, now: i64, committed: bool, n: int)
    requires
        0 <= n < rows.len(),
    ensures
        later_rivals(rows, row, now, committed, 0) == 0,
        rows[n].expires_at > now && rows[n].committed == committed && used_after(rows[n], row)
            ==> later_rivals(rows, row, now, committed, n + 1) == later_rivals(
            rows,
            row,
            now,
            committed,
            n,
        ) + 1,
        rows[n].expires_at <= now || rows[n].committed != committed || !used_after(rows[n], row)
            ==> later_rivals(rows, row, now, committed, n + 1) == later_rivals(
            rows,
            row,
            now,
            committed,
            n,
        ),
{
}

} // verus!
