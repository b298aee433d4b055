//! What a comparison of two requests shows, said of the two requests.
use vstd::prelude::*;

use crate::json;
use crate::json::JsonView;
use crate::json::NumberView;
use crate::request_log;
use crate::request_log::EntryView;
use crate::request_log::PairView;
use crate::text;

verus! {

// --- Differences -------------------------------------------------------------------------------

/// A value in which a zero that is no whole number has one text.
pub open spec fn zeroed(v: JsonView) -> JsonView
    decreases v,
{
    match v {
        JsonView::Number(NumberView::Decimal(t)) => JsonView::Number(
            NumberView::Decimal(
                if t == "-0.0"@ {
                    "0.0"@
                } else {
                    t
                },
            ),
        ),
        JsonView::Array(items) => JsonView::Array(
            Seq::new(
                items.len(),
                |i: int|
                    if 0 <= i < items.len() {
                        zeroed(items[i])
                    } else {
                        JsonView::Null
                    },
            ),
        ),
        JsonView::Object(m) => JsonView::Object(
            Seq::new(
                m.len(),
                |i: int|
                    if 0 <= i < m.len() {
                        (m[i].0, zeroed(m[i].1))
                    } else {
                        (seq![], JsonView::Null)
                    },
            ),
        ),
        _ => v,
    }
}

proof fn lemma_zeroed_member(m: Seq<(Seq<char>, JsonView)>, key: Seq<char>)
    ensures
        json::member(zeroed(JsonView::Object(m))->Object_0, key) == (match json::member(m, key) {
            Some(v) => Some(zeroed(v)),
            None => None,
        }),
{
    let z = zeroed(JsonView::Object(m))->Object_0;
    json::lemma_key_index(m, key, 0);
    json::lemma_key_index(z, key, 0);
    let i = json::key_index(m, key, 0);
    let j = json::key_index(z, key, 0);
    if i < m.len() {
        assert(z[i].0 == key);
        if j < i {
            assert(m[j].0 == z[j].0);
        } else if i < j {
            assert(z[i].0 != key);
        }
    } else if j < z.len() {
        assert(m[j].0 == z[j].0);
    }
}

proof fn lemma_zeroed_ascends(m: Seq<(Seq<char>, JsonView)>)
    requires
        json::keys_ascend(m),
    ensures
        json::keys_ascend(zeroed(JsonView::Object(m))->Object_0),
{
    let z = zeroed(JsonView::Object(m))->Object_0;
    assert forall|i: int, j: int| 0 <= i < j < z.len() implies text::before(
        (#[trigger] z[i]).0,
        (#[trigger] z[j]).0,
    ) by {
        assert(text::before(m[i].0, m[j].0));
    }
}

/// Two values without a difference are the same value, but for the two texts of a zero that
/// is no whole number.
pub proof fn law_values_without_difference_are_the_same(path: Seq<char>, l: JsonView, r: JsonView)
    requires
        request_log::has_no_key_twice(l),
        request_log::has_no_key_twice(r),
        request_log::diff_paths(path, l, r).len() == 0,
    ensures
        zeroed(l) == zeroed(r),
    decreases l, 0nat,
{
    match (l, r) {
        (JsonView::Object(lm), JsonView::Object(rm)) => {
            let a = zeroed(l)->Object_0;
            let b = zeroed(r)->Object_0;
            assert(request_log::diff_members(path, lm, rm, lm.len()).len() == 0);
            assert(request_log::new_members(path, lm, rm, rm.len() as int).len() == 0);
            lemma_same_members(path, lm, rm, lm.len());
            lemma_no_new(path, lm, rm, rm.len() as int);
            lemma_zeroed_ascends(lm);
            lemma_zeroed_ascends(rm);
            assert forall|k: Seq<char>| #[trigger] json::member(a, k) == json::member(b, k) by {
                lemma_zeroed_member(lm, k);
                lemma_zeroed_member(rm, k);
                json::lemma_key_index(lm, k, 0);
                json::lemma_key_index(rm, k, 0);
                let i = json::key_index(lm, k, 0);
                let j = json::key_index(rm, k, 0);
                if i < lm.len() {
                    assert(same_at(lm, rm, i));
                } else if j < rm.len() {
                    assert(json::has_member(lm, rm[j].0));
                }
            }
            json::law_members_decide(a, b);
        },
        (JsonView::Array(li), JsonView::Array(ri)) => {
            let n = if li.len() <= ri.len() {
                li.len()
            } else {
                ri.len()
            };
            assert(request_log::diff_items(path, li, ri, n).len() == 0);
            assert(li.len() == ri.len());
            lemma_same_items(path, li, ri, n);
            assert(zeroed(l)->Array_0 =~= zeroed(r)->Array_0);
        },
        _ => {
            reveal_strlit("0.0");
            reveal_strlit("-0.0");
        },
    }
}

/// The member at `i` on the left is on the right too, and is the same there.
spec fn same_at(l: Seq<(Seq<char>, JsonView)>, r: Seq<(Seq<char>, JsonView)>, i: int) -> bool {
    json::member(r, l[i].0) is Some && zeroed(l[i].1) == zeroed(json::member(r, l[i].0)->0)
}

proof fn lemma_part_has_no_key_twice(m: Seq<(Seq<char>, JsonView)>, n: nat, i: int)
    requires
        0 <= i < n <= m.len(),
        request_log::members_have_no_key_twice(m, n),
    ensures
        request_log::has_no_key_twice(m[i].1),
    decreases n,
{
    if i < n - 1 {
        lemma_part_has_no_key_twice(m, (n - 1) as nat, i);
    }
}

proof fn lemma_item_has_no_key_twice(items: Seq<JsonView>, n: nat, i: int)
    requires
        0 <= i < n <= items.len(),
        request_log::items_have_no_key_twice(items, n),
    ensures
        request_log::has_no_key_twice(items[i]),
    decreases n,
{
    if i < n - 1 {
        lemma_item_has_no_key_twice(items, (n - 1) as nat, i);
    }
}

proof fn lemma_same_members(
    path: Seq<char>,
    l: Seq<(Seq<char>, JsonView)>,
    r: Seq<(Seq<char>, JsonView)>,
    n: nat,
)
    requires
        n <= l.len(),
        request_log::members_have_no_key_twice(l, n),
        request_log::members_have_no_key_twice(r, r.len()),
        request_log::diff_members(path, l, r, n).len() == 0,
    ensures
        forall|i: int| 0 <= i < n ==> #[trigger] same_at(l, r, i),
    decreases l, n,
{
    if n > 0 {
        lemma_same_members(path, l, r, (n - 1) as nat);
        let (key, value) = l[n - 1];
        json::lemma_key_index(r, key, 0);
        let j = json::key_index(r, key, 0);
        assert(json::member(r, key) is Some);
        lemma_part_has_no_key_twice(r, r.len(), j);
        law_values_without_difference_are_the_same(
            request_log::child(path, key),
            l[n - 1].1,
            r[j].1,
        );
        assert(same_at(l, r, n - 1));
    }
}

proof fn lemma_no_new(
    path: Seq<char>,
    l: Seq<(Seq<char>, JsonView)>,
    r: Seq<(Seq<char>, JsonView)>,
    n: int,
)
    requires
        0 <= n <= r.len(),
        request_log::new_members(path, l, r, n).len() == 0,
    ensures
        forall|j: int| 0 <= j < n ==> json::has_member(l, (#[trigger] r[j]).0),
    decreases n,
{
    if n > 0 {
        lemma_no_new(path, l, r, n - 1);
    }
}

proof fn lemma_same_items(path: Seq<char>, l: Seq<JsonView>, r: Seq<JsonView>, n: nat)
    requires
        n <= l.len(),
        n <= r.len(),
        request_log::items_have_no_key_twice(l, l.len()),
        request_log::items_have_no_key_twice(r, r.len()),
        request_log::diff_items(path, l, r, n).len() == 0,
    ensures
        forall|i: int| 0 <= i < n ==> zeroed(#[trigger] l[i]) == zeroed(r[i]),
    decreases l, n,
{
    if n > 0 {
        lemma_same_items(path, l, r, (n - 1) as nat);
        lemma_item_has_no_key_twice(l, l.len(), n - 1);
        lemma_item_has_no_key_twice(r, r.len(), n - 1);
        law_values_without_difference_are_the_same(
            text::indexed(path, n - 1),
            l[n - 1],
            r[n - 1],
        );
    }
}

/// Two values of which one is neither an array nor an object differ at their own path, where
/// they differ.
pub proof fn law_other_value_is_named(path: Seq<char>, l: JsonView, r: JsonView)
    requires
        !(l is Object && r is Object),
        !(l is Array && r is Array),
        zeroed(l) != zeroed(r),
    ensures
        request_log::diff_paths(path, l, r) == seq![path],
{
    reveal_strlit("0.0");
    reveal_strlit("-0.0");
}

proof fn lemma_members_listed(
    path: Seq<char>,
    l: Seq<(Seq<char>, JsonView)>,
    r: Seq<(Seq<char>, JsonView)>,
    n: nat,
    p: Seq<char>,
)
    requires
        n <= l.len(),
    ensures
        request_log::diff_members(path, l, r, n).contains(p) <==> exists|i: int|
            0 <= i < n && (match json::member(r, (#[trigger] l[i]).0) {
                Some(other) => request_log::diff_paths(
                    request_log::child(path, l[i].0),
                    l[i].1,
                    other,
                ).contains(p),
                None => p == request_log::child(path, l[i].0),
            }),
    decreases n,
{
    if n > 0 {
        lemma_members_listed(path, l, r, (n - 1) as nat, p);
        let rest = request_log::diff_members(path, l, r, (n - 1) as nat);
        let last = match json::member(r, l[n - 1].0) {
            Some(other) => request_log::diff_paths(
                request_log::child(path, l[n - 1].0),
                l[n - 1].1,
                other,
            ),
            None => seq![request_log::child(path, l[n - 1].0)],
        };
        assert(request_log::diff_members(path, l, r, n) == rest + last);
        lemma_sum_contains(rest, last, p);
        if json::member(r, l[n - 1].0) is None {
            assert(last[0] == request_log::child(path, l[n - 1].0));
        }
    }
}

proof fn lemma_sum_contains<T>(a: Seq<T>, b: Seq<T>, x: T)
    ensures
        (a + b).contains(x) <==> a.contains(x) || b.contains(x),
{
    let all = a + b;
    if a.contains(x) {
        let i = choose|i: int| 0 <= i < a.len() && a[i] == x;
        assert(all[i] == x);
    }
    if b.contains(x) {
        let i = choose|i: int| 0 <= i < b.len() && b[i] == x;
        assert(all[a.len() + i] == x);
    }
    if all.contains(x) {
        let i = choose|i: int| 0 <= i < all.len() && all[i] == x;
        if i < a.len() {
            assert(a[i] == x);
        } else {
            assert(b[i - a.len()] == x);
        }
    }
}

proof fn lemma_new_listed(
    path: Seq<char>,
    l: Seq<(Seq<char>, JsonView)>,
    r: Seq<(Seq<char>, JsonView)>,
    n: int,
    p: Seq<char>,
)
    requires
        0 <= n <= r.len(),
    ensures
        request_log::new_members(path, l, r, n).contains(p) <==> exists|j: int|
            0 <= j < n && !json::has_member(l, (#[trigger] r[j]).0) && p == request_log::child(
                path,
                r[j].0,
            ),
    decreases n,
{
    if n > 0 {
        lemma_new_listed(path, l, r, n - 1, p);
        let rest = request_log::new_members(path, l, r, n - 1);
        if !json::has_member(l, r[n - 1].0) {
            let x = request_log::child(path, r[n - 1].0);
            lemma_sum_contains(rest, seq![x], p);
            assert(rest.push(x) =~= rest + seq![x]);
            assert(seq![x][0] == x);
        }
    }
}

/// Two objects differ in each member that is on one side alone, by its key, and in whatever
/// their common members differ; nowhere else.
pub proof fn law_object_differences(
    path: Seq<char>,
    l: Seq<(Seq<char>, JsonView)>,
    r: Seq<(Seq<char>, JsonView)>,
    p: Seq<char>,
)
    ensures
        request_log::diff_paths(path, JsonView::Object(l), JsonView::Object(r)).contains(p) <==> (
        (exists|i: int|
            0 <= i < l.len() && (match json::member(r, (#[trigger] l[i]).0) {
                Some(other) => request_log::diff_paths(
                    path + "."@ + l[i].0,
                    l[i].1,
                    other,
                ).contains(p),
                None => p == path + "."@ + l[i].0,
            })) || (exists|j: int|
            0 <= j < r.len() && json::member(l, (#[trigger] r[j]).0) is None && p == path + "."@
                + r[j].0)),
{
    lemma_members_listed(path, l, r, l.len(), p);
    lemma_new_listed(path, l, r, r.len() as int, p);
    lemma_sum_contains(
        request_log::diff_members(path, l, r, l.len()),
        request_log::new_members(path, l, r, r.len() as int),
        p,
    );
}

proof fn lemma_items_listed(
    path: Seq<char>,
    l: Seq<JsonView>,
    r: Seq<JsonView>,
    n: nat,
    p: Seq<char>,
)
    requires
        n <= l.len(),
    ensures
        request_log::diff_items(path, l, r, n).contains(p) <==> exists|i: int|
            0 <= i < n && request_log::diff_paths(
                text::indexed(path, i),
                #[trigger] l[i],
                r[i],
            ).contains(p),
    decreases n,
{
    if n > 0 {
        lemma_items_listed(path, l, r, (n - 1) as nat, p);
        lemma_sum_contains(
            request_log::diff_items(path, l, r, (n - 1) as nat),
            request_log::diff_paths(text::indexed(path, n - 1), l[n - 1], r[n - 1]),
            p,
        );
    }
}

/// Two arrays differ in whatever the elements that both have differ, each by its index, and
/// in their length, where that differs; nowhere else.
pub proof fn law_array_differences(
    path: Seq<char>,
    l: Seq<JsonView>,
    r: Seq<JsonView>,
    p: Seq<char>,
)
    ensures
        request_log::diff_paths(path, JsonView::Array(l), JsonView::Array(r)).contains(p) <==> ((
        exists|i: int|
            0 <= i < l.len() && i < r.len() && request_log::diff_paths(
                text::indexed(path, i),
                #[trigger] l[i],
                r[i],
            ).contains(p)) || (l.len() != r.len() && p == path + "[len]"@)),
{
    let n = if l.len() <= r.len() {
        l.len()
    } else {
        r.len()
    };
    lemma_items_listed(path, l, r, n, p);
    let tail = if l.len() != r.len() {
        seq![path + "[len]"@]
    } else {
        seq![]
    };
    lemma_sum_contains(request_log::diff_items(path, l, r, n), tail, p);
    if l.len() != r.len() {
        assert(tail[0] == path + "[len]"@);
    }
}

// --- Previews -----------------------------------------------------------------------------------

/// The bytes of a text in UTF-8, character by character.
pub open spec fn width(t: Seq<char>) -> nat
    decreases t.len(),
{
    if t.len() == 0 {
        0
    } else {
        width(t.drop_last()) + request_log::char_width(t.last())
    }
}

proof fn lemma_chars_before(t: Seq<char>, i: int, boundary: nat)
    requires
        0 <= i <= t.len(),
    ensures
        ({
            let n = request_log::chars_before(t, i, width(t.take(i)), boundary) as int;
            &&& i + n <= t.len()
            &&& n > 0 ==> width(t.take(i + n - 1)) < boundary
            &&& i + n < t.len() ==> width(t.take(i + n)) >= boundary
        }),
    decreases t.len() - i,
{
    if i < t.len() && width(t.take(i)) < boundary {
        assert(t.take(i + 1).drop_last() =~= t.take(i));
        assert(t.take(i + 1).last() == t[i]);
        lemma_chars_before(t, i + 1, boundary);
    }
}

/// A preview shows, on the two sides of a bar, the 32 characters before the boundary and the
/// 48 from it on, as far as there are any. The boundary is before the first character that
/// does not start before the given byte.
pub proof fn law_preview_shows_the_boundary(t: Seq<char>, boundary: nat) -> (at: int)
    ensures
        0 <= at <= t.len(),
        at > 0 ==> width(t.take(at - 1)) < boundary,
        at < t.len() ==> width(t.take(at)) >= boundary,
        text::has_part(
            request_log::preview(t, boundary),
            request_log::sanitized(
                t.subrange(
                    if at > 32 {
                        at - 32
                    } else {
                        0
                    },
                    at,
                ),
                0,
            ) + "|"@ + request_log::sanitized(
                t.subrange(
                    at,
                    if at + 48 < t.len() {
                        at + 48
                    } else {
                        t.len() as int
                    },
                ),
                0,
            ),
        ),
{
    let at = request_log::chars_before(t, 0, 0, boundary) as int;
    assert(t.take(0).len() == 0);
    lemma_chars_before(t, 0, boundary);
    let start = if at > 32 {
        at - 32
    } else {
        0
    };
    let end = if at + 48 < t.len() {
        at + 48
    } else {
        t.len() as int
    };
    let shown = request_log::sanitized(t.subrange(start, at), 0) + "|"@ + request_log::sanitized(
        t.subrange(at, end),
        0,
    );
    let before = if start > 0 {
        "…"@
    } else {
        ""@
    };
    let after = if end < t.len() {
        "…"@
    } else {
        ""@
    };
    assert(request_log::preview(t, boundary) =~= before + shown + after);
    lemma_middle(before, shown, after);
    at
}

/// A shown text has no line end and no tab, and is the text where that has none.
pub proof fn law_shown_text_is_on_one_line(t: Seq<char>, i: int, k: int)
    requires
        0 <= i <= t.len(),
    ensures
        0 <= k < request_log::sanitized(t, i).len() ==> request_log::sanitized(t, i)[k] != '\n'
            && request_log::sanitized(t, i)[k] != '\r' && request_log::sanitized(t, i)[k] != '\t',
        (forall|j: int|
            i <= j < t.len() ==> (#[trigger] t[j]) != '\n' && t[j] != '\r' && t[j] != '\t')
            ==> request_log::sanitized(t, i) == t.skip(i),
    decreases t.len() - i,
{
    reveal_strlit("\\n");
    reveal_strlit("\\r");
    reveal_strlit("\\t");
    if i < t.len() {
        let head = request_log::shown_char(t[i]);
        law_shown_text_is_on_one_line(t, i + 1, k - head.len());
        let rest = request_log::sanitized(t, i + 1);
        if 0 <= k < request_log::sanitized(t, i).len() {
            if k < head.len() {
                assert(request_log::sanitized(t, i)[k] == head[k]);
            } else {
                assert(request_log::sanitized(t, i)[k] == rest[k - head.len()]);
            }
        }
        assert(seq![t[i]] + t.skip(i + 1) =~= t.skip(i));
    } else {
        assert(t.skip(i) =~= Seq::<char>::empty());
    }
}

proof fn lemma_agree_until(left: Seq<u8>, right: Seq<u8>, i: int)
    requires
        0 <= i <= left.len(),
        i <= right.len(),
        left.take(i) == right.take(i),
    ensures
        request_log::is_common_prefix(left, right, request_log::agree_until(left, right, i)),
    decreases left.len() - i,
{
    if i < left.len() && i < right.len() && left[i] == right[i] {
        assert(left.take(i + 1) =~= left.take(i).push(left[i]));
        assert(right.take(i + 1) =~= right.take(i).push(right[i]));
        lemma_agree_until(left, right, i + 1);
    }
}

// --- Pairs --------------------------------------------------------------------------------------

/// What is told of a pair is told of its two requests, each on its own side; and what they
/// share is the longest start that both have.
pub proof fn law_pair_is_of_its_requests(a: EntryView, b: EntryView)
    ensures
        request_log::compared(a, b).previous_line == a.line_number,
        request_log::compared(a, b).current_line == b.line_number,
        request_log::compared(a, b).previous_len == vstd::utf8::encode_utf8(a.raw).len(),
        request_log::compared(a, b).current_len == vstd::utf8::encode_utf8(b.raw).len(),
        request_log::is_common_prefix(
            vstd::utf8::encode_utf8(a.raw),
            vstd::utf8::encode_utf8(b.raw),
            request_log::compared(a, b).common_prefix_bytes,
        ),
        request_log::compared(a, b).differing_paths == request_log::diff_paths(
            "$"@,
            a.value,
            b.value,
        ),
        request_log::compared(a, b).previous_boundary_preview == request_log::preview(
            a.raw,
            request_log::compared(a, b).common_prefix_bytes as nat,
        ),
        request_log::compared(a, b).current_boundary_preview == request_log::preview(
            b.raw,
            request_log::compared(a, b).common_prefix_bytes as nat,
        ),
{
    let x = vstd::utf8::encode_utf8(a.raw);
    let y = vstd::utf8::encode_utf8(b.raw);
    assert(x.take(0) =~= y.take(0));
    lemma_agree_until(x, y, 0);
}

/// As many pairs are compared as are asked for, though at least one, as far as there are
/// requests; each is of two requests that follow each other.
pub proof fn law_pairs_are_consecutive(entries: Seq<EntryView>, max_pairs: nat, i: int)
    requires
        0 <= i < request_log::pairs_of(entries, max_pairs).len(),
    ensures
        i + 1 < entries.len(),
        i < max_pairs || i == 0,
        request_log::pairs_of(entries, max_pairs)[i] == request_log::compared(
            entries[i],
            entries[i + 1],
        ),
        request_log::pairs_of(entries, max_pairs).len() < max_pairs
            ==> request_log::pairs_of(entries, max_pairs).len() + 1 == entries.len(),
{
}

/// Where there are two requests, there is a pair.
pub proof fn law_two_requests_are_a_pair(entries: Seq<EntryView>, max_pairs: nat)
    ensures
        request_log::pairs_of(entries, max_pairs).len() > 0 <==> entries.len() >= 2,
{
}

/// The pair that is called the worst shares no more bytes than any other, and is the first
/// such one.
pub proof fn law_worst_pair_shares_least(pairs: Seq<PairView>, n: int, k: int)
    requires
        0 <= k < n <= pairs.len(),
    ensures
        0 <= request_log::worst_pair(pairs, n) < n,
        pairs[request_log::worst_pair(pairs, n)].common_prefix_bytes
            <= pairs[k].common_prefix_bytes,
        k < request_log::worst_pair(pairs, n) ==> pairs[request_log::worst_pair(
            pairs,
            n,
        )].common_prefix_bytes < pairs[k].common_prefix_bytes,
    decreases n,
{
    if n > 1 {
        if k < n - 1 {
            law_worst_pair_shares_least(pairs, n - 1, k);
        } else {
            law_worst_pair_shares_least(pairs, n - 1, 0);
        }
    }
}

/// The differences of all pairs are those of each of them.
pub proof fn law_all_differences_are_counted(pairs: Seq<PairView>, n: int, p: Seq<char>)
    requires
        0 <= n <= pairs.len(),
    ensures
        request_log::all_paths(pairs, n).contains(p) <==> exists|k: int|
            0 <= k < n && (#[trigger] pairs[k]).differing_paths.contains(p),
    decreases n,
{
    if n > 0 {
        law_all_differences_are_counted(pairs, n - 1, p);
        lemma_sum_contains(
            request_log::all_paths(pairs, n - 1),
            pairs[n - 1].differing_paths,
            p,
        );
    }
}

// --- Lines --------------------------------------------------------------------------------------

/// Every request of a log stands on a line of its own, in order, and is what its text says.
pub proof fn law_entries_are_lines(t: Seq<char>, i: int, n: int, k: int)
    requires
        0 <= i,
        request_log::entries_from(t, i, n) is Ok,
        0 <= k < request_log::entries_from(t, i, n)->Ok_0.len(),
    ensures
        request_log::entries_from(t, i, n)->Ok_0[k].line_number >= n + k,
        request_log::entries_from(t, i, n)->Ok_0[k].raw.len() > 0,
        json::parsed_json(request_log::entries_from(t, i, n)->Ok_0[k].raw) == Ok::<
            JsonView,
            Seq<char>,
        >(request_log::entries_from(t, i, n)->Ok_0[k].value),
        k > 0 ==> request_log::entries_from(t, i, n)->Ok_0[k - 1].line_number
            < request_log::entries_from(t, i, n)->Ok_0[k].line_number,
    decreases t.len() + 1 - i,
{
    let e = request_log::line_end(t, i);
    let raw = text::trimmed(t.subrange(i, e));
    let all = request_log::entries_from(t, i, n)->Ok_0;
    if raw.len() == 0 {
        law_entries_are_lines(t, e + 1, n + 1, k);
    } else {
        let rest = request_log::entries_from(t, e + 1, n + 1)->Ok_0;
        assert(all.len() == rest.len() + 1);
        if k > 0 {
            law_entries_are_lines(t, e + 1, n + 1, k - 1);
            assert(all[k] == rest[k - 1]);
            if k > 1 {
                assert(all[k - 1] == rest[k - 2]);
            }
        }
    }
}

// --- The report ---------------------------------------------------------------------------------

proof fn lemma_middle(a: Seq<char>, b: Seq<char>, c: Seq<char>)
    ensures
        text::has_part(a + b + c, b),
{
    let all = a + b + c;
    assert(all.subrange(a.len() as int, (a.len() + b.len()) as int) =~= b);
    assert(text::holds_at(all, a.len() as int, b));
}

/// The lines on a pair name its two lines, how much they share, where they differ, and show
/// the first and the second, each announced as such.
pub proof fn law_pair_is_told(p: PairView, of_previous: Seq<char>, of_current: Seq<char>)
    ensures
        text::has_part(
            request_log::pair_text(p, of_previous, of_current),
            "\nlines "@ + text::decimal(p.previous_line as nat) + " -> "@ + text::decimal(
                p.current_line as nat,
            ) + ": common prefix "@ + text::decimal(p.common_prefix_bytes as nat) + " byte(s) ("@
                + of_previous + "% of previous, "@ + of_current + "% of current)\n"@,
        ),
        text::has_part(
            request_log::pair_text(p, of_previous, of_current),
            "  previous boundary: "@ + p.previous_boundary_preview,
        ),
        text::has_part(
            request_log::pair_text(p, of_previous, of_current),
            "\n  current boundary:  "@ + p.current_boundary_preview + "\n"@,
        ),
        p.differing_paths.len() > 0 ==> text::has_part(
            request_log::pair_text(p, of_previous, of_current),
            "  changed paths ("@ + text::decimal(p.differing_paths.len()) + "): "@ + text::join(
                p.differing_paths,
                ", "@,
            ) + "\n"@,
        ),
{
    let head = pair_head(p, of_previous, of_current);
    let changed = request_log::changed_text(p);
    let previous = "  previous boundary: "@ + p.previous_boundary_preview;
    let current = "\n  current boundary:  "@ + p.current_boundary_preview + "\n"@;
    let none = Seq::<char>::empty();
    lemma_pair_parts(p, of_previous, of_current);
    assert(none + head =~= head);
    lemma_grouped(head, changed, previous);
    lemma_grouped(head, changed + previous, current);
    lemma_middle(none, head, changed + previous + current);
    lemma_grouped(head + changed, previous, current);
    lemma_middle(head, changed, previous + current);
    lemma_middle(head + changed, previous, current);
    assert(head + changed + previous + current + none =~= head + changed + previous + current);
    lemma_middle(head + changed + previous, current, none);
}

/// How the lines on a pair start.
pub open spec fn pair_head(p: PairView, of_previous: Seq<char>, of_current: Seq<char>) -> Seq<
    char,
> {
    "\nlines "@ + text::decimal(p.previous_line as nat) + " -> "@ + text::decimal(
        p.current_line as nat,
    ) + ": common prefix "@ + text::decimal(p.common_prefix_bytes as nat) + " byte(s) ("@
        + of_previous + "% of previous, "@ + of_current + "% of current)\n"@
}

proof fn lemma_grouped(a: Seq<char>, b: Seq<char>, c: Seq<char>)
    ensures
        a + b + c == a + (b + c),
{
    assert(a + b + c =~= a + (b + c));
}

proof fn lemma_pair_parts(p: PairView, of_previous: Seq<char>, of_current: Seq<char>)
    ensures
        request_log::pair_text(p, of_previous, of_current) == pair_head(p, of_previous, of_current)
            + request_log::changed_text(p) + ("  previous boundary: "@
            + p.previous_boundary_preview) + ("\n  current boundary:  "@
            + p.current_boundary_preview + "\n"@),
{
    let first = text::decimal(p.previous_line as nat);
    let second = text::decimal(p.current_line as nat);
    lemma_grouped("\nlines "@, first + " -> "@, second);
    lemma_grouped("\nlines "@, first, " -> "@);
    let start = pair_head(p, of_previous, of_current) + request_log::changed_text(p);
    lemma_grouped(start, "  previous boundary: "@, p.previous_boundary_preview);
    let upto = start + ("  previous boundary: "@ + p.previous_boundary_preview);
    lemma_grouped(upto, "\n  current boundary:  "@, p.current_boundary_preview);
    lemma_grouped(upto, "\n  current boundary:  "@ + p.current_boundary_preview, "\n"@);
}

/// A path is counted once for each place at which it stands.
pub proof fn law_path_is_counted_by_places(paths: Seq<Seq<char>>, p: Seq<char>, n: int)
    requires
        0 <= n < paths.len(),
        request_log::path_count(paths, p, n) < usize::MAX,
    ensures
        request_log::path_count(paths, p, 0) == 0,
        request_log::path_count(paths, p, n + 1) == request_log::path_count(paths, p, n) + (
        if paths[n] == p {
            1nat
        } else {
            0
        }),
{
}

/// Of the paths that are shown each is counted, the more frequent come first, and of two that
/// are as frequent the first by name; a path that is not shown is not more frequent than one
/// that is.
pub proof fn law_most_frequent_paths_are_shown(
    paths: Seq<Seq<char>>,
    top: Seq<(Seq<char>, nat)>,
    i: int,
    j: int,
    k: int,
)
    requires
        request_log::are_most_frequent(paths, top),
        0 <= i < j < top.len(),
        0 <= k < paths.len(),
    ensures
        top.len() <= 10,
        top[i].1 == request_log::path_count(paths, top[i].0, paths.len() as int),
        top[i].1 > top[j].1 || (top[i].1 == top[j].1 && text::before(top[i].0, top[j].0)),
        (exists|t: int| 0 <= t < top.len() && (#[trigger] top[t]).0 == paths[k])
            || request_log::path_count(paths, paths[k], paths.len() as int) <= top[i].1,
{
    let all = choose|all: Seq<(Seq<char>, nat)>|
        #![trigger request_log::counts_paths(paths, all)]
        request_log::counts_paths(paths, all) && request_log::is_ranked(all) && top == all.take(
            if all.len() <= 10 {
                all.len() as int
            } else {
                10
            },
        );
    assert(top[i] == all[i] && top[j] == all[j]);
    assert(request_log::ranks_before(all[i], all[j]));
    assert(request_log::has_path(all, paths[k]));
    let t = choose|t: int| 0 <= t < all.len() && (#[trigger] all[t]).0 == paths[k];
    if t < top.len() {
        assert(top[t] == all[t]);
    } else {
        assert(request_log::ranks_before(all[i], all[t]));
    }
}

/// The head of a report names the log, how many requests it holds and how many pairs are told.
pub proof fn law_head_names_the_log(path: Seq<char>, parsed: nat, pairs: Seq<PairView>)
    ensures
        request_log::head_text(path, parsed, pairs) == "request log: "@ + path + "\nparsed "@
            + text::decimal(parsed) + " request(s); reporting "@ + text::decimal(pairs.len())
            + " consecutive pair(s)\n"@,
{
}

/// The line on the worst pair names its lines and how much they share; without pairs there is
/// none.
pub proof fn law_worst_pair_is_told(pairs: Seq<PairView>)
    ensures
        pairs.len() == 0 ==> request_log::worst_text(pairs) == ""@,
        pairs.len() > 0 ==> ({
            let w = pairs[request_log::worst_pair(pairs, pairs.len() as int)];
            request_log::worst_text(pairs) == "worst prefix stability: lines "@ + (text::decimal(
                w.previous_line as nat,
            ) + " -> "@ + text::decimal(w.current_line as nat)) + " share "@ + text::decimal(
                w.common_prefix_bytes as nat,
            ) + " byte(s)\n"@
        }),
{
}

/// Pairs are told one after the other, and so are the paths that change most often.
pub proof fn law_pairs_and_paths_are_told_in_turn(
    pairs: Seq<PairView>,
    percents: Seq<(String, String)>,
    top: Seq<(Seq<char>, nat)>,
    n: int,
)
    requires
        0 <= n,
    ensures
        request_log::pairs_text(pairs, percents, 0).len() == 0,
        request_log::pairs_text(pairs, percents, n + 1) == request_log::pairs_text(
            pairs,
            percents,
            n,
        ) + request_log::pair_text(pairs[n], percents[n].0@, percents[n].1@),
        request_log::paths_text(top, 0).len() == 0,
        request_log::paths_text(top, n + 1) == request_log::paths_text(top, n) + "  "@ + top[n].0
            + ": "@ + text::decimal(top[n].1) + " pair(s)\n"@,
        top.len() == 0 ==> request_log::unstable_text(top) == ""@,
        top.len() > 0 ==> request_log::unstable_text(top) == "\nmost frequent unstable paths:\n"@
            + request_log::paths_text(top, top.len() as int),
{
}

/// A line ends at the next line feed, or with the text.
pub proof fn law_line_ends_at_a_line_feed(t: Seq<char>, i: int, k: int)
    requires
        0 <= i <= t.len(),
    ensures
        i <= request_log::line_end(t, i) <= t.len(),
        request_log::line_end(t, i) < t.len() ==> t[request_log::line_end(t, i)] == '\n',
        i <= k < request_log::line_end(t, i) ==> t[k] != '\n',
    decreases t.len() - i,
{
    if i < t.len() && t[i] != '\n' {
        law_line_ends_at_a_line_feed(t, i + 1, k);
    }
}

} // verus!
