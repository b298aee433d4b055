//! What can be looked up in the memory of responses, and what looking up and making room
//! leave as it was.
use vstd::prelude::*;

use crate::json;
use crate::json::JsonView;
use crate::models::item_laws;
use crate::models::responses::ResponseItem;
use crate::models::wire;
use crate::response_store;
use crate::response_store::durable;
use crate::response_store::handle;
use crate::response_store::memory;
use crate::response_store::memory::MemoryView;
use crate::response_store::memory::Slot;

verus! {

/// The id of an item is the text that its JSON has under `id`, and there is none where that
/// has none.
pub proof fn law_item_id_is_the_written_one(item: ResponseItem, t: Seq<char>)
    ensures
        wire::item_json(item) is Object,
        response_store::item_id(item) == Some(t) <==> json::member(
            wire::item_json(item)->Object_0,
            "id"@,
        ) == Some(JsonView::Text(t)),
        response_store::item_id(item) is None <==> json::member(
            wire::item_json(item)->Object_0,
            "id"@,
        ) is None,
{
    match item {
        ResponseItem::ItemReference { .. } => item_laws::law_item_item_reference_members(item),
        ResponseItem::Message { .. } => item_laws::law_item_message_members(item),
        ResponseItem::AgentMessage { .. } => item_laws::law_item_agent_message_members(item),
        ResponseItem::Reasoning { .. } => item_laws::law_item_reasoning_members(item),
        ResponseItem::FunctionCall { .. } => item_laws::law_item_function_call_members(item),
        ResponseItem::FunctionCallOutput { .. } => {
            item_laws::law_item_function_call_output_members(item);
            lemma_id_is_apart();
        },
        ResponseItem::CustomToolCall { .. } => item_laws::law_item_custom_tool_call_members(item),
        ResponseItem::CustomToolCallOutput { .. } => {
            item_laws::law_item_custom_tool_call_output_members(item);
            lemma_id_is_apart();
        },
        ResponseItem::ToolSearchCall { .. } => item_laws::law_item_tool_search_call_members(item),
        ResponseItem::ToolSearchOutput { .. } => {
            item_laws::law_item_tool_search_output_members(item);
            lemma_id_is_apart();
        },
        ResponseItem::LocalShellCall { .. } => item_laws::law_item_local_shell_call_members(item),
        ResponseItem::WebSearchCall { .. } => item_laws::law_item_web_search_call_members(item),
        ResponseItem::ImageGenerationCall { .. } => {
            item_laws::law_item_image_generation_call_members(item)
        },
    }
}

proof fn lemma_id_is_apart()
    ensures
        "id"@ != "type"@,
        "id"@ != "call_id"@,
        "id"@ != "output"@,
        "id"@ != "name"@,
        "id"@ != "status"@,
        "id"@ != "execution"@,
        "id"@ != "tools"@,
{
    reveal_strlit("id");
    reveal_strlit("type");
    reveal_strlit("call_id");
    reveal_strlit("output");
    reveal_strlit("name");
    reveal_strlit("status");
    reveal_strlit("execution");
    reveal_strlit("tools");
    assert("id"@.len() == 2);
    assert("type"@.len() == 4);
    assert("call_id"@.len() == 7);
    assert("output"@.len() == 6);
    assert("name"@.len() == 4);
    assert("status"@.len() == 6);
    assert("execution"@.len() == 9);
    assert("tools"@.len() == 5);
}

proof fn lemma_item_is_found(history: Seq<ResponseItem>, id: Seq<char>, i: int, k: int)
    requires
        0 <= i <= k < history.len(),
        response_store::item_id(history[k]) == Some(id),
    ensures
        i <= memory::item_index(history, id, i) <= k,
        response_store::item_id(history[memory::item_index(history, id, i)]) == Some(id),
    decreases k - i,
{
    if response_store::item_id(history[i]) != Some(id) {
        lemma_item_is_found(history, id, i + 1, k);
    }
}

proof fn lemma_slot_is_found(slots: Seq<Slot>, id: Seq<char>, i: int, k: int)
    requires
        0 <= i <= k < slots.len(),
        memory::holds_item(slots[k].record.history@, id),
    ensures
        i <= memory::item_slot(slots, id, i) <= k,
        memory::holds_item(slots[memory::item_slot(slots, id, i)].record.history@, id),
    decreases k - i,
{
    if !memory::holds_item(slots[i].record.history@, id) {
        lemma_slot_is_found(slots, id, i + 1, k);
    }
}

proof fn lemma_live_is_kept(slots: Seq<Slot>, keep: spec_fn(Slot) -> bool, k: int)
    requires
        0 <= k < slots.len(),
        keep(slots[k]),
    ensures
        memory::kept(slots, keep).contains(slots[k]),
    decreases slots.len(),
{
    let rest = slots.drop_last();
    let all = memory::kept(slots, keep);
    if k == slots.len() - 1 {
        assert(all[all.len() - 1] == slots[k]);
    } else {
        lemma_live_is_kept(rest, keep, k);
        assert(rest[k] == slots[k]);
        let j = choose|j: int|
            0 <= j < memory::kept(rest, keep).len() && memory::kept(rest, keep)[j] == slots[k];
        assert(all[j] == slots[k]);
    }
}

/// Every item of a readable response whose JSON has an id is found under that id: what is
/// found is in a readable response, and its JSON has the id that was asked for.
pub proof fn law_written_id_is_found(v: MemoryView, t: Seq<char>, now: i64, s: int, k: int)
    requires
        0 <= s < v.committed.len(),
        v.committed[s].record.expires_at > now,
        0 <= k < v.committed[s].record.history@.len(),
        json::member(wire::item_json(v.committed[s].record.history@[k])->Object_0, "id"@) == Some(
            JsonView::Text(t),
        ),
    ensures
        v.item(t, now) is Some,
{
    let slot = v.committed[s];
    let history = slot.record.history@;
    law_item_id_is_the_written_one(history[k], t);
    lemma_item_is_found(history, t, 0, k);
    lemma_live_is_kept(v.committed, memory::alive(now), s);
    let live = v.pruned(now).committed;
    let j = choose|j: int| 0 <= j < live.len() && live[j] == slot;
    assert(memory::holds_item(live[j].record.history@, t));
    lemma_slot_is_found(live, t, 0, j);
}

/// What is found under an id is an item of a readable response, and its JSON has that id.
pub proof fn law_found_item_has_the_id(v: MemoryView, t: Seq<char>, now: i64)
    requires
        v.item(t, now) is Some,
    ensures
        (v.item(t, now)->0).0.expires_at > now,
        exists|s: int|
            0 <= s < v.committed.len()
                && (#[trigger] v.committed[s]).record == (v.item(t, now)->0).0,
        0 <= (v.item(t, now)->0).1 < (v.item(t, now)->0).0.history@.len(),
        json::member(
            wire::item_json((v.item(t, now)->0).0.history@[(v.item(t, now)->0).1])->Object_0,
            "id"@,
        ) == Some(JsonView::Text(t)),
{
    let live = v.pruned(now).committed;
    memory::lemma_kept(v.committed, memory::alive(now));
    memory::lemma_item_slot(live, t, 0);
    let i = memory::item_slot(live, t, 0);
    let history = live[i].record.history@;
    memory::lemma_item_index(history, t, 0);
    law_item_id_is_the_written_one(history[memory::item_index(history, t, 0)], t);
    assert(memory::alive(now)(live[i]));
    let s = choose|s: int| 0 <= s < v.committed.len() && v.committed[s] == live[i];
    assert(v.committed[s].record == (v.item(t, now)->0).0);
}

/// A response is indexed under exactly the ids that the JSON of its items has.
pub proof fn law_written_ids_are_indexed(history: Seq<ResponseItem>, n: int, t: Seq<char>)
    requires
        0 <= n <= history.len(),
    ensures
        durable::item_ids(history, n).contains(t) <==> exists|k: int|
            0 <= k < n && json::member(
                wire::item_json(#[trigger] history[k])->Object_0,
                "id"@,
            ) == Some(JsonView::Text(t)),
    decreases n,
{
    if n > 0 {
        law_written_ids_are_indexed(history, n - 1, t);
        law_item_id_is_the_written_one(history[n - 1], t);
        let rest = durable::item_ids(history, n - 1);
        let all = durable::item_ids(history, n);
        if let Some(id) = response_store::item_id(history[n - 1]) {
            assert(all == rest.push(id));
            assert(all[rest.len() as int] == id);
            if rest.contains(t) {
                let j = choose|j: int| 0 <= j < rest.len() && rest[j] == t;
                assert(all[j] == t);
            }
            if all.contains(t) && id != t {
                let j = choose|j: int| 0 <= j < all.len() && all[j] == t;
                assert(rest[j] == t);
            }
        }
    }
}

/// The ids are indexed in the order of their items: those of a longer history begin with
/// those of a shorter one.
pub proof fn law_indexed_ids_are_in_order(history: Seq<ResponseItem>, m: int, n: int)
    requires
        0 <= m <= n <= history.len(),
    ensures
        durable::item_ids(history, m).is_prefix_of(durable::item_ids(history, n)),
        durable::item_ids(history, n).len() <= durable::item_ids(history, m).len() + (n - m),
    decreases n - m,
{
    if m < n {
        law_indexed_ids_are_in_order(history, m, n - 1);
    }
}

proof fn lemma_other_slot(slots: Seq<Slot>, i: int, id: Seq<char>)
    requires
        memory::distinct(slots),
        0 <= i < slots.len(),
    ensures
        memory::slot_of(memory::touched(slots, i), id) == memory::slot_of(slots, id),
{
    let t = memory::touched(slots, i);
    memory::lemma_touched(slots, i);
    memory::lemma_index_of(slots, id, 0);
    memory::lemma_index_of(t, id, 0);
    let p = memory::index_of(slots, id, 0);
    if p < slots.len() {
        let q = if p == i {
            t.len() - 1
        } else if p < i {
            p
        } else {
            p - 1
        };
        assert(t[q] == slots[p]);
        memory::lemma_index_is(t, id, q);
    } else {
        let q = memory::index_of(t, id, 0);
        if q < t.len() {
            let p0 = if q == t.len() - 1 {
                i
            } else if q < i {
                q
            } else {
                q + 1
            };
            assert(t[q] == slots[p0]);
        }
    }
}

proof fn lemma_all_live(slots: Seq<Slot>, now: i64)
    requires
        forall|k: int| 0 <= k < slots.len() ==> (#[trigger] slots[k]).record.expires_at > now,
    ensures
        memory::kept(slots, memory::alive(now)) == slots,
    decreases slots.len(),
{
    if slots.len() > 0 {
        let rest = slots.drop_last();
        assert forall|k: int| 0 <= k < rest.len() implies (#[trigger] rest[k]).record.expires_at
            > now by {
            assert(slots[k].record.expires_at > now);
        }
        lemma_all_live(rest, now);
        assert(slots[slots.len() - 1].record.expires_at > now);
        assert(rest.push(slots.last()) =~= slots);
    } else {
        assert(slots =~= Seq::empty());
    }
}

proof fn lemma_touched_is_live(slots: Seq<Slot>, i: int, now: i64)
    requires
        0 <= i < slots.len(),
        forall|k: int| 0 <= k < slots.len() ==> (#[trigger] slots[k]).record.expires_at > now,
    ensures
        memory::kept(memory::touched(slots, i), memory::alive(now)) == memory::touched(slots, i),
{
    let t = memory::touched(slots, i);
    assert forall|k: int| 0 <= k < t.len() implies (#[trigger] t[k]).record.expires_at > now by {
        let k0 = if k == t.len() - 1 {
            i
        } else if k < i {
            k
        } else {
            k + 1
        };
        assert(t[k] == slots[k0]);
    }
    lemma_all_live(t, now);
}

/// Reading a response, or looking for an item, takes nothing from what can be read.
pub proof fn law_looking_up_takes_nothing(
    v: MemoryView,
    id: Seq<char>,
    item_id: Seq<char>,
    now: i64,
    other: Seq<char>,
)
    requires
        v.wf(),
    ensures
        v.read(id, now).readable(other, now) == v.readable(other, now),
        v.searched(item_id, now).readable(other, now) == v.readable(other, now),
        v.read(id, now).pending == v.pruned(now).pending,
        v.searched(item_id, now).pending == v.pruned(now).pending,
{
    let live = v.pruned(now).committed;
    memory::lemma_kept(v.committed, memory::alive(now));
    memory::lemma_kept_distinct(v.committed, memory::alive(now));
    assert forall|k: int| 0 <= k < live.len() implies
        (#[trigger] live[k]).record.expires_at > now by {
        assert(memory::alive(now)(live[k]));
    }
    lemma_all_live(live, now);
    memory::lemma_index_of(live, id, 0);
    memory::lemma_item_slot(live, item_id, 0);
    let i = memory::index_of(live, id, 0);
    let j = memory::item_slot(live, item_id, 0);
    if i < live.len() {
        lemma_other_slot(live, i, other);
        lemma_touched_is_live(live, i, now);
    }
    if j < live.len() {
        lemma_other_slot(live, j, other);
        lemma_touched_is_live(live, j, now);
    }
}

/// The response in which an item was found is the most recently used one.
pub proof fn law_found_response_is_newest(v: MemoryView, t: Seq<char>, now: i64)
    requires
        v.item(t, now) is Some,
    ensures
        v.searched(t, now).committed.len() > 0,
        v.searched(t, now).committed.last().record == (v.item(t, now)->0).0,
{
    memory::lemma_item_slot(v.pruned(now).committed, t, 0);
}

proof fn lemma_slot_stays(slots: Seq<Slot>, id: Seq<char>, other: Seq<char>)
    requires
        memory::distinct(slots),
        other != id,
    ensures
        memory::slot_of(memory::kept(slots, memory::other_than(id)), other) == memory::slot_of(
            slots,
            other,
        ),
{
    let keep = memory::other_than(id);
    let less = memory::kept(slots, keep);
    memory::lemma_kept(slots, keep);
    memory::lemma_kept_distinct(slots, keep);
    memory::lemma_index_of(slots, other, 0);
    memory::lemma_index_of(less, other, 0);
    let i = memory::index_of(slots, other, 0);
    let j = memory::index_of(less, other, 0);
    if i < slots.len() {
        lemma_live_is_kept(slots, keep, i);
        let k = choose|k: int| 0 <= k < less.len() && less[k] == slots[i];
        memory::lemma_index_is(less, other, k);
    } else if j < less.len() {
        let k = choose|k: int| 0 <= k < slots.len() && slots[k] == less[j];
        assert(slots[k].record.id@ == other);
    }
}

/// Deleting a response leaves every other one as it is, pending or readable.
pub proof fn law_deleting_keeps_the_others(
    v: MemoryView,
    id: Seq<char>,
    other: Seq<char>,
    now: i64,
)
    requires
        v.wf(),
        other != id,
    ensures
        v.discarded(id).readable(other, now) == v.readable(other, now),
        memory::slot_of(v.discarded(id).pending, other) == memory::slot_of(v.pending, other),
{
    let keep = memory::other_than(id);
    lemma_slot_stays(v.pending, id, other);
    lemma_kept_commutes(v.committed, keep, memory::alive(now));
    memory::lemma_kept_distinct(v.committed, memory::alive(now));
    lemma_slot_stays(memory::kept(v.committed, memory::alive(now)), id, other);
}

proof fn lemma_kept_commutes(
    slots: Seq<Slot>,
    a: spec_fn(Slot) -> bool,
    b: spec_fn(Slot) -> bool,
)
    ensures
        memory::kept(memory::kept(slots, a), b) == memory::kept(memory::kept(slots, b), a),
    decreases slots.len(),
{
    if slots.len() > 0 {
        let rest = slots.drop_last();
        lemma_kept_commutes(rest, a, b);
        let last = slots.last();
        assert(memory::kept(rest, a).push(last).drop_last() =~= memory::kept(rest, a));
        assert(memory::kept(rest, b).push(last).drop_last() =~= memory::kept(rest, b));
    }
}

/// A response is taken as pending exactly where all that is then pending is within the
/// limits: so many responses, and so many bytes.
pub proof fn law_taken_where_it_fits(v: MemoryView, slot: Slot)
    requires
        v.wf(),
    ensures
        v.refusal(slot) is None <==> {
            let after = memory::kept(v.pending, memory::other_than(slot.record.id@)).push(slot);
            after.len() <= v.max_entries && memory::bytes(after) <= v.byte_quota
        },
{
    let id = slot.record.id@;
    let others = memory::kept(v.pending, memory::other_than(id));
    memory::lemma_bytes_push(others, slot);
    memory::lemma_others(v.pending, id);
    memory::lemma_kept(v.pending, memory::other_than(id));
    memory::lemma_bytes_at_least(others.push(slot), others.len() as int);
    assert(others.push(slot)[others.len() as int] == slot);
    if memory::slot_of(v.pending, id) is None {
        memory::lemma_index_of(v.pending, id, 0);
        memory::lemma_all_kept(v.pending, id);
    }
}

/// Where room is made, no more leaves than must: one response more would be over a limit.
pub proof fn law_eviction_is_minimal(slots: Seq<Slot>, max_entries: int, quota: int, k: int)
    requires
        max_entries >= 0,
        quota >= 0,
        0 <= k < slots.len() - memory::evicted(slots, max_entries, quota).len(),
    ensures
        slots.skip(k).len() > max_entries || memory::bytes(slots.skip(k)) > quota,
    decreases slots.len(),
{
    if slots.len() > max_entries || memory::bytes(slots) > quota {
        if k == 0 {
            assert(slots.skip(0) =~= slots);
        } else {
            law_eviction_is_minimal(slots.skip(1), max_entries, quota, k - 1);
            assert(slots.skip(1).skip(k - 1) =~= slots.skip(k));
        }
    }
}

proof fn lemma_newest_is_found(slots: Seq<Slot>, now: i64)
    requires
        slots.len() > 0,
        memory::distinct(slots),
        slots.last().record.expires_at > now,
    ensures
        memory::slot_of(memory::kept(slots, memory::alive(now)), slots.last().record.id@) == Some(
            slots.last(),
        ),
{
    let live = memory::kept(slots, memory::alive(now));
    memory::lemma_kept_distinct(slots, memory::alive(now));
    memory::lemma_index_is(live, slots.last().record.id@, live.len() - 1);
}

/// A response that was read elsewhere and is kept can be read, where it is not too large
/// and has not expired; one that is too large changes nothing.
pub proof fn law_cached_is_readable(v: MemoryView, slot: Slot, now: i64)
    requires
        v.wf(),
    ensures
        slot.size <= v.byte_quota && slot.record.expires_at > now ==> v.cached(slot, now).readable(
            slot.record.id@,
            now,
        ) == Some(slot.record),
        slot.size > v.byte_quota ==> v.cached(slot, now) == v,
{
    if slot.size <= v.byte_quota && slot.record.expires_at > now {
        let live = v.pruned(now);
        memory::lemma_kept_distinct(v.committed, memory::alive(now));
        let all = memory::kept(live.committed, memory::other_than(slot.record.id@)).push(slot);
        memory::lemma_with_newest_distinct(live.committed, slot);
        memory::lemma_newest_stays(all, v.max_entries, v.byte_quota);
        memory::lemma_evicted(all, v.max_entries, v.byte_quota);
        lemma_newest_is_found(v.cached(slot, now).committed, now);
    }
}

/// Publishing takes a response out of the pending ones, and leaves the other pending ones.
pub proof fn law_published_is_pending_no_more(v: MemoryView, id: Seq<char>, other: Seq<char>)
    requires
        v.wf(),
    ensures
        memory::slot_of(v.published(id).pending, id) is None,
        other != id ==> memory::slot_of(v.published(id).pending, other) == memory::slot_of(
            v.pending,
            other,
        ),
{
    let less = memory::kept(v.pending, memory::other_than(id));
    memory::lemma_kept(v.pending, memory::other_than(id));
    memory::lemma_index_of(less, id, 0);
    let i = memory::index_of(less, id, 0);
    if i < less.len() {
        assert(memory::other_than(id)(less[i]));
    }
    if other != id {
        lemma_slot_stays(v.pending, id, other);
    }
}

/// Exactly what expires later than now is alive: a response can be read up to the second
/// before its expiry, and not from then on.
pub proof fn law_expiry_decides(v: MemoryView, i: int, now: i64)
    requires
        v.wf(),
        0 <= i < v.committed.len(),
    ensures
        v.readable(v.committed[i].record.id@, now) is Some <==> now
            < v.committed[i].record.expires_at,
        now < v.committed[i].record.expires_at ==> v.readable(v.committed[i].record.id@, now)
            == Some(v.committed[i].record),
{
    let slot = v.committed[i];
    let id = slot.record.id@;
    let live = v.pruned(now).committed;
    memory::lemma_kept(v.committed, memory::alive(now));
    memory::lemma_kept_distinct(v.committed, memory::alive(now));
    if now < slot.record.expires_at {
        lemma_live_is_kept(v.committed, memory::alive(now), i);
        let k = choose|k: int| 0 <= k < live.len() && live[k] == slot;
        memory::lemma_index_is(live, id, k);
    } else {
        memory::lemma_index_of(live, id, 0);
        let k = memory::index_of(live, id, 0);
        if k < live.len() {
            assert(memory::alive(now)(live[k]));
            let s = choose|s: int| 0 <= s < v.committed.len() && v.committed[s] == live[k];
            assert(s == i);
        }
    }
}

/// Each hour of retention adds its seconds, as far as times go; none counts as one.
pub proof fn law_retention_is_by_the_hour(hours: u64)
    ensures
        handle::retention(0) == 60 * 60,
        handle::retention(1) == 60 * 60,
        1 <= hours < u64::MAX && handle::retention((hours + 1) as u64) < i64::MAX
            ==> handle::retention((hours + 1) as u64) == handle::retention(hours) + 60 * 60,
        0 < handle::retention(hours) <= i64::MAX,
{
}

/// A response expires as long after now as it is retained, as far as times go.
pub proof fn law_expiry_is_after_retention(now: i64, seconds: i64)
    ensures
        i64::MIN < handle::expiry(now, seconds) < i64::MAX ==> handle::expiry(now, seconds) - now
            == seconds,
        seconds >= 0 ==> handle::expiry(now, seconds) >= now,
{
}

} // verus!
