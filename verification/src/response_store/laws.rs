//! What holds of the memory of responses, whatever is done to it.
use vstd::prelude::*;

use crate::response_store::memory;
use crate::response_store::memory::MemoryView;
use crate::response_store::memory::Slot;

verus! {

proof fn lemma_kept_again(slots: Seq<Slot>, now: i64, later: i64)
    requires
        now <= later,
    ensures
        memory::kept(memory::kept(slots, memory::alive(now)), memory::alive(later))
            == memory::kept(slots, memory::alive(later)),
    decreases slots.len(),
{
    if slots.len() > 0 {
        let rest = slots.drop_last();
        lemma_kept_again(rest, now, later);
        let early = memory::kept(rest, memory::alive(now));
        if slots.last().record.expires_at > now {
            assert(early.push(slots.last()).drop_last() =~= early);
        }
    }
}

/// A response that is handed in is not readable: whatever can be read, and when, is what
/// could be read without it.
pub proof fn law_prepared_is_hidden(
    v: MemoryView,
    slot: Slot,
    now: i64,
    id: Seq<char>,
    later: i64,
)
    requires
        now <= later,
    ensures
        v.prepared(slot, now).readable(id, later) == v.readable(id, later),
        v.prepared(slot, now).item(id, later) == v.item(id, later),
{
    lemma_kept_again(v.committed, now, later);
}

proof fn lemma_last_is_found(slots: Seq<Slot>, now: i64)
    requires
        slots.len() > 0,
        memory::distinct(slots),
        slots.last().record.expires_at > now,
    ensures
        memory::slot_of(memory::kept(slots, memory::alive(now)), slots.last().record.id@) == Some(
            slots.last(),
        ),
{
    let live = memory::kept(slots, memory::alive(now));
    memory::lemma_kept_distinct(slots, memory::alive(now));
    memory::lemma_index_is(live, slots.last().record.id@, live.len() - 1);
}

/// A pending response that is published can be read until it expires.
pub proof fn law_published_is_readable(v: MemoryView, id: Seq<char>, now: i64)
    requires
        v.wf(),
        memory::slot_of(v.pending, id) matches Some(slot) && slot.record.expires_at > now,
    ensures
        v.published(id).readable(id, now) == Some(memory::slot_of(v.pending, id)->0.record),
{
    memory::lemma_index_of(v.pending, id, 0);
    let i = memory::index_of(v.pending, id, 0);
    let slot = v.pending[i];
    memory::lemma_bytes_at_least(v.pending, i);
    let all = memory::kept(v.committed, memory::other_than(id)).push(slot);
    memory::lemma_with_newest_distinct(v.committed, slot);
    memory::lemma_newest_stays(all, v.max_entries, v.byte_quota);
    memory::lemma_evicted(all, v.max_entries, v.byte_quota);
    lemma_last_is_found(v.published(id).committed, now);
}

/// A response that is taken and then published can be read until it expires.
pub proof fn law_inserted_is_readable(v: MemoryView, slot: Slot, now: i64, later: i64)
    requires
        v.wf(),
        now <= later < slot.record.expires_at,
        v.pruned(now).refusal(slot) is None,
    ensures
        v.prepared(slot, now).published(slot.record.id@).readable(slot.record.id@, later) == Some(
            slot.record,
        ),
{
    let id = slot.record.id@;
    let p = v.prepared(slot, now);
    law_memory_stays_bounded(v, slot, now);
    memory::lemma_with_newest_distinct(v.pruned(now).pending, slot);
    memory::lemma_index_is(p.pending, id, p.pending.len() - 1);
    law_published_is_readable(p, id, later);
}

/// Handing in a response, whether it is taken or not, keeps the memory within its
/// bounds.
pub proof fn law_memory_stays_bounded(v: MemoryView, slot: Slot, now: i64)
    requires
        v.wf(),
    ensures
        v.pruned(now).wf(),
        v.prepared(slot, now).wf(),
{
    let alive = memory::alive(now);
    memory::lemma_kept(v.committed, alive);
    memory::lemma_kept(v.pending, alive);
    memory::lemma_kept_distinct(v.committed, alive);
    memory::lemma_kept_distinct(v.pending, alive);
    let live = v.pruned(now);
    let keep = memory::other_than(slot.record.id@);
    memory::lemma_kept(live.pending, keep);
    memory::lemma_with_newest_distinct(live.pending, slot);
    memory::lemma_bytes_push(memory::kept(live.pending, keep), slot);
    memory::lemma_others(live.pending, slot.record.id@);
}

/// A response that is refused leaves every other as it was: only what has expired is
/// gone.
pub proof fn law_refused_write_changes_nothing(v: MemoryView, slot: Slot, now: i64)
    requires
        v.pruned(now).refusal(slot) is Some,
    ensures
        v.prepared(slot, now) == v.pruned(now),
{
}

/// A response that is deleted can neither be read nor published.
pub proof fn law_deleted_is_gone(v: MemoryView, id: Seq<char>, now: i64)
    ensures
        v.discarded(id).readable(id, now) is None,
        memory::slot_of(v.discarded(id).pending, id) is None,
{
    lemma_other_ids(v.committed, id);
    lemma_other_ids(v.pending, id);
    let c = v.discarded(id).committed;
    let live = memory::kept(c, memory::alive(now));
    memory::lemma_kept(c, memory::alive(now));
    memory::lemma_index_of(live, id, 0);
    let i = memory::index_of(live, id, 0);
    if i < live.len() {
        let j = choose|j: int| 0 <= j < c.len() && c[j] == live[i];
        assert(c[j].record.id@ != id);
    }
    let p = v.discarded(id).pending;
    memory::lemma_index_of(p, id, 0);
}

proof fn lemma_other_ids(slots: Seq<Slot>, id: Seq<char>)
    ensures
        forall|k: int|
            0 <= k < memory::kept(slots, memory::other_than(id)).len() ==> (
            #[trigger] memory::kept(slots, memory::other_than(id))[k]).record.id@ != id,
{
    memory::lemma_kept(slots, memory::other_than(id));
}

/// What is read has the id that was asked for and has not expired.
pub proof fn law_what_is_read_is_alive(v: MemoryView, id: Seq<char>, now: i64)
    ensures
        v.readable(id, now) matches Some(record) ==> record.id@ == id && record.expires_at > now,
{
    let live = v.pruned(now).committed;
    memory::lemma_kept(v.committed, memory::alive(now));
    memory::lemma_index_of(live, id, 0);
    let i = memory::index_of(live, id, 0);
    if i < live.len() {
        assert(memory::alive(now)(live[i]));
    }
}

/// What is read leaves last: it is then the newest, and where room is made the oldest are
/// the ones that go.
pub proof fn law_least_recently_used_leaves_first(
    v: MemoryView,
    id: Seq<char>,
    now: i64,
    max_entries: int,
    quota: int,
)
    requires
        v.readable(id, now) is Some,
        max_entries >= 0,
        quota >= 0,
    ensures
        v.read(id, now).committed.last().record == v.readable(id, now)->0,
        ({
            let slots = v.read(id, now).committed;
            let left = memory::evicted(slots, max_entries, quota);
            &&& left.len() <= slots.len()
            &&& left == slots.skip(slots.len() - left.len())
        }),
{
    memory::lemma_evicted(v.read(id, now).committed, max_entries, quota);
}

/// Keeping once more what was just found changes nothing.
pub proof fn law_found_response_is_cached_already(v: MemoryView, item_id: Seq<char>, now: i64)
    requires
        v.wf(),
        v.item(item_id, now) is Some,
    ensures
        v.searched(item_id, now).cached(v.searched(item_id, now).committed.last(), now)
            == v.searched(item_id, now),
{
    let live = v.pruned(now);
    memory::lemma_kept(v.committed, memory::alive(now));
    memory::lemma_kept_distinct(v.committed, memory::alive(now));
    memory::lemma_item_slot(live.committed, item_id, 0);
    let i = memory::item_slot(live.committed, item_id, 0);
    memory::lemma_touched(live.committed, i);
    let s = v.searched(item_id, now);
    let slots = s.committed;
    let newest = slots.last();
    memory::lemma_bytes_at_least(slots, slots.len() - 1);
    lemma_kept_again(v.pending, now, now);
    assert forall|k: int| 0 <= k < slots.len() implies (#[trigger] slots[k]).record.expires_at
        > now by {
        let k0 = if k == slots.len() - 1 {
            i
        } else if k < i {
            k
        } else {
            k + 1
        };
        assert(slots[k] == live.committed[k0]);
        assert(memory::alive(now)(live.committed[k0]));
    }
    lemma_all_alive(slots, now);
    memory::lemma_removed_is_kept(slots, slots.len() - 1);
    assert(slots.remove(slots.len() - 1).push(newest) =~= slots);
}

proof fn lemma_all_alive(slots: Seq<Slot>, now: i64)
    requires
        forall|k: int| 0 <= k < slots.len() ==> (#[trigger] slots[k]).record.expires_at > now,
    ensures
        memory::kept(slots, memory::alive(now)) == slots,
    decreases slots.len(),
{
    if slots.len() > 0 {
        let rest = slots.drop_last();
        assert forall|k: int| 0 <= k < rest.len() implies (#[trigger] rest[k]).record.expires_at
            > now by {
            assert(slots[k].record.expires_at > now);
        }
        lemma_all_alive(rest, now);
        assert(slots[slots.len() - 1].record.expires_at > now);
        assert(rest.push(slots.last()) =~= slots);
    } else {
        assert(slots =~= Seq::empty());
    }
}

} // verus!
