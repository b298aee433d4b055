//! The bounded memory of responses: the least recently used leave first, expired ones
//! leave whenever the memory is looked at, and a prepared response is hidden until it is
//! published.
use vstd::prelude::*;

use crate::models::responses::ResponseItem;
use crate::response_store;
use crate::response_store::response_item_id;
use crate::response_store::serialized_size;
use crate::response_store::ResponseStoreError;
use crate::response_store::StoredResponse;
use crate::text;

verus! {

/// How many bytes of committed responses, and as many of pending ones, are kept.
pub const MEMORY_STORE_BYTE_QUOTA: usize = 67108864;

/// A response and the size of its JSON text.
#[derive(Debug)]
pub struct Slot {
    /// The response.
    pub record: StoredResponse,
    /// Bytes of its JSON text.
    pub size: usize,
}

// --- Slots -----------------------------------------------------------------------------------

/// The sizes together.
pub open spec fn bytes(slots: Seq<Slot>) -> int
    decreases slots.len(),
{
    if slots.len() == 0 {
        0
    } else {
        bytes(slots.drop_last()) + slots.last().size
    }
}

/// The slots that `keep` keeps, in order.
pub open spec fn kept(slots: Seq<Slot>, keep: spec_fn(Slot) -> bool) -> Seq<Slot>
    decreases slots.len(),
{
    if slots.len() == 0 {
        Seq::empty()
    } else if keep(slots.last()) {
        kept(slots.drop_last(), keep).push(slots.last())
    } else {
        kept(slots.drop_last(), keep)
    }
}

/// Keeps what has not expired.
pub open spec fn alive(now: i64) -> spec_fn(Slot) -> bool {
    |s: Slot| s.record.expires_at > now
}

/// Keeps what has another id.
pub open spec fn other_than(id: Seq<char>) -> spec_fn(Slot) -> bool {
    |s: Slot| s.record.id@ != id
}

/// No id is there twice.
pub open spec fn distinct(slots: Seq<Slot>) -> bool {
    forall|i: int, j: int|
        0 <= i < j < slots.len() ==> (#[trigger] slots[i]).record.id@ != (
        #[trigger] slots[j]).record.id@
}

/// The first index from `i` on whose slot has the id; the length where none has.
pub open spec fn index_of(slots: Seq<Slot>, id: Seq<char>, i: int) -> int
    decreases slots.len() - i,
{
    if !(0 <= i < slots.len()) {
        slots.len() as int
    } else if slots[i].record.id@ == id {
        i
    } else {
        index_of(slots, id, i + 1)
    }
}

/// The slot with the id.
pub open spec fn slot_of(slots: Seq<Slot>, id: Seq<char>) -> Option<Slot> {
    let i = index_of(slots, id, 0);
    if i < slots.len() {
        Some(slots[i])
    } else {
        None
    }
}

/// The slots with the one at `i` moved to the end.
pub open spec fn touched(slots: Seq<Slot>, i: int) -> Seq<Slot> {
    slots.remove(i).push(slots[i])
}

/// The slots without the oldest, until the rest fits.
pub open spec fn evicted(slots: Seq<Slot>, max_entries: int, quota: int) -> Seq<Slot>
    decreases slots.len(),
{
    if slots.len() > 0 && (slots.len() > max_entries || bytes(slots) > quota) {
        evicted(slots.skip(1), max_entries, quota)
    } else {
        slots
    }
}

/// The slots with `slot` as the newest, in the place of any with its id, as far as they
/// fit.
pub open spec fn committed_with(
    slots: Seq<Slot>,
    slot: Slot,
    max_entries: int,
    quota: int,
) -> Seq<Slot> {
    evicted(kept(slots, other_than(slot.record.id@)).push(slot), max_entries, quota)
}

/// The first index from `i` on whose item has the id; the length where none has.
pub open spec fn item_index(history: Seq<ResponseItem>, id: Seq<char>, i: int) -> int
    decreases history.len() - i,
{
    if !(0 <= i < history.len()) {
        history.len() as int
    } else if response_store::item_id(history[i]) == Some(id) {
        i
    } else {
        item_index(history, id, i + 1)
    }
}

/// Whether a history holds an item with the id.
pub open spec fn holds_item(history: Seq<ResponseItem>, id: Seq<char>) -> bool {
    item_index(history, id, 0) < history.len()
}

/// The first index from `i` on whose slot holds the item; the length where none does.
pub open spec fn item_slot(slots: Seq<Slot>, id: Seq<char>, i: int) -> int
    decreases slots.len() - i,
{
    if !(0 <= i < slots.len()) {
        slots.len() as int
    } else if holds_item(slots[i].record.history@, id) {
        i
    } else {
        item_slot(slots, id, i + 1)
    }
}

proof fn lemma_bytes_remove(slots: Seq<Slot>, i: int)
    requires
        0 <= i < slots.len(),
    ensures
        bytes(slots.remove(i)) == bytes(slots) - slots[i].size,
    decreases slots.len(),
{
    let less = slots.remove(i);
    if i == slots.len() - 1 {
        assert(less =~= slots.drop_last());
    } else {
        lemma_bytes_remove(slots.drop_last(), i);
        assert(less.drop_last() =~= slots.drop_last().remove(i));
        assert(less.last() == slots.last());
    }
}

pub proof fn lemma_bytes_at_least(slots: Seq<Slot>, i: int)
    requires
        0 <= i < slots.len(),
    ensures
        bytes(slots) >= slots[i].size,
        bytes(slots) >= 0,
    decreases slots.len(),
{
    lemma_bytes_not_negative(slots.drop_last());
    if i < slots.len() - 1 {
        lemma_bytes_at_least(slots.drop_last(), i);
    }
}

proof fn lemma_bytes_not_negative(slots: Seq<Slot>)
    ensures
        bytes(slots) >= 0,
    decreases slots.len(),
{
    if slots.len() > 0 {
        lemma_bytes_not_negative(slots.drop_last());
    }
}

pub proof fn lemma_bytes_push(slots: Seq<Slot>, slot: Slot)
    ensures
        bytes(slots.push(slot)) == bytes(slots) + slot.size,
{
    assert(slots.push(slot).drop_last() =~= slots);
}

proof fn lemma_kept_step(slots: Seq<Slot>, keep: spec_fn(Slot) -> bool, k: int)
    requires
        0 <= k < slots.len(),
    ensures
        kept(slots.take(k + 1), keep) == if keep(slots[k]) {
            kept(slots.take(k), keep).push(slots[k])
        } else {
            kept(slots.take(k), keep)
        },
{
    assert(slots.take(k + 1).drop_last() =~= slots.take(k));
    assert(slots.take(k + 1).last() == slots[k]);
}

/// What is kept was there, is kept for its own sake, and weighs no more than all.
pub proof fn lemma_kept(slots: Seq<Slot>, keep: spec_fn(Slot) -> bool)
    ensures
        kept(slots, keep).len() <= slots.len(),
        bytes(kept(slots, keep)) <= bytes(slots),
        forall|k: int|
            0 <= k < kept(slots, keep).len() ==> keep(#[trigger] kept(slots, keep)[k])
                && slots.contains(kept(slots, keep)[k]),
    decreases slots.len(),
{
    if slots.len() > 0 {
        let rest = slots.drop_last();
        lemma_kept(rest, keep);
        let all = kept(slots, keep);
        if keep(slots.last()) {
            lemma_bytes_push(kept(rest, keep), slots.last());
        }
        assert forall|k: int| 0 <= k < all.len() implies keep(#[trigger] all[k]) && slots.contains(
            all[k],
        ) by {
            if k < kept(rest, keep).len() {
                let s = kept(rest, keep)[k];
                assert(all[k] == s);
                let j = choose|j: int| 0 <= j < rest.len() && rest[j] == s;
                assert(slots[j] == s);
            } else {
                assert(slots[slots.len() - 1] == slots.last());
            }
        }
    }
}

pub proof fn lemma_kept_distinct(slots: Seq<Slot>, keep: spec_fn(Slot) -> bool)
    requires
        distinct(slots),
    ensures
        distinct(kept(slots, keep)),
    decreases slots.len(),
{
    if slots.len() > 0 {
        let rest = slots.drop_last();
        assert(distinct(rest)) by {
            assert forall|i: int, j: int| 0 <= i < j < rest.len() implies (
            #[trigger] rest[i]).record.id@ != (#[trigger] rest[j]).record.id@ by {
                assert(slots[i].record.id@ != slots[j].record.id@);
            }
        }
        lemma_kept_distinct(rest, keep);
        lemma_kept(rest, keep);
        let before = kept(rest, keep);
        let all = kept(slots, keep);
        assert forall|i: int, j: int| 0 <= i < j < all.len() implies (#[trigger] all[i]).record.id@
            != (#[trigger] all[j]).record.id@ by {
            if j < before.len() {
                assert(all[i] == before[i] && all[j] == before[j]);
            } else {
                assert(all[i] == before[i]);
                let m = choose|m: int| 0 <= m < rest.len() && rest[m] == before[i];
                assert(slots[m].record.id@ != slots[slots.len() - 1].record.id@);
            }
        }
    }
}

pub proof fn lemma_index_of(slots: Seq<Slot>, id: Seq<char>, i: int)
    requires
        0 <= i <= slots.len(),
    ensures
        i <= index_of(slots, id, i) <= slots.len(),
        index_of(slots, id, i) < slots.len() ==> slots[index_of(slots, id, i)].record.id@ == id,
        forall|k: int| i <= k < index_of(slots, id, i) ==> (#[trigger] slots[k]).record.id@ != id,
    decreases slots.len() - i,
{
    if i < slots.len() && slots[i].record.id@ != id {
        lemma_index_of(slots, id, i + 1);
    }
}

pub proof fn lemma_index_is(slots: Seq<Slot>, id: Seq<char>, at: int)
    requires
        0 <= at < slots.len(),
        slots[at].record.id@ == id,
        distinct(slots),
    ensures
        index_of(slots, id, 0) == at,
{
    lemma_index_of(slots, id, 0);
    let i = index_of(slots, id, 0);
    if i < at {
        assert(slots[i].record.id@ != slots[at].record.id@);
    }
}

pub proof fn lemma_item_index(history: Seq<ResponseItem>, id: Seq<char>, i: int)
    requires
        0 <= i <= history.len(),
    ensures
        i <= item_index(history, id, i) <= history.len(),
        item_index(history, id, i) < history.len() ==> response_store::item_id(
            history[item_index(history, id, i)],
        ) == Some(id),
    decreases history.len() - i,
{
    if i < history.len() && response_store::item_id(history[i]) != Some(id) {
        lemma_item_index(history, id, i + 1);
    }
}

pub proof fn lemma_item_slot(slots: Seq<Slot>, id: Seq<char>, i: int)
    requires
        0 <= i <= slots.len(),
    ensures
        i <= item_slot(slots, id, i) <= slots.len(),
        item_slot(slots, id, i) < slots.len() ==> holds_item(
            slots[item_slot(slots, id, i)].record.history@,
            id,
        ),
    decreases slots.len() - i,
{
    if i < slots.len() && !holds_item(slots[i].record.history@, id) {
        lemma_item_slot(slots, id, i + 1);
    }
}

pub proof fn lemma_touched(slots: Seq<Slot>, i: int)
    requires
        0 <= i < slots.len(),
    ensures
        touched(slots, i).len() == slots.len(),
        bytes(touched(slots, i)) == bytes(slots),
        distinct(slots) ==> distinct(touched(slots, i)),
{
    lemma_bytes_remove(slots, i);
    lemma_bytes_push(slots.remove(i), slots[i]);
    if distinct(slots) {
        let t = touched(slots, i);
        assert forall|a: int, b: int| 0 <= a < b < t.len() implies (#[trigger] t[a]).record.id@ != (
        #[trigger] t[b]).record.id@ by {
            let a0 = if a < i {
                a
            } else {
                a + 1
            };
            assert(t[a] == slots[a0]);
            if b == t.len() - 1 {
                assert(t[b] == slots[i]);
                if a0 < i {
                    assert(slots[a0].record.id@ != slots[i].record.id@);
                } else {
                    assert(slots[i].record.id@ != slots[a0].record.id@);
                }
            } else {
                let b0 = if b < i {
                    b
                } else {
                    b + 1
                };
                assert(t[b] == slots[b0]);
                assert(slots[a0].record.id@ != slots[b0].record.id@);
            }
        }
    }
}

pub proof fn lemma_evicted(slots: Seq<Slot>, max_entries: int, quota: int)
    requires
        max_entries >= 0,
        quota >= 0,
    ensures
        evicted(slots, max_entries, quota).len() <= slots.len(),
        evicted(slots, max_entries, quota) == slots.skip(
            slots.len() - evicted(slots, max_entries, quota).len(),
        ),
        evicted(slots, max_entries, quota).len() <= max_entries,
        bytes(evicted(slots, max_entries, quota)) <= quota,
        distinct(slots) ==> distinct(evicted(slots, max_entries, quota)),
    decreases slots.len(),
{
    if slots.len() > 0 && (slots.len() > max_entries || bytes(slots) > quota) {
        let rest = slots.skip(1);
        if distinct(slots) {
            assert forall|i: int, j: int| 0 <= i < j < rest.len() implies (
            #[trigger] rest[i]).record.id@ != (#[trigger] rest[j]).record.id@ by {
                assert(slots[i + 1].record.id@ != slots[j + 1].record.id@);
            }
        }
        lemma_evicted(rest, max_entries, quota);
        let out = evicted(rest, max_entries, quota);
        assert(rest.skip(rest.len() - out.len()) =~= slots.skip(slots.len() - out.len()));
    } else {
        assert(slots.skip(0) =~= slots);
    }
}

pub proof fn lemma_newest_stays(slots: Seq<Slot>, max_entries: int, quota: int)
    requires
        slots.len() > 0,
        max_entries >= 1,
        slots.last().size <= quota,
    ensures
        evicted(slots, max_entries, quota).len() > 0,
        evicted(slots, max_entries, quota).last() == slots.last(),
    decreases slots.len(),
{
    if slots.len() > max_entries || bytes(slots) > quota {
        if slots.len() == 1 {
            assert(slots.drop_last().len() == 0);
            assert(bytes(slots.drop_last()) == 0);
        } else {
            assert(slots.skip(1).last() == slots.last());
            lemma_newest_stays(slots.skip(1), max_entries, quota);
        }
    }
}

pub proof fn lemma_with_newest_distinct(slots: Seq<Slot>, slot: Slot)
    requires
        distinct(slots),
    ensures
        distinct(kept(slots, other_than(slot.record.id@)).push(slot)),
{
    let keep = other_than(slot.record.id@);
    lemma_kept_distinct(slots, keep);
    lemma_kept(slots, keep);
    let before = kept(slots, keep);
    let all = before.push(slot);
    assert forall|i: int, j: int| 0 <= i < j < all.len() implies (#[trigger] all[i]).record.id@ != (
    #[trigger] all[j]).record.id@ by {
        if j < before.len() {
            assert(all[i] == before[i] && all[j] == before[j]);
        } else {
            assert(all[i] == before[i]);
            assert(keep(before[i]));
        }
    }
}

fn retain_alive(slots: &mut Vec<Slot>, total: &mut usize, now: i64)
    requires
        *old(total) == bytes(old(slots)@),
    ensures
        final(slots)@ == kept(old(slots)@, alive(now)),
        *final(total) == bytes(final(slots)@),
{
    let ghost all = slots@;
    let ghost mut k: int = 0;
    let mut i: usize = 0;
    proof {
        assert(all.skip(0) =~= all);
        assert(kept(all.take(0), alive(now)) + all.skip(0) =~= all);
    }
    while i < slots.len()
        invariant
            0 <= k <= all.len(),
            i == kept(all.take(k), alive(now)).len(),
            slots@ == kept(all.take(k), alive(now)) + all.skip(k),
            i <= slots@.len(),
            *total == bytes(slots@),
        decreases all.len() - k,
    {
        let ghost before = kept(all.take(k), alive(now));
        proof {
            lemma_kept_step(all, alive(now), k);
            assert(slots@[i as int] == all[k]);
            lemma_bytes_at_least(slots@, i as int);
            lemma_bytes_remove(slots@, i as int);
        }
        if slots[i].record.expires_at <= now {
            let gone = slots.remove(i);
            *total = *total - gone.size;
            assert((before + all.skip(k)).remove(i as int) =~= before + all.skip(k + 1));
        } else {
            assert(before + all.skip(k) =~= before.push(all[k]) + all.skip(k + 1));
            i += 1;
        }
        proof {
            k = k + 1;
        }
    }
    proof {
        assert(all.skip(k).len() == 0);
        assert(all.take(k) =~= all);
        assert(slots@ =~= kept(all, alive(now)));
    }
}

fn remove_id(slots: &mut Vec<Slot>, total: &mut usize, id: &str)
    requires
        *old(total) == bytes(old(slots)@),
    ensures
        final(slots)@ == kept(old(slots)@, other_than(id@)),
        *final(total) == bytes(final(slots)@),
{
    let ghost all = slots@;
    let ghost mut k: int = 0;
    let mut i: usize = 0;
    proof {
        assert(all.skip(0) =~= all);
        assert(kept(all.take(0), other_than(id@)) + all.skip(0) =~= all);
    }
    while i < slots.len()
        invariant
            0 <= k <= all.len(),
            i == kept(all.take(k), other_than(id@)).len(),
            slots@ == kept(all.take(k), other_than(id@)) + all.skip(k),
            i <= slots@.len(),
            *total == bytes(slots@),
        decreases all.len() - k,
    {
        let ghost before = kept(all.take(k), other_than(id@));
        proof {
            lemma_kept_step(all, other_than(id@), k);
            assert(slots@[i as int] == all[k]);
            lemma_bytes_at_least(slots@, i as int);
            lemma_bytes_remove(slots@, i as int);
        }
        if text::str_eq(slots[i].record.id.as_str(), id) {
            let gone = slots.remove(i);
            *total = *total - gone.size;
            assert((before + all.skip(k)).remove(i as int) =~= before + all.skip(k + 1));
        } else {
            assert(before + all.skip(k) =~= before.push(all[k]) + all.skip(k + 1));
            i += 1;
        }
        proof {
            k = k + 1;
        }
    }
    proof {
        assert(all.skip(k).len() == 0);
        assert(all.take(k) =~= all);
        assert(slots@ =~= kept(all, other_than(id@)));
    }
}

fn position(slots: &Vec<Slot>, id: &str) -> (r: Option<usize>)
    ensures
        match r {
            Some(i) => i < slots@.len() && i == index_of(slots@, id@, 0),
            None => index_of(slots@, id@, 0) == slots@.len(),
        },
{
    let mut i: usize = 0;
    while i < slots.len()
        invariant
            i <= slots@.len(),
            index_of(slots@, id@, 0) == index_of(slots@, id@, i as int),
        decreases slots@.len() - i,
    {
        if text::str_eq(slots[i].record.id.as_str(), id) {
            return Some(i);
        }
        i += 1;
    }
    None
}

/// The index of the item with the id in a history.
pub fn find_in_history(history: &Vec<ResponseItem>, id: &str) -> (r: Option<usize>)
    ensures
        match r {
            Some(i) => i < history@.len() && i == item_index(history@, id@, 0),
            None => !holds_item(history@, id@),
        },
{
    let mut i: usize = 0;
    while i < history.len()
        invariant
            i <= history@.len(),
            item_index(history@, id@, 0) == item_index(history@, id@, i as int),
        decreases history@.len() - i,
    {
        if let Some(other) = response_item_id(&history[i]) {
            if text::str_eq(other, id) {
                return Some(i);
            }
        }
        i += 1;
    }
    None
}

// --- The memory --------------------------------------------------------------------------------

/// The contents of a [`MemoryStore`].
pub struct MemoryView {
    /// What can be read, the least recently used first.
    pub committed: Seq<Slot>,
    /// What is hidden.
    pub pending: Seq<Slot>,
    /// How many responses of each kind there may be.
    pub max_entries: int,
    /// How many bytes of each kind there may be.
    pub byte_quota: int,
}

impl MemoryView {
    /// What every memory keeps: no id twice, and neither more responses nor more bytes
    /// than it may hold.
    pub open spec fn wf(self) -> bool {
        &&& distinct(self.committed)
        &&& distinct(self.pending)
        &&& self.max_entries >= 1
        &&& self.byte_quota >= 0
        &&& self.committed.len() <= self.max_entries
        &&& self.pending.len() <= self.max_entries
        &&& bytes(self.committed) <= self.byte_quota
        &&& bytes(self.pending) <= self.byte_quota
    }

    /// The memory without what has expired.
    pub open spec fn pruned(self, now: i64) -> MemoryView {
        MemoryView {
            committed: kept(self.committed, alive(now)),
            pending: kept(self.pending, alive(now)),
            ..self
        }
    }

    /// Why a response is not taken as pending, where it is not.
    pub open spec fn refusal(self, slot: Slot) -> Option<Seq<char>> {
        let others = kept(self.pending, other_than(slot.record.id@));
        if slot.size > self.byte_quota {
            Some(
                "response state is too large to store ("@ + text::decimal(slot.size as nat)
                    + " bytes; limit "@ + text::decimal(self.byte_quota as nat) + ")"@,
            )
        } else if slot_of(self.pending, slot.record.id@) is None && self.pending.len()
            >= self.max_entries {
            Some("too many response-state writes are pending"@)
        } else if bytes(others) + slot.size > self.byte_quota {
            Some("pending response-state byte quota exceeded"@)
        } else {
            None
        }
    }

    /// The memory once a response was handed in: pending, in the place of any pending one
    /// with its id, unless it is refused.
    pub open spec fn prepared(self, slot: Slot, now: i64) -> MemoryView {
        let live = self.pruned(now);
        if live.refusal(slot) is Some {
            live
        } else {
            MemoryView {
                pending: kept(live.pending, other_than(slot.record.id@)).push(slot),
                ..live
            }
        }
    }

    /// The memory once a pending response was made readable.
    pub open spec fn published(self, id: Seq<char>) -> MemoryView {
        match slot_of(self.pending, id) {
            Some(slot) => MemoryView {
                pending: kept(self.pending, other_than(id)),
                committed: committed_with(
                    self.committed,
                    slot,
                    self.max_entries,
                    self.byte_quota,
                ),
                ..self
            },
            None => self,
        }
    }

    /// The memory once a response that was read elsewhere was kept.
    pub open spec fn cached(self, slot: Slot, now: i64) -> MemoryView {
        if slot.size > self.byte_quota {
            self
        } else {
            let live = self.pruned(now);
            MemoryView {
                committed: committed_with(
                    live.committed,
                    slot,
                    self.max_entries,
                    self.byte_quota,
                ),
                ..live
            }
        }
    }

    /// The memory once a response was read, which is then the most recently used.
    pub open spec fn read(self, id: Seq<char>, now: i64) -> MemoryView {
        let live = self.pruned(now);
        let i = index_of(live.committed, id, 0);
        if i < live.committed.len() {
            MemoryView { committed: touched(live.committed, i), ..live }
        } else {
            live
        }
    }

    /// What is read under an id.
    pub open spec fn readable(self, id: Seq<char>, now: i64) -> Option<StoredResponse> {
        match slot_of(self.pruned(now).committed, id) {
            Some(slot) => Some(slot.record),
            None => None,
        }
    }

    /// The memory without a response, pending or not.
    pub open spec fn discarded(self, id: Seq<char>) -> MemoryView {
        MemoryView {
            committed: kept(self.committed, other_than(id)),
            pending: kept(self.pending, other_than(id)),
            ..self
        }
    }

    /// The memory once an item was looked for: the response that holds it is then the
    /// most recently used.
    pub open spec fn searched(self, item_id: Seq<char>, now: i64) -> MemoryView {
        let live = self.pruned(now);
        let i = item_slot(live.committed, item_id, 0);
        if i < live.committed.len() {
            MemoryView { committed: touched(live.committed, i), ..live }
        } else {
            live
        }
    }

    /// The response and the index in its history at which an item is found.
    pub open spec fn item(self, item_id: Seq<char>, now: i64) -> Option<(StoredResponse, int)> {
        let live = self.pruned(now).committed;
        let i = item_slot(live, item_id, 0);
        if i < live.len() {
            Some((live[i].record, item_index(live[i].record.history@, item_id, 0)))
        } else {
            None
        }
    }
}

/// The memory of responses.
#[derive(Debug)]
pub struct MemoryStore {
    committed: Vec<Slot>,
    committed_bytes: usize,
    pending: Vec<Slot>,
    pending_bytes: usize,
    max_entries: usize,
    byte_quota: usize,
}

impl View for MemoryStore {
    type V = MemoryView;

    closed spec fn view(&self) -> MemoryView {
        MemoryView {
            committed: self.committed@,
            pending: self.pending@,
            max_entries: self.max_entries as int,
            byte_quota: self.byte_quota as int,
        }
    }
}

impl MemoryStore {
    /// The invariant: the memory keeps what it promises, and its byte counts are right.
    pub closed spec fn wf(self) -> bool {
        &&& self@.wf()
        &&& self.committed_bytes == bytes(self.committed@)
        &&& self.pending_bytes == bytes(self.pending@)
        &&& self.byte_quota <= usize::MAX / 2
    }

    /// The invariant of a memory is that of its contents.
    pub proof fn lemma_wf(self)
        requires
            self.wf(),
        ensures
            self@.wf(),
    {
    }

    /// An empty memory of at least one response.
    pub fn new(max_entries: usize) -> (r: Self)
        ensures
            r.wf(),
            r@ == (MemoryView {
                committed: Seq::empty(),
                pending: Seq::empty(),
                max_entries: if max_entries == 0 {
                    1
                } else {
                    max_entries as int
                },
                byte_quota: MEMORY_STORE_BYTE_QUOTA as int,
            }),
    {
        Self::with_byte_quota(max_entries, MEMORY_STORE_BYTE_QUOTA)
    }

    /// An empty memory of at least one response and at most `byte_quota` bytes.
    pub fn with_byte_quota(max_entries: usize, byte_quota: usize) -> (r: Self)
        requires
            byte_quota <= usize::MAX / 2,
        ensures
            r.wf(),
            r@ == (MemoryView {
                committed: Seq::empty(),
                pending: Seq::empty(),
                max_entries: if max_entries == 0 {
                    1
                } else {
                    max_entries as int
                },
                byte_quota: byte_quota as int,
            }),
    {
        let entries: usize = if max_entries == 0 {
            1
        } else {
            max_entries
        };
        let r = MemoryStore {
            committed: Vec::new(),
            committed_bytes: 0,
            pending: Vec::new(),
            pending_bytes: 0,
            max_entries: entries,
            byte_quota,
        };
        assert(r@.committed =~= Seq::empty());
        assert(r@.pending =~= Seq::empty());
        r
    }

    /// How many responses can be read.
    pub fn len(&self) -> (r: usize)
        ensures
            r == self@.committed.len(),
    {
        self.committed.len()
    }

    /// The bytes of the responses that can be read.
    pub fn committed_bytes(&self) -> (r: usize)
        requires
            self.wf(),
        ensures
            r == bytes(self@.committed),
    {
        self.committed_bytes
    }

    /// The bytes of the pending responses.
    pub fn pending_bytes(&self) -> (r: usize)
        requires
            self.wf(),
        ensures
            r == bytes(self@.pending),
    {
        self.pending_bytes
    }

    /// The pending response with the id, and its size.
    pub fn pending(&self, id: &str) -> (r: Option<&Slot>)
        ensures
            match r {
                Some(slot) => slot_of(self@.pending, id@) == Some(*slot),
                None => slot_of(self@.pending, id@) is None,
            },
    {
        match position(&self.pending, id) {
            Some(i) => Some(&self.pending[i]),
            None => None,
        }
    }

    fn prune_expired(&mut self, now: i64)
        requires
            old(self).wf(),
        ensures
            final(self).wf(),
            final(self)@ == old(self)@.pruned(now),
    {
        proof {
            lemma_kept(self.committed@, alive(now));
            lemma_kept(self.pending@, alive(now));
            lemma_kept_distinct(self.committed@, alive(now));
            lemma_kept_distinct(self.pending@, alive(now));
        }
        retain_alive(&mut self.committed, &mut self.committed_bytes, now);
        retain_alive(&mut self.pending, &mut self.pending_bytes, now);
    }

    fn insert_committed(&mut self, slot: Slot)
        requires
            old(self).wf(),
            slot.size <= old(self)@.byte_quota,
        ensures
            final(self).wf(),
            final(self)@ == (MemoryView {
                committed: committed_with(
                    old(self)@.committed,
                    slot,
                    old(self)@.max_entries,
                    old(self)@.byte_quota,
                ),
                ..old(self)@
            }),
    {
        let ghost before = self.committed@;
        let ghost keep = other_than(slot.record.id@);
        proof {
            lemma_kept(before, keep);
            lemma_with_newest_distinct(before, slot);
            lemma_bytes_push(kept(before, keep), slot);
        }
        let id = slot.record.id.clone();
        remove_id(&mut self.committed, &mut self.committed_bytes, id.as_str());
        self.committed_bytes = self.committed_bytes + slot.size;
        self.committed.push(slot);
        let ghost all = kept(before, keep).push(slot);
        let ghost max = self.max_entries as int;
        let ghost quota = self.byte_quota as int;
        proof {
            lemma_evicted(all, max, quota);
        }
        while self.committed.len() > 0 && (self.committed.len() > self.max_entries
            || self.committed_bytes > self.byte_quota)
            invariant
                evicted(self.committed@, max, quota) == evicted(all, max, quota),
                self.committed_bytes == bytes(self.committed@),
                max == self.max_entries,
                quota == self.byte_quota,
                self.pending == old(self).pending,
                self.pending_bytes == old(self).pending_bytes,
                self.max_entries == old(self).max_entries,
                self.byte_quota == old(self).byte_quota,
            decreases self.committed@.len(),
        {
            proof {
                lemma_bytes_at_least(self.committed@, 0);
                lemma_bytes_remove(self.committed@, 0);
                assert(self.committed@.remove(0) =~= self.committed@.skip(1));
            }
            let gone = self.committed.remove(0);
            self.committed_bytes = self.committed_bytes - gone.size;
        }
    }

    /// Takes a response of this size as pending, hidden until it is published.
    pub fn prepare_sized(&mut self, record: StoredResponse, size: usize, now: i64) -> (r: Result<
        (),
        ResponseStoreError,
    >)
        requires
            old(self).wf(),
        ensures
            final(self).wf(),
            final(self)@ == old(self)@.prepared((Slot { record, size }), now),
            response_store::refused(r) == old(self)@.pruned(now).refusal((Slot { record, size })),
    {
        let ghost slot = Slot { record, size };
        self.prune_expired(now);
        let ghost live = self@;
        if size > self.byte_quota {
            let mut message = "response state is too large to store (".to_owned();
            message.append(text::decimal_of(size as u128).as_str());
            message.append(" bytes; limit ");
            message.append(text::decimal_of(self.byte_quota as u128).as_str());
            message.append(")");
            return Err(ResponseStoreError(message));
        }
        let known = position(&self.pending, record.id.as_str());
        if known.is_none() && self.pending.len() >= self.max_entries {
            return Err(
                ResponseStoreError("too many response-state writes are pending".to_owned()),
            );
        }
        let replaced: usize = match known {
            Some(i) => self.pending[i].size,
            None => 0,
        };
        proof {
            lemma_others(self.pending@, record.id@);
            if known is Some {
                lemma_bytes_at_least(self.pending@, known->0 as int);
            }
        }
        let others: usize = self.pending_bytes - replaced;
        if others + size > self.byte_quota {
            return Err(
                ResponseStoreError("pending response-state byte quota exceeded".to_owned()),
            );
        }
        proof {
            let keep = other_than(record.id@);
            lemma_kept(self.pending@, keep);
            lemma_with_newest_distinct(self.pending@, slot);
            lemma_bytes_push(kept(self.pending@, keep), slot);
        }
        let id = record.id.clone();
        remove_id(&mut self.pending, &mut self.pending_bytes, id.as_str());
        self.pending_bytes = self.pending_bytes + size;
        self.pending.push(Slot { record, size });
        Ok(())
    }

    /// Takes a response as pending, hidden until it is published.
    pub fn prepare(&mut self, record: StoredResponse, now: i64) -> (r: Result<
        (),
        ResponseStoreError,
    >)
        requires
            old(self).wf(),
        ensures
            final(self).wf(),
            match response_store::record_size(record) {
                Some(size) => {
                    &&& final(self)@ == old(self)@.prepared((Slot { record, size }), now)
                    &&& response_store::refused(r) == old(self)@.pruned(now).refusal(
                        (Slot { record, size }),
                    )
                },
                None => {
                    &&& final(self)@ == old(self)@
                    &&& response_store::refused(r) == Some(response_store::no_size_message())
                },
            },
    {
        match serialized_size(&record) {
            Ok(size) => self.prepare_sized(record, size, now),
            Err(error) => Err(error),
        }
    }

    /// Makes a pending response readable.
    pub fn publish(&mut self, id: &str) -> (r: Result<(), ResponseStoreError>)
        requires
            old(self).wf(),
        ensures
            final(self).wf(),
            final(self)@ == old(self)@.published(id@),
            response_store::refused(r) == match slot_of(old(self)@.pending, id@) {
                Some(_) => None,
                None => Some("prepared response state was not found"@),
            },
    {
        let i = match position(&self.pending, id) {
            Some(i) => i,
            None => {
                return Err(ResponseStoreError("prepared response state was not found".to_owned()));
            },
        };
        let ghost before = self.pending@;
        proof {
            lemma_index_of(before, id@, 0);
            lemma_bytes_at_least(before, i as int);
            lemma_bytes_remove(before, i as int);
            lemma_removed_is_kept(before, i as int);
            lemma_kept(before, other_than(id@));
            lemma_kept_distinct(before, other_than(id@));
        }
        let slot = self.pending.remove(i);
        self.pending_bytes = self.pending_bytes - slot.size;
        self.insert_committed(slot);
        Ok(())
    }

    /// Keeps a response of this size that was read elsewhere.
    pub fn cache_sized(&mut self, record: StoredResponse, size: usize, now: i64)
        requires
            old(self).wf(),
        ensures
            final(self).wf(),
            final(self)@ == old(self)@.cached((Slot { record, size }), now),
    {
        if size > self.byte_quota {
            return;
        }
        self.prune_expired(now);
        self.insert_committed(Slot { record, size });
    }

    /// Keeps a response that was read elsewhere.
    pub fn insert_committed_cache(&mut self, record: StoredResponse, now: i64)
        requires
            old(self).wf(),
        ensures
            final(self).wf(),
            final(self)@ == match response_store::record_size(record) {
                Some(size) => old(self)@.cached((Slot { record, size }), now),
                None => old(self)@,
            },
    {
        match serialized_size(&record) {
            Ok(size) => self.cache_sized(record, size, now),
            Err(_) => {},
        }
    }

    /// The response with the id, which is then the most recently used.
    pub fn get(&mut self, id: &str, now: i64) -> (r: Option<&StoredResponse>)
        requires
            old(self).wf(),
        ensures
            final(self).wf(),
            final(self)@ == old(self)@.read(id@, now),
            match r {
                Some(record) => old(self)@.readable(id@, now) == Some(*record),
                None => old(self)@.readable(id@, now) is None,
            },
    {
        self.prune_expired(now);
        match position(&self.committed, id) {
            Some(i) => {
                self.touch(i);
                Some(&self.committed[self.committed.len() - 1].record)
            },
            None => None,
        }
    }

    fn touch(&mut self, i: usize)
        requires
            old(self).wf(),
            i < old(self)@.committed.len(),
        ensures
            final(self).wf(),
            final(self)@ == (MemoryView {
                committed: touched(old(self)@.committed, i as int),
                ..old(self)@
            }),
    {
        proof {
            lemma_touched(self.committed@, i as int);
        }
        let slot = self.committed.remove(i);
        self.committed.push(slot);
    }

    /// Forgets a response, pending or not.
    pub fn discard(&mut self, id: &str)
        requires
            old(self).wf(),
        ensures
            final(self).wf(),
            final(self)@ == old(self)@.discarded(id@),
    {
        proof {
            lemma_kept(self.committed@, other_than(id@));
            lemma_kept(self.pending@, other_than(id@));
            lemma_kept_distinct(self.committed@, other_than(id@));
            lemma_kept_distinct(self.pending@, other_than(id@));
        }
        remove_id(&mut self.pending, &mut self.pending_bytes, id);
        remove_id(&mut self.committed, &mut self.committed_bytes, id);
    }

    /// The response that holds the item, and the item's index in its history. Of several
    /// responses it is the least recently used one, which is then the most recently used.
    pub fn find_item(&mut self, item_id: &str, now: i64) -> (r: Option<(&StoredResponse, usize)>)
        requires
            old(self).wf(),
        ensures
            final(self).wf(),
            final(self)@ == old(self)@.searched(item_id@, now),
            match r {
                Some((record, at)) => old(self)@.item(item_id@, now) == Some((*record, at as int))
                    && at < record.history@.len(),
                None => old(self)@.item(item_id@, now) is None,
            },
    {
        self.prune_expired(now);
        let ghost live = self@;
        let mut i: usize = 0;
        while i < self.committed.len()
            invariant
                i <= self.committed@.len(),
                self.wf(),
                self@ == live,
                live == old(self)@.pruned(now),
                item_slot(live.committed, item_id@, 0) == item_slot(
                    live.committed,
                    item_id@,
                    i as int,
                ),
            decreases self.committed@.len() - i,
        {
            if let Some(at) = find_in_history(&self.committed[i].record.history, item_id) {
                self.touch(i);
                return Some((&self.committed[self.committed.len() - 1].record, at));
            }
            i += 1;
        }
        None
    }
}

pub proof fn lemma_removed_is_kept(slots: Seq<Slot>, i: int)
    requires
        distinct(slots),
        0 <= i < slots.len(),
    ensures
        kept(slots, other_than(slots[i].record.id@)) == slots.remove(i),
    decreases slots.len(),
{
    let id = slots[i].record.id@;
    let rest = slots.drop_last();
    assert(distinct(rest)) by {
        assert forall|a: int, b: int| 0 <= a < b < rest.len() implies (#[trigger] rest[a]).record.id@
            != (#[trigger] rest[b]).record.id@ by {
            assert(slots[a].record.id@ != slots[b].record.id@);
        }
    }
    if i == slots.len() - 1 {
        assert(rest =~= slots.remove(i));
        assert forall|k: int| 0 <= k < rest.len() implies (#[trigger] rest[k]).record.id@ != id by {
            assert(slots[k].record.id@ != slots[i].record.id@);
        }
        lemma_all_kept(rest, id);
    } else {
        assert(slots[i].record.id@ != slots[slots.len() - 1].record.id@);
        lemma_removed_is_kept(rest, i);
        assert(rest[i] == slots[i]);
        assert(rest.remove(i).push(slots.last()) =~= slots.remove(i));
    }
}

pub proof fn lemma_all_kept(slots: Seq<Slot>, id: Seq<char>)
    requires
        forall|k: int| 0 <= k < slots.len() ==> (#[trigger] slots[k]).record.id@ != id,
    ensures
        kept(slots, other_than(id)) == slots,
    decreases slots.len(),
{
    if slots.len() > 0 {
        let rest = slots.drop_last();
        assert forall|k: int| 0 <= k < rest.len() implies (#[trigger] rest[k]).record.id@ != id by {
            assert(slots[k].record.id@ != id);
        }
        lemma_all_kept(rest, id);
        assert(slots[slots.len() - 1].record.id@ != id);
        assert(rest.push(slots.last()) =~= slots);
    } else {
        assert(slots =~= Seq::empty());
    }
}

pub proof fn lemma_others(slots: Seq<Slot>, id: Seq<char>)
    requires
        distinct(slots),
    ensures
        bytes(kept(slots, other_than(id))) == bytes(slots) - match slot_of(slots, id) {
            Some(slot) => slot.size as int,
            None => 0,
        },
        slot_of(slots, id) is Some ==> kept(slots, other_than(id)).len() == slots.len() - 1,
{
    lemma_index_of(slots, id, 0);
    let i = index_of(slots, id, 0);
    if i < slots.len() {
        lemma_removed_is_kept(slots, i);
        lemma_bytes_remove(slots, i);
    } else {
        lemma_all_kept(slots, id);
    }
}

} // verus!
