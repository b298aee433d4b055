//! The store that the gateway holds: the memory, and how long responses are kept.
use vstd::prelude::*;

use crate::models::responses::ResponseItem;
use crate::response_store;
use crate::response_store::memory;
use crate::response_store::memory::MemoryStore;
use crate::response_store::memory::MemoryView;
use crate::response_store::memory::Slot;
use crate::response_store::ResponseStoreError;
use crate::response_store::StoredResponse;

verus! {

/// The seconds in these hours: at least one hour, and at most what a time can hold.
pub open spec fn retention(hours: u64) -> int {
    let seconds = if hours == 0 {
        3600
    } else {
        hours * 3600
    };
    if seconds > i64::MAX {
        i64::MAX as int
    } else {
        seconds
    }
}

/// The seconds in these hours.
pub fn retention_seconds(hours: u64) -> (r: i64)
    ensures
        r == retention(hours),
{
    let at_least: u64 = if hours == 0 {
        1
    } else {
        hours
    };
    match at_least.checked_mul(3600) {
        Some(seconds) => if seconds > 9223372036854775807 {
            i64::MAX
        } else {
            seconds as i64
        },
        None => i64::MAX,
    }
}

/// The time in seconds since the epoch: the epoch itself where it is before it, and at
/// most what a time can hold.
pub fn epoch_seconds(since_epoch: Option<u64>) -> (r: i64)
    ensures
        r == match since_epoch {
            None => 0,
            Some(s) => if s > i64::MAX {
                i64::MAX as int
            } else {
                s as int
            },
        },
{
    match since_epoch {
        None => 0,
        Some(s) => if s > 9223372036854775807 {
            i64::MAX
        } else {
            s as i64
        },
    }
}

/// The time `seconds` after `now`, as far as times go.
pub open spec fn expiry(now: i64, seconds: i64) -> i64 {
    if now + seconds > i64::MAX {
        i64::MAX
    } else if now + seconds < i64::MIN {
        i64::MIN
    } else {
        (now + seconds) as i64
    }
}

fn expiry_of(now: i64, seconds: i64) -> (r: i64)
    ensures
        r == expiry(now, seconds),
{
    match now.checked_add(seconds) {
        Some(t) => t,
        None => if seconds > 0 {
            i64::MAX
        } else {
            i64::MIN
        },
    }
}

/// The store that the gateway holds. Beside a database it is the front cache, and the
/// database decides.
#[derive(Debug)]
pub struct ResponseStoreHandle {
    /// The memory.
    pub memory: MemoryStore,
    /// How long responses are kept.
    pub retention_seconds: i64,
}

impl ResponseStoreHandle {
    /// An empty store of at least one response.
    pub fn memory(max_entries: usize, retention_hours: u64) -> (r: Self)
        ensures
            r.memory.wf(),
            r.memory@ == (MemoryView {
                committed: Seq::empty(),
                pending: Seq::empty(),
                max_entries: if max_entries == 0 {
                    1
                } else {
                    max_entries as int
                },
                byte_quota: memory::MEMORY_STORE_BYTE_QUOTA as int,
            }),
            r.retention_seconds == retention(retention_hours),
    {
        ResponseStoreHandle {
            memory: MemoryStore::new(max_entries),
            retention_seconds: retention_seconds(retention_hours),
        }
    }

    /// The response that is to be stored.
    pub fn record(
        &self,
        id: String,
        requested_model: String,
        served_model: String,
        history: Vec<ResponseItem>,
        created_at: i64,
        now: i64,
    ) -> (r: StoredResponse)
        ensures
            r == (StoredResponse {
                id,
                requested_model,
                served_model,
                history,
                created_at,
                expires_at: expiry(now, self.retention_seconds),
            }),
    {
        StoredResponse {
            id,
            requested_model,
            served_model,
            history,
            created_at,
            expires_at: expiry_of(now, self.retention_seconds),
        }
    }

    /// Takes a response as pending, hidden until it is published.
    pub fn prepare(
        &mut self,
        id: String,
        requested_model: String,
        served_model: String,
        history: Vec<ResponseItem>,
        created_at: i64,
        now: i64,
    ) -> (r: Result<(), ResponseStoreError>)
        requires
            old(self).memory.wf(),
        ensures
            final(self).memory.wf(),
            final(self).retention_seconds == old(self).retention_seconds,
            ({
                let record = StoredResponse {
                    id,
                    requested_model,
                    served_model,
                    history,
                    created_at,
                    expires_at: expiry(now, old(self).retention_seconds),
                };
                &&& final(self).memory@ == after_prepare(old(self).memory@, record, now)
                &&& response_store::refused(r) == prepare_refusal(old(self).memory@, record, now)
            }),
    {
        let record = self.record(id, requested_model, served_model, history, created_at, now);
        self.memory.prepare(record, now)
    }

    /// Makes a pending response readable.
    pub fn publish(&mut self, id: &str) -> (r: Result<(), ResponseStoreError>)
        requires
            old(self).memory.wf(),
        ensures
            final(self).memory.wf(),
            final(self).retention_seconds == old(self).retention_seconds,
            final(self).memory@ == old(self).memory@.published(id@),
            response_store::refused(r) == match memory::slot_of(old(self).memory@.pending, id@) {
                Some(_) => None,
                None => Some("prepared response state was not found"@),
            },
    {
        self.memory.publish(id)
    }

    /// Takes a response and makes it readable.
    pub fn insert(
        &mut self,
        id: String,
        requested_model: String,
        served_model: String,
        history: Vec<ResponseItem>,
        created_at: i64,
        now: i64,
    ) -> (r: Result<(), ResponseStoreError>)
        requires
            old(self).memory.wf(),
        ensures
            final(self).memory.wf(),
            final(self).retention_seconds == old(self).retention_seconds,
            ({
                let record = StoredResponse {
                    id,
                    requested_model,
                    served_model,
                    history,
                    created_at,
                    expires_at: expiry(now, old(self).retention_seconds),
                };
                let refusal = prepare_refusal(old(self).memory@, record, now);
                let prepared = after_prepare(old(self).memory@, record, now);
                &&& response_store::refused(r) == refusal
                &&& final(self).memory@ == if refusal is Some {
                    prepared
                } else {
                    prepared.published(id@)
                }
            }),
    {
        let key = id.clone();
        match self.prepare(id, requested_model, served_model, history, created_at, now) {
            Ok(_) => {},
            Err(e) => {
                return Err(e);
            },
        }
        proof {
            self.memory.lemma_wf();
            memory::lemma_index_is(
                self.memory@.pending,
                id@,
                self.memory@.pending.len() - 1,
            );
        }
        self.publish(key.as_str())
    }

    /// The response with the id.
    pub fn get(&mut self, id: &str, now: i64) -> (r: Option<&StoredResponse>)
        requires
            old(self).memory.wf(),
        ensures
            final(self).memory.wf(),
            final(self).retention_seconds == old(self).retention_seconds,
            final(self).memory@ == old(self).memory@.read(id@, now),
            match r {
                Some(record) => old(self).memory@.readable(id@, now) == Some(*record),
                None => old(self).memory@.readable(id@, now) is None,
            },
    {
        self.memory.get(id, now)
    }

    /// Follows a database in what it has under the id: what it found is kept, and what it
    /// has not is forgotten.
    pub fn follow(&mut self, id: &str, found: Option<StoredResponse>, now: i64)
        requires
            old(self).memory.wf(),
        ensures
            final(self).memory.wf(),
            final(self).retention_seconds == old(self).retention_seconds,
            final(self).memory@ == match found {
                Some(record) => match response_store::record_size(record) {
                    Some(size) => old(self).memory@.cached((Slot { record, size }), now),
                    None => old(self).memory@,
                },
                None => old(self).memory@.discarded(id@),
            },
    {
        match found {
            Some(record) => self.memory.insert_committed_cache(record, now),
            None => self.memory.discard(id),
        }
    }

    /// Forgets a response, pending or not.
    pub fn delete(&mut self, id: &str)
        requires
            old(self).memory.wf(),
        ensures
            final(self).memory.wf(),
            final(self).retention_seconds == old(self).retention_seconds,
            final(self).memory@ == old(self).memory@.discarded(id@),
    {
        self.memory.discard(id)
    }

    /// The item with the id, of a response that can be read.
    pub fn find_item(&mut self, item_id: &str, now: i64) -> (r: Option<&ResponseItem>)
        requires
            old(self).memory.wf(),
        ensures
            final(self).memory.wf(),
            final(self).retention_seconds == old(self).retention_seconds,
            final(self).memory@ == old(self).memory@.searched(item_id@, now),
            match r {
                Some(item) => old(self).memory@.item(item_id@, now) matches Some((record, at))
                    && *item == record.history@[at],
                None => old(self).memory@.item(item_id@, now) is None,
            },
    {
        match self.memory.find_item(item_id, now) {
            Some((record, at)) => Some(&record.history[at]),
            None => None,
        }
    }
}

/// The memory once a response was handed in; one whose JSON text cannot be had changes
/// nothing.
pub open spec fn after_prepare(v: MemoryView, record: StoredResponse, now: i64) -> MemoryView {
    match response_store::record_size(record) {
        Some(size) => v.prepared((Slot { record, size }), now),
        None => v,
    }
}

/// Why a response is not taken, where it is not.
pub open spec fn prepare_refusal(v: MemoryView, record: StoredResponse, now: i64) -> Option<
    Seq<char>,
> {
    match response_store::record_size(record) {
        Some(size) => v.pruned(now).refusal((Slot { record, size })),
        None => Some(response_store::no_size_message()),
    }
}

} // verus!
