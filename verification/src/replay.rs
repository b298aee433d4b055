//! Replay records: what a conversation held internally, found again by what the client
//! shows of it.
use vstd::prelude::*;

use crate::digest;
use crate::json;
use crate::json::Json;
use crate::json::JsonMap;
use crate::json::JsonView;
use crate::models::chat::ChatMessage;
use crate::models::responses::ResponseItem;
use crate::models::wire;
use crate::text;

verus! {

/// What a conversation held internally.
#[derive(Debug, Clone)]
pub struct ReplayRecord {
    /// Model.
    pub model: String,
    /// Replay key of the instructions.
    pub instructions: String,
    /// The items that the client sees.
    pub visible_history: Vec<ResponseItem>,
    /// The messages that went to the upstream.
    pub internal_messages: Vec<ChatMessage>,
}

/// What a digest is taken of, as JSON.
pub open spec fn history_payload(
    model: Seq<char>,
    instructions: Seq<char>,
    items: Seq<ResponseItem>,
) -> JsonView {
    let m = json::put_text(seq![], "model"@, model);
    let m = json::put_text(m, "instructions"@, instructions);
    JsonView::Object(json::set_member(m, "items"@, wire::items_json(items)))
}

/// The digest of a payload whose text is `rendered`; that of no bytes where it has none.
pub open spec fn payload_digest(rendered: Option<Seq<char>>) -> Seq<char> {
    digest::hex_text(
        digest::sha256_digest(
            match rendered {
                Some(t) => vstd::utf8::encode_utf8(t),
                None => Seq::empty(),
            },
        ),
    )
}

/// The digest of what the client sees of a conversation.
pub open spec fn history_digest(
    model: Seq<char>,
    instructions: Seq<char>,
    items: Seq<ResponseItem>,
) -> Seq<char> {
    payload_digest(json::rendered_json(history_payload(model, instructions, items)))
}

/// The digest of a payload with this text.
pub fn digest_payload(rendered: Option<String>) -> (r: String)
    ensures
        r@ == payload_digest(text::opt_view(rendered)),
        r@.len() == 64,
{
    match rendered {
        Some(t) => digest::sha256_hex(t.as_str().as_bytes()),
        None => {
            let none: Vec<u8> = Vec::new();
            assert(none@ =~= Seq::<u8>::empty());
            digest::sha256_hex(&none)
        },
    }
}

fn payload(model: &str, instructions: &str, items: &Vec<ResponseItem>, len: usize) -> (r: Json)
    requires
        len <= items@.len(),
    ensures
        r@ == history_payload(model@, instructions@, items@.take(len as int)),
{
    let mut values: Vec<Json> = Vec::new();
    let mut i: usize = 0;
    while i < len
        invariant
            i <= len <= items@.len(),
            values@.len() == i,
            forall|k: int| 0 <= k < i ==> (#[trigger] values@[k])@ == wire::item_json(items@[k]),
        decreases len - i,
    {
        values.push(items[i].to_json());
        i += 1;
    }
    assert(json::items_view(values@) =~= items@.take(len as int).map_values(
        |item: ResponseItem| wire::item_json(item),
    ));
    let mut m = JsonMap::new();
    m.put_text("model", model);
    m.put_text("instructions", instructions);
    m.put("items", Json::array(values));
    m.into_json()
}

fn prefix_digest(
    model: &str,
    instructions: &str,
    items: &Vec<ResponseItem>,
    len: usize,
) -> (r: String)
    requires
        len <= items@.len(),
    ensures
        r@ == history_digest(model@, instructions@, items@.take(len as int)),
        r@.len() == 64,
{
    digest_payload(payload(model, instructions, items, len).render())
}

/// The digest of what the client sees of a conversation.
pub fn hash_visible_history(
    model: &str,
    instructions: &str,
    items: &Vec<ResponseItem>,
) -> (r: String)
    ensures
        r@ == history_digest(model@, instructions@, items@),
        r@.len() == 64,
{
    assert(items@.take(items@.len() as int) =~= items@);
    prefix_digest(model, instructions, items, items.len())
}

/// The records, each under the digest of its visible history.
pub struct ReplayStore {
    entries: Vec<(String, ReplayRecord)>,
}

spec fn lookup(entries: Seq<(String, ReplayRecord)>, key: Seq<char>, i: int) -> Option<ReplayRecord>
    decreases entries.len() - i,
{
    if !(0 <= i < entries.len()) {
        None
    } else if entries[i].0@ == key {
        Some(entries[i].1)
    } else {
        lookup(entries, key, i + 1)
    }
}

proof fn lemma_lookup_update(
    entries: Seq<(String, ReplayRecord)>,
    at: int,
    entry: (String, ReplayRecord),
    key: Seq<char>,
    i: int,
)
    requires
        0 <= i <= entries.len(),
        0 <= at < entries.len(),
        entries[at].0@ == entry.0@,
        forall|k: int| 0 <= k < at ==> (#[trigger] entries[k]).0@ != entry.0@,
    ensures
        lookup(entries.update(at, entry), key, i) == if key == entry.0@ && i <= at {
            Some(entry.1)
        } else {
            lookup(entries, key, i)
        },
    decreases entries.len() - i,
{
    if i < entries.len() {
        lemma_lookup_update(entries, at, entry, key, i + 1);
    }
}

proof fn lemma_lookup_push(
    entries: Seq<(String, ReplayRecord)>,
    entry: (String, ReplayRecord),
    key: Seq<char>,
    i: int,
)
    requires
        0 <= i <= entries.len(),
        forall|k: int| i <= k < entries.len() ==> (#[trigger] entries[k]).0@ != entry.0@,
    ensures
        lookup(entries.push(entry), key, i) == if key == entry.0@ {
            Some(entry.1)
        } else {
            lookup(entries, key, i)
        },
    decreases entries.len() - i,
{
    let after = entries.push(entry);
    if i < entries.len() {
        assert(after[i] == entries[i]);
        assert(entries[i].0@ != entry.0@);
        lemma_lookup_push(entries, entry, key, i + 1);
    } else {
        assert(after[i] == entry);
        assert(lookup(after, key, i + 1) is None);
    }
}

/// The record of the longest of the first `n` prefixes of `input` that has one.
pub open spec fn longest_match(
    store: ReplayStore,
    model: Seq<char>,
    instructions: Seq<char>,
    input: Seq<ResponseItem>,
    n: int,
) -> Option<ReplayRecord>
    decreases n + 1,
{
    if n < 0 {
        None
    } else {
        match store.record(history_digest(model, instructions, input.take(n))) {
            Some(record) => Some(record),
            None => longest_match(store, model, instructions, input, n - 1),
        }
    }
}

impl ReplayStore {
    /// The record under `key`.
    pub closed spec fn record(self, key: Seq<char>) -> Option<ReplayRecord> {
        lookup(self.entries@, key, 0)
    }

    /// No records.
    pub fn new() -> (r: Self)
        ensures
            forall|key: Seq<char>| (#[trigger] r.record(key)) is None,
    {
        ReplayStore { entries: Vec::new() }
    }

    /// Keeps the record under the digest of its visible history, in the place of any
    /// that was there.
    pub fn insert(&mut self, record: ReplayRecord)
        ensures
            forall|key: Seq<char>|
                (#[trigger] final(self).record(key)) == if key == history_digest(
                    record.model@,
                    record.instructions@,
                    record.visible_history@,
                ) {
                    Some(record)
                } else {
                    old(self).record(key)
                },
    {
        let key = hash_visible_history(
            record.model.as_str(),
            record.instructions.as_str(),
            &record.visible_history,
        );
        let entry = (key, record);
        let ghost before = self.entries@;
        let mut i: usize = 0;
        while i < self.entries.len()
            invariant
                i <= self.entries@.len(),
                self.entries@ == before,
                before == old(self).entries@,
                forall|k: int| 0 <= k < i ==> (#[trigger] before[k]).0@ != entry.0@,
                entry.0@ == history_digest(
                    record.model@,
                    record.instructions@,
                    record.visible_history@,
                ),
                entry.1 == record,
            decreases self.entries@.len() - i,
        {
            if text::str_eq(self.entries[i].0.as_str(), entry.0.as_str()) {
                self.entries.set(i, entry);
                proof {
                    assert forall|k: Seq<char>| (#[trigger] self.record(k)) == if k == entry.0@ {
                        Some(record)
                    } else {
                        old(self).record(k)
                    } by {
                        lemma_lookup_update(before, i as int, entry, k, 0);
                    }
                }
                return;
            }
            i += 1;
        }
        self.entries.push(entry);
        proof {
            assert forall|k: Seq<char>| (#[trigger] self.record(k)) == if k == entry.0@ {
                Some(record)
            } else {
                old(self).record(k)
            } by {
                lemma_lookup_push(before, entry, k, 0);
            }
        }
    }

    fn get(&self, key: &str) -> (r: Option<&ReplayRecord>)
        ensures
            match r {
                Some(record) => self.record(key@) == Some(*record),
                None => self.record(key@) is None,
            },
    {
        let mut i: usize = 0;
        while i < self.entries.len()
            invariant
                i <= self.entries@.len(),
                lookup(self.entries@, key@, 0) == lookup(self.entries@, key@, i as int),
            decreases self.entries@.len() - i,
        {
            if text::str_eq(self.entries[i].0.as_str(), key) {
                return Some(&self.entries[i].1);
            }
            i += 1;
        }
        None
    }

    /// The record of the longest prefix of `input` that has one.
    pub fn longest_prefix_match(
        &self,
        model: &str,
        instructions: &str,
        input: &Vec<ResponseItem>,
    ) -> (r: Option<&ReplayRecord>)
        ensures
            match r {
                Some(record) => longest_match(
                    *self,
                    model@,
                    instructions@,
                    input@,
                    input@.len() as int,
                ) == Some(*record),
                None => longest_match(
                    *self,
                    model@,
                    instructions@,
                    input@,
                    input@.len() as int,
                ) is None,
            },
    {
        let mut len: usize = input.len();
        loop
            invariant
                len <= input@.len(),
                longest_match(*self, model@, instructions@, input@, input@.len() as int)
                    == longest_match(*self, model@, instructions@, input@, len as int),
            decreases len,
        {
            let key = prefix_digest(model, instructions, input, len);
            if let Some(record) = self.get(key.as_str()) {
                return Some(record);
            }
            if len == 0 {
                assert(longest_match(*self, model@, instructions@, input@, -1) is None);
                return None;
            }
            len -= 1;
        }
    }
}

/// A conversation that goes on from a recorded one finds a record, and one of a prefix at
/// least as long.
pub proof fn law_recorded_history_is_found(
    store: ReplayStore,
    record: ReplayRecord,
    input: Seq<ResponseItem>,
    n: int,
    m: int,
)
    requires
        0 <= n <= m <= input.len(),
        input.take(n) == record.visible_history@,
        store.record(
            history_digest(record.model@, record.instructions@, record.visible_history@),
        ) == Some(record),
        forall|k: int|
            n < k <= m ==> store.record(
                history_digest(record.model@, record.instructions@, #[trigger] input.take(k)),
            ) is None,
    ensures
        longest_match(store, record.model@, record.instructions@, input, m) == Some(record),
    decreases m,
{
    if m > n {
        assert(store.record(
            history_digest(record.model@, record.instructions@, input.take(m)),
        ) is None);
        law_recorded_history_is_found(store, record, input, n, m - 1);
    }
}

/// The digest of a conversation depends on nothing but what the client sees of it.
pub proof fn law_digest_is_of_the_visible(
    model: Seq<char>,
    instructions: Seq<char>,
    a: Seq<ResponseItem>,
    b: Seq<ResponseItem>,
)
    requires
        wire::items_json(a) == wire::items_json(b),
    ensures
        history_digest(model, instructions, a) == history_digest(model, instructions, b),
{
}

/// What a digest is taken of names the model, the instructions and each visible item.
pub proof fn law_payload_holds_the_conversation(
    model: Seq<char>,
    instructions: Seq<char>,
    items: Seq<ResponseItem>,
)
    ensures
        history_payload(model, instructions, items) is Object,
        json::member(history_payload(model, instructions, items)->Object_0, "model"@) == Some(
            JsonView::Text(model),
        ),
        json::member(history_payload(model, instructions, items)->Object_0, "instructions"@)
            == Some(JsonView::Text(instructions)),
        json::member(history_payload(model, instructions, items)->Object_0, "items"@) == Some(
            wire::items_json(items),
        ),
{
    broadcast use json::lemma_member_of_set;

    reveal_strlit("model");
    reveal_strlit("instructions");
    reveal_strlit("items");
    assert("model"@.len() == 5);
    assert("instructions"@.len() == 12);
    assert("items"@.len() == 5);
    assert("model"@[0] != "items"@[0]);
}

/// Two conversations of which a digest is taken of the same have the same model, the same
/// instructions and the same visible items.
pub proof fn law_payload_tells_conversations_apart(
    model: Seq<char>,
    instructions: Seq<char>,
    items: Seq<ResponseItem>,
    other_model: Seq<char>,
    other_instructions: Seq<char>,
    other_items: Seq<ResponseItem>,
)
    requires
        history_payload(model, instructions, items) == history_payload(
            other_model,
            other_instructions,
            other_items,
        ),
    ensures
        model == other_model,
        instructions == other_instructions,
        wire::items_json(items) == wire::items_json(other_items),
{
    law_payload_holds_the_conversation(model, instructions, items);
    law_payload_holds_the_conversation(other_model, other_instructions, other_items);
}

/// What is found is the record of a prefix, and none of a longer one.
pub proof fn law_match_is_of_the_longest_prefix(
    store: ReplayStore,
    model: Seq<char>,
    instructions: Seq<char>,
    input: Seq<ResponseItem>,
    n: int,
)
    requires
        0 <= n <= input.len(),
    ensures
        longest_match(store, model, instructions, input, n) matches Some(record) ==> exists|k: int|
            0 <= k <= n && store.record(
                history_digest(model, instructions, #[trigger] input.take(k)),
            ) == Some(record) && forall|j: int|
                k < j <= n ==> store.record(
                    history_digest(model, instructions, #[trigger] input.take(j)),
                ) is None,
        longest_match(store, model, instructions, input, n) is None ==> forall|j: int|
            0 <= j <= n ==> store.record(
                history_digest(model, instructions, #[trigger] input.take(j)),
            ) is None,
    decreases n,
{
    if store.record(history_digest(model, instructions, input.take(n))) is None {
        if n > 0 {
            law_match_is_of_the_longest_prefix(store, model, instructions, input, n - 1);
        } else {
            assert(longest_match(store, model, instructions, input, -1) is None);
        }
    }
}

} // verus!
