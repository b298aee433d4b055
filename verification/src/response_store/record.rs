//! Stored responses as JSON, and back.
use vstd::prelude::*;

use crate::json;
use crate::json::Json;
use crate::json::JsonMap;
use crate::json::JsonView;
use crate::json_doc;
use crate::json_doc::Doc;
use crate::models::fields;
use crate::models::fields::fields_in;
use crate::models::fields::Names;
use crate::models::item_doc;
use crate::models::read;
use crate::models::read::read_items;
use crate::models::read::read_text;
use crate::models::read_chat;
use crate::models::read_chat::read_i64;
use crate::models::responses::ResponseItem;
use crate::models::round_trip;
use crate::models::wire;
use crate::models::wire::items_to_json;
use crate::response_store;
use crate::response_store::StoredResponse;

verus! {

/// A stored response, by its contents.
pub struct StoredView {
    /// Id.
    pub id: Seq<char>,
    /// The model that was asked for.
    pub requested_model: Seq<char>,
    /// The model that answered.
    pub served_model: Seq<char>,
    /// The items up to and with the response.
    pub history: Seq<read::ItemView>,
    /// When it was created.
    pub created_at: i64,
    /// When it expires.
    pub expires_at: i64,
}

impl View for StoredResponse {
    type V = StoredView;

    open spec fn view(&self) -> StoredView {
        StoredView {
            id: self.id@,
            requested_model: self.requested_model@,
            served_model: self.served_model@,
            history: read::items_contents(self.history@),
            created_at: self.created_at,
            expires_at: self.expires_at,
        }
    }
}

/// A stored response as JSON.
pub open spec fn record_json(record: StoredResponse) -> JsonView {
    let m = json::put_text(seq![], "id"@, record.id@);
    let m = json::put_text(m, "requested_model"@, record.requested_model@);
    let m = json::put_text(m, "served_model"@, record.served_model@);
    let m = json::set_member(m, "history"@, wire::items_json(record.history@));
    let m = json::set_member(m, "created_at"@, json::whole(record.created_at as int));
    JsonView::Object(json::set_member(m, "expires_at"@, json::whole(record.expires_at as int)))
}

/// The items under a key.
pub open spec fn items_at(m: Seq<(Seq<char>, JsonView)>, key: Seq<char>) -> Option<
    Seq<read::ItemView>,
> {
    match json::member(m, key) {
        Some(JsonView::Array(items)) => read::each_item_from(items),
        _ => None,
    }
}

/// The stored response that a value stands for.
pub open spec fn record_from(v: JsonView) -> Option<StoredView> {
    match fields::fields_of(
        v,
        seq![
            "id"@,
            "requested_model"@,
            "served_model"@,
            "history"@,
            "created_at"@,
            "expires_at"@,
        ],
        6,
    ) {
        Some(m) => if read::text_at(m, "id"@) is Some && read::text_at(
            m,
            "requested_model"@,
        ) is Some && read::text_at(m, "served_model"@) is Some && items_at(m, "history"@) is Some
            && read_chat::i64_at(m, "created_at"@) is Some && read_chat::i64_at(
            m,
            "expires_at"@,
        ) is Some {
            Some(
                StoredView {
                    id: read::text_at(m, "id"@)->0,
                    requested_model: read::text_at(m, "requested_model"@)->0,
                    served_model: read::text_at(m, "served_model"@)->0,
                    history: items_at(m, "history"@)->0,
                    created_at: read_chat::i64_at(m, "created_at"@)->0,
                    expires_at: read_chat::i64_at(m, "expires_at"@)->0,
                },
            )
        } else {
            None
        },
        None => None,
    }
}

fn read_history(m: &JsonMap, key: &str) -> (r: Option<Vec<ResponseItem>>)
    ensures
        match r {
            Some(items) => items_at(m@, key@) == Some(read::items_contents(items@)),
            None => items_at(m@, key@) is None,
        },
{
    match m.get(key) {
        Some(value) => match value.as_array() {
            Some(items) => read_items(items),
            None => None,
        },
        None => None,
    }
}

impl StoredResponse {
    /// The response as JSON.
    pub fn to_json(&self) -> (r: Json)
        ensures
            r@ == record_json(*self),
    {
        let mut m = JsonMap::new();
        m.put_text("id", self.id.as_str());
        m.put_text("requested_model", self.requested_model.as_str());
        m.put_text("served_model", self.served_model.as_str());
        m.put("history", items_to_json(&self.history));
        m.put("created_at", Json::integer(self.created_at));
        m.put("expires_at", Json::integer(self.expires_at));
        m.into_json()
    }

    /// The stored response that a value stands for.
    pub fn from_json(value: &Json) -> (r: Option<StoredResponse>)
        ensures
            match r {
                Some(record) => record_from(value@) == Some(record@),
                None => record_from(value@) is None,
            },
    {
        let names = Names::new()
            .and("id")
            .and("requested_model")
            .and("served_model")
            .and("history")
            .and("created_at")
            .and("expires_at");
        assert(names@ =~= seq![
            "id"@,
            "requested_model"@,
            "served_model"@,
            "history"@,
            "created_at"@,
            "expires_at"@,
        ]);
        let fields = match fields_in(value, &names, 6) {
            Some(fields) => fields,
            None => {
                return None;
            },
        };
        let m = fields.map();
        let id = match read_text(m, "id") {
            Some(x) => x,
            None => {
                return None;
            },
        };
        let requested_model = match read_text(m, "requested_model") {
            Some(x) => x,
            None => {
                return None;
            },
        };
        let served_model = match read_text(m, "served_model") {
            Some(x) => x,
            None => {
                return None;
            },
        };
        let history = match read_history(m, "history") {
            Some(x) => x,
            None => {
                return None;
            },
        };
        let created_at = match read_i64(m, "created_at") {
            Some(x) => x,
            None => {
                return None;
            },
        };
        let expires_at = match read_i64(m, "expires_at") {
            Some(x) => x,
            None => {
                return None;
            },
        };
        Some(
            StoredResponse {
                id,
                requested_model,
                served_model,
                history,
                created_at,
                expires_at,
            },
        )
    }
}

// --- Text --------------------------------------------------------------------------------------

/// A stored response as it is written.
pub open spec fn record_doc(record: StoredResponse) -> Doc {
    let m = json_doc::put_text(Seq::empty(), "id"@, record.id@);
    let m = json_doc::put_text(m, "requested_model"@, record.requested_model@);
    let m = json_doc::put_text(m, "served_model"@, record.served_model@);
    let m = json_doc::put(m, "history"@, item_doc::items_doc(record.history@));
    let m = json_doc::put(m, "created_at"@, Doc::Whole(record.created_at as int));
    let m = json_doc::put(m, "expires_at"@, Doc::Whole(record.expires_at as int));
    Doc::Object(m)
}

proof fn lemma_record_doc(record: StoredResponse)
    ensures
        json_doc::text_of(record_doc(record)) == response_store::record_text(record),
        json_doc::value_of(record_doc(record)) == record_json(record),
{
    broadcast use json_doc::group_members;

    json_doc::lemma_no_members();
    item_doc::lemma_items(record.history@);
}

/// A stored response that its text holds as it is: its items are plain, and what they hold
/// is not nested too deeply and has no number but whole ones.
pub open spec fn is_storable(record: StoredResponse) -> bool {
    &&& forall|i: int|
        0 <= i < record.history@.len() ==> round_trip::is_plain_item(#[trigger] record.history@[i])
    &&& json_doc::is_exact(record_doc(record), json_doc::readable_depth())
}

/// The text of a stored response is one that [`Json::parse`] reads back, and the value that
/// it reads stands for that response: what was stored as text is read as it was.
pub proof fn law_stored_text_is_read_back(record: StoredResponse)
    requires
        is_storable(record),
    ensures
        response_store::record_text(record) matches Some(t) && json::is_text_of(
            t,
            record_doc(record),
        ),
        json_doc::value_of(record_doc(record)) == record_json(record),
        record_from(json_doc::value_of(record_doc(record))) == Some(record@),
{
    lemma_record_doc(record);
    law_record_round_trip(record);
    json_doc::law_has_text(record_doc(record));
}

/// A stored response that is written as JSON and read again is the same.
pub proof fn law_record_round_trip(record: StoredResponse)
    requires
        forall|i: int|
            0 <= i < record.history@.len() ==> round_trip::is_plain_item(
                #[trigger] record.history@[i],
            ),
    ensures
        record_from(record_json(record)) == Some(record@),
{
    broadcast use json::lemma_member_of_set;

    reveal_strlit("id");
    reveal_strlit("requested_model");
    reveal_strlit("served_model");
    reveal_strlit("history");
    reveal_strlit("created_at");
    reveal_strlit("expires_at");
    assert("id"@.len() == 2);
    assert("requested_model"@.len() == 15);
    assert("served_model"@.len() == 12);
    assert("history"@.len() == 7);
    assert("created_at"@.len() == 10);
    assert("expires_at"@.len() == 10);
    assert("created_at"@[0] != "expires_at"@[0]);
    round_trip::law_items_round_trip(record.history@);
}

/// A stored response is written with each field under its own name.
pub proof fn law_record_members(record: StoredResponse)
    ensures
        record_json(record) matches JsonView::Object(m) && json::member(m, "id"@) == Some(
            JsonView::Text(record.id@),
        ) && json::member(m, "requested_model"@) == Some(JsonView::Text(record.requested_model@))
            && json::member(m, "served_model"@) == Some(JsonView::Text(record.served_model@))
            && json::member(m, "history"@) == Some(wire::items_json(record.history@))
            && json::member(m, "created_at"@) == Some(json::whole(record.created_at as int))
            && json::member(m, "expires_at"@) == Some(json::whole(record.expires_at as int)),
{
    broadcast use json::lemma_member_of_set;

    reveal_strlit("id");
    reveal_strlit("requested_model");
    reveal_strlit("served_model");
    reveal_strlit("history");
    reveal_strlit("created_at");
    reveal_strlit("expires_at");
    assert("id"@.len() == 2);
    assert("requested_model"@.len() == 15);
    assert("served_model"@.len() == 12);
    assert("history"@.len() == 7);
    assert("created_at"@.len() == 10);
    assert("expires_at"@.len() == 10);
    assert("created_at"@[0] != "expires_at"@[0]);
}

/// A stored response is read by its members, each under its own name.
pub proof fn law_record_is_read(m: Seq<(Seq<char>, JsonView)>, x: StoredResponse)
    requires
        record_from(JsonView::Object(m)) == Some(x@),
    ensures
        json::member(m, "id"@) == Some(JsonView::Text(x.id@)),
        json::member(m, "requested_model"@) == Some(JsonView::Text(x.requested_model@)),
        json::member(m, "served_model"@) == Some(JsonView::Text(x.served_model@)),
        json::member(m, "created_at"@) == Some(json::whole(x.created_at as int)) || json::member(
            m,
            "created_at"@,
        ) == Some(JsonView::Number(json::NumberView::Negative(x.created_at))),
        json::member(m, "expires_at"@) == Some(json::whole(x.expires_at as int)) || json::member(
            m,
            "expires_at"@,
        ) == Some(JsonView::Number(json::NumberView::Negative(x.expires_at))),
        json::member(m, "history"@) matches Some(JsonView::Array(items)) && read::each_item_from(
            items,
        ) == Some(read::items_contents(x.history@)),
{
}

} // verus!
