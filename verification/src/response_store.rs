//! Bounded state for stored responses and the responses that continue them.
use vstd::prelude::*;

use crate::json_text;
use crate::json_text::ObjectText;
use crate::models::item_text;
use crate::models::item_text::items_to_text;
use crate::models::responses::ResponseItem;
use crate::text;

pub mod durable;
pub mod handle;
pub mod laws;
pub mod lookup_laws;
pub mod memory;
pub mod record;
pub mod rows;

verus! {

/// A response that can be continued.
#[derive(Debug, Clone, PartialEq)]
pub struct StoredResponse {
    /// Id.
    pub id: String,
    /// The model that was asked for.
    pub requested_model: String,
    /// The model that answered.
    pub served_model: String,
    /// The items up to and with the response.
    pub history: Vec<ResponseItem>,
    /// When it was created, in seconds since the epoch.
    pub created_at: i64,
    /// When it expires, in seconds since the epoch.
    pub expires_at: i64,
}

/// Why a response is not stored or read.
#[derive(Debug, Clone)]
pub struct ResponseStoreError(pub String);

/// The message of a failure.
pub open spec fn refused(r: Result<(), ResponseStoreError>) -> Option<Seq<char>> {
    match r {
        Ok(_) => None,
        Err(e) => Some(e.0@),
    }
}

/// The id of an item, where it has one.
pub open spec fn item_id(item: ResponseItem) -> Option<Seq<char>> {
    match item {
        ResponseItem::ItemReference { id } => Some(id@),
        ResponseItem::Reasoning { id, .. } => Some(id@),
        ResponseItem::ImageGenerationCall { id, .. } => Some(id@),
        ResponseItem::Message { id, .. } => text::opt_view(id),
        ResponseItem::AgentMessage { id, .. } => text::opt_view(id),
        ResponseItem::FunctionCall { id, .. } => text::opt_view(id),
        ResponseItem::CustomToolCall { id, .. } => text::opt_view(id),
        ResponseItem::ToolSearchCall { id, .. } => text::opt_view(id),
        ResponseItem::LocalShellCall { id, .. } => text::opt_view(id),
        ResponseItem::WebSearchCall { id, .. } => text::opt_view(id),
        ResponseItem::FunctionCallOutput { .. } => None,
        ResponseItem::CustomToolCallOutput { .. } => None,
        ResponseItem::ToolSearchOutput { .. } => None,
    }
}

fn opt_str(t: &Option<String>) -> (r: Option<&str>)
    ensures
        text::opt_str_view(r) == text::opt_view(*t),
{
    match t {
        Some(t) => Some(t.as_str()),
        None => None,
    }
}

/// The id of an item, where it has one.
pub fn response_item_id(item: &ResponseItem) -> (r: Option<&str>)
    ensures
        text::opt_str_view(r) == item_id(*item),
{
    match item {
        ResponseItem::ItemReference { id } => Some(id.as_str()),
        ResponseItem::Reasoning { id, .. } => Some(id.as_str()),
        ResponseItem::ImageGenerationCall { id, .. } => Some(id.as_str()),
        ResponseItem::Message { id, .. } => opt_str(id),
        ResponseItem::AgentMessage { id, .. } => opt_str(id),
        ResponseItem::FunctionCall { id, .. } => opt_str(id),
        ResponseItem::CustomToolCall { id, .. } => opt_str(id),
        ResponseItem::ToolSearchCall { id, .. } => opt_str(id),
        ResponseItem::LocalShellCall { id, .. } => opt_str(id),
        ResponseItem::WebSearchCall { id, .. } => opt_str(id),
        ResponseItem::FunctionCallOutput { .. } => None,
        ResponseItem::CustomToolCallOutput { .. } => None,
        ResponseItem::ToolSearchOutput { .. } => None,
    }
}

// --- Size ------------------------------------------------------------------------------------

/// A stored response as JSON text.
pub open spec fn record_text(record: StoredResponse) -> Option<Seq<char>> {
    let m = Some(Seq::<Seq<char>>::empty());
    let m = json_text::put_text(m, "id"@, record.id@);
    let m = json_text::put_text(m, "requested_model"@, record.requested_model@);
    let m = json_text::put_text(m, "served_model"@, record.served_model@);
    let m = json_text::put(m, "history"@, item_text::items_text(record.history@));
    let m = json_text::put(m, "created_at"@, Some(text::signed(record.created_at as int)));
    let m = json_text::put(m, "expires_at"@, Some(text::signed(record.expires_at as int)));
    json_text::object_text(m)
}

/// The bytes of a stored response's JSON text, where it has one.
pub open spec fn record_size(record: StoredResponse) -> Option<usize> {
    match record_text(record) {
        Some(t) => Some(vstd::utf8::encode_utf8(t).len() as usize),
        None => None,
    }
}

/// What is told of a response whose JSON text cannot be had.
pub open spec fn no_size_message() -> Seq<char> {
    "failed to size response state"@
}

impl StoredResponse {
    /// The response as JSON text.
    pub fn to_text(&self) -> (r: Option<String>)
        ensures
            text::opt_view(r) == record_text(*self),
    {
        let mut m = ObjectText::new();
        m.put_text("id", self.id.as_str());
        m.put_text("requested_model", self.requested_model.as_str());
        m.put_text("served_model", self.served_model.as_str());
        m.put("history", items_to_text(&self.history));
        m.put("created_at", Some(text::signed_of(self.created_at)));
        m.put("expires_at", Some(text::signed_of(self.expires_at)));
        m.into_text()
    }
}

/// The bytes of a stored response's JSON text.
pub fn serialized_size(record: &StoredResponse) -> (r: Result<usize, ResponseStoreError>)
    ensures
        match r {
            Ok(size) => record_size(*record) == Some(size),
            Err(e) => record_size(*record) is None && e.0@ == no_size_message(),
        },
{
    match record.to_text() {
        Some(t) => Ok(t.as_str().as_bytes().len()),
        None => Err(ResponseStoreError("failed to size response state".to_owned())),
    }
}

} // verus!
