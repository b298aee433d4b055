//! Response resources and stream payloads as JSON.
use vstd::prelude::*;

use crate::json;
use crate::json::Json;
use crate::json::JsonMap;
use crate::json::JsonView;
use crate::models::responses::ContentPartPayload;
use crate::models::responses::ContentPartRef;
use crate::models::responses::CustomToolCallInputDeltaPayload;
use crate::models::responses::CustomToolCallInputDonePayload;
use crate::models::responses::DeltaPayload;
use crate::models::responses::FailedError;
use crate::models::responses::FunctionCallArgsDeltaPayload;
use crate::models::responses::FunctionCallArgsDonePayload;
use crate::models::responses::IncompleteDetails;
use crate::models::responses::OutputItemPayload;
use crate::models::responses::ReasoningDeltaPayload;
use crate::models::responses::ReasoningSignatureDeltaPayload;
use crate::models::responses::ReasoningSummaryPartPayload;
use crate::models::responses::ReasoningSummaryPartRef;
use crate::models::responses::ReasoningTextDonePayload;
use crate::models::responses::RefusalContentPartPayload;
use crate::models::responses::RefusalContentPartRef;
use crate::models::responses::RefusalDeltaPayload;
use crate::models::responses::RefusalDonePayload;
use crate::models::responses::ResponseInputTokensDetails;
use crate::models::responses::ResponseInstructions;
use crate::models::responses::ResponseOutputTokensDetails;
use crate::models::responses::ResponseResource;
use crate::models::responses::ResponseUsage;
use crate::models::responses::ResponsesEnvelope;
use crate::models::responses::TerminalReason;
use crate::models::responses::TextDonePayload;
use crate::models::shorthand;
use crate::models::shorthand::response_tool_choice;
use crate::models::wire;
use crate::models::wire::items_to_json;
use crate::models::wire::opt_bool;
use crate::models::wire::opt_number;
use crate::models::wire::opt_object;
use crate::models::wire::opt_reasoning_request;
use crate::models::wire::opt_signed;
use crate::models::wire::opt_unsigned;
use crate::models::wire::tools_to_json;
use crate::raw;
use crate::raw::SseEvent;
use crate::text;

verus! {

// --- Resources ---------------------------------------------------------------------------------

/// Why a response is not complete, as JSON.
pub open spec fn incomplete_json(x: IncompleteDetails) -> JsonView {
    let m = Seq::<(Seq<char>, JsonView)>::empty();
    let m = json::put_text(m, "reason"@, x.reason@);
    JsonView::Object(m)
}

impl IncompleteDetails {
    /// Why a response is not complete, as JSON.
    pub fn to_json(&self) -> (r: Json)
        ensures
            r@ == incomplete_json(*self),
    {
        let mut m = JsonMap::new();
        m.put_text("reason", self.reason.as_str());
        m.into_json()
    }
}

/// Why a response is not complete as JSON, where it is not.
pub open spec fn opt_incomplete_json(x: Option<IncompleteDetails>) -> Option<JsonView> {
    match x {
        Some(x) => Some(incomplete_json(x)),
        None => None,
    }
}

fn opt_incomplete(x: &Option<IncompleteDetails>) -> (r: Option<Json>)
    ensures
        json::opt_json_view(r) == opt_incomplete_json(*x),
{
    match x {
        Some(x) => Some(x.to_json()),
        None => None,
    }
}

/// What went wrong with a response, as JSON.
pub open spec fn failed_error_json(x: FailedError) -> JsonView {
    let m = Seq::<(Seq<char>, JsonView)>::empty();
    let m = json::put_text(m, "code"@, x.code@);
    let m = json::put_text(m, "message"@, x.message@);
    JsonView::Object(m)
}

impl FailedError {
    /// What went wrong with a response, as JSON.
    pub fn to_json(&self) -> (r: Json)
        ensures
            r@ == failed_error_json(*self),
    {
        let mut m = JsonMap::new();
        m.put_text("code", self.code.as_str());
        m.put_text("message", self.message.as_str());
        m.into_json()
    }
}

/// What went wrong with a response as JSON, where something did.
pub open spec fn opt_failed_error_json(x: Option<FailedError>) -> Option<JsonView> {
    match x {
        Some(x) => Some(failed_error_json(x)),
        None => None,
    }
}

fn opt_failed_error(x: &Option<FailedError>) -> (r: Option<Json>)
    ensures
        json::opt_json_view(r) == opt_failed_error_json(*x),
{
    match x {
        Some(x) => Some(x.to_json()),
        None => None,
    }
}

/// Input tokens in detail, as JSON.
pub open spec fn input_details_json(x: ResponseInputTokensDetails) -> JsonView {
    let m = Seq::<(Seq<char>, JsonView)>::empty();
    let m = json::set_member(m, "cached_tokens"@, json::whole(x.cached_tokens as int));
    JsonView::Object(m)
}

impl ResponseInputTokensDetails {
    /// Input tokens in detail, as JSON.
    pub fn to_json(&self) -> (r: Json)
        ensures
            r@ == input_details_json(*self),
    {
        let mut m = JsonMap::new();
        m.put("cached_tokens", Json::integer(self.cached_tokens));
        m.into_json()
    }
}

/// Input tokens in detail as JSON, where they are known.
pub open spec fn opt_input_details_json(x: Option<ResponseInputTokensDetails>) -> Option<JsonView> {
    match x {
        Some(x) => Some(input_details_json(x)),
        None => None,
    }
}

fn opt_input_details(x: &Option<ResponseInputTokensDetails>) -> (r: Option<Json>)
    ensures
        json::opt_json_view(r) == opt_input_details_json(*x),
{
    match x {
        Some(x) => Some(x.to_json()),
        None => None,
    }
}

/// Output tokens in detail, as JSON.
pub open spec fn output_details_json(x: ResponseOutputTokensDetails) -> JsonView {
    let m = Seq::<(Seq<char>, JsonView)>::empty();
    let m = json::set_member(m, "reasoning_tokens"@, json::whole(x.reasoning_tokens as int));
    JsonView::Object(m)
}

impl ResponseOutputTokensDetails {
    /// Output tokens in detail, as JSON.
    pub fn to_json(&self) -> (r: Json)
        ensures
            r@ == output_details_json(*self),
    {
        let mut m = JsonMap::new();
        m.put("reasoning_tokens", Json::integer(self.reasoning_tokens));
        m.into_json()
    }
}

/// Output tokens in detail as JSON, where they are known.
pub open spec fn opt_output_details_json(
    x: Option<ResponseOutputTokensDetails>,
) -> Option<JsonView> {
    match x {
        Some(x) => Some(output_details_json(x)),
        None => None,
    }
}

fn opt_output_details(x: &Option<ResponseOutputTokensDetails>) -> (r: Option<Json>)
    ensures
        json::opt_json_view(r) == opt_output_details_json(*x),
{
    match x {
        Some(x) => Some(x.to_json()),
        None => None,
    }
}

/// The tokens of a response, as JSON.
pub open spec fn usage_json(x: ResponseUsage) -> JsonView {
    let m = Seq::<(Seq<char>, JsonView)>::empty();
    let m = json::set_member(m, "input_tokens"@, json::whole(x.input_tokens as int));
    let m = json::set_member(m, "output_tokens"@, json::whole(x.output_tokens as int));
    let m = json::set_member(m, "total_tokens"@, json::whole(x.total_tokens as int));
    let m = json::put_opt(
        m,
        "input_tokens_details"@,
        opt_input_details_json(x.input_tokens_details),
    );
    let m = json::put_opt(
        m,
        "output_tokens_details"@,
        opt_output_details_json(x.output_tokens_details),
    );
    JsonView::Object(m)
}

impl ResponseUsage {
    /// The tokens of a response, as JSON.
    pub fn to_json(&self) -> (r: Json)
        ensures
            r@ == usage_json(*self),
    {
        let mut m = JsonMap::new();
        m.put("input_tokens", Json::integer(self.input_tokens));
        m.put("output_tokens", Json::integer(self.output_tokens));
        m.put("total_tokens", Json::integer(self.total_tokens));
        m.put_opt("input_tokens_details", opt_input_details(&self.input_tokens_details));
        m.put_opt("output_tokens_details", opt_output_details(&self.output_tokens_details));
        m.into_json()
    }
}

/// The tokens of a response as JSON, where they are known.
pub open spec fn opt_usage_json(x: Option<ResponseUsage>) -> Option<JsonView> {
    match x {
        Some(x) => Some(usage_json(x)),
        None => None,
    }
}

fn opt_usage(x: &Option<ResponseUsage>) -> (r: Option<Json>)
    ensures
        json::opt_json_view(r) == opt_usage_json(*x),
{
    match x {
        Some(x) => Some(x.to_json()),
        None => None,
    }
}

/// Instructions as JSON, where there are any.
pub open spec fn opt_instructions_json(x: Option<ResponseInstructions>) -> Option<JsonView> {
    match x {
        Some(x) => Some(wire::instructions_json(x)),
        None => None,
    }
}

fn opt_instructions(x: &Option<ResponseInstructions>) -> (r: Option<Json>)
    ensures
        json::opt_json_view(r) == opt_instructions_json(*x),
{
    match x {
        Some(x) => Some(x.to_json()),
        None => None,
    }
}

/// Why a response ended as JSON, where it is known.
pub open spec fn opt_reason_json(x: Option<TerminalReason>) -> Option<JsonView> {
    match x {
        Some(x) => Some(JsonView::Text(x.name())),
        None => None,
    }
}

fn opt_reason(x: Option<TerminalReason>) -> (r: Option<Json>)
    ensures
        json::opt_json_view(r) == opt_reason_json(x),
{
    match x {
        Some(x) => Some(Json::text(x.wire_name())),
        None => None,
    }
}

/// An unsigned number as a mathematical one.
pub open spec fn opt_nat(n: Option<u64>) -> Option<int> {
    match n {
        Some(n) => Some(n as int),
        None => None,
    }
}

impl ResponseResource {
    /// The resource as JSON, where the output text was asked for with `controls`: of its
    /// optional fields those that are there, and a chosen function by its flat name.
    pub open spec fn json_with(self, controls: Option<JsonView>) -> JsonView {
        let m = Seq::<(Seq<char>, JsonView)>::empty();
        let m = json::put_text(m, "id"@, self.id@);
        let m = json::put_text(m, "object"@, self.object@);
        let m = json::set_member(m, "created_at"@, json::whole(self.created_at as int));
        let m = json::put_opt(
            m,
            "completed_at"@,
            wire::opt_whole_json(wire::opt_int(self.completed_at)),
        );
        let m = json::put_text(m, "status"@, self.status@);
        let m = json::put_opt(m, "error"@, opt_failed_error_json(self.error));
        let m = json::put_opt(m, "instructions"@, opt_instructions_json(self.instructions));
        let m = json::put_opt(
            m,
            "max_output_tokens"@,
            wire::opt_whole_json(wire::opt_int(self.max_output_tokens)),
        );
        let m = json::set_member(m, "output"@, wire::items_json(self.output@));
        let m = json::put_text(m, "model"@, self.model@);
        let m = json::put_opt(
            m,
            "parallel_tool_calls"@,
            wire::opt_bool_json(self.parallel_tool_calls),
        );
        let m = json::put_opt_text(
            m,
            "previous_response_id"@,
            text::opt_view(self.previous_response_id),
        );
        let m = json::put_opt(m, "reasoning"@, wire::opt_reasoning_request_json(self.reasoning));
        let m = json::set_member(m, "store"@, JsonView::Bool(self.store));
        let m = json::put_opt(m, "temperature"@, wire::opt_number_json(self.temperature));
        let m = json::put_opt(m, "text"@, controls);
        let m = json::set_member(m, "tool_choice"@, shorthand::flat_tool_choice(self.tool_choice@));
        let m = json::set_member(m, "tools"@, wire::tools_json(self.tools@));
        let m = json::put_opt(m, "top_p"@, wire::opt_number_json(self.top_p));
        let m = json::put_opt(m, "truncation"@, json::opt_json_view(self.truncation));
        let m = json::put_opt_text(m, "service_tier"@, text::opt_view(self.service_tier));
        let m = json::put_opt_text(m, "prompt_cache_key"@, text::opt_view(self.prompt_cache_key));
        let m = json::put_opt_text(
            m,
            "prompt_cache_retention"@,
            text::opt_view(self.prompt_cache_retention),
        );
        let m = json::put_opt(
            m,
            "estimated_input_tokens"@,
            wire::opt_whole_json(opt_nat(self.estimated_input_tokens)),
        );
        let m = json::put_opt(m, "usage"@, opt_usage_json(self.usage));
        let m = json::put_opt(m, "metadata"@, wire::opt_object_json(self.metadata));
        let m = json::put_opt(
            m,
            "incomplete_details"@,
            opt_incomplete_json(self.incomplete_details),
        );
        let m = json::put_opt_text(m, "stop_sequence"@, text::opt_view(self.stop_sequence));
        let m = json::put_opt(m, "terminal_reason"@, opt_reason_json(self.terminal_reason));
        JsonView::Object(m)
    }

    /// The resource as JSON; it is refused where its text format is.
    pub open spec fn json(self) -> Result<JsonView, Seq<char>> {
        match self.text {
            Some(text) => match wire::text_controls_json(text) {
                Ok(v) => Ok(self.json_with(Some(v))),
                Err(e) => Err(e),
            },
            None => Ok(self.json_with(None)),
        }
    }

    fn to_json_with(&self, controls: Option<Json>) -> (r: Json)
        ensures
            r@ == self.json_with(json::opt_json_view(controls)),
    {
        let mut m = JsonMap::new();
        m.put_text("id", self.id.as_str());
        m.put_text("object", self.object.as_str());
        m.put("created_at", Json::integer(self.created_at));
        m.put_opt("completed_at", opt_signed(self.completed_at));
        m.put_text("status", self.status.as_str());
        m.put_opt("error", opt_failed_error(&self.error));
        m.put_opt("instructions", opt_instructions(&self.instructions));
        m.put_opt("max_output_tokens", opt_signed(self.max_output_tokens));
        m.put("output", items_to_json(&self.output));
        m.put_text("model", self.model.as_str());
        m.put_opt("parallel_tool_calls", opt_bool(self.parallel_tool_calls));
        m.put_opt_text("previous_response_id", &self.previous_response_id);
        m.put_opt("reasoning", opt_reasoning_request(&self.reasoning));
        m.put("store", Json::Bool(self.store));
        m.put_opt("temperature", opt_number(&self.temperature));
        m.put_opt("text", controls);
        m.put("tool_choice", response_tool_choice(&self.tool_choice));
        m.put("tools", tools_to_json(&self.tools));
        m.put_opt("top_p", opt_number(&self.top_p));
        m.put_opt("truncation", json::copy_opt(&self.truncation));
        m.put_opt_text("service_tier", &self.service_tier);
        m.put_opt_text("prompt_cache_key", &self.prompt_cache_key);
        m.put_opt_text("prompt_cache_retention", &self.prompt_cache_retention);
        m.put_opt("estimated_input_tokens", opt_unsigned(self.estimated_input_tokens));
        m.put_opt("usage", opt_usage(&self.usage));
        m.put_opt("metadata", opt_object(&self.metadata));
        m.put_opt("incomplete_details", opt_incomplete(&self.incomplete_details));
        m.put_opt_text("stop_sequence", &self.stop_sequence);
        m.put_opt("terminal_reason", opt_reason(self.terminal_reason));
        m.into_json()
    }

    /// The resource as JSON.
    pub fn to_json(&self) -> (r: Result<Json, String>)
        ensures
            wire::json_result(r) == self.json(),
    {
        match &self.text {
            Some(text) => match text.to_json() {
                Ok(v) => Ok(self.to_json_with(Some(v))),
                Err(e) => Err(e),
            },
            None => Ok(self.to_json_with(None)),
        }
    }
}

// --- Stream payloads ---------------------------------------------------------------------------

/// Payload of an output item, as JSON.
pub open spec fn output_item_json(x: OutputItemPayload) -> JsonView {
    let m = Seq::<(Seq<char>, JsonView)>::empty();
    let m = json::set_member(m, "output_index"@, json::whole(x.output_index as int));
    let m = json::set_member(m, "item"@, wire::item_json(x.item));
    JsonView::Object(m)
}

impl OutputItemPayload {
    /// Payload of an output item, as JSON.
    pub fn to_json(&self) -> (r: Json)
        ensures
            r@ == output_item_json(*self),
    {
        let mut m = JsonMap::new();
        m.put("output_index", Json::unsigned(self.output_index as u64));
        m.put("item", self.item.to_json());
        m.into_json()
    }
}

/// A piece of output text, as JSON.
pub open spec fn delta_json(x: DeltaPayload) -> JsonView {
    let m = Seq::<(Seq<char>, JsonView)>::empty();
    let m = json::put_text(m, "item_id"@, x.item_id@);
    let m = json::set_member(m, "output_index"@, json::whole(x.output_index as int));
    let m = json::set_member(m, "content_index"@, json::whole(x.content_index as int));
    let m = json::put_text(m, "delta"@, x.delta@);
    JsonView::Object(m)
}

impl DeltaPayload {
    /// A piece of output text, as JSON.
    pub fn to_json(&self) -> (r: Json)
        ensures
            r@ == delta_json(*self),
    {
        let mut m = JsonMap::new();
        m.put_text("item_id", self.item_id.as_str());
        m.put("output_index", Json::unsigned(self.output_index as u64));
        m.put("content_index", Json::unsigned(self.content_index as u64));
        m.put_text("delta", self.delta.as_str());
        m.into_json()
    }
}

/// A piece of a reasoning summary, as JSON.
pub open spec fn reasoning_delta_json(x: ReasoningDeltaPayload) -> JsonView {
    let m = Seq::<(Seq<char>, JsonView)>::empty();
    let m = json::put_text(m, "item_id"@, x.item_id@);
    let m = json::set_member(m, "output_index"@, json::whole(x.output_index as int));
    let m = json::set_member(m, "summary_index"@, json::whole(x.summary_index as int));
    let m = json::put_text(m, "delta"@, x.delta@);
    JsonView::Object(m)
}

impl ReasoningDeltaPayload {
    /// A piece of a reasoning summary, as JSON.
    pub fn to_json(&self) -> (r: Json)
        ensures
            r@ == reasoning_delta_json(*self),
    {
        let mut m = JsonMap::new();
        m.put_text("item_id", self.item_id.as_str());
        m.put("output_index", Json::unsigned(self.output_index as u64));
        m.put("summary_index", Json::unsigned(self.summary_index as u64));
        m.put_text("delta", self.delta.as_str());
        m.into_json()
    }
}

/// A finished reasoning summary, as JSON.
pub open spec fn reasoning_done_json(x: ReasoningTextDonePayload) -> JsonView {
    let m = Seq::<(Seq<char>, JsonView)>::empty();
    let m = json::put_text(m, "item_id"@, x.item_id@);
    let m = json::set_member(m, "output_index"@, json::whole(x.output_index as int));
    let m = json::set_member(m, "summary_index"@, json::whole(x.summary_index as int));
    let m = json::put_text(m, "text"@, x.text@);
    JsonView::Object(m)
}

impl ReasoningTextDonePayload {
    /// A finished reasoning summary, as JSON.
    pub fn to_json(&self) -> (r: Json)
        ensures
            r@ == reasoning_done_json(*self),
    {
        let mut m = JsonMap::new();
        m.put_text("item_id", self.item_id.as_str());
        m.put("output_index", Json::unsigned(self.output_index as u64));
        m.put("summary_index", Json::unsigned(self.summary_index as u64));
        m.put_text("text", self.text.as_str());
        m.into_json()
    }
}

/// The signature of a reasoning summary, as JSON.
pub open spec fn signature_json(x: ReasoningSignatureDeltaPayload) -> JsonView {
    let m = Seq::<(Seq<char>, JsonView)>::empty();
    let m = json::put_text(m, "item_id"@, x.item_id@);
    let m = json::set_member(m, "output_index"@, json::whole(x.output_index as int));
    let m = json::set_member(m, "summary_index"@, json::whole(x.summary_index as int));
    let m = json::put_text(m, "signature"@, x.signature@);
    JsonView::Object(m)
}

impl ReasoningSignatureDeltaPayload {
    /// The signature of a reasoning summary, as JSON.
    pub fn to_json(&self) -> (r: Json)
        ensures
            r@ == signature_json(*self),
    {
        let mut m = JsonMap::new();
        m.put_text("item_id", self.item_id.as_str());
        m.put("output_index", Json::unsigned(self.output_index as u64));
        m.put("summary_index", Json::unsigned(self.summary_index as u64));
        m.put_text("signature", self.signature.as_str());
        m.into_json()
    }
}

/// A finished output text, as JSON.
pub open spec fn text_done_json(x: TextDonePayload) -> JsonView {
    let m = Seq::<(Seq<char>, JsonView)>::empty();
    let m = json::put_text(m, "item_id"@, x.item_id@);
    let m = json::set_member(m, "output_index"@, json::whole(x.output_index as int));
    let m = json::set_member(m, "content_index"@, json::whole(x.content_index as int));
    let m = json::put_text(m, "text"@, x.text@);
    JsonView::Object(m)
}

impl TextDonePayload {
    /// A finished output text, as JSON.
    pub fn to_json(&self) -> (r: Json)
        ensures
            r@ == text_done_json(*self),
    {
        let mut m = JsonMap::new();
        m.put_text("item_id", self.item_id.as_str());
        m.put("output_index", Json::unsigned(self.output_index as u64));
        m.put("content_index", Json::unsigned(self.content_index as u64));
        m.put_text("text", self.text.as_str());
        m.into_json()
    }
}

/// A piece of a function's arguments, as JSON.
pub open spec fn arguments_delta_json(x: FunctionCallArgsDeltaPayload) -> JsonView {
    let m = Seq::<(Seq<char>, JsonView)>::empty();
    let m = json::put_text(m, "item_id"@, x.item_id@);
    let m = json::set_member(m, "output_index"@, json::whole(x.output_index as int));
    let m = json::put_text(m, "call_id"@, x.call_id@);
    let m = json::put_opt_text(m, "name"@, text::opt_view(x.name));
    let m = json::put_text(m, "delta"@, x.delta@);
    JsonView::Object(m)
}

impl FunctionCallArgsDeltaPayload {
    /// A piece of a function's arguments, as JSON.
    pub fn to_json(&self) -> (r: Json)
        ensures
            r@ == arguments_delta_json(*self),
    {
        let mut m = JsonMap::new();
        m.put_text("item_id", self.item_id.as_str());
        m.put("output_index", Json::unsigned(self.output_index as u64));
        m.put_text("call_id", self.call_id.as_str());
        m.put_opt_text("name", &self.name);
        m.put_text("delta", self.delta.as_str());
        m.into_json()
    }
}

/// A function's finished arguments, as JSON.
pub open spec fn arguments_done_json(x: FunctionCallArgsDonePayload) -> JsonView {
    let m = Seq::<(Seq<char>, JsonView)>::empty();
    let m = json::put_text(m, "item_id"@, x.item_id@);
    let m = json::set_member(m, "output_index"@, json::whole(x.output_index as int));
    let m = json::put_text(m, "call_id"@, x.call_id@);
    let m = json::put_text(m, "name"@, x.name@);
    let m = json::put_text(m, "arguments"@, x.arguments@);
    JsonView::Object(m)
}

impl FunctionCallArgsDonePayload {
    /// A function's finished arguments, as JSON.
    pub fn to_json(&self) -> (r: Json)
        ensures
            r@ == arguments_done_json(*self),
    {
        let mut m = JsonMap::new();
        m.put_text("item_id", self.item_id.as_str());
        m.put("output_index", Json::unsigned(self.output_index as u64));
        m.put_text("call_id", self.call_id.as_str());
        m.put_text("name", self.name.as_str());
        m.put_text("arguments", self.arguments.as_str());
        m.into_json()
    }
}

/// A piece of a custom tool's input, as JSON.
pub open spec fn input_delta_json(x: CustomToolCallInputDeltaPayload) -> JsonView {
    let m = Seq::<(Seq<char>, JsonView)>::empty();
    let m = json::put_text(m, "item_id"@, x.item_id@);
    let m = json::set_member(m, "output_index"@, json::whole(x.output_index as int));
    let m = json::put_text(m, "delta"@, x.delta@);
    JsonView::Object(m)
}

impl CustomToolCallInputDeltaPayload {
    /// A piece of a custom tool's input, as JSON.
    pub fn to_json(&self) -> (r: Json)
        ensures
            r@ == input_delta_json(*self),
    {
        let mut m = JsonMap::new();
        m.put_text("item_id", self.item_id.as_str());
        m.put("output_index", Json::unsigned(self.output_index as u64));
        m.put_text("delta", self.delta.as_str());
        m.into_json()
    }
}

/// A custom tool's finished input, as JSON.
pub open spec fn input_done_json(x: CustomToolCallInputDonePayload) -> JsonView {
    let m = Seq::<(Seq<char>, JsonView)>::empty();
    let m = json::put_text(m, "item_id"@, x.item_id@);
    let m = json::set_member(m, "output_index"@, json::whole(x.output_index as int));
    let m = json::put_text(m, "input"@, x.input@);
    JsonView::Object(m)
}

impl CustomToolCallInputDonePayload {
    /// A custom tool's finished input, as JSON.
    pub fn to_json(&self) -> (r: Json)
        ensures
            r@ == input_done_json(*self),
    {
        let mut m = JsonMap::new();
        m.put_text("item_id", self.item_id.as_str());
        m.put("output_index", Json::unsigned(self.output_index as u64));
        m.put_text("input", self.input.as_str());
        m.into_json()
    }
}

/// A piece of a refusal, as JSON.
pub open spec fn refusal_delta_json(x: RefusalDeltaPayload) -> JsonView {
    let m = Seq::<(Seq<char>, JsonView)>::empty();
    let m = json::put_text(m, "item_id"@, x.item_id@);
    let m = json::set_member(m, "output_index"@, json::whole(x.output_index as int));
    let m = json::set_member(m, "content_index"@, json::whole(x.content_index as int));
    let m = json::put_text(m, "delta"@, x.delta@);
    JsonView::Object(m)
}

impl RefusalDeltaPayload {
    /// A piece of a refusal, as JSON.
    pub fn to_json(&self) -> (r: Json)
        ensures
            r@ == refusal_delta_json(*self),
    {
        let mut m = JsonMap::new();
        m.put_text("item_id", self.item_id.as_str());
        m.put("output_index", Json::unsigned(self.output_index as u64));
        m.put("content_index", Json::unsigned(self.content_index as u64));
        m.put_text("delta", self.delta.as_str());
        m.into_json()
    }
}

/// A finished refusal, as JSON.
pub open spec fn refusal_done_json(x: RefusalDonePayload) -> JsonView {
    let m = Seq::<(Seq<char>, JsonView)>::empty();
    let m = json::put_text(m, "item_id"@, x.item_id@);
    let m = json::set_member(m, "output_index"@, json::whole(x.output_index as int));
    let m = json::set_member(m, "content_index"@, json::whole(x.content_index as int));
    let m = json::put_text(m, "refusal"@, x.refusal@);
    JsonView::Object(m)
}

impl RefusalDonePayload {
    /// A finished refusal, as JSON.
    pub fn to_json(&self) -> (r: Json)
        ensures
            r@ == refusal_done_json(*self),
    {
        let mut m = JsonMap::new();
        m.put_text("item_id", self.item_id.as_str());
        m.put("output_index", Json::unsigned(self.output_index as u64));
        m.put("content_index", Json::unsigned(self.content_index as u64));
        m.put_text("refusal", self.refusal.as_str());
        m.into_json()
    }
}

/// A part of output text, as JSON.
pub open spec fn content_part_json(x: ContentPartRef) -> JsonView {
    let m = Seq::<(Seq<char>, JsonView)>::empty();
    let m = json::put_text(m, "type"@, x.kind@);
    let m = json::put_text(m, "text"@, x.text@);
    let m = json::set_member(m, "annotations"@, JsonView::Array(json::items_view(x.annotations@)));
    JsonView::Object(m)
}

impl ContentPartRef {
    /// A part of output text, as JSON.
    pub fn to_json(&self) -> (r: Json)
        ensures
            r@ == content_part_json(*self),
    {
        let mut m = JsonMap::new();
        m.put_text("type", self.kind.as_str());
        m.put_text("text", self.text.as_str());
        m.put("annotations", Json::array(json::copy_items(&self.annotations)));
        m.into_json()
    }
}

/// Payload of a content part, as JSON.
pub open spec fn content_part_payload_json(x: ContentPartPayload) -> JsonView {
    let m = Seq::<(Seq<char>, JsonView)>::empty();
    let m = json::put_text(m, "item_id"@, x.item_id@);
    let m = json::set_member(m, "output_index"@, json::whole(x.output_index as int));
    let m = json::set_member(m, "content_index"@, json::whole(x.content_index as int));
    let m = json::set_member(m, "part"@, content_part_json(x.part));
    JsonView::Object(m)
}

impl ContentPartPayload {
    /// Payload of a content part, as JSON.
    pub fn to_json(&self) -> (r: Json)
        ensures
            r@ == content_part_payload_json(*self),
    {
        let mut m = JsonMap::new();
        m.put_text("item_id", self.item_id.as_str());
        m.put("output_index", Json::unsigned(self.output_index as u64));
        m.put("content_index", Json::unsigned(self.content_index as u64));
        m.put("part", self.part.to_json());
        m.into_json()
    }
}

/// A part that is a refusal, as JSON.
pub open spec fn refusal_part_json(x: RefusalContentPartRef) -> JsonView {
    let m = Seq::<(Seq<char>, JsonView)>::empty();
    let m = json::put_text(m, "type"@, x.kind@);
    let m = json::put_text(m, "refusal"@, x.refusal@);
    JsonView::Object(m)
}

impl RefusalContentPartRef {
    /// A part that is a refusal, as JSON.
    pub fn to_json(&self) -> (r: Json)
        ensures
            r@ == refusal_part_json(*self),
    {
        let mut m = JsonMap::new();
        m.put_text("type", self.kind.as_str());
        m.put_text("refusal", self.refusal.as_str());
        m.into_json()
    }
}

/// Payload of a refusal part, as JSON.
pub open spec fn refusal_part_payload_json(x: RefusalContentPartPayload) -> JsonView {
    let m = Seq::<(Seq<char>, JsonView)>::empty();
    let m = json::put_text(m, "item_id"@, x.item_id@);
    let m = json::set_member(m, "output_index"@, json::whole(x.output_index as int));
    let m = json::set_member(m, "content_index"@, json::whole(x.content_index as int));
    let m = json::set_member(m, "part"@, refusal_part_json(x.part));
    JsonView::Object(m)
}

impl RefusalContentPartPayload {
    /// Payload of a refusal part, as JSON.
    pub fn to_json(&self) -> (r: Json)
        ensures
            r@ == refusal_part_payload_json(*self),
    {
        let mut m = JsonMap::new();
        m.put_text("item_id", self.item_id.as_str());
        m.put("output_index", Json::unsigned(self.output_index as u64));
        m.put("content_index", Json::unsigned(self.content_index as u64));
        m.put("part", self.part.to_json());
        m.into_json()
    }
}

/// A part of a reasoning summary, as JSON.
pub open spec fn summary_part_json(x: ReasoningSummaryPartRef) -> JsonView {
    let m = Seq::<(Seq<char>, JsonView)>::empty();
    let m = json::put_text(m, "type"@, x.kind@);
    let m = json::put_text(m, "text"@, x.text@);
    JsonView::Object(m)
}

impl ReasoningSummaryPartRef {
    /// A part of a reasoning summary, as JSON.
    pub fn to_json(&self) -> (r: Json)
        ensures
            r@ == summary_part_json(*self),
    {
        let mut m = JsonMap::new();
        m.put_text("type", self.kind.as_str());
        m.put_text("text", self.text.as_str());
        m.into_json()
    }
}

/// Payload of a part of a reasoning summary, as JSON.
pub open spec fn summary_part_payload_json(x: ReasoningSummaryPartPayload) -> JsonView {
    let m = Seq::<(Seq<char>, JsonView)>::empty();
    let m = json::put_text(m, "item_id"@, x.item_id@);
    let m = json::set_member(m, "output_index"@, json::whole(x.output_index as int));
    let m = json::set_member(m, "summary_index"@, json::whole(x.summary_index as int));
    let m = json::set_member(m, "part"@, summary_part_json(x.part));
    JsonView::Object(m)
}

impl ReasoningSummaryPartPayload {
    /// Payload of a part of a reasoning summary, as JSON.
    pub fn to_json(&self) -> (r: Json)
        ensures
            r@ == summary_part_payload_json(*self),
    {
        let mut m = JsonMap::new();
        m.put_text("item_id", self.item_id.as_str());
        m.put("output_index", Json::unsigned(self.output_index as u64));
        m.put("summary_index", Json::unsigned(self.summary_index as u64));
        m.put("part", self.part.to_json());
        m.into_json()
    }
}

/// `m` with the first `n` members of a payload.
pub open spec fn with_payload(
    m: Seq<(Seq<char>, JsonView)>,
    payload: Seq<(Seq<char>, JsonView)>,
    n: int,
) -> Seq<(Seq<char>, JsonView)>
    decreases n,
{
    if n <= 0 || n > payload.len() {
        m
    } else {
        json::set_member(with_payload(m, payload, n - 1), payload[n - 1].0, payload[n - 1].1)
    }
}

/// An event's type, and beside it the members of its payload.
pub open spec fn envelope_json(kind: Seq<char>, payload: Seq<(Seq<char>, JsonView)>) -> JsonView {
    JsonView::Object(with_payload(json::tagged(kind), payload, payload.len() as int))
}

impl ResponsesEnvelope<JsonMap> {
    /// The event as JSON: its type, and beside it the members of its payload.
    pub fn to_json(&self) -> (r: Json)
        ensures
            r@ == envelope_json(self.kind@, self.payload@),
    {
        let mut m = JsonMap::of_type(self.kind.as_str());
        let entries = &self.payload.entries;
        let mut i: usize = 0;
        while i < entries.len()
            invariant
                entries == self.payload.entries,
                i <= entries@.len(),
                m@ == with_payload(json::tagged(self.kind@), self.payload@, i as int),
            decreases entries@.len() - i,
        {
            assert(self.payload@[i as int] == (entries@[i as int].0@, entries@[i as int].1@));
            m.put(entries[i].0.as_str(), entries[i].1.copy());
            i += 1;
        }
        m.into_json()
    }
}

/// The piece of text in a delta event is what the raw output shows of it.
pub proof fn law_delta_is_shown_raw(event: SseEvent, payload: DeltaPayload)
    requires
        text::has_suffix(event.event@, ".delta"@),
        event.data@ == delta_json(payload),
    ensures
        raw::raw_delta(event) == Some(payload.delta@),
{
    broadcast use json::lemma_member_of_set;

}

} // verus!
