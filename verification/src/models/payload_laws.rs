//! What is written of a response and of its events: every field under its own name.
use vstd::prelude::*;

use crate::json;
use crate::json::JsonView;
use crate::models::payloads;
use crate::models::shorthand;
use crate::models::wire;
use crate::models::written;
use crate::models::responses::ContentPartPayload;
use crate::models::responses::ContentPartRef;
use crate::models::responses::CustomToolCallInputDeltaPayload;
use crate::models::responses::CustomToolCallInputDonePayload;
use crate::models::responses::DeltaPayload;
use crate::models::responses::FailedError;
use crate::models::responses::FunctionCallArgsDeltaPayload;
use crate::models::responses::FunctionCallArgsDonePayload;
use crate::models::responses::IncompleteDetails;
use crate::models::responses::OutputItemPayload;
use crate::models::responses::ReasoningDeltaPayload;
use crate::models::responses::ReasoningSignatureDeltaPayload;
use crate::models::responses::ReasoningSummaryPartPayload;
use crate::models::responses::ReasoningSummaryPartRef;
use crate::models::responses::ReasoningTextDonePayload;
use crate::models::responses::RefusalContentPartPayload;
use crate::models::responses::RefusalContentPartRef;
use crate::models::responses::RefusalDeltaPayload;
use crate::models::responses::RefusalDonePayload;
use crate::models::responses::ResponseInputTokensDetails;
use crate::models::responses::ResponseOutputTokensDetails;
use crate::models::responses::ResponseResource;
use crate::models::responses::ResponseUsage;
use crate::models::responses::TextDonePayload;

verus! {

/// Why a response is not complete: each field is written under its own name, and nothing else is.
pub proof fn law_incomplete_members(x: IncompleteDetails)
    ensures
        payloads::incomplete_json(x) is Object,
        json::member(payloads::incomplete_json(x)->Object_0, "reason"@)
            == Some(JsonView::Text(x.reason@)),
        forall|k: Seq<char>|
            k != "reason"@
                ==> (#[trigger] json::member(payloads::incomplete_json(x)->Object_0, k)) is None,
{
    broadcast use written::group_members;

    reveal_strlit("reason");
    assert("reason"@.len() == 6);
}

/// What went wrong with a response: each field is written under its own name, and nothing else is.
pub proof fn law_failed_error_members(x: FailedError)
    ensures
        payloads::failed_error_json(x) is Object,
        json::member(payloads::failed_error_json(x)->Object_0, "code"@)
            == Some(JsonView::Text(x.code@)),
        json::member(payloads::failed_error_json(x)->Object_0, "message"@)
            == Some(JsonView::Text(x.message@)),
        forall|k: Seq<char>|
            k != "code"@ && k != "message"@
                ==> (#[trigger] json::member(payloads::failed_error_json(x)->Object_0, k)) is None,
{
    broadcast use written::group_members;

    reveal_strlit("code");
    reveal_strlit("message");
    assert("code"@.len() == 4);
    assert("message"@.len() == 7);
}

/// Input tokens in detail: each field is written under its own name, and nothing else is.
pub proof fn law_input_details_members(x: ResponseInputTokensDetails)
    ensures
        payloads::input_details_json(x) is Object,
        json::member(payloads::input_details_json(x)->Object_0, "cached_tokens"@)
            == Some(written::signed(x.cached_tokens)),
        forall|k: Seq<char>|
            k != "cached_tokens"@
                ==> (#[trigger] json::member(payloads::input_details_json(x)->Object_0, k)) is None,
{
    broadcast use written::group_members;

    reveal_strlit("cached_tokens");
    assert("cached_tokens"@.len() == 13);
}

/// Output tokens in detail: each field is written under its own name, and nothing else is.
pub proof fn law_output_details_members(x: ResponseOutputTokensDetails)
    ensures
        payloads::output_details_json(x) is Object,
        json::member(payloads::output_details_json(x)->Object_0, "reasoning_tokens"@)
            == Some(written::signed(x.reasoning_tokens)),
        forall|k: Seq<char>|
            k != "reasoning_tokens"@
                ==> (
                #[trigger] json::member(payloads::output_details_json(x)->Object_0, k)
                ) is None,
{
    broadcast use written::group_members;

    reveal_strlit("reasoning_tokens");
    assert("reasoning_tokens"@.len() == 16);
}

/// The tokens of a response: each field is written under its own name, and nothing else is.
pub proof fn law_usage_members(x: ResponseUsage)
    ensures
        payloads::usage_json(x) is Object,
        json::member(payloads::usage_json(x)->Object_0, "input_tokens"@)
            == Some(written::signed(x.input_tokens)),
        json::member(payloads::usage_json(x)->Object_0, "output_tokens"@)
            == Some(written::signed(x.output_tokens)),
        json::member(payloads::usage_json(x)->Object_0, "total_tokens"@)
            == Some(written::signed(x.total_tokens)),
        json::member(payloads::usage_json(x)->Object_0, "input_tokens_details"@)
            == (match x.input_tokens_details {
                Some(x) => Some(payloads::input_details_json(x)),
                None => None,
            }),
        json::member(payloads::usage_json(x)->Object_0, "output_tokens_details"@)
            == (match x.output_tokens_details {
                Some(x) => Some(payloads::output_details_json(x)),
                None => None,
            }),
        forall|k: Seq<char>|
            k != "input_tokens"@ && k != "output_tokens"@ && k != "total_tokens"@
                && k != "input_tokens_details"@ && k != "output_tokens_details"@
                ==> (#[trigger] json::member(payloads::usage_json(x)->Object_0, k)) is None,
{
    broadcast use written::group_members;

    reveal_strlit("input_tokens");
    reveal_strlit("output_tokens");
    reveal_strlit("total_tokens");
    reveal_strlit("input_tokens_details");
    reveal_strlit("output_tokens_details");
    assert("input_tokens"@.len() == 12);
    assert("output_tokens"@.len() == 13);
    assert("total_tokens"@.len() == 12);
    assert("input_tokens_details"@.len() == 20);
    assert("output_tokens_details"@.len() == 21);
    assert("input_tokens"@[0] != "total_tokens"@[0]);
}

/// Payload of an output item: each field is written under its own name, and nothing else is.
pub proof fn law_output_item_members(x: OutputItemPayload)
    ensures
        payloads::output_item_json(x) is Object,
        json::member(payloads::output_item_json(x)->Object_0, "output_index"@)
            == Some(written::unsigned(x.output_index as u64)),
        json::member(payloads::output_item_json(x)->Object_0, "item"@)
            == Some(wire::item_json(x.item)),
        forall|k: Seq<char>|
            k != "output_index"@ && k != "item"@
                ==> (#[trigger] json::member(payloads::output_item_json(x)->Object_0, k)) is None,
{
    broadcast use written::group_members;

    reveal_strlit("output_index");
    reveal_strlit("item");
    assert("output_index"@.len() == 12);
    assert("item"@.len() == 4);
}

/// A piece of output text: each field is written under its own name, and nothing else is.
pub proof fn law_delta_members(x: DeltaPayload)
    ensures
        payloads::delta_json(x) is Object,
        json::member(payloads::delta_json(x)->Object_0, "item_id"@)
            == Some(JsonView::Text(x.item_id@)),
        json::member(payloads::delta_json(x)->Object_0, "output_index"@)
            == Some(written::unsigned(x.output_index as u64)),
        json::member(payloads::delta_json(x)->Object_0, "content_index"@)
            == Some(written::unsigned(x.content_index as u64)),
        json::member(payloads::delta_json(x)->Object_0, "delta"@) == Some(JsonView::Text(x.delta@)),
        forall|k: Seq<char>|
            k != "item_id"@ && k != "output_index"@ && k != "content_index"@ && k != "delta"@
                ==> (#[trigger] json::member(payloads::delta_json(x)->Object_0, k)) is None,
{
    broadcast use written::group_members;

    reveal_strlit("item_id");
    reveal_strlit("output_index");
    reveal_strlit("content_index");
    reveal_strlit("delta");
    assert("item_id"@.len() == 7);
    assert("output_index"@.len() == 12);
    assert("content_index"@.len() == 13);
    assert("delta"@.len() == 5);
}

/// A piece of a reasoning summary: each field is written under its own name, and nothing else is.
pub proof fn law_reasoning_delta_members(x: ReasoningDeltaPayload)
    ensures
        payloads::reasoning_delta_json(x) is Object,
        json::member(payloads::reasoning_delta_json(x)->Object_0, "item_id"@)
            == Some(JsonView::Text(x.item_id@)),
        json::member(payloads::reasoning_delta_json(x)->Object_0, "output_index"@)
            == Some(written::unsigned(x.output_index as u64)),
        json::member(payloads::reasoning_delta_json(x)->Object_0, "summary_index"@)
            == Some(written::unsigned(x.summary_index as u64)),
        json::member(payloads::reasoning_delta_json(x)->Object_0, "delta"@)
            == Some(JsonView::Text(x.delta@)),
        forall|k: Seq<char>|
            k != "item_id"@ && k != "output_index"@ && k != "summary_index"@ && k != "delta"@
                ==> (
                #[trigger] json::member(payloads::reasoning_delta_json(x)->Object_0, k)
                ) is None,
{
    broadcast use written::group_members;

    reveal_strlit("item_id");
    reveal_strlit("output_index");
    reveal_strlit("summary_index");
    reveal_strlit("delta");
    assert("item_id"@.len() == 7);
    assert("output_index"@.len() == 12);
    assert("summary_index"@.len() == 13);
    assert("delta"@.len() == 5);
}

/// A finished reasoning summary: each field is written under its own name, and nothing else is.
pub proof fn law_reasoning_done_members(x: ReasoningTextDonePayload)
    ensures
        payloads::reasoning_done_json(x) is Object,
        json::member(payloads::reasoning_done_json(x)->Object_0, "item_id"@)
            == Some(JsonView::Text(x.item_id@)),
        json::member(payloads::reasoning_done_json(x)->Object_0, "output_index"@)
            == Some(written::unsigned(x.output_index as u64)),
        json::member(payloads::reasoning_done_json(x)->Object_0, "summary_index"@)
            == Some(written::unsigned(x.summary_index as u64)),
        json::member(payloads::reasoning_done_json(x)->Object_0, "text"@)
            == Some(JsonView::Text(x.text@)),
        forall|k: Seq<char>|
            k != "item_id"@ && k != "output_index"@ && k != "summary_index"@ && k != "text"@
                ==> (
                #[trigger] json::member(payloads::reasoning_done_json(x)->Object_0, k)
                ) is None,
{
    broadcast use written::group_members;

    reveal_strlit("item_id");
    reveal_strlit("output_index");
    reveal_strlit("summary_index");
    reveal_strlit("text");
    assert("item_id"@.len() == 7);
    assert("output_index"@.len() == 12);
    assert("summary_index"@.len() == 13);
    assert("text"@.len() == 4);
}

/// The signature of a reasoning summary: each field is written under its own name, and nothing
/// else is.
pub proof fn law_signature_members(x: ReasoningSignatureDeltaPayload)
    ensures
        payloads::signature_json(x) is Object,
        json::member(payloads::signature_json(x)->Object_0, "item_id"@)
            == Some(JsonView::Text(x.item_id@)),
        json::member(payloads::signature_json(x)->Object_0, "output_index"@)
            == Some(written::unsigned(x.output_index as u64)),
        json::member(payloads::signature_json(x)->Object_0, "summary_index"@)
            == Some(written::unsigned(x.summary_index as u64)),
        json::member(payloads::signature_json(x)->Object_0, "signature"@)
            == Some(JsonView::Text(x.signature@)),
        forall|k: Seq<char>|
            k != "item_id"@ && k != "output_index"@ && k != "summary_index"@ && k != "signature"@
                ==> (#[trigger] json::member(payloads::signature_json(x)->Object_0, k)) is None,
{
    broadcast use written::group_members;

    reveal_strlit("item_id");
    reveal_strlit("output_index");
    reveal_strlit("summary_index");
    reveal_strlit("signature");
    assert("item_id"@.len() == 7);
    assert("output_index"@.len() == 12);
    assert("summary_index"@.len() == 13);
    assert("signature"@.len() == 9);
}

/// A finished output text: each field is written under its own name, and nothing else is.
pub proof fn law_text_done_members(x: TextDonePayload)
    ensures
        payloads::text_done_json(x) is Object,
        json::member(payloads::text_done_json(x)->Object_0, "item_id"@)
            == Some(JsonView::Text(x.item_id@)),
        json::member(payloads::text_done_json(x)->Object_0, "output_index"@)
            == Some(written::unsigned(x.output_index as u64)),
        json::member(payloads::text_done_json(x)->Object_0, "content_index"@)
            == Some(written::unsigned(x.content_index as u64)),
        json::member(payloads::text_done_json(x)->Object_0, "text"@)
            == Some(JsonView::Text(x.text@)),
        forall|k: Seq<char>|
            k != "item_id"@ && k != "output_index"@ && k != "content_index"@ && k != "text"@
                ==> (#[trigger] json::member(payloads::text_done_json(x)->Object_0, k)) is None,
{
    broadcast use written::group_members;

    reveal_strlit("item_id");
    reveal_strlit("output_index");
    reveal_strlit("content_index");
    reveal_strlit("text");
    assert("item_id"@.len() == 7);
    assert("output_index"@.len() == 12);
    assert("content_index"@.len() == 13);
    assert("text"@.len() == 4);
}

/// A piece of a function's arguments: each field is written under its own name, and nothing
/// else is.
pub proof fn law_arguments_delta_members(x: FunctionCallArgsDeltaPayload)
    ensures
        payloads::arguments_delta_json(x) is Object,
        json::member(payloads::arguments_delta_json(x)->Object_0, "item_id"@)
            == Some(JsonView::Text(x.item_id@)),
        json::member(payloads::arguments_delta_json(x)->Object_0, "output_index"@)
            == Some(written::unsigned(x.output_index as u64)),
        json::member(payloads::arguments_delta_json(x)->Object_0, "call_id"@)
            == Some(JsonView::Text(x.call_id@)),
        json::member(payloads::arguments_delta_json(x)->Object_0, "name"@)
            == written::opt_text(x.name),
        json::member(payloads::arguments_delta_json(x)->Object_0, "delta"@)
            == Some(JsonView::Text(x.delta@)),
        forall|k: Seq<char>|
            k != "item_id"@ && k != "output_index"@ && k != "call_id"@ && k != "name"@
                && k != "delta"@
                ==> (
                #[trigger] json::member(payloads::arguments_delta_json(x)->Object_0, k)
                ) is None,
{
    broadcast use written::group_members;

    reveal_strlit("item_id");
    reveal_strlit("output_index");
    reveal_strlit("call_id");
    reveal_strlit("name");
    reveal_strlit("delta");
    assert("item_id"@.len() == 7);
    assert("output_index"@.len() == 12);
    assert("call_id"@.len() == 7);
    assert("name"@.len() == 4);
    assert("delta"@.len() == 5);
    assert("item_id"@[0] != "call_id"@[0]);
}

/// A function's finished arguments: each field is written under its own name, and nothing else is.
pub proof fn law_arguments_done_members(x: FunctionCallArgsDonePayload)
    ensures
        payloads::arguments_done_json(x) is Object,
        json::member(payloads::arguments_done_json(x)->Object_0, "item_id"@)
            == Some(JsonView::Text(x.item_id@)),
        json::member(payloads::arguments_done_json(x)->Object_0, "output_index"@)
            == Some(written::unsigned(x.output_index as u64)),
        json::member(payloads::arguments_done_json(x)->Object_0, "call_id"@)
            == Some(JsonView::Text(x.call_id@)),
        json::member(payloads::arguments_done_json(x)->Object_0, "name"@)
            == Some(JsonView::Text(x.name@)),
        json::member(payloads::arguments_done_json(x)->Object_0, "arguments"@)
            == Some(JsonView::Text(x.arguments@)),
        forall|k: Seq<char>|
            k != "item_id"@ && k != "output_index"@ && k != "call_id"@ && k != "name"@
                && k != "arguments"@
                ==> (
                #[trigger] json::member(payloads::arguments_done_json(x)->Object_0, k)
                ) is None,
{
    broadcast use written::group_members;

    reveal_strlit("item_id");
    reveal_strlit("output_index");
    reveal_strlit("call_id");
    reveal_strlit("name");
    reveal_strlit("arguments");
    assert("item_id"@.len() == 7);
    assert("output_index"@.len() == 12);
    assert("call_id"@.len() == 7);
    assert("name"@.len() == 4);
    assert("arguments"@.len() == 9);
    assert("item_id"@[0] != "call_id"@[0]);
}

/// A piece of a custom tool's input: each field is written under its own name, and nothing else is.
pub proof fn law_input_delta_members(x: CustomToolCallInputDeltaPayload)
    ensures
        payloads::input_delta_json(x) is Object,
        json::member(payloads::input_delta_json(x)->Object_0, "item_id"@)
            == Some(JsonView::Text(x.item_id@)),
        json::member(payloads::input_delta_json(x)->Object_0, "output_index"@)
            == Some(written::unsigned(x.output_index as u64)),
        json::member(payloads::input_delta_json(x)->Object_0, "delta"@)
            == Some(JsonView::Text(x.delta@)),
        forall|k: Seq<char>|
            k != "item_id"@ && k != "output_index"@ && k != "delta"@
                ==> (#[trigger] json::member(payloads::input_delta_json(x)->Object_0, k)) is None,
{
    broadcast use written::group_members;

    reveal_strlit("item_id");
    reveal_strlit("output_index");
    reveal_strlit("delta");
    assert("item_id"@.len() == 7);
    assert("output_index"@.len() == 12);
    assert("delta"@.len() == 5);
}

/// A custom tool's finished input: each field is written under its own name, and nothing else is.
pub proof fn law_input_done_members(x: CustomToolCallInputDonePayload)
    ensures
        payloads::input_done_json(x) is Object,
        json::member(payloads::input_done_json(x)->Object_0, "item_id"@)
            == Some(JsonView::Text(x.item_id@)),
        json::member(payloads::input_done_json(x)->Object_0, "output_index"@)
            == Some(written::unsigned(x.output_index as u64)),
        json::member(payloads::input_done_json(x)->Object_0, "input"@)
            == Some(JsonView::Text(x.input@)),
        forall|k: Seq<char>|
            k != "item_id"@ && k != "output_index"@ && k != "input"@
                ==> (#[trigger] json::member(payloads::input_done_json(x)->Object_0, k)) is None,
{
    broadcast use written::group_members;

    reveal_strlit("item_id");
    reveal_strlit("output_index");
    reveal_strlit("input");
    assert("item_id"@.len() == 7);
    assert("output_index"@.len() == 12);
    assert("input"@.len() == 5);
}

/// A piece of a refusal: each field is written under its own name, and nothing else is.
pub proof fn law_refusal_delta_members(x: RefusalDeltaPayload)
    ensures
        payloads::refusal_delta_json(x) is Object,
        json::member(payloads::refusal_delta_json(x)->Object_0, "item_id"@)
            == Some(JsonView::Text(x.item_id@)),
        json::member(payloads::refusal_delta_json(x)->Object_0, "output_index"@)
            == Some(written::unsigned(x.output_index as u64)),
        json::member(payloads::refusal_delta_json(x)->Object_0, "content_index"@)
            == Some(written::unsigned(x.content_index as u64)),
        json::member(payloads::refusal_delta_json(x)->Object_0, "delta"@)
            == Some(JsonView::Text(x.delta@)),
        forall|k: Seq<char>|
            k != "item_id"@ && k != "output_index"@ && k != "content_index"@ && k != "delta"@
                ==> (#[trigger] json::member(payloads::refusal_delta_json(x)->Object_0, k)) is None,
{
    broadcast use written::group_members;

    reveal_strlit("item_id");
    reveal_strlit("output_index");
    reveal_strlit("content_index");
    reveal_strlit("delta");
    assert("item_id"@.len() == 7);
    assert("output_index"@.len() == 12);
    assert("content_index"@.len() == 13);
    assert("delta"@.len() == 5);
}

/// A finished refusal: each field is written under its own name, and nothing else is.
pub proof fn law_refusal_done_members(x: RefusalDonePayload)
    ensures
        payloads::refusal_done_json(x) is Object,
        json::member(payloads::refusal_done_json(x)->Object_0, "item_id"@)
            == Some(JsonView::Text(x.item_id@)),
        json::member(payloads::refusal_done_json(x)->Object_0, "output_index"@)
            == Some(written::unsigned(x.output_index as u64)),
        json::member(payloads::refusal_done_json(x)->Object_0, "content_index"@)
            == Some(written::unsigned(x.content_index as u64)),
        json::member(payloads::refusal_done_json(x)->Object_0, "refusal"@)
            == Some(JsonView::Text(x.refusal@)),
        forall|k: Seq<char>|
            k != "item_id"@ && k != "output_index"@ && k != "content_index"@ && k != "refusal"@
                ==> (#[trigger] json::member(payloads::refusal_done_json(x)->Object_0, k)) is None,
{
    broadcast use written::group_members;

    reveal_strlit("item_id");
    reveal_strlit("output_index");
    reveal_strlit("content_index");
    reveal_strlit("refusal");
    assert("item_id"@.len() == 7);
    assert("output_index"@.len() == 12);
    assert("content_index"@.len() == 13);
    assert("refusal"@.len() == 7);
    assert("item_id"@[0] != "refusal"@[0]);
}

/// A part of output text: each field is written under its own name, and nothing else is.
pub proof fn law_content_part_members(x: ContentPartRef)
    ensures
        payloads::content_part_json(x) is Object,
        json::member(payloads::content_part_json(x)->Object_0, "type"@)
            == Some(JsonView::Text(x.kind@)),
        json::member(payloads::content_part_json(x)->Object_0, "text"@)
            == Some(JsonView::Text(x.text@)),
        json::member(payloads::content_part_json(x)->Object_0, "annotations"@)
            == Some(written::values(x.annotations@)),
        forall|k: Seq<char>|
            k != "type"@ && k != "text"@ && k != "annotations"@
                ==> (#[trigger] json::member(payloads::content_part_json(x)->Object_0, k)) is None,
{
    broadcast use written::group_members;

    reveal_strlit("type");
    reveal_strlit("text");
    reveal_strlit("annotations");
    assert("type"@.len() == 4);
    assert("text"@.len() == 4);
    assert("annotations"@.len() == 11);
    assert("type"@[1] != "text"@[1]);
    written::lemma_values(x.annotations@);
}

/// Payload of a content part: each field is written under its own name, and nothing else is.
pub proof fn law_content_part_payload_members(x: ContentPartPayload)
    ensures
        payloads::content_part_payload_json(x) is Object,
        json::member(payloads::content_part_payload_json(x)->Object_0, "item_id"@)
            == Some(JsonView::Text(x.item_id@)),
        json::member(payloads::content_part_payload_json(x)->Object_0, "output_index"@)
            == Some(written::unsigned(x.output_index as u64)),
        json::member(payloads::content_part_payload_json(x)->Object_0, "content_index"@)
            == Some(written::unsigned(x.content_index as u64)),
        json::member(payloads::content_part_payload_json(x)->Object_0, "part"@)
            == Some(payloads::content_part_json(x.part)),
        forall|k: Seq<char>|
            k != "item_id"@ && k != "output_index"@ && k != "content_index"@ && k != "part"@
                ==> (
                #[trigger] json::member(payloads::content_part_payload_json(x)->Object_0, k)
                ) is None,
{
    broadcast use written::group_members;

    reveal_strlit("item_id");
    reveal_strlit("output_index");
    reveal_strlit("content_index");
    reveal_strlit("part");
    assert("item_id"@.len() == 7);
    assert("output_index"@.len() == 12);
    assert("content_index"@.len() == 13);
    assert("part"@.len() == 4);
}

/// A part that is a refusal: each field is written under its own name, and nothing else is.
pub proof fn law_refusal_part_members(x: RefusalContentPartRef)
    ensures
        payloads::refusal_part_json(x) is Object,
        json::member(payloads::refusal_part_json(x)->Object_0, "type"@)
            == Some(JsonView::Text(x.kind@)),
        json::member(payloads::refusal_part_json(x)->Object_0, "refusal"@)
            == Some(JsonView::Text(x.refusal@)),
        forall|k: Seq<char>|
            k != "type"@ && k != "refusal"@
                ==> (#[trigger] json::member(payloads::refusal_part_json(x)->Object_0, k)) is None,
{
    broadcast use written::group_members;

    reveal_strlit("type");
    reveal_strlit("refusal");
    assert("type"@.len() == 4);
    assert("refusal"@.len() == 7);
}

/// Payload of a refusal part: each field is written under its own name, and nothing else is.
pub proof fn law_refusal_part_payload_members(x: RefusalContentPartPayload)
    ensures
        payloads::refusal_part_payload_json(x) is Object,
        json::member(payloads::refusal_part_payload_json(x)->Object_0, "item_id"@)
            == Some(JsonView::Text(x.item_id@)),
        json::member(payloads::refusal_part_payload_json(x)->Object_0, "output_index"@)
            == Some(written::unsigned(x.output_index as u64)),
        json::member(payloads::refusal_part_payload_json(x)->Object_0, "content_index"@)
            == Some(written::unsigned(x.content_index as u64)),
        json::member(payloads::refusal_part_payload_json(x)->Object_0, "part"@)
            == Some(payloads::refusal_part_json(x.part)),
        forall|k: Seq<char>|
            k != "item_id"@ && k != "output_index"@ && k != "content_index"@ && k != "part"@
                ==> (
                #[trigger] json::member(payloads::refusal_part_payload_json(x)->Object_0, k)
                ) is None,
{
    broadcast use written::group_members;

    reveal_strlit("item_id");
    reveal_strlit("output_index");
    reveal_strlit("content_index");
    reveal_strlit("part");
    assert("item_id"@.len() == 7);
    assert("output_index"@.len() == 12);
    assert("content_index"@.len() == 13);
    assert("part"@.len() == 4);
}

/// A part of a reasoning summary: each field is written under its own name, and nothing else is.
pub proof fn law_summary_part_members(x: ReasoningSummaryPartRef)
    ensures
        payloads::summary_part_json(x) is Object,
        json::member(payloads::summary_part_json(x)->Object_0, "type"@)
            == Some(JsonView::Text(x.kind@)),
        json::member(payloads::summary_part_json(x)->Object_0, "text"@)
            == Some(JsonView::Text(x.text@)),
        forall|k: Seq<char>|
            k != "type"@ && k != "text"@
                ==> (#[trigger] json::member(payloads::summary_part_json(x)->Object_0, k)) is None,
{
    broadcast use written::group_members;

    reveal_strlit("type");
    reveal_strlit("text");
    assert("type"@.len() == 4);
    assert("text"@.len() == 4);
    assert("type"@[1] != "text"@[1]);
}

/// Payload of a part of a reasoning summary: each field is written under its own name, and
/// nothing else is.
pub proof fn law_summary_part_payload_members(x: ReasoningSummaryPartPayload)
    ensures
        payloads::summary_part_payload_json(x) is Object,
        json::member(payloads::summary_part_payload_json(x)->Object_0, "item_id"@)
            == Some(JsonView::Text(x.item_id@)),
        json::member(payloads::summary_part_payload_json(x)->Object_0, "output_index"@)
            == Some(written::unsigned(x.output_index as u64)),
        json::member(payloads::summary_part_payload_json(x)->Object_0, "summary_index"@)
            == Some(written::unsigned(x.summary_index as u64)),
        json::member(payloads::summary_part_payload_json(x)->Object_0, "part"@)
            == Some(payloads::summary_part_json(x.part)),
        forall|k: Seq<char>|
            k != "item_id"@ && k != "output_index"@ && k != "summary_index"@ && k != "part"@
                ==> (
                #[trigger] json::member(payloads::summary_part_payload_json(x)->Object_0, k)
                ) is None,
{
    broadcast use written::group_members;

    reveal_strlit("item_id");
    reveal_strlit("output_index");
    reveal_strlit("summary_index");
    reveal_strlit("part");
    assert("item_id"@.len() == 7);
    assert("output_index"@.len() == 12);
    assert("summary_index"@.len() == 13);
    assert("part"@.len() == 4);
}

/// Each field of a response is written under its own name, and nothing else is.
pub proof fn law_resource_members(x: ResponseResource, controls: Option<JsonView>)
    ensures
        x.json_with(controls) is Object,
        json::member(x.json_with(controls)->Object_0, "id"@) == Some(JsonView::Text(x.id@)),
        json::member(x.json_with(controls)->Object_0, "object"@) == Some(JsonView::Text(x.object@)),
        json::member(x.json_with(controls)->Object_0, "created_at"@)
            == Some(written::signed(x.created_at)),
        json::member(x.json_with(controls)->Object_0, "completed_at"@)
            == written::opt_signed(x.completed_at),
        json::member(x.json_with(controls)->Object_0, "status"@) == Some(JsonView::Text(x.status@)),
        json::member(x.json_with(controls)->Object_0, "error"@)
            == (match x.error { Some(x) => Some(payloads::failed_error_json(x)), None => None }),
        json::member(x.json_with(controls)->Object_0, "instructions"@)
            == (match x.instructions { Some(x) => Some(wire::instructions_json(x)), None => None }),
        json::member(x.json_with(controls)->Object_0, "max_output_tokens"@)
            == written::opt_signed(x.max_output_tokens),
        json::member(x.json_with(controls)->Object_0, "output"@)
            == Some(wire::items_json(x.output@)),
        json::member(x.json_with(controls)->Object_0, "model"@) == Some(JsonView::Text(x.model@)),
        json::member(x.json_with(controls)->Object_0, "parallel_tool_calls"@)
            == written::opt_flag(x.parallel_tool_calls),
        json::member(x.json_with(controls)->Object_0, "previous_response_id"@)
            == written::opt_text(x.previous_response_id),
        json::member(x.json_with(controls)->Object_0, "reasoning"@)
            == (match x.reasoning {
                Some(x) => Some(wire::reasoning_request_json(x)),
                None => None,
            }),
        json::member(x.json_with(controls)->Object_0, "store"@) == Some(JsonView::Bool(x.store)),
        json::member(x.json_with(controls)->Object_0, "temperature"@)
            == written::opt_number(x.temperature),
        json::member(x.json_with(controls)->Object_0, "text"@) == controls,
        json::member(x.json_with(controls)->Object_0, "tool_choice"@)
            == Some(shorthand::flat_tool_choice(x.tool_choice@)),
        json::member(x.json_with(controls)->Object_0, "tools"@) == Some(wire::tools_json(x.tools@)),
        json::member(x.json_with(controls)->Object_0, "top_p"@) == written::opt_number(x.top_p),
        json::member(x.json_with(controls)->Object_0, "truncation"@)
            == written::opt_value(x.truncation),
        json::member(x.json_with(controls)->Object_0, "service_tier"@)
            == written::opt_text(x.service_tier),
        json::member(x.json_with(controls)->Object_0, "prompt_cache_key"@)
            == written::opt_text(x.prompt_cache_key),
        json::member(x.json_with(controls)->Object_0, "prompt_cache_retention"@)
            == written::opt_text(x.prompt_cache_retention),
        json::member(x.json_with(controls)->Object_0, "estimated_input_tokens"@)
            == written::opt_unsigned(x.estimated_input_tokens),
        json::member(x.json_with(controls)->Object_0, "usage"@)
            == (match x.usage { Some(x) => Some(payloads::usage_json(x)), None => None }),
        json::member(x.json_with(controls)->Object_0, "metadata"@)
            == written::opt_object(x.metadata),
        json::member(x.json_with(controls)->Object_0, "incomplete_details"@)
            == (match x.incomplete_details {
                Some(x) => Some(payloads::incomplete_json(x)),
                None => None,
            }),
        json::member(x.json_with(controls)->Object_0, "stop_sequence"@)
            == written::opt_text(x.stop_sequence),
        json::member(x.json_with(controls)->Object_0, "terminal_reason"@)
            == (match x.terminal_reason {
                Some(x) => Some(JsonView::Text(x.name())),
                None => None,
            }),
        forall|k: Seq<char>|
            k != "id"@ && k != "object"@ && k != "created_at"@ && k != "completed_at"@
                && k != "status"@ && k != "error"@ && k != "instructions"@
                && k != "max_output_tokens"@ && k != "output"@ && k != "model"@
                && k != "parallel_tool_calls"@ && k != "previous_response_id"@ && k != "reasoning"@
                && k != "store"@ && k != "temperature"@ && k != "text"@ && k != "tool_choice"@
                && k != "tools"@ && k != "top_p"@ && k != "truncation"@ && k != "service_tier"@
                && k != "prompt_cache_key"@ && k != "prompt_cache_retention"@
                && k != "estimated_input_tokens"@ && k != "usage"@ && k != "metadata"@
                && k != "incomplete_details"@ && k != "stop_sequence"@ && k != "terminal_reason"@
                ==> (#[trigger] json::member(x.json_with(controls)->Object_0, k)) is None,
{
    broadcast use written::group_members;

    reveal_strlit("id");
    reveal_strlit("object");
    reveal_strlit("created_at");
    reveal_strlit("completed_at");
    reveal_strlit("status");
    reveal_strlit("error");
    reveal_strlit("instructions");
    reveal_strlit("max_output_tokens");
    reveal_strlit("output");
    reveal_strlit("model");
    reveal_strlit("parallel_tool_calls");
    reveal_strlit("previous_response_id");
    reveal_strlit("reasoning");
    reveal_strlit("store");
    reveal_strlit("temperature");
    reveal_strlit("text");
    reveal_strlit("tool_choice");
    reveal_strlit("tools");
    reveal_strlit("top_p");
    reveal_strlit("truncation");
    reveal_strlit("service_tier");
    reveal_strlit("prompt_cache_key");
    reveal_strlit("prompt_cache_retention");
    reveal_strlit("estimated_input_tokens");
    reveal_strlit("usage");
    reveal_strlit("metadata");
    reveal_strlit("incomplete_details");
    reveal_strlit("stop_sequence");
    reveal_strlit("terminal_reason");
    assert("id"@.len() == 2);
    assert("object"@.len() == 6);
    assert("created_at"@.len() == 10);
    assert("completed_at"@.len() == 12);
    assert("status"@.len() == 6);
    assert("error"@.len() == 5);
    assert("instructions"@.len() == 12);
    assert("max_output_tokens"@.len() == 17);
    assert("output"@.len() == 6);
    assert("model"@.len() == 5);
    assert("parallel_tool_calls"@.len() == 19);
    assert("previous_response_id"@.len() == 20);
    assert("reasoning"@.len() == 9);
    assert("store"@.len() == 5);
    assert("temperature"@.len() == 11);
    assert("text"@.len() == 4);
    assert("tool_choice"@.len() == 11);
    assert("tools"@.len() == 5);
    assert("top_p"@.len() == 5);
    assert("truncation"@.len() == 10);
    assert("service_tier"@.len() == 12);
    assert("prompt_cache_key"@.len() == 16);
    assert("prompt_cache_retention"@.len() == 22);
    assert("estimated_input_tokens"@.len() == 22);
    assert("usage"@.len() == 5);
    assert("metadata"@.len() == 8);
    assert("incomplete_details"@.len() == 18);
    assert("stop_sequence"@.len() == 13);
    assert("terminal_reason"@.len() == 15);
    assert("object"@[0] != "status"@[0]);
    assert("object"@[1] != "output"@[1]);
    assert("created_at"@[0] != "truncation"@[0]);
    assert("completed_at"@[0] != "instructions"@[0]);
    assert("completed_at"@[0] != "service_tier"@[0]);
    assert("status"@[0] != "output"@[0]);
    assert("error"@[0] != "model"@[0]);
    assert("error"@[0] != "store"@[0]);
    assert("error"@[0] != "tools"@[0]);
    assert("error"@[0] != "top_p"@[0]);
    assert("error"@[0] != "usage"@[0]);
    assert("instructions"@[0] != "service_tier"@[0]);
    assert("model"@[0] != "store"@[0]);
    assert("model"@[0] != "tools"@[0]);
    assert("model"@[0] != "top_p"@[0]);
    assert("model"@[0] != "usage"@[0]);
    assert("store"@[0] != "tools"@[0]);
    assert("store"@[0] != "top_p"@[0]);
    assert("store"@[0] != "usage"@[0]);
    assert("temperature"@[1] != "tool_choice"@[1]);
    assert("tools"@[2] != "top_p"@[2]);
    assert("tools"@[0] != "usage"@[0]);
    assert("top_p"@[0] != "usage"@[0]);
    assert("prompt_cache_retention"@[0] != "estimated_input_tokens"@[0]);
}

} // verus!
