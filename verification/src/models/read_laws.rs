//! What is read of the values on the chat surface, and when.
use vstd::prelude::*;

use crate::json::JsonView;
use crate::json;
use crate::models::chat::ChatChunkChoice;
use crate::models::chat::ChatCompletionChunk;
use crate::models::chat::ChatCompletionRequest;
use crate::models::chat::ChatCompletionResponse;
use crate::models::chat::ChatDelta;
use crate::models::chat::ChatFunctionCall;
use crate::models::chat::ChatMessage;
use crate::models::chat::ChatResponseChoice;
use crate::models::chat::ChatResponseMessage;
use crate::models::chat::ChatThinking;
use crate::models::chat::ChatTool;
use crate::models::chat::ChatToolCall;
use crate::models::chat::ChatToolDefinition;
use crate::models::chat::ChunkUsage;
use crate::models::chat::CompletionTokensDetails;
use crate::models::chat::PromptTokensDetails;
use crate::models::chat::StreamOptions;
use crate::models::chat;
use crate::models::read;
use crate::models::read_chat;
use crate::models::read_completion;
use crate::models::reading;
use crate::text;

verus! {

/// Texts that were read are those of the elements.
pub proof fn lemma_texts(items: Seq<JsonView>, x: Vec<String>)
    requires
        read::texts_of(items) == Some(text::strings_view(x@)),
    ensures
        reading::texts(Some(JsonView::Array(items)), x),
{
    let read = read::texts_of(items)->0;
    assert(read.len() == items.len());
    assert forall|i: int| 0 <= i < items.len() implies items[i] == JsonView::Text(
        (#[trigger] x@[i])@,
    ) by {
        assert(items[i] is Text);
        assert(read[i] == items[i]->Text_0);
        assert(text::strings_view(x@)[i] == x@[i]@);
    }
}

/// The schema of any object has one member.
pub proof fn lemma_any_object()
    ensures
        json::tagged("object"@) == seq![("type"@, JsonView::Text("object"@))],
{
    assert(json::tagged("object"@) =~= seq![("type"@, JsonView::Text("object"@))]);
}

/// Places to stop that were read are those of the value.
pub proof fn lemma_stop(v: JsonView, x: Vec<String>)
    requires
        chat::stop_from(v) == Ok::<_, Seq<char>>(Some(text::strings_view(x@))),
    ensures
        reading::stop(Some(v), Some(x)),
{
    let read = text::strings_view(x@);
    assert(read.len() == x@.len());
    assert forall|i: int| 0 <= i < x@.len() implies read[i] == (#[trigger] x@[i])@ by {}
    if v is Text {
        assert(read[0] == x@[0]@);
    }
}

/// Places to stop can be read just where they are a text or texts.
pub proof fn lemma_stop_is_readable(v: JsonView)
    ensures
        chat::stop_from(v) is Ok <==> reading::can_stop(Some(v)),
{
}

/// The function of a call is read by its members, each under its own name.
pub proof fn law_function_call_is_read(m: Seq<(Seq<char>, JsonView)>, x: ChatFunctionCall)
    requires
        read_chat::function_call_from(JsonView::Object(m)) == Some(x@),
    ensures
        reading::opt_text(json::member(m, "name"@), x.name),
        reading::opt_value(json::member(m, "arguments"@), x.arguments),
{
}

/// The function of a call is read just where each member is what it should be.
pub proof fn law_function_call_is_readable(m: Seq<(Seq<char>, JsonView)>)
    ensures
        read_chat::function_call_from(JsonView::Object(m)) is Some
            <==> reading::can_opt_text(json::member(m, "name"@))
                && reading::can_opt_value(json::member(m, "arguments"@)),
{
}

/// The function of a call may be an array of its fields, which are then taken in their order.
pub proof fn law_function_call_by_position(items: Seq<JsonView>)
    ensures
        2 <= items.len() <= 2
            ==> read_chat::function_call_from(JsonView::Array(items))
                == read_chat::function_call_from(
                    JsonView::Object(
                        Seq::new(items.len(), |i: int| (seq!["name"@, "arguments"@][i], items[i])),
                    ),
                ),
        !(2 <= items.len() <= 2) ==> read_chat::function_call_from(JsonView::Array(items)) is None,
{
}

/// A tool call is read by its members, each under its own name.
pub proof fn law_tool_call_is_read(m: Seq<(Seq<char>, JsonView)>, x: ChatToolCall)
    requires
        read_chat::tool_call_from(JsonView::Object(m)) == Some(x@),
    ensures
        reading::opt_text(json::member(m, "id"@), x.id),
        reading::opt_usize(json::member(m, "index"@), x.index),
        reading::call_kind(json::member(m, "type"@), x.kind),
        json::member(m, "function"@) is None
            ==> x.function.name is None && x.function.arguments is None,
        json::member(m, "function"@) is Some
            ==> read_chat::function_call_from(json::member(m, "function"@)->0) == Some(x.function@),
{
}

/// A tool call is read just where each member is what it should be.
pub proof fn law_tool_call_is_readable(m: Seq<(Seq<char>, JsonView)>)
    ensures
        read_chat::tool_call_from(JsonView::Object(m)) is Some
            <==> reading::can_opt_text(json::member(m, "id"@))
                && reading::can_opt_usize(json::member(m, "index"@))
                && reading::can_call_kind(json::member(m, "type"@))
                && read_chat::call_function_at(m, "function"@) is Some,
{
}

/// A tool call may be an array of its fields, which are then taken in their order.
pub proof fn law_tool_call_by_position(items: Seq<JsonView>)
    ensures
        2 <= items.len() <= 4
            ==> read_chat::tool_call_from(JsonView::Array(items))
                == read_chat::tool_call_from(
                    JsonView::Object(
                        Seq::new(
                            items.len(),
                            |i: int| (seq!["id"@, "index"@, "type"@, "function"@][i], items[i]),
                        ),
                    ),
                ),
        !(2 <= items.len() <= 4) ==> read_chat::tool_call_from(JsonView::Array(items)) is None,
{
}

/// The details of what was asked is read by its members, each under its own name.
pub proof fn law_prompt_details_is_read(m: Seq<(Seq<char>, JsonView)>, x: PromptTokensDetails)
    requires
        read_chat::prompt_details_from(JsonView::Object(m)) == Some(x@),
    ensures
        reading::i64_or_zero(json::member(m, "cached_tokens"@), x.cached_tokens),
{
}

/// The details of what was asked is read just where each member is what it should be.
pub proof fn law_prompt_details_is_readable(m: Seq<(Seq<char>, JsonView)>)
    ensures
        read_chat::prompt_details_from(JsonView::Object(m)) is Some
            <==> reading::can_i64_or_zero(json::member(m, "cached_tokens"@)),
{
}

/// The details of what was asked may be an array of its fields, which are then taken in their
/// order.
pub proof fn law_prompt_details_by_position(items: Seq<JsonView>)
    ensures
        0 <= items.len() <= 1
            ==> read_chat::prompt_details_from(JsonView::Array(items))
                == read_chat::prompt_details_from(
                    JsonView::Object(
                        Seq::new(items.len(), |i: int| (seq!["cached_tokens"@][i], items[i])),
                    ),
                ),
        !(0 <= items.len() <= 1) ==> read_chat::prompt_details_from(JsonView::Array(items)) is None,
{
}

/// The details of what was answered is read by its members, each under its own name.
pub proof fn law_completion_details_is_read(
    m: Seq<(Seq<char>, JsonView)>,
    x: CompletionTokensDetails,
)
    requires
        read_chat::completion_details_from(JsonView::Object(m)) == Some(x@),
    ensures
        reading::i64_or_zero(json::member(m, "reasoning_tokens"@), x.reasoning_tokens),
{
}

/// The details of what was answered is read just where each member is what it should be.
pub proof fn law_completion_details_is_readable(m: Seq<(Seq<char>, JsonView)>)
    ensures
        read_chat::completion_details_from(JsonView::Object(m)) is Some
            <==> reading::can_i64_or_zero(json::member(m, "reasoning_tokens"@)),
{
}

/// The details of what was answered may be an array of its fields, which are then taken in
/// their order.
pub proof fn law_completion_details_by_position(items: Seq<JsonView>)
    ensures
        0 <= items.len() <= 1
            ==> read_chat::completion_details_from(JsonView::Array(items))
                == read_chat::completion_details_from(
                    JsonView::Object(
                        Seq::new(items.len(), |i: int| (seq!["reasoning_tokens"@][i], items[i])),
                    ),
                ),
        !(0 <= items.len() <= 1)
            ==> read_chat::completion_details_from(JsonView::Array(items)) is None,
{
}

/// The usage of a stream is read by its members, each under its own name.
pub proof fn law_chunk_usage_is_read(m: Seq<(Seq<char>, JsonView)>, x: ChunkUsage)
    requires
        read_chat::chunk_usage_from(JsonView::Object(m)) == Some(x@),
    ensures
        reading::i64(json::member(m, "prompt_tokens"@), x.prompt_tokens),
        reading::i64(json::member(m, "completion_tokens"@), x.completion_tokens),
        reading::i64(json::member(m, "total_tokens"@), x.total_tokens),
        reading::opt_i64(json::member(m, "reasoning_tokens"@), x.reasoning_tokens),
        x.prompt_tokens_details is None
            <==> reading::nothing(json::member(m, "prompt_tokens_details"@)),
        x.prompt_tokens_details is Some
            ==> read_chat::prompt_details_from(json::member(m, "prompt_tokens_details"@)->0)
                == Some((x.prompt_tokens_details->0)@),
        x.completion_tokens_details is None
            <==> reading::nothing(json::member(m, "completion_tokens_details"@)),
        x.completion_tokens_details is Some
            ==> read_chat::completion_details_from(json::member(m, "completion_tokens_details"@)->0)
                == Some((x.completion_tokens_details->0)@),
{
}

/// The usage of a stream is read just where each member is what it should be.
pub proof fn law_chunk_usage_is_readable(m: Seq<(Seq<char>, JsonView)>)
    ensures
        read_chat::chunk_usage_from(JsonView::Object(m)) is Some
            <==> reading::can_i64(json::member(m, "prompt_tokens"@))
                && reading::can_i64(json::member(m, "completion_tokens"@))
                && reading::can_i64(json::member(m, "total_tokens"@))
                && reading::can_opt_i64(json::member(m, "reasoning_tokens"@))
                && (
                reading::nothing(json::member(m, "prompt_tokens_details"@))
                    || read_chat::prompt_details_from(
                        json::member(m, "prompt_tokens_details"@)->0,
                    ) is Some
                )
                && (
                reading::nothing(json::member(m, "completion_tokens_details"@))
                    || read_chat::completion_details_from(
                        json::member(m, "completion_tokens_details"@)->0,
                    ) is Some
                ),
{
}

/// The usage of a stream may be an array of its fields, which are then taken in their order.
pub proof fn law_chunk_usage_by_position(items: Seq<JsonView>)
    ensures
        3 <= items.len() <= 6
            ==> read_chat::chunk_usage_from(JsonView::Array(items))
                == read_chat::chunk_usage_from(
                    JsonView::Object(
                        Seq::new(
                            items.len(),
                            |i: int| (
                            seq![
                                "prompt_tokens"@,
                                "completion_tokens"@,
                                "total_tokens"@,
                                "reasoning_tokens"@,
                                "prompt_tokens_details"@,
                                "completion_tokens_details"@,
                            ][i], items[i]
                            ),
                        ),
                    ),
                ),
        !(3 <= items.len() <= 6) ==> read_chat::chunk_usage_from(JsonView::Array(items)) is None,
{
}

/// A piece of an answer is read by its members, each under its own name.
pub proof fn law_delta_is_read(m: Seq<(Seq<char>, JsonView)>, x: ChatDelta)
    requires
        read_chat::delta_from(JsonView::Object(m)) == Some(x@),
    ensures
        reading::opt_text(json::member(m, "content"@), x.content),
        reading::opt_text(json::member(m, "reasoning_content"@), x.reasoning_content),
        x.tool_calls is None <==> reading::nothing(json::member(m, "tool_calls"@)),
        x.tool_calls is Some
            ==> (
            json::member(m, "tool_calls"@) matches Some(JsonView::Array(values))
                && values.len() == (x.tool_calls->0)@.len() && forall|i: int| 0 <= i < values.len()
                ==> read_chat::tool_call_from(values[i])
                    == Some((#[trigger] (x.tool_calls->0)@[i])@)
            ),
        x.function_call is None <==> reading::nothing(json::member(m, "function_call"@)),
        x.function_call is Some
            ==> read_chat::function_call_from(json::member(m, "function_call"@)->0)
                == Some((x.function_call->0)@),
        reading::opt_text(json::member(m, "refusal"@), x.refusal),
{
    if x.tool_calls is Some {
        let values = (json::member(m, "tool_calls"@)->0)->Array_0;
        let read = read_chat::each_tool_call_from(values)->0;
        let contents = read_chat::opt_tool_calls_view(x.tool_calls)->0;
        assert(read == contents);
        assert forall|i: int| 0 <= i < values.len() implies
            read_chat::tool_call_from(values[i]) == Some((#[trigger] (x.tool_calls->0)@[i])@) by {
            assert(read[i] == read_chat::tool_call_from(values[i])->0);
            assert(contents[i] == (x.tool_calls->0)@[i]@);
        }
    }
}

/// A piece of an answer is read just where each member is what it should be.
pub proof fn law_delta_is_readable(m: Seq<(Seq<char>, JsonView)>)
    ensures
        read_chat::delta_from(JsonView::Object(m)) is Some
            <==> reading::can_opt_text(json::member(m, "content"@))
                && reading::can_opt_text(json::member(m, "reasoning_content"@))
                && (
                reading::nothing(json::member(m, "tool_calls"@))
                    || (
                    json::member(m, "tool_calls"@) matches Some(JsonView::Array(values))
                        && forall|i: int| 0 <= i < values.len()
                        ==> read_chat::tool_call_from(#[trigger] values[i]) is Some
                    )
                )
                && (
                reading::nothing(json::member(m, "function_call"@))
                    || read_chat::function_call_from(json::member(m, "function_call"@)->0) is Some
                )
                && reading::can_opt_text(json::member(m, "refusal"@)),
{
}

/// A choice of a stream is read by its members, each under its own name.
pub proof fn law_choice_is_read(m: Seq<(Seq<char>, JsonView)>, x: ChatChunkChoice)
    requires
        read_chat::choice_from(JsonView::Object(m)) == Some(x@),
    ensures
        reading::usize(json::member(m, "index"@), x.index),
        json::member(m, "delta"@) is Some,
        read_chat::delta_from(json::member(m, "delta"@)->0) == Some(x.delta@),
        reading::opt_text(json::member(m, "finish_reason"@), x.finish_reason),
{
}

/// A choice of a stream is read just where each member is what it should be.
pub proof fn law_choice_is_readable(m: Seq<(Seq<char>, JsonView)>)
    ensures
        read_chat::choice_from(JsonView::Object(m)) is Some
            <==> reading::can_usize(json::member(m, "index"@)) && json::member(m, "delta"@) is Some
                && read_chat::delta_from(json::member(m, "delta"@)->0) is Some
                && reading::can_opt_text(json::member(m, "finish_reason"@)),
{
}

/// A choice of a stream may be an array of its fields, which are then taken in their order.
pub proof fn law_choice_by_position(items: Seq<JsonView>)
    ensures
        3 <= items.len() <= 3
            ==> read_chat::choice_from(JsonView::Array(items))
                == read_chat::choice_from(
                    JsonView::Object(
                        Seq::new(
                            items.len(),
                            |i: int| (seq!["index"@, "delta"@, "finish_reason"@][i], items[i]),
                        ),
                    ),
                ),
        !(3 <= items.len() <= 3) ==> read_chat::choice_from(JsonView::Array(items)) is None,
{
}

/// A chunk of a stream is read by its members, each under its own name.
pub proof fn law_chunk_is_read(m: Seq<(Seq<char>, JsonView)>, x: ChatCompletionChunk)
    requires
        read_chat::chunk_from(JsonView::Object(m)) == Some(x@),
    ensures
        reading::text(json::member(m, "id"@), x.id),
        json::member(m, "choices"@) matches Some(JsonView::Array(values))
            && values.len() == x.choices@.len() && forall|i: int| 0 <= i < values.len()
            ==> read_chat::choice_from(values[i]) == Some((#[trigger] x.choices@[i])@),
        x.usage is None <==> reading::nothing(json::member(m, "usage"@)),
        x.usage is Some
            ==> read_chat::chunk_usage_from(json::member(m, "usage"@)->0) == Some((x.usage->0)@),
{
    if json::member(m, "choices"@) is Some {
        let values = (json::member(m, "choices"@)->0)->Array_0;
        let read = read_chat::each_choice_from(values)->0;
        let contents = read_chat::choices_view(x.choices@);
        assert(read == contents);
        assert forall|i: int| 0 <= i < values.len() implies
            read_chat::choice_from(values[i]) == Some((#[trigger] x.choices@[i])@) by {
            assert(read[i] == read_chat::choice_from(values[i])->0);
            assert(contents[i] == x.choices@[i]@);
        }
    }
}

/// A chunk of a stream is read just where each member is what it should be.
pub proof fn law_chunk_is_readable(m: Seq<(Seq<char>, JsonView)>)
    ensures
        read_chat::chunk_from(JsonView::Object(m)) is Some
            <==> reading::can_text(json::member(m, "id"@))
                && (
                json::member(m, "choices"@) matches Some(JsonView::Array(values))
                    && forall|i: int| 0 <= i < values.len()
                    ==> read_chat::choice_from(#[trigger] values[i]) is Some
                )
                && (
                reading::nothing(json::member(m, "usage"@))
                    || read_chat::chunk_usage_from(json::member(m, "usage"@)->0) is Some
                ),
{
}

/// A chunk of a stream may be an array of its fields, which are then taken in their order.
pub proof fn law_chunk_by_position(items: Seq<JsonView>)
    ensures
        2 <= items.len() <= 3
            ==> read_chat::chunk_from(JsonView::Array(items))
                == read_chat::chunk_from(
                    JsonView::Object(
                        Seq::new(
                            items.len(),
                            |i: int| (seq!["id"@, "choices"@, "usage"@][i], items[i]),
                        ),
                    ),
                ),
        !(2 <= items.len() <= 3) ==> read_chat::chunk_from(JsonView::Array(items)) is None,
{
}

/// A way to reason is read by its members, each under its own name.
pub proof fn law_thinking_is_read(m: Seq<(Seq<char>, JsonView)>, x: ChatThinking)
    requires
        read_chat::thinking_from(JsonView::Object(m)) == Some(x@),
    ensures
        reading::text(json::member(m, "content"@), x.content),
        reading::opt_text(json::member(m, "signature"@), x.signature),
{
}

/// A way to reason is read just where each member is what it should be.
pub proof fn law_thinking_is_readable(m: Seq<(Seq<char>, JsonView)>)
    ensures
        read_chat::thinking_from(JsonView::Object(m)) is Some
            <==> reading::can_text(json::member(m, "content"@))
                && reading::can_opt_text(json::member(m, "signature"@)),
{
}

/// A way to reason may be an array of its fields, which are then taken in their order.
pub proof fn law_thinking_by_position(items: Seq<JsonView>)
    ensures
        2 <= items.len() <= 2
            ==> read_chat::thinking_from(JsonView::Array(items))
                == read_chat::thinking_from(
                    JsonView::Object(
                        Seq::new(
                            items.len(),
                            |i: int| (seq!["content"@, "signature"@][i], items[i]),
                        ),
                    ),
                ),
        !(2 <= items.len() <= 2) ==> read_chat::thinking_from(JsonView::Array(items)) is None,
{
}

/// A message is read by its members, each under its own name.
pub proof fn law_message_is_read(m: Seq<(Seq<char>, JsonView)>, x: ChatMessage)
    requires
        read_chat::message_from(JsonView::Object(m)) == Some(x@),
    ensures
        reading::text(json::member(m, "role"@), x.role),
        reading::opt_value(json::member(m, "content"@), x.content),
        reading::opt_text(json::member(m, "tool_call_id"@), x.tool_call_id),
        reading::opt_text(json::member(m, "name"@), x.name),
        reading::opt_text(json::member(m, "reasoning_content"@), x.reasoning_content),
        x.thinking is None <==> reading::nothing(json::member(m, "thinking"@)),
        x.thinking is Some
            ==> read_chat::thinking_from(json::member(m, "thinking"@)->0) == Some((x.thinking->0)@),
        x.tool_calls is None <==> reading::nothing(json::member(m, "tool_calls"@)),
        x.tool_calls is Some
            ==> (
            json::member(m, "tool_calls"@) matches Some(JsonView::Array(values))
                && values.len() == (x.tool_calls->0)@.len() && forall|i: int| 0 <= i < values.len()
                ==> read_chat::tool_call_from(values[i])
                    == Some((#[trigger] (x.tool_calls->0)@[i])@)
            ),
{
    if x.tool_calls is Some {
        let values = (json::member(m, "tool_calls"@)->0)->Array_0;
        let read = read_chat::each_tool_call_from(values)->0;
        let contents = read_chat::opt_tool_calls_view(x.tool_calls)->0;
        assert(read == contents);
        assert forall|i: int| 0 <= i < values.len() implies
            read_chat::tool_call_from(values[i]) == Some((#[trigger] (x.tool_calls->0)@[i])@) by {
            assert(read[i] == read_chat::tool_call_from(values[i])->0);
            assert(contents[i] == (x.tool_calls->0)@[i]@);
        }
    }
}

/// A message is read just where each member is what it should be.
pub proof fn law_message_is_readable(m: Seq<(Seq<char>, JsonView)>)
    ensures
        read_chat::message_from(JsonView::Object(m)) is Some
            <==> reading::can_text(json::member(m, "role"@))
                && reading::can_opt_value(json::member(m, "content"@))
                && reading::can_opt_text(json::member(m, "tool_call_id"@))
                && reading::can_opt_text(json::member(m, "name"@))
                && reading::can_opt_text(json::member(m, "reasoning_content"@))
                && (
                reading::nothing(json::member(m, "thinking"@))
                    || read_chat::thinking_from(json::member(m, "thinking"@)->0) is Some
                )
                && (
                reading::nothing(json::member(m, "tool_calls"@))
                    || (
                    json::member(m, "tool_calls"@) matches Some(JsonView::Array(values))
                        && forall|i: int| 0 <= i < values.len()
                        ==> read_chat::tool_call_from(#[trigger] values[i]) is Some
                    )
                ),
{
}

/// A message may be an array of its fields, which are then taken in their order.
pub proof fn law_message_by_position(items: Seq<JsonView>)
    ensures
        7 <= items.len() <= 7
            ==> read_chat::message_from(JsonView::Array(items))
                == read_chat::message_from(
                    JsonView::Object(
                        Seq::new(
                            items.len(),
                            |i: int| (
                            seq![
                                "role"@,
                                "content"@,
                                "tool_call_id"@,
                                "name"@,
                                "reasoning_content"@,
                                "thinking"@,
                                "tool_calls"@,
                            ][i], items[i]
                            ),
                        ),
                    ),
                ),
        !(7 <= items.len() <= 7) ==> read_chat::message_from(JsonView::Array(items)) is None,
{
}

/// The definition of a tool is read by its members, each under its own name.
pub proof fn law_definition_is_read(m: Seq<(Seq<char>, JsonView)>, x: ChatToolDefinition)
    requires
        read_chat::definition_from(JsonView::Object(m)) == Some(x@),
    ensures
        reading::text(json::member(m, "name"@), x.name),
        reading::text_or_empty(json::member(m, "description"@), x.description),
        reading::opt_value(json::member(m, "parameters"@), x.parameters),
        reading::flag_or_false(json::member(m, "strict"@), x.strict),
{
}

/// The definition of a tool is read just where each member is what it should be.
pub proof fn law_definition_is_readable(m: Seq<(Seq<char>, JsonView)>)
    ensures
        read_chat::definition_from(JsonView::Object(m)) is Some
            <==> reading::can_text(json::member(m, "name"@))
                && reading::can_text_or_empty(json::member(m, "description"@))
                && reading::can_opt_value(json::member(m, "parameters"@))
                && reading::can_flag_or_false(json::member(m, "strict"@)),
{
}

/// The definition of a tool may be an array of its fields, which are then taken in their order.
pub proof fn law_definition_by_position(items: Seq<JsonView>)
    ensures
        3 <= items.len() <= 4
            ==> read_chat::definition_from(JsonView::Array(items))
                == read_chat::definition_from(
                    JsonView::Object(
                        Seq::new(
                            items.len(),
                            |i: int| (
                            seq!["name"@, "description"@, "parameters"@, "strict"@][i], items[i]
                            ),
                        ),
                    ),
                ),
        !(3 <= items.len() <= 4) ==> read_chat::definition_from(JsonView::Array(items)) is None,
{
}

/// A tool is read by its members, each under its own name.
pub proof fn law_chat_tool_is_read(m: Seq<(Seq<char>, JsonView)>, x: ChatTool)
    requires
        read_chat::chat_tool_from(JsonView::Object(m)) == Some(x@),
    ensures
        reading::text(json::member(m, "type"@), x.kind),
        json::member(m, "function"@) is Some,
        read_chat::definition_from(json::member(m, "function"@)->0) == Some(x.function@),
{
}

/// A tool is read just where each member is what it should be.
pub proof fn law_chat_tool_is_readable(m: Seq<(Seq<char>, JsonView)>)
    ensures
        read_chat::chat_tool_from(JsonView::Object(m)) is Some
            <==> reading::can_text(json::member(m, "type"@)) && json::member(m, "function"@) is Some
                && read_chat::definition_from(json::member(m, "function"@)->0) is Some,
{
}

/// A tool may be an array of its fields, which are then taken in their order.
pub proof fn law_chat_tool_by_position(items: Seq<JsonView>)
    ensures
        2 <= items.len() <= 2
            ==> read_chat::chat_tool_from(JsonView::Array(items))
                == read_chat::chat_tool_from(
                    JsonView::Object(
                        Seq::new(items.len(), |i: int| (seq!["type"@, "function"@][i], items[i])),
                    ),
                ),
        !(2 <= items.len() <= 2) ==> read_chat::chat_tool_from(JsonView::Array(items)) is None,
{
}

/// What is asked of a stream is read by its members, each under its own name.
pub proof fn law_stream_options_is_read(m: Seq<(Seq<char>, JsonView)>, x: StreamOptions)
    requires
        read_chat::stream_options_from(JsonView::Object(m)) == Some(x@),
    ensures
        reading::flag_or_false(json::member(m, "include_usage"@), x.include_usage),
{
}

/// What is asked of a stream is read just where each member is what it should be.
pub proof fn law_stream_options_is_readable(m: Seq<(Seq<char>, JsonView)>)
    ensures
        read_chat::stream_options_from(JsonView::Object(m)) is Some
            <==> reading::can_flag_or_false(json::member(m, "include_usage"@)),
{
}

/// What is asked of a stream may be an array of its fields, which are then taken in their order.
pub proof fn law_stream_options_by_position(items: Seq<JsonView>)
    ensures
        0 <= items.len() <= 1
            ==> read_chat::stream_options_from(JsonView::Array(items))
                == read_chat::stream_options_from(
                    JsonView::Object(
                        Seq::new(items.len(), |i: int| (seq!["include_usage"@][i], items[i])),
                    ),
                ),
        !(0 <= items.len() <= 1) ==> read_chat::stream_options_from(JsonView::Array(items)) is None,
{
}

/// A request is read by its members, each under its own name.
pub proof fn law_chat_request_is_read(m: Seq<(Seq<char>, JsonView)>, x: ChatCompletionRequest)
    requires
        read_chat::chat_request_from(JsonView::Object(m)) == Some(x@),
    ensures
        reading::model(json::member(m, "model"@), x.model),
        json::member(m, "messages"@) matches Some(JsonView::Array(values))
            && values.len() == x.messages@.len() && forall|i: int| 0 <= i < values.len()
            ==> read_chat::message_from(values[i]) == Some((#[trigger] x.messages@[i])@),
        reading::flag_or_false(json::member(m, "stream"@), x.stream),
        x.tools is None <==> reading::nothing(json::member(m, "tools"@)),
        x.tools is Some
            ==> (
            json::member(m, "tools"@) matches Some(JsonView::Array(values))
                && values.len() == (x.tools->0)@.len() && forall|i: int| 0 <= i < values.len()
                ==> read_chat::chat_tool_from(values[i]) == Some((#[trigger] (x.tools->0)@[i])@)
            ),
        reading::opt_value(json::member(m, "tool_choice"@), x.tool_choice),
        reading::flag_or_false(json::member(m, "parallel_tool_calls"@), x.parallel_tool_calls),
        reading::opt_text(json::member(m, "reasoning_effort"@), x.reasoning_effort),
        reading::opt_value(json::member(m, "response_format"@), x.response_format),
        x.stream_options is None <==> reading::nothing(json::member(m, "stream_options"@)),
        x.stream_options is Some
            ==> read_chat::stream_options_from(json::member(m, "stream_options"@)->0)
                == Some((x.stream_options->0)@),
        reading::opt_number(json::member(m, "temperature"@), x.temperature),
        reading::opt_number(json::member(m, "top_p"@), x.top_p),
        json::member(m, "max_tokens"@) is Some
            ==> reading::opt_i64(json::member(m, "max_tokens"@), x.max_output_tokens),
        json::member(m, "max_output_tokens"@) is Some
            ==> reading::opt_i64(json::member(m, "max_output_tokens"@), x.max_output_tokens),
        json::member(m, "max_completion_tokens"@) is Some
            ==> reading::opt_i64(json::member(m, "max_completion_tokens"@), x.max_output_tokens),
        json::member(m, "max_tokens"@) is None && json::member(m, "max_output_tokens"@) is None
            && json::member(m, "max_completion_tokens"@) is None
            ==> x.max_output_tokens is None,
        reading::opt_number(json::member(m, "frequency_penalty"@), x.frequency_penalty),
        reading::opt_number(json::member(m, "presence_penalty"@), x.presence_penalty),
        reading::stop(json::member(m, "stop"@), x.stop),
{
    if json::member(m, "messages"@) is Some {
        let values = (json::member(m, "messages"@)->0)->Array_0;
        let read = read_chat::each_message_from(values)->0;
        let contents = read_chat::messages_view(x.messages@);
        assert(read == contents);
        assert forall|i: int| 0 <= i < values.len() implies
            read_chat::message_from(values[i]) == Some((#[trigger] x.messages@[i])@) by {
            assert(read[i] == read_chat::message_from(values[i])->0);
            assert(contents[i] == x.messages@[i]@);
        }
    }
    if x.tools is Some {
        let values = (json::member(m, "tools"@)->0)->Array_0;
        let read = read_chat::each_chat_tool_from(values)->0;
        let contents = read_chat::opt_chat_tools_view(x.tools)->0;
        assert(read == contents);
        assert forall|i: int| 0 <= i < values.len() implies
            read_chat::chat_tool_from(values[i]) == Some((#[trigger] (x.tools->0)@[i])@) by {
            assert(read[i] == read_chat::chat_tool_from(values[i])->0);
            assert(contents[i] == (x.tools->0)@[i]@);
        }
    }
    if x.stop is Some {
        lemma_stop(json::member(m, "stop"@)->0, x.stop->0);
    }
}

/// A request is read just where each member is what it should be.
pub proof fn law_chat_request_is_readable(m: Seq<(Seq<char>, JsonView)>)
    ensures
        read_chat::chat_request_from(JsonView::Object(m)) is Some
            <==> reading::can_model(json::member(m, "model"@))
                && (
                json::member(m, "messages"@) matches Some(JsonView::Array(values))
                    && forall|i: int| 0 <= i < values.len()
                    ==> read_chat::message_from(#[trigger] values[i]) is Some
                )
                && reading::can_flag_or_false(json::member(m, "stream"@))
                && (
                reading::nothing(json::member(m, "tools"@))
                    || (
                    json::member(m, "tools"@) matches Some(JsonView::Array(values))
                        && forall|i: int| 0 <= i < values.len()
                        ==> read_chat::chat_tool_from(#[trigger] values[i]) is Some
                    )
                )
                && reading::can_opt_value(json::member(m, "tool_choice"@))
                && reading::can_flag_or_false(json::member(m, "parallel_tool_calls"@))
                && reading::can_opt_text(json::member(m, "reasoning_effort"@))
                && reading::can_opt_value(json::member(m, "response_format"@))
                && (
                reading::nothing(json::member(m, "stream_options"@))
                    || read_chat::stream_options_from(json::member(m, "stream_options"@)->0) is Some
                )
                && reading::can_opt_number(json::member(m, "temperature"@))
                && reading::can_opt_number(json::member(m, "top_p"@))
                && read_chat::max_tokens_at(m) is Some
                && reading::can_opt_number(json::member(m, "frequency_penalty"@))
                && reading::can_opt_number(json::member(m, "presence_penalty"@))
                && reading::can_stop(json::member(m, "stop"@)),
{
    if json::member(m, "stop"@) is Some {
        lemma_stop_is_readable(json::member(m, "stop"@)->0);
    }
}

/// An answer is read by its members, each under its own name.
pub proof fn law_answer_is_read(m: Seq<(Seq<char>, JsonView)>, x: ChatResponseMessage)
    requires
        read_completion::answer_from(JsonView::Object(m)) == Some(x@),
    ensures
        reading::text(json::member(m, "role"@), x.role),
        reading::opt_text(json::member(m, "content"@), x.content),
        reading::opt_text(json::member(m, "reasoning_content"@), x.reasoning_content),
        x.tool_calls is None <==> reading::nothing(json::member(m, "tool_calls"@)),
        x.tool_calls is Some
            ==> (
            json::member(m, "tool_calls"@) matches Some(JsonView::Array(values))
                && values.len() == (x.tool_calls->0)@.len() && forall|i: int| 0 <= i < values.len()
                ==> read_chat::tool_call_from(values[i])
                    == Some((#[trigger] (x.tool_calls->0)@[i])@)
            ),
{
    if x.tool_calls is Some {
        let values = (json::member(m, "tool_calls"@)->0)->Array_0;
        let read = read_chat::each_tool_call_from(values)->0;
        let contents = read_chat::opt_tool_calls_view(x.tool_calls)->0;
        assert(read == contents);
        assert forall|i: int| 0 <= i < values.len() implies
            read_chat::tool_call_from(values[i]) == Some((#[trigger] (x.tool_calls->0)@[i])@) by {
            assert(read[i] == read_chat::tool_call_from(values[i])->0);
            assert(contents[i] == (x.tool_calls->0)@[i]@);
        }
    }
}

/// An answer is read just where each member is what it should be.
pub proof fn law_answer_is_readable(m: Seq<(Seq<char>, JsonView)>)
    ensures
        read_completion::answer_from(JsonView::Object(m)) is Some
            <==> reading::can_text(json::member(m, "role"@))
                && reading::can_opt_text(json::member(m, "content"@))
                && reading::can_opt_text(json::member(m, "reasoning_content"@))
                && (
                reading::nothing(json::member(m, "tool_calls"@))
                    || (
                    json::member(m, "tool_calls"@) matches Some(JsonView::Array(values))
                        && forall|i: int| 0 <= i < values.len()
                        ==> read_chat::tool_call_from(#[trigger] values[i]) is Some
                    )
                ),
{
}

/// An answer may be an array of its fields, which are then taken in their order.
pub proof fn law_answer_by_position(items: Seq<JsonView>)
    ensures
        4 <= items.len() <= 4
            ==> read_completion::answer_from(JsonView::Array(items))
                == read_completion::answer_from(
                    JsonView::Object(
                        Seq::new(
                            items.len(),
                            |i: int| (
                            seq![
                                "role"@,
                                "content"@,
                                "reasoning_content"@,
                                "tool_calls"@,
                            ][i], items[i]
                            ),
                        ),
                    ),
                ),
        !(4 <= items.len() <= 4) ==> read_completion::answer_from(JsonView::Array(items)) is None,
{
}

/// A choice of an answer is read by its members, each under its own name.
pub proof fn law_answer_choice_is_read(m: Seq<(Seq<char>, JsonView)>, x: ChatResponseChoice)
    requires
        read_completion::answer_choice_from(JsonView::Object(m)) == Some(x@),
    ensures
        reading::usize(json::member(m, "index"@), x.index),
        json::member(m, "message"@) is Some,
        read_completion::answer_from(json::member(m, "message"@)->0) == Some(x.message@),
        reading::opt_text(json::member(m, "finish_reason"@), x.finish_reason),
{
}

/// A choice of an answer is read just where each member is what it should be.
pub proof fn law_answer_choice_is_readable(m: Seq<(Seq<char>, JsonView)>)
    ensures
        read_completion::answer_choice_from(JsonView::Object(m)) is Some
            <==> reading::can_usize(json::member(m, "index"@))
                && json::member(m, "message"@) is Some
                && read_completion::answer_from(json::member(m, "message"@)->0) is Some
                && reading::can_opt_text(json::member(m, "finish_reason"@)),
{
}

/// A choice of an answer may be an array of its fields, which are then taken in their order.
pub proof fn law_answer_choice_by_position(items: Seq<JsonView>)
    ensures
        3 <= items.len() <= 3
            ==> read_completion::answer_choice_from(JsonView::Array(items))
                == read_completion::answer_choice_from(
                    JsonView::Object(
                        Seq::new(
                            items.len(),
                            |i: int| (seq!["index"@, "message"@, "finish_reason"@][i], items[i]),
                        ),
                    ),
                ),
        !(3 <= items.len() <= 3)
            ==> read_completion::answer_choice_from(JsonView::Array(items)) is None,
{
}

/// A completion is read by its members, each under its own name.
pub proof fn law_completion_is_read(m: Seq<(Seq<char>, JsonView)>, x: ChatCompletionResponse)
    requires
        read_completion::completion_from(JsonView::Object(m)) == Some(x@),
    ensures
        json::member(m, "choices"@) matches Some(JsonView::Array(values))
            && values.len() == x.choices@.len() && forall|i: int| 0 <= i < values.len()
            ==> read_completion::answer_choice_from(values[i]) == Some((#[trigger] x.choices@[i])@),
{
    if json::member(m, "choices"@) is Some {
        let values = (json::member(m, "choices"@)->0)->Array_0;
        let read = read_completion::each_answer_choice_from(values)->0;
        let contents = read_completion::answer_choices_view(x.choices@);
        assert(read == contents);
        assert forall|i: int| 0 <= i < values.len() implies
            read_completion::answer_choice_from(values[i]) == Some((#[trigger] x.choices@[i])@) by {
            assert(read[i] == read_completion::answer_choice_from(values[i])->0);
            assert(contents[i] == x.choices@[i]@);
        }
    }
}

/// A completion is read just where each member is what it should be.
pub proof fn law_completion_is_readable(m: Seq<(Seq<char>, JsonView)>)
    ensures
        read_completion::completion_from(JsonView::Object(m)) is Some
            <==> (
            json::member(m, "choices"@) matches Some(JsonView::Array(values))
                && forall|i: int| 0 <= i < values.len()
                ==> read_completion::answer_choice_from(#[trigger] values[i]) is Some
            ),
{
}

/// A completion may be an array of its fields, which are then taken in their order.
pub proof fn law_completion_by_position(items: Seq<JsonView>)
    ensures
        1 <= items.len() <= 1
            ==> read_completion::completion_from(JsonView::Array(items))
                == read_completion::completion_from(
                    JsonView::Object(
                        Seq::new(items.len(), |i: int| (seq!["choices"@][i], items[i])),
                    ),
                ),
        !(1 <= items.len() <= 1)
            ==> read_completion::completion_from(JsonView::Array(items)) is None,
{
}

} // verus!
