//! What is written of a chat request: every field under its own name.
use vstd::prelude::*;

use crate::json;
use crate::json::JsonView;
use crate::models::chat;
use crate::models::written;
use crate::models::chat::ChatCompletionRequest;
use crate::models::chat::ChatFunctionCall;
use crate::models::chat::ChatMessage;
use crate::models::chat::ChatThinking;
use crate::models::chat::ChatTool;
use crate::models::chat::ChatToolCall;
use crate::models::chat::ChatToolDefinition;
use crate::models::chat::StreamOptions;

verus! {

/// What is asked beside the stream: each field is written under its own name, and nothing else is.
pub proof fn law_stream_options_members(x: StreamOptions)
    ensures
        chat::stream_options_json(x) is Object,
        json::member(chat::stream_options_json(x)->Object_0, "include_usage"@)
            == Some(JsonView::Bool(x.include_usage)),
        forall|k: Seq<char>|
            k != "include_usage"@
                ==> (#[trigger] json::member(chat::stream_options_json(x)->Object_0, k)) is None,
{
    broadcast use written::group_members;

    reveal_strlit("include_usage");
    assert("include_usage"@.len() == 13);
}

/// Reasoning that comes back: each field is written under its own name, and nothing else is.
pub proof fn law_thinking_members(x: ChatThinking)
    ensures
        chat::thinking_json(x) is Object,
        json::member(chat::thinking_json(x)->Object_0, "content"@)
            == Some(JsonView::Text(x.content@)),
        json::member(chat::thinking_json(x)->Object_0, "signature"@)
            == written::opt_text(x.signature),
        forall|k: Seq<char>|
            k != "content"@ && k != "signature"@
                ==> (#[trigger] json::member(chat::thinking_json(x)->Object_0, k)) is None,
{
    broadcast use written::group_members;

    reveal_strlit("content");
    reveal_strlit("signature");
    assert("content"@.len() == 7);
    assert("signature"@.len() == 9);
}

/// A function that is called: each field is written under its own name, and nothing else is.
pub proof fn law_function_call_members(x: ChatFunctionCall)
    ensures
        chat::function_call_json(x) is Object,
        json::member(chat::function_call_json(x)->Object_0, "name"@) == written::opt_text(x.name),
        json::member(chat::function_call_json(x)->Object_0, "arguments"@)
            == written::opt_value(x.arguments),
        forall|k: Seq<char>|
            k != "name"@ && k != "arguments"@
                ==> (#[trigger] json::member(chat::function_call_json(x)->Object_0, k)) is None,
{
    broadcast use written::group_members;

    reveal_strlit("name");
    reveal_strlit("arguments");
    assert("name"@.len() == 4);
    assert("arguments"@.len() == 9);
}

/// A tool call: each field is written under its own name, and nothing else is.
pub proof fn law_tool_call_members(x: ChatToolCall)
    ensures
        chat::tool_call_json(x) is Object,
        json::member(chat::tool_call_json(x)->Object_0, "id"@) == written::opt_text(x.id),
        json::member(chat::tool_call_json(x)->Object_0, "index"@) == written::opt_index(x.index),
        json::member(chat::tool_call_json(x)->Object_0, "type"@) == Some(JsonView::Text(x.kind@)),
        json::member(chat::tool_call_json(x)->Object_0, "function"@)
            == Some(chat::function_call_json(x.function)),
        forall|k: Seq<char>|
            k != "id"@ && k != "index"@ && k != "type"@ && k != "function"@
                ==> (#[trigger] json::member(chat::tool_call_json(x)->Object_0, k)) is None,
{
    broadcast use written::group_members;

    reveal_strlit("id");
    reveal_strlit("index");
    reveal_strlit("type");
    reveal_strlit("function");
    assert("id"@.len() == 2);
    assert("index"@.len() == 5);
    assert("type"@.len() == 4);
    assert("function"@.len() == 8);
}

/// A message: each field is written under its own name, and nothing else is.
pub proof fn law_message_members(x: ChatMessage)
    ensures
        chat::message_json(x) is Object,
        json::member(chat::message_json(x)->Object_0, "role"@) == Some(JsonView::Text(x.role@)),
        json::member(chat::message_json(x)->Object_0, "content"@) == written::opt_value(x.content),
        json::member(chat::message_json(x)->Object_0, "tool_call_id"@)
            == written::opt_text(x.tool_call_id),
        json::member(chat::message_json(x)->Object_0, "name"@) == written::opt_text(x.name),
        json::member(chat::message_json(x)->Object_0, "reasoning_content"@)
            == written::opt_text(x.reasoning_content),
        json::member(chat::message_json(x)->Object_0, "thinking"@)
            == (match x.thinking { Some(x) => Some(chat::thinking_json(x)), None => None }),
        json::member(chat::message_json(x)->Object_0, "tool_calls"@)
            == (match x.tool_calls { Some(x) => Some(chat::tool_calls_json(x@)), None => None }),
        forall|k: Seq<char>|
            k != "role"@ && k != "content"@ && k != "tool_call_id"@ && k != "name"@
                && k != "reasoning_content"@ && k != "thinking"@ && k != "tool_calls"@
                ==> (#[trigger] json::member(chat::message_json(x)->Object_0, k)) is None,
{
    broadcast use written::group_members;

    reveal_strlit("role");
    reveal_strlit("content");
    reveal_strlit("tool_call_id");
    reveal_strlit("name");
    reveal_strlit("reasoning_content");
    reveal_strlit("thinking");
    reveal_strlit("tool_calls");
    assert("role"@.len() == 4);
    assert("content"@.len() == 7);
    assert("tool_call_id"@.len() == 12);
    assert("name"@.len() == 4);
    assert("reasoning_content"@.len() == 17);
    assert("thinking"@.len() == 8);
    assert("tool_calls"@.len() == 10);
    assert("role"@[0] != "name"@[0]);
}

/// A function that is offered: each field is written under its own name, and nothing else is.
pub proof fn law_tool_definition_members(x: ChatToolDefinition)
    ensures
        chat::tool_definition_json(x) is Object,
        json::member(chat::tool_definition_json(x)->Object_0, "name"@)
            == Some(JsonView::Text(x.name@)),
        json::member(chat::tool_definition_json(x)->Object_0, "description"@)
            == Some(JsonView::Text(x.description@)),
        json::member(chat::tool_definition_json(x)->Object_0, "parameters"@)
            == written::opt_value(x.parameters),
        json::member(chat::tool_definition_json(x)->Object_0, "strict"@)
            == Some(JsonView::Bool(x.strict)),
        forall|k: Seq<char>|
            k != "name"@ && k != "description"@ && k != "parameters"@ && k != "strict"@
                ==> (#[trigger] json::member(chat::tool_definition_json(x)->Object_0, k)) is None,
{
    broadcast use written::group_members;

    reveal_strlit("name");
    reveal_strlit("description");
    reveal_strlit("parameters");
    reveal_strlit("strict");
    assert("name"@.len() == 4);
    assert("description"@.len() == 11);
    assert("parameters"@.len() == 10);
    assert("strict"@.len() == 6);
}

/// A tool that is offered: each field is written under its own name, and nothing else is.
pub proof fn law_chat_tool_members(x: ChatTool)
    ensures
        chat::chat_tool_json(x) is Object,
        json::member(chat::chat_tool_json(x)->Object_0, "type"@) == Some(JsonView::Text(x.kind@)),
        json::member(chat::chat_tool_json(x)->Object_0, "function"@)
            == Some(chat::tool_definition_json(x.function)),
        forall|k: Seq<char>|
            k != "type"@ && k != "function"@
                ==> (#[trigger] json::member(chat::chat_tool_json(x)->Object_0, k)) is None,
{
    broadcast use written::group_members;

    reveal_strlit("type");
    reveal_strlit("function");
    assert("type"@.len() == 4);
    assert("function"@.len() == 8);
}

/// Each typed field of a chat request is written under its own name, and nothing else is.
pub proof fn law_chat_request_members(x: ChatCompletionRequest)
    ensures
        json::member(x.typed_members(), "model"@) == Some(JsonView::Text(x.model@)),
        json::member(x.typed_members(), "messages"@) == Some(chat::messages_json(x.messages@)),
        json::member(x.typed_members(), "stream"@) == Some(JsonView::Bool(x.stream)),
        json::member(x.typed_members(), "tools"@)
            == (match x.tools { Some(x) => Some(chat::chat_tools_json(x@)), None => None }),
        json::member(x.typed_members(), "tool_choice"@) == written::opt_value(x.tool_choice),
        json::member(x.typed_members(), "parallel_tool_calls"@)
            == Some(JsonView::Bool(x.parallel_tool_calls)),
        json::member(x.typed_members(), "reasoning_effort"@)
            == written::opt_text(x.reasoning_effort),
        json::member(x.typed_members(), "response_format"@)
            == written::opt_value(x.response_format),
        json::member(x.typed_members(), "stream_options"@)
            == (match x.stream_options {
                Some(x) => Some(chat::stream_options_json(x)),
                None => None,
            }),
        json::member(x.typed_members(), "temperature"@) == written::opt_number(x.temperature),
        json::member(x.typed_members(), "top_p"@) == written::opt_number(x.top_p),
        json::member(x.typed_members(), "max_tokens"@) == written::opt_signed(x.max_output_tokens),
        json::member(x.typed_members(), "frequency_penalty"@)
            == written::opt_number(x.frequency_penalty),
        json::member(x.typed_members(), "presence_penalty"@)
            == written::opt_number(x.presence_penalty),
        json::member(x.typed_members(), "stop"@) == written::opt_texts(x.stop),
        forall|k: Seq<char>|
            k != "model"@ && k != "messages"@ && k != "stream"@ && k != "tools"@
                && k != "tool_choice"@ && k != "parallel_tool_calls"@ && k != "reasoning_effort"@
                && k != "response_format"@ && k != "stream_options"@ && k != "temperature"@
                && k != "top_p"@ && k != "max_tokens"@ && k != "frequency_penalty"@
                && k != "presence_penalty"@ && k != "stop"@
                ==> (#[trigger] json::member(x.typed_members(), k)) is None,
{
    broadcast use written::group_members;

    reveal_strlit("model");
    reveal_strlit("messages");
    reveal_strlit("stream");
    reveal_strlit("tools");
    reveal_strlit("tool_choice");
    reveal_strlit("parallel_tool_calls");
    reveal_strlit("reasoning_effort");
    reveal_strlit("response_format");
    reveal_strlit("stream_options");
    reveal_strlit("temperature");
    reveal_strlit("top_p");
    reveal_strlit("max_tokens");
    reveal_strlit("frequency_penalty");
    reveal_strlit("presence_penalty");
    reveal_strlit("stop");
    assert("model"@.len() == 5);
    assert("messages"@.len() == 8);
    assert("stream"@.len() == 6);
    assert("tools"@.len() == 5);
    assert("tool_choice"@.len() == 11);
    assert("parallel_tool_calls"@.len() == 19);
    assert("reasoning_effort"@.len() == 16);
    assert("response_format"@.len() == 15);
    assert("stream_options"@.len() == 14);
    assert("temperature"@.len() == 11);
    assert("top_p"@.len() == 5);
    assert("max_tokens"@.len() == 10);
    assert("frequency_penalty"@.len() == 17);
    assert("presence_penalty"@.len() == 16);
    assert("stop"@.len() == 4);
    assert("model"@[0] != "tools"@[0]);
    assert("model"@[0] != "top_p"@[0]);
    assert("tools"@[2] != "top_p"@[2]);
    assert("tool_choice"@[1] != "temperature"@[1]);
    assert("reasoning_effort"@[0] != "presence_penalty"@[0]);
    if let Some(x) = x.stop {
        written::lemma_texts(x@);
    }
}

/// What is written of a list is each element, in order.
pub proof fn law_tool_calls_in_order(items: Seq<ChatToolCall>, i: int)
    requires
        0 <= i < items.len(),
    ensures
        chat::tool_calls_json(items) is Array,
        chat::tool_calls_json(items)->Array_0.len() == items.len(),
        chat::tool_calls_json(items)->Array_0[i] == chat::tool_call_json(items[i]),
{
}

/// What is written of a list is each element, in order.
pub proof fn law_messages_in_order(items: Seq<ChatMessage>, i: int)
    requires
        0 <= i < items.len(),
    ensures
        chat::messages_json(items) is Array,
        chat::messages_json(items)->Array_0.len() == items.len(),
        chat::messages_json(items)->Array_0[i] == chat::message_json(items[i]),
{
}

/// What is written of a list is each element, in order.
pub proof fn law_chat_tools_in_order(items: Seq<ChatTool>, i: int)
    requires
        0 <= i < items.len(),
    ensures
        chat::chat_tools_json(items) is Array,
        chat::chat_tools_json(items)->Array_0.len() == items.len(),
        chat::chat_tools_json(items)->Array_0[i] == chat::chat_tool_json(items[i]),
{
}

} // verus!
