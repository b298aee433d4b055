//! Requests to an upstream of the Chat surface as JSON text, with the members in the order
//! in which they are written.
use vstd::prelude::*;

use crate::json;
use crate::json::JsonView;
use crate::json_text;
use crate::json_text::array_of;
use crate::json_text::flag_of;
use crate::json_text::strings_of;
use crate::json_text::ObjectText;
use crate::models::chat::ChatCompletionRequest;
use crate::models::chat::ChatFunctionCall;
use crate::models::chat::ChatMessage;
use crate::models::chat::ChatThinking;
use crate::models::chat::ChatTool;
use crate::models::chat::ChatToolCall;
use crate::models::chat::ChatToolDefinition;
use crate::models::chat::StreamOptions;
use crate::models::request_text;
use crate::models::request_text::number_of;
use crate::text;
use crate::text::decimal_of;
use crate::text::signed_of;

verus! {

/// A function call as text.
pub open spec fn function_call_text(item: ChatFunctionCall) -> Option<Seq<char>> {
    let m = Some(Seq::<Seq<char>>::empty());
    let m = json_text::put_opt_text(m, "name"@, text::opt_view(item.name));
    let m = match item.arguments {
        Some(x) => json_text::put(m, "arguments"@, json::rendered_json(x@)),
        None => m,
    };
    json_text::object_text(m)
}

impl ChatFunctionCall {
    /// A function call as text.
    pub fn to_text(&self) -> (r: Option<String>)
        ensures
            text::opt_view(r) == function_call_text(*self),
    {
        let mut m = ObjectText::new();
        m.put_opt_text("name", &self.name);
        if let Some(x) = &self.arguments {
            m.put("arguments", x.render());
        }
        m.into_text()
    }
}

/// A tool call as text.
pub open spec fn tool_call_text(item: ChatToolCall) -> Option<Seq<char>> {
    let m = Some(Seq::<Seq<char>>::empty());
    let m = json_text::put_opt_text(m, "id"@, text::opt_view(item.id));
    let m = match item.index {
        Some(x) => json_text::put(m, "index"@, Some(text::decimal(x as nat))),
        None => m,
    };
    let m = json_text::put_text(m, "type"@, item.kind@);
    let m = json_text::put(m, "function"@, function_call_text(item.function));
    json_text::object_text(m)
}

impl ChatToolCall {
    /// A tool call as text.
    pub fn to_text(&self) -> (r: Option<String>)
        ensures
            text::opt_view(r) == tool_call_text(*self),
    {
        let mut m = ObjectText::new();
        m.put_opt_text("id", &self.id);
        if let Some(x) = &self.index {
            m.put("index", Some(decimal_of(*x as u128)));
        }
        m.put_text("type", self.kind.as_str());
        m.put("function", self.function.to_text());
        m.into_text()
    }
}

/// Tool calls as text.
pub open spec fn tool_calls_text(items: Seq<ChatToolCall>) -> Option<Seq<char>> {
    json_text::array_text(items.map_values(|item: ChatToolCall| tool_call_text(item)))
}

/// Tool calls as text.
pub fn tool_calls_to_text(items: &Vec<ChatToolCall>) -> (r: Option<String>)
    ensures
        text::opt_view(r) == tool_calls_text(items@),
{
    let mut texts: Vec<Option<String>> = Vec::new();
    let mut i: usize = 0;
    while i < items.len()
        invariant
            i <= items@.len(),
            texts@.len() == i,
            forall|k: int|
                0 <= k < i ==> text::opt_view(#[trigger] texts@[k]) == tool_call_text(items@[k]),
        decreases items@.len() - i,
    {
        texts.push(items[i].to_text());
        i += 1;
    }
    assert(texts@.map_values(|t: Option<String>| text::opt_view(t)) =~= items@.map_values(
        |item: ChatToolCall| tool_call_text(item),
    ));
    array_of(texts)
}

/// Reasoning with its signature as text.
pub open spec fn thinking_text(item: ChatThinking) -> Option<Seq<char>> {
    let m = Some(Seq::<Seq<char>>::empty());
    let m = json_text::put_text(m, "content"@, item.content@);
    let m = json_text::put_opt_text(m, "signature"@, text::opt_view(item.signature));
    json_text::object_text(m)
}

impl ChatThinking {
    /// Reasoning with its signature as text.
    pub fn to_text(&self) -> (r: Option<String>)
        ensures
            text::opt_view(r) == thinking_text(*self),
    {
        let mut m = ObjectText::new();
        m.put_text("content", self.content.as_str());
        m.put_opt_text("signature", &self.signature);
        m.into_text()
    }
}

/// A message as text.
pub open spec fn message_text(item: ChatMessage) -> Option<Seq<char>> {
    let m = Some(Seq::<Seq<char>>::empty());
    let m = json_text::put_text(m, "role"@, item.role@);
    let m = match item.content {
        Some(x) => json_text::put(m, "content"@, json::rendered_json(x@)),
        None => m,
    };
    let m = json_text::put_opt_text(m, "tool_call_id"@, text::opt_view(item.tool_call_id));
    let m = json_text::put_opt_text(m, "name"@, text::opt_view(item.name));
    let m = json_text::put_opt_text(m, "reasoning_content"@, text::opt_view(item.reasoning_content));
    let m = match item.thinking {
        Some(x) => json_text::put(m, "thinking"@, thinking_text(x)),
        None => m,
    };
    let m = match item.tool_calls {
        Some(x) => json_text::put(m, "tool_calls"@, tool_calls_text(x@)),
        None => m,
    };
    json_text::object_text(m)
}

impl ChatMessage {
    /// A message as text.
    pub fn to_text(&self) -> (r: Option<String>)
        ensures
            text::opt_view(r) == message_text(*self),
    {
        let mut m = ObjectText::new();
        m.put_text("role", self.role.as_str());
        if let Some(x) = &self.content {
            m.put("content", x.render());
        }
        m.put_opt_text("tool_call_id", &self.tool_call_id);
        m.put_opt_text("name", &self.name);
        m.put_opt_text("reasoning_content", &self.reasoning_content);
        if let Some(x) = &self.thinking {
            m.put("thinking", x.to_text());
        }
        if let Some(x) = &self.tool_calls {
            m.put("tool_calls", tool_calls_to_text(x));
        }
        m.into_text()
    }
}

/// Messages as text.
pub open spec fn messages_text(items: Seq<ChatMessage>) -> Option<Seq<char>> {
    json_text::array_text(items.map_values(|item: ChatMessage| message_text(item)))
}

/// Messages as text.
pub fn messages_to_text(items: &Vec<ChatMessage>) -> (r: Option<String>)
    ensures
        text::opt_view(r) == messages_text(items@),
{
    let mut texts: Vec<Option<String>> = Vec::new();
    let mut i: usize = 0;
    while i < items.len()
        invariant
            i <= items@.len(),
            texts@.len() == i,
            forall|k: int|
                0 <= k < i ==> text::opt_view(#[trigger] texts@[k]) == message_text(items@[k]),
        decreases items@.len() - i,
    {
        texts.push(items[i].to_text());
        i += 1;
    }
    assert(texts@.map_values(|t: Option<String>| text::opt_view(t)) =~= items@.map_values(
        |item: ChatMessage| message_text(item),
    ));
    array_of(texts)
}

/// The definition of a tool as text.
pub open spec fn definition_text(item: ChatToolDefinition) -> Option<Seq<char>> {
    let m = Some(Seq::<Seq<char>>::empty());
    let m = json_text::put_text(m, "name"@, item.name@);
    let m = json_text::put_text(m, "description"@, item.description@);
    let m = match item.parameters {
        Some(x) => json_text::put(m, "parameters"@, json::rendered_json(x@)),
        None => m,
    };
    let m = json_text::put(m, "strict"@, Some(json_text::flag_text(item.strict)));
    json_text::object_text(m)
}

impl ChatToolDefinition {
    /// The definition of a tool as text.
    pub fn to_text(&self) -> (r: Option<String>)
        ensures
            text::opt_view(r) == definition_text(*self),
    {
        let mut m = ObjectText::new();
        m.put_text("name", self.name.as_str());
        m.put_text("description", self.description.as_str());
        if let Some(x) = &self.parameters {
            m.put("parameters", x.render());
        }
        m.put("strict", Some(flag_of(self.strict)));
        m.into_text()
    }
}

/// A tool as text.
pub open spec fn tool_text(item: ChatTool) -> Option<Seq<char>> {
    let m = Some(Seq::<Seq<char>>::empty());
    let m = json_text::put_text(m, "type"@, item.kind@);
    let m = json_text::put(m, "function"@, definition_text(item.function));
    json_text::object_text(m)
}

impl ChatTool {
    /// A tool as text.
    pub fn to_text(&self) -> (r: Option<String>)
        ensures
            text::opt_view(r) == tool_text(*self),
    {
        let mut m = ObjectText::new();
        m.put_text("type", self.kind.as_str());
        m.put("function", self.function.to_text());
        m.into_text()
    }
}

/// Tools as text.
pub open spec fn tools_text(items: Seq<ChatTool>) -> Option<Seq<char>> {
    json_text::array_text(items.map_values(|item: ChatTool| tool_text(item)))
}

/// Tools as text.
pub fn tools_to_text(items: &Vec<ChatTool>) -> (r: Option<String>)
    ensures
        text::opt_view(r) == tools_text(items@),
{
    let mut texts: Vec<Option<String>> = Vec::new();
    let mut i: usize = 0;
    while i < items.len()
        invariant
            i <= items@.len(),
            texts@.len() == i,
            forall|k: int|
                0 <= k < i ==> text::opt_view(#[trigger] texts@[k]) == tool_text(items@[k]),
        decreases items@.len() - i,
    {
        texts.push(items[i].to_text());
        i += 1;
    }
    assert(texts@.map_values(|t: Option<String>| text::opt_view(t)) =~= items@.map_values(
        |item: ChatTool| tool_text(item),
    ));
    array_of(texts)
}

/// What is asked of a stream as text.
pub open spec fn stream_options_text(item: StreamOptions) -> Option<Seq<char>> {
    let m = Some(Seq::<Seq<char>>::empty());
    let m = json_text::put(m, "include_usage"@, Some(json_text::flag_text(item.include_usage)));
    json_text::object_text(m)
}

impl StreamOptions {
    /// What is asked of a stream as text.
    pub fn to_text(&self) -> (r: Option<String>)
        ensures
            text::opt_view(r) == stream_options_text(*self),
    {
        let mut m = ObjectText::new();
        m.put("include_usage", Some(flag_of(self.include_usage)));
        m.into_text()
    }
}

/// The members with the first `n` other fields.
pub open spec fn with_other_fields(
    m: json_text::Fields,
    extra: Seq<(Seq<char>, JsonView)>,
    n: int,
) -> json_text::Fields
    decreases n,
{
    if n <= 0 || n > extra.len() {
        m
    } else {
        json_text::put(
            with_other_fields(m, extra, n - 1),
            extra[n - 1].0,
            json::rendered_json(extra[n - 1].1),
        )
    }
}

/// The typed fields of a request as text.
pub open spec fn typed_text(request: ChatCompletionRequest) -> json_text::Fields {
    let m = Some(Seq::<Seq<char>>::empty());
    let m = json_text::put_text(m, "model"@, request.model@);
    let m = json_text::put(m, "messages"@, messages_text(request.messages@));
    let m = json_text::put(m, "stream"@, Some(json_text::flag_text(request.stream)));
    let m = match request.tools {
        Some(x) => json_text::put(m, "tools"@, tools_text(x@)),
        None => m,
    };
    let m = match request.tool_choice {
        Some(x) => json_text::put(m, "tool_choice"@, json::rendered_json(x@)),
        None => m,
    };
    let m = json_text::put(
        m,
        "parallel_tool_calls"@,
        Some(json_text::flag_text(request.parallel_tool_calls)),
    );
    let m = json_text::put_opt_text(m, "reasoning_effort"@, text::opt_view(request.reasoning_effort));
    let m = match request.response_format {
        Some(x) => json_text::put(m, "response_format"@, json::rendered_json(x@)),
        None => m,
    };
    let m = match request.stream_options {
        Some(x) => json_text::put(m, "stream_options"@, stream_options_text(x)),
        None => m,
    };
    let m = match request.temperature {
        Some(x) => json_text::put(m, "temperature"@, request_text::number_text(x)),
        None => m,
    };
    let m = match request.top_p {
        Some(x) => json_text::put(m, "top_p"@, request_text::number_text(x)),
        None => m,
    };
    let m = match request.max_output_tokens {
        Some(x) => json_text::put(m, "max_tokens"@, Some(text::signed(x as int))),
        None => m,
    };
    let m = match request.frequency_penalty {
        Some(x) => json_text::put(m, "frequency_penalty"@, request_text::number_text(x)),
        None => m,
    };
    let m = match request.presence_penalty {
        Some(x) => json_text::put(m, "presence_penalty"@, request_text::number_text(x)),
        None => m,
    };
    let m = match request.stop {
        Some(x) => json_text::put(m, "stop"@, Some(json_text::strings_text(text::strings_view(x@)))),
        None => m,
    };
    m
}

/// A request as text: of its optional fields those that are there, then every other field.
pub open spec fn chat_request_text(request: ChatCompletionRequest) -> Option<Seq<char>> {
    json_text::object_text(
        with_other_fields(
            typed_text(request),
            request.extra_body@,
            request.extra_body@.len() as int,
        ),
    )
}

impl ChatCompletionRequest {
    fn typed_fields_text(&self) -> (r: ObjectText)
        ensures
            r@ == typed_text(*self),
    {
        let mut m = ObjectText::new();
        m.put_text("model", self.model.as_str());
        m.put("messages", messages_to_text(&self.messages));
        m.put("stream", Some(flag_of(self.stream)));
        if let Some(x) = &self.tools {
            m.put("tools", tools_to_text(x));
        }
        if let Some(x) = &self.tool_choice {
            m.put("tool_choice", x.render());
        }
        m.put("parallel_tool_calls", Some(flag_of(self.parallel_tool_calls)));
        m.put_opt_text("reasoning_effort", &self.reasoning_effort);
        if let Some(x) = &self.response_format {
            m.put("response_format", x.render());
        }
        if let Some(x) = &self.stream_options {
            m.put("stream_options", x.to_text());
        }
        if let Some(x) = &self.temperature {
            m.put("temperature", number_of(x));
        }
        if let Some(x) = &self.top_p {
            m.put("top_p", number_of(x));
        }
        if let Some(x) = &self.max_output_tokens {
            m.put("max_tokens", Some(signed_of(*x as i64)));
        }
        if let Some(x) = &self.frequency_penalty {
            m.put("frequency_penalty", number_of(x));
        }
        if let Some(x) = &self.presence_penalty {
            m.put("presence_penalty", number_of(x));
        }
        if let Some(x) = &self.stop {
            m.put("stop", Some(strings_of(x)));
        }
        m
    }

    /// A request as text.
    pub fn to_text(&self) -> (r: Option<String>)
        ensures
            text::opt_view(r) == chat_request_text(*self),
    {
        let mut m = self.typed_fields_text();
        let extra = &self.extra_body.entries;
        let mut i: usize = 0;
        while i < extra.len()
            invariant
                extra == self.extra_body.entries,
                i <= extra@.len(),
                m@ == with_other_fields(typed_text(*self), self.extra_body@, i as int),
            decreases extra@.len() - i,
        {
            assert(self.extra_body@[i as int] == (extra@[i as int].0@, extra@[i as int].1@));
            m.put(extra[i].0.as_str(), extra[i].1.render());
            i += 1;
        }
        m.into_text()
    }
}

} // verus!
