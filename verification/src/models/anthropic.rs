//! The Messages surface: requests, stream events and responses.
use vstd::prelude::*;

use crate::json;
use crate::json::Json;
use crate::json::JsonMap;
use crate::json::JsonNumber;
use crate::json::JsonView;
use crate::json_string;
use crate::json_text;
use crate::json_text::value_text_or_null;
use crate::json_text::values_text;
use crate::json_text::ObjectText;
use crate::text;
use crate::text::decimal_of;

verus! {

/// A system block.
#[derive(Debug, Clone)]
pub enum AnthropicTextBlock {
    /// Text.
    Text {
        /// The text.
        text: String,
    },
}

/// A system prompt.
#[derive(Debug, Clone)]
pub enum AnthropicSystemContent {
    /// A text.
    Text(String),
    /// Blocks.
    Blocks(Vec<AnthropicTextBlock>),
}

/// Where an image comes from.
#[derive(Debug, Clone)]
pub struct AnthropicImageSource {
    /// Kind of source.
    pub kind: String,
    /// Media type.
    pub media_type: Option<String>,
    /// The image itself.
    pub data: Option<String>,
    /// Its address.
    pub url: Option<String>,
    /// Its file.
    pub file_id: Option<String>,
}

/// What a message holds.
#[derive(Debug)]
pub enum AnthropicContent {
    /// A text.
    Text(String),
    /// Blocks.
    Blocks(Vec<AnthropicContentBlock>),
}

/// A block of a message.
#[derive(Debug)]
pub enum AnthropicContentBlock {
    /// Text.
    Text {
        /// The text.
        text: String,
    },
    /// An image.
    Image {
        /// Where it comes from.
        source: AnthropicImageSource,
    },
    /// A tool call.
    ToolUse {
        /// Id of the call.
        id: String,
        /// Name of the tool.
        name: String,
        /// Its input.
        input: Json,
    },
    /// Reasoning.
    Thinking {
        /// The reasoning.
        thinking: String,
    },
    /// What a tool gave back.
    ToolResult {
        /// The call that it answers.
        tool_use_id: String,
        /// What it gave back.
        content: Option<AnthropicContent>,
        /// Whether the tool failed.
        is_error: Option<bool>,
    },
}

/// A message.
#[derive(Debug)]
pub struct AnthropicMessage {
    /// Role of the author.
    pub role: String,
    /// What it holds.
    pub content: AnthropicContent,
}

/// A tool that is offered.
#[derive(Debug, Clone)]
pub struct AnthropicTool {
    /// Name.
    pub name: String,
    /// Description.
    pub description: Option<String>,
    /// JSON schema of the input.
    pub input_schema: Json,
}

/// Which tool to use.
#[derive(Debug, Clone)]
pub enum AnthropicToolChoice {
    /// As the model sees fit.
    Auto,
    /// Any tool.
    Any,
    /// No tool.
    NoTool,
    /// This tool.
    Tool {
        /// Name of the tool.
        name: String,
    },
}

/// Whether to reason.
#[derive(Debug, Clone)]
pub enum AnthropicThinking {
    /// Yes.
    Enabled {
        /// Cap on the tokens of reasoning.
        budget_tokens: Option<u64>,
    },
    /// As the model sees fit.
    Adaptive {
        /// Cap on the tokens of reasoning.
        budget_tokens: Option<u64>,
    },
    /// No.
    Disabled,
}

/// A Messages request.
#[derive(Debug)]
pub struct AnthropicRequest {
    /// Model.
    pub model: String,
    /// Cap on output tokens.
    pub max_tokens: Option<u64>,
    /// System prompt.
    pub system: Option<AnthropicSystemContent>,
    /// Messages.
    pub messages: Vec<AnthropicMessage>,
    /// Offered tools.
    pub tools: Option<Vec<AnthropicTool>>,
    /// Which tool to use.
    pub tool_choice: Option<AnthropicToolChoice>,
    /// Whether to stream.
    pub stream: bool,
    /// Sampling temperature.
    pub temperature: Option<JsonNumber>,
    /// Nucleus sampling.
    pub top_p: Option<JsonNumber>,
    /// Sampling among the likeliest.
    pub top_k: Option<u32>,
    /// Stop sequences.
    pub stop_sequences: Option<Vec<String>>,
    /// Client metadata.
    pub metadata: Option<Json>,
    /// Whether to reason.
    pub thinking: Option<AnthropicThinking>,
    /// What is asked of the output.
    pub output_config: Option<Json>,
}

/// The tokens of a stream, as far as they are known.
#[derive(Debug, Clone)]
pub struct AnthropicUsage {
    /// Input tokens.
    pub input_tokens: Option<u64>,
    /// Output tokens.
    pub output_tokens: Option<u64>,
}

/// A message at its start.
#[derive(Debug, Clone)]
pub struct AnthropicMessageStart {
    /// Id.
    pub id: String,
    /// Type of object.
    pub kind: String,
    /// Role of the author.
    pub role: String,
    /// What it holds.
    pub content: Vec<Json>,
    /// Model.
    pub model: String,
    /// Why it ended.
    pub stop_reason: Option<Json>,
    /// The stop sequence that was met.
    pub stop_sequence: Option<Json>,
    /// Tokens.
    pub usage: AnthropicUsage,
}

/// A block at its start.
#[derive(Debug, Clone)]
pub enum AnthropicContentBlockStart {
    /// Text.
    Text {
        /// The text.
        text: String,
    },
    /// A tool call.
    ToolUse {
        /// Id of the call.
        id: String,
        /// Name of the tool.
        name: String,
        /// Its input.
        input: Json,
    },
    /// Reasoning.
    Thinking {
        /// The reasoning.
        thinking: String,
    },
}

/// What an event adds to a block.
#[derive(Debug, Clone)]
pub enum AnthropicDelta {
    /// Text.
    TextDelta {
        /// The text.
        text: String,
    },
    /// A piece of a tool's input.
    InputJsonDelta {
        /// The piece.
        partial_json: String,
    },
    /// Reasoning.
    ThinkingDelta {
        /// The reasoning.
        thinking: String,
    },
    /// The signature of reasoning.
    SignatureDelta {
        /// The signature.
        signature: String,
    },
}

/// How a message ended.
#[derive(Debug, Clone)]
pub struct AnthropicMessageDeltaBody {
    /// Why it ended.
    pub stop_reason: String,
    /// The stop sequence that was met.
    pub stop_sequence: Option<Json>,
}

/// What went wrong.
#[derive(Debug, Clone)]
pub struct AnthropicErrorBody {
    /// Type of error.
    pub kind: String,
    /// Message.
    pub message: String,
}

/// An event of a stream.
#[derive(Debug, Clone)]
pub enum AnthropicStreamEvent {
    /// The message starts.
    MessageStart {
        /// The message.
        message: AnthropicMessageStart,
    },
    /// A block starts.
    ContentBlockStart {
        /// Index of the block.
        index: usize,
        /// The block.
        content_block: AnthropicContentBlockStart,
    },
    /// A block grows.
    ContentBlockDelta {
        /// Index of the block.
        index: usize,
        /// What is added.
        delta: AnthropicDelta,
    },
    /// A block ends.
    ContentBlockStop {
        /// Index of the block.
        index: usize,
    },
    /// How the message ended.
    MessageDelta {
        /// How it ended.
        delta: AnthropicMessageDeltaBody,
        /// Tokens.
        usage: AnthropicUsage,
    },
    /// The message ends.
    MessageStop,
    /// Nothing happened.
    Ping,
    /// Something went wrong.
    Error {
        /// What went wrong.
        error: AnthropicErrorBody,
    },
}

/// The tokens of a response.
#[derive(Debug, Clone)]
pub struct AnthropicMessageUsage {
    /// Input tokens.
    pub input_tokens: u64,
    /// Output tokens.
    pub output_tokens: u64,
}

/// A block of a response.
#[derive(Debug, Clone)]
pub enum AnthropicResponseContentBlock {
    /// Text.
    Text {
        /// The text.
        text: String,
    },
    /// Reasoning.
    Thinking {
        /// The reasoning.
        thinking: String,
    },
    /// A tool call.
    ToolUse {
        /// Id of the call.
        id: String,
        /// Name of the tool.
        name: String,
        /// Its input.
        input: Json,
    },
}

/// A response.
#[derive(Debug, Clone)]
pub struct AnthropicMessageResponse {
    /// Id.
    pub id: String,
    /// Type of object.
    pub kind: String,
    /// Role of the author.
    pub role: String,
    /// What it holds.
    pub content: Vec<AnthropicResponseContentBlock>,
    /// Model.
    pub model: String,
    /// Why it ended.
    pub stop_reason: String,
    /// The stop sequence that was met.
    pub stop_sequence: Option<Json>,
    /// Tokens.
    pub usage: AnthropicMessageUsage,
}

// --- What a request may write ------------------------------------------------------------------

/// The input schema of a tool that has none.
pub fn default_input_schema() -> (r: Json)
    ensures
        r@ == JsonView::Object(json::tagged("object"@)),
{
    JsonMap::of_type("object").into_json()
}

/// What content is, as far as its shape tells.
#[derive(Debug, Clone, PartialEq)]
pub enum ContentShape {
    /// A text.
    Text(String),
    /// An array, whose elements are blocks.
    Blocks,
}

/// A shape, with the text as its characters.
pub enum ShapeView {
    /// A text.
    Text(Seq<char>),
    /// An array.
    Blocks,
}

/// A shape, with the text as its characters, or what is wrong.
pub open spec fn shape_view(r: Result<ContentShape, String>) -> Result<ShapeView, Seq<char>> {
    match r {
        Ok(ContentShape::Text(t)) => Ok(ShapeView::Text(t@)),
        Ok(ContentShape::Blocks) => Ok(ShapeView::Blocks),
        Err(e) => Err(e@),
    }
}

/// What a value is as content: a text, blocks, or an empty text for `null`.
pub open spec fn shape_of(v: JsonView, refusal: Seq<char>) -> Result<ShapeView, Seq<char>> {
    match v {
        JsonView::Text(t) => Ok(ShapeView::Text(t)),
        JsonView::Array(_) => Ok(ShapeView::Blocks),
        JsonView::Null => Ok(ShapeView::Text(seq![])),
        _ => Err(refusal),
    }
}

fn content_shape(value: &Json, refusal: &str) -> (r: Result<ContentShape, String>)
    ensures
        shape_view(r) == shape_of(value@, refusal@),
{
    match value {
        Json::Text(t) => Ok(ContentShape::Text(t.clone())),
        Json::Array(_) => Ok(ContentShape::Blocks),
        Json::Null => {
            let empty = String::new();
            assert(empty@ =~= seq![]);
            Ok(ContentShape::Text(empty))
        },
        _ => Err(refusal.to_owned()),
    }
}

impl AnthropicSystemContent {
    /// What a value is as a system prompt.
    pub fn shape(value: &Json) -> (r: Result<ContentShape, String>)
        ensures
            shape_view(r) == shape_of(value@, "expected string or array for system content"@),
    {
        content_shape(value, "expected string or array for system content")
    }
}

impl AnthropicContent {
    /// What a value is as the content of a message.
    pub fn shape(value: &Json) -> (r: Result<ContentShape, String>)
        ensures
            shape_view(r) == shape_of(value@, "expected string or array for message content"@),
    {
        content_shape(value, "expected string or array for message content")
    }
}

// --- Stream events as text ---------------------------------------------------------------------

/// The members with a number, where there is one.
pub open spec fn put_opt_number(
    fields: json_text::Fields,
    key: Seq<char>,
    n: Option<u64>,
) -> json_text::Fields {
    match n {
        Some(n) => json_text::put(fields, key, Some(text::decimal(n as nat))),
        None => fields,
    }
}

fn add_opt_number(m: &mut ObjectText, key: &str, n: Option<u64>)
    ensures
        final(m)@ == put_opt_number(old(m)@, key@, n),
{
    if let Some(n) = n {
        m.put(key, Some(decimal_of(n as u128)));
    }
}

/// Tokens as text: those that are known.
pub open spec fn usage_text(x: AnthropicUsage) -> Option<Seq<char>> {
    let m = Some(Seq::<Seq<char>>::empty());
    let m = put_opt_number(m, "input_tokens"@, x.input_tokens);
    let m = put_opt_number(m, "output_tokens"@, x.output_tokens);
    json_text::object_text(m)
}

impl AnthropicUsage {
    /// Tokens as text: those that are known.
    pub fn to_text(&self) -> (r: Option<String>)
        ensures
            text::opt_view(r) == usage_text(*self),
    {
        let mut m = ObjectText::new();
        add_opt_number(&mut m, "input_tokens", self.input_tokens);
        add_opt_number(&mut m, "output_tokens", self.output_tokens);
        m.into_text()
    }
}

/// A message at its start, as text.
pub open spec fn message_start_text(x: AnthropicMessageStart) -> Option<Seq<char>> {
    let m = Some(Seq::<Seq<char>>::empty());
    let m = json_text::put_text(m, "id"@, x.id@);
    let m = json_text::put_text(m, "type"@, x.kind@);
    let m = json_text::put_text(m, "role"@, x.role@);
    let m = json_text::put(
        m,
        "content"@,
        json_text::array_text(json_text::value_texts(x.content@)),
    );
    let m = json_text::put_text(m, "model"@, x.model@);
    let m = json_text::put(m, "stop_reason"@, json_text::value_or_null(x.stop_reason));
    let m = json_text::put(m, "stop_sequence"@, json_text::value_or_null(x.stop_sequence));
    let m = json_text::put(m, "usage"@, usage_text(x.usage));
    json_text::object_text(m)
}

impl AnthropicMessageStart {
    /// A message at its start, as text.
    pub fn to_text(&self) -> (r: Option<String>)
        ensures
            text::opt_view(r) == message_start_text(*self),
    {
        let mut m = ObjectText::new();
        m.put_text("id", self.id.as_str());
        m.put_text("type", self.kind.as_str());
        m.put_text("role", self.role.as_str());
        m.put("content", values_text(&self.content));
        m.put_text("model", self.model.as_str());
        m.put("stop_reason", value_text_or_null(&self.stop_reason));
        m.put("stop_sequence", value_text_or_null(&self.stop_sequence));
        m.put("usage", self.usage.to_text());
        m.into_text()
    }
}

/// A block at its start, as text.
pub open spec fn block_start_text(item: AnthropicContentBlockStart) -> Option<Seq<char>> {
    match item {
        AnthropicContentBlockStart::Text { text } => {
            let m = json_text::tagged("text"@);
            let m = json_text::put_text(m, "text"@, text@);
            json_text::object_text(m)
        },
        AnthropicContentBlockStart::ToolUse { id, name, input } => {
            let m = json_text::tagged("tool_use"@);
            let m = json_text::put_text(m, "id"@, id@);
            let m = json_text::put_text(m, "name"@, name@);
            let m = json_text::put(m, "input"@, json::rendered_json(input@));
            json_text::object_text(m)
        },
        AnthropicContentBlockStart::Thinking { thinking } => {
            let m = json_text::tagged("thinking"@);
            let m = json_text::put_text(m, "thinking"@, thinking@);
            json_text::object_text(m)
        },
    }
}

impl AnthropicContentBlockStart {
    /// A block at its start, as text.
    pub fn to_text(&self) -> (r: Option<String>)
        ensures
            text::opt_view(r) == block_start_text(*self),
    {
        match self {
            AnthropicContentBlockStart::Text { text } => {
                let mut m = ObjectText::of_type("text");
                m.put_text("text", text.as_str());
                m.into_text()
            },
            AnthropicContentBlockStart::ToolUse { id, name, input } => {
                let mut m = ObjectText::of_type("tool_use");
                m.put_text("id", id.as_str());
                m.put_text("name", name.as_str());
                m.put("input", input.render());
                m.into_text()
            },
            AnthropicContentBlockStart::Thinking { thinking } => {
                let mut m = ObjectText::of_type("thinking");
                m.put_text("thinking", thinking.as_str());
                m.into_text()
            },
        }
    }
}

/// What an event adds to a block, as text.
pub open spec fn delta_text(item: AnthropicDelta) -> Option<Seq<char>> {
    match item {
        AnthropicDelta::TextDelta { text } => {
            let m = json_text::tagged("text_delta"@);
            let m = json_text::put_text(m, "text"@, text@);
            json_text::object_text(m)
        },
        AnthropicDelta::InputJsonDelta { partial_json } => {
            let m = json_text::tagged("input_json_delta"@);
            let m = json_text::put_text(m, "partial_json"@, partial_json@);
            json_text::object_text(m)
        },
        AnthropicDelta::ThinkingDelta { thinking } => {
            let m = json_text::tagged("thinking_delta"@);
            let m = json_text::put_text(m, "thinking"@, thinking@);
            json_text::object_text(m)
        },
        AnthropicDelta::SignatureDelta { signature } => {
            let m = json_text::tagged("signature_delta"@);
            let m = json_text::put_text(m, "signature"@, signature@);
            json_text::object_text(m)
        },
    }
}

impl AnthropicDelta {
    /// What an event adds to a block, as text.
    pub fn to_text(&self) -> (r: Option<String>)
        ensures
            text::opt_view(r) == delta_text(*self),
    {
        match self {
            AnthropicDelta::TextDelta { text } => {
                let mut m = ObjectText::of_type("text_delta");
                m.put_text("text", text.as_str());
                m.into_text()
            },
            AnthropicDelta::InputJsonDelta { partial_json } => {
                let mut m = ObjectText::of_type("input_json_delta");
                m.put_text("partial_json", partial_json.as_str());
                m.into_text()
            },
            AnthropicDelta::ThinkingDelta { thinking } => {
                let mut m = ObjectText::of_type("thinking_delta");
                m.put_text("thinking", thinking.as_str());
                m.into_text()
            },
            AnthropicDelta::SignatureDelta { signature } => {
                let mut m = ObjectText::of_type("signature_delta");
                m.put_text("signature", signature.as_str());
                m.into_text()
            },
        }
    }
}

/// How a message ended, as text.
pub open spec fn message_delta_text(x: AnthropicMessageDeltaBody) -> Option<Seq<char>> {
    let m = Some(Seq::<Seq<char>>::empty());
    let m = json_text::put_text(m, "stop_reason"@, x.stop_reason@);
    let m = json_text::put(m, "stop_sequence"@, json_text::value_or_null(x.stop_sequence));
    json_text::object_text(m)
}

impl AnthropicMessageDeltaBody {
    /// How a message ended, as text.
    pub fn to_text(&self) -> (r: Option<String>)
        ensures
            text::opt_view(r) == message_delta_text(*self),
    {
        let mut m = ObjectText::new();
        m.put_text("stop_reason", self.stop_reason.as_str());
        m.put("stop_sequence", value_text_or_null(&self.stop_sequence));
        m.into_text()
    }
}

/// What went wrong, as text.
pub open spec fn error_text(x: AnthropicErrorBody) -> Option<Seq<char>> {
    let m = Some(Seq::<Seq<char>>::empty());
    let m = json_text::put_text(m, "type"@, x.kind@);
    let m = json_text::put_text(m, "message"@, x.message@);
    json_text::object_text(m)
}

impl AnthropicErrorBody {
    /// What went wrong, as text.
    pub fn to_text(&self) -> (r: Option<String>)
        ensures
            text::opt_view(r) == error_text(*self),
    {
        let mut m = ObjectText::new();
        m.put_text("type", self.kind.as_str());
        m.put_text("message", self.message.as_str());
        m.into_text()
    }
}

/// The members of an event, in order.
pub open spec fn event_fields(item: AnthropicStreamEvent) -> json_text::Fields {
    match item {
        AnthropicStreamEvent::MessageStart { message } => {
            let m = json_text::tagged("message_start"@);
            let m = json_text::put(m, "message"@, message_start_text(message));
            m
        },
        AnthropicStreamEvent::ContentBlockStart { index, content_block } => {
            let m = json_text::tagged("content_block_start"@);
            let m = json_text::put(m, "index"@, Some(text::decimal(index as nat)));
            let m = json_text::put(m, "content_block"@, block_start_text(content_block));
            m
        },
        AnthropicStreamEvent::ContentBlockDelta { index, delta } => {
            let m = json_text::tagged("content_block_delta"@);
            let m = json_text::put(m, "index"@, Some(text::decimal(index as nat)));
            let m = json_text::put(m, "delta"@, delta_text(delta));
            m
        },
        AnthropicStreamEvent::ContentBlockStop { index } => {
            let m = json_text::tagged("content_block_stop"@);
            let m = json_text::put(m, "index"@, Some(text::decimal(index as nat)));
            m
        },
        AnthropicStreamEvent::MessageDelta { delta, usage } => {
            let m = json_text::tagged("message_delta"@);
            let m = json_text::put(m, "delta"@, message_delta_text(delta));
            let m = json_text::put(m, "usage"@, usage_text(usage));
            m
        },
        AnthropicStreamEvent::MessageStop => {
            let m = json_text::tagged("message_stop"@);
            m
        },
        AnthropicStreamEvent::Ping => {
            let m = json_text::tagged("ping"@);
            m
        },
        AnthropicStreamEvent::Error { error } => {
            let m = json_text::tagged("error"@);
            let m = json_text::put(m, "error"@, error_text(error));
            m
        },
    }
}

/// An event as text.
pub open spec fn event_text(event: AnthropicStreamEvent) -> Option<Seq<char>> {
    json_text::object_text(event_fields(event))
}

impl AnthropicStreamEvent {
    /// An event as text.
    pub fn to_text(&self) -> (r: Option<String>)
        ensures
            text::opt_view(r) == event_text(*self),
    {
        match self {
            AnthropicStreamEvent::MessageStart { message } => {
                let mut m = ObjectText::of_type("message_start");
                m.put("message", message.to_text());
                m.into_text()
            },
            AnthropicStreamEvent::ContentBlockStart { index, content_block } => {
                let mut m = ObjectText::of_type("content_block_start");
                m.put("index", Some(decimal_of(*index as u128)));
                m.put("content_block", content_block.to_text());
                m.into_text()
            },
            AnthropicStreamEvent::ContentBlockDelta { index, delta } => {
                let mut m = ObjectText::of_type("content_block_delta");
                m.put("index", Some(decimal_of(*index as u128)));
                m.put("delta", delta.to_text());
                m.into_text()
            },
            AnthropicStreamEvent::ContentBlockStop { index } => {
                let mut m = ObjectText::of_type("content_block_stop");
                m.put("index", Some(decimal_of(*index as u128)));
                m.into_text()
            },
            AnthropicStreamEvent::MessageDelta { delta, usage } => {
                let mut m = ObjectText::of_type("message_delta");
                m.put("delta", delta.to_text());
                m.put("usage", usage.to_text());
                m.into_text()
            },
            AnthropicStreamEvent::MessageStop => {
                let m = ObjectText::of_type("message_stop");
                m.into_text()
            },
            AnthropicStreamEvent::Ping => {
                let m = ObjectText::of_type("ping");
                m.into_text()
            },
            AnthropicStreamEvent::Error { error } => {
                let mut m = ObjectText::of_type("error");
                m.put("error", error.to_text());
                m.into_text()
            },
        }
    }
}

impl AnthropicStreamEvent {
    /// The name of the event.
    pub open spec fn name(self) -> Seq<char> {
        match self {
            AnthropicStreamEvent::MessageStart { .. } => "message_start"@,
            AnthropicStreamEvent::ContentBlockStart { .. } => "content_block_start"@,
            AnthropicStreamEvent::ContentBlockDelta { .. } => "content_block_delta"@,
            AnthropicStreamEvent::ContentBlockStop { .. } => "content_block_stop"@,
            AnthropicStreamEvent::MessageDelta { .. } => "message_delta"@,
            AnthropicStreamEvent::MessageStop => "message_stop"@,
            AnthropicStreamEvent::Ping => "ping"@,
            AnthropicStreamEvent::Error { .. } => "error"@,
        }
    }

    /// The name of the event.
    pub fn sse_event_type(&self) -> (r: &'static str)
        ensures
            r@ == self.name(),
    {
        match self {
            AnthropicStreamEvent::MessageStart { .. } => "message_start",
            AnthropicStreamEvent::ContentBlockStart { .. } => "content_block_start",
            AnthropicStreamEvent::ContentBlockDelta { .. } => "content_block_delta",
            AnthropicStreamEvent::ContentBlockStop { .. } => "content_block_stop",
            AnthropicStreamEvent::MessageDelta { .. } => "message_delta",
            AnthropicStreamEvent::MessageStop => "message_stop",
            AnthropicStreamEvent::Ping => "ping",
            AnthropicStreamEvent::Error { .. } => "error",
        }
    }

    /// The event as text, `{}` where a value in it has none.
    pub fn to_json(&self) -> (r: String)
        ensures
            r@ == match event_text(*self) {
                Some(t) => t,
                None => "{}"@,
            },
    {
        match self.to_text() {
            Some(t) => t,
            None => "{}".to_owned(),
        }
    }
}

proof fn lemma_join_starts(parts: Seq<Seq<char>>, sep: Seq<char>, n: int)
    requires
        1 <= n <= parts.len(),
    ensures
        text::holds_at(text::join_n(parts, sep, n), 0, parts[0]),
    decreases n,
{
    if n == 1 {
        assert(parts[0].subrange(0, parts[0].len() as int) =~= parts[0]);
    } else {
        lemma_join_starts(parts, sep, n - 1);
        let before = text::join_n(parts, sep, n - 1);
        assert(before.subrange(0, parts[0].len() as int) == parts[0]);
        assert((before + sep + parts[n - 1]).subrange(0, parts[0].len() as int) =~= parts[0]);
    }
}

/// The text of an event starts with the event's own name as its type.
pub proof fn law_event_text_names_its_type(event: AnthropicStreamEvent)
    ensures
        event_text(event) matches Some(t) ==> text::holds_at(
            t,
            0,
            "{"@ + json_text::field("type"@, json_string::quoted(event.name())),
        ),
{
    let kind = json_text::field("type"@, json_string::quoted(event.name()));
    reveal_strlit("{");
    reveal_strlit("}");
    reveal_strlit(",");
    if let Some(t) = event_text(event) {
        let fields = event_fields(event)->0;
        lemma_join_starts(fields, ","@, fields.len() as int);
        assert(fields[0] == kind);
        assert(t == "{"@ + text::join(fields, ","@) + "}"@);
        assert(t.subrange(0, ("{"@ + kind).len() as int) =~= "{"@ + kind);
    }
}

} // verus!
