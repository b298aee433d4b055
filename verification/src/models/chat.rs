//! The Chat Completions surface: requests to an upstream, and its chunks and responses.
use vstd::prelude::*;

use crate::error;
use crate::error::AppError;
use crate::error::FailoverDisposition;
use crate::json;
use crate::json::Json;
use crate::json::JsonMap;
use crate::json::JsonNumber;
use crate::json::JsonView;
use crate::models::wire;
use crate::models::wire::opt_number;
use crate::models::wire::opt_signed;
use crate::models::wire::opt_texts;
use crate::text;

verus! {

/// What an upstream is asked for beside the stream.
#[derive(Debug, Clone, PartialEq)]
pub struct StreamOptions {
    /// Whether the last chunk brings the tokens used.
    pub include_usage: bool,
}

/// Reasoning that a message brings back.
#[derive(Debug, Clone, PartialEq)]
pub struct ChatThinking {
    /// The reasoning.
    pub content: String,
    /// Its signature.
    pub signature: Option<String>,
}

/// A function that is called, in full or in part.
#[derive(Debug, Clone, PartialEq)]
pub struct ChatFunctionCall {
    /// Name of the function.
    pub name: Option<String>,
    /// Its arguments.
    pub arguments: Option<Json>,
}

/// A tool call, in full or in part.
#[derive(Debug, Clone, PartialEq)]
pub struct ChatToolCall {
    /// Id of the call.
    pub id: Option<String>,
    /// Index of the call.
    pub index: Option<usize>,
    /// Type of the call.
    pub kind: String,
    /// The function.
    pub function: ChatFunctionCall,
}

/// A message.
#[derive(Debug, Clone, PartialEq)]
pub struct ChatMessage {
    /// Role of the author.
    pub role: String,
    /// Content.
    pub content: Option<Json>,
    /// The call that it answers.
    pub tool_call_id: Option<String>,
    /// Name of the author.
    pub name: Option<String>,
    /// Reasoning as a text.
    pub reasoning_content: Option<String>,
    /// Reasoning with its signature.
    pub thinking: Option<ChatThinking>,
    /// Tool calls.
    pub tool_calls: Option<Vec<ChatToolCall>>,
}

/// What a function is.
#[derive(Debug, Clone, PartialEq)]
pub struct ChatToolDefinition {
    /// Name.
    pub name: String,
    /// Description.
    pub description: String,
    /// JSON schema of the parameters.
    pub parameters: Option<Json>,
    /// Whether the arguments must follow the schema.
    pub strict: bool,
}

/// A tool that is offered.
#[derive(Debug, Clone, PartialEq)]
pub struct ChatTool {
    /// Type of the tool.
    pub kind: String,
    /// The function.
    pub function: ChatToolDefinition,
}

/// A request to an upstream.
#[derive(Debug, Clone, PartialEq)]
pub struct ChatCompletionRequest {
    /// Model.
    pub model: String,
    /// Messages.
    pub messages: Vec<ChatMessage>,
    /// Whether to stream.
    pub stream: bool,
    /// Offered tools.
    pub tools: Option<Vec<ChatTool>>,
    /// Which tool to use.
    pub tool_choice: Option<Json>,
    /// Whether tools may be called side by side.
    pub parallel_tool_calls: bool,
    /// How hard to reason.
    pub reasoning_effort: Option<String>,
    /// Format of the response.
    pub response_format: Option<Json>,
    /// What is asked beside the stream.
    pub stream_options: Option<StreamOptions>,
    /// Sampling temperature.
    pub temperature: Option<JsonNumber>,
    /// Nucleus sampling.
    pub top_p: Option<JsonNumber>,
    /// Cap on output tokens.
    pub max_output_tokens: Option<i64>,
    /// Frequency penalty.
    pub frequency_penalty: Option<JsonNumber>,
    /// Presence penalty.
    pub presence_penalty: Option<JsonNumber>,
    /// Stop sequences.
    pub stop: Option<Vec<String>>,
    /// Every other field.
    pub extra_body: JsonMap,
}

/// Prompt tokens in detail.
#[derive(Debug, Clone)]
pub struct PromptTokensDetails {
    /// Tokens from the cache.
    pub cached_tokens: i64,
}

/// Completion tokens in detail.
#[derive(Debug, Clone)]
pub struct CompletionTokensDetails {
    /// Tokens of reasoning.
    pub reasoning_tokens: i64,
}

/// The tokens that a chunk reports.
#[derive(Debug, Clone)]
pub struct ChunkUsage {
    /// Prompt tokens.
    pub prompt_tokens: i64,
    /// Completion tokens.
    pub completion_tokens: i64,
    /// Both.
    pub total_tokens: i64,
    /// Tokens of reasoning.
    pub reasoning_tokens: Option<i64>,
    /// Prompt tokens in detail.
    pub prompt_tokens_details: Option<PromptTokensDetails>,
    /// Completion tokens in detail.
    pub completion_tokens_details: Option<CompletionTokensDetails>,
}

/// What a chunk adds.
#[derive(Debug, Clone)]
pub struct ChatDelta {
    /// A piece of text.
    pub content: Option<String>,
    /// A piece of reasoning.
    pub reasoning_content: Option<String>,
    /// Pieces of tool calls.
    pub tool_calls: Option<Vec<ChatToolCall>>,
    /// A piece of a function call, in its older form.
    pub function_call: Option<ChatFunctionCall>,
    /// A piece of a refusal.
    pub refusal: Option<String>,
    /// Every other field.
    pub extra: JsonMap,
}

/// One choice of a chunk.
#[derive(Debug, Clone)]
pub struct ChatChunkChoice {
    /// Index of the choice.
    pub index: usize,
    /// What the chunk adds.
    pub delta: ChatDelta,
    /// Why the choice ended.
    pub finish_reason: Option<String>,
}

/// A chunk of a streamed completion.
#[derive(Debug, Clone)]
pub struct ChatCompletionChunk {
    /// Id of the completion.
    pub id: String,
    /// Choices.
    pub choices: Vec<ChatChunkChoice>,
    /// Tokens used.
    pub usage: Option<ChunkUsage>,
}

/// The message of a completion.
#[derive(Debug, Clone)]
pub struct ChatResponseMessage {
    /// Role of the author.
    pub role: String,
    /// Text.
    pub content: Option<String>,
    /// Reasoning.
    pub reasoning_content: Option<String>,
    /// Tool calls.
    pub tool_calls: Option<Vec<ChatToolCall>>,
}

/// One choice of a completion.
#[derive(Debug, Clone)]
pub struct ChatResponseChoice {
    /// Index of the choice.
    pub index: usize,
    /// The message.
    pub message: ChatResponseMessage,
    /// Why the choice ended.
    pub finish_reason: Option<String>,
}

/// A completion.
#[derive(Debug, Clone)]
pub struct ChatCompletionResponse {
    /// Choices.
    pub choices: Vec<ChatResponseChoice>,
}

// --- Request fields ----------------------------------------------------------------------------

/// The model of a request: trimmed, and empty where none is named.
pub fn request_model(model: Option<&str>) -> (r: String)
    ensures
        r@ == match text::opt_str_view(model) {
            Some(t) => text::trimmed(t),
            None => seq![],
        },
{
    match model {
        Some(model) => text::trim(model),
        None => {
            let empty = String::new();
            assert(empty@ =~= seq![]);
            empty
        },
    }
}

/// The texts of an array whose elements are all texts.
pub open spec fn all_texts(items: Seq<JsonView>) -> Option<Seq<Seq<char>>> {
    if forall|i: int| 0 <= i < items.len() ==> (#[trigger] items[i]) is Text {
        Some(items.map_values(|v: JsonView| v->Text_0))
    } else {
        None
    }
}

/// What is told of stop sequences that are neither a text nor texts.
pub open spec fn stop_shape_error() -> Seq<char> {
    "data did not match any variant of untagged enum StringOrVec"@
}

/// The stop sequences that a value stands for: one text, texts, or none for `null`.
pub open spec fn stop_from(v: JsonView) -> Result<Option<Seq<Seq<char>>>, Seq<char>> {
    match v {
        JsonView::Null => Ok(None),
        JsonView::Text(t) => Ok(Some(seq![t])),
        JsonView::Array(items) => match all_texts(items) {
            Some(texts) => Ok(Some(texts)),
            None => Err(stop_shape_error()),
        },
        _ => Err(stop_shape_error()),
    }
}

/// The stop sequences that a value stands for.
pub fn opt_stop(value: &Json) -> (r: Result<Option<Vec<String>>, String>)
    ensures
        match r {
            Ok(stop) => stop_from(value@) == Ok::<_, Seq<char>>(text::opt_strings_view(stop)),
            Err(e) => stop_from(value@) == Err::<Option<Seq<Seq<char>>>, _>(e@),
        },
{
    match value {
        Json::Null => Ok(None),
        Json::Text(t) => {
            let mut one: Vec<String> = Vec::new();
            one.push(t.clone());
            assert(text::strings_view(one@) =~= seq![t@]);
            Ok(Some(one))
        },
        Json::Array(items) => {
            proof {
                json::lemma_array_view(*items);
            }
            let ghost views = json::items_view(items@);
            let mut many: Vec<String> = Vec::new();
            let mut i: usize = 0;
            while i < items.len()
                invariant
                    i <= items@.len(),
                    views == json::items_view(items@),
                    value@ == JsonView::Array(views),
                    many@.len() == i,
                    forall|k: int|
                        0 <= k < i ==> views[k] == JsonView::Text((#[trigger] many@[k])@),
                decreases items@.len() - i,
            {
                match items[i].as_str() {
                    Some(t) => many.push(t.to_owned()),
                    None => {
                        assert(!(views[i as int] is Text));
                        return Err(
                            "data did not match any variant of untagged enum StringOrVec".to_owned(),
                        );
                    },
                }
                i += 1;
            }
            assert forall|k: int| 0 <= k < views.len() implies (#[trigger] views[k]) is Text by {
                assert(views[k] == JsonView::Text(many@[k]@));
            }
            assert(text::strings_view(many@) =~= views.map_values(|v: JsonView| v->Text_0));
            Ok(Some(many))
        },
        _ => Err("data did not match any variant of untagged enum StringOrVec".to_owned()),
    }
}

/// How many stop sequences there may be.
pub const OPENAI_MAX_STOP_SEQUENCES: usize = 4;

/// The first `n` texts without the empty ones.
pub open spec fn non_empty(texts: Seq<Seq<char>>, n: int) -> Seq<Seq<char>>
    decreases n,
{
    if n <= 0 || n > texts.len() {
        Seq::empty()
    } else if texts[n - 1].len() == 0 {
        non_empty(texts, n - 1)
    } else {
        non_empty(texts, n - 1).push(texts[n - 1])
    }
}

/// What is told of `n` stop sequences, which are too many.
pub open spec fn too_many_stops(n: nat) -> Seq<char> {
    "stop supports at most 4 sequences, got "@ + text::decimal(n)
}

/// The stop sequences that count: those that are not empty, at most four, and `None`
/// where there is none.
pub open spec fn stops(stop: Option<Seq<Seq<char>>>) -> Result<
    Option<Seq<Seq<char>>>,
    error::ErrorView,
> {
    match stop {
        None => Ok(None),
        Some(texts) => {
            let kept = non_empty(texts, texts.len() as int);
            if kept.len() == 0 {
                Ok(None)
            } else if kept.len() > OPENAI_MAX_STOP_SEQUENCES {
                Err(
                    error::shown(
                        400,
                        too_many_stops(kept.len()),
                        None,
                        FailoverDisposition::Failover,
                    ),
                )
            } else {
                Ok(Some(kept))
            }
        },
    }
}

/// Drops empty stop sequences and refuses too many of them.
pub fn normalize_stop(stop: Option<Vec<String>>) -> (r: Result<Option<Vec<String>>, AppError>)
    ensures
        match r {
            Ok(kept) => stops(text::opt_strings_view(stop)) == Ok::<_, error::ErrorView>(
                text::opt_strings_view(kept),
            ),
            Err(e) => stops(text::opt_strings_view(stop)) == Err::<Option<Seq<Seq<char>>>, _>(e@),
        },
{
    let values = match stop {
        None => {
            return Ok(None);
        },
        Some(values) => values,
    };
    let ghost texts = text::strings_view(values@);
    let mut kept: Vec<String> = Vec::new();
    let mut i: usize = 0;
    while i < values.len()
        invariant
            i <= values@.len(),
            texts == text::strings_view(values@),
            text::strings_view(kept@) == non_empty(texts, i as int),
        decreases values@.len() - i,
    {
        if !values[i].as_str().is_empty() {
            let ghost before = kept@;
            kept.push(values[i].clone());
            assert(text::strings_view(kept@) =~= text::strings_view(before).push(texts[i as int]));
        }
        i += 1;
    }
    if kept.len() == 0 {
        return Ok(None);
    }
    if kept.len() > OPENAI_MAX_STOP_SEQUENCES {
        let count = text::decimal_of(kept.len() as u128);
        let message = text::joined("stop supports at most 4 sequences, got ", count.as_str());
        return Err(AppError::bad_request(message.as_str()));
    }
    Ok(Some(kept))
}

/// Stop sequences that count stay as they are.
pub proof fn law_stops_are_kept(stop: Option<Seq<Seq<char>>>)
    ensures
        stops(stop) matches Ok(kept) ==> stops(kept) == Ok::<
            Option<Seq<Seq<char>>>,
            error::ErrorView,
        >(kept),
{
    if let Some(texts) = stop {
        lemma_none_empty(texts, texts.len() as int);
        let kept = non_empty(texts, texts.len() as int);
        lemma_all_kept(kept, kept.len() as int);
        assert(kept.take(kept.len() as int) =~= kept);
    }
}

proof fn lemma_none_empty(texts: Seq<Seq<char>>, n: int)
    ensures
        forall|k: int|
            0 <= k < non_empty(texts, n).len() ==> (#[trigger] non_empty(texts, n)[k]).len() > 0,
    decreases n,
{
    if 0 < n <= texts.len() {
        lemma_none_empty(texts, n - 1);
        let before = non_empty(texts, n - 1);
        assert forall|k: int| 0 <= k < non_empty(texts, n).len() implies (#[trigger] non_empty(
            texts,
            n,
        )[k]).len() > 0 by {
            if k < before.len() {
                assert(non_empty(texts, n)[k] == before[k]);
            }
        }
    }
}

proof fn lemma_all_kept(texts: Seq<Seq<char>>, n: int)
    requires
        0 <= n <= texts.len(),
        forall|k: int| 0 <= k < texts.len() ==> (#[trigger] texts[k]).len() > 0,
    ensures
        non_empty(texts, n) == texts.take(n),
    decreases n,
{
    if n > 0 {
        lemma_all_kept(texts, n - 1);
        assert(texts[n - 1].len() > 0);
        assert(texts.take(n - 1).push(texts[n - 1]) =~= texts.take(n));
    } else {
        assert(texts.take(0) =~= Seq::empty());
    }
}

/// The type of a tool call that names none.
pub fn default_chat_tool_call_kind() -> (r: String)
    ensures
        r@ == "function"@,
{
    "function".to_owned()
}

/// The type of a tool call.
pub fn chat_tool_call_kind(kind: Option<String>) -> (r: String)
    ensures
        r@ == match text::opt_view(kind) {
            Some(kind) => kind,
            None => "function"@,
        },
{
    match kind {
        Some(kind) => kind,
        None => default_chat_tool_call_kind(),
    }
}

impl Default for ChatFunctionCall {
    fn default() -> (r: Self)
        ensures
            r.name is None,
            r.arguments is None,
    {
        ChatFunctionCall { name: None, arguments: None }
    }
}

impl Default for ChatDelta {
    fn default() -> (r: Self)
        ensures
            r.content is None,
            r.reasoning_content is None,
            r.tool_calls is None,
            r.function_call is None,
            r.refusal is None,
            r.extra@ == Seq::<(Seq<char>, JsonView)>::empty(),
    {
        ChatDelta {
            content: None,
            reasoning_content: None,
            tool_calls: None,
            function_call: None,
            refusal: None,
            extra: JsonMap::new(),
        }
    }
}

// --- What a chunk adds -------------------------------------------------------------------------

/// A text that is not empty.
pub open spec fn filled(t: Option<Seq<char>>) -> Option<Seq<char>> {
    match t {
        Some(t) => if t.len() > 0 {
            Some(t)
        } else {
            None
        },
        None => None,
    }
}

/// The first of two texts that is there.
pub open spec fn or_text(a: Option<Seq<char>>, b: Option<Seq<char>>) -> Option<Seq<char>> {
    if a is Some {
        a
    } else {
        b
    }
}

/// The text of reasoning that is an object, under the first name that holds any.
pub open spec fn object_reasoning(m: Seq<(Seq<char>, JsonView)>) -> Option<Seq<char>> {
    or_text(
        filled(json::text_member(m, "text"@)),
        or_text(
            filled(json::text_member(m, "delta"@)),
            or_text(
                filled(json::text_member(m, "content"@)),
                or_text(
                    filled(json::text_member(m, "summary"@)),
                    filled(json::text_member(m, "thinking"@)),
                ),
            ),
        ),
    )
}

/// The text of reasoning under the field `key`: a text, or an object that holds one.
pub open spec fn reasoning_under(extra: Seq<(Seq<char>, JsonView)>, key: Seq<char>) -> Option<
    Seq<char>,
> {
    match json::member(extra, key) {
        Some(JsonView::Text(t)) => filled(Some(t)),
        Some(JsonView::Object(m)) => object_reasoning(m),
        _ => None,
    }
}

/// The text of the first field that holds reasoning, in the order in which upstreams are
/// looked at. An empty text counts as none.
pub open spec fn reasoning_text(
    content: Option<Seq<char>>,
    extra: Seq<(Seq<char>, JsonView)>,
) -> Option<Seq<char>> {
    or_text(
        filled(content),
        or_text(
            reasoning_under(extra, "reasoning"@),
            or_text(
                reasoning_under(extra, "reasoning_text"@),
                or_text(
                    reasoning_under(extra, "reasoning_delta"@),
                    or_text(
                        reasoning_under(extra, "reasoning_summary"@),
                        or_text(
                            reasoning_under(extra, "thinking"@),
                            reasoning_under(extra, "thinking_content"@),
                        ),
                    ),
                ),
            ),
        ),
    )
}

/// The text under `field` of an object under `thinking`.
pub open spec fn thinking_field(extra: Seq<(Seq<char>, JsonView)>, field: Seq<char>) -> Option<
    Seq<char>,
> {
    match json::member(extra, "thinking"@) {
        Some(JsonView::Object(m)) => json::text_member(m, field),
        _ => None,
    }
}

/// The keys of the first `n` members that are not `null`.
pub open spec fn non_null_keys(m: Seq<(Seq<char>, JsonView)>, n: int) -> Seq<Seq<char>>
    decreases n,
{
    if n <= 0 || n > m.len() {
        Seq::empty()
    } else if m[n - 1].1 is Null {
        non_null_keys(m, n - 1)
    } else {
        non_null_keys(m, n - 1).push(m[n - 1].0)
    }
}

/// `keys` with `key` where the field is there.
pub open spec fn with_key(keys: Seq<Seq<char>>, there: bool, key: Seq<char>) -> Seq<Seq<char>> {
    if there {
        keys.push(key)
    } else {
        keys
    }
}

fn filled_text(t: Option<&str>) -> (r: Option<&str>)
    ensures
        text::opt_str_view(r) == filled(text::opt_str_view(t)),
{
    match t {
        Some(t) => if t.is_empty() {
            None
        } else {
            Some(t)
        },
        None => None,
    }
}

fn or_str<'a>(a: Option<&'a str>, b: Option<&'a str>) -> (r: Option<&'a str>)
    ensures
        text::opt_str_view(r) == or_text(text::opt_str_view(a), text::opt_str_view(b)),
{
    if a.is_some() {
        a
    } else {
        b
    }
}

fn object_reasoning_of(m: &JsonMap) -> (r: Option<&str>)
    ensures
        text::opt_str_view(r) == object_reasoning(m@),
{
    or_str(
        filled_text(m.get_text("text")),
        or_str(
            filled_text(m.get_text("delta")),
            or_str(
                filled_text(m.get_text("content")),
                or_str(filled_text(m.get_text("summary")), filled_text(m.get_text("thinking"))),
            ),
        ),
    )
}

fn reasoning_under_key<'a>(extra: &'a JsonMap, key: &str) -> (r: Option<&'a str>)
    ensures
        text::opt_str_view(r) == reasoning_under(extra@, key@),
{
    match extra.get(key) {
        Some(value) => match value.as_object() {
            Some(object) => object_reasoning_of(object),
            None => filled_text(value.as_str()),
        },
        None => None,
    }
}

fn push_key(keys: &mut Vec<String>, there: bool, key: &str)
    ensures
        text::strings_view(final(keys)@) == with_key(text::strings_view(old(keys)@), there, key@),
{
    if there {
        keys.push(key.to_owned());
        assert(text::strings_view(keys@) =~= text::strings_view(old(keys)@).push(key@));
    }
}

impl ChatDelta {
    /// The names of the fields that are there: the typed ones first.
    pub open spec fn present_keys(self) -> Seq<Seq<char>> {
        let keys = with_key(Seq::empty(), self.content is Some, "content"@);
        let keys = with_key(keys, self.reasoning_content is Some, "reasoning_content"@);
        let keys = with_key(keys, self.tool_calls is Some, "tool_calls"@);
        let keys = with_key(keys, self.function_call is Some, "function_call"@);
        let keys = with_key(keys, self.refusal is Some, "refusal"@);
        keys + non_null_keys(self.extra@, self.extra@.len() as int)
    }

    /// The piece of reasoning, under whichever name the upstream gives it.
    pub fn reasoning_delta(&self) -> (r: Option<&str>)
        ensures
            text::opt_str_view(r) == reasoning_text(
                text::opt_view(self.reasoning_content),
                self.extra@,
            ),
    {
        let content = match &self.reasoning_content {
            Some(t) => Some(t.as_str()),
            None => None,
        };
        let extra = &self.extra;
        or_str(
            filled_text(content),
            or_str(
                reasoning_under_key(extra, "reasoning"),
                or_str(
                    reasoning_under_key(extra, "reasoning_text"),
                    or_str(
                        reasoning_under_key(extra, "reasoning_delta"),
                        or_str(
                            reasoning_under_key(extra, "reasoning_summary"),
                            or_str(
                                reasoning_under_key(extra, "thinking"),
                                reasoning_under_key(extra, "thinking_content"),
                            ),
                        ),
                    ),
                ),
            ),
        )
    }

    /// The signature of reasoning: that of the thinking object, or else the field.
    pub fn reasoning_signature_delta(&self) -> (r: Option<&str>)
        ensures
            text::opt_str_view(r) == or_text(
                thinking_field(self.extra@, "signature"@),
                json::text_member(self.extra@, "signature"@),
            ),
    {
        or_str(self.thinking_object_field("signature"), self.extra.get_text("signature"))
    }

    fn thinking_object_field(&self, field: &str) -> (r: Option<&str>)
        ensures
            text::opt_str_view(r) == thinking_field(self.extra@, field@),
    {
        match self.extra.get("thinking") {
            Some(value) => match value.as_object() {
                Some(object) => object.get_text(field),
                None => None,
            },
            None => None,
        }
    }

    /// The names of the fields that are there.
    pub fn non_null_delta_keys(&self) -> (r: Vec<String>)
        ensures
            text::strings_view(r@) == self.present_keys(),
    {
        let mut keys: Vec<String> = Vec::new();
        assert(text::strings_view(keys@) =~= Seq::<Seq<char>>::empty());
        push_key(&mut keys, self.content.is_some(), "content");
        push_key(&mut keys, self.reasoning_content.is_some(), "reasoning_content");
        push_key(&mut keys, self.tool_calls.is_some(), "tool_calls");
        push_key(&mut keys, self.function_call.is_some(), "function_call");
        push_key(&mut keys, self.refusal.is_some(), "refusal");
        let ghost typed = text::strings_view(keys@);
        let extra = &self.extra.entries;
        assert(typed + non_null_keys(self.extra@, 0) =~= typed);
        let mut i: usize = 0;
        while i < extra.len()
            invariant
                extra == self.extra.entries,
                i <= extra@.len(),
                text::strings_view(keys@) == typed + non_null_keys(self.extra@, i as int),
            decreases extra@.len() - i,
        {
            let ghost before = keys@;
            assert(self.extra@[i as int] == (extra@[i as int].0@, extra@[i as int].1@));
            if !extra[i].1.is_null() {
                keys.push(extra[i].0.clone());
                assert(text::strings_view(keys@) =~= text::strings_view(before).push(
                    extra@[i as int].0@,
                ));
                assert((typed + non_null_keys(self.extra@, i as int)).push(extra@[i as int].0@)
                    =~= typed + non_null_keys(self.extra@, i as int).push(extra@[i as int].0@));
            }
            i += 1;
        }
        keys
    }
}

// --- Requests as JSON --------------------------------------------------------------------------

/// What is asked beside the stream, as JSON.
pub open spec fn stream_options_json(x: StreamOptions) -> JsonView {
    let m = Seq::<(Seq<char>, JsonView)>::empty();
    let m = json::set_member(m, "include_usage"@, JsonView::Bool(x.include_usage));
    JsonView::Object(m)
}

impl StreamOptions {
    /// What is asked beside the stream, as JSON.
    pub fn to_json(&self) -> (r: Json)
        ensures
            r@ == stream_options_json(*self),
    {
        let mut m = JsonMap::new();
        m.put("include_usage", Json::Bool(self.include_usage));
        m.into_json()
    }
}

/// What is asked beside the stream, as JSON, where anything is.
pub open spec fn opt_stream_options_json(x: Option<StreamOptions>) -> Option<JsonView> {
    match x {
        Some(x) => Some(stream_options_json(x)),
        None => None,
    }
}

fn opt_stream_options(x: &Option<StreamOptions>) -> (r: Option<Json>)
    ensures
        json::opt_json_view(r) == opt_stream_options_json(*x),
{
    match x {
        Some(x) => Some(x.to_json()),
        None => None,
    }
}

/// Reasoning that comes back, as JSON.
pub open spec fn thinking_json(x: ChatThinking) -> JsonView {
    let m = Seq::<(Seq<char>, JsonView)>::empty();
    let m = json::put_text(m, "content"@, x.content@);
    let m = json::put_opt_text(m, "signature"@, text::opt_view(x.signature));
    JsonView::Object(m)
}

impl ChatThinking {
    /// Reasoning that comes back, as JSON.
    pub fn to_json(&self) -> (r: Json)
        ensures
            r@ == thinking_json(*self),
    {
        let mut m = JsonMap::new();
        m.put_text("content", self.content.as_str());
        m.put_opt_text("signature", &self.signature);
        m.into_json()
    }
}

/// Reasoning that comes back as JSON, where there is any.
pub open spec fn opt_thinking_json(x: Option<ChatThinking>) -> Option<JsonView> {
    match x {
        Some(x) => Some(thinking_json(x)),
        None => None,
    }
}

fn opt_thinking(x: &Option<ChatThinking>) -> (r: Option<Json>)
    ensures
        json::opt_json_view(r) == opt_thinking_json(*x),
{
    match x {
        Some(x) => Some(x.to_json()),
        None => None,
    }
}

/// A function that is called, as JSON.
pub open spec fn function_call_json(x: ChatFunctionCall) -> JsonView {
    let m = Seq::<(Seq<char>, JsonView)>::empty();
    let m = json::put_opt_text(m, "name"@, text::opt_view(x.name));
    let m = json::put_opt(m, "arguments"@, json::opt_json_view(x.arguments));
    JsonView::Object(m)
}

impl ChatFunctionCall {
    /// A function that is called, as JSON.
    pub fn to_json(&self) -> (r: Json)
        ensures
            r@ == function_call_json(*self),
    {
        let mut m = JsonMap::new();
        m.put_opt_text("name", &self.name);
        m.put_opt("arguments", json::copy_opt(&self.arguments));
        m.into_json()
    }
}

/// An index as a mathematical integer.
pub open spec fn opt_index(n: Option<usize>) -> Option<int> {
    match n {
        Some(n) => Some(n as int),
        None => None,
    }
}

fn opt_usize(n: Option<usize>) -> (r: Option<Json>)
    ensures
        json::opt_json_view(r) == wire::opt_whole_json(opt_index(n)),
{
    match n {
        Some(n) => Some(Json::unsigned(n as u64)),
        None => None,
    }
}

/// A tool call as JSON.
pub open spec fn tool_call_json(x: ChatToolCall) -> JsonView {
    let m = Seq::<(Seq<char>, JsonView)>::empty();
    let m = json::put_opt_text(m, "id"@, text::opt_view(x.id));
    let m = json::put_opt(m, "index"@, wire::opt_whole_json(opt_index(x.index)));
    let m = json::put_text(m, "type"@, x.kind@);
    let m = json::set_member(m, "function"@, function_call_json(x.function));
    JsonView::Object(m)
}

impl ChatToolCall {
    /// A tool call as JSON.
    pub fn to_json(&self) -> (r: Json)
        ensures
            r@ == tool_call_json(*self),
    {
        let mut m = JsonMap::new();
        m.put_opt_text("id", &self.id);
        m.put_opt("index", opt_usize(self.index));
        m.put_text("type", self.kind.as_str());
        m.put("function", self.function.to_json());
        m.into_json()
    }
}

/// Tool calls as JSON.
pub open spec fn tool_calls_json(items: Seq<ChatToolCall>) -> JsonView {
    JsonView::Array(items.map_values(|item: ChatToolCall| tool_call_json(item)))
}

/// Tool calls as JSON.
pub fn tool_calls_to_json(items: &Vec<ChatToolCall>) -> (r: Json)
    ensures
        r@ == tool_calls_json(items@),
{
    let mut values: Vec<Json> = Vec::new();
    let mut i: usize = 0;
    while i < items.len()
        invariant
            i <= items@.len(),
            values@.len() == i,
            forall|k: int| 0 <= k < i ==> (#[trigger] values@[k])@ == tool_call_json(items@[k]),
        decreases items@.len() - i,
    {
        values.push(items[i].to_json());
        i += 1;
    }
    assert(json::items_view(values@) =~= items@.map_values(
        |item: ChatToolCall| tool_call_json(item),
    ));
    Json::array(values)
}

/// Tool calls as JSON, where there are any.
pub open spec fn opt_tool_calls_json(items: Option<Vec<ChatToolCall>>) -> Option<JsonView> {
    match items {
        Some(items) => Some(tool_calls_json(items@)),
        None => None,
    }
}

fn opt_tool_calls(items: &Option<Vec<ChatToolCall>>) -> (r: Option<Json>)
    ensures
        json::opt_json_view(r) == opt_tool_calls_json(*items),
{
    match items {
        Some(items) => Some(tool_calls_to_json(items)),
        None => None,
    }
}

/// A message as JSON: of its optional fields those that are there.
pub open spec fn message_json(x: ChatMessage) -> JsonView {
    let m = Seq::<(Seq<char>, JsonView)>::empty();
    let m = json::put_text(m, "role"@, x.role@);
    let m = json::put_opt(m, "content"@, json::opt_json_view(x.content));
    let m = json::put_opt_text(m, "tool_call_id"@, text::opt_view(x.tool_call_id));
    let m = json::put_opt_text(m, "name"@, text::opt_view(x.name));
    let m = json::put_opt_text(m, "reasoning_content"@, text::opt_view(x.reasoning_content));
    let m = json::put_opt(m, "thinking"@, opt_thinking_json(x.thinking));
    let m = json::put_opt(m, "tool_calls"@, opt_tool_calls_json(x.tool_calls));
    JsonView::Object(m)
}

impl ChatMessage {
    /// A message as JSON: of its optional fields those that are there.
    pub fn to_json(&self) -> (r: Json)
        ensures
            r@ == message_json(*self),
    {
        let mut m = JsonMap::new();
        m.put_text("role", self.role.as_str());
        m.put_opt("content", json::copy_opt(&self.content));
        m.put_opt_text("tool_call_id", &self.tool_call_id);
        m.put_opt_text("name", &self.name);
        m.put_opt_text("reasoning_content", &self.reasoning_content);
        m.put_opt("thinking", opt_thinking(&self.thinking));
        m.put_opt("tool_calls", opt_tool_calls(&self.tool_calls));
        m.into_json()
    }
}

/// Messages as JSON.
pub open spec fn messages_json(items: Seq<ChatMessage>) -> JsonView {
    JsonView::Array(items.map_values(|item: ChatMessage| message_json(item)))
}

/// Messages as JSON.
pub fn messages_to_json(items: &Vec<ChatMessage>) -> (r: Json)
    ensures
        r@ == messages_json(items@),
{
    let mut values: Vec<Json> = Vec::new();
    let mut i: usize = 0;
    while i < items.len()
        invariant
            i <= items@.len(),
            values@.len() == i,
            forall|k: int| 0 <= k < i ==> (#[trigger] values@[k])@ == message_json(items@[k]),
        decreases items@.len() - i,
    {
        values.push(items[i].to_json());
        i += 1;
    }
    assert(json::items_view(values@) =~= items@.map_values(|item: ChatMessage| message_json(item)));
    Json::array(values)
}

/// A function that is offered, as JSON.
pub open spec fn tool_definition_json(x: ChatToolDefinition) -> JsonView {
    let m = Seq::<(Seq<char>, JsonView)>::empty();
    let m = json::put_text(m, "name"@, x.name@);
    let m = json::put_text(m, "description"@, x.description@);
    let m = json::put_opt(m, "parameters"@, json::opt_json_view(x.parameters));
    let m = json::set_member(m, "strict"@, JsonView::Bool(x.strict));
    JsonView::Object(m)
}

impl ChatToolDefinition {
    /// A function that is offered, as JSON.
    pub fn to_json(&self) -> (r: Json)
        ensures
            r@ == tool_definition_json(*self),
    {
        let mut m = JsonMap::new();
        m.put_text("name", self.name.as_str());
        m.put_text("description", self.description.as_str());
        m.put_opt("parameters", json::copy_opt(&self.parameters));
        m.put("strict", Json::Bool(self.strict));
        m.into_json()
    }
}

/// A tool that is offered, as JSON.
pub open spec fn chat_tool_json(x: ChatTool) -> JsonView {
    let m = Seq::<(Seq<char>, JsonView)>::empty();
    let m = json::put_text(m, "type"@, x.kind@);
    let m = json::set_member(m, "function"@, tool_definition_json(x.function));
    JsonView::Object(m)
}

impl ChatTool {
    /// A tool that is offered, as JSON.
    pub fn to_json(&self) -> (r: Json)
        ensures
            r@ == chat_tool_json(*self),
    {
        let mut m = JsonMap::new();
        m.put_text("type", self.kind.as_str());
        m.put("function", self.function.to_json());
        m.into_json()
    }
}

/// Offered tools as JSON.
pub open spec fn chat_tools_json(items: Seq<ChatTool>) -> JsonView {
    JsonView::Array(items.map_values(|item: ChatTool| chat_tool_json(item)))
}

/// Offered tools as JSON.
pub fn chat_tools_to_json(items: &Vec<ChatTool>) -> (r: Json)
    ensures
        r@ == chat_tools_json(items@),
{
    let mut values: Vec<Json> = Vec::new();
    let mut i: usize = 0;
    while i < items.len()
        invariant
            i <= items@.len(),
            values@.len() == i,
            forall|k: int| 0 <= k < i ==> (#[trigger] values@[k])@ == chat_tool_json(items@[k]),
        decreases items@.len() - i,
    {
        values.push(items[i].to_json());
        i += 1;
    }
    assert(json::items_view(values@) =~= items@.map_values(|item: ChatTool| chat_tool_json(item)));
    Json::array(values)
}

/// Offered tools as JSON, where there are any.
pub open spec fn opt_chat_tools_json(items: Option<Vec<ChatTool>>) -> Option<JsonView> {
    match items {
        Some(items) => Some(chat_tools_json(items@)),
        None => None,
    }
}

fn opt_chat_tools(items: &Option<Vec<ChatTool>>) -> (r: Option<Json>)
    ensures
        json::opt_json_view(r) == opt_chat_tools_json(*items),
{
    match items {
        Some(items) => Some(chat_tools_to_json(items)),
        None => None,
    }
}

/// `m` with the first `n` other fields.
pub open spec fn with_fields(
    m: Seq<(Seq<char>, JsonView)>,
    extra: Seq<(Seq<char>, JsonView)>,
    n: int,
) -> Seq<(Seq<char>, JsonView)>
    decreases n,
{
    if n <= 0 || n > extra.len() {
        m
    } else {
        json::set_member(with_fields(m, extra, n - 1), extra[n - 1].0, extra[n - 1].1)
    }
}

impl ChatCompletionRequest {
    /// The typed fields: the cap on output tokens is `max_tokens`.
    pub open spec fn typed_members(self) -> Seq<(Seq<char>, JsonView)> {
        let m = Seq::<(Seq<char>, JsonView)>::empty();
        let m = json::put_text(m, "model"@, self.model@);
        let m = json::set_member(m, "messages"@, messages_json(self.messages@));
        let m = json::set_member(m, "stream"@, JsonView::Bool(self.stream));
        let m = json::put_opt(m, "tools"@, opt_chat_tools_json(self.tools));
        let m = json::put_opt(m, "tool_choice"@, json::opt_json_view(self.tool_choice));
        let m = json::set_member(
            m,
            "parallel_tool_calls"@,
            JsonView::Bool(self.parallel_tool_calls),
        );
        let m = json::put_opt_text(m, "reasoning_effort"@, text::opt_view(self.reasoning_effort));
        let m = json::put_opt(m, "response_format"@, json::opt_json_view(self.response_format));
        let m = json::put_opt(m, "stream_options"@, opt_stream_options_json(self.stream_options));
        let m = json::put_opt(m, "temperature"@, wire::opt_number_json(self.temperature));
        let m = json::put_opt(m, "top_p"@, wire::opt_number_json(self.top_p));
        let m = json::put_opt(
            m,
            "max_tokens"@,
            wire::opt_whole_json(wire::opt_int(self.max_output_tokens)),
        );
        let m = json::put_opt(
            m,
            "frequency_penalty"@,
            wire::opt_number_json(self.frequency_penalty),
        );
        let m = json::put_opt(m, "presence_penalty"@, wire::opt_number_json(self.presence_penalty));
        let m = json::put_opt(m, "stop"@, wire::opt_texts_json(self.stop));
        m
    }

    /// The request as JSON: the typed fields, and beside them every other field.
    pub open spec fn json(self) -> JsonView {
        JsonView::Object(
            with_fields(self.typed_members(), self.extra_body@, self.extra_body@.len() as int),
        )
    }

    fn typed_map(&self) -> (r: JsonMap)
        ensures
            r@ == self.typed_members(),
    {
        let mut m = JsonMap::new();
        m.put_text("model", self.model.as_str());
        m.put("messages", messages_to_json(&self.messages));
        m.put("stream", Json::Bool(self.stream));
        m.put_opt("tools", opt_chat_tools(&self.tools));
        m.put_opt("tool_choice", json::copy_opt(&self.tool_choice));
        m.put("parallel_tool_calls", Json::Bool(self.parallel_tool_calls));
        m.put_opt_text("reasoning_effort", &self.reasoning_effort);
        m.put_opt("response_format", json::copy_opt(&self.response_format));
        m.put_opt("stream_options", opt_stream_options(&self.stream_options));
        m.put_opt("temperature", opt_number(&self.temperature));
        m.put_opt("top_p", opt_number(&self.top_p));
        m.put_opt("max_tokens", opt_signed(self.max_output_tokens));
        m.put_opt("frequency_penalty", opt_number(&self.frequency_penalty));
        m.put_opt("presence_penalty", opt_number(&self.presence_penalty));
        m.put_opt("stop", opt_texts(&self.stop));
        m
    }

    /// The request as JSON.
    pub fn to_json(&self) -> (r: Json)
        ensures
            r@ == self.json(),
    {
        let mut m = self.typed_map();
        let extra = &self.extra_body.entries;
        let mut i: usize = 0;
        while i < extra.len()
            invariant
                extra == self.extra_body.entries,
                i <= extra@.len(),
                m@ == with_fields(self.typed_members(), self.extra_body@, i as int),
            decreases extra@.len() - i,
        {
            assert(self.extra_body@[i as int] == (extra@[i as int].0@, extra@[i as int].1@));
            m.put(extra[i].0.as_str(), extra[i].1.copy());
            i += 1;
        }
        m.into_json()
    }
}

} // verus!
