//! Requests and chunks of the Chat surface, and tools of the Messages surface, as they
//! are read from JSON.
use vstd::prelude::*;

use crate::json;
use crate::json::Json;
use crate::json::JsonMap;
use crate::json::JsonNumber;
use crate::json::JsonView;
use crate::json::NumberView;
use crate::models::anthropic::default_input_schema;
use crate::models::anthropic::AnthropicTool;
use crate::models::chat::chat_tool_call_kind;
use crate::models::chat::ChatChunkChoice;
use crate::models::chat::ChatCompletionChunk;
use crate::models::chat::ChatCompletionRequest;
use crate::models::chat::ChatDelta;
use crate::models::chat::ChatFunctionCall;
use crate::models::chat::ChatMessage;
use crate::models::chat::ChatThinking;
use crate::models::chat::ChatTool;
use crate::models::chat::ChatToolCall;
use crate::models::chat::ChatToolDefinition;
use crate::models::chat::ChunkUsage;
use crate::models::chat::CompletionTokensDetails;
use crate::models::chat::PromptTokensDetails;
use crate::models::chat::StreamOptions;
use crate::models::fields;
use crate::models::fields::fields_in;
use crate::models::fields::Names;
use crate::models::read;
use crate::models::read::read_opt_text;
use crate::models::read::read_text;
use crate::models::read_request;
use crate::models::read_request::read_flag_or_false;
use crate::models::read_request::read_model;
use crate::models::read_request::read_opt_i64;
use crate::models::read_request::read_opt_number;
use crate::models::read_request::read_opt_value;
use crate::models::read_request::read_stop;
use crate::models::read_request::read_text_or_empty;
use crate::text;

verus! {

// --- Numbers -----------------------------------------------------------------------------------

/// A whole number that must be there.
pub open spec fn i64_at(m: Seq<(Seq<char>, JsonView)>, key: Seq<char>) -> Option<i64> {
    match read_request::opt_i64_at(m, key) {
        Some(Some(n)) => Some(n),
        _ => None,
    }
}

/// A whole number, 0 where it is missing.
pub open spec fn i64_or_zero_at(m: Seq<(Seq<char>, JsonView)>, key: Seq<char>) -> Option<i64> {
    if json::member(m, key) is None {
        Some(0)
    } else {
        i64_at(m, key)
    }
}

/// An index that must be there.
pub open spec fn usize_at(m: Seq<(Seq<char>, JsonView)>, key: Seq<char>) -> Option<usize> {
    match json::member(m, key) {
        Some(JsonView::Number(NumberView::Unsigned(n))) => if n <= usize::MAX {
            Some(n as usize)
        } else {
            None
        },
        _ => None,
    }
}

/// An index that may be missing or `null`.
pub open spec fn opt_usize_at(m: Seq<(Seq<char>, JsonView)>, key: Seq<char>) -> Option<
    Option<usize>,
> {
    match json::member(m, key) {
        None => Some(None),
        Some(JsonView::Null) => Some(None),
        Some(_) => match usize_at(m, key) {
            Some(n) => Some(Some(n)),
            None => None,
        },
    }
}

pub(crate) fn read_i64(m: &JsonMap, key: &str) -> (r: Option<i64>)
    ensures
        r == i64_at(m@, key@),
{
    match read_opt_i64(m, key) {
        Some(Some(n)) => Some(n),
        _ => None,
    }
}

fn read_i64_or_zero(m: &JsonMap, key: &str) -> (r: Option<i64>)
    ensures
        r == i64_or_zero_at(m@, key@),
{
    if m.contains_key(key) {
        read_i64(m, key)
    } else {
        Some(0)
    }
}

pub(crate) fn read_usize(m: &JsonMap, key: &str) -> (r: Option<usize>)
    ensures
        r == usize_at(m@, key@),
{
    match m.get(key) {
        Some(Json::Number(JsonNumber::Unsigned(n))) => if *n <= usize::MAX as u64 {
            Some(*n as usize)
        } else {
            None
        },
        _ => None,
    }
}

fn read_opt_usize(m: &JsonMap, key: &str) -> (r: Option<Option<usize>>)
    ensures
        r == opt_usize_at(m@, key@),
{
    match m.get(key) {
        None => Some(None),
        Some(v) => if v.is_null() {
            Some(None)
        } else {
            match read_usize(m, key) {
                Some(n) => Some(Some(n)),
                None => None,
            }
        },
    }
}

// --- Tool calls --------------------------------------------------------------------------------

/// The function call that a value stands for, by its contents.
pub struct FunctionCallView {
    /// `name`.
    pub name: Option<Seq<char>>,
    /// `arguments`.
    pub arguments: Option<JsonView>,
}

impl View for ChatFunctionCall {
    type V = FunctionCallView;

    open spec fn view(&self) -> FunctionCallView {
        FunctionCallView {
            name: text::opt_view(self.name),
            arguments: json::opt_json_view(self.arguments),
        }
    }
}

/// The value that stands for it, read.
pub open spec fn function_call_from(v: JsonView) -> Option<FunctionCallView> {
    match fields::fields_of(v, seq!["name"@, "arguments"@], 2) {
        Some(m) => if read::opt_text_at(m, "name"@) is Some
            && read_request::opt_value_at(m, "arguments"@) is Some {
            Some(
                FunctionCallView {
                    name: read::opt_text_at(m, "name"@)->0,
                    arguments: read_request::opt_value_at(m, "arguments"@)->0,
                },
            )
        } else {
            None
        },
        None => None,
    }
}

/// What was read, by its contents.
pub open spec fn opt_view_function_call_from(
    r: Option<ChatFunctionCall>,
) -> Option<FunctionCallView> {
    match r {
        Some(x) => Some(x@),
        None => None,
    }
}

impl ChatFunctionCall {
    /// The function call that a value stands for.
    pub fn from_json(value: &Json) -> (r: Option<ChatFunctionCall>)
        ensures
            opt_view_function_call_from(r) == function_call_from(value@),
    {
        let names = Names::new().and("name").and("arguments");
        assert(names@ =~= seq!["name"@, "arguments"@]);
        let fields = match fields_in(value, &names, 2) {
            Some(fields) => fields,
            None => {
                return None;
            },
        };
        let m = fields.map();
        let name = match read_opt_text(m, "name") {
            Some(x) => x,
            None => {
                return None;
            },
        };
        let arguments = match read_opt_value(m, "arguments") {
            Some(x) => x,
            None => {
                return None;
            },
        };
        Some(
            ChatFunctionCall {
                name,
                arguments,
            },
        )
    }
}

/// What was read, where it is there.
pub open spec fn opt_function_call_view(x: Option<ChatFunctionCall>) -> Option<FunctionCallView> {
    match x {
        Some(x) => Some(x@),
        None => None,
    }
}

/// It may be missing or `null`.
pub open spec fn opt_function_call_at(m: Seq<(Seq<char>, JsonView)>, key: Seq<char>) -> Option<
    Option<FunctionCallView>,
> {
    match json::member(m, key) {
        None => Some(None),
        Some(JsonView::Null) => Some(None),
        Some(v) => match function_call_from(v) {
            Some(x) => Some(Some(x)),
            None => None,
        },
    }
}

fn read_opt_function_call(m: &JsonMap, key: &str) -> (r: Option<Option<ChatFunctionCall>>)
    ensures
        match r {
            Some(x) => opt_function_call_at(m@, key@) == Some(opt_function_call_view(x)),
            None => opt_function_call_at(m@, key@) is None,
        },
{
    match m.get(key) {
        None => Some(None),
        Some(v) => if v.is_null() {
            Some(None)
        } else {
            match ChatFunctionCall::from_json(v) {
                Some(x) => Some(Some(x)),
                None => None,
            }
        },
    }
}

/// The function of a tool call, an empty one where it is missing.
pub open spec fn call_function_at(m: Seq<(Seq<char>, JsonView)>, key: Seq<char>) -> Option<
    FunctionCallView,
> {
    match json::member(m, key) {
        None => Some(FunctionCallView { name: None, arguments: None }),
        Some(v) => function_call_from(v),
    }
}

fn read_call_function(m: &JsonMap, key: &str) -> (r: Option<ChatFunctionCall>)
    ensures
        opt_view_function_call_from(r) == call_function_at(m@, key@),
{
    match m.get(key) {
        None => Some(ChatFunctionCall::default()),
        Some(v) => ChatFunctionCall::from_json(v),
    }
}

/// The type of a tool call, `function` where it is missing or `null`.
pub open spec fn call_kind_at(m: Seq<(Seq<char>, JsonView)>, key: Seq<char>) -> Option<Seq<char>> {
    match read::opt_text_at(m, key) {
        Some(Some(t)) => Some(t),
        Some(None) => Some("function"@),
        None => None,
    }
}

fn read_call_kind(m: &JsonMap, key: &str) -> (r: Option<String>)
    ensures
        text::opt_view(r) == call_kind_at(m@, key@),
{
    match read_opt_text(m, key) {
        Some(kind) => Some(chat_tool_call_kind(kind)),
        None => None,
    }
}

/// The tool call that a value stands for, by its contents.
pub struct ToolCallView {
    /// `id`.
    pub id: Option<Seq<char>>,
    /// `index`.
    pub index: Option<usize>,
    /// `type`.
    pub kind: Seq<char>,
    /// `function`.
    pub function: FunctionCallView,
}

impl View for ChatToolCall {
    type V = ToolCallView;

    open spec fn view(&self) -> ToolCallView {
        ToolCallView {
            id: text::opt_view(self.id),
            index: self.index,
            kind: self.kind@,
            function: self.function@,
        }
    }
}

/// The value that stands for it, read.
pub open spec fn tool_call_from(v: JsonView) -> Option<ToolCallView> {
    match fields::fields_of(v, seq!["id"@, "index"@, "type"@, "function"@], 2) {
        Some(m) => if read::opt_text_at(m, "id"@) is Some
            && opt_usize_at(m, "index"@) is Some
            && call_kind_at(m, "type"@) is Some
            && call_function_at(m, "function"@) is Some {
            Some(
                ToolCallView {
                    id: read::opt_text_at(m, "id"@)->0,
                    index: opt_usize_at(m, "index"@)->0,
                    kind: call_kind_at(m, "type"@)->0,
                    function: call_function_at(m, "function"@)->0,
                },
            )
        } else {
            None
        },
        None => None,
    }
}

/// What was read, by its contents.
pub open spec fn opt_view_tool_call_from(r: Option<ChatToolCall>) -> Option<ToolCallView> {
    match r {
        Some(x) => Some(x@),
        None => None,
    }
}

impl ChatToolCall {
    /// The tool call that a value stands for.
    pub fn from_json(value: &Json) -> (r: Option<ChatToolCall>)
        ensures
            opt_view_tool_call_from(r) == tool_call_from(value@),
    {
        let names = Names::new().and("id").and("index").and("type").and("function");
        assert(names@ =~= seq!["id"@, "index"@, "type"@, "function"@]);
        let fields = match fields_in(value, &names, 2) {
            Some(fields) => fields,
            None => {
                return None;
            },
        };
        let m = fields.map();
        let id = match read_opt_text(m, "id") {
            Some(x) => x,
            None => {
                return None;
            },
        };
        let index = match read_opt_usize(m, "index") {
            Some(x) => x,
            None => {
                return None;
            },
        };
        let kind = match read_call_kind(m, "type") {
            Some(x) => x,
            None => {
                return None;
            },
        };
        let function = match read_call_function(m, "function") {
            Some(x) => x,
            None => {
                return None;
            },
        };
        Some(
            ChatToolCall {
                id,
                index,
                kind,
                function,
            },
        )
    }
}

/// The contents of tool calls.
pub open spec fn tool_calls_view(items: Seq<ChatToolCall>) -> Seq<ToolCallView> {
    items.map_values(|item: ChatToolCall| item@)
}

/// Whether all elements can be read.
pub open spec fn all_tool_call_from(items: Seq<JsonView>) -> bool {
    forall|i: int| 0 <= i < items.len() ==> tool_call_from(#[trigger] items[i]) is Some
}

/// The elements that were read.
pub open spec fn each_tool_call_from(items: Seq<JsonView>) -> Option<Seq<ToolCallView>> {
    if all_tool_call_from(items) {
        Some(items.map_values(|v: JsonView| tool_call_from(v)->0))
    } else {
        None
    }
}

fn read_each_tool_call_from(items: &Vec<Json>) -> (r: Option<Vec<ChatToolCall>>)
    ensures
        match r {
            Some(read) => each_tool_call_from(
                json::items_view(items@),
            ) == Some(tool_calls_view(read@)),
            None => each_tool_call_from(json::items_view(items@)) is None,
        },
{
    let ghost views = json::items_view(items@);
    let mut out: Vec<ChatToolCall> = Vec::new();
    let mut i: usize = 0;
    while i < items.len()
        invariant
            i <= items@.len(),
            views == json::items_view(items@),
            out@.len() == i,
            forall|k: int| 0 <= k < i ==> tool_call_from(views[k]) == Some((#[trigger] out@[k])@),
        decreases items@.len() - i,
    {
        match ChatToolCall::from_json(&items[i]) {
            Some(x) => out.push(x),
            None => {
                assert(tool_call_from(views[i as int]) is None);
                return None;
            },
        }
        i += 1;
    }
    assert forall|k: int|
        0 <= k < views.len() implies tool_call_from(#[trigger] views[k]) is Some by {
        assert(tool_call_from(views[k]) == Some(out@[k]@));
    }
    assert(tool_calls_view(out@) =~= views.map_values(|v: JsonView| tool_call_from(v)->0));
    Some(out)
}

/// The contents, where there are any.
pub open spec fn opt_tool_calls_view(x: Option<Vec<ChatToolCall>>) -> Option<Seq<ToolCallView>> {
    match x {
        Some(x) => Some(tool_calls_view(x@)),
        None => None,
    }
}

/// They may be missing or `null`.
pub open spec fn opt_tool_calls_at(m: Seq<(Seq<char>, JsonView)>, key: Seq<char>) -> Option<
    Option<Seq<ToolCallView>>,
> {
    match json::member(m, key) {
        None => Some(None),
        Some(JsonView::Null) => Some(None),
        Some(JsonView::Array(items)) => match each_tool_call_from(items) {
            Some(x) => Some(Some(x)),
            None => None,
        },
        Some(_) => None,
    }
}

pub(crate) fn read_opt_tool_calls(m: &JsonMap, key: &str) -> (r: Option<Option<Vec<ChatToolCall>>>)
    ensures
        match r {
            Some(x) => opt_tool_calls_at(m@, key@) == Some(opt_tool_calls_view(x)),
            None => opt_tool_calls_at(m@, key@) is None,
        },
{
    match m.get(key) {
        None => Some(None),
        Some(Json::Null) => Some(None),
        Some(Json::Array(items)) => {
            proof {
                json::lemma_array_view(*items);
            }
            match read_each_tool_call_from(items) {
                Some(x) => Some(Some(x)),
                None => None,
            }
        },
        Some(_) => None,
    }
}

// --- Chunks ------------------------------------------------------------------------------------

/// The prompt tokens in detail that a value stands for, by its contents.
pub struct PromptDetailsView {
    /// `cached_tokens`.
    pub cached_tokens: i64,
}

impl View for PromptTokensDetails {
    type V = PromptDetailsView;

    open spec fn view(&self) -> PromptDetailsView {
        PromptDetailsView {
            cached_tokens: self.cached_tokens,
        }
    }
}

/// The value that stands for it, read.
pub open spec fn prompt_details_from(v: JsonView) -> Option<PromptDetailsView> {
    match fields::fields_of(v, seq!["cached_tokens"@], 0) {
        Some(m) => if i64_or_zero_at(m, "cached_tokens"@) is Some {
            Some(
                PromptDetailsView {
                    cached_tokens: i64_or_zero_at(m, "cached_tokens"@)->0,
                },
            )
        } else {
            None
        },
        None => None,
    }
}

/// What was read, by its contents.
pub open spec fn opt_view_prompt_details_from(
    r: Option<PromptTokensDetails>,
) -> Option<PromptDetailsView> {
    match r {
        Some(x) => Some(x@),
        None => None,
    }
}

impl PromptTokensDetails {
    /// The prompt tokens in detail that a value stands for.
    pub fn from_json(value: &Json) -> (r: Option<PromptTokensDetails>)
        ensures
            opt_view_prompt_details_from(r) == prompt_details_from(value@),
    {
        let names = Names::new().and("cached_tokens");
        let fields = match fields_in(value, &names, 0) {
            Some(fields) => fields,
            None => {
                return None;
            },
        };
        let m = fields.map();
        let cached_tokens = match read_i64_or_zero(m, "cached_tokens") {
            Some(x) => x,
            None => {
                return None;
            },
        };
        Some(
            PromptTokensDetails {
                cached_tokens,
            },
        )
    }
}

/// What was read, where it is there.
pub open spec fn opt_prompt_details_view(
    x: Option<PromptTokensDetails>,
) -> Option<PromptDetailsView> {
    match x {
        Some(x) => Some(x@),
        None => None,
    }
}

/// It may be missing or `null`.
pub open spec fn opt_prompt_details_at(m: Seq<(Seq<char>, JsonView)>, key: Seq<char>) -> Option<
    Option<PromptDetailsView>,
> {
    match json::member(m, key) {
        None => Some(None),
        Some(JsonView::Null) => Some(None),
        Some(v) => match prompt_details_from(v) {
            Some(x) => Some(Some(x)),
            None => None,
        },
    }
}

fn read_opt_prompt_details(m: &JsonMap, key: &str) -> (r: Option<Option<PromptTokensDetails>>)
    ensures
        match r {
            Some(x) => opt_prompt_details_at(m@, key@) == Some(opt_prompt_details_view(x)),
            None => opt_prompt_details_at(m@, key@) is None,
        },
{
    match m.get(key) {
        None => Some(None),
        Some(v) => if v.is_null() {
            Some(None)
        } else {
            match PromptTokensDetails::from_json(v) {
                Some(x) => Some(Some(x)),
                None => None,
            }
        },
    }
}

/// The completion tokens in detail that a value stands for, by its contents.
pub struct CompletionDetailsView {
    /// `reasoning_tokens`.
    pub reasoning_tokens: i64,
}

impl View for CompletionTokensDetails {
    type V = CompletionDetailsView;

    open spec fn view(&self) -> CompletionDetailsView {
        CompletionDetailsView {
            reasoning_tokens: self.reasoning_tokens,
        }
    }
}

/// The value that stands for it, read.
pub open spec fn completion_details_from(v: JsonView) -> Option<CompletionDetailsView> {
    match fields::fields_of(v, seq!["reasoning_tokens"@], 0) {
        Some(m) => if i64_or_zero_at(m, "reasoning_tokens"@) is Some {
            Some(
                CompletionDetailsView {
                    reasoning_tokens: i64_or_zero_at(m, "reasoning_tokens"@)->0,
                },
            )
        } else {
            None
        },
        None => None,
    }
}

/// What was read, by its contents.
pub open spec fn opt_view_completion_details_from(
    r: Option<CompletionTokensDetails>,
) -> Option<CompletionDetailsView> {
    match r {
        Some(x) => Some(x@),
        None => None,
    }
}

impl CompletionTokensDetails {
    /// The completion tokens in detail that a value stands for.
    pub fn from_json(value: &Json) -> (r: Option<CompletionTokensDetails>)
        ensures
            opt_view_completion_details_from(r) == completion_details_from(value@),
    {
        let names = Names::new().and("reasoning_tokens");
        let fields = match fields_in(value, &names, 0) {
            Some(fields) => fields,
            None => {
                return None;
            },
        };
        let m = fields.map();
        let reasoning_tokens = match read_i64_or_zero(m, "reasoning_tokens") {
            Some(x) => x,
            None => {
                return None;
            },
        };
        Some(
            CompletionTokensDetails {
                reasoning_tokens,
            },
        )
    }
}

/// What was read, where it is there.
pub open spec fn opt_completion_details_view(
    x: Option<CompletionTokensDetails>,
) -> Option<CompletionDetailsView> {
    match x {
        Some(x) => Some(x@),
        None => None,
    }
}

/// It may be missing or `null`.
pub open spec fn opt_completion_details_at(m: Seq<(Seq<char>, JsonView)>, key: Seq<char>) -> Option<
    Option<CompletionDetailsView>,
> {
    match json::member(m, key) {
        None => Some(None),
        Some(JsonView::Null) => Some(None),
        Some(v) => match completion_details_from(v) {
            Some(x) => Some(Some(x)),
            None => None,
        },
    }
}

fn read_opt_completion_details(m: &JsonMap, key: &str) -> (r: Option<Option<CompletionTokensDetails>>)
    ensures
        match r {
            Some(x) => opt_completion_details_at(m@, key@) == Some(opt_completion_details_view(x)),
            None => opt_completion_details_at(m@, key@) is None,
        },
{
    match m.get(key) {
        None => Some(None),
        Some(v) => if v.is_null() {
            Some(None)
        } else {
            match CompletionTokensDetails::from_json(v) {
                Some(x) => Some(Some(x)),
                None => None,
            }
        },
    }
}

/// The tokens that a value stands for, by its contents.
pub struct ChunkUsageView {
    /// `prompt_tokens`.
    pub prompt_tokens: i64,
    /// `completion_tokens`.
    pub completion_tokens: i64,
    /// `total_tokens`.
    pub total_tokens: i64,
    /// `reasoning_tokens`.
    pub reasoning_tokens: Option<i64>,
    /// `prompt_tokens_details`.
    pub prompt_tokens_details: Option<PromptDetailsView>,
    /// `completion_tokens_details`.
    pub completion_tokens_details: Option<CompletionDetailsView>,
}

impl View for ChunkUsage {
    type V = ChunkUsageView;

    open spec fn view(&self) -> ChunkUsageView {
        ChunkUsageView {
            prompt_tokens: self.prompt_tokens,
            completion_tokens: self.completion_tokens,
            total_tokens: self.total_tokens,
            reasoning_tokens: self.reasoning_tokens,
            prompt_tokens_details: opt_prompt_details_view(self.prompt_tokens_details),
            completion_tokens_details: opt_completion_details_view(self.completion_tokens_details),
        }
    }
}

/// The value that stands for it, read.
pub open spec fn chunk_usage_from(v: JsonView) -> Option<ChunkUsageView> {
    match fields::fields_of(
        v,
        seq![
            "prompt_tokens"@,
            "completion_tokens"@,
            "total_tokens"@,
            "reasoning_tokens"@,
            "prompt_tokens_details"@,
            "completion_tokens_details"@,
        ],
        3,
    ) {
        Some(m) => if i64_at(m, "prompt_tokens"@) is Some
            && i64_at(m, "completion_tokens"@) is Some
            && i64_at(m, "total_tokens"@) is Some
            && read_request::opt_i64_at(m, "reasoning_tokens"@) is Some
            && opt_prompt_details_at(m, "prompt_tokens_details"@) is Some
            && opt_completion_details_at(m, "completion_tokens_details"@) is Some {
            Some(
                ChunkUsageView {
                    prompt_tokens: i64_at(m, "prompt_tokens"@)->0,
                    completion_tokens: i64_at(m, "completion_tokens"@)->0,
                    total_tokens: i64_at(m, "total_tokens"@)->0,
                    reasoning_tokens: read_request::opt_i64_at(m, "reasoning_tokens"@)->0,
                    prompt_tokens_details: opt_prompt_details_at(m, "prompt_tokens_details"@)->0,
                    completion_tokens_details: opt_completion_details_at(m, "completion_tokens_details"@)->0,
                },
            )
        } else {
            None
        },
        None => None,
    }
}

/// What was read, by its contents.
pub open spec fn opt_view_chunk_usage_from(r: Option<ChunkUsage>) -> Option<ChunkUsageView> {
    match r {
        Some(x) => Some(x@),
        None => None,
    }
}

impl ChunkUsage {
    /// The tokens that a value stands for.
    pub fn from_json(value: &Json) -> (r: Option<ChunkUsage>)
        ensures
            opt_view_chunk_usage_from(r) == chunk_usage_from(value@),
    {
        let names = Names::new()
            .and("prompt_tokens")
            .and("completion_tokens")
            .and("total_tokens")
            .and("reasoning_tokens")
            .and("prompt_tokens_details")
            .and("completion_tokens_details");
        assert(names@ =~= seq![
            "prompt_tokens"@,
            "completion_tokens"@,
            "total_tokens"@,
            "reasoning_tokens"@,
            "prompt_tokens_details"@,
            "completion_tokens_details"@,
        ]);
        let fields = match fields_in(value, &names, 3) {
            Some(fields) => fields,
            None => {
                return None;
            },
        };
        let m = fields.map();
        let prompt_tokens = match read_i64(m, "prompt_tokens") {
            Some(x) => x,
            None => {
                return None;
            },
        };
        let completion_tokens = match read_i64(m, "completion_tokens") {
            Some(x) => x,
            None => {
                return None;
            },
        };
        let total_tokens = match read_i64(m, "total_tokens") {
            Some(x) => x,
            None => {
                return None;
            },
        };
        let reasoning_tokens = match read_opt_i64(m, "reasoning_tokens") {
            Some(x) => x,
            None => {
                return None;
            },
        };
        let prompt_tokens_details = match read_opt_prompt_details(m, "prompt_tokens_details") {
            Some(x) => x,
            None => {
                return None;
            },
        };
        let completion_tokens_details = match read_opt_completion_details(
            m,
            "completion_tokens_details",
        ) {
            Some(x) => x,
            None => {
                return None;
            },
        };
        Some(
            ChunkUsage {
                prompt_tokens,
                completion_tokens,
                total_tokens,
                reasoning_tokens,
                prompt_tokens_details,
                completion_tokens_details,
            },
        )
    }
}

/// What was read, where it is there.
pub open spec fn opt_chunk_usage_view(x: Option<ChunkUsage>) -> Option<ChunkUsageView> {
    match x {
        Some(x) => Some(x@),
        None => None,
    }
}

/// It may be missing or `null`.
pub open spec fn opt_chunk_usage_at(m: Seq<(Seq<char>, JsonView)>, key: Seq<char>) -> Option<
    Option<ChunkUsageView>,
> {
    match json::member(m, key) {
        None => Some(None),
        Some(JsonView::Null) => Some(None),
        Some(v) => match chunk_usage_from(v) {
            Some(x) => Some(Some(x)),
            None => None,
        },
    }
}

fn read_opt_chunk_usage(m: &JsonMap, key: &str) -> (r: Option<Option<ChunkUsage>>)
    ensures
        match r {
            Some(x) => opt_chunk_usage_at(m@, key@) == Some(opt_chunk_usage_view(x)),
            None => opt_chunk_usage_at(m@, key@) is None,
        },
{
    match m.get(key) {
        None => Some(None),
        Some(v) => if v.is_null() {
            Some(None)
        } else {
            match ChunkUsage::from_json(v) {
                Some(x) => Some(Some(x)),
                None => None,
            }
        },
    }
}

/// The names of the typed fields.
pub open spec fn delta_from_names() -> Seq<Seq<char>> {
    seq![
        "content"@,
        "reasoning_content"@,
        "tool_calls"@,
        "function_call"@,
        "refusal"@,
    ]
}

/// The first `n` members that are not named like a typed field.
pub open spec fn delta_from_others(m: Seq<(Seq<char>, JsonView)>, n: int) -> Seq<
    (Seq<char>, JsonView),
>
    decreases n,
{
    if n <= 0 || n > m.len() {
        Seq::empty()
    } else if delta_from_names().contains(m[n - 1].0) {
        delta_from_others(m, n - 1)
    } else {
        delta_from_others(m, n - 1).push(m[n - 1])
    }
}

fn is_delta_from_name(key: &str) -> (r: bool)
    ensures
        r == delta_from_names().contains(key@),
{
    let r = text::str_eq(key, "content")
        || text::str_eq(key, "reasoning_content")
        || text::str_eq(key, "tool_calls")
        || text::str_eq(key, "function_call")
        || text::str_eq(key, "refusal");
    proof {
        let names = delta_from_names();
        if r {
            assert(names[0] == "content"@);
            assert(names[1] == "reasoning_content"@);
            assert(names[2] == "tool_calls"@);
            assert(names[3] == "function_call"@);
            assert(names[4] == "refusal"@);
        }
        if names.contains(key@) {
            let i = choose|i: int| 0 <= i < names.len() && names[i] == key@;
            assert(names[i] == key@);
        }
    }
    r
}

fn read_delta_from_others(m: &JsonMap) -> (r: JsonMap)
    ensures
        r@ == delta_from_others(m@, m@.len() as int),
{
    let entries = &m.entries;
    let mut out: Vec<(String, Json)> = Vec::new();
    let ghost mut kept: Seq<(Seq<char>, JsonView)> = Seq::empty();
    let mut i: usize = 0;
    while i < entries.len()
        invariant
            entries == m.entries,
            i <= entries@.len(),
            kept == delta_from_others(m@, i as int),
            kept.len() == out@.len(),
            forall|k: int| 0 <= k < kept.len() ==> (#[trigger] kept[k]) == (out@[k].0@, out@[k].1@),
        decreases entries@.len() - i,
    {
        assert(m@[i as int] == (entries@[i as int].0@, entries@[i as int].1@));
        if !is_delta_from_name(entries[i].0.as_str()) {
            out.push((entries[i].0.clone(), entries[i].1.copy()));
            proof {
                kept = kept.push(m@[i as int]);
            }
        }
        i += 1;
    }
    let r = JsonMap { entries: out };
    assert(r@ =~= kept);
    r
}

/// What a chunk adds, as a value says it, by its contents.
pub struct DeltaView {
    /// `content`.
    pub content: Option<Seq<char>>,
    /// `reasoning_content`.
    pub reasoning_content: Option<Seq<char>>,
    /// `tool_calls`.
    pub tool_calls: Option<Seq<ToolCallView>>,
    /// `function_call`.
    pub function_call: Option<FunctionCallView>,
    /// `refusal`.
    pub refusal: Option<Seq<char>>,
    /// Every other field.
    pub extra: Seq<(Seq<char>, JsonView)>,
}

impl View for ChatDelta {
    type V = DeltaView;

    open spec fn view(&self) -> DeltaView {
        DeltaView {
            content: text::opt_view(self.content),
            reasoning_content: text::opt_view(self.reasoning_content),
            tool_calls: opt_tool_calls_view(self.tool_calls),
            function_call: opt_function_call_view(self.function_call),
            refusal: text::opt_view(self.refusal),
            extra: self.extra@,
        }
    }
}

/// The value that stands for it, read.
pub open spec fn delta_from(v: JsonView) -> Option<DeltaView> {
    match v {
        JsonView::Object(m) => if read::opt_text_at(m, "content"@) is Some
            && read::opt_text_at(m, "reasoning_content"@) is Some
            && opt_tool_calls_at(m, "tool_calls"@) is Some
            && opt_function_call_at(m, "function_call"@) is Some
            && read::opt_text_at(m, "refusal"@) is Some {
            Some(
                DeltaView {
                    content: read::opt_text_at(m, "content"@)->0,
                    reasoning_content: read::opt_text_at(m, "reasoning_content"@)->0,
                    tool_calls: opt_tool_calls_at(m, "tool_calls"@)->0,
                    function_call: opt_function_call_at(m, "function_call"@)->0,
                    refusal: read::opt_text_at(m, "refusal"@)->0,
                    extra: delta_from_others(m, m.len() as int),
                },
            )
        } else {
            None
        },
        _ => None,
    }
}

/// What was read, by its contents.
pub open spec fn opt_view_delta_from(r: Option<ChatDelta>) -> Option<DeltaView> {
    match r {
        Some(x) => Some(x@),
        None => None,
    }
}

impl ChatDelta {
    /// What a chunk adds, as a value says it.
    pub fn from_json(value: &Json) -> (r: Option<ChatDelta>)
        ensures
            opt_view_delta_from(r) == delta_from(value@),
    {
        let m = match value.as_object() {
            Some(m) => m,
            None => {
                return None;
            },
        };
        let content = match read_opt_text(m, "content") {
            Some(x) => x,
            None => {
                return None;
            },
        };
        let reasoning_content = match read_opt_text(m, "reasoning_content") {
            Some(x) => x,
            None => {
                return None;
            },
        };
        let tool_calls = match read_opt_tool_calls(m, "tool_calls") {
            Some(x) => x,
            None => {
                return None;
            },
        };
        let function_call = match read_opt_function_call(m, "function_call") {
            Some(x) => x,
            None => {
                return None;
            },
        };
        let refusal = match read_opt_text(m, "refusal") {
            Some(x) => x,
            None => {
                return None;
            },
        };
        Some(
            ChatDelta {
                content,
                reasoning_content,
                tool_calls,
                function_call,
                refusal,
                extra: read_delta_from_others(m),
            },
        )
    }
}

/// It must be there.
pub open spec fn delta_at(m: Seq<(Seq<char>, JsonView)>, key: Seq<char>) -> Option<DeltaView> {
    match json::member(m, key) {
        Some(v) => delta_from(v),
        None => None,
    }
}

fn read_delta(m: &JsonMap, key: &str) -> (r: Option<ChatDelta>)
    ensures
        opt_view_delta_from(r) == delta_at(m@, key@),
{
    match m.get(key) {
        Some(v) => ChatDelta::from_json(v),
        None => None,
    }
}

/// The choice that a value stands for, by its contents.
pub struct ChoiceView {
    /// `index`.
    pub index: usize,
    /// `delta`.
    pub delta: DeltaView,
    /// `finish_reason`.
    pub finish_reason: Option<Seq<char>>,
}

impl View for ChatChunkChoice {
    type V = ChoiceView;

    open spec fn view(&self) -> ChoiceView {
        ChoiceView {
            index: self.index,
            delta: self.delta@,
            finish_reason: text::opt_view(self.finish_reason),
        }
    }
}

/// The value that stands for it, read.
pub open spec fn choice_from(v: JsonView) -> Option<ChoiceView> {
    match fields::fields_of(v, seq!["index"@, "delta"@, "finish_reason"@], 3) {
        Some(m) => if usize_at(m, "index"@) is Some
            && delta_at(m, "delta"@) is Some
            && read::opt_text_at(m, "finish_reason"@) is Some {
            Some(
                ChoiceView {
                    index: usize_at(m, "index"@)->0,
                    delta: delta_at(m, "delta"@)->0,
                    finish_reason: read::opt_text_at(m, "finish_reason"@)->0,
                },
            )
        } else {
            None
        },
        None => None,
    }
}

/// What was read, by its contents.
pub open spec fn opt_view_choice_from(r: Option<ChatChunkChoice>) -> Option<ChoiceView> {
    match r {
        Some(x) => Some(x@),
        None => None,
    }
}

impl ChatChunkChoice {
    /// The choice that a value stands for.
    pub fn from_json(value: &Json) -> (r: Option<ChatChunkChoice>)
        ensures
            opt_view_choice_from(r) == choice_from(value@),
    {
        let names = Names::new().and("index").and("delta").and("finish_reason");
        assert(names@ =~= seq!["index"@, "delta"@, "finish_reason"@]);
        let fields = match fields_in(value, &names, 3) {
            Some(fields) => fields,
            None => {
                return None;
            },
        };
        let m = fields.map();
        let index = match read_usize(m, "index") {
            Some(x) => x,
            None => {
                return None;
            },
        };
        let delta = match read_delta(m, "delta") {
            Some(x) => x,
            None => {
                return None;
            },
        };
        let finish_reason = match read_opt_text(m, "finish_reason") {
            Some(x) => x,
            None => {
                return None;
            },
        };
        Some(
            ChatChunkChoice {
                index,
                delta,
                finish_reason,
            },
        )
    }
}

/// The contents of choices.
pub open spec fn choices_view(items: Seq<ChatChunkChoice>) -> Seq<ChoiceView> {
    items.map_values(|item: ChatChunkChoice| item@)
}

/// Whether all elements can be read.
pub open spec fn all_choice_from(items: Seq<JsonView>) -> bool {
    forall|i: int| 0 <= i < items.len() ==> choice_from(#[trigger] items[i]) is Some
}

/// The elements that were read.
pub open spec fn each_choice_from(items: Seq<JsonView>) -> Option<Seq<ChoiceView>> {
    if all_choice_from(items) {
        Some(items.map_values(|v: JsonView| choice_from(v)->0))
    } else {
        None
    }
}

fn read_each_choice_from(items: &Vec<Json>) -> (r: Option<Vec<ChatChunkChoice>>)
    ensures
        match r {
            Some(read) => each_choice_from(json::items_view(items@)) == Some(choices_view(read@)),
            None => each_choice_from(json::items_view(items@)) is None,
        },
{
    let ghost views = json::items_view(items@);
    let mut out: Vec<ChatChunkChoice> = Vec::new();
    let mut i: usize = 0;
    while i < items.len()
        invariant
            i <= items@.len(),
            views == json::items_view(items@),
            out@.len() == i,
            forall|k: int| 0 <= k < i ==> choice_from(views[k]) == Some((#[trigger] out@[k])@),
        decreases items@.len() - i,
    {
        match ChatChunkChoice::from_json(&items[i]) {
            Some(x) => out.push(x),
            None => {
                assert(choice_from(views[i as int]) is None);
                return None;
            },
        }
        i += 1;
    }
    assert forall|k: int| 0 <= k < views.len() implies choice_from(#[trigger] views[k]) is Some by {
        assert(choice_from(views[k]) == Some(out@[k]@));
    }
    assert(choices_view(out@) =~= views.map_values(|v: JsonView| choice_from(v)->0));
    Some(out)
}

/// Choices that must be there.
pub open spec fn choices_at(
    m: Seq<(Seq<char>, JsonView)>,
    key: Seq<char>,
) -> Option<Seq<ChoiceView>> {
    match json::member(m, key) {
        Some(JsonView::Array(items)) => each_choice_from(items),
        _ => None,
    }
}

fn read_choices(m: &JsonMap, key: &str) -> (r: Option<Vec<ChatChunkChoice>>)
    ensures
        match r {
            Some(read) => choices_at(m@, key@) == Some(choices_view(read@)),
            None => choices_at(m@, key@) is None,
        },
{
    match m.get(key) {
        Some(value) => match value.as_array() {
            Some(items) => read_each_choice_from(items),
            None => None,
        },
        None => None,
    }
}

/// The chunk that a value stands for, by its contents.
pub struct ChunkView {
    /// `id`.
    pub id: Seq<char>,
    /// `choices`.
    pub choices: Seq<ChoiceView>,
    /// `usage`.
    pub usage: Option<ChunkUsageView>,
}

impl View for ChatCompletionChunk {
    type V = ChunkView;

    open spec fn view(&self) -> ChunkView {
        ChunkView {
            id: self.id@,
            choices: choices_view(self.choices@),
            usage: opt_chunk_usage_view(self.usage),
        }
    }
}

/// The value that stands for it, read.
pub open spec fn chunk_from(v: JsonView) -> Option<ChunkView> {
    match fields::fields_of(v, seq!["id"@, "choices"@, "usage"@], 2) {
        Some(m) => if read::text_at(m, "id"@) is Some
            && choices_at(m, "choices"@) is Some
            && opt_chunk_usage_at(m, "usage"@) is Some {
            Some(
                ChunkView {
                    id: read::text_at(m, "id"@)->0,
                    choices: choices_at(m, "choices"@)->0,
                    usage: opt_chunk_usage_at(m, "usage"@)->0,
                },
            )
        } else {
            None
        },
        None => None,
    }
}

/// What was read, by its contents.
pub open spec fn opt_view_chunk_from(r: Option<ChatCompletionChunk>) -> Option<ChunkView> {
    match r {
        Some(x) => Some(x@),
        None => None,
    }
}

impl ChatCompletionChunk {
    /// The chunk that a value stands for.
    pub fn from_json(value: &Json) -> (r: Option<ChatCompletionChunk>)
        ensures
            opt_view_chunk_from(r) == chunk_from(value@),
    {
        let names = Names::new().and("id").and("choices").and("usage");
        assert(names@ =~= seq!["id"@, "choices"@, "usage"@]);
        let fields = match fields_in(value, &names, 2) {
            Some(fields) => fields,
            None => {
                return None;
            },
        };
        let m = fields.map();
        let id = match read_text(m, "id") {
            Some(x) => x,
            None => {
                return None;
            },
        };
        let choices = match read_choices(m, "choices") {
            Some(x) => x,
            None => {
                return None;
            },
        };
        let usage = match read_opt_chunk_usage(m, "usage") {
            Some(x) => x,
            None => {
                return None;
            },
        };
        Some(
            ChatCompletionChunk {
                id,
                choices,
                usage,
            },
        )
    }
}

// --- Requests ----------------------------------------------------------------------------------

/// The reasoning that a value stands for, by its contents.
pub struct ThinkingView {
    /// `content`.
    pub content: Seq<char>,
    /// `signature`.
    pub signature: Option<Seq<char>>,
}

impl View for ChatThinking {
    type V = ThinkingView;

    open spec fn view(&self) -> ThinkingView {
        ThinkingView {
            content: self.content@,
            signature: text::opt_view(self.signature),
        }
    }
}

/// The value that stands for it, read.
pub open spec fn thinking_from(v: JsonView) -> Option<ThinkingView> {
    match fields::fields_of(v, seq!["content"@, "signature"@], 2) {
        Some(m) => if read::text_at(m, "content"@) is Some
            && read::opt_text_at(m, "signature"@) is Some {
            Some(
                ThinkingView {
                    content: read::text_at(m, "content"@)->0,
                    signature: read::opt_text_at(m, "signature"@)->0,
                },
            )
        } else {
            None
        },
        None => None,
    }
}

/// What was read, by its contents.
pub open spec fn opt_view_thinking_from(r: Option<ChatThinking>) -> Option<ThinkingView> {
    match r {
        Some(x) => Some(x@),
        None => None,
    }
}

impl ChatThinking {
    /// The reasoning that a value stands for.
    pub fn from_json(value: &Json) -> (r: Option<ChatThinking>)
        ensures
            opt_view_thinking_from(r) == thinking_from(value@),
    {
        let names = Names::new().and("content").and("signature");
        assert(names@ =~= seq!["content"@, "signature"@]);
        let fields = match fields_in(value, &names, 2) {
            Some(fields) => fields,
            None => {
                return None;
            },
        };
        let m = fields.map();
        let content = match read_text(m, "content") {
            Some(x) => x,
            None => {
                return None;
            },
        };
        let signature = match read_opt_text(m, "signature") {
            Some(x) => x,
            None => {
                return None;
            },
        };
        Some(
            ChatThinking {
                content,
                signature,
            },
        )
    }
}

/// What was read, where it is there.
pub open spec fn opt_thinking_view(x: Option<ChatThinking>) -> Option<ThinkingView> {
    match x {
        Some(x) => Some(x@),
        None => None,
    }
}

/// It may be missing or `null`.
pub open spec fn opt_thinking_at(m: Seq<(Seq<char>, JsonView)>, key: Seq<char>) -> Option<
    Option<ThinkingView>,
> {
    match json::member(m, key) {
        None => Some(None),
        Some(JsonView::Null) => Some(None),
        Some(v) => match thinking_from(v) {
            Some(x) => Some(Some(x)),
            None => None,
        },
    }
}

fn read_opt_thinking(m: &JsonMap, key: &str) -> (r: Option<Option<ChatThinking>>)
    ensures
        match r {
            Some(x) => opt_thinking_at(m@, key@) == Some(opt_thinking_view(x)),
            None => opt_thinking_at(m@, key@) is None,
        },
{
    match m.get(key) {
        None => Some(None),
        Some(v) => if v.is_null() {
            Some(None)
        } else {
            match ChatThinking::from_json(v) {
                Some(x) => Some(Some(x)),
                None => None,
            }
        },
    }
}

/// The message that a value stands for, by its contents.
pub struct MessageView {
    /// `role`.
    pub role: Seq<char>,
    /// `content`.
    pub content: Option<JsonView>,
    /// `tool_call_id`.
    pub tool_call_id: Option<Seq<char>>,
    /// `name`.
    pub name: Option<Seq<char>>,
    /// `reasoning_content`.
    pub reasoning_content: Option<Seq<char>>,
    /// `thinking`.
    pub thinking: Option<ThinkingView>,
    /// `tool_calls`.
    pub tool_calls: Option<Seq<ToolCallView>>,
}

impl View for ChatMessage {
    type V = MessageView;

    open spec fn view(&self) -> MessageView {
        MessageView {
            role: self.role@,
            content: json::opt_json_view(self.content),
            tool_call_id: text::opt_view(self.tool_call_id),
            name: text::opt_view(self.name),
            reasoning_content: text::opt_view(self.reasoning_content),
            thinking: opt_thinking_view(self.thinking),
            tool_calls: opt_tool_calls_view(self.tool_calls),
        }
    }
}

/// The value that stands for it, read.
pub open spec fn message_from(v: JsonView) -> Option<MessageView> {
    match fields::fields_of(
        v,
        seq![
            "role"@,
            "content"@,
            "tool_call_id"@,
            "name"@,
            "reasoning_content"@,
            "thinking"@,
            "tool_calls"@,
        ],
        7,
    ) {
        Some(m) => if read::text_at(m, "role"@) is Some
            && read_request::opt_value_at(m, "content"@) is Some
            && read::opt_text_at(m, "tool_call_id"@) is Some
            && read::opt_text_at(m, "name"@) is Some
            && read::opt_text_at(m, "reasoning_content"@) is Some
            && opt_thinking_at(m, "thinking"@) is Some
            && opt_tool_calls_at(m, "tool_calls"@) is Some {
            Some(
                MessageView {
                    role: read::text_at(m, "role"@)->0,
                    content: read_request::opt_value_at(m, "content"@)->0,
                    tool_call_id: read::opt_text_at(m, "tool_call_id"@)->0,
                    name: read::opt_text_at(m, "name"@)->0,
                    reasoning_content: read::opt_text_at(m, "reasoning_content"@)->0,
                    thinking: opt_thinking_at(m, "thinking"@)->0,
                    tool_calls: opt_tool_calls_at(m, "tool_calls"@)->0,
                },
            )
        } else {
            None
        },
        None => None,
    }
}

/// What was read, by its contents.
pub open spec fn opt_view_message_from(r: Option<ChatMessage>) -> Option<MessageView> {
    match r {
        Some(x) => Some(x@),
        None => None,
    }
}

impl ChatMessage {
    /// The message that a value stands for.
    pub fn from_json(value: &Json) -> (r: Option<ChatMessage>)
        ensures
            opt_view_message_from(r) == message_from(value@),
    {
        let names = Names::new()
            .and("role")
            .and("content")
            .and("tool_call_id")
            .and("name")
            .and("reasoning_content")
            .and("thinking")
            .and("tool_calls");
        assert(names@ =~= seq![
            "role"@,
            "content"@,
            "tool_call_id"@,
            "name"@,
            "reasoning_content"@,
            "thinking"@,
            "tool_calls"@,
        ]);
        let fields = match fields_in(value, &names, 7) {
            Some(fields) => fields,
            None => {
                return None;
            },
        };
        let m = fields.map();
        let role = match read_text(m, "role") {
            Some(x) => x,
            None => {
                return None;
            },
        };
        let content = match read_opt_value(m, "content") {
            Some(x) => x,
            None => {
                return None;
            },
        };
        let tool_call_id = match read_opt_text(m, "tool_call_id") {
            Some(x) => x,
            None => {
                return None;
            },
        };
        let name = match read_opt_text(m, "name") {
            Some(x) => x,
            None => {
                return None;
            },
        };
        let reasoning_content = match read_opt_text(m, "reasoning_content") {
            Some(x) => x,
            None => {
                return None;
            },
        };
        let thinking = match read_opt_thinking(m, "thinking") {
            Some(x) => x,
            None => {
                return None;
            },
        };
        let tool_calls = match read_opt_tool_calls(m, "tool_calls") {
            Some(x) => x,
            None => {
                return None;
            },
        };
        Some(
            ChatMessage {
                role,
                content,
                tool_call_id,
                name,
                reasoning_content,
                thinking,
                tool_calls,
            },
        )
    }
}

/// The contents of messages.
pub open spec fn messages_view(items: Seq<ChatMessage>) -> Seq<MessageView> {
    items.map_values(|item: ChatMessage| item@)
}

/// Whether all elements can be read.
pub open spec fn all_message_from(items: Seq<JsonView>) -> bool {
    forall|i: int| 0 <= i < items.len() ==> message_from(#[trigger] items[i]) is Some
}

/// The elements that were read.
pub open spec fn each_message_from(items: Seq<JsonView>) -> Option<Seq<MessageView>> {
    if all_message_from(items) {
        Some(items.map_values(|v: JsonView| message_from(v)->0))
    } else {
        None
    }
}

fn read_each_message_from(items: &Vec<Json>) -> (r: Option<Vec<ChatMessage>>)
    ensures
        match r {
            Some(read) => each_message_from(json::items_view(items@)) == Some(messages_view(read@)),
            None => each_message_from(json::items_view(items@)) is None,
        },
{
    let ghost views = json::items_view(items@);
    let mut out: Vec<ChatMessage> = Vec::new();
    let mut i: usize = 0;
    while i < items.len()
        invariant
            i <= items@.len(),
            views == json::items_view(items@),
            out@.len() == i,
            forall|k: int| 0 <= k < i ==> message_from(views[k]) == Some((#[trigger] out@[k])@),
        decreases items@.len() - i,
    {
        match ChatMessage::from_json(&items[i]) {
            Some(x) => out.push(x),
            None => {
                assert(message_from(views[i as int]) is None);
                return None;
            },
        }
        i += 1;
    }
    assert forall|k: int|
        0 <= k < views.len() implies message_from(#[trigger] views[k]) is Some by {
        assert(message_from(views[k]) == Some(out@[k]@));
    }
    assert(messages_view(out@) =~= views.map_values(|v: JsonView| message_from(v)->0));
    Some(out)
}

/// Messages that must be there.
pub open spec fn messages_at(
    m: Seq<(Seq<char>, JsonView)>,
    key: Seq<char>,
) -> Option<Seq<MessageView>> {
    match json::member(m, key) {
        Some(JsonView::Array(items)) => each_message_from(items),
        _ => None,
    }
}

fn read_messages(m: &JsonMap, key: &str) -> (r: Option<Vec<ChatMessage>>)
    ensures
        match r {
            Some(read) => messages_at(m@, key@) == Some(messages_view(read@)),
            None => messages_at(m@, key@) is None,
        },
{
    match m.get(key) {
        Some(value) => match value.as_array() {
            Some(items) => read_each_message_from(items),
            None => None,
        },
        None => None,
    }
}

/// The function that a value stands for, by its contents.
pub struct DefinitionView {
    /// `name`.
    pub name: Seq<char>,
    /// `description`.
    pub description: Seq<char>,
    /// `parameters`.
    pub parameters: Option<JsonView>,
    /// `strict`.
    pub strict: bool,
}

impl View for ChatToolDefinition {
    type V = DefinitionView;

    open spec fn view(&self) -> DefinitionView {
        DefinitionView {
            name: self.name@,
            description: self.description@,
            parameters: json::opt_json_view(self.parameters),
            strict: self.strict,
        }
    }
}

/// The value that stands for it, read.
pub open spec fn definition_from(v: JsonView) -> Option<DefinitionView> {
    match fields::fields_of(v, seq!["name"@, "description"@, "parameters"@, "strict"@], 3) {
        Some(m) => if read::text_at(m, "name"@) is Some
            && read_request::text_or_empty_at(m, "description"@) is Some
            && read_request::opt_value_at(m, "parameters"@) is Some
            && read_request::flag_or_false_at(m, "strict"@) is Some {
            Some(
                DefinitionView {
                    name: read::text_at(m, "name"@)->0,
                    description: read_request::text_or_empty_at(m, "description"@)->0,
                    parameters: read_request::opt_value_at(m, "parameters"@)->0,
                    strict: read_request::flag_or_false_at(m, "strict"@)->0,
                },
            )
        } else {
            None
        },
        None => None,
    }
}

/// What was read, by its contents.
pub open spec fn opt_view_definition_from(r: Option<ChatToolDefinition>) -> Option<DefinitionView> {
    match r {
        Some(x) => Some(x@),
        None => None,
    }
}

impl ChatToolDefinition {
    /// The function that a value stands for.
    pub fn from_json(value: &Json) -> (r: Option<ChatToolDefinition>)
        ensures
            opt_view_definition_from(r) == definition_from(value@),
    {
        let names = Names::new()
            .and("name")
            .and("description")
            .and("parameters")
            .and("strict");
        assert(names@ =~= seq!["name"@, "description"@, "parameters"@, "strict"@]);
        let fields = match fields_in(value, &names, 3) {
            Some(fields) => fields,
            None => {
                return None;
            },
        };
        let m = fields.map();
        let name = match read_text(m, "name") {
            Some(x) => x,
            None => {
                return None;
            },
        };
        let description = match read_text_or_empty(m, "description") {
            Some(x) => x,
            None => {
                return None;
            },
        };
        let parameters = match read_opt_value(m, "parameters") {
            Some(x) => x,
            None => {
                return None;
            },
        };
        let strict = match read_flag_or_false(m, "strict") {
            Some(x) => x,
            None => {
                return None;
            },
        };
        Some(
            ChatToolDefinition {
                name,
                description,
                parameters,
                strict,
            },
        )
    }
}

/// It must be there.
pub open spec fn definition_at(
    m: Seq<(Seq<char>, JsonView)>,
    key: Seq<char>,
) -> Option<DefinitionView> {
    match json::member(m, key) {
        Some(v) => definition_from(v),
        None => None,
    }
}

fn read_definition(m: &JsonMap, key: &str) -> (r: Option<ChatToolDefinition>)
    ensures
        opt_view_definition_from(r) == definition_at(m@, key@),
{
    match m.get(key) {
        Some(v) => ChatToolDefinition::from_json(v),
        None => None,
    }
}

/// The tool that a value stands for, by its contents.
pub struct ChatToolView {
    /// `type`.
    pub kind: Seq<char>,
    /// `function`.
    pub function: DefinitionView,
}

impl View for ChatTool {
    type V = ChatToolView;

    open spec fn view(&self) -> ChatToolView {
        ChatToolView {
            kind: self.kind@,
            function: self.function@,
        }
    }
}

/// The value that stands for it, read.
pub open spec fn chat_tool_from(v: JsonView) -> Option<ChatToolView> {
    match fields::fields_of(v, seq!["type"@, "function"@], 2) {
        Some(m) => if read::text_at(m, "type"@) is Some
            && definition_at(m, "function"@) is Some {
            Some(
                ChatToolView {
                    kind: read::text_at(m, "type"@)->0,
                    function: definition_at(m, "function"@)->0,
                },
            )
        } else {
            None
        },
        None => None,
    }
}

/// What was read, by its contents.
pub open spec fn opt_view_chat_tool_from(r: Option<ChatTool>) -> Option<ChatToolView> {
    match r {
        Some(x) => Some(x@),
        None => None,
    }
}

impl ChatTool {
    /// The tool that a value stands for.
    pub fn from_json(value: &Json) -> (r: Option<ChatTool>)
        ensures
            opt_view_chat_tool_from(r) == chat_tool_from(value@),
    {
        let names = Names::new().and("type").and("function");
        assert(names@ =~= seq!["type"@, "function"@]);
        let fields = match fields_in(value, &names, 2) {
            Some(fields) => fields,
            None => {
                return None;
            },
        };
        let m = fields.map();
        let kind = match read_text(m, "type") {
            Some(x) => x,
            None => {
                return None;
            },
        };
        let function = match read_definition(m, "function") {
            Some(x) => x,
            None => {
                return None;
            },
        };
        Some(
            ChatTool {
                kind,
                function,
            },
        )
    }
}

/// The contents of tools.
pub open spec fn chat_tools_view(items: Seq<ChatTool>) -> Seq<ChatToolView> {
    items.map_values(|item: ChatTool| item@)
}

/// Whether all elements can be read.
pub open spec fn all_chat_tool_from(items: Seq<JsonView>) -> bool {
    forall|i: int| 0 <= i < items.len() ==> chat_tool_from(#[trigger] items[i]) is Some
}

/// The elements that were read.
pub open spec fn each_chat_tool_from(items: Seq<JsonView>) -> Option<Seq<ChatToolView>> {
    if all_chat_tool_from(items) {
        Some(items.map_values(|v: JsonView| chat_tool_from(v)->0))
    } else {
        None
    }
}

fn read_each_chat_tool_from(items: &Vec<Json>) -> (r: Option<Vec<ChatTool>>)
    ensures
        match r {
            Some(read) => each_chat_tool_from(
                json::items_view(items@),
            ) == Some(chat_tools_view(read@)),
            None => each_chat_tool_from(json::items_view(items@)) is None,
        },
{
    let ghost views = json::items_view(items@);
    let mut out: Vec<ChatTool> = Vec::new();
    let mut i: usize = 0;
    while i < items.len()
        invariant
            i <= items@.len(),
            views == json::items_view(items@),
            out@.len() == i,
            forall|k: int| 0 <= k < i ==> chat_tool_from(views[k]) == Some((#[trigger] out@[k])@),
        decreases items@.len() - i,
    {
        match ChatTool::from_json(&items[i]) {
            Some(x) => out.push(x),
            None => {
                assert(chat_tool_from(views[i as int]) is None);
                return None;
            },
        }
        i += 1;
    }
    assert forall|k: int|
        0 <= k < views.len() implies chat_tool_from(#[trigger] views[k]) is Some by {
        assert(chat_tool_from(views[k]) == Some(out@[k]@));
    }
    assert(chat_tools_view(out@) =~= views.map_values(|v: JsonView| chat_tool_from(v)->0));
    Some(out)
}

/// The contents, where there are any.
pub open spec fn opt_chat_tools_view(x: Option<Vec<ChatTool>>) -> Option<Seq<ChatToolView>> {
    match x {
        Some(x) => Some(chat_tools_view(x@)),
        None => None,
    }
}

/// They may be missing or `null`.
pub open spec fn opt_chat_tools_at(m: Seq<(Seq<char>, JsonView)>, key: Seq<char>) -> Option<
    Option<Seq<ChatToolView>>,
> {
    match json::member(m, key) {
        None => Some(None),
        Some(JsonView::Null) => Some(None),
        Some(JsonView::Array(items)) => match each_chat_tool_from(items) {
            Some(x) => Some(Some(x)),
            None => None,
        },
        Some(_) => None,
    }
}

fn read_opt_chat_tools(m: &JsonMap, key: &str) -> (r: Option<Option<Vec<ChatTool>>>)
    ensures
        match r {
            Some(x) => opt_chat_tools_at(m@, key@) == Some(opt_chat_tools_view(x)),
            None => opt_chat_tools_at(m@, key@) is None,
        },
{
    match m.get(key) {
        None => Some(None),
        Some(Json::Null) => Some(None),
        Some(Json::Array(items)) => {
            proof {
                json::lemma_array_view(*items);
            }
            match read_each_chat_tool_from(items) {
                Some(x) => Some(Some(x)),
                None => None,
            }
        },
        Some(_) => None,
    }
}

/// What is asked beside the stream, as a value says it, by its contents.
pub struct StreamOptionsView {
    /// `include_usage`.
    pub include_usage: bool,
}

impl View for StreamOptions {
    type V = StreamOptionsView;

    open spec fn view(&self) -> StreamOptionsView {
        StreamOptionsView {
            include_usage: self.include_usage,
        }
    }
}

/// The value that stands for it, read.
pub open spec fn stream_options_from(v: JsonView) -> Option<StreamOptionsView> {
    match fields::fields_of(v, seq!["include_usage"@], 0) {
        Some(m) => if read_request::flag_or_false_at(m, "include_usage"@) is Some {
            Some(
                StreamOptionsView {
                    include_usage: read_request::flag_or_false_at(m, "include_usage"@)->0,
                },
            )
        } else {
            None
        },
        None => None,
    }
}

/// What was read, by its contents.
pub open spec fn opt_view_stream_options_from(
    r: Option<StreamOptions>,
) -> Option<StreamOptionsView> {
    match r {
        Some(x) => Some(x@),
        None => None,
    }
}

impl StreamOptions {
    /// What is asked beside the stream, as a value says it.
    pub fn from_json(value: &Json) -> (r: Option<StreamOptions>)
        ensures
            opt_view_stream_options_from(r) == stream_options_from(value@),
    {
        let names = Names::new().and("include_usage");
        let fields = match fields_in(value, &names, 0) {
            Some(fields) => fields,
            None => {
                return None;
            },
        };
        let m = fields.map();
        let include_usage = match read_flag_or_false(m, "include_usage") {
            Some(x) => x,
            None => {
                return None;
            },
        };
        Some(
            StreamOptions {
                include_usage,
            },
        )
    }
}

/// What was read, where it is there.
pub open spec fn opt_stream_options_view(x: Option<StreamOptions>) -> Option<StreamOptionsView> {
    match x {
        Some(x) => Some(x@),
        None => None,
    }
}

/// It may be missing or `null`.
pub open spec fn opt_stream_options_at(m: Seq<(Seq<char>, JsonView)>, key: Seq<char>) -> Option<
    Option<StreamOptionsView>,
> {
    match json::member(m, key) {
        None => Some(None),
        Some(JsonView::Null) => Some(None),
        Some(v) => match stream_options_from(v) {
            Some(x) => Some(Some(x)),
            None => None,
        },
    }
}

fn read_opt_stream_options(m: &JsonMap, key: &str) -> (r: Option<Option<StreamOptions>>)
    ensures
        match r {
            Some(x) => opt_stream_options_at(m@, key@) == Some(opt_stream_options_view(x)),
            None => opt_stream_options_at(m@, key@) is None,
        },
{
    match m.get(key) {
        None => Some(None),
        Some(v) => if v.is_null() {
            Some(None)
        } else {
            match StreamOptions::from_json(v) {
                Some(x) => Some(Some(x)),
                None => None,
            }
        },
    }
}

/// The cap on output tokens, under the one of its three names that is there; two of them
/// at once are refused.
pub open spec fn max_tokens_at(m: Seq<(Seq<char>, JsonView)>) -> Option<Option<i64>> {
    let a = json::has_member(m, "max_tokens"@);
    let b = json::has_member(m, "max_output_tokens"@);
    let c = json::has_member(m, "max_completion_tokens"@);
    if (a && b) || (a && c) || (b && c) {
        None
    } else if b {
        read_request::opt_i64_at(m, "max_output_tokens"@)
    } else if c {
        read_request::opt_i64_at(m, "max_completion_tokens"@)
    } else {
        read_request::opt_i64_at(m, "max_tokens"@)
    }
}

fn read_max_tokens(m: &JsonMap) -> (r: Option<Option<i64>>)
    ensures
        r == max_tokens_at(m@),
{
    let a = m.contains_key("max_tokens");
    let b = m.contains_key("max_output_tokens");
    let c = m.contains_key("max_completion_tokens");
    if (a && b) || (a && c) || (b && c) {
        None
    } else if b {
        read_opt_i64(m, "max_output_tokens")
    } else if c {
        read_opt_i64(m, "max_completion_tokens")
    } else {
        read_opt_i64(m, "max_tokens")
    }
}

/// The names of the typed fields.
pub open spec fn chat_request_from_names() -> Seq<Seq<char>> {
    seq![
        "model"@,
        "messages"@,
        "stream"@,
        "tools"@,
        "tool_choice"@,
        "parallel_tool_calls"@,
        "reasoning_effort"@,
        "response_format"@,
        "stream_options"@,
        "temperature"@,
        "top_p"@,
        "max_tokens"@,
        "max_output_tokens"@,
        "max_completion_tokens"@,
        "frequency_penalty"@,
        "presence_penalty"@,
        "stop"@,
    ]
}

/// The first `n` members that are not named like a typed field.
pub open spec fn chat_request_from_others(m: Seq<(Seq<char>, JsonView)>, n: int) -> Seq<
    (Seq<char>, JsonView),
>
    decreases n,
{
    if n <= 0 || n > m.len() {
        Seq::empty()
    } else if chat_request_from_names().contains(m[n - 1].0) {
        chat_request_from_others(m, n - 1)
    } else {
        chat_request_from_others(m, n - 1).push(m[n - 1])
    }
}

fn is_chat_request_from_name(key: &str) -> (r: bool)
    ensures
        r == chat_request_from_names().contains(key@),
{
    let r = text::str_eq(key, "model")
        || text::str_eq(key, "messages")
        || text::str_eq(key, "stream")
        || text::str_eq(key, "tools")
        || text::str_eq(key, "tool_choice")
        || text::str_eq(key, "parallel_tool_calls")
        || text::str_eq(key, "reasoning_effort")
        || text::str_eq(key, "response_format")
        || text::str_eq(key, "stream_options")
        || text::str_eq(key, "temperature")
        || text::str_eq(key, "top_p")
        || text::str_eq(key, "max_tokens")
        || text::str_eq(key, "max_output_tokens")
        || text::str_eq(key, "max_completion_tokens")
        || text::str_eq(key, "frequency_penalty")
        || text::str_eq(key, "presence_penalty")
        || text::str_eq(key, "stop");
    proof {
        let names = chat_request_from_names();
        if r {
            assert(names[0] == "model"@);
            assert(names[1] == "messages"@);
            assert(names[2] == "stream"@);
            assert(names[3] == "tools"@);
            assert(names[4] == "tool_choice"@);
            assert(names[5] == "parallel_tool_calls"@);
            assert(names[6] == "reasoning_effort"@);
            assert(names[7] == "response_format"@);
            assert(names[8] == "stream_options"@);
            assert(names[9] == "temperature"@);
            assert(names[10] == "top_p"@);
            assert(names[11] == "max_tokens"@);
            assert(names[12] == "max_output_tokens"@);
            assert(names[13] == "max_completion_tokens"@);
            assert(names[14] == "frequency_penalty"@);
            assert(names[15] == "presence_penalty"@);
            assert(names[16] == "stop"@);
        }
        if names.contains(key@) {
            let i = choose|i: int| 0 <= i < names.len() && names[i] == key@;
            assert(names[i] == key@);
        }
    }
    r
}

fn read_chat_request_from_others(m: &JsonMap) -> (r: JsonMap)
    ensures
        r@ == chat_request_from_others(m@, m@.len() as int),
{
    let entries = &m.entries;
    let mut out: Vec<(String, Json)> = Vec::new();
    let ghost mut kept: Seq<(Seq<char>, JsonView)> = Seq::empty();
    let mut i: usize = 0;
    while i < entries.len()
        invariant
            entries == m.entries,
            i <= entries@.len(),
            kept == chat_request_from_others(m@, i as int),
            kept.len() == out@.len(),
            forall|k: int| 0 <= k < kept.len() ==> (#[trigger] kept[k]) == (out@[k].0@, out@[k].1@),
        decreases entries@.len() - i,
    {
        assert(m@[i as int] == (entries@[i as int].0@, entries@[i as int].1@));
        if !is_chat_request_from_name(entries[i].0.as_str()) {
            out.push((entries[i].0.clone(), entries[i].1.copy()));
            proof {
                kept = kept.push(m@[i as int]);
            }
        }
        i += 1;
    }
    let r = JsonMap { entries: out };
    assert(r@ =~= kept);
    r
}

/// The request that a value stands for, by its contents.
pub struct ChatRequestView {
    /// `model`.
    pub model: Seq<char>,
    /// `messages`.
    pub messages: Seq<MessageView>,
    /// `stream`.
    pub stream: bool,
    /// `tools`.
    pub tools: Option<Seq<ChatToolView>>,
    /// `tool_choice`.
    pub tool_choice: Option<JsonView>,
    /// `parallel_tool_calls`.
    pub parallel_tool_calls: bool,
    /// `reasoning_effort`.
    pub reasoning_effort: Option<Seq<char>>,
    /// `response_format`.
    pub response_format: Option<JsonView>,
    /// `stream_options`.
    pub stream_options: Option<StreamOptionsView>,
    /// `temperature`.
    pub temperature: Option<NumberView>,
    /// `top_p`.
    pub top_p: Option<NumberView>,
    /// `max_tokens`.
    pub max_output_tokens: Option<i64>,
    /// `frequency_penalty`.
    pub frequency_penalty: Option<NumberView>,
    /// `presence_penalty`.
    pub presence_penalty: Option<NumberView>,
    /// `stop`.
    pub stop: Option<Seq<Seq<char>>>,
    /// Every other field.
    pub extra_body: Seq<(Seq<char>, JsonView)>,
}

impl View for ChatCompletionRequest {
    type V = ChatRequestView;

    open spec fn view(&self) -> ChatRequestView {
        ChatRequestView {
            model: self.model@,
            messages: messages_view(self.messages@),
            stream: self.stream,
            tools: opt_chat_tools_view(self.tools),
            tool_choice: json::opt_json_view(self.tool_choice),
            parallel_tool_calls: self.parallel_tool_calls,
            reasoning_effort: text::opt_view(self.reasoning_effort),
            response_format: json::opt_json_view(self.response_format),
            stream_options: opt_stream_options_view(self.stream_options),
            temperature: read_request::opt_number_view(self.temperature),
            top_p: read_request::opt_number_view(self.top_p),
            max_output_tokens: self.max_output_tokens,
            frequency_penalty: read_request::opt_number_view(self.frequency_penalty),
            presence_penalty: read_request::opt_number_view(self.presence_penalty),
            stop: text::opt_strings_view(self.stop),
            extra_body: self.extra_body@,
        }
    }
}

/// The value that stands for it, read.
pub open spec fn chat_request_from(v: JsonView) -> Option<ChatRequestView> {
    match v {
        JsonView::Object(m) => if read_request::model_at(m, "model"@) is Some
            && messages_at(m, "messages"@) is Some
            && read_request::flag_or_false_at(m, "stream"@) is Some
            && opt_chat_tools_at(m, "tools"@) is Some
            && read_request::opt_value_at(m, "tool_choice"@) is Some
            && read_request::flag_or_false_at(m, "parallel_tool_calls"@) is Some
            && read::opt_text_at(m, "reasoning_effort"@) is Some
            && read_request::opt_value_at(m, "response_format"@) is Some
            && opt_stream_options_at(m, "stream_options"@) is Some
            && read_request::opt_number_at(m, "temperature"@) is Some
            && read_request::opt_number_at(m, "top_p"@) is Some
            && max_tokens_at(m) is Some
            && read_request::opt_number_at(m, "frequency_penalty"@) is Some
            && read_request::opt_number_at(m, "presence_penalty"@) is Some
            && read_request::stop_at(m, "stop"@) is Some {
            Some(
                ChatRequestView {
                    model: read_request::model_at(m, "model"@)->0,
                    messages: messages_at(m, "messages"@)->0,
                    stream: read_request::flag_or_false_at(m, "stream"@)->0,
                    tools: opt_chat_tools_at(m, "tools"@)->0,
                    tool_choice: read_request::opt_value_at(m, "tool_choice"@)->0,
                    parallel_tool_calls: read_request::flag_or_false_at(m, "parallel_tool_calls"@)->0,
                    reasoning_effort: read::opt_text_at(m, "reasoning_effort"@)->0,
                    response_format: read_request::opt_value_at(m, "response_format"@)->0,
                    stream_options: opt_stream_options_at(m, "stream_options"@)->0,
                    temperature: read_request::opt_number_at(m, "temperature"@)->0,
                    top_p: read_request::opt_number_at(m, "top_p"@)->0,
                    max_output_tokens: max_tokens_at(m)->0,
                    frequency_penalty: read_request::opt_number_at(m, "frequency_penalty"@)->0,
                    presence_penalty: read_request::opt_number_at(m, "presence_penalty"@)->0,
                    stop: read_request::stop_at(m, "stop"@)->0,
                    extra_body: chat_request_from_others(m, m.len() as int),
                },
            )
        } else {
            None
        },
        _ => None,
    }
}

/// What was read, by its contents.
pub open spec fn opt_view_chat_request_from(
    r: Option<ChatCompletionRequest>,
) -> Option<ChatRequestView> {
    match r {
        Some(x) => Some(x@),
        None => None,
    }
}

impl ChatCompletionRequest {
    /// The request that a value stands for.
    pub fn from_json(value: &Json) -> (r: Option<ChatCompletionRequest>)
        ensures
            opt_view_chat_request_from(r) == chat_request_from(value@),
    {
        let m = match value.as_object() {
            Some(m) => m,
            None => {
                return None;
            },
        };
        let model = match read_model(m, "model") {
            Some(x) => x,
            None => {
                return None;
            },
        };
        let messages = match read_messages(m, "messages") {
            Some(x) => x,
            None => {
                return None;
            },
        };
        let stream = match read_flag_or_false(m, "stream") {
            Some(x) => x,
            None => {
                return None;
            },
        };
        let tools = match read_opt_chat_tools(m, "tools") {
            Some(x) => x,
            None => {
                return None;
            },
        };
        let tool_choice = match read_opt_value(m, "tool_choice") {
            Some(x) => x,
            None => {
                return None;
            },
        };
        let parallel_tool_calls = match read_flag_or_false(m, "parallel_tool_calls") {
            Some(x) => x,
            None => {
                return None;
            },
        };
        let reasoning_effort = match read_opt_text(m, "reasoning_effort") {
            Some(x) => x,
            None => {
                return None;
            },
        };
        let response_format = match read_opt_value(m, "response_format") {
            Some(x) => x,
            None => {
                return None;
            },
        };
        let stream_options = match read_opt_stream_options(m, "stream_options") {
            Some(x) => x,
            None => {
                return None;
            },
        };
        let temperature = match read_opt_number(m, "temperature") {
            Some(x) => x,
            None => {
                return None;
            },
        };
        let top_p = match read_opt_number(m, "top_p") {
            Some(x) => x,
            None => {
                return None;
            },
        };
        let max_output_tokens = match read_max_tokens(m) {
            Some(x) => x,
            None => {
                return None;
            },
        };
        let frequency_penalty = match read_opt_number(m, "frequency_penalty") {
            Some(x) => x,
            None => {
                return None;
            },
        };
        let presence_penalty = match read_opt_number(m, "presence_penalty") {
            Some(x) => x,
            None => {
                return None;
            },
        };
        let stop = match read_stop(m, "stop") {
            Some(x) => x,
            None => {
                return None;
            },
        };
        Some(
            ChatCompletionRequest {
                model,
                messages,
                stream,
                tools,
                tool_choice,
                parallel_tool_calls,
                reasoning_effort,
                response_format,
                stream_options,
                temperature,
                top_p,
                max_output_tokens,
                frequency_penalty,
                presence_penalty,
                stop,
                extra_body: read_chat_request_from_others(m),
            },
        )
    }
}

// --- Tools of the Messages surface -------------------------------------------------------------

/// An input schema, the default one where it is missing.
pub open spec fn schema_at(m: Seq<(Seq<char>, JsonView)>, key: Seq<char>) -> Option<JsonView> {
    match json::member(m, key) {
        None => Some(JsonView::Object(json::tagged("object"@))),
        Some(v) => Some(v),
    }
}

fn read_schema(m: &JsonMap, key: &str) -> (r: Option<Json>)
    ensures
        json::opt_json_view(r) == schema_at(m@, key@),
{
    match m.get(key) {
        None => Some(default_input_schema()),
        Some(v) => Some(v.copy()),
    }
}

/// The tool that a value stands for, by its contents.
pub struct AnthropicToolView {
    /// `name`.
    pub name: Seq<char>,
    /// `description`.
    pub description: Option<Seq<char>>,
    /// `input_schema`.
    pub input_schema: JsonView,
}

impl View for AnthropicTool {
    type V = AnthropicToolView;

    open spec fn view(&self) -> AnthropicToolView {
        AnthropicToolView {
            name: self.name@,
            description: text::opt_view(self.description),
            input_schema: self.input_schema@,
        }
    }
}

/// The value that stands for it, read.
pub open spec fn anthropic_tool_from(v: JsonView) -> Option<AnthropicToolView> {
    match fields::fields_of(v, seq!["name"@, "description"@, "input_schema"@], 1) {
        Some(m) => if read::text_at(m, "name"@) is Some
            && read::opt_text_at(m, "description"@) is Some
            && schema_at(m, "input_schema"@) is Some {
            Some(
                AnthropicToolView {
                    name: read::text_at(m, "name"@)->0,
                    description: read::opt_text_at(m, "description"@)->0,
                    input_schema: schema_at(m, "input_schema"@)->0,
                },
            )
        } else {
            None
        },
        None => None,
    }
}

/// What was read, by its contents.
pub open spec fn opt_view_anthropic_tool_from(
    r: Option<AnthropicTool>,
) -> Option<AnthropicToolView> {
    match r {
        Some(x) => Some(x@),
        None => None,
    }
}

impl AnthropicTool {
    /// The tool that a value stands for.
    pub fn from_json(value: &Json) -> (r: Option<AnthropicTool>)
        ensures
            opt_view_anthropic_tool_from(r) == anthropic_tool_from(value@),
    {
        let names = Names::new().and("name").and("description").and("input_schema");
        assert(names@ =~= seq!["name"@, "description"@, "input_schema"@]);
        let fields = match fields_in(value, &names, 1) {
            Some(fields) => fields,
            None => {
                return None;
            },
        };
        let m = fields.map();
        let name = match read_text(m, "name") {
            Some(x) => x,
            None => {
                return None;
            },
        };
        let description = match read_opt_text(m, "description") {
            Some(x) => x,
            None => {
                return None;
            },
        };
        let input_schema = match read_schema(m, "input_schema") {
            Some(x) => x,
            None => {
                return None;
            },
        };
        Some(
            AnthropicTool {
                name,
                description,
                input_schema,
            },
        )
    }
}

} // verus!
