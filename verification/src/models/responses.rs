//! The Responses surface: requests, items, resources and stream payloads.
use vstd::prelude::*;

use crate::json;
use crate::json::Json;
use crate::json::JsonMap;
use crate::json::JsonNumber;
use crate::json::JsonView;
use crate::text;

verus! {

/// A tool inside a namespace.
#[derive(Debug, Clone, PartialEq)]
pub enum NamespaceToolSpec {
    /// A function.
    Function {
        /// Name.
        name: String,
        /// Description.
        description: String,
        /// Whether arguments must match the schema.
        strict: bool,
        /// JSON schema of the arguments.
        parameters: Json,
    },
}

/// The input format of a custom tool.
#[derive(Debug, Clone, PartialEq)]
pub enum CustomToolFormat {
    /// Free text.
    Text,
    /// A grammar.
    Grammar {
        /// Syntax of the definition.
        syntax: String,
        /// The grammar itself.
        definition: String,
    },
}

/// A tool that a request offers to the model.
#[derive(Debug, Clone, PartialEq)]
pub enum ToolSpec {
    /// A function.
    Function {
        /// Name.
        name: String,
        /// Description.
        description: String,
        /// Whether arguments must match the schema.
        strict: bool,
        /// JSON schema of the arguments.
        parameters: Json,
    },
    /// Tools under a common name.
    Namespace {
        /// Name.
        name: String,
        /// Description.
        description: String,
        /// The tools.
        tools: Vec<NamespaceToolSpec>,
    },
    /// A search over tools.
    ToolSearch {
        /// Where it runs.
        execution: String,
        /// Description.
        description: String,
        /// JSON schema of the arguments.
        parameters: Json,
    },
    /// The local shell.
    LocalShell {},
    /// Web search.
    WebSearch {
        /// Whether the web may be reached.
        external_web_access: Option<bool>,
        /// Domain filters.
        filters: Option<Json>,
        /// Where the user is.
        user_location: Option<Json>,
        /// How much context a search brings.
        search_context_size: Option<String>,
        /// What kinds of content a search brings.
        search_content_types: Option<Vec<String>>,
    },
    /// A custom tool.
    Custom {
        /// Name.
        name: String,
        /// Description.
        description: String,
        /// Input format.
        format: CustomToolFormat,
    },
    /// Image generation.
    ImageGeneration {
        /// Format of the image.
        output_format: Option<String>,
    },
}

/// A part of a message's content.
#[derive(Debug, Clone, PartialEq)]
pub enum ContentItem {
    /// Text that goes in.
    InputText {
        /// The text.
        text: String,
    },
    /// An image that goes in.
    InputImage {
        /// Its URL.
        image_url: Option<String>,
        /// Its file.
        file_id: Option<String>,
        /// How closely to look.
        detail: Option<String>,
    },
    /// A file that goes in.
    InputFile {
        /// Its file.
        file_id: Option<String>,
        /// Its URL.
        file_url: Option<String>,
        /// Its name.
        filename: Option<String>,
        /// Its contents.
        file_data: Option<String>,
    },
    /// Text that came out.
    OutputText {
        /// The text.
        text: String,
    },
    /// A refusal that came out.
    Refusal {
        /// Its text.
        refusal: String,
    },
    /// A part of another kind, kept as it is.
    Other(Json),
}

/// A part of the content of a message between agents.
#[derive(Debug, Clone, PartialEq)]
pub enum AgentMessageInputContent {
    /// Text.
    InputText {
        /// The text.
        text: String,
    },
    /// Content that only its author reads.
    EncryptedContent {
        /// The content.
        encrypted_content: String,
    },
}

/// The output of a function: a text, or input content parts.
#[derive(Debug, Clone, PartialEq)]
pub enum FunctionCallOutputContent {
    /// A text.
    Text(String),
    /// Content parts.
    Content(Vec<ContentItem>),
}

/// A part of a reasoning summary.
#[derive(Debug, Clone, PartialEq)]
pub enum ReasoningSummaryItem {
    /// Text.
    SummaryText {
        /// The text.
        text: String,
    },
}

/// A part of reasoning.
#[derive(Debug, Clone, PartialEq)]
pub enum ReasoningContentItem {
    /// Reasoning text.
    ReasoningText {
        /// The text.
        text: String,
    },
    /// Text.
    Text {
        /// The text.
        text: String,
    },
}

/// A command of the local shell.
#[derive(Debug, Clone, PartialEq)]
pub struct LocalShellExecAction {
    /// Program and arguments.
    pub command: Vec<String>,
    /// Time limit.
    pub timeout_ms: Option<u64>,
    /// Where it runs.
    pub working_directory: Option<String>,
    /// Its environment, by ascending name.
    pub env: Option<Vec<(String, String)>>,
    /// Who runs it.
    pub user: Option<String>,
}

/// What the local shell is asked to do.
#[derive(Debug, Clone, PartialEq)]
pub enum LocalShellAction {
    /// Run a command.
    Exec(LocalShellExecAction),
}

/// What a web search did.
#[derive(Debug, Clone, PartialEq)]
pub enum WebSearchAction {
    /// It searched.
    Search {
        /// The query.
        query: Option<String>,
        /// The queries.
        queries: Option<Vec<String>>,
        /// What it found.
        sources: Option<Vec<Json>>,
    },
    /// It opened a page.
    OpenPage {
        /// The page.
        url: Option<String>,
    },
    /// It searched a page.
    FindInPage {
        /// The page.
        url: Option<String>,
        /// What it looked for.
        pattern: Option<String>,
    },
    /// Something else.
    Other,
}

/// An item of a response's input or output.
#[derive(Debug, Clone, PartialEq)]
pub enum ResponseItem {
    /// A reference to a stored item.
    ItemReference {
        /// Its id.
        id: String,
    },
    /// A message.
    Message {
        /// Id.
        id: Option<String>,
        /// Who speaks.
        role: String,
        /// What is said.
        content: Vec<ContentItem>,
        /// Phase of the answer.
        phase: Option<String>,
    },
    /// A message between agents.
    AgentMessage {
        /// Id.
        id: Option<String>,
        /// What is said.
        content: Vec<AgentMessageInputContent>,
    },
    /// Reasoning.
    Reasoning {
        /// Id.
        id: String,
        /// Summary.
        summary: Vec<ReasoningSummaryItem>,
        /// The reasoning itself.
        content: Option<Vec<ReasoningContentItem>>,
        /// The reasoning, encrypted.
        encrypted_content: Option<String>,
    },
    /// A call of a function.
    FunctionCall {
        /// Id.
        id: Option<String>,
        /// Name of the function.
        name: String,
        /// Namespace of the function.
        namespace: Option<String>,
        /// Arguments, as JSON text.
        arguments: String,
        /// Id of the call.
        call_id: String,
    },
    /// The output of a function.
    FunctionCallOutput {
        /// Id of the call.
        call_id: String,
        /// The output.
        output: FunctionCallOutputContent,
    },
    /// A call of a custom tool.
    CustomToolCall {
        /// Id.
        id: Option<String>,
        /// Status.
        status: Option<String>,
        /// Id of the call.
        call_id: String,
        /// Name of the tool.
        name: String,
        /// Its input.
        input: String,
    },
    /// The output of a custom tool.
    CustomToolCallOutput {
        /// Id of the call.
        call_id: String,
        /// Name of the tool.
        name: Option<String>,
        /// The output.
        output: FunctionCallOutputContent,
    },
    /// A search over tools.
    ToolSearchCall {
        /// Id.
        id: Option<String>,
        /// Id of the call.
        call_id: Option<String>,
        /// Status.
        status: Option<String>,
        /// Where it runs.
        execution: String,
        /// Arguments.
        arguments: Json,
    },
    /// What a search over tools found.
    ToolSearchOutput {
        /// Id of the call.
        call_id: Option<String>,
        /// Status.
        status: String,
        /// Where it ran.
        execution: String,
        /// The tools.
        tools: Vec<Json>,
    },
    /// A call of the local shell.
    LocalShellCall {
        /// Id.
        id: Option<String>,
        /// Id of the call.
        call_id: Option<String>,
        /// Status.
        status: String,
        /// What to do.
        action: LocalShellAction,
    },
    /// A web search.
    WebSearchCall {
        /// Id.
        id: Option<String>,
        /// Status.
        status: Option<String>,
        /// What it did.
        action: Option<WebSearchAction>,
    },
    /// A generated image.
    ImageGenerationCall {
        /// Id.
        id: String,
        /// Status.
        status: String,
        /// The prompt as it was used.
        revised_prompt: Option<String>,
        /// The image.
        result: String,
    },
}

/// The instructions of a request: a text, or items.
#[derive(Debug, Clone, PartialEq)]
pub enum ResponseInstructions {
    /// A text.
    Text(String),
    /// Items.
    Items(Vec<ResponseItem>),
}

/// What a request asks of reasoning.
#[derive(Debug, Clone)]
pub struct ReasoningRequest {
    /// How hard to think.
    pub effort: Option<String>,
    /// What summary to bring.
    pub summary: Option<String>,
}

/// The format of the output text.
#[derive(Debug, Clone, PartialEq)]
pub struct TextFormat {
    /// `text`, `json_object` or `json_schema`.
    pub kind: String,
    /// Whether the output must match the schema.
    pub strict: bool,
    /// The schema.
    pub schema: Json,
    /// Name of the schema.
    pub name: String,
    /// Description of the schema.
    pub description: Option<String>,
}

/// What a request asks of the output text.
#[derive(Debug, Clone)]
pub struct TextControls {
    /// How much to say.
    pub verbosity: Option<String>,
    /// In what format.
    pub format: Option<TextFormat>,
}

/// A Responses request.
#[derive(Debug, Clone)]
pub struct ResponsesRequest {
    /// Requested model.
    pub model: String,
    /// Instructions.
    pub instructions: ResponseInstructions,
    /// Input items.
    pub input: Vec<ResponseItem>,
    /// Offered tools.
    pub tools: Vec<ToolSpec>,
    /// Which tool to use.
    pub tool_choice: Json,
    /// Whether tools may be called side by side.
    pub parallel_tool_calls: Option<bool>,
    /// What is asked of reasoning.
    pub reasoning: Option<ReasoningRequest>,
    /// Thinking override of a model profile; never on the wire.
    pub thinking: Option<bool>,
    /// Whether to store the response.
    pub store: bool,
    /// Whether to stream the response.
    pub stream: bool,
    /// What else to bring.
    pub includes: Vec<String>,
    /// Service tier.
    pub service_tier: Option<String>,
    /// Opaque cache key.
    pub prompt_cache_key: Option<String>,
    /// Cache retention.
    pub prompt_cache_retention: Option<String>,
    /// What is asked of the output text.
    pub text: Option<TextControls>,
    /// The response that this one continues.
    pub previous_response_id: Option<String>,
    /// Replay opt-out.
    pub llmconduit_replay: Option<bool>,
    /// Sampling temperature.
    pub temperature: Option<JsonNumber>,
    /// Nucleus sampling.
    pub top_p: Option<JsonNumber>,
    /// Cap on output tokens.
    pub max_output_tokens: Option<i64>,
    /// Frequency penalty.
    pub frequency_penalty: Option<JsonNumber>,
    /// Presence penalty.
    pub presence_penalty: Option<JsonNumber>,
    /// Truncation mode.
    pub truncation: Option<Json>,
    /// Client metadata.
    pub metadata: Option<JsonMap>,
    /// Stop sequences.
    pub stop: Option<Vec<String>>,
    /// Every other field.
    pub extra_body: JsonMap,
}

/// Why a response ended.
#[derive(Debug, Clone, Copy, PartialEq, Eq, Structural)]
pub enum TerminalReason {
    /// A clean completion.
    Stop,
    /// The cap on output tokens.
    Length,
    /// A batch of tool calls.
    ToolCall,
    /// The upstream's content filter.
    ContentFilter,
    /// Anything else.
    Other,
}


/// The items of instructions that are items.
pub open spec fn instruction_items(instructions: ResponseInstructions) -> Seq<ResponseItem> {
    match instructions {
        ResponseInstructions::Text(_) => seq![],
        ResponseInstructions::Items(items) => items@,
    }
}

impl ResponseInstructions {
    /// Whether there is nothing in them.
    pub fn is_empty(&self) -> (r: bool)
        ensures
            r == match *self {
                ResponseInstructions::Text(text) => text@.len() == 0,
                ResponseInstructions::Items(items) => items@.len() == 0,
            },
    {
        match self {
            ResponseInstructions::Text(text) => text.as_str().is_empty(),
            ResponseInstructions::Items(items) => items.len() == 0,
        }
    }

    /// The items, where they are items.
    pub fn items(&self) -> (r: Option<&Vec<ResponseItem>>)
        ensures
            match r {
                Some(items) => *self == ResponseInstructions::Items(*items),
                None => *self is Text,
            },
    {
        match self {
            ResponseInstructions::Text(_) => None,
            ResponseInstructions::Items(items) => Some(items),
        }
    }
}


// --- Content parts -------------------------------------------------------------------------

/// The contents of a [`ContentItem`].
pub enum ContentView {
    /// Text that goes in.
    InputText {
        /// The text.
        text: Seq<char>,
    },
    /// An image that goes in.
    InputImage {
        /// Its URL.
        image_url: Option<Seq<char>>,
        /// Its file.
        file_id: Option<Seq<char>>,
        /// How closely to look.
        detail: Option<Seq<char>>,
    },
    /// A file that goes in.
    InputFile {
        /// Its file.
        file_id: Option<Seq<char>>,
        /// Its URL.
        file_url: Option<Seq<char>>,
        /// Its name.
        filename: Option<Seq<char>>,
        /// Its contents.
        file_data: Option<Seq<char>>,
    },
    /// Text that came out.
    OutputText {
        /// The text.
        text: Seq<char>,
    },
    /// A refusal that came out.
    Refusal {
        /// Its text.
        refusal: Seq<char>,
    },
    /// A part of another kind.
    Other(JsonView),
}

impl View for ContentItem {
    type V = ContentView;

    open spec fn view(&self) -> ContentView {
        match self {
            ContentItem::InputText { text } => ContentView::InputText { text: text@ },
            ContentItem::InputImage { image_url, file_id, detail } => ContentView::InputImage {
                image_url: text::opt_view(*image_url),
                file_id: text::opt_view(*file_id),
                detail: text::opt_view(*detail),
            },
            ContentItem::InputFile { file_id, file_url, filename, file_data } =>
                ContentView::InputFile {
                file_id: text::opt_view(*file_id),
                file_url: text::opt_view(*file_url),
                filename: text::opt_view(*filename),
                file_data: text::opt_view(*file_data),
            },
            ContentItem::OutputText { text } => ContentView::OutputText { text: text@ },
            ContentItem::Refusal { refusal } => ContentView::Refusal { refusal: refusal@ },
            ContentItem::Other(value) => ContentView::Other(value@),
        }
    }
}

/// A content part as JSON: its type first, and of its optional fields those that are
/// there.
pub open spec fn content_json(c: ContentView) -> JsonView {
    match c {
        ContentView::InputText { text } => JsonView::Object(
            json::put_text(json::tagged("input_text"@), "text"@, text),
        ),
        ContentView::InputImage { image_url, file_id, detail } => JsonView::Object(
            json::put_opt_text(
                json::put_opt_text(
                    json::put_opt_text(json::tagged("input_image"@), "image_url"@, image_url),
                    "file_id"@,
                    file_id,
                ),
                "detail"@,
                detail,
            ),
        ),
        ContentView::InputFile { file_id, file_url, filename, file_data } => JsonView::Object(
            json::put_opt_text(
                json::put_opt_text(
                    json::put_opt_text(
                        json::put_opt_text(json::tagged("input_file"@), "file_id"@, file_id),
                        "file_url"@,
                        file_url,
                    ),
                    "filename"@,
                    filename,
                ),
                "file_data"@,
                file_data,
            ),
        ),
        ContentView::OutputText { text } => JsonView::Object(
            json::put_text(json::tagged("output_text"@), "text"@, text),
        ),
        ContentView::Refusal { refusal } => JsonView::Object(
            json::put_text(json::tagged("refusal"@), "refusal"@, refusal),
        ),
        ContentView::Other(value) => value,
    }
}

impl ContentItem {
    /// The part as JSON.
    pub fn to_json(&self) -> (r: Json)
        ensures
            r@ == content_json(self@),
    {
        match self {
            ContentItem::InputText { text } => {
                let mut map = JsonMap::of_type("input_text");
                map.put_text("text", text.as_str());
                map.into_json()
            },
            ContentItem::InputImage { image_url, file_id, detail } => {
                let mut map = JsonMap::of_type("input_image");
                map.put_opt_text("image_url", image_url);
                map.put_opt_text("file_id", file_id);
                map.put_opt_text("detail", detail);
                map.into_json()
            },
            ContentItem::InputFile { file_id, file_url, filename, file_data } => {
                let mut map = JsonMap::of_type("input_file");
                map.put_opt_text("file_id", file_id);
                map.put_opt_text("file_url", file_url);
                map.put_opt_text("filename", filename);
                map.put_opt_text("file_data", file_data);
                map.into_json()
            },
            ContentItem::OutputText { text } => {
                let mut map = JsonMap::of_type("output_text");
                map.put_text("text", text.as_str());
                map.into_json()
            },
            ContentItem::Refusal { refusal } => {
                let mut map = JsonMap::of_type("refusal");
                map.put_text("refusal", refusal.as_str());
                map.into_json()
            },
            ContentItem::Other(value) => value.copy(),
        }
    }
}

/// A field that must be a string, or what is wrong with it.
pub open spec fn required_text(m: Seq<(Seq<char>, JsonView)>, key: Seq<char>) -> Result<
    Seq<char>,
    Seq<char>,
> {
    match json::member(m, key) {
        Some(JsonView::Text(t)) => Ok(t),
        Some(_) => Err(key + " must be a string"@),
        None => Err("missing field `"@ + key + "`"@),
    }
}

/// A field that may be a string or `null` or missing, or what is wrong with it.
pub open spec fn optional_text(m: Seq<(Seq<char>, JsonView)>, key: Seq<char>) -> Result<
    Option<Seq<char>>,
    Seq<char>,
> {
    match json::member(m, key) {
        None => Ok(None),
        Some(JsonView::Null) => Ok(None),
        Some(JsonView::Text(t)) => Ok(Some(t)),
        Some(_) => Err(key + " must be a string"@),
    }
}

/// The field `image_url`: a string, or an object with the string `url`.
pub open spec fn image_url_text(m: Seq<(Seq<char>, JsonView)>) -> Result<
    Option<Seq<char>>,
    Seq<char>,
> {
    match json::member(m, "image_url"@) {
        None => Ok(None),
        Some(JsonView::Null) => Ok(None),
        Some(JsonView::Text(t)) => Ok(Some(t)),
        Some(JsonView::Object(inner)) => match json::member(inner, "url"@) {
            Some(JsonView::Text(t)) => Ok(Some(t)),
            Some(_) => Err("image_url.url must be a string"@),
            None => Err("image_url.url is required"@),
        },
        Some(_) => Err("image_url must be a string"@),
    }
}

/// The content part that a JSON value stands for, or what is wrong with it. A part
/// of an unknown type is kept as it is.
pub open spec fn content_from(v: JsonView) -> Result<ContentView, Seq<char>> {
    match v {
        JsonView::Object(m) => {
            let kind = json::text_member(m, "type"@);
            if kind == Some("input_text"@) {
                match required_text(m, "text"@) {
                    Ok(text) => Ok(ContentView::InputText { text }),
                    Err(e) => Err(e),
                }
            } else if kind == Some("input_image"@) {
                match (
                    image_url_text(m),
                    optional_text(m, "file_id"@),
                    optional_text(m, "detail"@),
                ) {
                    (Ok(image_url), Ok(file_id), Ok(detail)) => Ok(
                        ContentView::InputImage { image_url, file_id, detail },
                    ),
                    (Err(e), _, _) => Err(e),
                    (_, Err(e), _) => Err(e),
                    (_, _, Err(e)) => Err(e),
                }
            } else if kind == Some("input_file"@) {
                match (
                    optional_text(m, "file_id"@),
                    optional_text(m, "file_url"@),
                    optional_text(m, "filename"@),
                    optional_text(m, "file_data"@),
                ) {
                    (Ok(file_id), Ok(file_url), Ok(filename), Ok(file_data)) => Ok(
                        ContentView::InputFile { file_id, file_url, filename, file_data },
                    ),
                    (Err(e), _, _, _) => Err(e),
                    (_, Err(e), _, _) => Err(e),
                    (_, _, Err(e), _) => Err(e),
                    (_, _, _, Err(e)) => Err(e),
                }
            } else if kind == Some("output_text"@) {
                match required_text(m, "text"@) {
                    Ok(text) => Ok(ContentView::OutputText { text }),
                    Err(e) => Err(e),
                }
            } else if kind == Some("refusal"@) {
                match required_text(m, "refusal"@) {
                    Ok(refusal) => Ok(ContentView::Refusal { refusal }),
                    Err(e) => Err(e),
                }
            } else {
                Ok(ContentView::Other(v))
            }
        },
        _ => Err("content item must be an object"@),
    }
}

/// The contents of a parsed part.
pub open spec fn parsed_content(r: Result<ContentItem, String>) -> Result<ContentView, Seq<char>> {
    match r {
        Ok(c) => Ok(c@),
        Err(e) => Err(e@),
    }
}

fn required_string(map: &JsonMap, key: &str) -> (r: Result<String, String>)
    ensures
        match required_text(map@, key@) {
            Ok(t) => r matches Ok(s) && s@ == t,
            Err(why) => r matches Err(s) && s@ == why,
        },
{
    match map.get(key) {
        Some(Json::Text(value)) => Ok(value.clone()),
        Some(_) => Err(text::joined(key, " must be a string")),
        None => {
            let mut message = "missing field `".to_owned();
            message.append(key);
            message.append("`");
            Err(message)
        },
    }
}

fn optional_string(map: &JsonMap, key: &str) -> (r: Result<Option<String>, String>)
    ensures
        match optional_text(map@, key@) {
            Ok(t) => r matches Ok(s) && text::opt_view(s) == t,
            Err(why) => r matches Err(s) && s@ == why,
        },
{
    match map.get(key) {
        None => Ok(None),
        Some(Json::Null) => Ok(None),
        Some(Json::Text(value)) => Ok(Some(value.clone())),
        Some(_) => Err(text::joined(key, " must be a string")),
    }
}

fn optional_image_url(map: &JsonMap) -> (r: Result<Option<String>, String>)
    ensures
        match image_url_text(map@) {
            Ok(t) => r matches Ok(s) && text::opt_view(s) == t,
            Err(why) => r matches Err(s) && s@ == why,
        },
{
    match map.get("image_url") {
        None => Ok(None),
        Some(Json::Null) => Ok(None),
        Some(Json::Text(url)) => Ok(Some(url.clone())),
        Some(Json::Object(inner)) => {
            proof {
                json::lemma_object_view(*inner);
            }
            match inner.get("url") {
                Some(Json::Text(url)) => Ok(Some(url.clone())),
                Some(_) => Err("image_url.url must be a string".to_owned()),
                None => Err("image_url.url is required".to_owned()),
            }
        },
        Some(_) => Err("image_url must be a string".to_owned()),
    }
}

impl ContentItem {
    /// The part that a JSON value stands for, or what is wrong with it.
    pub fn from_json(value: &Json) -> (r: Result<ContentItem, String>)
        ensures
            parsed_content(r) == content_from(value@),
    {
        let map = match value.as_object() {
            Some(map) => map,
            None => {
                return Err("content item must be an object".to_owned());
            },
        };
        let kind = match map.get_text("type") {
            Some(kind) => kind,
            None => {
                return Ok(ContentItem::Other(value.copy()));
            },
        };
        if text::str_eq(kind, "input_text") {
            match required_string(map, "text") {
                Ok(text) => Ok(ContentItem::InputText { text }),
                Err(e) => Err(e),
            }
        } else if text::str_eq(kind, "input_image") {
            let image_url = match optional_image_url(map) {
                Ok(v) => v,
                Err(e) => {
                    return Err(e);
                },
            };
            let file_id = match optional_string(map, "file_id") {
                Ok(v) => v,
                Err(e) => {
                    return Err(e);
                },
            };
            let detail = match optional_string(map, "detail") {
                Ok(v) => v,
                Err(e) => {
                    return Err(e);
                },
            };
            Ok(ContentItem::InputImage { image_url, file_id, detail })
        } else if text::str_eq(kind, "input_file") {
            let file_id = match optional_string(map, "file_id") {
                Ok(v) => v,
                Err(e) => {
                    return Err(e);
                },
            };
            let file_url = match optional_string(map, "file_url") {
                Ok(v) => v,
                Err(e) => {
                    return Err(e);
                },
            };
            let filename = match optional_string(map, "filename") {
                Ok(v) => v,
                Err(e) => {
                    return Err(e);
                },
            };
            let file_data = match optional_string(map, "file_data") {
                Ok(v) => v,
                Err(e) => {
                    return Err(e);
                },
            };
            Ok(ContentItem::InputFile { file_id, file_url, filename, file_data })
        } else if text::str_eq(kind, "output_text") {
            match required_string(map, "text") {
                Ok(text) => Ok(ContentItem::OutputText { text }),
                Err(e) => Err(e),
            }
        } else if text::str_eq(kind, "refusal") {
            match required_string(map, "refusal") {
                Ok(refusal) => Ok(ContentItem::Refusal { refusal }),
                Err(e) => Err(e),
            }
        } else {
            Ok(ContentItem::Other(value.copy()))
        }
    }
}

/// The types of the content parts that the gateway knows.
pub open spec fn is_known_type(kind: Option<Seq<char>>) -> bool {
    ||| kind == Some("input_text"@)
    ||| kind == Some("input_image"@)
    ||| kind == Some("input_file"@)
    ||| kind == Some("output_text"@)
    ||| kind == Some("refusal"@)
}

proof fn lemma_put_opt_text(
    m: Seq<(Seq<char>, JsonView)>,
    key: Seq<char>,
    t: Option<Seq<char>>,
    other: Seq<char>,
)
    ensures
        json::member(m, key) is None ==> optional_text(json::put_opt_text(m, key, t), key)
            == Ok::<Option<Seq<char>>, Seq<char>>(t),
        other != key ==> json::member(json::put_opt_text(m, key, t), other) == json::member(
            m,
            other,
        ),
{
    if let Some(t) = t {
        json::law_set_member_is_there(m, key, JsonView::Text(t));
        if other != key {
            json::law_set_member_keeps_others(m, key, JsonView::Text(t), other);
        }
    }
}

proof fn lemma_tagged(kind: Seq<char>, other: Seq<char>)
    ensures
        json::text_member(json::tagged(kind), "type"@) == Some(kind),
        other != "type"@ ==> json::member(json::tagged(kind), other) is None,
{
    json::law_set_member_is_there(seq![], "type"@, JsonView::Text(kind));
    if other != "type"@ {
        json::law_set_member_keeps_others(seq![], "type"@, JsonView::Text(kind), other);
    }
}

/// A content part that is written as JSON and read again is the same. A part of
/// another kind must be an object of a type that the gateway does not know.
pub proof fn law_content_round_trip(c: ContentView)
    requires
        c matches ContentView::Other(v) ==> v is Object && !is_known_type(
            json::text_member(v->Object_0, "type"@),
        ),
    ensures
        content_from(content_json(c)) == Ok::<ContentView, Seq<char>>(c),
{
    reveal_strlit("type");
    reveal_strlit("text");
    reveal_strlit("refusal");
    reveal_strlit("image_url");
    reveal_strlit("file_id");
    reveal_strlit("detail");
    reveal_strlit("file_url");
    reveal_strlit("filename");
    reveal_strlit("file_data");
    reveal_strlit("input_text");
    reveal_strlit("input_image");
    reveal_strlit("input_file");
    reveal_strlit("output_text");
    assert("type"@.len() == 4 && "text"@.len() == 4 && "refusal"@.len() == 7);
    assert("text"@[1] != "type"@[1]);
    assert("filename"@[4] != "file_url"@[4]);
    assert("input_text"@.len() == 10 && "input_image"@.len() == 11 && "input_file"@.len() == 10);
    assert("input_text"@[6] != "input_file"@[6]);
    assert("output_text"@.len() == 11);
    assert("output_text"@[0] != "input_image"@[0]);
    match c {
        ContentView::InputText { text } => {
            let m = json::tagged("input_text"@);
            lemma_tagged("input_text"@, "text"@);
            json::law_set_member_is_there(m, "text"@, JsonView::Text(text));
            json::law_set_member_keeps_others(m, "text"@, JsonView::Text(text), "type"@);
        },
        ContentView::OutputText { text } => {
            let m = json::tagged("output_text"@);
            lemma_tagged("output_text"@, "text"@);
            json::law_set_member_is_there(m, "text"@, JsonView::Text(text));
            json::law_set_member_keeps_others(m, "text"@, JsonView::Text(text), "type"@);
        },
        ContentView::Refusal { refusal } => {
            let m = json::tagged("refusal"@);
            lemma_tagged("refusal"@, "refusal"@);
            json::law_set_member_is_there(m, "refusal"@, JsonView::Text(refusal));
            json::law_set_member_keeps_others(m, "refusal"@, JsonView::Text(refusal), "type"@);
        },
        ContentView::InputImage { image_url, file_id, detail } => {
            let m0 = json::tagged("input_image"@);
            let m1 = json::put_opt_text(m0, "image_url"@, image_url);
            let m2 = json::put_opt_text(m1, "file_id"@, file_id);
            lemma_tagged("input_image"@, "image_url"@);
            lemma_tagged("input_image"@, "file_id"@);
            lemma_tagged("input_image"@, "detail"@);
            lemma_put_opt_text(m0, "image_url"@, image_url, "type"@);
            lemma_put_opt_text(m0, "image_url"@, image_url, "file_id"@);
            lemma_put_opt_text(m0, "image_url"@, image_url, "detail"@);
            lemma_put_opt_text(m1, "file_id"@, file_id, "type"@);
            lemma_put_opt_text(m1, "file_id"@, file_id, "image_url"@);
            lemma_put_opt_text(m1, "file_id"@, file_id, "detail"@);
            lemma_put_opt_text(m2, "detail"@, detail, "type"@);
            lemma_put_opt_text(m2, "detail"@, detail, "image_url"@);
            lemma_put_opt_text(m2, "detail"@, detail, "file_id"@);
        },
        ContentView::InputFile { file_id, file_url, filename, file_data } => {
            let m0 = json::tagged("input_file"@);
            let m1 = json::put_opt_text(m0, "file_id"@, file_id);
            let m2 = json::put_opt_text(m1, "file_url"@, file_url);
            let m3 = json::put_opt_text(m2, "filename"@, filename);
            lemma_tagged("input_file"@, "file_id"@);
            lemma_tagged("input_file"@, "file_url"@);
            lemma_tagged("input_file"@, "filename"@);
            lemma_tagged("input_file"@, "file_data"@);
            lemma_put_opt_text(m0, "file_id"@, file_id, "type"@);
            lemma_put_opt_text(m0, "file_id"@, file_id, "file_url"@);
            lemma_put_opt_text(m0, "file_id"@, file_id, "filename"@);
            lemma_put_opt_text(m0, "file_id"@, file_id, "file_data"@);
            lemma_put_opt_text(m1, "file_url"@, file_url, "type"@);
            lemma_put_opt_text(m1, "file_url"@, file_url, "file_id"@);
            lemma_put_opt_text(m1, "file_url"@, file_url, "filename"@);
            lemma_put_opt_text(m1, "file_url"@, file_url, "file_data"@);
            lemma_put_opt_text(m2, "filename"@, filename, "type"@);
            lemma_put_opt_text(m2, "filename"@, filename, "file_id"@);
            lemma_put_opt_text(m2, "filename"@, filename, "file_url"@);
            lemma_put_opt_text(m2, "filename"@, filename, "file_data"@);
            lemma_put_opt_text(m3, "file_data"@, file_data, "type"@);
            lemma_put_opt_text(m3, "file_data"@, file_data, "file_id"@);
            lemma_put_opt_text(m3, "file_data"@, file_data, "file_url"@);
            lemma_put_opt_text(m3, "file_data"@, file_data, "filename"@);
        },
        ContentView::Other(v) => {},
    }
}


// --- Function output ------------------------------------------------------------------------

/// The contents of a [`FunctionCallOutputContent`].
pub enum OutputView {
    /// A text.
    Text(Seq<char>),
    /// Content parts.
    Content(Seq<ContentView>),
}

/// The contents of content parts.
pub open spec fn contents_view(content: Seq<ContentItem>) -> Seq<ContentView> {
    content.map_values(|c: ContentItem| c@)
}

impl View for FunctionCallOutputContent {
    type V = OutputView;

    open spec fn view(&self) -> OutputView {
        match self {
            FunctionCallOutputContent::Text(text) => OutputView::Text(text@),
            FunctionCallOutputContent::Content(content) => OutputView::Content(
                contents_view(content@),
            ),
        }
    }
}

/// The content part that a value stands for, or the value itself where it stands for
/// none.
pub open spec fn content_or_other(v: JsonView) -> ContentView {
    match content_from(v) {
        Ok(c) => c,
        Err(_) => ContentView::Other(v),
    }
}

/// The function output that a value stands for: a text, content parts, an empty text
/// for `null`, and for anything else its own text `rendered`, or `null` without one.
pub open spec fn output_from(v: JsonView, rendered: Option<Seq<char>>) -> OutputView {
    match v {
        JsonView::Text(t) => OutputView::Text(t),
        JsonView::Array(items) => OutputView::Content(
            items.map_values(|i: JsonView| content_or_other(i)),
        ),
        JsonView::Null => OutputView::Text(seq![]),
        _ => OutputView::Text(
            match rendered {
                Some(t) => t,
                None => "null"@,
            },
        ),
    }
}

impl FunctionCallOutputContent {
    /// The content parts, where there are any.
    pub fn content(&self) -> (r: Option<&Vec<ContentItem>>)
        ensures
            match r {
                Some(content) => *self == FunctionCallOutputContent::Content(*content),
                None => *self is Text,
            },
    {
        match self {
            FunctionCallOutputContent::Text(_) => None,
            FunctionCallOutputContent::Content(content) => Some(content),
        }
    }

    /// The content parts to change, where there are any.
    pub fn content_mut(&mut self) -> (r: Option<&mut Vec<ContentItem>>)
        ensures
            match r {
                Some(content) => {
                    &&& *old(self) == FunctionCallOutputContent::Content(*content)
                    &&& *final(self) == FunctionCallOutputContent::Content(*final(content))
                },
                None => *old(self) is Text && *final(self) == *old(self),
            },
    {
        match self {
            FunctionCallOutputContent::Text(_) => None,
            FunctionCallOutputContent::Content(content) => Some(content),
        }
    }

    /// The output that a value stands for, given the value's own text.
    pub fn from_rendered(value: &Json, rendered: Option<String>) -> (r: Self)
        ensures
            r@ == output_from(value@, text::opt_view(rendered)),
    {
        match value {
            Json::Text(t) => FunctionCallOutputContent::Text(t.clone()),
            Json::Array(items) => {
                proof {
                    json::lemma_array_view(*items);
                }
                let ghost views = json::items_view(items@);
                let mut content: Vec<ContentItem> = Vec::new();
                let mut i: usize = 0;
                while i < items.len()
                    invariant
                        i <= items@.len(),
                        content@.len() == i,
                        views == json::items_view(items@),
                        forall|k: int|
                            0 <= k < i ==> (#[trigger] content@[k])@ == content_or_other(views[k]),
                    decreases items@.len() - i,
                {
                    let part = match ContentItem::from_json(&items[i]) {
                        Ok(part) => part,
                        Err(_) => ContentItem::Other(items[i].copy()),
                    };
                    content.push(part);
                    i += 1;
                }
                assert(contents_view(content@) =~= views.map_values(
                    |v: JsonView| content_or_other(v),
                ));
                FunctionCallOutputContent::Content(content)
            },
            Json::Null => {
                let empty = String::new();
                assert(empty@ =~= seq![]);
                FunctionCallOutputContent::Text(empty)
            },
            _ => FunctionCallOutputContent::Text(
                match rendered {
                    Some(t) => t,
                    None => "null".to_owned(),
                },
            ),
        }
    }

    /// The output that a value stands for.
    pub fn from_json(value: &Json) -> (r: Self)
        ensures
            r@ == output_from(value@, json::rendered_json(value@)),
    {
        Self::from_rendered(value, value.render())
    }

    /// The output as JSON.
    pub fn to_json(&self) -> (r: Json)
        ensures
            r@ == output_json(*self),
    {
        match self {
            FunctionCallOutputContent::Text(t) => Json::text(t.as_str()),
            FunctionCallOutputContent::Content(content) => contents_to_json(content),
        }
    }
}

/// An output as JSON.
pub open spec fn output_json(output: FunctionCallOutputContent) -> JsonView {
    match output {
        FunctionCallOutputContent::Text(t) => JsonView::Text(t@),
        FunctionCallOutputContent::Content(content) => contents_json(content@),
    }
}

/// Content parts as JSON.
pub open spec fn contents_json(content: Seq<ContentItem>) -> JsonView {
    JsonView::Array(content.map_values(|c: ContentItem| content_json(c@)))
}

/// Content parts as JSON.
pub fn contents_to_json(content: &Vec<ContentItem>) -> (r: Json)
    ensures
        r@ == contents_json(content@),
{
    let mut items: Vec<Json> = Vec::new();
    let mut i: usize = 0;
    while i < content.len()
        invariant
            i <= content@.len(),
            items@.len() == i,
            forall|k: int| 0 <= k < i ==> (#[trigger] items@[k])@ == content_json(content@[k]@),
        decreases content@.len() - i,
    {
        items.push(content[i].to_json());
        i += 1;
    }
    assert(json::items_view(items@) =~= content@.map_values(
        |c: ContentItem| content_json(c@),
    ));
    Json::array(items)
}

// --- Instructions ----------------------------------------------------------------------------

impl ResponseInstructions {
    /// The items to change, where they are items.
    pub fn items_mut(&mut self) -> (r: Option<&mut Vec<ResponseItem>>)
        ensures
            match r {
                Some(items) => {
                    &&& *old(self) == ResponseInstructions::Items(*items)
                    &&& *final(self) == ResponseInstructions::Items(*final(items))
                },
                None => *old(self) is Text && *final(self) == *old(self),
            },
    {
        match self {
            ResponseInstructions::Text(_) => None,
            ResponseInstructions::Items(items) => Some(items),
        }
    }

    /// The text, where they are a text.
    pub fn text(&self) -> (r: Option<&str>)
        ensures
            text::opt_str_view(r) == match *self {
                ResponseInstructions::Text(t) => Some(t@),
                ResponseInstructions::Items(_) => None,
            },
    {
        match self {
            ResponseInstructions::Text(t) => Some(t.as_str()),
            ResponseInstructions::Items(_) => None,
        }
    }

    /// Puts the gateway's own system text first: before a text, or as a message before
    /// the items.
    pub fn prepend_system_text(&mut self, prefix: String)
        ensures
            match *old(self) {
                ResponseInstructions::Text(t) => *final(self) matches ResponseInstructions::Text(
                    u,
                ) && u@ == if t@.len() == 0 {
                    prefix@
                } else {
                    prefix@ + "\n\n"@ + t@
                },
                ResponseInstructions::Items(items) => {
                    &&& *final(self) matches ResponseInstructions::Items(more)
                    &&& more@.len() == items@.len() + 1
                    &&& more@.skip(1) == items@
                    &&& is_text_message(more@[0], "system"@, prefix@)
                },
            },
    {
        match self {
            ResponseInstructions::Text(t) => {
                if t.as_str().is_empty() {
                    *t = prefix;
                } else {
                    let mut joined = prefix;
                    joined.append("\n\n");
                    joined.append(t.as_str());
                    *t = joined;
                }
            },
            ResponseInstructions::Items(items) => {
                let ghost before = items@;
                let message = input_text_message("system", prefix);
                items.insert(0, message);
                assert(items@.skip(1) =~= before);
            },
        }
    }

    /// Whether they are a text that holds `pattern`.
    pub fn contains(&self, pattern: &str) -> (r: bool)
        ensures
            r == match *self {
                ResponseInstructions::Text(t) => text::has_part(t@, pattern@),
                ResponseInstructions::Items(_) => false,
            },
    {
        match self {
            ResponseInstructions::Text(t) => text::contains(t.as_str(), pattern),
            ResponseInstructions::Items(_) => false,
        }
    }

    /// Whether they are the text `other`.
    pub fn is_text(&self, other: &str) -> (r: bool)
        ensures
            r == match *self {
                ResponseInstructions::Text(t) => t@ == other@,
                ResponseInstructions::Items(_) => false,
            },
    {
        match self {
            ResponseInstructions::Text(t) => text::str_eq(t.as_str(), other),
            ResponseInstructions::Items(_) => false,
        }
    }
}

impl Default for ResponseInstructions {
    fn default() -> (r: Self)
        ensures
            r matches ResponseInstructions::Text(t) && t@.len() == 0,
    {
        ResponseInstructions::Text(String::new())
    }
}

impl vstd::std_specs::convert::FromSpecImpl<String> for ResponseInstructions {
    open spec fn obeys_from_spec() -> bool {
        true
    }

    open spec fn from_spec(value: String) -> ResponseInstructions {
        ResponseInstructions::Text(value)
    }
}

impl From<String> for ResponseInstructions {
    fn from(value: String) -> (r: ResponseInstructions) {
        ResponseInstructions::Text(value)
    }
}

/// A message of `role` whose only part is the input text `t`.
pub open spec fn is_text_message(item: ResponseItem, role: Seq<char>, t: Seq<char>) -> bool {
    item matches ResponseItem::Message { id: None, role: who, content, phase: None } && who@ == role
        && contents_view(content@) == seq![ContentView::InputText { text: t }]
}

/// A message of `role` whose only part is the input text `t`.
pub fn input_text_message(role: &str, t: String) -> (r: ResponseItem)
    ensures
        is_text_message(r, role@, t@),
{
    let mut content: Vec<ContentItem> = Vec::new();
    content.push(ContentItem::InputText { text: t });
    assert(contents_view(content@) =~= seq![ContentView::InputText { text: t@ }]);
    ResponseItem::Message { id: None, role: role.to_owned(), content, phase: None }
}

impl ResponseItem {
    /// A message of `role` whose only part is the output text `text`.
    pub fn message_text(role: &str, text: &str) -> (r: Self)
        ensures
            r matches ResponseItem::Message { id: None, role: who, content, phase: None } && who@
                == role@ && contents_view(content@) == seq![
                ContentView::OutputText { text: text@ },
            ],
    {
        let mut content: Vec<ContentItem> = Vec::new();
        content.push(ContentItem::OutputText { text: text.to_owned() });
        assert(contents_view(content@) =~= seq![ContentView::OutputText { text: text@ }]);
        ResponseItem::Message { id: None, role: role.to_owned(), content, phase: None }
    }
}

// --- Why a response ended ----------------------------------------------------------------------

impl TerminalReason {
    /// The reason's name on the wire.
    pub open spec fn name(self) -> Seq<char> {
        match self {
            TerminalReason::Stop => "stop"@,
            TerminalReason::Length => "length"@,
            TerminalReason::ToolCall => "tool_calls"@,
            TerminalReason::ContentFilter => "content_filter"@,
            TerminalReason::Other => "other"@,
        }
    }

    /// Whether it is a clean stop, which alone lets reasoning become text.
    pub fn is_clean_stop(self) -> (r: bool)
        ensures
            r == (self == TerminalReason::Stop),
    {
        matches!(self, TerminalReason::Stop)
    }

    /// The reason that an upstream's finish reason stands for.
    pub fn from_finish_reason(finish_reason: Option<&str>) -> (r: Self)
        ensures
            r == reason_from(text::opt_str_view(finish_reason)),
    {
        match finish_reason {
            Some(name) => if text::str_eq(name, "stop") {
                TerminalReason::Stop
            } else if text::str_eq(name, "length") {
                TerminalReason::Length
            } else if text::str_eq(name, "tool_calls") {
                TerminalReason::ToolCall
            } else if text::str_eq(name, "content_filter") {
                TerminalReason::ContentFilter
            } else {
                TerminalReason::Other
            },
            None => TerminalReason::Other,
        }
    }

    /// The reason's name on the wire.
    pub fn wire_name(self) -> (r: &'static str)
        ensures
            r@ == self.name(),
    {
        match self {
            TerminalReason::Stop => "stop",
            TerminalReason::Length => "length",
            TerminalReason::ToolCall => "tool_calls",
            TerminalReason::ContentFilter => "content_filter",
            TerminalReason::Other => "other",
        }
    }
}

/// The reason that a finish reason stands for.
pub open spec fn reason_from(name: Option<Seq<char>>) -> TerminalReason {
    if name == Some("stop"@) {
        TerminalReason::Stop
    } else if name == Some("length"@) {
        TerminalReason::Length
    } else if name == Some("tool_calls"@) {
        TerminalReason::ToolCall
    } else if name == Some("content_filter"@) {
        TerminalReason::ContentFilter
    } else {
        TerminalReason::Other
    }
}

/// Writer and reader of a reason's name agree.
pub proof fn law_terminal_reason_round_trip(r: TerminalReason)
    ensures
        reason_from(Some(r.name())) == r,
{
    reveal_strlit("stop");
    reveal_strlit("length");
    reveal_strlit("tool_calls");
    reveal_strlit("content_filter");
    reveal_strlit("other");
    assert("stop"@.len() == 4 && "length"@.len() == 6 && "tool_calls"@.len() == 10);
    assert("content_filter"@.len() == 14 && "other"@.len() == 5);
}

// --- Defaults ------------------------------------------------------------------------------------

/// The tool choice where none is given.
pub fn default_tool_choice() -> (r: Json)
    ensures
        r@ == JsonView::Text("auto"@),
{
    Json::text("auto")
}

/// Responses are stored unless a request says otherwise.
pub fn default_store_true() -> (r: bool)
    ensures
        r,
{
    true
}

/// Functions are strict unless a request says otherwise.
pub fn default_true() -> (r: bool)
    ensures
        r,
{
    true
}

/// The id of reasoning that has none yet.
pub fn default_reasoning_id() -> (r: String)
    ensures
        r@ == "rsn_pending"@,
{
    "rsn_pending".to_owned()
}

impl Default for CustomToolFormat {
    fn default() -> (r: Self)
        ensures
            r is Text,
    {
        CustomToolFormat::Text
    }
}

// --- Resources and stream payloads -----------------------------------------------------------------

/// An event of a stream: its type, and its payload beside it.
#[derive(Debug, Clone)]
pub struct ResponsesEnvelope<T> {
    /// Type of the event.
    pub kind: String,
    /// Payload.
    pub payload: T,
}

/// A response at its start.
#[derive(Debug, Clone, PartialEq)]
pub struct ResponseStub {
    /// Id.
    pub id: String,
    /// Coarse estimate of the input tokens.
    pub estimated_input_tokens: Option<u64>,
}

/// Why a response is not complete.
#[derive(Debug, Clone)]
pub struct IncompleteDetails {
    /// The reason.
    pub reason: String,
}

/// Input tokens in detail.
#[derive(Debug, Clone)]
pub struct ResponseInputTokensDetails {
    /// Tokens from the cache.
    pub cached_tokens: i64,
}

/// Output tokens in detail.
#[derive(Debug, Clone)]
pub struct ResponseOutputTokensDetails {
    /// Tokens of reasoning.
    pub reasoning_tokens: i64,
}

/// The tokens of a response.
#[derive(Debug, Clone)]
pub struct ResponseUsage {
    /// Input tokens.
    pub input_tokens: i64,
    /// Output tokens.
    pub output_tokens: i64,
    /// Both.
    pub total_tokens: i64,
    /// Input tokens in detail.
    pub input_tokens_details: Option<ResponseInputTokensDetails>,
    /// Output tokens in detail.
    pub output_tokens_details: Option<ResponseOutputTokensDetails>,
}

/// What went wrong with a response.
#[derive(Debug, Clone)]
pub struct FailedError {
    /// Code.
    pub code: String,
    /// Message.
    pub message: String,
}

/// A response.
#[derive(Debug, Clone)]
pub struct ResponseResource {
    /// Id.
    pub id: String,
    /// Kind of resource.
    pub object: String,
    /// When it was created.
    pub created_at: i64,
    /// When it was completed.
    pub completed_at: Option<i64>,
    /// Status.
    pub status: String,
    /// What went wrong.
    pub error: Option<FailedError>,
    /// Instructions.
    pub instructions: Option<ResponseInstructions>,
    /// Cap on output tokens.
    pub max_output_tokens: Option<i64>,
    /// Output items.
    pub output: Vec<ResponseItem>,
    /// Model.
    pub model: String,
    /// Whether tools may be called side by side.
    pub parallel_tool_calls: Option<bool>,
    /// The response that this one continues.
    pub previous_response_id: Option<String>,
    /// What was asked of reasoning.
    pub reasoning: Option<ReasoningRequest>,
    /// Whether it is stored.
    pub store: bool,
    /// Sampling temperature.
    pub temperature: Option<JsonNumber>,
    /// What was asked of the output text.
    pub text: Option<TextControls>,
    /// Which tool to use.
    pub tool_choice: Json,
    /// Offered tools.
    pub tools: Vec<ToolSpec>,
    /// Nucleus sampling.
    pub top_p: Option<JsonNumber>,
    /// Truncation mode.
    pub truncation: Option<Json>,
    /// Service tier.
    pub service_tier: Option<String>,
    /// Opaque cache key.
    pub prompt_cache_key: Option<String>,
    /// Cache retention.
    pub prompt_cache_retention: Option<String>,
    /// Early estimate of the input tokens.
    pub estimated_input_tokens: Option<u64>,
    /// Tokens.
    pub usage: Option<ResponseUsage>,
    /// Client metadata.
    pub metadata: Option<JsonMap>,
    /// Why it is not complete.
    pub incomplete_details: Option<IncompleteDetails>,
    /// The stop sequence that was met.
    pub stop_sequence: Option<String>,
    /// Why it ended.
    pub terminal_reason: Option<TerminalReason>,
}

/// Payload of a created or running response.
#[derive(Debug, Clone)]
pub struct ResponseCreatedPayload {
    /// The response.
    pub response: ResponseResource,
}

/// Payload of a completed response.
#[derive(Debug, Clone)]
pub struct ResponseCompletedPayload {
    /// The response.
    pub response: ResponseResource,
}

/// Payload of a failed response.
#[derive(Debug, Clone)]
pub struct FailedPayload {
    /// The response.
    pub response: ResponseResource,
}

/// Payload of an output item.
#[derive(Debug, Clone)]
pub struct OutputItemPayload {
    /// Index of the item.
    pub output_index: usize,
    /// The item.
    pub item: ResponseItem,
}

/// A piece of output text.
#[derive(Debug, Clone)]
pub struct DeltaPayload {
    /// Id of the item.
    pub item_id: String,
    /// Index of the item.
    pub output_index: usize,
    /// Index of the part.
    pub content_index: usize,
    /// The piece.
    pub delta: String,
}

/// A piece of a reasoning summary.
#[derive(Debug, Clone)]
pub struct ReasoningDeltaPayload {
    /// Id of the item.
    pub item_id: String,
    /// Index of the item.
    pub output_index: usize,
    /// Index of the part.
    pub summary_index: usize,
    /// The piece.
    pub delta: String,
}

/// A finished reasoning summary.
#[derive(Debug, Clone)]
pub struct ReasoningTextDonePayload {
    /// Id of the item.
    pub item_id: String,
    /// Index of the item.
    pub output_index: usize,
    /// Index of the part.
    pub summary_index: usize,
    /// The text.
    pub text: String,
}

/// The signature of a reasoning summary.
#[derive(Debug, Clone)]
pub struct ReasoningSignatureDeltaPayload {
    /// Id of the item.
    pub item_id: String,
    /// Index of the item.
    pub output_index: usize,
    /// Index of the part.
    pub summary_index: usize,
    /// The signature.
    pub signature: String,
}

/// A finished output text.
#[derive(Debug, Clone)]
pub struct TextDonePayload {
    /// Id of the item.
    pub item_id: String,
    /// Index of the item.
    pub output_index: usize,
    /// Index of the part.
    pub content_index: usize,
    /// The text.
    pub text: String,
}

/// A piece of a function's arguments.
#[derive(Debug, Clone)]
pub struct FunctionCallArgsDeltaPayload {
    /// Id of the item.
    pub item_id: String,
    /// Index of the item.
    pub output_index: usize,
    /// Id of the call.
    pub call_id: String,
    /// Name of the function.
    pub name: Option<String>,
    /// The piece.
    pub delta: String,
}

/// A function's finished arguments.
#[derive(Debug, Clone)]
pub struct FunctionCallArgsDonePayload {
    /// Id of the item.
    pub item_id: String,
    /// Index of the item.
    pub output_index: usize,
    /// Id of the call.
    pub call_id: String,
    /// Name of the function.
    pub name: String,
    /// The arguments.
    pub arguments: String,
}

/// A piece of a custom tool's input.
#[derive(Debug, Clone)]
pub struct CustomToolCallInputDeltaPayload {
    /// Id of the item.
    pub item_id: String,
    /// Index of the item.
    pub output_index: usize,
    /// The piece.
    pub delta: String,
}

/// A custom tool's finished input.
#[derive(Debug, Clone)]
pub struct CustomToolCallInputDonePayload {
    /// Id of the item.
    pub item_id: String,
    /// Index of the item.
    pub output_index: usize,
    /// The input.
    pub input: String,
}

/// A piece of a refusal.
#[derive(Debug, Clone)]
pub struct RefusalDeltaPayload {
    /// Id of the item.
    pub item_id: String,
    /// Index of the item.
    pub output_index: usize,
    /// Index of the part.
    pub content_index: usize,
    /// The piece.
    pub delta: String,
}

/// A finished refusal.
#[derive(Debug, Clone)]
pub struct RefusalDonePayload {
    /// Id of the item.
    pub item_id: String,
    /// Index of the item.
    pub output_index: usize,
    /// Index of the part.
    pub content_index: usize,
    /// The refusal.
    pub refusal: String,
}

/// A part of output text.
#[derive(Debug, Clone)]
pub struct ContentPartRef {
    /// Type of the part.
    pub kind: String,
    /// The text.
    pub text: String,
    /// Annotations.
    pub annotations: Vec<Json>,
}

/// Payload of a content part.
#[derive(Debug, Clone)]
pub struct ContentPartPayload {
    /// Id of the item.
    pub item_id: String,
    /// Index of the item.
    pub output_index: usize,
    /// Index of the part.
    pub content_index: usize,
    /// The part.
    pub part: ContentPartRef,
}

/// A part that is a refusal.
#[derive(Debug, Clone)]
pub struct RefusalContentPartRef {
    /// Type of the part.
    pub kind: String,
    /// The refusal.
    pub refusal: String,
}

/// Payload of a refusal part.
#[derive(Debug, Clone)]
pub struct RefusalContentPartPayload {
    /// Id of the item.
    pub item_id: String,
    /// Index of the item.
    pub output_index: usize,
    /// Index of the part.
    pub content_index: usize,
    /// The part.
    pub part: RefusalContentPartRef,
}

/// A part of a reasoning summary.
#[derive(Debug, Clone)]
pub struct ReasoningSummaryPartRef {
    /// Type of the part.
    pub kind: String,
    /// The text.
    pub text: String,
}

/// Payload of a part of a reasoning summary.
#[derive(Debug, Clone)]
pub struct ReasoningSummaryPartPayload {
    /// Id of the item.
    pub item_id: String,
    /// Index of the item.
    pub output_index: usize,
    /// Index of the part.
    pub summary_index: usize,
    /// The part.
    pub part: ReasoningSummaryPartRef,
}

/// How a response ended.
#[derive(Debug)]
pub enum TerminalStatus {
    /// Completely.
    Completed,
    /// Not completely.
    Incomplete {
        /// The reason.
        reason: String,
    },
}

} // verus!
