//! Items of the Responses surface as JSON text, with the members in their declared order,
//! and the replay key of instructions.
use vstd::prelude::*;

use crate::json;
use crate::json_string;
use crate::json_string::encode_json_string;
use crate::json_text;
use crate::json_text::array_of;
use crate::json_text::strings_of;
use crate::json_text::values_text;
use crate::json_text::ObjectText;
use crate::models::responses::AgentMessageInputContent;
use crate::models::responses::ContentItem;
use crate::models::responses::FunctionCallOutputContent;
use crate::models::responses::LocalShellAction;
use crate::models::responses::ReasoningContentItem;
use crate::models::responses::ReasoningSummaryItem;
use crate::models::responses::ResponseInstructions;
use crate::models::responses::ResponseItem;
use crate::models::responses::WebSearchAction;
use crate::text;
use crate::text::decimal_of;

verus! {

/// A content part as text.
pub open spec fn content_text(item: ContentItem) -> Option<Seq<char>> {
    match item {
        ContentItem::InputText { text } => {
            let m = json_text::tagged("input_text"@);
            let m = json_text::put_text(m, "text"@, text@);
            json_text::object_text(m)
        },
        ContentItem::InputImage { image_url, file_id, detail } => {
            let m = json_text::tagged("input_image"@);
            let m = json_text::put_opt_text(m, "image_url"@, text::opt_view(image_url));
            let m = json_text::put_opt_text(m, "file_id"@, text::opt_view(file_id));
            let m = json_text::put_opt_text(m, "detail"@, text::opt_view(detail));
            json_text::object_text(m)
        },
        ContentItem::InputFile { file_id, file_url, filename, file_data } => {
            let m = json_text::tagged("input_file"@);
            let m = json_text::put_opt_text(m, "file_id"@, text::opt_view(file_id));
            let m = json_text::put_opt_text(m, "file_url"@, text::opt_view(file_url));
            let m = json_text::put_opt_text(m, "filename"@, text::opt_view(filename));
            let m = json_text::put_opt_text(m, "file_data"@, text::opt_view(file_data));
            json_text::object_text(m)
        },
        ContentItem::OutputText { text } => {
            let m = json_text::tagged("output_text"@);
            let m = json_text::put_text(m, "text"@, text@);
            json_text::object_text(m)
        },
        ContentItem::Refusal { refusal } => {
            let m = json_text::tagged("refusal"@);
            let m = json_text::put_text(m, "refusal"@, refusal@);
            json_text::object_text(m)
        },
        ContentItem::Other(value) => json::rendered_json(value@),
    }
}

impl ContentItem {
    /// A content part as text.
    pub fn to_text(&self) -> (r: Option<String>)
        ensures
            text::opt_view(r) == content_text(*self),
    {
        match self {
            ContentItem::InputText { text } => {
                let mut m = ObjectText::of_type("input_text");
                m.put_text("text", text.as_str());
                m.into_text()
            },
            ContentItem::InputImage { image_url, file_id, detail } => {
                let mut m = ObjectText::of_type("input_image");
                m.put_opt_text("image_url", image_url);
                m.put_opt_text("file_id", file_id);
                m.put_opt_text("detail", detail);
                m.into_text()
            },
            ContentItem::InputFile { file_id, file_url, filename, file_data } => {
                let mut m = ObjectText::of_type("input_file");
                m.put_opt_text("file_id", file_id);
                m.put_opt_text("file_url", file_url);
                m.put_opt_text("filename", filename);
                m.put_opt_text("file_data", file_data);
                m.into_text()
            },
            ContentItem::OutputText { text } => {
                let mut m = ObjectText::of_type("output_text");
                m.put_text("text", text.as_str());
                m.into_text()
            },
            ContentItem::Refusal { refusal } => {
                let mut m = ObjectText::of_type("refusal");
                m.put_text("refusal", refusal.as_str());
                m.into_text()
            },
            ContentItem::Other(value) => value.render(),
        }
    }
}

/// Content parts as text.
pub open spec fn contents_text(items: Seq<ContentItem>) -> Option<Seq<char>> {
    json_text::array_text(items.map_values(|item: ContentItem| content_text(item)))
}

/// Content parts as text.
pub fn contents_to_text(items: &Vec<ContentItem>) -> (r: Option<String>)
    ensures
        text::opt_view(r) == contents_text(items@),
{
    let mut texts: Vec<Option<String>> = Vec::new();
    let mut i: usize = 0;
    while i < items.len()
        invariant
            i <= items@.len(),
            texts@.len() == i,
            forall|k: int|
                0 <= k < i ==> text::opt_view(#[trigger] texts@[k]) == content_text(items@[k]),
        decreases items@.len() - i,
    {
        texts.push(items[i].to_text());
        i += 1;
    }
    assert(texts@.map_values(|t: Option<String>| text::opt_view(t)) =~= items@.map_values(
        |item: ContentItem| content_text(item),
    ));
    array_of(texts)
}

/// Function output as text.
pub open spec fn output_text(output: FunctionCallOutputContent) -> Option<Seq<char>> {
    match output {
        FunctionCallOutputContent::Text(t) => Some(json_string::quoted(t@)),
        FunctionCallOutputContent::Content(content) => contents_text(content@),
    }
}

impl FunctionCallOutputContent {
    /// Function output as text.
    pub fn to_text(&self) -> (r: Option<String>)
        ensures
            text::opt_view(r) == output_text(*self),
    {
        match self {
            FunctionCallOutputContent::Text(t) => Some(encode_json_string(t.as_str())),
            FunctionCallOutputContent::Content(content) => contents_to_text(content),
        }
    }
}

/// A part of an agent message as text.
pub open spec fn agent_content_text(item: AgentMessageInputContent) -> Option<Seq<char>> {
    match item {
        AgentMessageInputContent::InputText { text } => {
            let m = json_text::tagged("input_text"@);
            let m = json_text::put_text(m, "text"@, text@);
            json_text::object_text(m)
        },
        AgentMessageInputContent::EncryptedContent { encrypted_content } => {
            let m = json_text::tagged("encrypted_content"@);
            let m = json_text::put_text(m, "encrypted_content"@, encrypted_content@);
            json_text::object_text(m)
        },
    }
}

impl AgentMessageInputContent {
    /// A part of an agent message as text.
    pub fn to_text(&self) -> (r: Option<String>)
        ensures
            text::opt_view(r) == agent_content_text(*self),
    {
        match self {
            AgentMessageInputContent::InputText { text } => {
                let mut m = ObjectText::of_type("input_text");
                m.put_text("text", text.as_str());
                m.into_text()
            },
            AgentMessageInputContent::EncryptedContent { encrypted_content } => {
                let mut m = ObjectText::of_type("encrypted_content");
                m.put_text("encrypted_content", encrypted_content.as_str());
                m.into_text()
            },
        }
    }
}

/// Parts of an agent message as text.
pub open spec fn agent_contents_text(items: Seq<AgentMessageInputContent>) -> Option<Seq<char>> {
    json_text::array_text(items.map_values(|item: AgentMessageInputContent| agent_content_text(item)))
}

/// Parts of an agent message as text.
pub fn agent_contents_to_text(items: &Vec<AgentMessageInputContent>) -> (r: Option<String>)
    ensures
        text::opt_view(r) == agent_contents_text(items@),
{
    let mut texts: Vec<Option<String>> = Vec::new();
    let mut i: usize = 0;
    while i < items.len()
        invariant
            i <= items@.len(),
            texts@.len() == i,
            forall|k: int|
                0 <= k < i ==> text::opt_view(#[trigger] texts@[k]) == agent_content_text(items@[k]),
        decreases items@.len() - i,
    {
        texts.push(items[i].to_text());
        i += 1;
    }
    assert(texts@.map_values(|t: Option<String>| text::opt_view(t)) =~= items@.map_values(
        |item: AgentMessageInputContent| agent_content_text(item),
    ));
    array_of(texts)
}

/// A part of a reasoning summary as text.
pub open spec fn summary_text(item: ReasoningSummaryItem) -> Option<Seq<char>> {
    match item {
        ReasoningSummaryItem::SummaryText { text } => {
            let m = json_text::tagged("summary_text"@);
            let m = json_text::put_text(m, "text"@, text@);
            json_text::object_text(m)
        },
    }
}

impl ReasoningSummaryItem {
    /// A part of a reasoning summary as text.
    pub fn to_text(&self) -> (r: Option<String>)
        ensures
            text::opt_view(r) == summary_text(*self),
    {
        match self {
            ReasoningSummaryItem::SummaryText { text } => {
                let mut m = ObjectText::of_type("summary_text");
                m.put_text("text", text.as_str());
                m.into_text()
            },
        }
    }
}

/// A reasoning summary as text.
pub open spec fn summaries_text(items: Seq<ReasoningSummaryItem>) -> Option<Seq<char>> {
    json_text::array_text(items.map_values(|item: ReasoningSummaryItem| summary_text(item)))
}

/// A reasoning summary as text.
pub fn summaries_to_text(items: &Vec<ReasoningSummaryItem>) -> (r: Option<String>)
    ensures
        text::opt_view(r) == summaries_text(items@),
{
    let mut texts: Vec<Option<String>> = Vec::new();
    let mut i: usize = 0;
    while i < items.len()
        invariant
            i <= items@.len(),
            texts@.len() == i,
            forall|k: int|
                0 <= k < i ==> text::opt_view(#[trigger] texts@[k]) == summary_text(items@[k]),
        decreases items@.len() - i,
    {
        texts.push(items[i].to_text());
        i += 1;
    }
    assert(texts@.map_values(|t: Option<String>| text::opt_view(t)) =~= items@.map_values(
        |item: ReasoningSummaryItem| summary_text(item),
    ));
    array_of(texts)
}

/// A part of reasoning as text.
pub open spec fn reasoning_text(item: ReasoningContentItem) -> Option<Seq<char>> {
    match item {
        ReasoningContentItem::ReasoningText { text } => {
            let m = json_text::tagged("reasoning_text"@);
            let m = json_text::put_text(m, "text"@, text@);
            json_text::object_text(m)
        },
        ReasoningContentItem::Text { text } => {
            let m = json_text::tagged("text"@);
            let m = json_text::put_text(m, "text"@, text@);
            json_text::object_text(m)
        },
    }
}

impl ReasoningContentItem {
    /// A part of reasoning as text.
    pub fn to_text(&self) -> (r: Option<String>)
        ensures
            text::opt_view(r) == reasoning_text(*self),
    {
        match self {
            ReasoningContentItem::ReasoningText { text } => {
                let mut m = ObjectText::of_type("reasoning_text");
                m.put_text("text", text.as_str());
                m.into_text()
            },
            ReasoningContentItem::Text { text } => {
                let mut m = ObjectText::of_type("text");
                m.put_text("text", text.as_str());
                m.into_text()
            },
        }
    }
}

/// Reasoning as text.
pub open spec fn reasonings_text(items: Seq<ReasoningContentItem>) -> Option<Seq<char>> {
    json_text::array_text(items.map_values(|item: ReasoningContentItem| reasoning_text(item)))
}

/// Reasoning as text.
pub fn reasonings_to_text(items: &Vec<ReasoningContentItem>) -> (r: Option<String>)
    ensures
        text::opt_view(r) == reasonings_text(items@),
{
    let mut texts: Vec<Option<String>> = Vec::new();
    let mut i: usize = 0;
    while i < items.len()
        invariant
            i <= items@.len(),
            texts@.len() == i,
            forall|k: int|
                0 <= k < i ==> text::opt_view(#[trigger] texts@[k]) == reasoning_text(items@[k]),
        decreases items@.len() - i,
    {
        texts.push(items[i].to_text());
        i += 1;
    }
    assert(texts@.map_values(|t: Option<String>| text::opt_view(t)) =~= items@.map_values(
        |item: ReasoningContentItem| reasoning_text(item),
    ));
    array_of(texts)
}

/// The members that the first `n` variables are.
pub open spec fn env_fields(env: Seq<(String, String)>, n: int) -> json_text::Fields
    decreases n,
{
    if n <= 0 || n > env.len() {
        Some(Seq::empty())
    } else {
        json_text::put_text(env_fields(env, n - 1), env[n - 1].0@, env[n - 1].1@)
    }
}

/// Variables as text, in order.
pub open spec fn env_text(env: Seq<(String, String)>) -> Option<Seq<char>> {
    json_text::object_text(env_fields(env, env.len() as int))
}

fn env_to_text(env: &Vec<(String, String)>) -> (r: Option<String>)
    ensures
        text::opt_view(r) == env_text(env@),
{
    let mut m = ObjectText::new();
    let mut i: usize = 0;
    while i < env.len()
        invariant
            i <= env@.len(),
            m@ == env_fields(env@, i as int),
        decreases env@.len() - i,
    {
        m.put_text(env[i].0.as_str(), env[i].1.as_str());
        i += 1;
    }
    m.into_text()
}

/// A shell action as text.
pub open spec fn shell_action_text(item: LocalShellAction) -> Option<Seq<char>> {
    match item {
        LocalShellAction::Exec(exec) => {
            let m = json_text::tagged("exec"@);
            let m = json_text::put(
                m,
                "command"@,
                Some(json_text::strings_text(text::strings_view(exec.command@))),
            );
            let m = match exec.timeout_ms {
                Some(x) => json_text::put(m, "timeout_ms"@, Some(text::decimal(x as nat))),
                None => m,
            };
            let m = json_text::put_opt_text(
                m,
                "working_directory"@,
                text::opt_view(exec.working_directory),
            );
            let m = match exec.env {
                Some(x) => json_text::put(m, "env"@, env_text(x@)),
                None => m,
            };
            let m = json_text::put_opt_text(m, "user"@, text::opt_view(exec.user));
            json_text::object_text(m)
        },
    }
}

impl LocalShellAction {
    /// A shell action as text.
    pub fn to_text(&self) -> (r: Option<String>)
        ensures
            text::opt_view(r) == shell_action_text(*self),
    {
        match self {
            LocalShellAction::Exec(exec) => {
                let mut m = ObjectText::of_type("exec");
                m.put("command", Some(strings_of(&exec.command)));
                if let Some(x) = &exec.timeout_ms {
                    m.put("timeout_ms", Some(decimal_of(*x as u128)));
                }
                m.put_opt_text("working_directory", &exec.working_directory);
                if let Some(x) = &exec.env {
                    m.put("env", env_to_text(x));
                }
                m.put_opt_text("user", &exec.user);
                m.into_text()
            },
        }
    }
}

/// A web search action as text.
pub open spec fn web_action_text(item: WebSearchAction) -> Option<Seq<char>> {
    match item {
        WebSearchAction::Search { query, queries, sources } => {
            let m = json_text::tagged("search"@);
            let m = json_text::put_opt_text(m, "query"@, text::opt_view(query));
            let m = match queries {
                Some(x) => json_text::put(
                    m,
                    "queries"@,
                    Some(json_text::strings_text(text::strings_view(x@))),
                ),
                None => m,
            };
            let m = match sources {
                Some(x) => json_text::put(
                    m,
                    "sources"@,
                    json_text::array_text(json_text::value_texts(x@)),
                ),
                None => m,
            };
            json_text::object_text(m)
        },
        WebSearchAction::OpenPage { url } => {
            let m = json_text::tagged("open_page"@);
            let m = json_text::put_opt_text(m, "url"@, text::opt_view(url));
            json_text::object_text(m)
        },
        WebSearchAction::FindInPage { url, pattern } => {
            let m = json_text::tagged("find_in_page"@);
            let m = json_text::put_opt_text(m, "url"@, text::opt_view(url));
            let m = json_text::put_opt_text(m, "pattern"@, text::opt_view(pattern));
            json_text::object_text(m)
        },
        WebSearchAction::Other => {
            let m = json_text::tagged("other"@);
            json_text::object_text(m)
        },
    }
}

impl WebSearchAction {
    /// A web search action as text.
    pub fn to_text(&self) -> (r: Option<String>)
        ensures
            text::opt_view(r) == web_action_text(*self),
    {
        match self {
            WebSearchAction::Search { query, queries, sources } => {
                let mut m = ObjectText::of_type("search");
                m.put_opt_text("query", query);
                if let Some(x) = queries {
                    m.put("queries", Some(strings_of(x)));
                }
                if let Some(x) = sources {
                    m.put("sources", values_text(x));
                }
                m.into_text()
            },
            WebSearchAction::OpenPage { url } => {
                let mut m = ObjectText::of_type("open_page");
                m.put_opt_text("url", url);
                m.into_text()
            },
            WebSearchAction::FindInPage { url, pattern } => {
                let mut m = ObjectText::of_type("find_in_page");
                m.put_opt_text("url", url);
                m.put_opt_text("pattern", pattern);
                m.into_text()
            },
            WebSearchAction::Other => {
                let m = ObjectText::of_type("other");
                m.into_text()
            },
        }
    }
}

/// An item as text: of its optional fields those that are there.
pub open spec fn item_text(item: ResponseItem) -> Option<Seq<char>> {
    match item {
        ResponseItem::ItemReference { id } => {
            let m = json_text::tagged("item_reference"@);
            let m = json_text::put_text(m, "id"@, id@);
            json_text::object_text(m)
        },
        ResponseItem::Message { id, role, content, phase } => {
            let m = json_text::tagged("message"@);
            let m = json_text::put_opt_text(m, "id"@, text::opt_view(id));
            let m = json_text::put_text(m, "role"@, role@);
            let m = json_text::put(m, "content"@, contents_text(content@));
            let m = json_text::put_opt_text(m, "phase"@, text::opt_view(phase));
            json_text::object_text(m)
        },
        ResponseItem::AgentMessage { id, content } => {
            let m = json_text::tagged("agent_message"@);
            let m = json_text::put_opt_text(m, "id"@, text::opt_view(id));
            let m = json_text::put(m, "content"@, agent_contents_text(content@));
            json_text::object_text(m)
        },
        ResponseItem::Reasoning { id, summary, content, encrypted_content } => {
            let m = json_text::tagged("reasoning"@);
            let m = json_text::put_text(m, "id"@, id@);
            let m = json_text::put(m, "summary"@, summaries_text(summary@));
            let m = match content {
                Some(x) => json_text::put(m, "content"@, reasonings_text(x@)),
                None => m,
            };
            let m = json_text::put_opt_text(
                m,
                "encrypted_content"@,
                text::opt_view(encrypted_content),
            );
            json_text::object_text(m)
        },
        ResponseItem::FunctionCall { id, name, namespace, arguments, call_id } => {
            let m = json_text::tagged("function_call"@);
            let m = json_text::put_opt_text(m, "id"@, text::opt_view(id));
            let m = json_text::put_text(m, "name"@, name@);
            let m = json_text::put_opt_text(m, "namespace"@, text::opt_view(namespace));
            let m = json_text::put_text(m, "arguments"@, arguments@);
            let m = json_text::put_text(m, "call_id"@, call_id@);
            json_text::object_text(m)
        },
        ResponseItem::FunctionCallOutput { call_id, output } => {
            let m = json_text::tagged("function_call_output"@);
            let m = json_text::put_text(m, "call_id"@, call_id@);
            let m = json_text::put(m, "output"@, output_text(output));
            json_text::object_text(m)
        },
        ResponseItem::CustomToolCall { id, status, call_id, name, input } => {
            let m = json_text::tagged("custom_tool_call"@);
            let m = json_text::put_opt_text(m, "id"@, text::opt_view(id));
            let m = json_text::put_opt_text(m, "status"@, text::opt_view(status));
            let m = json_text::put_text(m, "call_id"@, call_id@);
            let m = json_text::put_text(m, "name"@, name@);
            let m = json_text::put_text(m, "input"@, input@);
            json_text::object_text(m)
        },
        ResponseItem::CustomToolCallOutput { call_id, name, output } => {
            let m = json_text::tagged("custom_tool_call_output"@);
            let m = json_text::put_text(m, "call_id"@, call_id@);
            let m = json_text::put_opt_text(m, "name"@, text::opt_view(name));
            let m = json_text::put(m, "output"@, output_text(output));
            json_text::object_text(m)
        },
        ResponseItem::ToolSearchCall { id, call_id, status, execution, arguments } => {
            let m = json_text::tagged("tool_search_call"@);
            let m = json_text::put_opt_text(m, "id"@, text::opt_view(id));
            let m = json_text::put_opt_text(m, "call_id"@, text::opt_view(call_id));
            let m = json_text::put_opt_text(m, "status"@, text::opt_view(status));
            let m = json_text::put_text(m, "execution"@, execution@);
            let m = json_text::put(m, "arguments"@, json::rendered_json(arguments@));
            json_text::object_text(m)
        },
        ResponseItem::ToolSearchOutput { call_id, status, execution, tools } => {
            let m = json_text::tagged("tool_search_output"@);
            let m = json_text::put_opt_text(m, "call_id"@, text::opt_view(call_id));
            let m = json_text::put_text(m, "status"@, status@);
            let m = json_text::put_text(m, "execution"@, execution@);
            let m = json_text::put(
                m,
                "tools"@,
                json_text::array_text(json_text::value_texts(tools@)),
            );
            json_text::object_text(m)
        },
        ResponseItem::LocalShellCall { id, call_id, status, action } => {
            let m = json_text::tagged("local_shell_call"@);
            let m = json_text::put_opt_text(m, "id"@, text::opt_view(id));
            let m = json_text::put_opt_text(m, "call_id"@, text::opt_view(call_id));
            let m = json_text::put_text(m, "status"@, status@);
            let m = json_text::put(m, "action"@, shell_action_text(action));
            json_text::object_text(m)
        },
        ResponseItem::WebSearchCall { id, status, action } => {
            let m = json_text::tagged("web_search_call"@);
            let m = json_text::put_opt_text(m, "id"@, text::opt_view(id));
            let m = json_text::put_opt_text(m, "status"@, text::opt_view(status));
            let m = match action {
                Some(x) => json_text::put(m, "action"@, web_action_text(x)),
                None => m,
            };
            json_text::object_text(m)
        },
        ResponseItem::ImageGenerationCall { id, status, revised_prompt, result } => {
            let m = json_text::tagged("image_generation_call"@);
            let m = json_text::put_text(m, "id"@, id@);
            let m = json_text::put_text(m, "status"@, status@);
            let m = json_text::put_opt_text(m, "revised_prompt"@, text::opt_view(revised_prompt));
            let m = json_text::put_text(m, "result"@, result@);
            json_text::object_text(m)
        },
    }
}

impl ResponseItem {
    /// An item as text: of its optional fields those that are there.
    pub fn to_text(&self) -> (r: Option<String>)
        ensures
            text::opt_view(r) == item_text(*self),
    {
        match self {
            ResponseItem::ItemReference { id } => {
                let mut m = ObjectText::of_type("item_reference");
                m.put_text("id", id.as_str());
                m.into_text()
            },
            ResponseItem::Message { id, role, content, phase } => {
                let mut m = ObjectText::of_type("message");
                m.put_opt_text("id", id);
                m.put_text("role", role.as_str());
                m.put("content", contents_to_text(content));
                m.put_opt_text("phase", phase);
                m.into_text()
            },
            ResponseItem::AgentMessage { id, content } => {
                let mut m = ObjectText::of_type("agent_message");
                m.put_opt_text("id", id);
                m.put("content", agent_contents_to_text(content));
                m.into_text()
            },
            ResponseItem::Reasoning { id, summary, content, encrypted_content } => {
                let mut m = ObjectText::of_type("reasoning");
                m.put_text("id", id.as_str());
                m.put("summary", summaries_to_text(summary));
                if let Some(x) = content {
                    m.put("content", reasonings_to_text(x));
                }
                m.put_opt_text("encrypted_content", encrypted_content);
                m.into_text()
            },
            ResponseItem::FunctionCall { id, name, namespace, arguments, call_id } => {
                let mut m = ObjectText::of_type("function_call");
                m.put_opt_text("id", id);
                m.put_text("name", name.as_str());
                m.put_opt_text("namespace", namespace);
                m.put_text("arguments", arguments.as_str());
                m.put_text("call_id", call_id.as_str());
                m.into_text()
            },
            ResponseItem::FunctionCallOutput { call_id, output } => {
                let mut m = ObjectText::of_type("function_call_output");
                m.put_text("call_id", call_id.as_str());
                m.put("output", output.to_text());
                m.into_text()
            },
            ResponseItem::CustomToolCall { id, status, call_id, name, input } => {
                let mut m = ObjectText::of_type("custom_tool_call");
                m.put_opt_text("id", id);
                m.put_opt_text("status", status);
                m.put_text("call_id", call_id.as_str());
                m.put_text("name", name.as_str());
                m.put_text("input", input.as_str());
                m.into_text()
            },
            ResponseItem::CustomToolCallOutput { call_id, name, output } => {
                let mut m = ObjectText::of_type("custom_tool_call_output");
                m.put_text("call_id", call_id.as_str());
                m.put_opt_text("name", name);
                m.put("output", output.to_text());
                m.into_text()
            },
            ResponseItem::ToolSearchCall { id, call_id, status, execution, arguments } => {
                let mut m = ObjectText::of_type("tool_search_call");
                m.put_opt_text("id", id);
                m.put_opt_text("call_id", call_id);
                m.put_opt_text("status", status);
                m.put_text("execution", execution.as_str());
                m.put("arguments", arguments.render());
                m.into_text()
            },
            ResponseItem::ToolSearchOutput { call_id, status, execution, tools } => {
                let mut m = ObjectText::of_type("tool_search_output");
                m.put_opt_text("call_id", call_id);
                m.put_text("status", status.as_str());
                m.put_text("execution", execution.as_str());
                m.put("tools", values_text(tools));
                m.into_text()
            },
            ResponseItem::LocalShellCall { id, call_id, status, action } => {
                let mut m = ObjectText::of_type("local_shell_call");
                m.put_opt_text("id", id);
                m.put_opt_text("call_id", call_id);
                m.put_text("status", status.as_str());
                m.put("action", action.to_text());
                m.into_text()
            },
            ResponseItem::WebSearchCall { id, status, action } => {
                let mut m = ObjectText::of_type("web_search_call");
                m.put_opt_text("id", id);
                m.put_opt_text("status", status);
                if let Some(x) = action {
                    m.put("action", x.to_text());
                }
                m.into_text()
            },
            ResponseItem::ImageGenerationCall { id, status, revised_prompt, result } => {
                let mut m = ObjectText::of_type("image_generation_call");
                m.put_text("id", id.as_str());
                m.put_text("status", status.as_str());
                m.put_opt_text("revised_prompt", revised_prompt);
                m.put_text("result", result.as_str());
                m.into_text()
            },
        }
    }
}

/// Items as text.
pub open spec fn items_text(items: Seq<ResponseItem>) -> Option<Seq<char>> {
    json_text::array_text(items.map_values(|item: ResponseItem| item_text(item)))
}

/// Items as text.
pub fn items_to_text(items: &Vec<ResponseItem>) -> (r: Option<String>)
    ensures
        text::opt_view(r) == items_text(items@),
{
    let mut texts: Vec<Option<String>> = Vec::new();
    let mut i: usize = 0;
    while i < items.len()
        invariant
            i <= items@.len(),
            texts@.len() == i,
            forall|k: int|
                0 <= k < i ==> text::opt_view(#[trigger] texts@[k]) == item_text(items@[k]),
        decreases items@.len() - i,
    {
        texts.push(items[i].to_text());
        i += 1;
    }
    assert(texts@.map_values(|t: Option<String>| text::opt_view(t)) =~= items@.map_values(
        |item: ResponseItem| item_text(item),
    ));
    array_of(texts)
}

/// The prefix of the replay key of items, which no client text starts with.
pub open spec fn item_key_prefix() -> Seq<char> {
    "\0responses-instruction-items:"@
}

/// The replay key of instructions: a text as it stands, and items as their prefix and
/// text, an empty array where they have none.
pub open spec fn instructions_key(instructions: ResponseInstructions) -> Seq<char> {
    match instructions {
        ResponseInstructions::Text(t) => t@,
        ResponseInstructions::Items(items) => item_key_prefix() + match items_text(items@) {
            Some(t) => t,
            None => "[]"@,
        },
    }
}

impl ResponseInstructions {
    /// The key under which the instructions enter a replay digest.
    pub fn replay_key(&self) -> (r: String)
        ensures
            r@ == instructions_key(*self),
    {
        match self {
            ResponseInstructions::Text(t) => t.clone(),
            ResponseInstructions::Items(items) => {
                let rendered = match items_to_text(items) {
                    Some(t) => t,
                    None => "[]".to_owned(),
                };
                text::joined("\0responses-instruction-items:", rendered.as_str())
            },
        }
    }

    /// The number of characters of the replay key, which is that of a text.
    pub fn character_count(&self) -> (r: usize)
        ensures
            r == instructions_key(*self).len(),
    {
        self.replay_key().as_str().unicode_len()
    }
}

/// The key of items is never that of a text, unless the text starts with the prefix that
/// is kept for items.
pub proof fn law_item_key_is_apart(items: ResponseInstructions, other: ResponseInstructions)
    requires
        items is Items,
        other is Text,
        !text::holds_at(instructions_key(other), 0, item_key_prefix()),
    ensures
        instructions_key(items) != instructions_key(other),
{
    let key = instructions_key(items);
    assert(key.subrange(0, item_key_prefix().len() as int) =~= item_key_prefix());
}

} // verus!
