//! Items, tools and requests of the Responses surface as JSON, and the shorthands that
//! a client may write for them.
use vstd::prelude::*;

use crate::json;
use crate::json::Json;
use crate::json::JsonMap;
use crate::json::JsonNumber;
use crate::json::JsonView;
use crate::models::responses;
use crate::models::responses::contents_to_json;
use crate::models::responses::AgentMessageInputContent;
use crate::models::responses::CustomToolFormat;
use crate::models::responses::LocalShellAction;
use crate::models::responses::NamespaceToolSpec;
use crate::models::responses::ReasoningContentItem;
use crate::models::responses::ReasoningRequest;
use crate::models::responses::ReasoningSummaryItem;
use crate::models::responses::ResponseInstructions;
use crate::models::responses::ResponseItem;
use crate::models::responses::ResponsesRequest;
use crate::models::responses::TextControls;
use crate::models::responses::TextFormat;
use crate::models::responses::ToolSpec;
use crate::models::responses::WebSearchAction;
use crate::text;

verus! {

// --- Optional values --------------------------------------------------------------------------

/// A flag as JSON, where there is one.
pub open spec fn opt_bool_json(b: Option<bool>) -> Option<JsonView> {
    match b {
        Some(b) => Some(JsonView::Bool(b)),
        None => None,
    }
}

/// A flag as JSON, where there is one.
pub fn opt_bool(b: Option<bool>) -> (r: Option<Json>)
    ensures
        json::opt_json_view(r) == opt_bool_json(b),
{
    match b {
        Some(b) => Some(Json::Bool(b)),
        None => None,
    }
}

/// A number as JSON, where there is one.
pub open spec fn opt_number_json(n: Option<JsonNumber>) -> Option<JsonView> {
    match n {
        Some(n) => Some(JsonView::Number(n@)),
        None => None,
    }
}

/// A number as JSON, where there is one.
pub fn opt_number(n: &Option<JsonNumber>) -> (r: Option<Json>)
    ensures
        json::opt_json_view(r) == opt_number_json(*n),
{
    match n {
        Some(n) => Some(Json::Number(n.copy())),
        None => None,
    }
}

/// A whole number as JSON, where there is one.
pub open spec fn opt_whole_json(n: Option<int>) -> Option<JsonView> {
    match n {
        Some(n) => Some(json::whole(n)),
        None => None,
    }
}

/// A signed number as a mathematical one.
pub open spec fn opt_int(n: Option<i64>) -> Option<int> {
    match n {
        Some(n) => Some(n as int),
        None => None,
    }
}

/// A whole number as JSON, where there is one.
pub fn opt_signed(n: Option<i64>) -> (r: Option<Json>)
    ensures
        json::opt_json_view(r) == opt_whole_json(opt_int(n)),
{
    match n {
        Some(n) => Some(Json::integer(n)),
        None => None,
    }
}

/// A whole number as JSON, where there is one.
pub fn opt_unsigned(n: Option<u64>) -> (r: Option<Json>)
    ensures
        json::opt_json_view(r) == opt_whole_json(
            match n {
                Some(n) => Some(n as int),
                None => None,
            },
        ),
{
    match n {
        Some(n) => Some(Json::unsigned(n)),
        None => None,
    }
}

/// Texts as JSON, where there are any.
pub open spec fn opt_texts_json(texts: Option<Vec<String>>) -> Option<JsonView> {
    match texts {
        Some(texts) => Some(json::text_array(text::strings_view(texts@))),
        None => None,
    }
}

/// Texts as JSON, where there are any.
pub fn opt_texts(texts: &Option<Vec<String>>) -> (r: Option<Json>)
    ensures
        json::opt_json_view(r) == opt_texts_json(*texts),
{
    match texts {
        Some(texts) => Some(Json::texts(texts)),
        None => None,
    }
}

/// Values as JSON, where there are any.
pub open spec fn opt_values_json(values: Option<Vec<Json>>) -> Option<JsonView> {
    match values {
        Some(values) => Some(JsonView::Array(json::items_view(values@))),
        None => None,
    }
}

fn opt_values(values: &Option<Vec<Json>>) -> (r: Option<Json>)
    ensures
        json::opt_json_view(r) == opt_values_json(*values),
{
    match values {
        Some(values) => Some(Json::array(json::copy_items(values))),
        None => None,
    }
}

/// An object as JSON, where there is one.
pub open spec fn opt_object_json(map: Option<JsonMap>) -> Option<JsonView> {
    match map {
        Some(map) => Some(JsonView::Object(map@)),
        None => None,
    }
}

/// An object as JSON, where there is one.
pub fn opt_object(map: &Option<JsonMap>) -> (r: Option<Json>)
    ensures
        json::opt_json_view(r) == opt_object_json(*map),
{
    match map {
        Some(map) => Some(map.copy().into_json()),
        None => None,
    }
}

// --- Tools -----------------------------------------------------------------------------------

/// A tool of a namespace as JSON.
pub open spec fn namespace_tool_json(item: NamespaceToolSpec) -> JsonView {
    match item {
        NamespaceToolSpec::Function { name, description, strict, parameters } => {
            let m = json::tagged("function"@);
            let m = json::put_text(m, "name"@, name@);
            let m = json::put_text_unless_empty(m, "description"@, description@);
            let m = json::set_member(m, "strict"@, JsonView::Bool(strict));
            let m = json::set_member(m, "parameters"@, parameters@);
            JsonView::Object(m)
        },
    }
}

impl NamespaceToolSpec {
    /// The tool as JSON.
    pub fn to_json(&self) -> (r: Json)
        ensures
            r@ == namespace_tool_json(*self),
    {
        match self {
            NamespaceToolSpec::Function { name, description, strict, parameters } => {
                let mut m = JsonMap::of_type("function");
                m.put_text("name", name.as_str());
                m.put_text_unless_empty("description", description.as_str());
                m.put("strict", Json::Bool(*strict));
                m.put("parameters", parameters.copy());
                m.into_json()
            },
        }
    }
}

/// Tools of a namespace as JSON.
pub open spec fn namespace_tools_json(items: Seq<NamespaceToolSpec>) -> JsonView {
    JsonView::Array(items.map_values(|item: NamespaceToolSpec| namespace_tool_json(item)))
}

/// Tools of a namespace as JSON.
pub fn namespace_tools_to_json(items: &Vec<NamespaceToolSpec>) -> (r: Json)
    ensures
        r@ == namespace_tools_json(items@),
{
    let mut values: Vec<Json> = Vec::new();
    let mut i: usize = 0;
    while i < items.len()
        invariant
            i <= items@.len(),
            values@.len() == i,
            forall|k: int|
                0 <= k < i ==> (#[trigger] values@[k])@ == namespace_tool_json(items@[k]),
        decreases items@.len() - i,
    {
        values.push(items[i].to_json());
        i += 1;
    }
    assert(json::items_view(values@) =~= items@.map_values(
        |item: NamespaceToolSpec| namespace_tool_json(item),
    ));
    Json::array(values)
}

/// The format of a custom tool as JSON.
pub open spec fn tool_format_json(item: CustomToolFormat) -> JsonView {
    match item {
        CustomToolFormat::Text => {
            let m = json::tagged("text"@);
            JsonView::Object(m)
        },
        CustomToolFormat::Grammar { syntax, definition } => {
            let m = json::tagged("grammar"@);
            let m = json::put_text(m, "syntax"@, syntax@);
            let m = json::put_text(m, "definition"@, definition@);
            JsonView::Object(m)
        },
    }
}

impl CustomToolFormat {
    /// The format as JSON.
    pub fn to_json(&self) -> (r: Json)
        ensures
            r@ == tool_format_json(*self),
    {
        match self {
            CustomToolFormat::Text => {
                let mut m = JsonMap::of_type("text");
                m.into_json()
            },
            CustomToolFormat::Grammar { syntax, definition } => {
                let mut m = JsonMap::of_type("grammar");
                m.put_text("syntax", syntax.as_str());
                m.put_text("definition", definition.as_str());
                m.into_json()
            },
        }
    }
}

/// A tool as JSON: an empty description is left out.
pub open spec fn tool_json(item: ToolSpec) -> JsonView {
    match item {
        ToolSpec::Function { name, description, strict, parameters } => {
            let m = json::tagged("function"@);
            let m = json::put_text(m, "name"@, name@);
            let m = json::put_text_unless_empty(m, "description"@, description@);
            let m = json::set_member(m, "strict"@, JsonView::Bool(strict));
            let m = json::set_member(m, "parameters"@, parameters@);
            JsonView::Object(m)
        },
        ToolSpec::Namespace { name, description, tools } => {
            let m = json::tagged("namespace"@);
            let m = json::put_text(m, "name"@, name@);
            let m = json::put_text(m, "description"@, description@);
            let m = json::set_member(m, "tools"@, namespace_tools_json(tools@));
            JsonView::Object(m)
        },
        ToolSpec::ToolSearch { execution, description, parameters } => {
            let m = json::tagged("tool_search"@);
            let m = json::put_text(m, "execution"@, execution@);
            let m = json::put_text(m, "description"@, description@);
            let m = json::set_member(m, "parameters"@, parameters@);
            JsonView::Object(m)
        },
        ToolSpec::LocalShell {  } => {
            let m = json::tagged("local_shell"@);
            JsonView::Object(m)
        },
        ToolSpec::WebSearch {
            external_web_access,
            filters,
            user_location,
            search_context_size,
            search_content_types,
        } => {
            let m = json::tagged("web_search"@);
            let m = json::set_member(
                m,
                "external_web_access"@,
                json::or_null(opt_bool_json(external_web_access)),
            );
            let m = json::set_member(m, "filters"@, json::or_null(json::opt_json_view(filters)));
            let m = json::set_member(
                m,
                "user_location"@,
                json::or_null(json::opt_json_view(user_location)),
            );
            let m = json::put_text_or_null(
                m,
                "search_context_size"@,
                text::opt_view(search_context_size),
            );
            let m = json::set_member(
                m,
                "search_content_types"@,
                json::or_null(opt_texts_json(search_content_types)),
            );
            JsonView::Object(m)
        },
        ToolSpec::Custom { name, description, format } => {
            let m = json::tagged("custom"@);
            let m = json::put_text(m, "name"@, name@);
            let m = json::put_text_unless_empty(m, "description"@, description@);
            let m = json::set_member(m, "format"@, tool_format_json(format));
            JsonView::Object(m)
        },
        ToolSpec::ImageGeneration { output_format } => {
            let m = json::tagged("image_generation"@);
            let m = json::put_text_or_null(m, "output_format"@, text::opt_view(output_format));
            JsonView::Object(m)
        },
    }
}

impl ToolSpec {
    /// The tool as JSON.
    pub fn to_json(&self) -> (r: Json)
        ensures
            r@ == tool_json(*self),
    {
        match self {
            ToolSpec::Function { name, description, strict, parameters } => {
                let mut m = JsonMap::of_type("function");
                m.put_text("name", name.as_str());
                m.put_text_unless_empty("description", description.as_str());
                m.put("strict", Json::Bool(*strict));
                m.put("parameters", parameters.copy());
                m.into_json()
            },
            ToolSpec::Namespace { name, description, tools } => {
                let mut m = JsonMap::of_type("namespace");
                m.put_text("name", name.as_str());
                m.put_text("description", description.as_str());
                m.put("tools", namespace_tools_to_json(tools));
                m.into_json()
            },
            ToolSpec::ToolSearch { execution, description, parameters } => {
                let mut m = JsonMap::of_type("tool_search");
                m.put_text("execution", execution.as_str());
                m.put_text("description", description.as_str());
                m.put("parameters", parameters.copy());
                m.into_json()
            },
            ToolSpec::LocalShell {  } => {
                let mut m = JsonMap::of_type("local_shell");
                m.into_json()
            },
            ToolSpec::WebSearch {
            external_web_access,
            filters,
            user_location,
            search_context_size,
            search_content_types,
        } => {
                let mut m = JsonMap::of_type("web_search");
                m.put("external_web_access", Json::or_null(opt_bool(*external_web_access)));
                m.put("filters", Json::or_null(json::copy_opt(filters)));
                m.put("user_location", Json::or_null(json::copy_opt(user_location)));
                m.put_text_or_null("search_context_size", search_context_size);
                m.put("search_content_types", Json::or_null(opt_texts(search_content_types)));
                m.into_json()
            },
            ToolSpec::Custom { name, description, format } => {
                let mut m = JsonMap::of_type("custom");
                m.put_text("name", name.as_str());
                m.put_text_unless_empty("description", description.as_str());
                m.put("format", format.to_json());
                m.into_json()
            },
            ToolSpec::ImageGeneration { output_format } => {
                let mut m = JsonMap::of_type("image_generation");
                m.put_text_or_null("output_format", output_format);
                m.into_json()
            },
        }
    }
}

/// Tools as JSON.
pub open spec fn tools_json(items: Seq<ToolSpec>) -> JsonView {
    JsonView::Array(items.map_values(|item: ToolSpec| tool_json(item)))
}

/// Tools as JSON.
pub fn tools_to_json(items: &Vec<ToolSpec>) -> (r: Json)
    ensures
        r@ == tools_json(items@),
{
    let mut values: Vec<Json> = Vec::new();
    let mut i: usize = 0;
    while i < items.len()
        invariant
            i <= items@.len(),
            values@.len() == i,
            forall|k: int| 0 <= k < i ==> (#[trigger] values@[k])@ == tool_json(items@[k]),
        decreases items@.len() - i,
    {
        values.push(items[i].to_json());
        i += 1;
    }
    assert(json::items_view(values@) =~= items@.map_values(|item: ToolSpec| tool_json(item)));
    Json::array(values)
}

// --- Items -----------------------------------------------------------------------------------

/// A part of an agent message as JSON.
pub open spec fn agent_content_json(item: AgentMessageInputContent) -> JsonView {
    match item {
        AgentMessageInputContent::InputText { text } => {
            let m = json::tagged("input_text"@);
            let m = json::put_text(m, "text"@, text@);
            JsonView::Object(m)
        },
        AgentMessageInputContent::EncryptedContent { encrypted_content } => {
            let m = json::tagged("encrypted_content"@);
            let m = json::put_text(m, "encrypted_content"@, encrypted_content@);
            JsonView::Object(m)
        },
    }
}

impl AgentMessageInputContent {
    /// The part as JSON.
    pub fn to_json(&self) -> (r: Json)
        ensures
            r@ == agent_content_json(*self),
    {
        match self {
            AgentMessageInputContent::InputText { text } => {
                let mut m = JsonMap::of_type("input_text");
                m.put_text("text", text.as_str());
                m.into_json()
            },
            AgentMessageInputContent::EncryptedContent { encrypted_content } => {
                let mut m = JsonMap::of_type("encrypted_content");
                m.put_text("encrypted_content", encrypted_content.as_str());
                m.into_json()
            },
        }
    }
}

/// Parts of an agent message as JSON.
pub open spec fn agent_contents_json(items: Seq<AgentMessageInputContent>) -> JsonView {
    JsonView::Array(items.map_values(|item: AgentMessageInputContent| agent_content_json(item)))
}

/// Parts of an agent message as JSON.
pub fn agent_contents_to_json(items: &Vec<AgentMessageInputContent>) -> (r: Json)
    ensures
        r@ == agent_contents_json(items@),
{
    let mut values: Vec<Json> = Vec::new();
    let mut i: usize = 0;
    while i < items.len()
        invariant
            i <= items@.len(),
            values@.len() == i,
            forall|k: int| 0 <= k < i ==> (#[trigger] values@[k])@ == agent_content_json(items@[k]),
        decreases items@.len() - i,
    {
        values.push(items[i].to_json());
        i += 1;
    }
    assert(json::items_view(values@) =~= items@.map_values(
        |item: AgentMessageInputContent| agent_content_json(item),
    ));
    Json::array(values)
}

/// A part of a reasoning summary as JSON.
pub open spec fn summary_json(item: ReasoningSummaryItem) -> JsonView {
    match item {
        ReasoningSummaryItem::SummaryText { text } => {
            let m = json::tagged("summary_text"@);
            let m = json::put_text(m, "text"@, text@);
            JsonView::Object(m)
        },
    }
}

impl ReasoningSummaryItem {
    /// The part as JSON.
    pub fn to_json(&self) -> (r: Json)
        ensures
            r@ == summary_json(*self),
    {
        match self {
            ReasoningSummaryItem::SummaryText { text } => {
                let mut m = JsonMap::of_type("summary_text");
                m.put_text("text", text.as_str());
                m.into_json()
            },
        }
    }
}

/// A reasoning summary as JSON.
pub open spec fn summaries_json(items: Seq<ReasoningSummaryItem>) -> JsonView {
    JsonView::Array(items.map_values(|item: ReasoningSummaryItem| summary_json(item)))
}

/// A reasoning summary as JSON.
pub fn summaries_to_json(items: &Vec<ReasoningSummaryItem>) -> (r: Json)
    ensures
        r@ == summaries_json(items@),
{
    let mut values: Vec<Json> = Vec::new();
    let mut i: usize = 0;
    while i < items.len()
        invariant
            i <= items@.len(),
            values@.len() == i,
            forall|k: int| 0 <= k < i ==> (#[trigger] values@[k])@ == summary_json(items@[k]),
        decreases items@.len() - i,
    {
        values.push(items[i].to_json());
        i += 1;
    }
    assert(json::items_view(values@) =~= items@.map_values(
        |item: ReasoningSummaryItem| summary_json(item),
    ));
    Json::array(values)
}

/// A part of reasoning as JSON.
pub open spec fn reasoning_json(item: ReasoningContentItem) -> JsonView {
    match item {
        ReasoningContentItem::ReasoningText { text } => {
            let m = json::tagged("reasoning_text"@);
            let m = json::put_text(m, "text"@, text@);
            JsonView::Object(m)
        },
        ReasoningContentItem::Text { text } => {
            let m = json::tagged("text"@);
            let m = json::put_text(m, "text"@, text@);
            JsonView::Object(m)
        },
    }
}

impl ReasoningContentItem {
    /// The part as JSON.
    pub fn to_json(&self) -> (r: Json)
        ensures
            r@ == reasoning_json(*self),
    {
        match self {
            ReasoningContentItem::ReasoningText { text } => {
                let mut m = JsonMap::of_type("reasoning_text");
                m.put_text("text", text.as_str());
                m.into_json()
            },
            ReasoningContentItem::Text { text } => {
                let mut m = JsonMap::of_type("text");
                m.put_text("text", text.as_str());
                m.into_json()
            },
        }
    }
}

/// Reasoning as JSON.
pub open spec fn reasonings_json(items: Seq<ReasoningContentItem>) -> JsonView {
    JsonView::Array(items.map_values(|item: ReasoningContentItem| reasoning_json(item)))
}

/// Reasoning as JSON.
pub fn reasonings_to_json(items: &Vec<ReasoningContentItem>) -> (r: Json)
    ensures
        r@ == reasonings_json(items@),
{
    let mut values: Vec<Json> = Vec::new();
    let mut i: usize = 0;
    while i < items.len()
        invariant
            i <= items@.len(),
            values@.len() == i,
            forall|k: int| 0 <= k < i ==> (#[trigger] values@[k])@ == reasoning_json(items@[k]),
        decreases items@.len() - i,
    {
        values.push(items[i].to_json());
        i += 1;
    }
    assert(json::items_view(values@) =~= items@.map_values(
        |item: ReasoningContentItem| reasoning_json(item),
    ));
    Json::array(values)
}

/// The members that the first `n` variables are.
pub open spec fn env_members(env: Seq<(String, String)>, n: int) -> Seq<(Seq<char>, JsonView)>
    decreases n,
{
    if n <= 0 || n > env.len() {
        Seq::empty()
    } else {
        json::put_text(env_members(env, n - 1), env[n - 1].0@, env[n - 1].1@)
    }
}

/// Variables as JSON, where there are any.
pub open spec fn opt_env_json(env: Option<Vec<(String, String)>>) -> Option<JsonView> {
    match env {
        Some(env) => Some(JsonView::Object(env_members(env@, env@.len() as int))),
        None => None,
    }
}

fn opt_env(env: &Option<Vec<(String, String)>>) -> (r: Option<Json>)
    ensures
        json::opt_json_view(r) == opt_env_json(*env),
{
    match env {
        Some(env) => {
            let mut m = JsonMap::new();
            let mut i: usize = 0;
            while i < env.len()
                invariant
                    i <= env@.len(),
                    m@ == env_members(env@, i as int),
                decreases env@.len() - i,
            {
                m.put_text(env[i].0.as_str(), env[i].1.as_str());
                i += 1;
            }
            Some(m.into_json())
        },
        None => None,
    }
}

/// A shell action as JSON.
pub open spec fn shell_action_json(item: LocalShellAction) -> JsonView {
    match item {
        LocalShellAction::Exec(exec) => {
            let m = json::tagged("exec"@);
            let m = json::set_member(
                m,
                "command"@,
                json::text_array(text::strings_view(exec.command@)),
            );
            let m = json::put_opt(m, "timeout_ms"@, opt_whole_json(match exec.timeout_ms {
                Some(n) => Some(n as int),
                None => None,
            }));
            let m = json::put_opt_text(
                m,
                "working_directory"@,
                text::opt_view(exec.working_directory),
            );
            let m = json::put_opt(m, "env"@, opt_env_json(exec.env));
            let m = json::put_opt_text(m, "user"@, text::opt_view(exec.user));
            JsonView::Object(m)
        },
    }
}

impl LocalShellAction {
    /// The action as JSON.
    pub fn to_json(&self) -> (r: Json)
        ensures
            r@ == shell_action_json(*self),
    {
        match self {
            LocalShellAction::Exec(exec) => {
                let mut m = JsonMap::of_type("exec");
                m.put("command", Json::texts(&exec.command));
                m.put_opt("timeout_ms", opt_unsigned(exec.timeout_ms));
                m.put_opt_text("working_directory", &exec.working_directory);
                m.put_opt("env", opt_env(&exec.env));
                m.put_opt_text("user", &exec.user);
                m.into_json()
            },
        }
    }
}

/// A web search action as JSON.
pub open spec fn web_action_json(item: WebSearchAction) -> JsonView {
    match item {
        WebSearchAction::Search { query, queries, sources } => {
            let m = json::tagged("search"@);
            let m = json::put_opt_text(m, "query"@, text::opt_view(query));
            let m = json::put_opt(m, "queries"@, opt_texts_json(queries));
            let m = json::put_opt(m, "sources"@, opt_values_json(sources));
            JsonView::Object(m)
        },
        WebSearchAction::OpenPage { url } => {
            let m = json::tagged("open_page"@);
            let m = json::put_opt_text(m, "url"@, text::opt_view(url));
            JsonView::Object(m)
        },
        WebSearchAction::FindInPage { url, pattern } => {
            let m = json::tagged("find_in_page"@);
            let m = json::put_opt_text(m, "url"@, text::opt_view(url));
            let m = json::put_opt_text(m, "pattern"@, text::opt_view(pattern));
            JsonView::Object(m)
        },
        WebSearchAction::Other => {
            let m = json::tagged("other"@);
            JsonView::Object(m)
        },
    }
}

impl WebSearchAction {
    /// The action as JSON.
    pub fn to_json(&self) -> (r: Json)
        ensures
            r@ == web_action_json(*self),
    {
        match self {
            WebSearchAction::Search { query, queries, sources } => {
                let mut m = JsonMap::of_type("search");
                m.put_opt_text("query", query);
                m.put_opt("queries", opt_texts(queries));
                m.put_opt("sources", opt_values(sources));
                m.into_json()
            },
            WebSearchAction::OpenPage { url } => {
                let mut m = JsonMap::of_type("open_page");
                m.put_opt_text("url", url);
                m.into_json()
            },
            WebSearchAction::FindInPage { url, pattern } => {
                let mut m = JsonMap::of_type("find_in_page");
                m.put_opt_text("url", url);
                m.put_opt_text("pattern", pattern);
                m.into_json()
            },
            WebSearchAction::Other => {
                let mut m = JsonMap::of_type("other");
                m.into_json()
            },
        }
    }
}

/// A web search action as JSON, where there is one.
pub open spec fn opt_web_action_json(action: Option<WebSearchAction>) -> Option<JsonView> {
    match action {
        Some(action) => Some(web_action_json(action)),
        None => None,
    }
}

fn opt_web_action(action: &Option<WebSearchAction>) -> (r: Option<Json>)
    ensures
        json::opt_json_view(r) == opt_web_action_json(*action),
{
    match action {
        Some(action) => Some(action.to_json()),
        None => None,
    }
}

/// Reasoning as JSON, where there is any.
pub open spec fn opt_reasonings_json(content: Option<Vec<ReasoningContentItem>>) -> Option<
    JsonView,
> {
    match content {
        Some(content) => Some(reasonings_json(content@)),
        None => None,
    }
}

fn opt_reasonings(content: &Option<Vec<ReasoningContentItem>>) -> (r: Option<Json>)
    ensures
        json::opt_json_view(r) == opt_reasonings_json(*content),
{
    match content {
        Some(content) => Some(reasonings_to_json(content)),
        None => None,
    }
}

/// An item as JSON: of its optional fields those that are there.
pub open spec fn item_json(item: ResponseItem) -> JsonView {
    match item {
        ResponseItem::ItemReference { id } => {
            let m = json::tagged("item_reference"@);
            let m = json::put_text(m, "id"@, id@);
            JsonView::Object(m)
        },
        ResponseItem::Message { id, role, content, phase } => {
            let m = json::tagged("message"@);
            let m = json::put_opt_text(m, "id"@, text::opt_view(id));
            let m = json::put_text(m, "role"@, role@);
            let m = json::set_member(m, "content"@, responses::contents_json(content@));
            let m = json::put_opt_text(m, "phase"@, text::opt_view(phase));
            JsonView::Object(m)
        },
        ResponseItem::AgentMessage { id, content } => {
            let m = json::tagged("agent_message"@);
            let m = json::put_opt_text(m, "id"@, text::opt_view(id));
            let m = json::set_member(m, "content"@, agent_contents_json(content@));
            JsonView::Object(m)
        },
        ResponseItem::Reasoning { id, summary, content, encrypted_content } => {
            let m = json::tagged("reasoning"@);
            let m = json::put_text(m, "id"@, id@);
            let m = json::set_member(m, "summary"@, summaries_json(summary@));
            let m = json::put_opt(m, "content"@, opt_reasonings_json(content));
            let m = json::put_opt_text(m, "encrypted_content"@, text::opt_view(encrypted_content));
            JsonView::Object(m)
        },
        ResponseItem::FunctionCall { id, name, namespace, arguments, call_id } => {
            let m = json::tagged("function_call"@);
            let m = json::put_opt_text(m, "id"@, text::opt_view(id));
            let m = json::put_text(m, "name"@, name@);
            let m = json::put_opt_text(m, "namespace"@, text::opt_view(namespace));
            let m = json::put_text(m, "arguments"@, arguments@);
            let m = json::put_text(m, "call_id"@, call_id@);
            JsonView::Object(m)
        },
        ResponseItem::FunctionCallOutput { call_id, output } => {
            let m = json::tagged("function_call_output"@);
            let m = json::put_text(m, "call_id"@, call_id@);
            let m = json::set_member(m, "output"@, responses::output_json(output));
            JsonView::Object(m)
        },
        ResponseItem::CustomToolCall { id, status, call_id, name, input } => {
            let m = json::tagged("custom_tool_call"@);
            let m = json::put_opt_text(m, "id"@, text::opt_view(id));
            let m = json::put_opt_text(m, "status"@, text::opt_view(status));
            let m = json::put_text(m, "call_id"@, call_id@);
            let m = json::put_text(m, "name"@, name@);
            let m = json::put_text(m, "input"@, input@);
            JsonView::Object(m)
        },
        ResponseItem::CustomToolCallOutput { call_id, name, output } => {
            let m = json::tagged("custom_tool_call_output"@);
            let m = json::put_text(m, "call_id"@, call_id@);
            let m = json::put_opt_text(m, "name"@, text::opt_view(name));
            let m = json::set_member(m, "output"@, responses::output_json(output));
            JsonView::Object(m)
        },
        ResponseItem::ToolSearchCall { id, call_id, status, execution, arguments } => {
            let m = json::tagged("tool_search_call"@);
            let m = json::put_opt_text(m, "id"@, text::opt_view(id));
            let m = json::put_opt_text(m, "call_id"@, text::opt_view(call_id));
            let m = json::put_opt_text(m, "status"@, text::opt_view(status));
            let m = json::put_text(m, "execution"@, execution@);
            let m = json::set_member(m, "arguments"@, arguments@);
            JsonView::Object(m)
        },
        ResponseItem::ToolSearchOutput { call_id, status, execution, tools } => {
            let m = json::tagged("tool_search_output"@);
            let m = json::put_opt_text(m, "call_id"@, text::opt_view(call_id));
            let m = json::put_text(m, "status"@, status@);
            let m = json::put_text(m, "execution"@, execution@);
            let m = json::set_member(m, "tools"@, JsonView::Array(json::items_view(tools@)));
            JsonView::Object(m)
        },
        ResponseItem::LocalShellCall { id, call_id, status, action } => {
            let m = json::tagged("local_shell_call"@);
            let m = json::put_opt_text(m, "id"@, text::opt_view(id));
            let m = json::put_opt_text(m, "call_id"@, text::opt_view(call_id));
            let m = json::put_text(m, "status"@, status@);
            let m = json::set_member(m, "action"@, shell_action_json(action));
            JsonView::Object(m)
        },
        ResponseItem::WebSearchCall { id, status, action } => {
            let m = json::tagged("web_search_call"@);
            let m = json::put_opt_text(m, "id"@, text::opt_view(id));
            let m = json::put_opt_text(m, "status"@, text::opt_view(status));
            let m = json::put_opt(m, "action"@, opt_web_action_json(action));
            JsonView::Object(m)
        },
        ResponseItem::ImageGenerationCall { id, status, revised_prompt, result } => {
            let m = json::tagged("image_generation_call"@);
            let m = json::put_text(m, "id"@, id@);
            let m = json::put_text(m, "status"@, status@);
            let m = json::put_opt_text(m, "revised_prompt"@, text::opt_view(revised_prompt));
            let m = json::put_text(m, "result"@, result@);
            JsonView::Object(m)
        },
    }
}

impl ResponseItem {
    /// The item as JSON.
    pub fn to_json(&self) -> (r: Json)
        ensures
            r@ == item_json(*self),
    {
        match self {
            ResponseItem::ItemReference { id } => {
                let mut m = JsonMap::of_type("item_reference");
                m.put_text("id", id.as_str());
                m.into_json()
            },
            ResponseItem::Message { id, role, content, phase } => {
                let mut m = JsonMap::of_type("message");
                m.put_opt_text("id", id);
                m.put_text("role", role.as_str());
                m.put("content", contents_to_json(content));
                m.put_opt_text("phase", phase);
                m.into_json()
            },
            ResponseItem::AgentMessage { id, content } => {
                let mut m = JsonMap::of_type("agent_message");
                m.put_opt_text("id", id);
                m.put("content", agent_contents_to_json(content));
                m.into_json()
            },
            ResponseItem::Reasoning { id, summary, content, encrypted_content } => {
                let mut m = JsonMap::of_type("reasoning");
                m.put_text("id", id.as_str());
                m.put("summary", summaries_to_json(summary));
                m.put_opt("content", opt_reasonings(content));
                m.put_opt_text("encrypted_content", encrypted_content);
                m.into_json()
            },
            ResponseItem::FunctionCall { id, name, namespace, arguments, call_id } => {
                let mut m = JsonMap::of_type("function_call");
                m.put_opt_text("id", id);
                m.put_text("name", name.as_str());
                m.put_opt_text("namespace", namespace);
                m.put_text("arguments", arguments.as_str());
                m.put_text("call_id", call_id.as_str());
                m.into_json()
            },
            ResponseItem::FunctionCallOutput { call_id, output } => {
                let mut m = JsonMap::of_type("function_call_output");
                m.put_text("call_id", call_id.as_str());
                m.put("output", output.to_json());
                m.into_json()
            },
            ResponseItem::CustomToolCall { id, status, call_id, name, input } => {
                let mut m = JsonMap::of_type("custom_tool_call");
                m.put_opt_text("id", id);
                m.put_opt_text("status", status);
                m.put_text("call_id", call_id.as_str());
                m.put_text("name", name.as_str());
                m.put_text("input", input.as_str());
                m.into_json()
            },
            ResponseItem::CustomToolCallOutput { call_id, name, output } => {
                let mut m = JsonMap::of_type("custom_tool_call_output");
                m.put_text("call_id", call_id.as_str());
                m.put_opt_text("name", name);
                m.put("output", output.to_json());
                m.into_json()
            },
            ResponseItem::ToolSearchCall { id, call_id, status, execution, arguments } => {
                let mut m = JsonMap::of_type("tool_search_call");
                m.put_opt_text("id", id);
                m.put_opt_text("call_id", call_id);
                m.put_opt_text("status", status);
                m.put_text("execution", execution.as_str());
                m.put("arguments", arguments.copy());
                m.into_json()
            },
            ResponseItem::ToolSearchOutput { call_id, status, execution, tools } => {
                let mut m = JsonMap::of_type("tool_search_output");
                m.put_opt_text("call_id", call_id);
                m.put_text("status", status.as_str());
                m.put_text("execution", execution.as_str());
                m.put("tools", Json::array(json::copy_items(tools)));
                m.into_json()
            },
            ResponseItem::LocalShellCall { id, call_id, status, action } => {
                let mut m = JsonMap::of_type("local_shell_call");
                m.put_opt_text("id", id);
                m.put_opt_text("call_id", call_id);
                m.put_text("status", status.as_str());
                m.put("action", action.to_json());
                m.into_json()
            },
            ResponseItem::WebSearchCall { id, status, action } => {
                let mut m = JsonMap::of_type("web_search_call");
                m.put_opt_text("id", id);
                m.put_opt_text("status", status);
                m.put_opt("action", opt_web_action(action));
                m.into_json()
            },
            ResponseItem::ImageGenerationCall { id, status, revised_prompt, result } => {
                let mut m = JsonMap::of_type("image_generation_call");
                m.put_text("id", id.as_str());
                m.put_text("status", status.as_str());
                m.put_opt_text("revised_prompt", revised_prompt);
                m.put_text("result", result.as_str());
                m.into_json()
            },
        }
    }
}

/// Items as JSON.
pub open spec fn items_json(items: Seq<ResponseItem>) -> JsonView {
    JsonView::Array(items.map_values(|item: ResponseItem| item_json(item)))
}

/// Items as JSON.
pub fn items_to_json(items: &Vec<ResponseItem>) -> (r: Json)
    ensures
        r@ == items_json(items@),
{
    let mut values: Vec<Json> = Vec::new();
    let mut i: usize = 0;
    while i < items.len()
        invariant
            i <= items@.len(),
            values@.len() == i,
            forall|k: int| 0 <= k < i ==> (#[trigger] values@[k])@ == item_json(items@[k]),
        decreases items@.len() - i,
    {
        values.push(items[i].to_json());
        i += 1;
    }
    assert(json::items_view(values@) =~= items@.map_values(|item: ResponseItem| item_json(item)));
    Json::array(values)
}

/// Instructions as JSON: a text, or the items.
pub open spec fn instructions_json(instructions: ResponseInstructions) -> JsonView {
    match instructions {
        ResponseInstructions::Text(t) => JsonView::Text(t@),
        ResponseInstructions::Items(items) => items_json(items@),
    }
}

impl ResponseInstructions {
    /// The instructions as JSON.
    pub fn to_json(&self) -> (r: Json)
        ensures
            r@ == instructions_json(*self),
    {
        match self {
            ResponseInstructions::Text(t) => Json::text(t.as_str()),
            ResponseInstructions::Items(items) => items_to_json(items),
        }
    }
}

// --- Requests --------------------------------------------------------------------------------

/// What is asked of reasoning, as JSON.
pub open spec fn reasoning_request_json(r: ReasoningRequest) -> JsonView {
    let m = json::put_text_or_null(seq![], "effort"@, text::opt_view(r.effort));
    let m = json::put_text_or_null(m, "summary"@, text::opt_view(r.summary));
    JsonView::Object(m)
}

impl ReasoningRequest {
    /// What is asked of reasoning, as JSON.
    pub fn to_json(&self) -> (r: Json)
        ensures
            r@ == reasoning_request_json(*self),
    {
        let mut m = JsonMap::new();
        m.put_text_or_null("effort", &self.effort);
        m.put_text_or_null("summary", &self.summary);
        m.into_json()
    }
}

/// The JSON that a conversion gave, or its refusal.
pub open spec fn json_result(r: Result<Json, String>) -> Result<JsonView, Seq<char>> {
    match r {
        Ok(v) => Ok(v@),
        Err(e) => Err(e@),
    }
}

/// A text format as JSON. A plain format is its type alone; any type that no format has
/// is refused.
pub open spec fn text_format_json(format: TextFormat) -> Result<JsonView, Seq<char>> {
    if format.kind@ == "text"@ || format.kind@ == "json_object"@ {
        Ok(JsonView::Object(json::tagged(format.kind@)))
    } else if format.kind@ == "json_schema"@ {
        let m = json::tagged("json_schema"@);
        let m = json::put_text(m, "name"@, format.name@);
        let m = json::set_member(m, "schema"@, format.schema@);
        let m = json::set_member(m, "strict"@, JsonView::Bool(format.strict));
        let m = json::put_opt_text(m, "description"@, text::opt_view(format.description));
        Ok(JsonView::Object(m))
    } else {
        Err("unsupported text format type: "@ + format.kind@)
    }
}

impl TextFormat {
    /// The format that only names its type.
    pub fn plain(kind: &str) -> (r: Self)
        ensures
            r.kind@ == kind@,
            !r.strict,
            r.schema@ == JsonView::Null,
            r.name@.len() == 0,
            r.description is None,
    {
        TextFormat {
            kind: kind.to_owned(),
            strict: false,
            schema: Json::Null,
            name: String::new(),
            description: None,
        }
    }

    /// The format that follows a schema.
    pub fn json_schema(
        name: String,
        schema: Json,
        strict: bool,
        description: Option<String>,
    ) -> (r: Self)
        ensures
            r.kind@ == "json_schema"@,
            r.name == name,
            r.schema == schema,
            r.strict == strict,
            r.description == description,
    {
        TextFormat { kind: "json_schema".to_owned(), strict, schema, name, description }
    }

    /// The format as JSON.
    pub fn to_json(&self) -> (r: Result<Json, String>)
        ensures
            json_result(r) == text_format_json(*self),
    {
        let kind = self.kind.as_str();
        if text::str_eq(kind, "text") || text::str_eq(kind, "json_object") {
            Ok(JsonMap::of_type(kind).into_json())
        } else if text::str_eq(kind, "json_schema") {
            let mut m = JsonMap::of_type("json_schema");
            m.put_text("name", self.name.as_str());
            m.put("schema", self.schema.copy());
            m.put("strict", Json::Bool(self.strict));
            m.put_opt_text("description", &self.description);
            Ok(m.into_json())
        } else {
            Err(text::joined("unsupported text format type: ", kind))
        }
    }
}

/// What is asked of the output text, as JSON.
pub open spec fn text_controls_json(c: TextControls) -> Result<JsonView, Seq<char>> {
    let m = json::put_text_or_null(seq![], "verbosity"@, text::opt_view(c.verbosity));
    match c.format {
        Some(format) => match text_format_json(format) {
            Ok(v) => Ok(JsonView::Object(json::set_member(m, "format"@, v))),
            Err(e) => Err(e),
        },
        None => Ok(JsonView::Object(json::set_member(m, "format"@, JsonView::Null))),
    }
}

impl TextControls {
    /// What is asked of the output text, as JSON.
    pub fn to_json(&self) -> (r: Result<Json, String>)
        ensures
            json_result(r) == text_controls_json(*self),
    {
        let mut m = JsonMap::new();
        m.put_text_or_null("verbosity", &self.verbosity);
        match &self.format {
            Some(format) => match format.to_json() {
                Ok(v) => m.put("format", v),
                Err(e) => {
                    return Err(e);
                },
            },
            None => m.put("format", Json::Null),
        }
        Ok(m.into_json())
    }
}

/// The names of the typed fields of a request.
pub open spec fn typed_fields() -> Seq<Seq<char>> {
    seq![
        "model"@,
        "instructions"@,
        "input"@,
        "tools"@,
        "tool_choice"@,
        "parallel_tool_calls"@,
        "reasoning"@,
        "store"@,
        "stream"@,
        "include"@,
        "service_tier"@,
        "prompt_cache_key"@,
        "prompt_cache_retention"@,
        "text"@,
        "previous_response_id"@,
        "llmconduit_replay"@,
        "temperature"@,
        "top_p"@,
        "max_output_tokens"@,
        "frequency_penalty"@,
        "presence_penalty"@,
        "truncation"@,
        "metadata"@,
        "stop"@,
    ]
}

/// `m` with those of the first `n` other fields that no typed field is named like.
pub open spec fn with_extra(
    m: Seq<(Seq<char>, JsonView)>,
    extra: Seq<(Seq<char>, JsonView)>,
    n: int,
) -> Seq<(Seq<char>, JsonView)>
    decreases n,
{
    if n <= 0 || n > extra.len() {
        m
    } else {
        let before = with_extra(m, extra, n - 1);
        let (key, value) = extra[n - 1];
        if typed_fields().contains(key) {
            before
        } else {
            json::set_member(before, key, value)
        }
    }
}

/// What is asked of reasoning as JSON, where anything is.
pub open spec fn opt_reasoning_request_json(r: Option<ReasoningRequest>) -> Option<JsonView> {
    match r {
        Some(r) => Some(reasoning_request_json(r)),
        None => None,
    }
}

/// What is asked of reasoning as JSON, where anything is.
pub fn opt_reasoning_request(r: &Option<ReasoningRequest>) -> (v: Option<Json>)
    ensures
        json::opt_json_view(v) == opt_reasoning_request_json(*r),
{
    match r {
        Some(r) => Some(r.to_json()),
        None => None,
    }
}

impl ResponsesRequest {
    /// Whether `key` names a typed field, which owns it.
    pub fn is_typed_field_name(key: &str) -> (r: bool)
        ensures
            r == typed_fields().contains(key@),
    {
        let r = text::str_eq(key, "model")
            || text::str_eq(key, "instructions")
            || text::str_eq(key, "input")
            || text::str_eq(key, "tools")
            || text::str_eq(key, "tool_choice")
            || text::str_eq(key, "parallel_tool_calls")
            || text::str_eq(key, "reasoning")
            || text::str_eq(key, "store")
            || text::str_eq(key, "stream")
            || text::str_eq(key, "include")
            || text::str_eq(key, "service_tier")
            || text::str_eq(key, "prompt_cache_key")
            || text::str_eq(key, "prompt_cache_retention")
            || text::str_eq(key, "text")
            || text::str_eq(key, "previous_response_id")
            || text::str_eq(key, "llmconduit_replay")
            || text::str_eq(key, "temperature")
            || text::str_eq(key, "top_p")
            || text::str_eq(key, "max_output_tokens")
            || text::str_eq(key, "frequency_penalty")
            || text::str_eq(key, "presence_penalty")
            || text::str_eq(key, "truncation")
            || text::str_eq(key, "metadata")
            || text::str_eq(key, "stop");
        proof {
            let names = typed_fields();
            if r {
                assert(names[0] == "model"@);
                assert(names[1] == "instructions"@);
                assert(names[2] == "input"@);
                assert(names[3] == "tools"@);
                assert(names[4] == "tool_choice"@);
                assert(names[5] == "parallel_tool_calls"@);
                assert(names[6] == "reasoning"@);
                assert(names[7] == "store"@);
                assert(names[8] == "stream"@);
                assert(names[9] == "include"@);
                assert(names[10] == "service_tier"@);
                assert(names[11] == "prompt_cache_key"@);
                assert(names[12] == "prompt_cache_retention"@);
                assert(names[13] == "text"@);
                assert(names[14] == "previous_response_id"@);
                assert(names[15] == "llmconduit_replay"@);
                assert(names[16] == "temperature"@);
                assert(names[17] == "top_p"@);
                assert(names[18] == "max_output_tokens"@);
                assert(names[19] == "frequency_penalty"@);
                assert(names[20] == "presence_penalty"@);
                assert(names[21] == "truncation"@);
                assert(names[22] == "metadata"@);
                assert(names[23] == "stop"@);
            }
            if names.contains(key@) {
                let i = choose|i: int| 0 <= i < names.len() && names[i] == key@;
                assert(names[i] == key@);
            }
        }
        r
    }

    /// The typed fields of the request, where the output text is asked for with
    /// `controls`.
    pub open spec fn typed_members(self, controls: JsonView) -> Seq<(Seq<char>, JsonView)> {
        let m = Seq::<(Seq<char>, JsonView)>::empty();
        let m = json::put_text(m, "model"@, self.model@);
        let m = json::set_member(m, "instructions"@, instructions_json(self.instructions));
        let m = json::set_member(m, "input"@, items_json(self.input@));
        let m = json::set_member(m, "tools"@, tools_json(self.tools@));
        let m = json::set_member(m, "tool_choice"@, self.tool_choice@);
        let m = json::put_opt(m, "parallel_tool_calls"@, opt_bool_json(self.parallel_tool_calls));
        let m = json::set_member(
            m,
            "reasoning"@,
            json::or_null(opt_reasoning_request_json(self.reasoning)),
        );
        let m = json::set_member(m, "store"@, JsonView::Bool(self.store));
        let m = json::set_member(m, "stream"@, JsonView::Bool(self.stream));
        let m = json::set_member(
            m,
            "include"@,
            json::text_array(text::strings_view(self.includes@)),
        );
        let m = json::put_text_or_null(m, "service_tier"@, text::opt_view(self.service_tier));
        let m = json::put_text_or_null(
            m,
            "prompt_cache_key"@,
            text::opt_view(self.prompt_cache_key),
        );
        let m = json::put_text_or_null(
            m,
            "prompt_cache_retention"@,
            text::opt_view(self.prompt_cache_retention),
        );
        let m = json::set_member(m, "text"@, controls);
        let m = json::put_text_or_null(
            m,
            "previous_response_id"@,
            text::opt_view(self.previous_response_id),
        );
        let m = json::put_opt(m, "llmconduit_replay"@, opt_bool_json(self.llmconduit_replay));
        let m = json::put_opt(m, "temperature"@, opt_number_json(self.temperature));
        let m = json::put_opt(m, "top_p"@, opt_number_json(self.top_p));
        let m = json::put_opt(
            m,
            "max_output_tokens"@,
            opt_whole_json(opt_int(self.max_output_tokens)),
        );
        let m = json::put_opt(m, "frequency_penalty"@, opt_number_json(self.frequency_penalty));
        let m = json::put_opt(m, "presence_penalty"@, opt_number_json(self.presence_penalty));
        let m = json::set_member(
            m,
            "truncation"@,
            json::or_null(json::opt_json_view(self.truncation)),
        );
        let m = json::set_member(m, "metadata"@, json::or_null(opt_object_json(self.metadata)));
        let m = json::put_opt(m, "stop"@, opt_texts_json(self.stop));
        m
    }

    /// The request as JSON: the typed fields, and every other field that is not named
    /// like one. It is refused where its text format is.
    pub open spec fn json(self) -> Result<JsonView, Seq<char>> {
        match self.text {
            Some(text) => match text_controls_json(text) {
                Ok(v) => Ok(self.json_with(v)),
                Err(e) => Err(e),
            },
            None => Ok(self.json_with(JsonView::Null)),
        }
    }

    /// The request as JSON, where the output text is asked for with `controls`.
    pub open spec fn json_with(self, controls: JsonView) -> JsonView {
        JsonView::Object(
            with_extra(
                self.typed_members(controls),
                self.extra_body@,
                self.extra_body@.len() as int,
            ),
        )
    }

    fn typed_map(&self, controls: Json) -> (r: JsonMap)
        ensures
            r@ == self.typed_members(controls@),
    {
        let mut m = JsonMap::new();
        m.put_text("model", self.model.as_str());
        m.put("instructions", self.instructions.to_json());
        m.put("input", items_to_json(&self.input));
        m.put("tools", tools_to_json(&self.tools));
        m.put("tool_choice", self.tool_choice.copy());
        m.put_opt("parallel_tool_calls", opt_bool(self.parallel_tool_calls));
        m.put("reasoning", Json::or_null(opt_reasoning_request(&self.reasoning)));
        m.put("store", Json::Bool(self.store));
        m.put("stream", Json::Bool(self.stream));
        m.put("include", Json::texts(&self.includes));
        m.put_text_or_null("service_tier", &self.service_tier);
        m.put_text_or_null("prompt_cache_key", &self.prompt_cache_key);
        m.put_text_or_null("prompt_cache_retention", &self.prompt_cache_retention);
        m.put("text", controls);
        m.put_text_or_null("previous_response_id", &self.previous_response_id);
        m.put_opt("llmconduit_replay", opt_bool(self.llmconduit_replay));
        m.put_opt("temperature", opt_number(&self.temperature));
        m.put_opt("top_p", opt_number(&self.top_p));
        m.put_opt("max_output_tokens", opt_signed(self.max_output_tokens));
        m.put_opt("frequency_penalty", opt_number(&self.frequency_penalty));
        m.put_opt("presence_penalty", opt_number(&self.presence_penalty));
        m.put("truncation", Json::or_null(json::copy_opt(&self.truncation)));
        m.put("metadata", Json::or_null(opt_object(&self.metadata)));
        m.put_opt("stop", opt_texts(&self.stop));
        m
    }

    /// The request as JSON.
    pub fn to_json(&self) -> (r: Result<Json, String>)
        ensures
            json_result(r) == self.json(),
    {
        let controls = match &self.text {
            Some(text) => match text.to_json() {
                Ok(v) => v,
                Err(e) => {
                    return Err(e);
                },
            },
            None => Json::Null,
        };
        let ghost asked = controls@;
        let mut m = self.typed_map(controls);
        let extra = &self.extra_body.entries;
        let mut i: usize = 0;
        while i < extra.len()
            invariant
                extra == self.extra_body.entries,
                i <= extra@.len(),
                m@ == with_extra(self.typed_members(asked), self.extra_body@, i as int),
            decreases extra@.len() - i,
        {
            let key = extra[i].0.as_str();
            assert(self.extra_body@[i as int] == (key@, extra@[i as int].1@));
            if !Self::is_typed_field_name(key) {
                m.put(key, extra[i].1.copy());
            }
            i += 1;
        }
        Ok(m.into_json())
    }
}

proof fn lemma_extra_keeps_typed(
    m: Seq<(Seq<char>, JsonView)>,
    extra: Seq<(Seq<char>, JsonView)>,
    n: int,
    key: Seq<char>,
)
    requires
        typed_fields().contains(key),
        0 <= n <= extra.len(),
    ensures
        json::member(with_extra(m, extra, n), key) == json::member(m, key),
    decreases n,
{
    if n > 0 {
        lemma_extra_keeps_typed(m, extra, n - 1, key);
        let (k, v) = extra[n - 1];
        if !typed_fields().contains(k) {
            json::law_set_member_keeps_others(with_extra(m, extra, n - 1), k, v, key);
        }
    }
}

proof fn lemma_extra_is_there(
    m: Seq<(Seq<char>, JsonView)>,
    extra: Seq<(Seq<char>, JsonView)>,
    n: int,
    i: int,
)
    requires
        0 <= i < n <= extra.len(),
        !typed_fields().contains(extra[i].0),
        json::keys_ascend(extra),
    ensures
        json::member(with_extra(m, extra, n), extra[i].0) == Some(extra[i].1),
    decreases n,
{
    let (k, v) = extra[n - 1];
    let before = with_extra(m, extra, n - 1);
    if i == n - 1 {
        json::law_set_member_is_there(before, k, v);
    } else {
        lemma_extra_is_there(m, extra, n - 1, i);
        assert(text::before(extra[i].0, extra[n - 1].0));
        text::lemma_before_irreflexive(k, 0);
        if !typed_fields().contains(k) {
            json::law_set_member_keeps_others(before, k, v, extra[i].0);
        }
    }
}

proof fn lemma_extra_keeps_order(
    m: Seq<(Seq<char>, JsonView)>,
    extra: Seq<(Seq<char>, JsonView)>,
    n: int,
)
    requires
        json::keys_ascend(m),
    ensures
        json::keys_ascend(with_extra(m, extra, n)),
    decreases n,
{
    if 0 < n <= extra.len() {
        lemma_extra_keeps_order(m, extra, n - 1);
        let (k, v) = extra[n - 1];
        json::law_keys_stay_ascending(with_extra(m, extra, n - 1), k, v);
    }
}

proof fn lemma_typed_members_ascend(request: ResponsesRequest, controls: JsonView)
    ensures
        json::keys_ascend(request.typed_members(controls)),
{
    let m = Seq::<(Seq<char>, JsonView)>::empty();
    json::law_keys_stay_ascending(m, "model"@, JsonView::Text(request.model@));
    let m = json::put_text(m, "model"@, request.model@);
    json::law_keys_stay_ascending(m, "instructions"@, instructions_json(request.instructions));
    let m = json::set_member(m, "instructions"@, instructions_json(request.instructions));
    json::law_keys_stay_ascending(m, "input"@, items_json(request.input@));
    let m = json::set_member(m, "input"@, items_json(request.input@));
    json::law_keys_stay_ascending(m, "tools"@, tools_json(request.tools@));
    let m = json::set_member(m, "tools"@, tools_json(request.tools@));
    json::law_keys_stay_ascending(m, "tool_choice"@, request.tool_choice@);
    let m = json::set_member(m, "tool_choice"@, request.tool_choice@);
    json::law_keys_stay_ascending(
        m,
        "parallel_tool_calls"@,
        json::or_null(opt_bool_json(request.parallel_tool_calls)),
    );
    let m = json::put_opt(m, "parallel_tool_calls"@, opt_bool_json(request.parallel_tool_calls));
    json::law_keys_stay_ascending(
        m,
        "reasoning"@,
        json::or_null(opt_reasoning_request_json(request.reasoning)),
    );
    let m = json::set_member(
        m,
        "reasoning"@,
        json::or_null(opt_reasoning_request_json(request.reasoning)),
    );
    json::law_keys_stay_ascending(m, "store"@, JsonView::Bool(request.store));
    let m = json::set_member(m, "store"@, JsonView::Bool(request.store));
    json::law_keys_stay_ascending(m, "stream"@, JsonView::Bool(request.stream));
    let m = json::set_member(m, "stream"@, JsonView::Bool(request.stream));
    json::law_keys_stay_ascending(
        m,
        "include"@,
        json::text_array(text::strings_view(request.includes@)),
    );
    let m = json::set_member(
        m,
        "include"@,
        json::text_array(text::strings_view(request.includes@)),
    );
    json::law_keys_stay_ascending(
        m,
        "service_tier"@,
        json::text_or_null(text::opt_view(request.service_tier)),
    );
    let m = json::put_text_or_null(m, "service_tier"@, text::opt_view(request.service_tier));
    json::law_keys_stay_ascending(
        m,
        "prompt_cache_key"@,
        json::text_or_null(text::opt_view(request.prompt_cache_key)),
    );
    let m = json::put_text_or_null(
        m,
        "prompt_cache_key"@,
        text::opt_view(request.prompt_cache_key),
    );
    json::law_keys_stay_ascending(
        m,
        "prompt_cache_retention"@,
        json::text_or_null(text::opt_view(request.prompt_cache_retention)),
    );
    let m = json::put_text_or_null(
        m,
        "prompt_cache_retention"@,
        text::opt_view(request.prompt_cache_retention),
    );
    json::law_keys_stay_ascending(m, "text"@, controls);
    let m = json::set_member(m, "text"@, controls);
    json::law_keys_stay_ascending(
        m,
        "previous_response_id"@,
        json::text_or_null(text::opt_view(request.previous_response_id)),
    );
    let m = json::put_text_or_null(
        m,
        "previous_response_id"@,
        text::opt_view(request.previous_response_id),
    );
    json::law_keys_stay_ascending(
        m,
        "llmconduit_replay"@,
        json::or_null(opt_bool_json(request.llmconduit_replay)),
    );
    let m = json::put_opt(m, "llmconduit_replay"@, opt_bool_json(request.llmconduit_replay));
    json::law_keys_stay_ascending(
        m,
        "temperature"@,
        json::or_null(opt_number_json(request.temperature)),
    );
    let m = json::put_opt(m, "temperature"@, opt_number_json(request.temperature));
    json::law_keys_stay_ascending(m, "top_p"@, json::or_null(opt_number_json(request.top_p)));
    let m = json::put_opt(m, "top_p"@, opt_number_json(request.top_p));
    json::law_keys_stay_ascending(
        m,
        "max_output_tokens"@,
        json::or_null(opt_whole_json(opt_int(request.max_output_tokens))),
    );
    let m = json::put_opt(
        m,
        "max_output_tokens"@,
        opt_whole_json(opt_int(request.max_output_tokens)),
    );
    json::law_keys_stay_ascending(
        m,
        "frequency_penalty"@,
        json::or_null(opt_number_json(request.frequency_penalty)),
    );
    let m = json::put_opt(m, "frequency_penalty"@, opt_number_json(request.frequency_penalty));
    json::law_keys_stay_ascending(
        m,
        "presence_penalty"@,
        json::or_null(opt_number_json(request.presence_penalty)),
    );
    let m = json::put_opt(m, "presence_penalty"@, opt_number_json(request.presence_penalty));
    json::law_keys_stay_ascending(
        m,
        "truncation"@,
        json::or_null(json::opt_json_view(request.truncation)),
    );
    let m = json::set_member(
        m,
        "truncation"@,
        json::or_null(json::opt_json_view(request.truncation)),
    );
    json::law_keys_stay_ascending(m, "metadata"@, json::or_null(opt_object_json(request.metadata)));
    let m = json::set_member(m, "metadata"@, json::or_null(opt_object_json(request.metadata)));
    json::law_keys_stay_ascending(m, "stop"@, json::or_null(opt_texts_json(request.stop)));
    let m = json::put_opt(m, "stop"@, opt_texts_json(request.stop));
    assert(m == request.typed_members(controls));
}

/// The other fields of a request never take the place of a typed one.
pub proof fn law_typed_fields_win(request: ResponsesRequest, controls: JsonView, key: Seq<char>)
    requires
        typed_fields().contains(key),
    ensures
        request.json_with(controls) matches JsonView::Object(m) && json::member(m, key)
            == json::member(request.typed_members(controls), key),
{
    lemma_extra_keeps_typed(
        request.typed_members(controls),
        request.extra_body@,
        request.extra_body@.len() as int,
        key,
    );
}

/// Every other field that is not named like a typed one is on the wire.
pub proof fn law_other_fields_are_forwarded(request: ResponsesRequest, controls: JsonView, i: int)
    requires
        0 <= i < request.extra_body@.len(),
        json::keys_ascend(request.extra_body@),
        !typed_fields().contains(request.extra_body@[i].0),
    ensures
        request.json_with(controls) matches JsonView::Object(m) && json::member(
            m,
            request.extra_body@[i].0,
        ) == Some(request.extra_body@[i].1),
{
    lemma_extra_is_there(
        request.typed_members(controls),
        request.extra_body@,
        request.extra_body@.len() as int,
        i,
    );
}

/// A request on the wire has no key twice.
pub proof fn law_request_keys_are_distinct(request: ResponsesRequest, controls: JsonView)
    ensures
        request.json_with(controls) matches JsonView::Object(m) && json::keys_ascend(m),
{
    lemma_typed_members_ascend(request, controls);
    lemma_extra_keeps_order(
        request.typed_members(controls),
        request.extra_body@,
        request.extra_body@.len() as int,
    );
}

} // verus!
