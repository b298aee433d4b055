//! A request that is written as JSON and read again is the same.
use vstd::prelude::*;

use crate::json;
use crate::json::JsonNumber;
use crate::json::JsonView;
use crate::models::chat;
use crate::models::read;
use crate::models::read_request;
use crate::models::responses::CustomToolFormat;
use crate::models::responses::NamespaceToolSpec;
use crate::models::responses::ReasoningRequest;
use crate::models::responses::ResponseInstructions;
use crate::models::responses::ResponseItem;
use crate::models::responses::ResponsesRequest;
use crate::models::responses::TextControls;
use crate::models::responses::TextFormat;
use crate::models::responses::ToolSpec;
use crate::models::round_trip;
use crate::models::shorthand;
use crate::models::wire;
use crate::text;

verus! {

// --- Tools -------------------------------------------------------------------------------------

/// A value that is there is not `null`.
pub open spec fn is_not_null(v: Option<JsonView>) -> bool {
    v != Some(JsonView::Null)
}

/// A tool that JSON can hold as it is: what is asked of a web search is not `null`.
pub open spec fn is_plain_tool(tool: ToolSpec) -> bool {
    match tool {
        ToolSpec::WebSearch { filters, user_location, .. } => is_not_null(
            json::opt_json_view(filters),
        ) && is_not_null(json::opt_json_view(user_location)),
        _ => true,
    }
}

/// All tools are plain.
pub open spec fn are_plain_tools(tools: Seq<ToolSpec>) -> bool {
    forall|i: int| 0 <= i < tools.len() ==> is_plain_tool(#[trigger] tools[i])
}

proof fn lemma_namespace_tool(tool: NamespaceToolSpec)
    ensures
        read_request::namespace_tool_part_from(wire::namespace_tool_json(tool)) == Some(tool@),
{
    broadcast use json::lemma_member_of_set;

    reveal_strlit("type");
    reveal_strlit("name");
    reveal_strlit("description");
    reveal_strlit("strict");
    reveal_strlit("parameters");
    reveal_strlit("function");
    assert("type"@.len() == 4);
    assert("name"@.len() == 4);
    assert("description"@.len() == 11);
    assert("strict"@.len() == 6);
    assert("parameters"@.len() == 10);
    assert("function"@.len() == 8);
    assert("type"@[0] != "name"@[0]);
    let NamespaceToolSpec::Function { description, .. } = tool;
    assert(description@.len() == 0 ==> description@ =~= seq![]);
}

proof fn lemma_namespace_tools(tools: Seq<NamespaceToolSpec>)
    ensures
        wire::namespace_tools_json(tools) matches JsonView::Array(items)
            && read_request::each_namespace_tool_from(items) == Some(
            read_request::namespace_tools_view(tools),
        ),
{
    let items = tools.map_values(|item: NamespaceToolSpec| wire::namespace_tool_json(item));
    assert forall|i: int|
        0 <= i < items.len() implies read_request::namespace_tool_part_from(#[trigger] items[i]) == Some(
        tools[i]@,
    ) by {
        lemma_namespace_tool(tools[i]);
    }
    assert(read_request::each_namespace_tool_from(items)->0 =~= read_request::namespace_tools_view(
        tools,
    ));
}

proof fn lemma_format(format: CustomToolFormat)
    ensures
        read_request::format_part_from(wire::tool_format_json(format)) == Some(format@),
{
    broadcast use json::lemma_member_of_set;

    reveal_strlit("type");
    reveal_strlit("syntax");
    reveal_strlit("definition");
    reveal_strlit("text");
    reveal_strlit("grammar");
    assert("type"@.len() == 4);
    assert("syntax"@.len() == 6);
    assert("definition"@.len() == 10);
    assert("text"@.len() == 4);
    assert("grammar"@.len() == 7);
    assert("type"@[1] != "text"@[1]);
}

proof fn lemma_tool_types()
    ensures

        "function"@.len() == 8,
        "namespace"@.len() == 9,
        "tool_search"@.len() == 11,
        "local_shell"@.len() == 11,
        "web_search"@.len() == 10,
        "custom"@.len() == 6,
        "image_generation"@.len() == 16,
        "tool_search"@[0] != "local_shell"@[0],
{
    reveal_strlit("function");
    reveal_strlit("namespace");
    reveal_strlit("tool_search");
    reveal_strlit("local_shell");
    reveal_strlit("web_search");
    reveal_strlit("custom");
    reveal_strlit("image_generation");
    assert("function"@.len() == 8);
    assert("namespace"@.len() == 9);
    assert("tool_search"@.len() == 11);
    assert("local_shell"@.len() == 11);
    assert("web_search"@.len() == 10);
    assert("custom"@.len() == 6);
    assert("image_generation"@.len() == 16);
    assert("tool_search"@[0] != "local_shell"@[0]);
}

proof fn lemma_tool_function(tool: ToolSpec)
    requires
        tool is Function,
        is_plain_tool(tool),
    ensures
        read_request::tool_from(wire::tool_json(tool)) == Some(tool@),
{
    broadcast use json::lemma_member_of_set;

    lemma_tool_types();
    reveal_strlit("type");
    reveal_strlit("name");
    reveal_strlit("description");
    reveal_strlit("strict");
    reveal_strlit("parameters");
    assert("type"@.len() == 4);
    assert("name"@.len() == 4);
    assert("description"@.len() == 11);
    assert("strict"@.len() == 6);
    assert("parameters"@.len() == 10);
    assert("type"@[0] != "name"@[0]);
    if let ToolSpec::Function { description, .. } = tool {
        assert(description@.len() == 0 ==> description@ =~= seq![]);
    }
}

proof fn lemma_tool_namespace(tool: ToolSpec)
    requires
        tool is Namespace,
        is_plain_tool(tool),
    ensures
        read_request::tool_from(wire::tool_json(tool)) == Some(tool@),
{
    broadcast use json::lemma_member_of_set;

    lemma_tool_types();
    reveal_strlit("type");
    reveal_strlit("name");
    reveal_strlit("description");
    reveal_strlit("tools");
    assert("type"@.len() == 4);
    assert("name"@.len() == 4);
    assert("description"@.len() == 11);
    assert("tools"@.len() == 5);
    assert("type"@[0] != "name"@[0]);
    if let ToolSpec::Namespace { tools, .. } = tool {
        lemma_namespace_tools(tools@);
    }
}

proof fn lemma_tool_tool_search(tool: ToolSpec)
    requires
        tool is ToolSearch,
        is_plain_tool(tool),
    ensures
        read_request::tool_from(wire::tool_json(tool)) == Some(tool@),
{
    broadcast use json::lemma_member_of_set;

    lemma_tool_types();
    reveal_strlit("type");
    reveal_strlit("execution");
    reveal_strlit("description");
    reveal_strlit("parameters");
    assert("type"@.len() == 4);
    assert("execution"@.len() == 9);
    assert("description"@.len() == 11);
    assert("parameters"@.len() == 10);
}

proof fn lemma_tool_local_shell(tool: ToolSpec)
    requires
        tool is LocalShell,
        is_plain_tool(tool),
    ensures
        read_request::tool_from(wire::tool_json(tool)) == Some(tool@),
{
    broadcast use json::lemma_member_of_set;

    lemma_tool_types();
    reveal_strlit("type");
    assert("type"@.len() == 4);
}

proof fn lemma_tool_web_search(tool: ToolSpec)
    requires
        tool is WebSearch,
        is_plain_tool(tool),
    ensures
        read_request::tool_from(wire::tool_json(tool)) == Some(tool@),
{
    broadcast use json::lemma_member_of_set;

    lemma_tool_types();
    reveal_strlit("type");
    reveal_strlit("external_web_access");
    reveal_strlit("filters");
    reveal_strlit("user_location");
    reveal_strlit("search_context_size");
    reveal_strlit("search_content_types");
    assert("type"@.len() == 4);
    assert("external_web_access"@.len() == 19);
    assert("filters"@.len() == 7);
    assert("user_location"@.len() == 13);
    assert("search_context_size"@.len() == 19);
    assert("search_content_types"@.len() == 20);
    assert("external_web_access"@[0] != "search_context_size"@[0]);
    if let ToolSpec::WebSearch { search_content_types: Some(types), .. } = tool {
        lemma_texts(text::strings_view(types@));
    }
}

proof fn lemma_tool_custom(tool: ToolSpec)
    requires
        tool is Custom,
        is_plain_tool(tool),
    ensures
        read_request::tool_from(wire::tool_json(tool)) == Some(tool@),
{
    broadcast use json::lemma_member_of_set;

    lemma_tool_types();
    reveal_strlit("type");
    reveal_strlit("name");
    reveal_strlit("description");
    reveal_strlit("format");
    assert("type"@.len() == 4);
    assert("name"@.len() == 4);
    assert("description"@.len() == 11);
    assert("format"@.len() == 6);
    assert("type"@[0] != "name"@[0]);
    if let ToolSpec::Custom { description, format, .. } = tool {
        assert(description@.len() == 0 ==> description@ =~= seq![]);
        lemma_format(format);
    }
}

proof fn lemma_tool_image_generation(tool: ToolSpec)
    requires
        tool is ImageGeneration,
        is_plain_tool(tool),
    ensures
        read_request::tool_from(wire::tool_json(tool)) == Some(tool@),
{
    broadcast use json::lemma_member_of_set;

    lemma_tool_types();
    reveal_strlit("type");
    reveal_strlit("output_format");
    assert("type"@.len() == 4);
    assert("output_format"@.len() == 13);
}

proof fn lemma_texts(texts: Seq<Seq<char>>)
    ensures
        json::text_array(texts) matches JsonView::Array(items) && read::texts_of(items) == Some(
            texts,
        ) && chat::all_texts(items) == Some(texts),
{
    let items = texts.map_values(|t: Seq<char>| JsonView::Text(t));
    assert(read::texts_of(items)->0 =~= texts);
    assert(chat::all_texts(items)->0 =~= texts);
}

/// A tool that is written and read again is the same.
pub proof fn law_tool_round_trip(tool: ToolSpec)
    requires
        is_plain_tool(tool),
    ensures
        read_request::tool_from(wire::tool_json(tool)) == Some(tool@),
{
    match tool {
        ToolSpec::Function { .. } => {
            lemma_tool_function(tool);
        },
        ToolSpec::Namespace { .. } => {
            lemma_tool_namespace(tool);
        },
        ToolSpec::ToolSearch { .. } => {
            lemma_tool_tool_search(tool);
        },
        ToolSpec::LocalShell { .. } => {
            lemma_tool_local_shell(tool);
        },
        ToolSpec::WebSearch { .. } => {
            lemma_tool_web_search(tool);
        },
        ToolSpec::Custom { .. } => {
            lemma_tool_custom(tool);
        },
        ToolSpec::ImageGeneration { .. } => {
            lemma_tool_image_generation(tool);
        },
    }
}

proof fn lemma_tools(tools: Seq<ToolSpec>)
    requires
        are_plain_tools(tools),
    ensures
        wire::tools_json(tools) matches JsonView::Array(items) && read_request::each_tool_from(
            items,
        ) == Some(read_request::tools_view(tools)),
{
    let items = tools.map_values(|item: ToolSpec| wire::tool_json(item));
    assert forall|i: int| 0 <= i < items.len() implies read_request::tool_from(#[trigger] items[i])
        == Some(tools[i]@) by {
        law_tool_round_trip(tools[i]);
    }
    assert(read_request::each_tool_from(items)->0 =~= read_request::tools_view(tools));
}

// --- Items -------------------------------------------------------------------------------------

proof fn lemma_item_reference_is_normal(item: ResponseItem, rendered: Option<Seq<char>>)
    requires
        item is ItemReference,
    ensures
        shorthand::normalized_item(wire::item_json(item), rendered) == wire::item_json(item),
{
    broadcast use json::lemma_member_of_set;

    reveal_strlit("type");
    reveal_strlit("id");
    reveal_strlit("role");
    reveal_strlit("content");
    reveal_strlit("call_id");
    reveal_strlit("tool_call_id");
    assert("type"@.len() == 4);
    assert("id"@.len() == 2);
    assert("role"@.len() == 4);
    assert("content"@.len() == 7);
    assert("call_id"@.len() == 7);
    assert("tool_call_id"@.len() == 12);
    assert("type"@[0] != "role"@[0]);
    assert("content"@[1] != "call_id"@[1]);
}

proof fn lemma_message_is_normal(item: ResponseItem, rendered: Option<Seq<char>>)
    requires
        item is Message,
    ensures
        shorthand::normalized_item(wire::item_json(item), rendered) == wire::item_json(item),
{
    broadcast use json::lemma_member_of_set;

    reveal_strlit("type");
    reveal_strlit("id");
    reveal_strlit("role");
    reveal_strlit("content");
    reveal_strlit("phase");
    reveal_strlit("call_id");
    reveal_strlit("tool_call_id");
    assert("type"@.len() == 4);
    assert("id"@.len() == 2);
    assert("role"@.len() == 4);
    assert("content"@.len() == 7);
    assert("phase"@.len() == 5);
    assert("call_id"@.len() == 7);
    assert("tool_call_id"@.len() == 12);
    assert("type"@[0] != "role"@[0]);
    assert("content"@[1] != "call_id"@[1]);
}

proof fn lemma_agent_message_is_normal(item: ResponseItem, rendered: Option<Seq<char>>)
    requires
        item is AgentMessage,
    ensures
        shorthand::normalized_item(wire::item_json(item), rendered) == wire::item_json(item),
{
    broadcast use json::lemma_member_of_set;

    reveal_strlit("type");
    reveal_strlit("id");
    reveal_strlit("content");
    reveal_strlit("role");
    reveal_strlit("call_id");
    reveal_strlit("tool_call_id");
    assert("type"@.len() == 4);
    assert("id"@.len() == 2);
    assert("content"@.len() == 7);
    assert("role"@.len() == 4);
    assert("call_id"@.len() == 7);
    assert("tool_call_id"@.len() == 12);
    assert("type"@[0] != "role"@[0]);
    assert("content"@[1] != "call_id"@[1]);
}

proof fn lemma_reasoning_is_normal(item: ResponseItem, rendered: Option<Seq<char>>)
    requires
        item is Reasoning,
    ensures
        shorthand::normalized_item(wire::item_json(item), rendered) == wire::item_json(item),
{
    broadcast use json::lemma_member_of_set;

    reveal_strlit("type");
    reveal_strlit("id");
    reveal_strlit("summary");
    reveal_strlit("content");
    reveal_strlit("encrypted_content");
    reveal_strlit("role");
    reveal_strlit("call_id");
    reveal_strlit("tool_call_id");
    assert("type"@.len() == 4);
    assert("id"@.len() == 2);
    assert("summary"@.len() == 7);
    assert("content"@.len() == 7);
    assert("encrypted_content"@.len() == 17);
    assert("role"@.len() == 4);
    assert("call_id"@.len() == 7);
    assert("tool_call_id"@.len() == 12);
    assert("type"@[0] != "role"@[0]);
    assert("summary"@[0] != "content"@[0]);
    assert("summary"@[0] != "call_id"@[0]);
    assert("content"@[1] != "call_id"@[1]);
}

proof fn lemma_function_call_is_normal(item: ResponseItem, rendered: Option<Seq<char>>)
    requires
        item is FunctionCall,
    ensures
        shorthand::normalized_item(wire::item_json(item), rendered) == wire::item_json(item),
{
    broadcast use json::lemma_member_of_set;

    reveal_strlit("type");
    reveal_strlit("id");
    reveal_strlit("name");
    reveal_strlit("namespace");
    reveal_strlit("arguments");
    reveal_strlit("call_id");
    reveal_strlit("role");
    reveal_strlit("content");
    reveal_strlit("tool_call_id");
    assert("type"@.len() == 4);
    assert("id"@.len() == 2);
    assert("name"@.len() == 4);
    assert("namespace"@.len() == 9);
    assert("arguments"@.len() == 9);
    assert("call_id"@.len() == 7);
    assert("role"@.len() == 4);
    assert("content"@.len() == 7);
    assert("tool_call_id"@.len() == 12);
    assert("type"@[0] != "name"@[0]);
    assert("type"@[0] != "role"@[0]);
    assert("name"@[0] != "role"@[0]);
    assert("namespace"@[0] != "arguments"@[0]);
    assert("call_id"@[1] != "content"@[1]);
}

proof fn lemma_function_call_output_is_normal(item: ResponseItem, rendered: Option<Seq<char>>)
    requires
        item is FunctionCallOutput,
    ensures
        shorthand::normalized_item(wire::item_json(item), rendered) == wire::item_json(item),
{
    broadcast use json::lemma_member_of_set;

    reveal_strlit("type");
    reveal_strlit("call_id");
    reveal_strlit("output");
    reveal_strlit("role");
    reveal_strlit("content");
    reveal_strlit("tool_call_id");
    assert("type"@.len() == 4);
    assert("call_id"@.len() == 7);
    assert("output"@.len() == 6);
    assert("role"@.len() == 4);
    assert("content"@.len() == 7);
    assert("tool_call_id"@.len() == 12);
    assert("type"@[0] != "role"@[0]);
    assert("call_id"@[1] != "content"@[1]);
}

proof fn lemma_custom_tool_call_is_normal(item: ResponseItem, rendered: Option<Seq<char>>)
    requires
        item is CustomToolCall,
    ensures
        shorthand::normalized_item(wire::item_json(item), rendered) == wire::item_json(item),
{
    broadcast use json::lemma_member_of_set;

    reveal_strlit("type");
    reveal_strlit("id");
    reveal_strlit("status");
    reveal_strlit("call_id");
    reveal_strlit("name");
    reveal_strlit("input");
    reveal_strlit("role");
    reveal_strlit("content");
    reveal_strlit("tool_call_id");
    assert("type"@.len() == 4);
    assert("id"@.len() == 2);
    assert("status"@.len() == 6);
    assert("call_id"@.len() == 7);
    assert("name"@.len() == 4);
    assert("input"@.len() == 5);
    assert("role"@.len() == 4);
    assert("content"@.len() == 7);
    assert("tool_call_id"@.len() == 12);
    assert("type"@[0] != "name"@[0]);
    assert("type"@[0] != "role"@[0]);
    assert("call_id"@[1] != "content"@[1]);
    assert("name"@[0] != "role"@[0]);
}

proof fn lemma_custom_tool_call_output_is_normal(item: ResponseItem, rendered: Option<Seq<char>>)
    requires
        item is CustomToolCallOutput,
    ensures
        shorthand::normalized_item(wire::item_json(item), rendered) == wire::item_json(item),
{
    broadcast use json::lemma_member_of_set;

    reveal_strlit("type");
    reveal_strlit("call_id");
    reveal_strlit("name");
    reveal_strlit("output");
    reveal_strlit("role");
    reveal_strlit("content");
    reveal_strlit("tool_call_id");
    assert("type"@.len() == 4);
    assert("call_id"@.len() == 7);
    assert("name"@.len() == 4);
    assert("output"@.len() == 6);
    assert("role"@.len() == 4);
    assert("content"@.len() == 7);
    assert("tool_call_id"@.len() == 12);
    assert("type"@[0] != "name"@[0]);
    assert("type"@[0] != "role"@[0]);
    assert("call_id"@[1] != "content"@[1]);
    assert("name"@[0] != "role"@[0]);
}

proof fn lemma_tool_search_call_is_normal(item: ResponseItem, rendered: Option<Seq<char>>)
    requires
        item is ToolSearchCall,
    ensures
        shorthand::normalized_item(wire::item_json(item), rendered) == wire::item_json(item),
{
    broadcast use json::lemma_member_of_set;

    reveal_strlit("type");
    reveal_strlit("id");
    reveal_strlit("call_id");
    reveal_strlit("status");
    reveal_strlit("execution");
    reveal_strlit("arguments");
    reveal_strlit("role");
    reveal_strlit("content");
    reveal_strlit("tool_call_id");
    assert("type"@.len() == 4);
    assert("id"@.len() == 2);
    assert("call_id"@.len() == 7);
    assert("status"@.len() == 6);
    assert("execution"@.len() == 9);
    assert("arguments"@.len() == 9);
    assert("role"@.len() == 4);
    assert("content"@.len() == 7);
    assert("tool_call_id"@.len() == 12);
    assert("type"@[0] != "role"@[0]);
    assert("call_id"@[1] != "content"@[1]);
    assert("execution"@[0] != "arguments"@[0]);
}

proof fn lemma_tool_search_output_is_normal(item: ResponseItem, rendered: Option<Seq<char>>)
    requires
        item is ToolSearchOutput,
    ensures
        shorthand::normalized_item(wire::item_json(item), rendered) == wire::item_json(item),
{
    broadcast use json::lemma_member_of_set;

    reveal_strlit("type");
    reveal_strlit("call_id");
    reveal_strlit("status");
    reveal_strlit("execution");
    reveal_strlit("tools");
    reveal_strlit("role");
    reveal_strlit("content");
    reveal_strlit("tool_call_id");
    assert("type"@.len() == 4);
    assert("call_id"@.len() == 7);
    assert("status"@.len() == 6);
    assert("execution"@.len() == 9);
    assert("tools"@.len() == 5);
    assert("role"@.len() == 4);
    assert("content"@.len() == 7);
    assert("tool_call_id"@.len() == 12);
    assert("type"@[0] != "role"@[0]);
    assert("call_id"@[1] != "content"@[1]);
}

proof fn lemma_local_shell_call_is_normal(item: ResponseItem, rendered: Option<Seq<char>>)
    requires
        item is LocalShellCall,
    ensures
        shorthand::normalized_item(wire::item_json(item), rendered) == wire::item_json(item),
{
    broadcast use json::lemma_member_of_set;

    reveal_strlit("type");
    reveal_strlit("id");
    reveal_strlit("call_id");
    reveal_strlit("status");
    reveal_strlit("action");
    reveal_strlit("role");
    reveal_strlit("content");
    reveal_strlit("tool_call_id");
    assert("type"@.len() == 4);
    assert("id"@.len() == 2);
    assert("call_id"@.len() == 7);
    assert("status"@.len() == 6);
    assert("action"@.len() == 6);
    assert("role"@.len() == 4);
    assert("content"@.len() == 7);
    assert("tool_call_id"@.len() == 12);
    assert("type"@[0] != "role"@[0]);
    assert("call_id"@[1] != "content"@[1]);
    assert("status"@[0] != "action"@[0]);
}

proof fn lemma_web_search_call_is_normal(item: ResponseItem, rendered: Option<Seq<char>>)
    requires
        item is WebSearchCall,
    ensures
        shorthand::normalized_item(wire::item_json(item), rendered) == wire::item_json(item),
{
    broadcast use json::lemma_member_of_set;

    reveal_strlit("type");
    reveal_strlit("id");
    reveal_strlit("status");
    reveal_strlit("action");
    reveal_strlit("role");
    reveal_strlit("content");
    reveal_strlit("call_id");
    reveal_strlit("tool_call_id");
    assert("type"@.len() == 4);
    assert("id"@.len() == 2);
    assert("status"@.len() == 6);
    assert("action"@.len() == 6);
    assert("role"@.len() == 4);
    assert("content"@.len() == 7);
    assert("call_id"@.len() == 7);
    assert("tool_call_id"@.len() == 12);
    assert("type"@[0] != "role"@[0]);
    assert("status"@[0] != "action"@[0]);
    assert("content"@[1] != "call_id"@[1]);
}

proof fn lemma_image_generation_call_is_normal(item: ResponseItem, rendered: Option<Seq<char>>)
    requires
        item is ImageGenerationCall,
    ensures
        shorthand::normalized_item(wire::item_json(item), rendered) == wire::item_json(item),
{
    broadcast use json::lemma_member_of_set;

    reveal_strlit("type");
    reveal_strlit("id");
    reveal_strlit("status");
    reveal_strlit("revised_prompt");
    reveal_strlit("result");
    reveal_strlit("role");
    reveal_strlit("content");
    reveal_strlit("call_id");
    reveal_strlit("tool_call_id");
    assert("type"@.len() == 4);
    assert("id"@.len() == 2);
    assert("status"@.len() == 6);
    assert("revised_prompt"@.len() == 14);
    assert("result"@.len() == 6);
    assert("role"@.len() == 4);
    assert("content"@.len() == 7);
    assert("call_id"@.len() == 7);
    assert("tool_call_id"@.len() == 12);
    assert("type"@[0] != "role"@[0]);
    assert("status"@[0] != "result"@[0]);
    assert("content"@[1] != "call_id"@[1]);
}

/// An item as it is written is in its one form already.
pub proof fn law_written_item_is_normal(item: ResponseItem, rendered: Option<Seq<char>>)
    ensures
        shorthand::normalized_item(wire::item_json(item), rendered) == wire::item_json(item),
{
    match item {
        ResponseItem::ItemReference { .. } => {
            lemma_item_reference_is_normal(item, rendered);
        },
        ResponseItem::Message { .. } => {
            lemma_message_is_normal(item, rendered);
        },
        ResponseItem::AgentMessage { .. } => {
            lemma_agent_message_is_normal(item, rendered);
        },
        ResponseItem::Reasoning { .. } => {
            lemma_reasoning_is_normal(item, rendered);
        },
        ResponseItem::FunctionCall { .. } => {
            lemma_function_call_is_normal(item, rendered);
        },
        ResponseItem::FunctionCallOutput { .. } => {
            lemma_function_call_output_is_normal(item, rendered);
        },
        ResponseItem::CustomToolCall { .. } => {
            lemma_custom_tool_call_is_normal(item, rendered);
        },
        ResponseItem::CustomToolCallOutput { .. } => {
            lemma_custom_tool_call_output_is_normal(item, rendered);
        },
        ResponseItem::ToolSearchCall { .. } => {
            lemma_tool_search_call_is_normal(item, rendered);
        },
        ResponseItem::ToolSearchOutput { .. } => {
            lemma_tool_search_output_is_normal(item, rendered);
        },
        ResponseItem::LocalShellCall { .. } => {
            lemma_local_shell_call_is_normal(item, rendered);
        },
        ResponseItem::WebSearchCall { .. } => {
            lemma_web_search_call_is_normal(item, rendered);
        },
        ResponseItem::ImageGenerationCall { .. } => {
            lemma_image_generation_call_is_normal(item, rendered);
        },
    }
}

/// All items are plain.
pub open spec fn are_plain_items(items: Seq<ResponseItem>) -> bool {
    forall|i: int| 0 <= i < items.len() ==> round_trip::is_plain_item(#[trigger] items[i])
}

proof fn lemma_items(items: Seq<ResponseItem>)
    requires
        are_plain_items(items),
    ensures
        wire::items_json(items) matches JsonView::Array(values) && read::each_item_from(
            shorthand::normalized_items(values),
        ) == Some(read::items_contents(items)),
{
    let values = items.map_values(|item: ResponseItem| wire::item_json(item));
    let normal = shorthand::normalized_items(values);
    assert forall|i: int| 0 <= i < normal.len() implies read::item_from(#[trigger] normal[i])
        == Some(items[i]@) by {
        law_written_item_is_normal(items[i], shorthand::item_content_text(values[i]));
        round_trip::law_item_round_trip(items[i]);
    }
    assert(read::each_item_from(normal)->0 =~= read::items_contents(items));
}

// --- What is asked of the output ---------------------------------------------------------------

/// A text format that JSON can hold as it is: it names a type, and only the one with a
/// schema says more.
pub open spec fn is_plain_format(format: TextFormat) -> bool {
    if format.kind@ == "text"@ || format.kind@ == "json_object"@ {
        format@ == read_request::plain_format(format.kind@)
    } else {
        format.kind@ == "json_schema"@
    }
}

/// What is asked of the output text can be held as it is.
pub open spec fn is_plain_controls(controls: TextControls) -> bool {
    controls.format matches Some(format) ==> is_plain_format(format)
}

proof fn lemma_text_format(format: TextFormat)
    requires
        is_plain_format(format),
    ensures
        wire::text_format_json(format) matches Ok(v) && read_request::text_format_from(v) == Some(
            format@,
        ),
{
    broadcast use json::lemma_member_of_set;

    reveal_strlit("type");
    reveal_strlit("name");
    reveal_strlit("schema");
    reveal_strlit("strict");
    reveal_strlit("description");
    reveal_strlit("text");
    reveal_strlit("json_object");
    reveal_strlit("json_schema");
    assert("type"@.len() == 4);
    assert("name"@.len() == 4);
    assert("schema"@.len() == 6);
    assert("strict"@.len() == 6);
    assert("description"@.len() == 11);
    assert("text"@.len() == 4);
    assert("json_object"@.len() == 11);
    assert("json_schema"@.len() == 11);
    assert("type"@[0] != "name"@[0]);
    assert("type"@[1] != "text"@[1]);
    assert("name"@[0] != "text"@[0]);
    assert("schema"@[1] != "strict"@[1]);
    assert("description"@[0] != "json_object"@[0]);
    assert("description"@[0] != "json_schema"@[0]);
    assert("json_object"@[5] != "json_schema"@[5]);
}

proof fn lemma_controls(controls: TextControls)
    requires
        is_plain_controls(controls),
    ensures
        wire::text_controls_json(controls) matches Ok(JsonView::Object(o)) && {
            &&& read::opt_text_at(o, "verbosity"@) == Some(text::opt_view(controls.verbosity))
            &&& read_request::opt_format_at(o, "format"@) == Some(controls@.format)
        },
{
    broadcast use json::lemma_member_of_set;

    reveal_strlit("verbosity");
    reveal_strlit("format");
    assert("verbosity"@.len() == 9);
    assert("format"@.len() == 6);
    if let Some(format) = controls.format {
        lemma_text_format(format);
    }
}

proof fn lemma_reasoning(r: ReasoningRequest)
    ensures
        wire::reasoning_request_json(r) matches JsonView::Object(o) && {
            &&& read::opt_text_at(o, "effort"@) == Some(text::opt_view(r.effort))
            &&& read::opt_text_at(o, "summary"@) == Some(text::opt_view(r.summary))
        },
{
    broadcast use json::lemma_member_of_set;

    reveal_strlit("effort");
    reveal_strlit("summary");
    assert("effort"@.len() == 6);
    assert("summary"@.len() == 7);
}

// --- Fields ------------------------------------------------------------------------------------

proof fn lemma_typed_names()
    ensures
        "model"@.len() == 5,
        "instructions"@.len() == 12,
        "input"@.len() == 5,
        "tools"@.len() == 5,
        "tool_choice"@.len() == 11,
        "parallel_tool_calls"@.len() == 19,
        "reasoning"@.len() == 9,
        "store"@.len() == 5,
        "stream"@.len() == 6,
        "include"@.len() == 7,
        "service_tier"@.len() == 12,
        "prompt_cache_key"@.len() == 16,
        "prompt_cache_retention"@.len() == 22,
        "text"@.len() == 4,
        "previous_response_id"@.len() == 20,
        "llmconduit_replay"@.len() == 17,
        "temperature"@.len() == 11,
        "top_p"@.len() == 5,
        "max_output_tokens"@.len() == 17,
        "frequency_penalty"@.len() == 17,
        "presence_penalty"@.len() == 16,
        "truncation"@.len() == 10,
        "metadata"@.len() == 8,
        "stop"@.len() == 4,
        "model"@[0] != "input"@[0],
        "model"@[0] != "tools"@[0],
        "model"@[0] != "store"@[0],
        "model"@[0] != "top_p"@[0],
        "instructions"@[0] != "service_tier"@[0],
        "input"@[0] != "tools"@[0],
        "input"@[0] != "store"@[0],
        "input"@[0] != "top_p"@[0],
        "tools"@[0] != "store"@[0],
        "tools"@[2] != "top_p"@[2],
        "tool_choice"@[1] != "temperature"@[1],
        "store"@[0] != "top_p"@[0],
        "prompt_cache_key"@[2] != "presence_penalty"@[2],
        "text"@[0] != "stop"@[0],
        "llmconduit_replay"@[0] != "max_output_tokens"@[0],
        "llmconduit_replay"@[0] != "frequency_penalty"@[0],
        "max_output_tokens"@[0] != "frequency_penalty"@[0],
        wire::typed_fields().contains("model"@),
        wire::typed_fields().contains("instructions"@),
        wire::typed_fields().contains("input"@),
        wire::typed_fields().contains("tools"@),
        wire::typed_fields().contains("tool_choice"@),
        wire::typed_fields().contains("parallel_tool_calls"@),
        wire::typed_fields().contains("reasoning"@),
        wire::typed_fields().contains("store"@),
        wire::typed_fields().contains("stream"@),
        wire::typed_fields().contains("include"@),
        wire::typed_fields().contains("service_tier"@),
        wire::typed_fields().contains("prompt_cache_key"@),
        wire::typed_fields().contains("prompt_cache_retention"@),
        wire::typed_fields().contains("text"@),
        wire::typed_fields().contains("previous_response_id"@),
        wire::typed_fields().contains("llmconduit_replay"@),
        wire::typed_fields().contains("temperature"@),
        wire::typed_fields().contains("top_p"@),
        wire::typed_fields().contains("max_output_tokens"@),
        wire::typed_fields().contains("frequency_penalty"@),
        wire::typed_fields().contains("presence_penalty"@),
        wire::typed_fields().contains("truncation"@),
        wire::typed_fields().contains("metadata"@),
        wire::typed_fields().contains("stop"@),
{
    reveal_strlit("model");
    reveal_strlit("instructions");
    reveal_strlit("input");
    reveal_strlit("tools");
    reveal_strlit("tool_choice");
    reveal_strlit("parallel_tool_calls");
    reveal_strlit("reasoning");
    reveal_strlit("store");
    reveal_strlit("stream");
    reveal_strlit("include");
    reveal_strlit("service_tier");
    reveal_strlit("prompt_cache_key");
    reveal_strlit("prompt_cache_retention");
    reveal_strlit("text");
    reveal_strlit("previous_response_id");
    reveal_strlit("llmconduit_replay");
    reveal_strlit("temperature");
    reveal_strlit("top_p");
    reveal_strlit("max_output_tokens");
    reveal_strlit("frequency_penalty");
    reveal_strlit("presence_penalty");
    reveal_strlit("truncation");
    reveal_strlit("metadata");
    reveal_strlit("stop");
    assert("model"@.len() == 5);
    assert("instructions"@.len() == 12);
    assert("input"@.len() == 5);
    assert("tools"@.len() == 5);
    assert("tool_choice"@.len() == 11);
    assert("parallel_tool_calls"@.len() == 19);
    assert("reasoning"@.len() == 9);
    assert("store"@.len() == 5);
    assert("stream"@.len() == 6);
    assert("include"@.len() == 7);
    assert("service_tier"@.len() == 12);
    assert("prompt_cache_key"@.len() == 16);
    assert("prompt_cache_retention"@.len() == 22);
    assert("text"@.len() == 4);
    assert("previous_response_id"@.len() == 20);
    assert("llmconduit_replay"@.len() == 17);
    assert("temperature"@.len() == 11);
    assert("top_p"@.len() == 5);
    assert("max_output_tokens"@.len() == 17);
    assert("frequency_penalty"@.len() == 17);
    assert("presence_penalty"@.len() == 16);
    assert("truncation"@.len() == 10);
    assert("metadata"@.len() == 8);
    assert("stop"@.len() == 4);
    assert("model"@[0] != "input"@[0]);
    assert("model"@[0] != "tools"@[0]);
    assert("model"@[0] != "store"@[0]);
    assert("model"@[0] != "top_p"@[0]);
    assert("instructions"@[0] != "service_tier"@[0]);
    assert("input"@[0] != "tools"@[0]);
    assert("input"@[0] != "store"@[0]);
    assert("input"@[0] != "top_p"@[0]);
    assert("tools"@[0] != "store"@[0]);
    assert("tools"@[2] != "top_p"@[2]);
    assert("tool_choice"@[1] != "temperature"@[1]);
    assert("store"@[0] != "top_p"@[0]);
    assert("prompt_cache_key"@[2] != "presence_penalty"@[2]);
    assert("text"@[0] != "stop"@[0]);
    assert("llmconduit_replay"@[0] != "max_output_tokens"@[0]);
    assert("llmconduit_replay"@[0] != "frequency_penalty"@[0]);
    assert("max_output_tokens"@[0] != "frequency_penalty"@[0]);
    let names = wire::typed_fields();
    assert(names[0] == "model"@);
    assert(names[1] == "instructions"@);
    assert(names[2] == "input"@);
    assert(names[3] == "tools"@);
    assert(names[4] == "tool_choice"@);
    assert(names[5] == "parallel_tool_calls"@);
    assert(names[6] == "reasoning"@);
    assert(names[7] == "store"@);
    assert(names[8] == "stream"@);
    assert(names[9] == "include"@);
    assert(names[10] == "service_tier"@);
    assert(names[11] == "prompt_cache_key"@);
    assert(names[12] == "prompt_cache_retention"@);
    assert(names[13] == "text"@);
    assert(names[14] == "previous_response_id"@);
    assert(names[15] == "llmconduit_replay"@);
    assert(names[16] == "temperature"@);
    assert(names[17] == "top_p"@);
    assert(names[18] == "max_output_tokens"@);
    assert(names[19] == "frequency_penalty"@);
    assert(names[20] == "presence_penalty"@);
    assert(names[21] == "truncation"@);
    assert(names[22] == "metadata"@);
    assert(names[23] == "stop"@);
}

proof fn lemma_typed_members(r: ResponsesRequest, controls: JsonView)
    ensures
        json::member(r.typed_members(controls), "model"@) == Some(JsonView::Text(r.model@)),
        json::member(
            r.typed_members(controls),
            "instructions"@,
        ) == Some(wire::instructions_json(r.instructions)),
        json::member(r.typed_members(controls), "input"@) == Some(wire::items_json(r.input@)),
        json::member(r.typed_members(controls), "tools"@) == Some(wire::tools_json(r.tools@)),
        json::member(r.typed_members(controls), "tool_choice"@) == Some(r.tool_choice@),
        json::member(
            r.typed_members(controls),
            "parallel_tool_calls"@,
        ) == wire::opt_bool_json(r.parallel_tool_calls),
        json::member(r.typed_members(controls), "reasoning"@) == Some(
            json::or_null(wire::opt_reasoning_request_json(r.reasoning)),
        ),
        json::member(r.typed_members(controls), "store"@) == Some(JsonView::Bool(r.store)),
        json::member(r.typed_members(controls), "stream"@) == Some(JsonView::Bool(r.stream)),
        json::member(r.typed_members(controls), "include"@) == Some(
            json::text_array(text::strings_view(r.includes@)),
        ),
        json::member(r.typed_members(controls), "service_tier"@) == Some(
            json::text_or_null(text::opt_view(r.service_tier)),
        ),
        json::member(r.typed_members(controls), "prompt_cache_key"@) == Some(
            json::text_or_null(text::opt_view(r.prompt_cache_key)),
        ),
        json::member(r.typed_members(controls), "prompt_cache_retention"@) == Some(
            json::text_or_null(text::opt_view(r.prompt_cache_retention)),
        ),
        json::member(r.typed_members(controls), "text"@) == Some(controls),
        json::member(r.typed_members(controls), "previous_response_id"@) == Some(
            json::text_or_null(text::opt_view(r.previous_response_id)),
        ),
        json::member(
            r.typed_members(controls),
            "llmconduit_replay"@,
        ) == wire::opt_bool_json(r.llmconduit_replay),
        json::member(
            r.typed_members(controls),
            "temperature"@,
        ) == wire::opt_number_json(r.temperature),
        json::member(r.typed_members(controls), "top_p"@) == wire::opt_number_json(r.top_p),
        json::member(
            r.typed_members(controls),
            "max_output_tokens"@,
        ) == wire::opt_whole_json(wire::opt_int(r.max_output_tokens)),
        json::member(
            r.typed_members(controls),
            "frequency_penalty"@,
        ) == wire::opt_number_json(r.frequency_penalty),
        json::member(
            r.typed_members(controls),
            "presence_penalty"@,
        ) == wire::opt_number_json(r.presence_penalty),
        json::member(r.typed_members(controls), "truncation"@) == Some(
            json::or_null(json::opt_json_view(r.truncation)),
        ),
        json::member(r.typed_members(controls), "metadata"@) == Some(
            json::or_null(wire::opt_object_json(r.metadata)),
        ),
        json::member(r.typed_members(controls), "stop"@) == wire::opt_texts_json(r.stop),
{
    broadcast use json::lemma_member_of_set;

    lemma_typed_names();
}

proof fn lemma_no_other_member(r: ResponsesRequest, controls: JsonView, key: Seq<char>)
    requires
        !wire::typed_fields().contains(key),
    ensures
        json::member(r.typed_members(controls), key) is None,
{
    broadcast use json::lemma_member_of_set;

    lemma_typed_names();
}

/// Other fields that are named like no typed one, each once.
pub open spec fn are_other_fields(extra: Seq<(Seq<char>, JsonView)>) -> bool {
    &&& json::keys_ascend(extra)
    &&& forall|i: int|
        0 <= i < extra.len() ==> !wire::typed_fields().contains((#[trigger] extra[i]).0)
}

proof fn lemma_key_of_neither(
    m: Seq<(Seq<char>, JsonView)>,
    extra: Seq<(Seq<char>, JsonView)>,
    n: int,
    key: Seq<char>,
)
    requires
        0 <= n <= extra.len(),
        forall|i: int| 0 <= i < extra.len() ==> (#[trigger] extra[i]).0 != key,
    ensures
        json::member(wire::with_extra(m, extra, n), key) == json::member(m, key),
    decreases n,
{
    if n > 0 {
        lemma_key_of_neither(m, extra, n - 1, key);
        let (k, v) = extra[n - 1];
        assert(extra[n - 1].0 != key);
        json::law_set_member_keeps_others(wire::with_extra(m, extra, n - 1), k, v, key);
    }
}

proof fn lemma_other_fields_of(m: Seq<(Seq<char>, JsonView)>, n: int)
    requires
        json::keys_ascend(m),
        0 <= n <= m.len(),
    ensures
        json::keys_ascend(read_request::other_fields(m, n)),
        forall|p: int|
            0 <= p < read_request::other_fields(m, n).len() ==> exists|q: int|
                0 <= q < n && #[trigger] m[q] == #[trigger] read_request::other_fields(m, n)[p]
                    && !wire::typed_fields().contains(m[q].0),
        forall|q: int|
            0 <= q < n && !wire::typed_fields().contains((#[trigger] m[q]).0) ==> exists|p: int|
                0 <= p < read_request::other_fields(m, n).len()
                    && #[trigger] read_request::other_fields(m, n)[p] == m[q],
    decreases n,
{
    let kept = read_request::other_fields(m, n);
    if n > 0 {
        let before = read_request::other_fields(m, n - 1);
        lemma_other_fields_of(m, n - 1);
        if !wire::typed_fields().contains(m[n - 1].0) {
            assert(kept == before.push(m[n - 1]));
            assert forall|i: int, j: int| 0 <= i < j < kept.len() implies text::before(
                kept[i].0,
                kept[j].0,
            ) by {
                assert(kept[i] == before[i]);
                let q = choose|q: int|
                    0 <= q < n - 1 && #[trigger] m[q] == before[i]
                        && !wire::typed_fields().contains(m[q].0);
                assert(text::before(m[q].0, m[n - 1].0));
                if j < before.len() {
                    assert(kept[j] == before[j]);
                }
            }
            assert forall|p: int| 0 <= p < kept.len() implies exists|q: int|
                0 <= q < n && #[trigger] m[q] == #[trigger] kept[p]
                    && !wire::typed_fields().contains(m[q].0) by {
                if p < before.len() {
                    assert(kept[p] == before[p]);
                    let q = choose|q: int|
                        0 <= q < n - 1 && #[trigger] m[q] == before[p]
                            && !wire::typed_fields().contains(m[q].0);
                    assert(m[q] == kept[p]);
                } else {
                    assert(m[n - 1] == kept[p]);
                }
            }
            assert forall|q: int|
                0 <= q < n && !wire::typed_fields().contains((#[trigger] m[q]).0) implies exists|
                p: int,
            | 0 <= p < kept.len() && #[trigger] kept[p] == m[q] by {
                if q < n - 1 {
                    let p = choose|p: int| 0 <= p < before.len() && #[trigger] before[p] == m[q];
                    assert(kept[p] == m[q]);
                } else {
                    assert(kept[before.len() as int] == m[q]);
                }
            }
        }
    }
}

proof fn lemma_other_fields(r: ResponsesRequest, controls: JsonView)
    requires
        are_other_fields(r.extra_body@),
    ensures
        r.json_with(controls) matches JsonView::Object(m) && read_request::other_fields(
            m,
            m.len() as int,
        ) == r.extra_body@,
{
    let extra = r.extra_body@;
    let m = r.json_with(controls)->Object_0;
    let kept = read_request::other_fields(m, m.len() as int);
    wire::law_request_keys_are_distinct(r, controls);
    lemma_other_fields_of(m, m.len() as int);
    assert forall|k: Seq<char>| #[trigger] json::member(kept, k) == json::member(extra, k) by {
        json::lemma_key_index(extra, k, 0);
        json::lemma_key_index(kept, k, 0);
        json::lemma_key_index(m, k, 0);
        let e = json::key_index(extra, k, 0);
        let p = json::key_index(kept, k, 0);
        let i = json::key_index(m, k, 0);
        if e < extra.len() {
            assert(!wire::typed_fields().contains(extra[e].0));
            wire::law_other_fields_are_forwarded(r, controls, e);
            json::lemma_member_is_at(extra, e);
            assert(json::member(m, k) == Some(m[i].1));
            let at = choose|at: int| 0 <= at < kept.len() && #[trigger] kept[at] == m[i];
            json::lemma_member_is_at(kept, at);
        } else if p < kept.len() {
            let q = choose|q: int|
                0 <= q < m.len() && #[trigger] m[q] == kept[p] && !wire::typed_fields().contains(
                    m[q].0,
                );
            json::lemma_member_is_at(m, q);
            lemma_key_of_neither(
                r.typed_members(controls),
                extra,
                extra.len() as int,
                k,
            );
            lemma_no_other_member(r, controls, k);
        }
    }
    json::law_members_decide(kept, extra);
}

// --- The request -------------------------------------------------------------------------------

/// Instructions that JSON can hold as they are.
pub open spec fn are_plain_instructions(instructions: ResponseInstructions) -> bool {
    instructions matches ResponseInstructions::Items(items) ==> are_plain_items(items@)
}

/// A number that is there is written as one that need not be whole.
pub open spec fn is_float(n: Option<JsonNumber>) -> bool {
    n matches Some(n) ==> n is Decimal
}

/// A request as a client's is read: the model has no white space around it, the tool
/// choice is in its one form, what is there is not `null`, and nothing is there twice.
pub open spec fn is_plain_request(r: ResponsesRequest) -> bool {
    &&& text::trimmed(r.model@) == r.model@
    &&& are_plain_instructions(r.instructions)
    &&& are_plain_items(r.input@)
    &&& are_plain_tools(r.tools@)
    &&& shorthand::nested_tool_choice(r.tool_choice@) == r.tool_choice@
    &&& r.text matches Some(controls) ==> is_plain_controls(controls)
    &&& is_not_null(json::opt_json_view(r.truncation))
    &&& is_float(r.temperature)
    &&& is_float(r.top_p)
    &&& is_float(r.frequency_penalty)
    &&& is_float(r.presence_penalty)
    &&& r.thinking is None
    &&& are_other_fields(r.extra_body@)
}

proof fn lemma_member_on_wire(r: ResponsesRequest, controls: JsonView)
    ensures
        r.json_with(controls) matches JsonView::Object(m) && {
            &&& json::member(m, "model"@) == Some(JsonView::Text(r.model@))
            &&& json::member(m, "instructions"@) == Some(wire::instructions_json(r.instructions))
            &&& json::member(m, "input"@) == Some(wire::items_json(r.input@))
            &&& json::member(m, "tools"@) == Some(wire::tools_json(r.tools@))
            &&& json::member(m, "tool_choice"@) == Some(r.tool_choice@)
            &&& json::member(m, "parallel_tool_calls"@) == wire::opt_bool_json(
                r.parallel_tool_calls,
            )
            &&& json::member(m, "reasoning"@) == Some(
                json::or_null(wire::opt_reasoning_request_json(r.reasoning)),
            )
            &&& json::member(m, "store"@) == Some(JsonView::Bool(r.store))
            &&& json::member(m, "stream"@) == Some(JsonView::Bool(r.stream))
            &&& json::member(m, "include"@) == Some(
                json::text_array(text::strings_view(r.includes@)),
            )
            &&& json::member(m, "service_tier"@) == Some(
                json::text_or_null(text::opt_view(r.service_tier)),
            )
            &&& json::member(m, "prompt_cache_key"@) == Some(
                json::text_or_null(text::opt_view(r.prompt_cache_key)),
            )
            &&& json::member(m, "prompt_cache_retention"@) == Some(
                json::text_or_null(text::opt_view(r.prompt_cache_retention)),
            )
            &&& json::member(m, "text"@) == Some(controls)
            &&& json::member(m, "previous_response_id"@) == Some(
                json::text_or_null(text::opt_view(r.previous_response_id)),
            )
            &&& json::member(m, "llmconduit_replay"@) == wire::opt_bool_json(r.llmconduit_replay)
            &&& json::member(m, "temperature"@) == wire::opt_number_json(r.temperature)
            &&& json::member(m, "top_p"@) == wire::opt_number_json(r.top_p)
            &&& json::member(m, "max_output_tokens"@) == wire::opt_whole_json(
                wire::opt_int(r.max_output_tokens),
            )
            &&& json::member(m, "frequency_penalty"@) == wire::opt_number_json(r.frequency_penalty)
            &&& json::member(m, "presence_penalty"@) == wire::opt_number_json(r.presence_penalty)
            &&& json::member(m, "truncation"@) == Some(
                json::or_null(json::opt_json_view(r.truncation)),
            )
            &&& json::member(m, "metadata"@) == Some(
                json::or_null(wire::opt_object_json(r.metadata)),
            )
            &&& json::member(m, "stop"@) == wire::opt_texts_json(r.stop)
        },
{
    lemma_typed_names();
    lemma_typed_members(r, controls);
    wire::law_typed_fields_win(r, controls, "model"@);
    wire::law_typed_fields_win(r, controls, "instructions"@);
    wire::law_typed_fields_win(r, controls, "input"@);
    wire::law_typed_fields_win(r, controls, "tools"@);
    wire::law_typed_fields_win(r, controls, "tool_choice"@);
    wire::law_typed_fields_win(r, controls, "parallel_tool_calls"@);
    wire::law_typed_fields_win(r, controls, "reasoning"@);
    wire::law_typed_fields_win(r, controls, "store"@);
    wire::law_typed_fields_win(r, controls, "stream"@);
    wire::law_typed_fields_win(r, controls, "include"@);
    wire::law_typed_fields_win(r, controls, "service_tier"@);
    wire::law_typed_fields_win(r, controls, "prompt_cache_key"@);
    wire::law_typed_fields_win(r, controls, "prompt_cache_retention"@);
    wire::law_typed_fields_win(r, controls, "text"@);
    wire::law_typed_fields_win(r, controls, "previous_response_id"@);
    wire::law_typed_fields_win(r, controls, "llmconduit_replay"@);
    wire::law_typed_fields_win(r, controls, "temperature"@);
    wire::law_typed_fields_win(r, controls, "top_p"@);
    wire::law_typed_fields_win(r, controls, "max_output_tokens"@);
    wire::law_typed_fields_win(r, controls, "frequency_penalty"@);
    wire::law_typed_fields_win(r, controls, "presence_penalty"@);
    wire::law_typed_fields_win(r, controls, "truncation"@);
    wire::law_typed_fields_win(r, controls, "metadata"@);
    wire::law_typed_fields_win(r, controls, "stop"@);
}

proof fn lemma_asked_fields(r: ResponsesRequest, m: Seq<(Seq<char>, JsonView)>)
    requires
        is_plain_request(r),
        json::member(m, "model"@) == Some(JsonView::Text(r.model@)),
        json::member(m, "instructions"@) == Some(wire::instructions_json(r.instructions)),
        json::member(m, "input"@) == Some(wire::items_json(r.input@)),
        json::member(m, "tools"@) == Some(wire::tools_json(r.tools@)),
        json::member(m, "tool_choice"@) == Some(r.tool_choice@),
    ensures
        read_request::model_at(m, "model"@) == Some(r@.model),
        read_request::instructions_at(m, "instructions"@) == Some(r@.instructions),
        read_request::input_at(m, "input"@) == Some(r@.input),
        read_request::tools_at(m, "tools"@) == Some(r@.tools),
        read_request::tool_choice_at(m, "tool_choice"@) == Some(r@.tool_choice),
{
    lemma_items(r.input@);
    if let ResponseInstructions::Items(items) = r.instructions {
        lemma_items(items@);
    }
    lemma_tools(r.tools@);
}

proof fn lemma_handling_fields(r: ResponsesRequest, m: Seq<(Seq<char>, JsonView)>)
    requires
        is_plain_request(r),
        json::member(m, "parallel_tool_calls"@) == wire::opt_bool_json(r.parallel_tool_calls),
        json::member(m, "reasoning"@) == Some(
            json::or_null(wire::opt_reasoning_request_json(r.reasoning)),
        ),
        json::member(m, "store"@) == Some(JsonView::Bool(r.store)),
        json::member(m, "stream"@) == Some(JsonView::Bool(r.stream)),
        json::member(m, "include"@) == Some(json::text_array(text::strings_view(r.includes@))),
        json::member(m, "service_tier"@) == Some(
            json::text_or_null(text::opt_view(r.service_tier)),
        ),
        json::member(m, "prompt_cache_key"@) == Some(
            json::text_or_null(text::opt_view(r.prompt_cache_key)),
        ),
        json::member(m, "prompt_cache_retention"@) == Some(
            json::text_or_null(text::opt_view(r.prompt_cache_retention)),
        ),
        json::member(m, "previous_response_id"@) == Some(
            json::text_or_null(text::opt_view(r.previous_response_id)),
        ),
        json::member(m, "llmconduit_replay"@) == wire::opt_bool_json(r.llmconduit_replay),
    ensures
        read_request::opt_flag_at(m, "parallel_tool_calls"@) == Some(r@.parallel_tool_calls),
        read_request::opt_reasoning_at(m, "reasoning"@) == Some(r@.reasoning),
        read_request::flag_or_true_at(m, "store"@) == Some(r@.store),
        read_request::flag_or_false_at(m, "stream"@) == Some(r@.stream),
        read_request::texts_or_none_at(m, "include"@) == Some(r@.includes),
        read::opt_text_at(m, "service_tier"@) == Some(r@.service_tier),
        read::opt_text_at(m, "prompt_cache_key"@) == Some(r@.prompt_cache_key),
        read::opt_text_at(m, "prompt_cache_retention"@) == Some(r@.prompt_cache_retention),
        read::opt_text_at(m, "previous_response_id"@) == Some(r@.previous_response_id),
        read_request::opt_flag_at(m, "llmconduit_replay"@) == Some(r@.llmconduit_replay),
{
    lemma_texts(text::strings_view(r.includes@));
    if let Some(reasoning) = r.reasoning {
        lemma_reasoning(reasoning);
    }
}

proof fn lemma_sampling_fields(r: ResponsesRequest, m: Seq<(Seq<char>, JsonView)>)
    requires
        is_plain_request(r),
        json::member(m, "temperature"@) == wire::opt_number_json(r.temperature),
        json::member(m, "top_p"@) == wire::opt_number_json(r.top_p),
        json::member(m, "max_output_tokens"@) == wire::opt_whole_json(
            wire::opt_int(r.max_output_tokens),
        ),
        json::member(m, "frequency_penalty"@) == wire::opt_number_json(r.frequency_penalty),
        json::member(m, "presence_penalty"@) == wire::opt_number_json(r.presence_penalty),
        json::member(m, "truncation"@) == Some(json::or_null(json::opt_json_view(r.truncation))),
        json::member(m, "metadata"@) == Some(json::or_null(wire::opt_object_json(r.metadata))),
        json::member(m, "stop"@) == wire::opt_texts_json(r.stop),
    ensures
        read_request::opt_number_at(m, "temperature"@) == Some(r@.temperature),
        read_request::opt_number_at(m, "top_p"@) == Some(r@.top_p),
        read_request::opt_i64_at(m, "max_output_tokens"@) == Some(r@.max_output_tokens),
        read_request::opt_number_at(m, "frequency_penalty"@) == Some(r@.frequency_penalty),
        read_request::opt_number_at(m, "presence_penalty"@) == Some(r@.presence_penalty),
        read_request::opt_value_at(m, "truncation"@) == Some(r@.truncation),
        read_request::opt_object_at(m, "metadata"@) == Some(r@.metadata),
        read_request::stop_at(m, "stop"@) == Some(r@.stop),
{
    if let Some(stop) = r.stop {
        lemma_texts(text::strings_view(stop@));
    }
}

proof fn lemma_text_field(r: ResponsesRequest, controls: JsonView, m: Seq<(Seq<char>, JsonView)>)
    requires
        is_plain_request(r),
        json::member(m, "text"@) == Some(controls),
        controls == match r.text {
            Some(text) => wire::text_controls_json(text)->Ok_0,
            None => JsonView::Null,
        },
    ensures
        r.text matches Some(text) ==> wire::text_controls_json(text) is Ok,
        read_request::opt_controls_at(m, "text"@) == Some(r@.text),
{
    if let Some(text) = r.text {
        lemma_controls(text);
        assert(controls is Object);
        assert(read_request::opt_controls_at(m, "text"@) == Some(Some(text@)));
    }
}

/// A request that is written and read again is the same.
pub proof fn law_request_round_trip(r: ResponsesRequest)
    requires
        is_plain_request(r),
    ensures
        r.json() matches Ok(v) && read_request::request_from(v) == Some(r@),
{
    let controls = match r.text {
        Some(text) => wire::text_controls_json(text)->Ok_0,
        None => JsonView::Null,
    };
    let m = r.json_with(controls)->Object_0;
    lemma_member_on_wire(r, controls);
    lemma_text_field(r, controls, m);
    lemma_asked_fields(r, m);
    lemma_handling_fields(r, m);
    lemma_sampling_fields(r, m);
    lemma_other_fields(r, controls);
}

} // verus!
