//! What is written of a request: every field under its own name.
use vstd::prelude::*;

use crate::json;
use crate::json::JsonView;
use crate::models::wire;
use crate::models::written;
use crate::models::responses::CustomToolFormat;
use crate::models::responses::NamespaceToolSpec;
use crate::models::responses::ReasoningRequest;
use crate::models::responses::ResponsesRequest;
use crate::models::responses::ToolSpec;

verus! {

/// Each field of a namespace's function is written under its own name, and nothing else is.
pub proof fn law_namespace_tool_function_members(item: NamespaceToolSpec)
    requires
        item is Function,
    ensures
        wire::namespace_tool_json(item) is Object,
        json::member(wire::namespace_tool_json(item)->Object_0, "type"@)
            == Some(JsonView::Text("function"@)),
        json::member(wire::namespace_tool_json(item)->Object_0, "name"@)
            == Some(JsonView::Text(item->Function_name@)),
        json::member(wire::namespace_tool_json(item)->Object_0, "description"@)
            == (
            if item->Function_description@.len()
                == 0 { None } else { Some(JsonView::Text(item->Function_description@)) }
            ),
        json::member(wire::namespace_tool_json(item)->Object_0, "strict"@)
            == Some(JsonView::Bool(item->Function_strict)),
        json::member(wire::namespace_tool_json(item)->Object_0, "parameters"@)
            == Some(item->Function_parameters@),
        forall|k: Seq<char>|
            k != "type"@ && k != "name"@ && k != "description"@ && k != "strict"@
                && k != "parameters"@
                ==> (#[trigger] json::member(wire::namespace_tool_json(item)->Object_0, k)) is None,
{
    broadcast use written::group_members;

    reveal_strlit("type");
    reveal_strlit("name");
    reveal_strlit("description");
    reveal_strlit("strict");
    reveal_strlit("parameters");
    assert("type"@.len() == 4);
    assert("name"@.len() == 4);
    assert("description"@.len() == 11);
    assert("strict"@.len() == 6);
    assert("parameters"@.len() == 10);
    assert("type"@[0] != "name"@[0]);
}

/// Each field of a custom format text is written under its own name, and nothing else is.
pub proof fn law_tool_format_text_members(item: CustomToolFormat)
    requires
        item is Text,
    ensures
        wire::tool_format_json(item) is Object,
        json::member(wire::tool_format_json(item)->Object_0, "type"@)
            == Some(JsonView::Text("text"@)),
        forall|k: Seq<char>|
            k != "type"@
                ==> (#[trigger] json::member(wire::tool_format_json(item)->Object_0, k)) is None,
{
    broadcast use written::group_members;

    reveal_strlit("type");
    assert("type"@.len() == 4);
}

/// Each field of a custom format grammar is written under its own name, and nothing else is.
pub proof fn law_tool_format_grammar_members(item: CustomToolFormat)
    requires
        item is Grammar,
    ensures
        wire::tool_format_json(item) is Object,
        json::member(wire::tool_format_json(item)->Object_0, "type"@)
            == Some(JsonView::Text("grammar"@)),
        json::member(wire::tool_format_json(item)->Object_0, "syntax"@)
            == Some(JsonView::Text(item->Grammar_syntax@)),
        json::member(wire::tool_format_json(item)->Object_0, "definition"@)
            == Some(JsonView::Text(item->Grammar_definition@)),
        forall|k: Seq<char>|
            k != "type"@ && k != "syntax"@ && k != "definition"@
                ==> (#[trigger] json::member(wire::tool_format_json(item)->Object_0, k)) is None,
{
    broadcast use written::group_members;

    reveal_strlit("type");
    reveal_strlit("syntax");
    reveal_strlit("definition");
    assert("type"@.len() == 4);
    assert("syntax"@.len() == 6);
    assert("definition"@.len() == 10);
}

/// Each field of a function tool is written under its own name, and nothing else is.
pub proof fn law_tool_function_members(item: ToolSpec)
    requires
        item is Function,
    ensures
        wire::tool_json(item) is Object,
        json::member(wire::tool_json(item)->Object_0, "type"@) == Some(JsonView::Text("function"@)),
        json::member(wire::tool_json(item)->Object_0, "name"@)
            == Some(JsonView::Text(item->Function_name@)),
        json::member(wire::tool_json(item)->Object_0, "description"@)
            == (
            if item->Function_description@.len()
                == 0 { None } else { Some(JsonView::Text(item->Function_description@)) }
            ),
        json::member(wire::tool_json(item)->Object_0, "strict"@)
            == Some(JsonView::Bool(item->Function_strict)),
        json::member(wire::tool_json(item)->Object_0, "parameters"@)
            == Some(item->Function_parameters@),
        forall|k: Seq<char>|
            k != "type"@ && k != "name"@ && k != "description"@ && k != "strict"@
                && k != "parameters"@
                ==> (#[trigger] json::member(wire::tool_json(item)->Object_0, k)) is None,
{
    broadcast use written::group_members;

    reveal_strlit("type");
    reveal_strlit("name");
    reveal_strlit("description");
    reveal_strlit("strict");
    reveal_strlit("parameters");
    assert("type"@.len() == 4);
    assert("name"@.len() == 4);
    assert("description"@.len() == 11);
    assert("strict"@.len() == 6);
    assert("parameters"@.len() == 10);
    assert("type"@[0] != "name"@[0]);
}

/// Each field of a namespace tool is written under its own name, and nothing else is.
pub proof fn law_tool_namespace_members(item: ToolSpec)
    requires
        item is Namespace,
    ensures
        wire::tool_json(item) is Object,
        json::member(wire::tool_json(item)->Object_0, "type"@)
            == Some(JsonView::Text("namespace"@)),
        json::member(wire::tool_json(item)->Object_0, "name"@)
            == Some(JsonView::Text(item->Namespace_name@)),
        json::member(wire::tool_json(item)->Object_0, "description"@)
            == Some(JsonView::Text(item->Namespace_description@)),
        json::member(wire::tool_json(item)->Object_0, "tools"@)
            == Some(wire::namespace_tools_json(item->Namespace_tools@)),
        forall|k: Seq<char>|
            k != "type"@ && k != "name"@ && k != "description"@ && k != "tools"@
                ==> (#[trigger] json::member(wire::tool_json(item)->Object_0, k)) is None,
{
    broadcast use written::group_members;

    reveal_strlit("type");
    reveal_strlit("name");
    reveal_strlit("description");
    reveal_strlit("tools");
    assert("type"@.len() == 4);
    assert("name"@.len() == 4);
    assert("description"@.len() == 11);
    assert("tools"@.len() == 5);
    assert("type"@[0] != "name"@[0]);
}

/// Each field of a tool search tool is written under its own name, and nothing else is.
pub proof fn law_tool_tool_search_members(item: ToolSpec)
    requires
        item is ToolSearch,
    ensures
        wire::tool_json(item) is Object,
        json::member(wire::tool_json(item)->Object_0, "type"@)
            == Some(JsonView::Text("tool_search"@)),
        json::member(wire::tool_json(item)->Object_0, "execution"@)
            == Some(JsonView::Text(item->ToolSearch_execution@)),
        json::member(wire::tool_json(item)->Object_0, "description"@)
            == Some(JsonView::Text(item->ToolSearch_description@)),
        json::member(wire::tool_json(item)->Object_0, "parameters"@)
            == Some(item->ToolSearch_parameters@),
        forall|k: Seq<char>|
            k != "type"@ && k != "execution"@ && k != "description"@ && k != "parameters"@
                ==> (#[trigger] json::member(wire::tool_json(item)->Object_0, k)) is None,
{
    broadcast use written::group_members;

    reveal_strlit("type");
    reveal_strlit("execution");
    reveal_strlit("description");
    reveal_strlit("parameters");
    assert("type"@.len() == 4);
    assert("execution"@.len() == 9);
    assert("description"@.len() == 11);
    assert("parameters"@.len() == 10);
}

/// Each field of a local shell tool is written under its own name, and nothing else is.
pub proof fn law_tool_local_shell_members(item: ToolSpec)
    requires
        item is LocalShell,
    ensures
        wire::tool_json(item) is Object,
        json::member(wire::tool_json(item)->Object_0, "type"@)
            == Some(JsonView::Text("local_shell"@)),
        forall|k: Seq<char>|
            k != "type"@
                ==> (#[trigger] json::member(wire::tool_json(item)->Object_0, k)) is None,
{
    broadcast use written::group_members;

    reveal_strlit("type");
    assert("type"@.len() == 4);
}

/// Each field of a web search tool is written under its own name, and nothing else is.
pub proof fn law_tool_web_search_members(item: ToolSpec)
    requires
        item is WebSearch,
    ensures
        wire::tool_json(item) is Object,
        json::member(wire::tool_json(item)->Object_0, "type"@)
            == Some(JsonView::Text("web_search"@)),
        json::member(wire::tool_json(item)->Object_0, "external_web_access"@)
            == Some(written::or_null(written::opt_flag(item->WebSearch_external_web_access))),
        json::member(wire::tool_json(item)->Object_0, "filters"@)
            == Some(written::or_null(written::opt_value(item->WebSearch_filters))),
        json::member(wire::tool_json(item)->Object_0, "user_location"@)
            == Some(written::or_null(written::opt_value(item->WebSearch_user_location))),
        json::member(wire::tool_json(item)->Object_0, "search_context_size"@)
            == Some(written::or_null(written::opt_text(item->WebSearch_search_context_size))),
        json::member(wire::tool_json(item)->Object_0, "search_content_types"@)
            == Some(written::or_null(written::opt_texts(item->WebSearch_search_content_types))),
        forall|k: Seq<char>|
            k != "type"@ && k != "external_web_access"@ && k != "filters"@ && k != "user_location"@
                && k != "search_context_size"@ && k != "search_content_types"@
                ==> (#[trigger] json::member(wire::tool_json(item)->Object_0, k)) is None,
{
    broadcast use written::group_members;

    reveal_strlit("type");
    reveal_strlit("external_web_access");
    reveal_strlit("filters");
    reveal_strlit("user_location");
    reveal_strlit("search_context_size");
    reveal_strlit("search_content_types");
    assert("type"@.len() == 4);
    assert("external_web_access"@.len() == 19);
    assert("filters"@.len() == 7);
    assert("user_location"@.len() == 13);
    assert("search_context_size"@.len() == 19);
    assert("search_content_types"@.len() == 20);
    assert("external_web_access"@[0] != "search_context_size"@[0]);
    if let Some(x) = item->WebSearch_search_content_types {
        written::lemma_texts(x@);
    }
}

/// Each field of a custom tool is written under its own name, and nothing else is.
pub proof fn law_tool_custom_members(item: ToolSpec)
    requires
        item is Custom,
    ensures
        wire::tool_json(item) is Object,
        json::member(wire::tool_json(item)->Object_0, "type"@) == Some(JsonView::Text("custom"@)),
        json::member(wire::tool_json(item)->Object_0, "name"@)
            == Some(JsonView::Text(item->Custom_name@)),
        json::member(wire::tool_json(item)->Object_0, "description"@)
            == (
            if item->Custom_description@.len()
                == 0 { None } else { Some(JsonView::Text(item->Custom_description@)) }
            ),
        json::member(wire::tool_json(item)->Object_0, "format"@)
            == Some(wire::tool_format_json(item->Custom_format)),
        forall|k: Seq<char>|
            k != "type"@ && k != "name"@ && k != "description"@ && k != "format"@
                ==> (#[trigger] json::member(wire::tool_json(item)->Object_0, k)) is None,
{
    broadcast use written::group_members;

    reveal_strlit("type");
    reveal_strlit("name");
    reveal_strlit("description");
    reveal_strlit("format");
    assert("type"@.len() == 4);
    assert("name"@.len() == 4);
    assert("description"@.len() == 11);
    assert("format"@.len() == 6);
    assert("type"@[0] != "name"@[0]);
}

/// Each field of a image generation tool is written under its own name, and nothing else is.
pub proof fn law_tool_image_generation_members(item: ToolSpec)
    requires
        item is ImageGeneration,
    ensures
        wire::tool_json(item) is Object,
        json::member(wire::tool_json(item)->Object_0, "type"@)
            == Some(JsonView::Text("image_generation"@)),
        json::member(wire::tool_json(item)->Object_0, "output_format"@)
            == Some(written::or_null(written::opt_text(item->ImageGeneration_output_format))),
        forall|k: Seq<char>|
            k != "type"@ && k != "output_format"@
                ==> (#[trigger] json::member(wire::tool_json(item)->Object_0, k)) is None,
{
    broadcast use written::group_members;

    reveal_strlit("type");
    reveal_strlit("output_format");
    assert("type"@.len() == 4);
    assert("output_format"@.len() == 13);
}

/// What is asked of reasoning is written field by field, and nothing else is.
pub proof fn law_reasoning_request_members(r: ReasoningRequest)
    ensures
        wire::reasoning_request_json(r) is Object,
        json::member(wire::reasoning_request_json(r)->Object_0, "effort"@)
            == Some(written::or_null(written::opt_text(r.effort))),
        json::member(wire::reasoning_request_json(r)->Object_0, "summary"@)
            == Some(written::or_null(written::opt_text(r.summary))),
        forall|k: Seq<char>|
            k != "effort"@ && k != "summary"@
                ==> (#[trigger] json::member(wire::reasoning_request_json(r)->Object_0, k)) is None,
{
    broadcast use written::group_members;

    reveal_strlit("effort");
    reveal_strlit("summary");
    assert("effort"@.len() == 6);
    assert("summary"@.len() == 7);
}

/// What is written of a list is each element, in order.
pub proof fn law_namespace_tools_in_order(items: Seq<NamespaceToolSpec>, i: int)
    requires
        0 <= i < items.len(),
    ensures
        wire::namespace_tools_json(items) is Array,
        wire::namespace_tools_json(items)->Array_0.len() == items.len(),
        wire::namespace_tools_json(items)->Array_0[i] == wire::namespace_tool_json(items[i]),
{
}

/// What is written of a list is each element, in order.
pub proof fn law_tools_in_order(items: Seq<ToolSpec>, i: int)
    requires
        0 <= i < items.len(),
    ensures
        wire::tools_json(items) is Array,
        wire::tools_json(items)->Array_0.len() == items.len(),
        wire::tools_json(items)->Array_0[i] == wire::tool_json(items[i]),
{
}

/// Each typed field of a request is written under its own name, and nothing else is.
pub proof fn law_typed_members(r: ResponsesRequest, controls: JsonView)
    ensures
        json::member(r.typed_members(controls), "model"@) == Some(JsonView::Text(r.model@)),
        json::member(r.typed_members(controls), "instructions"@)
            == Some(wire::instructions_json(r.instructions)),
        json::member(r.typed_members(controls), "input"@) == Some(wire::items_json(r.input@)),
        json::member(r.typed_members(controls), "tools"@) == Some(wire::tools_json(r.tools@)),
        json::member(r.typed_members(controls), "tool_choice"@) == Some(r.tool_choice@),
        json::member(r.typed_members(controls), "parallel_tool_calls"@)
            == written::opt_flag(r.parallel_tool_calls),
        json::member(r.typed_members(controls), "reasoning"@)
            == Some(
                written::or_null(
                    (match r.reasoning {
                        Some(x) => Some(wire::reasoning_request_json(x)),
                        None => None,
                    }),
                ),
            ),
        json::member(r.typed_members(controls), "store"@) == Some(JsonView::Bool(r.store)),
        json::member(r.typed_members(controls), "stream"@) == Some(JsonView::Bool(r.stream)),
        json::member(r.typed_members(controls), "include"@) == Some(written::texts(r.includes@)),
        json::member(r.typed_members(controls), "service_tier"@)
            == Some(written::or_null(written::opt_text(r.service_tier))),
        json::member(r.typed_members(controls), "prompt_cache_key"@)
            == Some(written::or_null(written::opt_text(r.prompt_cache_key))),
        json::member(r.typed_members(controls), "prompt_cache_retention"@)
            == Some(written::or_null(written::opt_text(r.prompt_cache_retention))),
        json::member(r.typed_members(controls), "text"@) == Some(controls),
        json::member(r.typed_members(controls), "previous_response_id"@)
            == Some(written::or_null(written::opt_text(r.previous_response_id))),
        json::member(r.typed_members(controls), "llmconduit_replay"@)
            == written::opt_flag(r.llmconduit_replay),
        json::member(r.typed_members(controls), "temperature"@)
            == written::opt_number(r.temperature),
        json::member(r.typed_members(controls), "top_p"@) == written::opt_number(r.top_p),
        json::member(r.typed_members(controls), "max_output_tokens"@)
            == written::opt_signed(r.max_output_tokens),
        json::member(r.typed_members(controls), "frequency_penalty"@)
            == written::opt_number(r.frequency_penalty),
        json::member(r.typed_members(controls), "presence_penalty"@)
            == written::opt_number(r.presence_penalty),
        json::member(r.typed_members(controls), "truncation"@)
            == Some(written::or_null(written::opt_value(r.truncation))),
        json::member(r.typed_members(controls), "metadata"@)
            == Some(written::or_null(written::opt_object(r.metadata))),
        json::member(r.typed_members(controls), "stop"@) == written::opt_texts(r.stop),
        forall|k: Seq<char>|
            k != "model"@ && k != "instructions"@ && k != "input"@ && k != "tools"@
                && k != "tool_choice"@ && k != "parallel_tool_calls"@ && k != "reasoning"@
                && k != "store"@ && k != "stream"@ && k != "include"@ && k != "service_tier"@
                && k != "prompt_cache_key"@ && k != "prompt_cache_retention"@ && k != "text"@
                && k != "previous_response_id"@ && k != "llmconduit_replay"@ && k != "temperature"@
                && k != "top_p"@ && k != "max_output_tokens"@ && k != "frequency_penalty"@
                && k != "presence_penalty"@ && k != "truncation"@ && k != "metadata"@
                && k != "stop"@
                ==> (#[trigger] json::member(r.typed_members(controls), k)) is None,
{
    broadcast use written::group_members;

    reveal_strlit("model");
    reveal_strlit("instructions");
    reveal_strlit("input");
    reveal_strlit("tools");
    reveal_strlit("tool_choice");
    reveal_strlit("parallel_tool_calls");
    reveal_strlit("reasoning");
    reveal_strlit("store");
    reveal_strlit("stream");
    reveal_strlit("include");
    reveal_strlit("service_tier");
    reveal_strlit("prompt_cache_key");
    reveal_strlit("prompt_cache_retention");
    reveal_strlit("text");
    reveal_strlit("previous_response_id");
    reveal_strlit("llmconduit_replay");
    reveal_strlit("temperature");
    reveal_strlit("top_p");
    reveal_strlit("max_output_tokens");
    reveal_strlit("frequency_penalty");
    reveal_strlit("presence_penalty");
    reveal_strlit("truncation");
    reveal_strlit("metadata");
    reveal_strlit("stop");
    assert("model"@.len() == 5);
    assert("instructions"@.len() == 12);
    assert("input"@.len() == 5);
    assert("tools"@.len() == 5);
    assert("tool_choice"@.len() == 11);
    assert("parallel_tool_calls"@.len() == 19);
    assert("reasoning"@.len() == 9);
    assert("store"@.len() == 5);
    assert("stream"@.len() == 6);
    assert("include"@.len() == 7);
    assert("service_tier"@.len() == 12);
    assert("prompt_cache_key"@.len() == 16);
    assert("prompt_cache_retention"@.len() == 22);
    assert("text"@.len() == 4);
    assert("previous_response_id"@.len() == 20);
    assert("llmconduit_replay"@.len() == 17);
    assert("temperature"@.len() == 11);
    assert("top_p"@.len() == 5);
    assert("max_output_tokens"@.len() == 17);
    assert("frequency_penalty"@.len() == 17);
    assert("presence_penalty"@.len() == 16);
    assert("truncation"@.len() == 10);
    assert("metadata"@.len() == 8);
    assert("stop"@.len() == 4);
    assert("model"@[0] != "input"@[0]);
    assert("model"@[0] != "tools"@[0]);
    assert("model"@[0] != "store"@[0]);
    assert("model"@[0] != "top_p"@[0]);
    assert("instructions"@[0] != "service_tier"@[0]);
    assert("input"@[0] != "tools"@[0]);
    assert("input"@[0] != "store"@[0]);
    assert("input"@[0] != "top_p"@[0]);
    assert("tools"@[0] != "store"@[0]);
    assert("tools"@[2] != "top_p"@[2]);
    assert("tool_choice"@[1] != "temperature"@[1]);
    assert("store"@[0] != "top_p"@[0]);
    assert("prompt_cache_key"@[2] != "presence_penalty"@[2]);
    assert("text"@[0] != "stop"@[0]);
    assert("llmconduit_replay"@[0] != "max_output_tokens"@[0]);
    assert("llmconduit_replay"@[0] != "frequency_penalty"@[0]);
    assert("max_output_tokens"@[0] != "frequency_penalty"@[0]);
    written::lemma_texts(r.includes@);
    if let Some(x) = r.stop {
        written::lemma_texts(x@);
    }
}

} // verus!
