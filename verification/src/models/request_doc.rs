//! The text of a request stands for the JSON that the request is.
use vstd::prelude::*;

use crate::json;
use crate::json::JsonView;
use crate::json_doc;
use crate::json_doc::Doc;
use crate::json_text;
use crate::models::item_doc;
use crate::models::request_text;
use crate::models::responses::CustomToolFormat;
use crate::models::responses::NamespaceToolSpec;
use crate::models::responses::ReasoningRequest;
use crate::models::responses::ResponseInstructions;
use crate::models::responses::ResponsesRequest;
use crate::models::responses::TextControls;
use crate::models::responses::TextFormat;
use crate::models::responses::ToolSpec;
use crate::models::wire;
use crate::text;

verus! {

// --- Parts -------------------------------------------------------------------------------------

/// A string, `null` where there is none.
pub open spec fn text_or_null(t: Option<Seq<char>>) -> Doc {
    match t {
        Some(t) => Doc::Text(t),
        None => Doc::Value(JsonView::Null),
    }
}

/// The members with one more, which is a string, unless it is empty.
pub open spec fn put_unless_empty(
    m: json_doc::Members,
    key: Seq<char>,
    t: Seq<char>,
) -> json_doc::Members {
    if t.len() == 0 {
        m
    } else {
        json_doc::put_text(m, key, t)
    }
}

proof fn lemma_plain()
    ensures
        json_doc::text_of(Doc::Value(JsonView::Null)) == Some("null"@),
        forall|b: bool|
            (#[trigger] json_doc::text_of(Doc::Value(JsonView::Bool(b)))) == Some(
                json_text::flag_text(b),
            ),
{
    reveal(json::value_text);
}

// --- Tools -------------------------------------------------------------------------------------

/// A tool of a namespace as it is written.
pub open spec fn namespace_tool_doc(item: NamespaceToolSpec) -> Doc {
    match item {
        NamespaceToolSpec::Function { name, description, strict, parameters } => {
            let m = json_doc::tagged("function"@);
            let m = json_doc::put_text(m, "name"@, name@);
            let m = put_unless_empty(m, "description"@, description@);
            let m = json_doc::put(m, "strict"@, Doc::Value(JsonView::Bool(strict)));
            let m = json_doc::put(m, "parameters"@, Doc::Value(parameters@));
            Doc::Object(m)
        },
    }
}

proof fn lemma_namespace_tool(item: NamespaceToolSpec)
    ensures
        json_doc::text_of(namespace_tool_doc(item)) == request_text::namespace_tool_text(item),
        json_doc::value_of(namespace_tool_doc(item)) == wire::namespace_tool_json(item),
{
    broadcast use json_doc::group_members;

    lemma_plain();
}

/// Tools of a namespace as they are written.
pub open spec fn namespace_tools_doc(items: Seq<NamespaceToolSpec>) -> Doc {
    Doc::Array(items.map_values(|item: NamespaceToolSpec| namespace_tool_doc(item)))
}

proof fn lemma_namespace_tools(items: Seq<NamespaceToolSpec>)
    ensures
        json_doc::text_of(namespace_tools_doc(items)) == request_text::namespace_tools_text(items),
        json_doc::value_of(namespace_tools_doc(items)) == wire::namespace_tools_json(items),
{
    let docs = items.map_values(|item: NamespaceToolSpec| namespace_tool_doc(item));
    let shown = items.map_values(|item: NamespaceToolSpec| request_text::namespace_tool_text(item));
    let meant = items.map_values(|item: NamespaceToolSpec| wire::namespace_tool_json(item));
    assert forall|i: int| 0 <= i < docs.len() implies json_doc::text_of(#[trigger] docs[i])
        == shown[i] && json_doc::value_of(docs[i]) == meant[i] by {
        lemma_namespace_tool(items[i]);
    }
    json_doc::lemma_array(docs, shown, meant);
}

/// The format of a custom tool as it is written.
pub open spec fn tool_format_doc(item: CustomToolFormat) -> Doc {
    match item {
        CustomToolFormat::Text => {
            let m = json_doc::tagged("text"@);
            Doc::Object(m)
        },
        CustomToolFormat::Grammar { syntax, definition } => {
            let m = json_doc::tagged("grammar"@);
            let m = json_doc::put_text(m, "syntax"@, syntax@);
            let m = json_doc::put_text(m, "definition"@, definition@);
            Doc::Object(m)
        },
    }
}

proof fn lemma_tool_format(item: CustomToolFormat)
    ensures
        json_doc::text_of(tool_format_doc(item)) == request_text::tool_format_text(item),
        json_doc::value_of(tool_format_doc(item)) == wire::tool_format_json(item),
{
    broadcast use json_doc::group_members;

    lemma_plain();
}

/// A tool as it is written.
pub open spec fn tool_doc(item: ToolSpec) -> Doc {
    match item {
        ToolSpec::Function { name, description, strict, parameters } => {
            let m = json_doc::tagged("function"@);
            let m = json_doc::put_text(m, "name"@, name@);
            let m = put_unless_empty(m, "description"@, description@);
            let m = json_doc::put(m, "strict"@, Doc::Value(JsonView::Bool(strict)));
            let m = json_doc::put(m, "parameters"@, Doc::Value(parameters@));
            Doc::Object(m)
        },
        ToolSpec::Namespace { name, description, tools } => {
            let m = json_doc::tagged("namespace"@);
            let m = json_doc::put_text(m, "name"@, name@);
            let m = json_doc::put_text(m, "description"@, description@);
            let m = json_doc::put(m, "tools"@, namespace_tools_doc(tools@));
            Doc::Object(m)
        },
        ToolSpec::ToolSearch { execution, description, parameters } => {
            let m = json_doc::tagged("tool_search"@);
            let m = json_doc::put_text(m, "execution"@, execution@);
            let m = json_doc::put_text(m, "description"@, description@);
            let m = json_doc::put(m, "parameters"@, Doc::Value(parameters@));
            Doc::Object(m)
        },
        ToolSpec::LocalShell {  } => {
            let m = json_doc::tagged("local_shell"@);
            Doc::Object(m)
        },
        ToolSpec::WebSearch {
            external_web_access,
            filters,
            user_location,
            search_context_size,
            search_content_types,
        } => {
            let m = json_doc::tagged("web_search"@);
            let m = json_doc::put(
                m,
                "external_web_access"@,
                match external_web_access {
                    Some(x) => Doc::Value(JsonView::Bool(x)),
                    None => Doc::Value(JsonView::Null),
                },
            );
            let m = json_doc::put(
                m,
                "filters"@,
                match filters {
                    Some(x) => Doc::Value(x@),
                    None => Doc::Value(JsonView::Null),
                },
            );
            let m = json_doc::put(
                m,
                "user_location"@,
                match user_location {
                    Some(x) => Doc::Value(x@),
                    None => Doc::Value(JsonView::Null),
                },
            );
            let m = json_doc::put(
                m,
                "search_context_size"@,
                text_or_null(text::opt_view(search_context_size)),
            );
            let m = json_doc::put(
                m,
                "search_content_types"@,
                match search_content_types {
                    Some(x) => json_doc::texts(text::strings_view(x@)),
                    None => Doc::Value(JsonView::Null),
                },
            );
            Doc::Object(m)
        },
        ToolSpec::Custom { name, description, format } => {
            let m = json_doc::tagged("custom"@);
            let m = json_doc::put_text(m, "name"@, name@);
            let m = put_unless_empty(m, "description"@, description@);
            let m = json_doc::put(m, "format"@, tool_format_doc(format));
            Doc::Object(m)
        },
        ToolSpec::ImageGeneration { output_format } => {
            let m = json_doc::tagged("image_generation"@);
            let m = json_doc::put(
                m,
                "output_format"@,
                text_or_null(text::opt_view(output_format)),
            );
            Doc::Object(m)
        },
    }
}

proof fn lemma_tool_function(item: ToolSpec)
    requires
        item is Function,
    ensures
        json_doc::text_of(tool_doc(item)) == request_text::tool_text(item),
        json_doc::value_of(tool_doc(item)) == wire::tool_json(item),
{
    broadcast use json_doc::group_members;

    lemma_plain();
}

proof fn lemma_tool_namespace(item: ToolSpec)
    requires
        item is Namespace,
    ensures
        json_doc::text_of(tool_doc(item)) == request_text::tool_text(item),
        json_doc::value_of(tool_doc(item)) == wire::tool_json(item),
{
    broadcast use json_doc::group_members;

    lemma_plain();
    if let ToolSpec::Namespace { tools, .. } = item {
        lemma_namespace_tools(tools@);
    }
}

proof fn lemma_tool_tool_search(item: ToolSpec)
    requires
        item is ToolSearch,
    ensures
        json_doc::text_of(tool_doc(item)) == request_text::tool_text(item),
        json_doc::value_of(tool_doc(item)) == wire::tool_json(item),
{
    broadcast use json_doc::group_members;

    lemma_plain();
}

proof fn lemma_tool_local_shell(item: ToolSpec)
    requires
        item is LocalShell,
    ensures
        json_doc::text_of(tool_doc(item)) == request_text::tool_text(item),
        json_doc::value_of(tool_doc(item)) == wire::tool_json(item),
{
    broadcast use json_doc::group_members;

    lemma_plain();
}

proof fn lemma_tool_web_search(item: ToolSpec)
    requires
        item is WebSearch,
    ensures
        json_doc::text_of(tool_doc(item)) == request_text::tool_text(item),
        json_doc::value_of(tool_doc(item)) == wire::tool_json(item),
{
    broadcast use json_doc::group_members;

    lemma_plain();
    if let ToolSpec::WebSearch { search_content_types: Some(types), .. } = item {
        json_doc::lemma_texts(text::strings_view(types@));
    }
}

proof fn lemma_tool_custom(item: ToolSpec)
    requires
        item is Custom,
    ensures
        json_doc::text_of(tool_doc(item)) == request_text::tool_text(item),
        json_doc::value_of(tool_doc(item)) == wire::tool_json(item),
{
    broadcast use json_doc::group_members;

    lemma_plain();
    if let ToolSpec::Custom { format, .. } = item {
        lemma_tool_format(format);
    }
}

proof fn lemma_tool_image_generation(item: ToolSpec)
    requires
        item is ImageGeneration,
    ensures
        json_doc::text_of(tool_doc(item)) == request_text::tool_text(item),
        json_doc::value_of(tool_doc(item)) == wire::tool_json(item),
{
    broadcast use json_doc::group_members;

    lemma_plain();
}

proof fn lemma_tool(item: ToolSpec)
    ensures
        json_doc::text_of(tool_doc(item)) == request_text::tool_text(item),
        json_doc::value_of(tool_doc(item)) == wire::tool_json(item),
{
    match item {
        ToolSpec::Function { .. } => {
            lemma_tool_function(item);
        },
        ToolSpec::Namespace { .. } => {
            lemma_tool_namespace(item);
        },
        ToolSpec::ToolSearch { .. } => {
            lemma_tool_tool_search(item);
        },
        ToolSpec::LocalShell { .. } => {
            lemma_tool_local_shell(item);
        },
        ToolSpec::WebSearch { .. } => {
            lemma_tool_web_search(item);
        },
        ToolSpec::Custom { .. } => {
            lemma_tool_custom(item);
        },
        ToolSpec::ImageGeneration { .. } => {
            lemma_tool_image_generation(item);
        },
    }
}

/// Tools as they are written.
pub open spec fn tools_doc(items: Seq<ToolSpec>) -> Doc {
    Doc::Array(items.map_values(|item: ToolSpec| tool_doc(item)))
}

proof fn lemma_tools(items: Seq<ToolSpec>)
    ensures
        json_doc::text_of(tools_doc(items)) == request_text::tools_text(items),
        json_doc::value_of(tools_doc(items)) == wire::tools_json(items),
{
    let docs = items.map_values(|item: ToolSpec| tool_doc(item));
    let shown = items.map_values(|item: ToolSpec| request_text::tool_text(item));
    let meant = items.map_values(|item: ToolSpec| wire::tool_json(item));
    assert forall|i: int| 0 <= i < docs.len() implies json_doc::text_of(#[trigger] docs[i])
        == shown[i] && json_doc::value_of(docs[i]) == meant[i] by {
        lemma_tool(items[i]);
    }
    json_doc::lemma_array(docs, shown, meant);
}

// --- The request -------------------------------------------------------------------------------

/// Instructions as they are written.
pub open spec fn instructions_doc(instructions: ResponseInstructions) -> Doc {
    match instructions {
        ResponseInstructions::Text(t) => Doc::Text(t@),
        ResponseInstructions::Items(items) => item_doc::items_doc(items@),
    }
}

proof fn lemma_instructions(instructions: ResponseInstructions)
    ensures
        json_doc::text_of(instructions_doc(instructions)) == request_text::instructions_text(
            instructions,
        ),
        json_doc::value_of(instructions_doc(instructions)) == wire::instructions_json(
            instructions,
        ),
{
    if let ResponseInstructions::Items(items) = instructions {
        item_doc::lemma_items(items@);
    }
}

/// What is asked of reasoning, as it is written.
pub open spec fn reasoning_doc(item: ReasoningRequest) -> Doc {
    let m = json_doc::put(Seq::empty(), "effort"@, text_or_null(text::opt_view(item.effort)));
    let m = json_doc::put(m, "summary"@, text_or_null(text::opt_view(item.summary)));
    Doc::Object(m)
}

proof fn lemma_reasoning(item: ReasoningRequest)
    ensures
        json_doc::text_of(reasoning_doc(item)) == request_text::reasoning_text(item),
        json_doc::value_of(reasoning_doc(item)) == wire::reasoning_request_json(item),
{
    broadcast use json_doc::group_members;

    lemma_plain();
    json_doc::lemma_no_members();
}

/// A text format as it is written.
pub open spec fn format_doc(format: TextFormat) -> Doc {
    let m = json_doc::tagged(format.kind@);
    if format.kind@ == "json_schema"@ {
        let m = json_doc::put_text(m, "name"@, format.name@);
        let m = json_doc::put(m, "schema"@, Doc::Value(format.schema@));
        let m = json_doc::put(m, "strict"@, Doc::Value(JsonView::Bool(format.strict)));
        let m = json_doc::put_opt_text(m, "description"@, text::opt_view(format.description));
        Doc::Object(m)
    } else {
        Doc::Object(m)
    }
}

proof fn lemma_format(format: TextFormat)
    requires
        wire::text_format_json(format) is Ok,
    ensures
        json_doc::text_of(format_doc(format)) == request_text::format_text(format),
        json_doc::value_of(format_doc(format)) == wire::text_format_json(format)->Ok_0,
{
    broadcast use json_doc::group_members;

    lemma_plain();
    reveal_strlit("text");
    reveal_strlit("json_object");
    reveal_strlit("json_schema");
    assert("text"@.len() == 4 && "json_object"@.len() == 11 && "json_schema"@.len() == 11);
    assert("json_object"@[5] != "json_schema"@[5]);
}

/// What is asked of the output text, as it is written.
pub open spec fn controls_doc(item: TextControls) -> Doc {
    let m = json_doc::put(
        Seq::empty(),
        "verbosity"@,
        text_or_null(text::opt_view(item.verbosity)),
    );
    let format = match item.format {
        Some(x) => format_doc(x),
        None => Doc::Value(JsonView::Null),
    };
    Doc::Object(json_doc::put(m, "format"@, format))
}

proof fn lemma_controls(item: TextControls)
    requires
        wire::text_controls_json(item) is Ok,
    ensures
        json_doc::text_of(controls_doc(item)) == request_text::controls_text(item),
        json_doc::value_of(controls_doc(item)) == wire::text_controls_json(item)->Ok_0,
{
    broadcast use json_doc::group_members;

    lemma_plain();
    json_doc::lemma_no_members();
    if let Some(format) = item.format {
        lemma_format(format);
    }
}

/// The members with those of the first `n` other fields that no typed field is named like.
pub open spec fn with_extra(
    m: json_doc::Members,
    extra: Seq<(Seq<char>, JsonView)>,
    n: int,
) -> json_doc::Members
    decreases n,
{
    if n <= 0 || n > extra.len() {
        m
    } else {
        let before = with_extra(m, extra, n - 1);
        let (key, value) = extra[n - 1];
        if wire::typed_fields().contains(key) {
            before
        } else {
            json_doc::put(before, key, Doc::Value(value))
        }
    }
}

proof fn lemma_extra(
    m: json_doc::Members,
    f: json_text::Fields,
    v: Seq<(Seq<char>, JsonView)>,
    extra: Seq<(Seq<char>, JsonView)>,
    n: int,
)
    requires
        json_doc::fields(m) == f,
        json_doc::members(m) == v,
    ensures
        json_doc::fields(with_extra(m, extra, n)) == request_text::with_extra(f, extra, n),
        json_doc::members(with_extra(m, extra, n)) == wire::with_extra(v, extra, n),
    decreases n,
{
    broadcast use json_doc::group_members;

    if 0 < n <= extra.len() {
        lemma_extra(m, f, v, extra, n - 1);
    }
}

/// What a request asks for, as it is written.
pub open spec fn asked_doc(request: ResponsesRequest) -> json_doc::Members {
    let m: json_doc::Members = Seq::empty();
    let m = json_doc::put_text(m, "model"@, request.model@);
    let m = json_doc::put(m, "instructions"@, instructions_doc(request.instructions));
    let m = json_doc::put(m, "input"@, item_doc::items_doc(request.input@));
    let m = json_doc::put(m, "tools"@, tools_doc(request.tools@));
    let m = json_doc::put(m, "tool_choice"@, Doc::Value(request.tool_choice@));
    let m = match request.parallel_tool_calls {
        Some(x) => json_doc::put(m, "parallel_tool_calls"@, Doc::Value(JsonView::Bool(x))),
        None => m,
    };
    let m = json_doc::put(
        m,
        "reasoning"@,
        match request.reasoning {
            Some(x) => reasoning_doc(x),
            None => Doc::Value(JsonView::Null),
        },
    );
    m
}

/// How a request is to be handled, as it is written.
pub open spec fn handling_doc(
    m: json_doc::Members,
    request: ResponsesRequest,
) -> json_doc::Members {
    let m = json_doc::put(m, "store"@, Doc::Value(JsonView::Bool(request.store)));
    let m = json_doc::put(m, "stream"@, Doc::Value(JsonView::Bool(request.stream)));
    let m = json_doc::put(m, "include"@, json_doc::texts(text::strings_view(request.includes@)));
    let m = json_doc::put(m, "service_tier"@, text_or_null(text::opt_view(request.service_tier)));
    let m = json_doc::put(
        m,
        "prompt_cache_key"@,
        text_or_null(text::opt_view(request.prompt_cache_key)),
    );
    let m = json_doc::put(
        m,
        "prompt_cache_retention"@,
        text_or_null(text::opt_view(request.prompt_cache_retention)),
    );
    m
}

/// What a request says of its output, as it is written.
pub open spec fn output_doc(m: json_doc::Members, request: ResponsesRequest) -> json_doc::Members {
    let m = json_doc::put(
        m,
        "text"@,
        match request.text {
            Some(x) => controls_doc(x),
            None => Doc::Value(JsonView::Null),
        },
    );
    let m = json_doc::put(
        m,
        "previous_response_id"@,
        text_or_null(text::opt_view(request.previous_response_id)),
    );
    let m = match request.llmconduit_replay {
        Some(x) => json_doc::put(m, "llmconduit_replay"@, Doc::Value(JsonView::Bool(x))),
        None => m,
    };
    m
}

/// How a request wants tokens to be chosen, as it is written.
pub open spec fn sampling_doc(
    m: json_doc::Members,
    request: ResponsesRequest,
) -> json_doc::Members {
    let m = match request.temperature {
        Some(x) => json_doc::put(m, "temperature"@, Doc::Value(JsonView::Number(x@))),
        None => m,
    };
    let m = match request.top_p {
        Some(x) => json_doc::put(m, "top_p"@, Doc::Value(JsonView::Number(x@))),
        None => m,
    };
    let m = match request.max_output_tokens {
        Some(x) => json_doc::put(m, "max_output_tokens"@, Doc::Whole(x as int)),
        None => m,
    };
    let m = match request.frequency_penalty {
        Some(x) => json_doc::put(m, "frequency_penalty"@, Doc::Value(JsonView::Number(x@))),
        None => m,
    };
    let m = match request.presence_penalty {
        Some(x) => json_doc::put(m, "presence_penalty"@, Doc::Value(JsonView::Number(x@))),
        None => m,
    };
    m
}

/// What else a request says, as it is written.
pub open spec fn rest_doc(m: json_doc::Members, request: ResponsesRequest) -> json_doc::Members {
    let m = json_doc::put(
        m,
        "truncation"@,
        match request.truncation {
            Some(x) => Doc::Value(x@),
            None => Doc::Value(JsonView::Null),
        },
    );
    let m = json_doc::put(
        m,
        "metadata"@,
        match request.metadata {
            Some(x) => Doc::Value(JsonView::Object(x@)),
            None => Doc::Value(JsonView::Null),
        },
    );
    let m = match request.stop {
        Some(x) => json_doc::put(m, "stop"@, json_doc::texts(text::strings_view(x@))),
        None => m,
    };
    m
}

/// The typed fields of a request, as they are written.
pub open spec fn typed_doc(request: ResponsesRequest) -> json_doc::Members {
    let m = asked_doc(request);
    let m = handling_doc(m, request);
    let m = output_doc(m, request);
    let m = sampling_doc(m, request);
    rest_doc(m, request)
}

/// What a request asks for, by its members.
pub open spec fn asked_members(request: ResponsesRequest) -> Seq<(Seq<char>, JsonView)> {
    let m: Seq<(Seq<char>, JsonView)> = Seq::empty();
    let m = json::put_text(m, "model"@, request.model@);
    let m = json::set_member(m, "instructions"@, wire::instructions_json(request.instructions));
    let m = json::set_member(m, "input"@, wire::items_json(request.input@));
    let m = json::set_member(m, "tools"@, wire::tools_json(request.tools@));
    let m = json::set_member(m, "tool_choice"@, request.tool_choice@);
    let m = json::put_opt(m, "parallel_tool_calls"@, wire::opt_bool_json(request.parallel_tool_calls));
    let m = json::set_member(
        m,
        "reasoning"@,
        json::or_null(wire::opt_reasoning_request_json(request.reasoning)),
    );
    m
}

/// How a request is to be handled, by its members.
pub open spec fn handling_members(
    m: Seq<(Seq<char>, JsonView)>,
    request: ResponsesRequest,
) -> Seq<(Seq<char>, JsonView)> {
    let m = json::set_member(m, "store"@, JsonView::Bool(request.store));
    let m = json::set_member(m, "stream"@, JsonView::Bool(request.stream));
    let m = json::set_member(
        m,
        "include"@,
        json::text_array(text::strings_view(request.includes@)),
    );
    let m = json::put_text_or_null(m, "service_tier"@, text::opt_view(request.service_tier));
    let m = json::put_text_or_null(
        m,
        "prompt_cache_key"@,
        text::opt_view(request.prompt_cache_key),
    );
    let m = json::put_text_or_null(
        m,
        "prompt_cache_retention"@,
        text::opt_view(request.prompt_cache_retention),
    );
    m
}

/// What a request says of its output, by its members.
pub open spec fn output_members(
    m: Seq<(Seq<char>, JsonView)>,
    request: ResponsesRequest,
    controls: JsonView,
) -> Seq<(Seq<char>, JsonView)> {
    let m = json::set_member(m, "text"@, controls);
    let m = json::put_text_or_null(
        m,
        "previous_response_id"@,
        text::opt_view(request.previous_response_id),
    );
    let m = json::put_opt(m, "llmconduit_replay"@, wire::opt_bool_json(request.llmconduit_replay));
    m
}

/// How a request wants tokens to be chosen, by its members.
pub open spec fn sampling_members(
    m: Seq<(Seq<char>, JsonView)>,
    request: ResponsesRequest,
) -> Seq<(Seq<char>, JsonView)> {
    let m = json::put_opt(m, "temperature"@, wire::opt_number_json(request.temperature));
    let m = json::put_opt(m, "top_p"@, wire::opt_number_json(request.top_p));
    let m = json::put_opt(
        m,
        "max_output_tokens"@,
        wire::opt_whole_json(wire::opt_int(request.max_output_tokens)),
    );
    let m = json::put_opt(m, "frequency_penalty"@, wire::opt_number_json(request.frequency_penalty));
    let m = json::put_opt(m, "presence_penalty"@, wire::opt_number_json(request.presence_penalty));
    m
}

/// What else a request says, by its members.
pub open spec fn rest_members(
    m: Seq<(Seq<char>, JsonView)>,
    request: ResponsesRequest,
) -> Seq<(Seq<char>, JsonView)> {
    let m = json::set_member(
        m,
        "truncation"@,
        json::or_null(json::opt_json_view(request.truncation)),
    );
    let m = json::set_member(m, "metadata"@, json::or_null(wire::opt_object_json(request.metadata)));
    let m = json::put_opt(m, "stop"@, wire::opt_texts_json(request.stop));
    m
}

/// A request as it is written.
pub open spec fn request_doc(request: ResponsesRequest) -> Doc {
    Doc::Object(
        with_extra(
            typed_doc(request),
            request.extra_body@,
            request.extra_body@.len() as int,
        ),
    )
}

/// What is asked of the output text as JSON, `null` where nothing is.
pub open spec fn controls_of(request: ResponsesRequest) -> JsonView {
    match request.text {
        Some(text) => wire::text_controls_json(text)->Ok_0,
        None => JsonView::Null,
    }
}

proof fn lemma_asked(request: ResponsesRequest)
    ensures
        json_doc::fields(asked_doc(request)) == request_text::asked_text(request),
        json_doc::members(asked_doc(request)) == asked_members(request),
{
    broadcast use json_doc::group_members;

    lemma_plain();
    json_doc::lemma_no_members();
    lemma_instructions(request.instructions);
    item_doc::lemma_items(request.input@);
    lemma_tools(request.tools@);
    if let Some(reasoning) = request.reasoning {
        lemma_reasoning(reasoning);
    }
}

proof fn lemma_handling(m: json_doc::Members, request: ResponsesRequest)
    ensures
        json_doc::fields(handling_doc(m, request)) == request_text::handling_text(
            json_doc::fields(m),
            request,
        ),
        json_doc::members(handling_doc(m, request)) == handling_members(
            json_doc::members(m),
            request,
        ),
{
    broadcast use json_doc::group_members;

    lemma_plain();
    json_doc::lemma_texts(text::strings_view(request.includes@));
}

proof fn lemma_output(m: json_doc::Members, request: ResponsesRequest)
    requires
        request.json() is Ok,
    ensures
        json_doc::fields(output_doc(m, request)) == request_text::output_text(
            json_doc::fields(m),
            request,
        ),
        json_doc::members(output_doc(m, request)) == output_members(
            json_doc::members(m),
            request,
            controls_of(request),
        ),
{
    broadcast use json_doc::group_members;

    lemma_plain();
    if let Some(text) = request.text {
        lemma_controls(text);
    }
}

proof fn lemma_sampling(m: json_doc::Members, request: ResponsesRequest)
    ensures
        json_doc::fields(sampling_doc(m, request)) == request_text::sampling_text(
            json_doc::fields(m),
            request,
        ),
        json_doc::members(sampling_doc(m, request)) == sampling_members(
            json_doc::members(m),
            request,
        ),
{
    broadcast use json_doc::group_members;

    lemma_plain();
}

proof fn lemma_rest(m: json_doc::Members, request: ResponsesRequest)
    ensures
        json_doc::fields(rest_doc(m, request)) == request_text::rest_text(
            json_doc::fields(m),
            request,
        ),
        json_doc::members(rest_doc(m, request)) == rest_members(
            json_doc::members(m),
            request,
        ),
{
    broadcast use json_doc::group_members;

    lemma_plain();
    if let Some(stop) = request.stop {
        json_doc::lemma_texts(text::strings_view(stop@));
    }
}

proof fn lemma_members(request: ResponsesRequest, controls: JsonView)
    ensures
        request.typed_members(controls) == rest_members(
            sampling_members(
                output_members(
                    handling_members(asked_members(request), request),
                    request,
                    controls,
                ),
                request,
            ),
            request,
        ),
{
}

proof fn lemma_typed(request: ResponsesRequest)
    requires
        request.json() is Ok,
    ensures
        json_doc::fields(typed_doc(request)) == request_text::typed_text(request),
        json_doc::members(typed_doc(request)) == request.typed_members(controls_of(request)),
{
    let asked = asked_doc(request);
    let handling = handling_doc(asked, request);
    let output = output_doc(handling, request);
    let sampling = sampling_doc(output, request);
    lemma_asked(request);
    lemma_handling(asked, request);
    lemma_output(handling, request);
    lemma_sampling(output, request);
    lemma_rest(sampling, request);
    lemma_members(request, controls_of(request));
}

/// The text of a request is that of a document which stands for the JSON that the request
/// is: what is written in order is the same as what is written by key.
pub proof fn law_request_text_is_its_json(request: ResponsesRequest)
    requires
        request.json() is Ok,
    ensures
        json_doc::text_of(request_doc(request)) == request_text::request_text(request),
        json_doc::value_of(request_doc(request)) == request.json()->Ok_0,
{
    broadcast use json_doc::group_members;

    lemma_typed(request);
    let controls = controls_of(request);
    lemma_extra(
        typed_doc(request),
        request_text::typed_text(request),
        request.typed_members(controls),
        request.extra_body@,
        request.extra_body@.len() as int,
    );
}

} // verus!
