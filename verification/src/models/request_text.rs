//! A request of the Responses surface as JSON text, with the members in the order in which
//! they are written.
use vstd::prelude::*;

use crate::json;
use crate::json::Json;
use crate::json::JsonNumber;
use crate::json::JsonView;
use crate::json_string;
use crate::json_string::encode_json_string;
use crate::json_text;
use crate::json_text::array_of;
use crate::json_text::flag_of;
use crate::json_text::strings_of;
use crate::json_text::text_or_null_of;
use crate::json_text::ObjectText;
use crate::models::item_text;
use crate::models::item_text::items_to_text;
use crate::models::responses::CustomToolFormat;
use crate::models::responses::NamespaceToolSpec;
use crate::models::responses::ReasoningRequest;
use crate::models::responses::ResponseInstructions;
use crate::models::responses::ResponsesRequest;
use crate::models::responses::TextControls;
use crate::models::responses::TextFormat;
use crate::models::responses::ToolSpec;
use crate::models::wire;
use crate::text;
use crate::text::signed_of;

verus! {

// --- Tools -------------------------------------------------------------------------------------

/// The members with one more, which is a string, unless it is empty.
pub open spec fn put_unless_empty(
    m: json_text::Fields,
    key: Seq<char>,
    t: Seq<char>,
) -> json_text::Fields {
    if t.len() == 0 {
        m
    } else {
        json_text::put_text(m, key, t)
    }
}

fn add_unless_empty(m: &mut ObjectText, key: &str, t: &str)
    ensures
        final(m)@ == put_unless_empty(old(m)@, key@, t@),
{
    if !t.is_empty() {
        m.put_text(key, t);
    }
}

/// A tool of a namespace as text.
pub open spec fn namespace_tool_text(item: NamespaceToolSpec) -> Option<Seq<char>> {
    match item {
        NamespaceToolSpec::Function { name, description, strict, parameters } => {
            let m = json_text::tagged("function"@);
            let m = json_text::put_text(m, "name"@, name@);
            let m = put_unless_empty(m, "description"@, description@);
            let m = json_text::put(m, "strict"@, Some(json_text::flag_text(strict)));
            let m = json_text::put(m, "parameters"@, json::rendered_json(parameters@));
            json_text::object_text(m)
        },
    }
}

impl NamespaceToolSpec {
    /// A tool of a namespace as text.
    pub fn to_text(&self) -> (r: Option<String>)
        ensures
            text::opt_view(r) == namespace_tool_text(*self),
    {
        match self {
            NamespaceToolSpec::Function { name, description, strict, parameters } => {
                let mut m = ObjectText::of_type("function");
                m.put_text("name", name.as_str());
                add_unless_empty(&mut m, "description", description.as_str());
                m.put("strict", Some(flag_of(*strict)));
                m.put("parameters", parameters.render());
                m.into_text()
            },
        }
    }
}

/// Tools of a namespace as text.
pub open spec fn namespace_tools_text(items: Seq<NamespaceToolSpec>) -> Option<Seq<char>> {
    json_text::array_text(items.map_values(|item: NamespaceToolSpec| namespace_tool_text(item)))
}

/// Tools of a namespace as text.
pub fn namespace_tools_to_text(items: &Vec<NamespaceToolSpec>) -> (r: Option<String>)
    ensures
        text::opt_view(r) == namespace_tools_text(items@),
{
    let mut texts: Vec<Option<String>> = Vec::new();
    let mut i: usize = 0;
    while i < items.len()
        invariant
            i <= items@.len(),
            texts@.len() == i,
            forall|k: int|
                0 <= k < i ==> text::opt_view(#[trigger] texts@[k]) == namespace_tool_text(items@[k]),
        decreases items@.len() - i,
    {
        texts.push(items[i].to_text());
        i += 1;
    }
    assert(texts@.map_values(|t: Option<String>| text::opt_view(t)) =~= items@.map_values(
        |item: NamespaceToolSpec| namespace_tool_text(item),
    ));
    array_of(texts)
}

/// The format of a custom tool as text.
pub open spec fn tool_format_text(item: CustomToolFormat) -> Option<Seq<char>> {
    match item {
        CustomToolFormat::Text => {
            let m = json_text::tagged("text"@);
            json_text::object_text(m)
        },
        CustomToolFormat::Grammar { syntax, definition } => {
            let m = json_text::tagged("grammar"@);
            let m = json_text::put_text(m, "syntax"@, syntax@);
            let m = json_text::put_text(m, "definition"@, definition@);
            json_text::object_text(m)
        },
    }
}

impl CustomToolFormat {
    /// The format of a custom tool as text.
    pub fn to_text(&self) -> (r: Option<String>)
        ensures
            text::opt_view(r) == tool_format_text(*self),
    {
        match self {
            CustomToolFormat::Text => {
                let m = ObjectText::of_type("text");
                m.into_text()
            },
            CustomToolFormat::Grammar { syntax, definition } => {
                let mut m = ObjectText::of_type("grammar");
                m.put_text("syntax", syntax.as_str());
                m.put_text("definition", definition.as_str());
                m.into_text()
            },
        }
    }
}

/// A tool as text.
pub open spec fn tool_text(item: ToolSpec) -> Option<Seq<char>> {
    match item {
        ToolSpec::Function { name, description, strict, parameters } => {
            let m = json_text::tagged("function"@);
            let m = json_text::put_text(m, "name"@, name@);
            let m = put_unless_empty(m, "description"@, description@);
            let m = json_text::put(m, "strict"@, Some(json_text::flag_text(strict)));
            let m = json_text::put(m, "parameters"@, json::rendered_json(parameters@));
            json_text::object_text(m)
        },
        ToolSpec::Namespace { name, description, tools } => {
            let m = json_text::tagged("namespace"@);
            let m = json_text::put_text(m, "name"@, name@);
            let m = json_text::put_text(m, "description"@, description@);
            let m = json_text::put(m, "tools"@, namespace_tools_text(tools@));
            json_text::object_text(m)
        },
        ToolSpec::ToolSearch { execution, description, parameters } => {
            let m = json_text::tagged("tool_search"@);
            let m = json_text::put_text(m, "execution"@, execution@);
            let m = json_text::put_text(m, "description"@, description@);
            let m = json_text::put(m, "parameters"@, json::rendered_json(parameters@));
            json_text::object_text(m)
        },
        ToolSpec::LocalShell {  } => {
            let m = json_text::tagged("local_shell"@);
            json_text::object_text(m)
        },
        ToolSpec::WebSearch {
            external_web_access,
            filters,
            user_location,
            search_context_size,
            search_content_types,
        } => {
            let m = json_text::tagged("web_search"@);
            let m = json_text::put(
                m,
                "external_web_access"@,
                match external_web_access {
                    Some(x) => Some(json_text::flag_text(x)),
                    None => Some("null"@),
                },
            );
            let m = json_text::put(
                m,
                "filters"@,
                match filters {
                    Some(x) => json::rendered_json(x@),
                    None => Some("null"@),
                },
            );
            let m = json_text::put(
                m,
                "user_location"@,
                match user_location {
                    Some(x) => json::rendered_json(x@),
                    None => Some("null"@),
                },
            );
            let m = json_text::put(
                m,
                "search_context_size"@,
                Some(json_text::text_or_null(text::opt_view(search_context_size))),
            );
            let m = json_text::put(
                m,
                "search_content_types"@,
                match search_content_types {
                    Some(x) => Some(json_text::strings_text(text::strings_view(x@))),
                    None => Some("null"@),
                },
            );
            json_text::object_text(m)
        },
        ToolSpec::Custom { name, description, format } => {
            let m = json_text::tagged("custom"@);
            let m = json_text::put_text(m, "name"@, name@);
            let m = put_unless_empty(m, "description"@, description@);
            let m = json_text::put(m, "format"@, tool_format_text(format));
            json_text::object_text(m)
        },
        ToolSpec::ImageGeneration { output_format } => {
            let m = json_text::tagged("image_generation"@);
            let m = json_text::put(
                m,
                "output_format"@,
                Some(json_text::text_or_null(text::opt_view(output_format))),
            );
            json_text::object_text(m)
        },
    }
}

impl ToolSpec {
    /// A tool as text.
    pub fn to_text(&self) -> (r: Option<String>)
        ensures
            text::opt_view(r) == tool_text(*self),
    {
        match self {
            ToolSpec::Function { name, description, strict, parameters } => {
                let mut m = ObjectText::of_type("function");
                m.put_text("name", name.as_str());
                add_unless_empty(&mut m, "description", description.as_str());
                m.put("strict", Some(flag_of(*strict)));
                m.put("parameters", parameters.render());
                m.into_text()
            },
            ToolSpec::Namespace { name, description, tools } => {
                let mut m = ObjectText::of_type("namespace");
                m.put_text("name", name.as_str());
                m.put_text("description", description.as_str());
                m.put("tools", namespace_tools_to_text(tools));
                m.into_text()
            },
            ToolSpec::ToolSearch { execution, description, parameters } => {
                let mut m = ObjectText::of_type("tool_search");
                m.put_text("execution", execution.as_str());
                m.put_text("description", description.as_str());
                m.put("parameters", parameters.render());
                m.into_text()
            },
            ToolSpec::LocalShell {  } => {
                let m = ObjectText::of_type("local_shell");
                m.into_text()
            },
            ToolSpec::WebSearch {
            external_web_access,
            filters,
            user_location,
            search_context_size,
            search_content_types,
        } => {
                let mut m = ObjectText::of_type("web_search");
                let value = match external_web_access {
                    Some(x) => Some(flag_of(*x)),
                    None => Some("null".to_owned()),
                };
                m.put("external_web_access", value);
                let value = match filters {
                    Some(x) => x.render(),
                    None => Some("null".to_owned()),
                };
                m.put("filters", value);
                let value = match user_location {
                    Some(x) => x.render(),
                    None => Some("null".to_owned()),
                };
                m.put("user_location", value);
                m.put("search_context_size", Some(text_or_null_of(search_context_size)));
                let value = match search_content_types {
                    Some(x) => Some(strings_of(x)),
                    None => Some("null".to_owned()),
                };
                m.put("search_content_types", value);
                m.into_text()
            },
            ToolSpec::Custom { name, description, format } => {
                let mut m = ObjectText::of_type("custom");
                m.put_text("name", name.as_str());
                add_unless_empty(&mut m, "description", description.as_str());
                m.put("format", format.to_text());
                m.into_text()
            },
            ToolSpec::ImageGeneration { output_format } => {
                let mut m = ObjectText::of_type("image_generation");
                m.put("output_format", Some(text_or_null_of(output_format)));
                m.into_text()
            },
        }
    }
}

/// Tools as text.
pub open spec fn tools_text(items: Seq<ToolSpec>) -> Option<Seq<char>> {
    json_text::array_text(items.map_values(|item: ToolSpec| tool_text(item)))
}

/// Tools as text.
pub fn tools_to_text(items: &Vec<ToolSpec>) -> (r: Option<String>)
    ensures
        text::opt_view(r) == tools_text(items@),
{
    let mut texts: Vec<Option<String>> = Vec::new();
    let mut i: usize = 0;
    while i < items.len()
        invariant
            i <= items@.len(),
            texts@.len() == i,
            forall|k: int|
                0 <= k < i ==> text::opt_view(#[trigger] texts@[k]) == tool_text(items@[k]),
        decreases items@.len() - i,
    {
        texts.push(items[i].to_text());
        i += 1;
    }
    assert(texts@.map_values(|t: Option<String>| text::opt_view(t)) =~= items@.map_values(
        |item: ToolSpec| tool_text(item),
    ));
    array_of(texts)
}

// --- Parts of a request ------------------------------------------------------------------------

/// Instructions as text.
pub open spec fn instructions_text(instructions: ResponseInstructions) -> Option<Seq<char>> {
    match instructions {
        ResponseInstructions::Text(t) => Some(json_string::quoted(t@)),
        ResponseInstructions::Items(items) => item_text::items_text(items@),
    }
}

impl ResponseInstructions {
    /// Instructions as text.
    pub fn to_text(&self) -> (r: Option<String>)
        ensures
            text::opt_view(r) == instructions_text(*self),
    {
        match self {
            ResponseInstructions::Text(t) => Some(encode_json_string(t.as_str())),
            ResponseInstructions::Items(items) => items_to_text(items),
        }
    }
}

/// What is asked of reasoning as text.
pub open spec fn reasoning_text(item: ReasoningRequest) -> Option<Seq<char>> {
    let m = Some(Seq::<Seq<char>>::empty());
    let m = json_text::put(
        m,
        "effort"@,
        Some(json_text::text_or_null(text::opt_view(item.effort))),
    );
    let m = json_text::put(
        m,
        "summary"@,
        Some(json_text::text_or_null(text::opt_view(item.summary))),
    );
    json_text::object_text(m)
}

impl ReasoningRequest {
    /// What is asked of reasoning as text.
    pub fn to_text(&self) -> (r: Option<String>)
        ensures
            text::opt_view(r) == reasoning_text(*self),
    {
        let mut m = ObjectText::new();
        m.put("effort", Some(text_or_null_of(&self.effort)));
        m.put("summary", Some(text_or_null_of(&self.summary)));
        m.into_text()
    }
}

/// A text format as text; none of a type that no format has.
pub open spec fn format_text(format: TextFormat) -> Option<Seq<char>> {
    if format.kind@ == "text"@ || format.kind@ == "json_object"@ {
        json_text::object_text(json_text::tagged(format.kind@))
    } else if format.kind@ == "json_schema"@ {
        let m = json_text::tagged("json_schema"@);
        let m = json_text::put_text(m, "name"@, format.name@);
        let m = json_text::put(m, "schema"@, json::rendered_json(format.schema@));
        let m = json_text::put(m, "strict"@, Some(json_text::flag_text(format.strict)));
        let m = json_text::put_opt_text(m, "description"@, text::opt_view(format.description));
        json_text::object_text(m)
    } else {
        None
    }
}

impl TextFormat {
    /// A text format as text.
    pub fn to_text(&self) -> (r: Option<String>)
        ensures
            text::opt_view(r) == format_text(*self),
    {
        let kind = self.kind.as_str();
        if text::str_eq(kind, "text") || text::str_eq(kind, "json_object") {
            return ObjectText::of_type(kind).into_text();
        }
        if !text::str_eq(kind, "json_schema") {
            return None;
        }
        let mut m = ObjectText::of_type("json_schema");
        m.put_text("name", self.name.as_str());
        m.put("schema", self.schema.render());
        m.put("strict", Some(flag_of(self.strict)));
        m.put_opt_text("description", &self.description);
        m.into_text()
    }
}

/// What is asked of the output text as text.
pub open spec fn controls_text(item: TextControls) -> Option<Seq<char>> {
    let m = Some(Seq::<Seq<char>>::empty());
    let m = json_text::put(
        m,
        "verbosity"@,
        Some(json_text::text_or_null(text::opt_view(item.verbosity))),
    );
    let m = json_text::put(
        m,
        "format"@,
        match item.format {
            Some(x) => format_text(x),
            None => Some("null"@),
        },
    );
    json_text::object_text(m)
}

impl TextControls {
    /// What is asked of the output text as text.
    pub fn to_text(&self) -> (r: Option<String>)
        ensures
            text::opt_view(r) == controls_text(*self),
    {
        let mut m = ObjectText::new();
        m.put("verbosity", Some(text_or_null_of(&self.verbosity)));
        let value = match &self.format {
            Some(x) => x.to_text(),
            None => Some("null".to_owned()),
        };
        m.put("format", value);
        m.into_text()
    }
}

/// The text of a number, none where there is no number.
pub open spec fn number_text(n: JsonNumber) -> Option<Seq<char>> {
    json::rendered_json(JsonView::Number(n@))
}

pub(crate) fn number_of(n: &JsonNumber) -> (r: Option<String>)
    ensures
        text::opt_view(r) == number_text(*n),
{
    Json::Number(n.copy()).render()
}

// --- The request -------------------------------------------------------------------------------

/// The members with those of the first `n` other fields that no typed field is named like.
pub open spec fn with_extra(
    m: json_text::Fields,
    extra: Seq<(Seq<char>, JsonView)>,
    n: int,
) -> json_text::Fields
    decreases n,
{
    if n <= 0 || n > extra.len() {
        m
    } else {
        let before = with_extra(m, extra, n - 1);
        let (key, value) = extra[n - 1];
        if wire::typed_fields().contains(key) {
            before
        } else {
            json_text::put(before, key, json::rendered_json(value))
        }
    }
}

/// What a request asks for, as text.
pub open spec fn asked_text(request: ResponsesRequest) -> json_text::Fields {
    let m: json_text::Fields = Some(Seq::<Seq<char>>::empty());
    let m = json_text::put_text(m, "model"@, request.model@);
    let m = json_text::put(m, "instructions"@, instructions_text(request.instructions));
    let m = json_text::put(m, "input"@, item_text::items_text(request.input@));
    let m = json_text::put(m, "tools"@, tools_text(request.tools@));
    let m = json_text::put(m, "tool_choice"@, json::rendered_json(request.tool_choice@));
    let m = match request.parallel_tool_calls {
        Some(x) => json_text::put(m, "parallel_tool_calls"@, Some(json_text::flag_text(x))),
        None => m,
    };
    let m = json_text::put(
        m,
        "reasoning"@,
        match request.reasoning {
            Some(x) => reasoning_text(x),
            None => Some("null"@),
        },
    );
    m
}

/// How a request is to be handled, as text.
pub open spec fn handling_text(
    m: json_text::Fields,
    request: ResponsesRequest,
) -> json_text::Fields {
    let m = json_text::put(m, "store"@, Some(json_text::flag_text(request.store)));
    let m = json_text::put(m, "stream"@, Some(json_text::flag_text(request.stream)));
    let m = json_text::put(
        m,
        "include"@,
        Some(json_text::strings_text(text::strings_view(request.includes@))),
    );
    let m = json_text::put(
        m,
        "service_tier"@,
        Some(json_text::text_or_null(text::opt_view(request.service_tier))),
    );
    let m = json_text::put(
        m,
        "prompt_cache_key"@,
        Some(json_text::text_or_null(text::opt_view(request.prompt_cache_key))),
    );
    let m = json_text::put(
        m,
        "prompt_cache_retention"@,
        Some(json_text::text_or_null(text::opt_view(request.prompt_cache_retention))),
    );
    m
}

/// What a request says of its output, as text.
pub open spec fn output_text(
    m: json_text::Fields,
    request: ResponsesRequest,
) -> json_text::Fields {
    let m = json_text::put(
        m,
        "text"@,
        match request.text {
            Some(x) => controls_text(x),
            None => Some("null"@),
        },
    );
    let m = json_text::put(
        m,
        "previous_response_id"@,
        Some(json_text::text_or_null(text::opt_view(request.previous_response_id))),
    );
    let m = match request.llmconduit_replay {
        Some(x) => json_text::put(m, "llmconduit_replay"@, Some(json_text::flag_text(x))),
        None => m,
    };
    m
}

/// How a request wants tokens to be chosen, as text.
pub open spec fn sampling_text(
    m: json_text::Fields,
    request: ResponsesRequest,
) -> json_text::Fields {
    let m = match request.temperature {
        Some(x) => json_text::put(m, "temperature"@, number_text(x)),
        None => m,
    };
    let m = match request.top_p {
        Some(x) => json_text::put(m, "top_p"@, number_text(x)),
        None => m,
    };
    let m = match request.max_output_tokens {
        Some(x) => json_text::put(m, "max_output_tokens"@, Some(text::signed(x as int))),
        None => m,
    };
    let m = match request.frequency_penalty {
        Some(x) => json_text::put(m, "frequency_penalty"@, number_text(x)),
        None => m,
    };
    let m = match request.presence_penalty {
        Some(x) => json_text::put(m, "presence_penalty"@, number_text(x)),
        None => m,
    };
    m
}

/// What else a request says, as text.
pub open spec fn rest_text(m: json_text::Fields, request: ResponsesRequest) -> json_text::Fields {
    let m = json_text::put(
        m,
        "truncation"@,
        match request.truncation {
            Some(x) => json::rendered_json(x@),
            None => Some("null"@),
        },
    );
    let m = json_text::put(
        m,
        "metadata"@,
        match request.metadata {
            Some(x) => json::rendered_json(JsonView::Object(x@)),
            None => Some("null"@),
        },
    );
    let m = match request.stop {
        Some(x) => json_text::put(m, "stop"@, Some(json_text::strings_text(text::strings_view(x@)))),
        None => m,
    };
    m
}

/// The typed fields of a request as text.
pub open spec fn typed_text(request: ResponsesRequest) -> json_text::Fields {
    let m = asked_text(request);
    let m = handling_text(m, request);
    let m = output_text(m, request);
    let m = sampling_text(m, request);
    rest_text(m, request)
}

/// A request as text: the typed fields, and every other field that is not named like one.
/// There is none where its text format is of no type that there is.
pub open spec fn request_text(request: ResponsesRequest) -> Option<Seq<char>> {
    json_text::object_text(
        with_extra(
            typed_text(request),
            request.extra_body@,
            request.extra_body@.len() as int,
        ),
    )
}

impl ResponsesRequest {
    fn typed_fields_text(&self) -> (r: ObjectText)
        ensures
            r@ == typed_text(*self),
    {
        let mut m = ObjectText::new();
        m.put_text("model", self.model.as_str());
        m.put("instructions", self.instructions.to_text());
        m.put("input", items_to_text(&self.input));
        m.put("tools", tools_to_text(&self.tools));
        m.put("tool_choice", self.tool_choice.render());
        if let Some(x) = &self.parallel_tool_calls {
            m.put("parallel_tool_calls", Some(flag_of(*x)));
        }
        let value = match &self.reasoning {
            Some(x) => x.to_text(),
            None => Some("null".to_owned()),
        };
        m.put("reasoning", value);
        m.put("store", Some(flag_of(self.store)));
        m.put("stream", Some(flag_of(self.stream)));
        m.put("include", Some(strings_of(&self.includes)));
        m.put("service_tier", Some(text_or_null_of(&self.service_tier)));
        m.put("prompt_cache_key", Some(text_or_null_of(&self.prompt_cache_key)));
        m.put("prompt_cache_retention", Some(text_or_null_of(&self.prompt_cache_retention)));
        let value = match &self.text {
            Some(x) => x.to_text(),
            None => Some("null".to_owned()),
        };
        m.put("text", value);
        m.put("previous_response_id", Some(text_or_null_of(&self.previous_response_id)));
        if let Some(x) = &self.llmconduit_replay {
            m.put("llmconduit_replay", Some(flag_of(*x)));
        }
        if let Some(x) = &self.temperature {
            m.put("temperature", number_of(x));
        }
        if let Some(x) = &self.top_p {
            m.put("top_p", number_of(x));
        }
        if let Some(x) = &self.max_output_tokens {
            m.put("max_output_tokens", Some(signed_of(*x as i64)));
        }
        if let Some(x) = &self.frequency_penalty {
            m.put("frequency_penalty", number_of(x));
        }
        if let Some(x) = &self.presence_penalty {
            m.put("presence_penalty", number_of(x));
        }
        let value = match &self.truncation {
            Some(x) => x.render(),
            None => Some("null".to_owned()),
        };
        m.put("truncation", value);
        let value = match &self.metadata {
            Some(x) => x.copy().into_json().render(),
            None => Some("null".to_owned()),
        };
        m.put("metadata", value);
        if let Some(x) = &self.stop {
            m.put("stop", Some(strings_of(x)));
        }
        m
    }

    /// A request as text.
    pub fn to_text(&self) -> (r: Option<String>)
        ensures
            text::opt_view(r) == request_text(*self),
    {
        let mut m = self.typed_fields_text();
        let extra = &self.extra_body.entries;
        let mut i: usize = 0;
        while i < extra.len()
            invariant
                extra == self.extra_body.entries,
                i <= extra@.len(),
                m@ == with_extra(typed_text(*self), self.extra_body@, i as int),
            decreases extra@.len() - i,
        {
            let key = extra[i].0.as_str();
            assert(self.extra_body@[i as int] == (key@, extra@[i as int].1@));
            if !Self::is_typed_field_name(key) {
                m.put(key, extra[i].1.render());
            }
            i += 1;
        }
        m.into_text()
    }
}

} // verus!
