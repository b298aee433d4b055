//! Tools and requests of the Responses surface as they are read from JSON.
use vstd::prelude::*;

use crate::json;
use crate::json::Json;
use crate::json::JsonMap;
use crate::json::JsonNumber;
use crate::json::JsonView;
use crate::json::NumberView;
use crate::models::chat;
use crate::models::chat::opt_stop;
use crate::models::chat::request_model;
use crate::models::fields;
use crate::models::fields::fields_in;
use crate::models::fields::tag_in;
use crate::models::fields::tagged_fields_in;
use crate::models::fields::Names;
use crate::models::read;
use crate::models::read::read_items;
use crate::models::read::read_opt_text;
use crate::models::read::read_opt_texts;
use crate::models::read::read_text;
use crate::models::read::read_text_items;
use crate::models::read::read_value;
use crate::models::responses;
use crate::models::responses::CustomToolFormat;
use crate::models::responses::NamespaceToolSpec;
use crate::models::responses::ReasoningRequest;
use crate::models::responses::ResponsesRequest;
use crate::models::responses::ResponseInstructions;
use crate::models::responses::ResponseItem;
use crate::models::responses::TextControls;
use crate::models::responses::TextFormat;
use crate::models::responses::ToolSpec;
use crate::models::shorthand;
use crate::models::shorthand::normalize_tool_choice;
use crate::models::shorthand::request_input;
use crate::models::shorthand::RequestInput;
use crate::models::wire;
use crate::text;

verus! {

// --- Fields ------------------------------------------------------------------------------------

/// A text, empty where it is missing.
pub open spec fn text_or_empty_at(m: Seq<(Seq<char>, JsonView)>, key: Seq<char>) -> Option<
    Seq<char>,
> {
    match json::member(m, key) {
        None => Some(seq![]),
        Some(JsonView::Text(t)) => Some(t),
        Some(_) => None,
    }
}

/// A flag, `default` where it is missing.
pub open spec fn flag_or_at(
    m: Seq<(Seq<char>, JsonView)>,
    key: Seq<char>,
    default: bool,
) -> Option<bool> {
    match json::member(m, key) {
        None => Some(default),
        Some(JsonView::Bool(b)) => Some(b),
        Some(_) => None,
    }
}

/// A flag, true where it is missing.
pub open spec fn flag_or_true_at(m: Seq<(Seq<char>, JsonView)>, key: Seq<char>) -> Option<bool> {
    flag_or_at(m, key, true)
}

/// A flag, false where it is missing.
pub open spec fn flag_or_false_at(m: Seq<(Seq<char>, JsonView)>, key: Seq<char>) -> Option<bool> {
    flag_or_at(m, key, false)
}

/// A flag that may be missing or `null`.
pub open spec fn opt_flag_at(m: Seq<(Seq<char>, JsonView)>, key: Seq<char>) -> Option<
    Option<bool>,
> {
    match json::member(m, key) {
        None => Some(None),
        Some(JsonView::Null) => Some(None),
        Some(JsonView::Bool(b)) => Some(Some(b)),
        Some(_) => None,
    }
}

/// A value that may be missing or `null`.
pub open spec fn opt_value_at(m: Seq<(Seq<char>, JsonView)>, key: Seq<char>) -> Option<
    Option<JsonView>,
> {
    match json::member(m, key) {
        None => Some(None),
        Some(JsonView::Null) => Some(None),
        Some(v) => Some(Some(v)),
    }
}

/// A number that need not be whole, and may be missing or `null`.
pub open spec fn opt_number_at(m: Seq<(Seq<char>, JsonView)>, key: Seq<char>) -> Option<
    Option<NumberView>,
> {
    match json::member(m, key) {
        None => Some(None),
        Some(JsonView::Null) => Some(None),
        Some(JsonView::Number(n)) => match json::as_float(n) {
            Some(f) => Some(Some(f)),
            None => None,
        },
        Some(_) => None,
    }
}

/// A whole number that may be missing or `null`.
pub open spec fn opt_i64_at(m: Seq<(Seq<char>, JsonView)>, key: Seq<char>) -> Option<Option<i64>> {
    match json::member(m, key) {
        None => Some(None),
        Some(JsonView::Null) => Some(None),
        Some(JsonView::Number(NumberView::Unsigned(n))) => if n <= i64::MAX {
            Some(Some(n as i64))
        } else {
            None
        },
        Some(JsonView::Number(NumberView::Negative(n))) => Some(Some(n)),
        Some(_) => None,
    }
}

/// An object that may be missing or `null`.
pub open spec fn opt_object_at(m: Seq<(Seq<char>, JsonView)>, key: Seq<char>) -> Option<
    Option<Seq<(Seq<char>, JsonView)>>,
> {
    match json::member(m, key) {
        None => Some(None),
        Some(JsonView::Null) => Some(None),
        Some(JsonView::Object(o)) => Some(Some(o)),
        Some(_) => None,
    }
}

/// Texts, none where they are missing.
pub open spec fn texts_or_none_at(m: Seq<(Seq<char>, JsonView)>, key: Seq<char>) -> Option<
    Seq<Seq<char>>,
> {
    match json::member(m, key) {
        None => Some(Seq::empty()),
        Some(JsonView::Array(items)) => read::texts_of(items),
        Some(_) => None,
    }
}

pub(crate) fn read_text_or_empty(m: &JsonMap, key: &str) -> (r: Option<String>)
    ensures
        text::opt_view(r) == text_or_empty_at(m@, key@),
{
    match m.get(key) {
        None => {
            let empty = String::new();
            assert(empty@ =~= seq![]);
            Some(empty)
        },
        Some(Json::Text(t)) => Some(t.clone()),
        Some(_) => None,
    }
}

fn read_flag_or(m: &JsonMap, key: &str, default: bool) -> (r: Option<bool>)
    ensures
        r == flag_or_at(m@, key@, default),
{
    match m.get(key) {
        None => Some(default),
        Some(Json::Bool(b)) => Some(*b),
        Some(_) => None,
    }
}

pub(crate) fn read_flag_or_true(m: &JsonMap, key: &str) -> (r: Option<bool>)
    ensures
        r == flag_or_true_at(m@, key@),
{
    read_flag_or(m, key, true)
}

pub(crate) fn read_flag_or_false(m: &JsonMap, key: &str) -> (r: Option<bool>)
    ensures
        r == flag_or_false_at(m@, key@),
{
    read_flag_or(m, key, false)
}

pub(crate) fn read_opt_flag(m: &JsonMap, key: &str) -> (r: Option<Option<bool>>)
    ensures
        r == opt_flag_at(m@, key@),
{
    match m.get(key) {
        None => Some(None),
        Some(Json::Null) => Some(None),
        Some(Json::Bool(b)) => Some(Some(*b)),
        Some(_) => None,
    }
}

pub(crate) fn read_opt_value(m: &JsonMap, key: &str) -> (r: Option<Option<Json>>)
    ensures
        match r {
            Some(v) => opt_value_at(m@, key@) == Some(json::opt_json_view(v)),
            None => opt_value_at(m@, key@) is None,
        },
{
    match m.get(key) {
        None => Some(None),
        Some(v) => if v.is_null() {
            Some(None)
        } else {
            Some(Some(v.copy()))
        },
    }
}

/// A number's contents, where there is one.
pub open spec fn opt_number_view(n: Option<JsonNumber>) -> Option<NumberView> {
    match n {
        Some(n) => Some(n@),
        None => None,
    }
}

pub(crate) fn read_opt_number(m: &JsonMap, key: &str) -> (r: Option<Option<JsonNumber>>)
    ensures
        match r {
            Some(v) => opt_number_at(m@, key@) == Some(opt_number_view(v)),
            None => opt_number_at(m@, key@) is None,
        },
{
    match m.get(key) {
        None => Some(None),
        Some(Json::Null) => Some(None),
        Some(Json::Number(n)) => match n.to_float() {
            Some(f) => Some(Some(f)),
            None => None,
        },
        Some(_) => None,
    }
}

pub(crate) fn read_opt_i64(m: &JsonMap, key: &str) -> (r: Option<Option<i64>>)
    ensures
        r == opt_i64_at(m@, key@),
{
    match m.get(key) {
        None => Some(None),
        Some(Json::Null) => Some(None),
        Some(Json::Number(JsonNumber::Unsigned(n))) => if *n <= 9223372036854775807 {
            Some(Some(*n as i64))
        } else {
            None
        },
        Some(Json::Number(JsonNumber::Negative(n))) => Some(Some(*n)),
        Some(_) => None,
    }
}

/// The members of an object, where there is one.
pub open spec fn opt_map_view(m: Option<JsonMap>) -> Option<Seq<(Seq<char>, JsonView)>> {
    match m {
        Some(m) => Some(m@),
        None => None,
    }
}

pub(crate) fn read_opt_object(m: &JsonMap, key: &str) -> (r: Option<Option<JsonMap>>)
    ensures
        match r {
            Some(v) => opt_object_at(m@, key@) == Some(opt_map_view(v)),
            None => opt_object_at(m@, key@) is None,
        },
{
    match m.get(key) {
        None => Some(None),
        Some(Json::Null) => Some(None),
        Some(Json::Object(o)) => {
            proof {
                json::lemma_object_view(*o);
            }
            Some(Some(o.copy()))
        },
        Some(_) => None,
    }
}

pub(crate) fn read_texts_or_none(m: &JsonMap, key: &str) -> (r: Option<Vec<String>>)
    ensures
        text::opt_strings_view(r) == texts_or_none_at(m@, key@),
{
    match m.get(key) {
        None => {
            let none: Vec<String> = Vec::new();
            assert(text::strings_view(none@) =~= Seq::empty());
            Some(none)
        },
        Some(Json::Array(items)) => {
            proof {
                json::lemma_array_view(*items);
            }
            read_text_items(items)
        },
        Some(_) => None,
    }
}

// --- Tools -------------------------------------------------------------------------------------

/// A tool of a namespace, by its contents.
pub enum NamespaceToolView {
    /// `function`.
    Function {
        /// `name`.
        name: Seq<char>,
        /// `description`.
        description: Seq<char>,
        /// `strict`.
        strict: bool,
        /// `parameters`.
        parameters: JsonView,
    },
}

impl View for NamespaceToolSpec {
    type V = NamespaceToolView;

    open spec fn view(&self) -> NamespaceToolView {
        match self {
            NamespaceToolSpec::Function { name, description, strict, parameters } =>
            NamespaceToolView::Function {
                name: name@,
                description: description@,
                strict: *strict,
                parameters: parameters@,
            },
        }
    }
}

/// What was read, by its contents.
pub open spec fn opt_view_namespace_tool_from(
    r: Option<NamespaceToolSpec>,
) -> Option<NamespaceToolView> {
    match r {
        Some(x) => Some(x@),
        None => None,
    }
}

/// The tool of a namespace that a value stands for. Its type is a name, or the place of
/// a name in `numbered`.
pub open spec fn namespace_tool_tagged(v: JsonView, numbered: Seq<Seq<char>>) -> Option<
    NamespaceToolView,
> {
    let kind = fields::tag_of(v, numbered);
    if kind == Some("function"@) {
        match fields::tagged_fields_of(
            v,
            seq!["name"@, "description"@, "strict"@, "parameters"@],
            4,
        ) {
            Some(m) => if read::text_at(m, "name"@) is Some
                && text_or_empty_at(m, "description"@) is Some
                && flag_or_false_at(m, "strict"@) is Some
                && read::value_at(m, "parameters"@) is Some {
                Some(
                    NamespaceToolView::Function {
                        name: read::text_at(m, "name"@)->0,
                        description: text_or_empty_at(m, "description"@)->0,
                        strict: flag_or_false_at(m, "strict"@)->0,
                        parameters: read::value_at(m, "parameters"@)->0,
                    },
                )
            } else {
                None
            },
            None => None,
        }
    } else {
        None
    }
}

/// The tool of a namespace that a value stands for.
pub open spec fn namespace_tool_from(v: JsonView) -> Option<NamespaceToolView> {
    namespace_tool_tagged(v, seq![])
}

/// The tool of a namespace that a value within an item or a tool stands for: there the
/// type may be the place of a name, too.
pub open spec fn namespace_tool_part_from(v: JsonView) -> Option<NamespaceToolView> {
    namespace_tool_tagged(v, seq!["function"@])
}

impl NamespaceToolSpec {
    /// The tool of a namespace that a value stands for.
    pub fn from_json(value: &Json) -> (r: Option<NamespaceToolSpec>)
        ensures
            opt_view_namespace_tool_from(r) == namespace_tool_from(value@),
    {
        let numbered = Names::new();
        Self::from_tagged(value, &numbered)
    }

    /// What a value within an item or a tool stands for.
    pub fn from_part(value: &Json) -> (r: Option<NamespaceToolSpec>)
        ensures
            opt_view_namespace_tool_from(r) == namespace_tool_part_from(value@),
    {
        let numbered = Names::new().and("function");
        assert(numbered@ =~= seq!["function"@]);
        Self::from_tagged(value, &numbered)
    }

    fn from_tagged(value: &Json, numbered: &Names) -> (r: Option<NamespaceToolSpec>)
        ensures
            opt_view_namespace_tool_from(r) == namespace_tool_tagged(value@, numbered@),
    {
        let kind = match tag_in(value, numbered) {
            Some(kind) => kind,
            None => {
                return None;
            },
        };
        if text::str_eq(kind, "function") {
            let names = Names::new()
                .and("name")
                .and("description")
                .and("strict")
                .and("parameters");
            assert(names@ =~= seq!["name"@, "description"@, "strict"@, "parameters"@]);
            let fields = match tagged_fields_in(value, &names, 4) {
                Some(fields) => fields,
                None => {
                    return None;
                },
            };
            let m = fields.map();
            let name = match read_text(m, "name") {
                Some(x) => x,
                None => {
                    return None;
                },
            };
            let description = match read_text_or_empty(m, "description") {
                Some(x) => x,
                None => {
                    return None;
                },
            };
            let strict = match read_flag_or_false(m, "strict") {
                Some(x) => x,
                None => {
                    return None;
                },
            };
            let parameters = match read_value(m, "parameters") {
                Some(x) => x,
                None => {
                    return None;
                },
            };
            Some(NamespaceToolSpec::Function { name, description, strict, parameters })
        } else {
            None
        }
    }
}

/// The contents of tools of a namespace.
pub open spec fn namespace_tools_view(items: Seq<NamespaceToolSpec>) -> Seq<NamespaceToolView> {
    items.map_values(|item: NamespaceToolSpec| item@)
}

/// Whether all elements can be read.
pub open spec fn all_namespace_tool_from(items: Seq<JsonView>) -> bool {
    forall|i: int| 0 <= i < items.len() ==> namespace_tool_part_from(#[trigger] items[i]) is Some
}

/// The elements that were read.
pub open spec fn each_namespace_tool_from(items: Seq<JsonView>) -> Option<Seq<NamespaceToolView>> {
    if all_namespace_tool_from(items) {
        Some(items.map_values(|v: JsonView| namespace_tool_part_from(v)->0))
    } else {
        None
    }
}

fn read_each_namespace_tool_from(items: &Vec<Json>) -> (r: Option<Vec<NamespaceToolSpec>>)
    ensures
        match r {
            Some(read) => each_namespace_tool_from(json::items_view(items@)) == Some(
                namespace_tools_view(read@),
            ),
            None => each_namespace_tool_from(json::items_view(items@)) is None,
        },
{
    let ghost views = json::items_view(items@);
    let mut out: Vec<NamespaceToolSpec> = Vec::new();
    let mut i: usize = 0;
    while i < items.len()
        invariant
            i <= items@.len(),
            views == json::items_view(items@),
            out@.len() == i,
            forall|k: int|
                0 <= k < i ==> namespace_tool_part_from(views[k]) == Some((#[trigger] out@[k])@),
        decreases items@.len() - i,
    {
        match NamespaceToolSpec::from_part(&items[i]) {
            Some(x) => out.push(x),
            None => {
                assert(namespace_tool_part_from(views[i as int]) is None);
                return None;
            },
        }
        i += 1;
    }
    assert forall|k: int|
        0 <= k < views.len() implies namespace_tool_part_from(#[trigger] views[k]) is Some by {
        assert(namespace_tool_part_from(views[k]) == Some(out@[k]@));
    }
    assert(namespace_tools_view(out@) =~= views.map_values(
        |v: JsonView| namespace_tool_part_from(v)->0,
    ));
    Some(out)
}

/// Tools of a namespace that must be there.
pub open spec fn namespace_tools_at(
    m: Seq<(Seq<char>, JsonView)>,
    key: Seq<char>,
) -> Option<Seq<NamespaceToolView>> {
    match json::member(m, key) {
        Some(JsonView::Array(items)) => each_namespace_tool_from(items),
        _ => None,
    }
}

fn read_namespace_tools(m: &JsonMap, key: &str) -> (r: Option<Vec<NamespaceToolSpec>>)
    ensures
        match r {
            Some(read) => namespace_tools_at(m@, key@) == Some(namespace_tools_view(read@)),
            None => namespace_tools_at(m@, key@) is None,
        },
{
    match m.get(key) {
        Some(value) => match value.as_array() {
            Some(items) => read_each_namespace_tool_from(items),
            None => None,
        },
        None => None,
    }
}

/// The format of a custom tool, by its contents.
pub enum FormatView {
    /// `text`.
    Text,
    /// `grammar`.
    Grammar {
        /// `syntax`.
        syntax: Seq<char>,
        /// `definition`.
        definition: Seq<char>,
    },
}

impl View for CustomToolFormat {
    type V = FormatView;

    open spec fn view(&self) -> FormatView {
        match self {
            CustomToolFormat::Text => FormatView::Text,
            CustomToolFormat::Grammar { syntax, definition } => FormatView::Grammar {
                syntax: syntax@,
                definition: definition@,
            },
        }
    }
}

/// What was read, by its contents.
pub open spec fn opt_view_format_from(r: Option<CustomToolFormat>) -> Option<FormatView> {
    match r {
        Some(x) => Some(x@),
        None => None,
    }
}

/// The format of a custom tool that a value stands for. Its type is a name, or the place of
/// a name in `numbered`.
pub open spec fn format_tagged(v: JsonView, numbered: Seq<Seq<char>>) -> Option<FormatView> {
    let kind = fields::tag_of(v, numbered);
    if kind == Some("text"@) {
        match fields::tagged_fields_of(v, seq![], 0) {
            Some(_) => Some(FormatView::Text),
            None => None,
        }
    } else if kind == Some("grammar"@) {
        match fields::tagged_fields_of(v, seq!["syntax"@, "definition"@], 2) {
            Some(m) => if read::text_at(m, "syntax"@) is Some
                && read::text_at(m, "definition"@) is Some {
                Some(
                    FormatView::Grammar {
                        syntax: read::text_at(m, "syntax"@)->0,
                        definition: read::text_at(m, "definition"@)->0,
                    },
                )
            } else {
                None
            },
            None => None,
        }
    } else {
        None
    }
}

/// The format of a custom tool that a value stands for.
pub open spec fn format_from(v: JsonView) -> Option<FormatView> {
    format_tagged(v, seq![])
}

/// The format of a custom tool that a value within an item or a tool stands for: there the
/// type may be the place of a name, too.
pub open spec fn format_part_from(v: JsonView) -> Option<FormatView> {
    format_tagged(v, seq!["text"@, "grammar"@])
}

impl CustomToolFormat {
    /// The format of a custom tool that a value stands for.
    pub fn from_json(value: &Json) -> (r: Option<CustomToolFormat>)
        ensures
            opt_view_format_from(r) == format_from(value@),
    {
        let numbered = Names::new();
        Self::from_tagged(value, &numbered)
    }

    /// What a value within an item or a tool stands for.
    pub fn from_part(value: &Json) -> (r: Option<CustomToolFormat>)
        ensures
            opt_view_format_from(r) == format_part_from(value@),
    {
        let numbered = Names::new().and("text").and("grammar");
        assert(numbered@ =~= seq!["text"@, "grammar"@]);
        Self::from_tagged(value, &numbered)
    }

    fn from_tagged(value: &Json, numbered: &Names) -> (r: Option<CustomToolFormat>)
        ensures
            opt_view_format_from(r) == format_tagged(value@, numbered@),
    {
        let kind = match tag_in(value, numbered) {
            Some(kind) => kind,
            None => {
                return None;
            },
        };
        if text::str_eq(kind, "text") {
            let names = Names::new();
            let fields = match tagged_fields_in(value, &names, 0) {
                Some(fields) => fields,
                None => {
                    return None;
                },
            };
            Some(CustomToolFormat::Text)
        } else if text::str_eq(kind, "grammar") {
            let names = Names::new().and("syntax").and("definition");
            assert(names@ =~= seq!["syntax"@, "definition"@]);
            let fields = match tagged_fields_in(value, &names, 2) {
                Some(fields) => fields,
                None => {
                    return None;
                },
            };
            let m = fields.map();
            let syntax = match read_text(m, "syntax") {
                Some(x) => x,
                None => {
                    return None;
                },
            };
            let definition = match read_text(m, "definition") {
                Some(x) => x,
                None => {
                    return None;
                },
            };
            Some(CustomToolFormat::Grammar { syntax, definition })
        } else {
            None
        }
    }
}

/// The format of a custom tool, plain text where it is missing.
pub open spec fn format_at(m: Seq<(Seq<char>, JsonView)>, key: Seq<char>) -> Option<FormatView> {
    match json::member(m, key) {
        None => Some(FormatView::Text),
        Some(v) => format_part_from(v),
    }
}

fn read_format(m: &JsonMap, key: &str) -> (r: Option<CustomToolFormat>)
    ensures
        opt_view_format_from(r) == format_at(m@, key@),
{
    match m.get(key) {
        None => Some(CustomToolFormat::default()),
        Some(v) => CustomToolFormat::from_part(v),
    }
}

/// A tool, by its contents.
pub enum ToolView {
    /// `function`.
    Function {
        /// `name`.
        name: Seq<char>,
        /// `description`.
        description: Seq<char>,
        /// `strict`.
        strict: bool,
        /// `parameters`.
        parameters: JsonView,
    },
    /// `namespace`.
    Namespace {
        /// `name`.
        name: Seq<char>,
        /// `description`.
        description: Seq<char>,
        /// `tools`.
        tools: Seq<NamespaceToolView>,
    },
    /// `tool_search`.
    ToolSearch {
        /// `execution`.
        execution: Seq<char>,
        /// `description`.
        description: Seq<char>,
        /// `parameters`.
        parameters: JsonView,
    },
    /// `local_shell`.
    LocalShell,
    /// `web_search`.
    WebSearch {
        /// `external_web_access`.
        external_web_access: Option<bool>,
        /// `filters`.
        filters: Option<JsonView>,
        /// `user_location`.
        user_location: Option<JsonView>,
        /// `search_context_size`.
        search_context_size: Option<Seq<char>>,
        /// `search_content_types`.
        search_content_types: Option<Seq<Seq<char>>>,
    },
    /// `custom`.
    Custom {
        /// `name`.
        name: Seq<char>,
        /// `description`.
        description: Seq<char>,
        /// `format`.
        format: FormatView,
    },
    /// `image_generation`.
    ImageGeneration {
        /// `output_format`.
        output_format: Option<Seq<char>>,
    },
}

impl View for ToolSpec {
    type V = ToolView;

    open spec fn view(&self) -> ToolView {
        match self {
            ToolSpec::Function { name, description, strict, parameters } => ToolView::Function {
                name: name@,
                description: description@,
                strict: *strict,
                parameters: parameters@,
            },
            ToolSpec::Namespace { name, description, tools } => ToolView::Namespace {
                name: name@,
                description: description@,
                tools: namespace_tools_view(tools@),
            },
            ToolSpec::ToolSearch { execution, description, parameters } => ToolView::ToolSearch {
                execution: execution@,
                description: description@,
                parameters: parameters@,
            },
            ToolSpec::LocalShell {  } => ToolView::LocalShell,
            ToolSpec::WebSearch {
                external_web_access,
                filters,
                user_location,
                search_context_size,
                search_content_types,
            } => ToolView::WebSearch {
                external_web_access: *external_web_access,
                filters: json::opt_json_view(*filters),
                user_location: json::opt_json_view(*user_location),
                search_context_size: text::opt_view(*search_context_size),
                search_content_types: text::opt_strings_view(*search_content_types),
            },
            ToolSpec::Custom { name, description, format } => ToolView::Custom {
                name: name@,
                description: description@,
                format: format@,
            },
            ToolSpec::ImageGeneration { output_format } => ToolView::ImageGeneration {
                output_format: text::opt_view(*output_format),
            },
        }
    }
}

/// What was read, by its contents.
pub open spec fn opt_view_tool_from(r: Option<ToolSpec>) -> Option<ToolView> {
    match r {
        Some(x) => Some(x@),
        None => None,
    }
}

/// The tool that a value stands for.
pub open spec fn tool_from(v: JsonView) -> Option<ToolView> {
    let kind = fields::tag_of(v, seq![]);
    if kind == Some("function"@) {
        match fields::tagged_fields_of(
            v,
            seq!["name"@, "description"@, "strict"@, "parameters"@],
            4,
        ) {
            Some(m) => if read::text_at(m, "name"@) is Some
                && text_or_empty_at(m, "description"@) is Some
                && flag_or_true_at(m, "strict"@) is Some
                && read::value_at(m, "parameters"@) is Some {
                Some(
                    ToolView::Function {
                        name: read::text_at(m, "name"@)->0,
                        description: text_or_empty_at(m, "description"@)->0,
                        strict: flag_or_true_at(m, "strict"@)->0,
                        parameters: read::value_at(m, "parameters"@)->0,
                    },
                )
            } else {
                None
            },
            None => None,
        }
    } else if kind == Some("namespace"@) {
        match fields::tagged_fields_of(v, seq!["name"@, "description"@, "tools"@], 3) {
            Some(m) => if read::text_at(m, "name"@) is Some
                && read::text_at(m, "description"@) is Some
                && namespace_tools_at(m, "tools"@) is Some {
                Some(
                    ToolView::Namespace {
                        name: read::text_at(m, "name"@)->0,
                        description: read::text_at(m, "description"@)->0,
                        tools: namespace_tools_at(m, "tools"@)->0,
                    },
                )
            } else {
                None
            },
            None => None,
        }
    } else if kind == Some("tool_search"@) {
        match fields::tagged_fields_of(v, seq!["execution"@, "description"@, "parameters"@], 3) {
            Some(m) => if read::text_at(m, "execution"@) is Some
                && read::text_at(m, "description"@) is Some
                && read::value_at(m, "parameters"@) is Some {
                Some(
                    ToolView::ToolSearch {
                        execution: read::text_at(m, "execution"@)->0,
                        description: read::text_at(m, "description"@)->0,
                        parameters: read::value_at(m, "parameters"@)->0,
                    },
                )
            } else {
                None
            },
            None => None,
        }
    } else if kind == Some("local_shell"@) {
        match fields::tagged_fields_of(v, seq![], 0) {
            Some(_) => Some(ToolView::LocalShell),
            None => None,
        }
    } else if kind == Some("web_search"@) {
        match fields::tagged_fields_of(
            v,
            seq![
                "external_web_access"@,
                "filters"@,
                "user_location"@,
                "search_context_size"@,
                "search_content_types"@,
            ],
            0,
        ) {
            Some(m) => if opt_flag_at(m, "external_web_access"@) is Some
                && opt_value_at(m, "filters"@) is Some
                && opt_value_at(m, "user_location"@) is Some
                && read::opt_text_at(m, "search_context_size"@) is Some
                && read::opt_texts_at(m, "search_content_types"@) is Some {
                Some(
                    ToolView::WebSearch {
                        external_web_access: opt_flag_at(m, "external_web_access"@)->0,
                        filters: opt_value_at(m, "filters"@)->0,
                        user_location: opt_value_at(m, "user_location"@)->0,
                        search_context_size: read::opt_text_at(m, "search_context_size"@)->0,
                        search_content_types: read::opt_texts_at(m, "search_content_types"@)->0,
                    },
                )
            } else {
                None
            },
            None => None,
        }
    } else if kind == Some("custom"@) {
        match fields::tagged_fields_of(v, seq!["name"@, "description"@, "format"@], 1) {
            Some(m) => if read::text_at(m, "name"@) is Some
                && text_or_empty_at(m, "description"@) is Some
                && format_at(m, "format"@) is Some {
                Some(
                    ToolView::Custom {
                        name: read::text_at(m, "name"@)->0,
                        description: text_or_empty_at(m, "description"@)->0,
                        format: format_at(m, "format"@)->0,
                    },
                )
            } else {
                None
            },
            None => None,
        }
    } else if kind == Some("image_generation"@) {
        match fields::tagged_fields_of(v, seq!["output_format"@], 0) {
            Some(m) => if read::opt_text_at(m, "output_format"@) is Some {
                Some(
                    ToolView::ImageGeneration {
                        output_format: read::opt_text_at(m, "output_format"@)->0,
                    },
                )
            } else {
                None
            },
            None => None,
        }
    } else {
        None
    }
}

impl ToolSpec {
    /// The tool that a value stands for.
    pub fn from_json(value: &Json) -> (r: Option<ToolSpec>)
        ensures
            opt_view_tool_from(r) == tool_from(value@),
    {
        let none = Names::new();
        let kind = match tag_in(value, &none) {
            Some(kind) => kind,
            None => {
                return None;
            },
        };
        if text::str_eq(kind, "function") {
            let names = Names::new()
                .and("name")
                .and("description")
                .and("strict")
                .and("parameters");
            assert(names@ =~= seq!["name"@, "description"@, "strict"@, "parameters"@]);
            let fields = match tagged_fields_in(value, &names, 4) {
                Some(fields) => fields,
                None => {
                    return None;
                },
            };
            let m = fields.map();
            let name = match read_text(m, "name") {
                Some(x) => x,
                None => {
                    return None;
                },
            };
            let description = match read_text_or_empty(m, "description") {
                Some(x) => x,
                None => {
                    return None;
                },
            };
            let strict = match read_flag_or_true(m, "strict") {
                Some(x) => x,
                None => {
                    return None;
                },
            };
            let parameters = match read_value(m, "parameters") {
                Some(x) => x,
                None => {
                    return None;
                },
            };
            Some(ToolSpec::Function { name, description, strict, parameters })
        } else if text::str_eq(kind, "namespace") {
            let names = Names::new().and("name").and("description").and("tools");
            assert(names@ =~= seq!["name"@, "description"@, "tools"@]);
            let fields = match tagged_fields_in(value, &names, 3) {
                Some(fields) => fields,
                None => {
                    return None;
                },
            };
            let m = fields.map();
            let name = match read_text(m, "name") {
                Some(x) => x,
                None => {
                    return None;
                },
            };
            let description = match read_text(m, "description") {
                Some(x) => x,
                None => {
                    return None;
                },
            };
            let tools = match read_namespace_tools(m, "tools") {
                Some(x) => x,
                None => {
                    return None;
                },
            };
            Some(ToolSpec::Namespace { name, description, tools })
        } else if text::str_eq(kind, "tool_search") {
            let names = Names::new().and("execution").and("description").and("parameters");
            assert(names@ =~= seq!["execution"@, "description"@, "parameters"@]);
            let fields = match tagged_fields_in(value, &names, 3) {
                Some(fields) => fields,
                None => {
                    return None;
                },
            };
            let m = fields.map();
            let execution = match read_text(m, "execution") {
                Some(x) => x,
                None => {
                    return None;
                },
            };
            let description = match read_text(m, "description") {
                Some(x) => x,
                None => {
                    return None;
                },
            };
            let parameters = match read_value(m, "parameters") {
                Some(x) => x,
                None => {
                    return None;
                },
            };
            Some(ToolSpec::ToolSearch { execution, description, parameters })
        } else if text::str_eq(kind, "local_shell") {
            let names = Names::new();
            let fields = match tagged_fields_in(value, &names, 0) {
                Some(fields) => fields,
                None => {
                    return None;
                },
            };
            Some(ToolSpec::LocalShell {  })
        } else if text::str_eq(kind, "web_search") {
            let names = Names::new()
                .and("external_web_access")
                .and("filters")
                .and("user_location")
                .and("search_context_size")
                .and("search_content_types");
            assert(names@ =~= seq![
                "external_web_access"@,
                "filters"@,
                "user_location"@,
                "search_context_size"@,
                "search_content_types"@,
            ]);
            let fields = match tagged_fields_in(value, &names, 0) {
                Some(fields) => fields,
                None => {
                    return None;
                },
            };
            let m = fields.map();
            let external_web_access = match read_opt_flag(m, "external_web_access") {
                Some(x) => x,
                None => {
                    return None;
                },
            };
            let filters = match read_opt_value(m, "filters") {
                Some(x) => x,
                None => {
                    return None;
                },
            };
            let user_location = match read_opt_value(m, "user_location") {
                Some(x) => x,
                None => {
                    return None;
                },
            };
            let search_context_size = match read_opt_text(m, "search_context_size") {
                Some(x) => x,
                None => {
                    return None;
                },
            };
            let search_content_types = match read_opt_texts(m, "search_content_types") {
                Some(x) => x,
                None => {
                    return None;
                },
            };
            Some(
                ToolSpec::WebSearch {
                    external_web_access,
                    filters,
                    user_location,
                    search_context_size,
                    search_content_types,
                },
            )
        } else if text::str_eq(kind, "custom") {
            let names = Names::new().and("name").and("description").and("format");
            assert(names@ =~= seq!["name"@, "description"@, "format"@]);
            let fields = match tagged_fields_in(value, &names, 1) {
                Some(fields) => fields,
                None => {
                    return None;
                },
            };
            let m = fields.map();
            let name = match read_text(m, "name") {
                Some(x) => x,
                None => {
                    return None;
                },
            };
            let description = match read_text_or_empty(m, "description") {
                Some(x) => x,
                None => {
                    return None;
                },
            };
            let format = match read_format(m, "format") {
                Some(x) => x,
                None => {
                    return None;
                },
            };
            Some(ToolSpec::Custom { name, description, format })
        } else if text::str_eq(kind, "image_generation") {
            let names = Names::new().and("output_format");
            let fields = match tagged_fields_in(value, &names, 0) {
                Some(fields) => fields,
                None => {
                    return None;
                },
            };
            let m = fields.map();
            let output_format = match read_opt_text(m, "output_format") {
                Some(x) => x,
                None => {
                    return None;
                },
            };
            Some(ToolSpec::ImageGeneration { output_format })
        } else {
            None
        }
    }
}

/// The contents of tools.
pub open spec fn tools_view(items: Seq<ToolSpec>) -> Seq<ToolView> {
    items.map_values(|item: ToolSpec| item@)
}

/// Whether all elements can be read.
pub open spec fn all_tool_from(items: Seq<JsonView>) -> bool {
    forall|i: int| 0 <= i < items.len() ==> tool_from(#[trigger] items[i]) is Some
}

/// The elements that were read.
pub open spec fn each_tool_from(items: Seq<JsonView>) -> Option<Seq<ToolView>> {
    if all_tool_from(items) {
        Some(items.map_values(|v: JsonView| tool_from(v)->0))
    } else {
        None
    }
}

fn read_each_tool_from(items: &Vec<Json>) -> (r: Option<Vec<ToolSpec>>)
    ensures
        match r {
            Some(read) => each_tool_from(json::items_view(items@)) == Some(tools_view(read@)),
            None => each_tool_from(json::items_view(items@)) is None,
        },
{
    let ghost views = json::items_view(items@);
    let mut out: Vec<ToolSpec> = Vec::new();
    let mut i: usize = 0;
    while i < items.len()
        invariant
            i <= items@.len(),
            views == json::items_view(items@),
            out@.len() == i,
            forall|k: int| 0 <= k < i ==> tool_from(views[k]) == Some((#[trigger] out@[k])@),
        decreases items@.len() - i,
    {
        match ToolSpec::from_json(&items[i]) {
            Some(x) => out.push(x),
            None => {
                assert(tool_from(views[i as int]) is None);
                return None;
            },
        }
        i += 1;
    }
    assert forall|k: int| 0 <= k < views.len() implies tool_from(#[trigger] views[k]) is Some by {
        assert(tool_from(views[k]) == Some(out@[k]@));
    }
    assert(tools_view(out@) =~= views.map_values(|v: JsonView| tool_from(v)->0));
    Some(out)
}

/// Tools, none where they are missing.
pub open spec fn tools_at(m: Seq<(Seq<char>, JsonView)>, key: Seq<char>) -> Option<Seq<ToolView>> {
    match json::member(m, key) {
        None => Some(Seq::empty()),
        Some(JsonView::Array(items)) => each_tool_from(items),
        Some(_) => None,
    }
}

fn read_tools(m: &JsonMap, key: &str) -> (r: Option<Vec<ToolSpec>>)
    ensures
        match r {
            Some(read) => tools_at(m@, key@) == Some(tools_view(read@)),
            None => tools_at(m@, key@) is None,
        },
{
    match m.get(key) {
        None => {
            let none: Vec<ToolSpec> = Vec::new();
            assert(tools_view(none@) =~= Seq::empty());
            Some(none)
        },
        Some(Json::Array(items)) => {
            proof {
                json::lemma_array_view(*items);
            }
            read_each_tool_from(items)
        },
        Some(_) => None,
    }
}

// --- Parts of a request ------------------------------------------------------------------------

/// What is asked of reasoning, by its contents.
pub struct ReasoningRequestView {
    /// How hard to reason.
    pub effort: Option<Seq<char>>,
    /// How to summarize.
    pub summary: Option<Seq<char>>,
}

impl View for ReasoningRequest {
    type V = ReasoningRequestView;

    open spec fn view(&self) -> ReasoningRequestView {
        ReasoningRequestView {
            effort: text::opt_view(self.effort),
            summary: text::opt_view(self.summary),
        }
    }
}

/// What is asked of reasoning, where anything is.
pub open spec fn opt_reasoning_view(r: Option<ReasoningRequest>) -> Option<ReasoningRequestView> {
    match r {
        Some(r) => Some(r@),
        None => None,
    }
}

/// What is asked of reasoning, which may be missing or `null`.
pub open spec fn opt_reasoning_at(m: Seq<(Seq<char>, JsonView)>, key: Seq<char>) -> Option<
    Option<ReasoningRequestView>,
> {
    match json::member(m, key) {
        None => Some(None),
        Some(JsonView::Null) => Some(None),
        Some(v) => match fields::fields_of(v, seq!["effort"@, "summary"@], 0) {
            Some(o) => if read::opt_text_at(o, "effort"@) is Some && read::opt_text_at(
                o,
                "summary"@,
            ) is Some {
                Some(
                    Some(
                        ReasoningRequestView {
                            effort: read::opt_text_at(o, "effort"@)->0,
                            summary: read::opt_text_at(o, "summary"@)->0,
                        },
                    ),
                )
            } else {
                None
            },
            None => None,
        },
    }
}

fn read_opt_reasoning(m: &JsonMap, key: &str) -> (r: Option<Option<ReasoningRequest>>)
    ensures
        match r {
            Some(read) => opt_reasoning_at(m@, key@) == Some(opt_reasoning_view(read)),
            None => opt_reasoning_at(m@, key@) is None,
        },
{
    match m.get(key) {
        None => Some(None),
        Some(Json::Null) => Some(None),
        Some(value) => {
            let names = Names::new().and("effort").and("summary");
            assert(names@ =~= seq!["effort"@, "summary"@]);
            let fields = match fields_in(value, &names, 0) {
                Some(fields) => fields,
                None => {
                    return None;
                },
            };
            let o = fields.map();
            let effort = match read_opt_text(o, "effort") {
                Some(x) => x,
                None => {
                    return None;
                },
            };
            let summary = match read_opt_text(o, "summary") {
                Some(x) => x,
                None => {
                    return None;
                },
            };
            Some(Some(ReasoningRequest { effort, summary }))
        },
    }
}

/// A text format, by its contents.
pub struct TextFormatView {
    /// Its type.
    pub kind: Seq<char>,
    /// Whether the output must follow the schema.
    pub strict: bool,
    /// The schema.
    pub schema: JsonView,
    /// The name of the schema.
    pub name: Seq<char>,
    /// Its description.
    pub description: Option<Seq<char>>,
}

impl View for TextFormat {
    type V = TextFormatView;

    open spec fn view(&self) -> TextFormatView {
        TextFormatView {
            kind: self.kind@,
            strict: self.strict,
            schema: self.schema@,
            name: self.name@,
            description: text::opt_view(self.description),
        }
    }
}

/// The format that only names its type.
pub open spec fn plain_format(kind: Seq<char>) -> TextFormatView {
    TextFormatView {
        kind,
        strict: false,
        schema: JsonView::Null,
        name: seq![],
        description: None,
    }
}

/// The text format that a value stands for: a plain one, or one with a schema and a name.
pub open spec fn text_format_from(v: JsonView) -> Option<TextFormatView> {
    let kind = fields::tag_of(v, seq![]);
    if kind == Some("text"@) || kind == Some("json_object"@) {
        match fields::tagged_fields_of(v, seq![], 0) {
            Some(_) => Some(plain_format(kind->0)),
            None => None,
        }
    } else if kind == Some("json_schema"@) {
        match fields::tagged_fields_of(
            v,
            seq!["name"@, "schema"@, "strict"@, "description"@],
            2,
        ) {
            Some(m) => if read::text_at(m, "name"@) is Some && read::value_at(m, "schema"@) is Some
                && flag_or_false_at(m, "strict"@) is Some && read::opt_text_at(
                m,
                "description"@,
            ) is Some {
                Some(
                    TextFormatView {
                        kind: "json_schema"@,
                        strict: flag_or_false_at(m, "strict"@)->0,
                        schema: read::value_at(m, "schema"@)->0,
                        name: read::text_at(m, "name"@)->0,
                        description: read::opt_text_at(m, "description"@)->0,
                    },
                )
            } else {
                None
            },
            None => None,
        }
    } else {
        None
    }
}

impl TextFormat {
    /// The text format that a value stands for.
    pub fn from_json(value: &Json) -> (r: Option<TextFormat>)
        ensures
            match r {
                Some(read) => text_format_from(value@) == Some(read@),
                None => text_format_from(value@) is None,
            },
    {
        let none = Names::new();
        let kind = match tag_in(value, &none) {
            Some(kind) => kind,
            None => {
                return None;
            },
        };
        if text::str_eq(kind, "text") || text::str_eq(kind, "json_object") {
            if tagged_fields_in(value, &Names::new(), 0).is_none() {
                return None;
            }
            let format = TextFormat::plain(kind);
            assert(format.name@ =~= seq![]);
            return Some(format);
        }
        if !text::str_eq(kind, "json_schema") {
            return None;
        }
        let names = Names::new().and("name").and("schema").and("strict").and("description");
        assert(names@ =~= seq!["name"@, "schema"@, "strict"@, "description"@]);
        let fields = match tagged_fields_in(value, &names, 2) {
            Some(fields) => fields,
            None => {
                return None;
            },
        };
        let m = fields.map();
        let name = match read_text(m, "name") {
            Some(x) => x,
            None => {
                return None;
            },
        };
        let schema = match read_value(m, "schema") {
            Some(x) => x,
            None => {
                return None;
            },
        };
        let strict = match read_flag_or_false(m, "strict") {
            Some(x) => x,
            None => {
                return None;
            },
        };
        let description = match read_opt_text(m, "description") {
            Some(x) => x,
            None => {
                return None;
            },
        };
        Some(TextFormat::json_schema(name, schema, strict, description))
    }
}

/// What is asked of the output text, by its contents.
pub struct TextControlsView {
    /// How verbose.
    pub verbosity: Option<Seq<char>>,
    /// In what format.
    pub format: Option<TextFormatView>,
}

impl View for TextControls {
    type V = TextControlsView;

    open spec fn view(&self) -> TextControlsView {
        TextControlsView {
            verbosity: text::opt_view(self.verbosity),
            format: match self.format {
                Some(f) => Some(f@),
                None => None,
            },
        }
    }
}

/// A text format that may be missing or `null`.
pub open spec fn opt_format_at(m: Seq<(Seq<char>, JsonView)>, key: Seq<char>) -> Option<
    Option<TextFormatView>,
> {
    match json::member(m, key) {
        None => Some(None),
        Some(JsonView::Null) => Some(None),
        Some(v) => match text_format_from(v) {
            Some(f) => Some(Some(f)),
            None => None,
        },
    }
}

fn read_opt_format(m: &JsonMap, key: &str) -> (r: Option<Option<TextFormat>>)
    ensures
        match r {
            Some(Some(f)) => opt_format_at(m@, key@) == Some(Some(f@)),
            Some(None) => opt_format_at(m@, key@) == Some(None::<TextFormatView>),
            None => opt_format_at(m@, key@) is None,
        },
{
    match m.get(key) {
        None => Some(None),
        Some(v) => if v.is_null() {
            Some(None)
        } else {
            match TextFormat::from_json(v) {
                Some(f) => Some(Some(f)),
                None => None,
            }
        },
    }
}

/// What is asked of the output text, which may be missing or `null`.
pub open spec fn opt_controls_at(m: Seq<(Seq<char>, JsonView)>, key: Seq<char>) -> Option<
    Option<TextControlsView>,
> {
    match json::member(m, key) {
        None => Some(None),
        Some(JsonView::Null) => Some(None),
        Some(v) => match fields::fields_of(v, seq!["verbosity"@, "format"@], 0) {
            Some(o) => if read::opt_text_at(o, "verbosity"@) is Some && opt_format_at(
                o,
                "format"@,
            ) is Some {
                Some(
                    Some(
                        TextControlsView {
                            verbosity: read::opt_text_at(o, "verbosity"@)->0,
                            format: opt_format_at(o, "format"@)->0,
                        },
                    ),
                )
            } else {
                None
            },
            None => None,
        },
    }
}

/// What is asked of the output text, where anything is.
pub open spec fn opt_controls_view(c: Option<TextControls>) -> Option<TextControlsView> {
    match c {
        Some(c) => Some(c@),
        None => None,
    }
}

fn read_opt_controls(m: &JsonMap, key: &str) -> (r: Option<Option<TextControls>>)
    ensures
        match r {
            Some(read) => opt_controls_at(m@, key@) == Some(opt_controls_view(read)),
            None => opt_controls_at(m@, key@) is None,
        },
{
    match m.get(key) {
        None => Some(None),
        Some(Json::Null) => Some(None),
        Some(value) => {
            let names = Names::new().and("verbosity").and("format");
            assert(names@ =~= seq!["verbosity"@, "format"@]);
            let fields = match fields_in(value, &names, 0) {
                Some(fields) => fields,
                None => {
                    return None;
                },
            };
            let o = fields.map();
            let verbosity = match read_opt_text(o, "verbosity") {
                Some(x) => x,
                None => {
                    return None;
                },
            };
            let format = match read_opt_format(o, "format") {
                Some(x) => x,
                None => {
                    return None;
                },
            };
            Some(Some(TextControls { verbosity, format }))
        },
    }
}

/// The items of an input: a text is a message of the user, and an array is its items,
/// each in its one form.
pub open spec fn input_items(v: JsonView) -> Option<Seq<read::ItemView>> {
    match v {
        JsonView::Text(t) => Some(seq![user_message(t)]),
        JsonView::Array(items) => read::each_item_from(shorthand::normalized_items(items)),
        _ => None,
    }
}

/// The message of the user that a text stands for.
pub open spec fn user_message(t: Seq<char>) -> read::ItemView {
    read::ItemView::Message {
        id: None,
        role: "user"@,
        content: seq![responses::ContentView::InputText { text: t }],
        phase: None,
    }
}

fn read_input_value(value: &Json) -> (r: Option<Vec<ResponseItem>>)
    ensures
        match r {
            Some(read) => input_items(value@) == Some(read::items_contents(read@)),
            None => input_items(value@) is None,
        },
{
    match request_input(value) {
        Some(RequestInput::Message(items)) => {
            proof {
                let t = value@->Text_0;
                assert(items@[0]@ == user_message(t));
                assert(read::items_contents(items@) =~= seq![user_message(t)]);
            }
            Some(items)
        },
        Some(RequestInput::Items(items)) => read_items(&items),
        None => None,
    }
}

/// The input, none where it is missing.
pub open spec fn input_at(m: Seq<(Seq<char>, JsonView)>, key: Seq<char>) -> Option<
    Seq<read::ItemView>,
> {
    match json::member(m, key) {
        None => Some(Seq::empty()),
        Some(v) => input_items(v),
    }
}

fn read_input(m: &JsonMap, key: &str) -> (r: Option<Vec<ResponseItem>>)
    ensures
        match r {
            Some(read) => input_at(m@, key@) == Some(read::items_contents(read@)),
            None => input_at(m@, key@) is None,
        },
{
    match m.get(key) {
        None => {
            let none: Vec<ResponseItem> = Vec::new();
            assert(read::items_contents(none@) =~= Seq::empty());
            Some(none)
        },
        Some(v) => read_input_value(v),
    }
}

/// Instructions, by their contents.
pub enum InstructionsView {
    /// A text.
    Text(Seq<char>),
    /// Items.
    Items(Seq<read::ItemView>),
}

impl View for ResponseInstructions {
    type V = InstructionsView;

    open spec fn view(&self) -> InstructionsView {
        match self {
            ResponseInstructions::Text(t) => InstructionsView::Text(t@),
            ResponseInstructions::Items(items) => InstructionsView::Items(
                read::items_contents(items@),
            ),
        }
    }
}

/// The instructions that a value stands for: a text, or items, each in its one form.
pub open spec fn instructions_from(v: JsonView) -> Option<InstructionsView> {
    match v {
        JsonView::Text(t) => Some(InstructionsView::Text(t)),
        JsonView::Array(items) => match read::each_item_from(
            shorthand::normalized_items(items),
        ) {
            Some(read) => Some(InstructionsView::Items(read)),
            None => None,
        },
        _ => None,
    }
}

impl ResponseInstructions {
    /// The instructions that a value stands for.
    pub fn from_json(value: &Json) -> (r: Option<ResponseInstructions>)
        ensures
            match r {
                Some(read) => instructions_from(value@) == Some(read@),
                None => instructions_from(value@) is None,
            },
    {
        match value {
            Json::Text(t) => Some(ResponseInstructions::Text(t.clone())),
            Json::Array(items) => {
                proof {
                    json::lemma_array_view(*items);
                }
                match request_input(value) {
                    Some(RequestInput::Items(normal)) => match read_items(&normal) {
                        Some(read) => Some(ResponseInstructions::Items(read)),
                        None => None,
                    },
                    _ => None,
                }
            },
            _ => None,
        }
    }
}

/// Instructions, an empty text where they are missing.
pub open spec fn instructions_at(m: Seq<(Seq<char>, JsonView)>, key: Seq<char>) -> Option<
    InstructionsView,
> {
    match json::member(m, key) {
        None => Some(InstructionsView::Text(seq![])),
        Some(v) => instructions_from(v),
    }
}

fn read_instructions(m: &JsonMap, key: &str) -> (r: Option<ResponseInstructions>)
    ensures
        match r {
            Some(read) => instructions_at(m@, key@) == Some(read@),
            None => instructions_at(m@, key@) is None,
        },
{
    match m.get(key) {
        None => {
            let none = ResponseInstructions::default();
            assert(none@->Text_0 =~= seq![]);
            Some(none)
        },
        Some(v) => ResponseInstructions::from_json(v),
    }
}

/// The model: a text without white space around it, empty where it is missing or `null`.
pub open spec fn model_at(m: Seq<(Seq<char>, JsonView)>, key: Seq<char>) -> Option<Seq<char>> {
    match read::opt_text_at(m, key) {
        Some(Some(t)) => Some(text::trimmed(t)),
        Some(None) => Some(seq![]),
        None => None,
    }
}

pub(crate) fn read_model(m: &JsonMap, key: &str) -> (r: Option<String>)
    ensures
        text::opt_view(r) == model_at(m@, key@),
{
    match read_opt_text(m, key) {
        Some(Some(t)) => Some(request_model(Some(t.as_str()))),
        Some(None) => Some(request_model(None)),
        None => None,
    }
}

/// The tool choice in its one form, `auto` where it is missing.
pub open spec fn tool_choice_at(m: Seq<(Seq<char>, JsonView)>, key: Seq<char>) -> Option<JsonView> {
    match json::member(m, key) {
        None => Some(JsonView::Text("auto"@)),
        Some(v) => Some(shorthand::nested_tool_choice(v)),
    }
}

fn read_tool_choice(m: &JsonMap, key: &str) -> (r: Option<Json>)
    ensures
        json::opt_json_view(r) == tool_choice_at(m@, key@),
{
    match m.get(key) {
        None => Some(responses::default_tool_choice()),
        Some(v) => Some(normalize_tool_choice(v.copy())),
    }
}

/// The stop sequences: a text, texts, or none.
pub open spec fn stop_at(m: Seq<(Seq<char>, JsonView)>, key: Seq<char>) -> Option<
    Option<Seq<Seq<char>>>,
> {
    match json::member(m, key) {
        None => Some(None),
        Some(v) => match chat::stop_from(v) {
            Ok(stop) => Some(stop),
            Err(_) => None,
        },
    }
}

pub(crate) fn read_stop(m: &JsonMap, key: &str) -> (r: Option<Option<Vec<String>>>)
    ensures
        match r {
            Some(stop) => stop_at(m@, key@) == Some(text::opt_strings_view(stop)),
            None => stop_at(m@, key@) is None,
        },
{
    match m.get(key) {
        None => Some(None),
        Some(v) => match opt_stop(v) {
            Ok(stop) => Some(stop),
            Err(_) => None,
        },
    }
}

/// The first `n` members without those that are named like a typed field.
pub open spec fn other_fields(m: Seq<(Seq<char>, JsonView)>, n: int) -> Seq<(Seq<char>, JsonView)>
    decreases n,
{
    if n <= 0 || n > m.len() {
        Seq::empty()
    } else if wire::typed_fields().contains(m[n - 1].0) {
        other_fields(m, n - 1)
    } else {
        other_fields(m, n - 1).push(m[n - 1])
    }
}

fn read_other_fields(m: &JsonMap) -> (r: JsonMap)
    ensures
        r@ == other_fields(m@, m@.len() as int),
{
    let entries = &m.entries;
    let mut out: Vec<(String, Json)> = Vec::new();
    let ghost mut kept: Seq<(Seq<char>, JsonView)> = Seq::empty();
    let mut i: usize = 0;
    while i < entries.len()
        invariant
            entries == m.entries,
            i <= entries@.len(),
            kept == other_fields(m@, i as int),
            kept.len() == out@.len(),
            forall|k: int| 0 <= k < kept.len() ==> (#[trigger] kept[k]) == (out@[k].0@, out@[k].1@),
        decreases entries@.len() - i,
    {
        assert(m@[i as int] == (entries@[i as int].0@, entries@[i as int].1@));
        if !ResponsesRequest::is_typed_field_name(entries[i].0.as_str()) {
            out.push((entries[i].0.clone(), entries[i].1.copy()));
            proof {
                kept = kept.push(m@[i as int]);
            }
        }
        i += 1;
    }
    let r = JsonMap { entries: out };
    assert(r@ =~= kept);
    r
}

// --- The request -------------------------------------------------------------------------------

/// A request, by its contents.
pub struct RequestView {
    /// `model`.
    pub model: Seq<char>,
    /// `instructions`.
    pub instructions: InstructionsView,
    /// `input`.
    pub input: Seq<read::ItemView>,
    /// `tools`.
    pub tools: Seq<ToolView>,
    /// `tool_choice`.
    pub tool_choice: JsonView,
    /// `parallel_tool_calls`.
    pub parallel_tool_calls: Option<bool>,
    /// `reasoning`.
    pub reasoning: Option<ReasoningRequestView>,
    /// `store`.
    pub store: bool,
    /// `stream`.
    pub stream: bool,
    /// `include`.
    pub includes: Seq<Seq<char>>,
    /// `service_tier`.
    pub service_tier: Option<Seq<char>>,
    /// `prompt_cache_key`.
    pub prompt_cache_key: Option<Seq<char>>,
    /// `prompt_cache_retention`.
    pub prompt_cache_retention: Option<Seq<char>>,
    /// `text`.
    pub text: Option<TextControlsView>,
    /// `previous_response_id`.
    pub previous_response_id: Option<Seq<char>>,
    /// `llmconduit_replay`.
    pub llmconduit_replay: Option<bool>,
    /// `temperature`.
    pub temperature: Option<NumberView>,
    /// `top_p`.
    pub top_p: Option<NumberView>,
    /// `max_output_tokens`.
    pub max_output_tokens: Option<i64>,
    /// `frequency_penalty`.
    pub frequency_penalty: Option<NumberView>,
    /// `presence_penalty`.
    pub presence_penalty: Option<NumberView>,
    /// `truncation`.
    pub truncation: Option<JsonView>,
    /// `metadata`.
    pub metadata: Option<Seq<(Seq<char>, JsonView)>>,
    /// `stop`.
    pub stop: Option<Seq<Seq<char>>>,
    /// Thinking override of a model profile.
    pub thinking: Option<bool>,
    /// Every other field.
    pub extra_body: Seq<(Seq<char>, JsonView)>,
}

impl View for ResponsesRequest {
    type V = RequestView;

    open spec fn view(&self) -> RequestView {
        RequestView {
            model: self.model@,
            instructions: self.instructions@,
            input: read::items_contents(self.input@),
            tools: tools_view(self.tools@),
            tool_choice: self.tool_choice@,
            parallel_tool_calls: self.parallel_tool_calls,
            reasoning: opt_reasoning_view(self.reasoning),
            store: self.store,
            stream: self.stream,
            includes: text::strings_view(self.includes@),
            service_tier: text::opt_view(self.service_tier),
            prompt_cache_key: text::opt_view(self.prompt_cache_key),
            prompt_cache_retention: text::opt_view(self.prompt_cache_retention),
            text: opt_controls_view(self.text),
            previous_response_id: text::opt_view(self.previous_response_id),
            llmconduit_replay: self.llmconduit_replay,
            temperature: opt_number_view(self.temperature),
            top_p: opt_number_view(self.top_p),
            max_output_tokens: self.max_output_tokens,
            frequency_penalty: opt_number_view(self.frequency_penalty),
            presence_penalty: opt_number_view(self.presence_penalty),
            truncation: json::opt_json_view(self.truncation),
            metadata: opt_map_view(self.metadata),
            stop: text::opt_strings_view(self.stop),
            thinking: self.thinking,
            extra_body: self.extra_body@,
        }
    }
}

/// Whether every typed field can be read.
pub open spec fn fields_can_be_read(m: Seq<(Seq<char>, JsonView)>) -> bool {
    &&& model_at(m, "model"@) is Some
    &&& instructions_at(m, "instructions"@) is Some
    &&& input_at(m, "input"@) is Some
    &&& tools_at(m, "tools"@) is Some
    &&& tool_choice_at(m, "tool_choice"@) is Some
    &&& opt_flag_at(m, "parallel_tool_calls"@) is Some
    &&& opt_reasoning_at(m, "reasoning"@) is Some
    &&& flag_or_true_at(m, "store"@) is Some
    &&& flag_or_false_at(m, "stream"@) is Some
    &&& texts_or_none_at(m, "include"@) is Some
    &&& read::opt_text_at(m, "service_tier"@) is Some
    &&& read::opt_text_at(m, "prompt_cache_key"@) is Some
    &&& read::opt_text_at(m, "prompt_cache_retention"@) is Some
    &&& opt_controls_at(m, "text"@) is Some
    &&& read::opt_text_at(m, "previous_response_id"@) is Some
    &&& opt_flag_at(m, "llmconduit_replay"@) is Some
    &&& opt_number_at(m, "temperature"@) is Some
    &&& opt_number_at(m, "top_p"@) is Some
    &&& opt_i64_at(m, "max_output_tokens"@) is Some
    &&& opt_number_at(m, "frequency_penalty"@) is Some
    &&& opt_number_at(m, "presence_penalty"@) is Some
    &&& opt_value_at(m, "truncation"@) is Some
    &&& opt_object_at(m, "metadata"@) is Some
    &&& stop_at(m, "stop"@) is Some
}

/// The request that a value stands for. A field that is not typed is kept beside the
/// others.
pub open spec fn request_from(v: JsonView) -> Option<RequestView> {
    match v {
        JsonView::Object(m) => if fields_can_be_read(m) {
            Some(
                RequestView {
                    model: model_at(m, "model"@)->0,
                    instructions: instructions_at(m, "instructions"@)->0,
                    input: input_at(m, "input"@)->0,
                    tools: tools_at(m, "tools"@)->0,
                    tool_choice: tool_choice_at(m, "tool_choice"@)->0,
                    parallel_tool_calls: opt_flag_at(m, "parallel_tool_calls"@)->0,
                    reasoning: opt_reasoning_at(m, "reasoning"@)->0,
                    store: flag_or_true_at(m, "store"@)->0,
                    stream: flag_or_false_at(m, "stream"@)->0,
                    includes: texts_or_none_at(m, "include"@)->0,
                    service_tier: read::opt_text_at(m, "service_tier"@)->0,
                    prompt_cache_key: read::opt_text_at(m, "prompt_cache_key"@)->0,
                    prompt_cache_retention: read::opt_text_at(m, "prompt_cache_retention"@)->0,
                    text: opt_controls_at(m, "text"@)->0,
                    previous_response_id: read::opt_text_at(m, "previous_response_id"@)->0,
                    llmconduit_replay: opt_flag_at(m, "llmconduit_replay"@)->0,
                    temperature: opt_number_at(m, "temperature"@)->0,
                    top_p: opt_number_at(m, "top_p"@)->0,
                    max_output_tokens: opt_i64_at(m, "max_output_tokens"@)->0,
                    frequency_penalty: opt_number_at(m, "frequency_penalty"@)->0,
                    presence_penalty: opt_number_at(m, "presence_penalty"@)->0,
                    truncation: opt_value_at(m, "truncation"@)->0,
                    metadata: opt_object_at(m, "metadata"@)->0,
                    stop: stop_at(m, "stop"@)->0,
                    thinking: None,
                    extra_body: other_fields(m, m.len() as int),
                },
            )
        } else {
            None
        },
        _ => None,
    }
}

impl ResponsesRequest {
    /// The request that a value stands for.
    pub fn from_json(value: &Json) -> (r: Option<ResponsesRequest>)
        ensures
            match r {
                Some(read) => request_from(value@) == Some(read@),
                None => request_from(value@) is None,
            },
    {
        let m = match value.as_object() {
            Some(m) => m,
            None => {
                return None;
            },
        };
        let model = match read_model(m, "model") {
            Some(x) => x,
            None => {
                return None;
            },
        };
        let instructions = match read_instructions(m, "instructions") {
            Some(x) => x,
            None => {
                return None;
            },
        };
        let input = match read_input(m, "input") {
            Some(x) => x,
            None => {
                return None;
            },
        };
        let tools = match read_tools(m, "tools") {
            Some(x) => x,
            None => {
                return None;
            },
        };
        let tool_choice = match read_tool_choice(m, "tool_choice") {
            Some(x) => x,
            None => {
                return None;
            },
        };
        let parallel_tool_calls = match read_opt_flag(m, "parallel_tool_calls") {
            Some(x) => x,
            None => {
                return None;
            },
        };
        let reasoning = match read_opt_reasoning(m, "reasoning") {
            Some(x) => x,
            None => {
                return None;
            },
        };
        let store = match read_flag_or_true(m, "store") {
            Some(x) => x,
            None => {
                return None;
            },
        };
        let stream = match read_flag_or_false(m, "stream") {
            Some(x) => x,
            None => {
                return None;
            },
        };
        let includes = match read_texts_or_none(m, "include") {
            Some(x) => x,
            None => {
                return None;
            },
        };
        let service_tier = match read_opt_text(m, "service_tier") {
            Some(x) => x,
            None => {
                return None;
            },
        };
        let prompt_cache_key = match read_opt_text(m, "prompt_cache_key") {
            Some(x) => x,
            None => {
                return None;
            },
        };
        let prompt_cache_retention = match read_opt_text(m, "prompt_cache_retention") {
            Some(x) => x,
            None => {
                return None;
            },
        };
        let text = match read_opt_controls(m, "text") {
            Some(x) => x,
            None => {
                return None;
            },
        };
        let previous_response_id = match read_opt_text(m, "previous_response_id") {
            Some(x) => x,
            None => {
                return None;
            },
        };
        let llmconduit_replay = match read_opt_flag(m, "llmconduit_replay") {
            Some(x) => x,
            None => {
                return None;
            },
        };
        let temperature = match read_opt_number(m, "temperature") {
            Some(x) => x,
            None => {
                return None;
            },
        };
        let top_p = match read_opt_number(m, "top_p") {
            Some(x) => x,
            None => {
                return None;
            },
        };
        let max_output_tokens = match read_opt_i64(m, "max_output_tokens") {
            Some(x) => x,
            None => {
                return None;
            },
        };
        let frequency_penalty = match read_opt_number(m, "frequency_penalty") {
            Some(x) => x,
            None => {
                return None;
            },
        };
        let presence_penalty = match read_opt_number(m, "presence_penalty") {
            Some(x) => x,
            None => {
                return None;
            },
        };
        let truncation = match read_opt_value(m, "truncation") {
            Some(x) => x,
            None => {
                return None;
            },
        };
        let metadata = match read_opt_object(m, "metadata") {
            Some(x) => x,
            None => {
                return None;
            },
        };
        let stop = match read_stop(m, "stop") {
            Some(x) => x,
            None => {
                return None;
            },
        };
        Some(
            ResponsesRequest {
                model,
                instructions,
                input,
                tools,
                tool_choice,
                parallel_tool_calls,
                reasoning,
                store,
                stream,
                includes,
                service_tier,
                prompt_cache_key,
                prompt_cache_retention,
                text,
                previous_response_id,
                llmconduit_replay,
                temperature,
                top_p,
                max_output_tokens,
                frequency_penalty,
                presence_penalty,
                truncation,
                metadata,
                stop,
                thinking: None,
                extra_body: read_other_fields(m),
            },
        )
    }
}

} // verus!
