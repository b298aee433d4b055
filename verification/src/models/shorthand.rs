//! The shorthands that a client may write for input items and for a tool choice, and the
//! one form that each is brought into.
use vstd::prelude::*;

use crate::json;
use crate::json::Json;
use crate::json::JsonMap;
use crate::json::JsonNumber;
use crate::json::JsonView;
use crate::json::NumberView;
use crate::models::fields;
use crate::models::fields::fields_in;
use crate::models::fields::Names;
use crate::models::responses;
use crate::models::responses::input_text_message;
use crate::models::responses::ResponseItem;
use crate::models::responses::ResponseStub;
use crate::text;

verus! {

// --- Input items -----------------------------------------------------------------------------

/// The call that an item of the role `tool` answers: `call_id`, or `tool_call_id` where
/// there is no `call_id`; `None` where that is not a string.
pub open spec fn answered_call(m: Seq<(Seq<char>, JsonView)>) -> Option<Seq<char>> {
    if json::has_member(m, "call_id"@) {
        json::text_member(m, "call_id"@)
    } else {
        json::text_member(m, "tool_call_id"@)
    }
}

/// The content of an item of the role `tool`, an empty text where it has none.
pub open spec fn tool_content(m: Seq<(Seq<char>, JsonView)>) -> JsonView {
    match json::member(m, "content"@) {
        Some(v) => v,
        None => JsonView::Text(seq![]),
    }
}

/// The content of a tool as function output: a text or an array as it stands, an empty
/// text for `null`, and for anything else its own text `rendered`, or `null` without one.
pub open spec fn legacy_output(v: JsonView, rendered: Option<Seq<char>>) -> JsonView {
    match v {
        JsonView::Text(_) => v,
        JsonView::Array(_) => v,
        JsonView::Null => JsonView::Text(seq![]),
        _ => JsonView::Text(
            match rendered {
                Some(t) => t,
                None => "null"@,
            },
        ),
    }
}

/// The function output that answers `call_id`.
pub open spec fn function_output(call_id: Seq<char>, output: JsonView) -> JsonView {
    let m = json::tagged("function_call_output"@);
    let m = json::put_text(m, "call_id"@, call_id);
    JsonView::Object(json::set_member(m, "output"@, output))
}

/// The array whose only part is the input text `t`.
pub open spec fn input_text_parts(t: Seq<char>) -> JsonView {
    JsonView::Array(
        seq![JsonView::Object(json::put_text(json::tagged("input_text"@), "text"@, t))],
    )
}

/// An object with the type `message` where it has a role and content and no type.
pub open spec fn typed_message(m: Seq<(Seq<char>, JsonView)>) -> Seq<(Seq<char>, JsonView)> {
    if !json::has_member(m, "type"@) && json::has_member(m, "role"@) && json::has_member(
        m,
        "content"@,
    ) {
        json::put_text(m, "type"@, "message"@)
    } else {
        m
    }
}

/// A message whose content is a text, with that text as its only part.
pub open spec fn parted_message(m: Seq<(Seq<char>, JsonView)>) -> Seq<(Seq<char>, JsonView)> {
    match json::text_member(m, "content"@) {
        Some(t) => if json::text_member(m, "type"@) == Some("message"@) {
            json::set_member(m, "content"@, input_text_parts(t))
        } else {
            m
        },
        None => m,
    }
}

/// The one form of an input item, where `rendered` is the text of its content.
pub open spec fn normalized_item(v: JsonView, rendered: Option<Seq<char>>) -> JsonView {
    match v {
        JsonView::Object(m) => {
            if json::text_member(m, "role"@) == Some("tool"@) && answered_call(m) is Some {
                function_output(answered_call(m)->0, legacy_output(tool_content(m), rendered))
            } else {
                JsonView::Object(parted_message(typed_message(m)))
            }
        },
        _ => v,
    }
}

/// The text of the content that [`normalized_item`] may need.
pub open spec fn item_content_text(v: JsonView) -> Option<Seq<char>> {
    match v {
        JsonView::Object(m) => json::rendered_json(tool_content(m)),
        _ => None,
    }
}

/// The content of a tool as function output, given the content's own text.
pub fn legacy_output_from(output: Json, rendered: Option<String>) -> (r: Json)
    ensures
        r@ == legacy_output(output@, text::opt_view(rendered)),
{
    match output {
        Json::Text(_) | Json::Array(_) => output,
        Json::Null => {
            let empty = String::new();
            assert(empty@ =~= seq![]);
            Json::Text(empty)
        },
        _ => Json::Text(
            match rendered {
                Some(t) => t,
                None => "null".to_owned(),
            },
        ),
    }
}

/// The content of a tool as function output.
pub fn normalize_legacy_function_output(output: Json) -> (r: Json)
    ensures
        r@ == legacy_output(output@, json::rendered_json(output@)),
{
    let rendered = output.render();
    legacy_output_from(output, rendered)
}

fn answered_call_of(object: &JsonMap) -> (r: Option<String>)
    ensures
        text::opt_view(r) == answered_call(object@),
{
    if object.contains_key("call_id") {
        text::opt_owned(object.get_text("call_id"))
    } else {
        text::opt_owned(object.get_text("tool_call_id"))
    }
}

fn tool_content_of(object: &JsonMap) -> (r: Json)
    ensures
        r@ == tool_content(object@),
{
    match object.get("content") {
        Some(v) => v.copy(),
        None => {
            let empty = String::new();
            assert(empty@ =~= seq![]);
            Json::Text(empty)
        },
    }
}

fn text_parts(t: &str) -> (r: Json)
    ensures
        r@ == input_text_parts(t@),
{
    let mut part = JsonMap::of_type("input_text");
    part.put_text("text", t);
    let mut parts: Vec<Json> = Vec::new();
    parts.push(part.into_json());
    assert(json::items_view(parts@) =~= seq![
        JsonView::Object(json::put_text(json::tagged("input_text"@), "text"@, t@)),
    ]);
    Json::array(parts)
}

/// The one form of an input item, given the text of its content.
pub fn normalize_input_item_with(item: Json, rendered: Option<String>) -> (r: Json)
    ensures
        r@ == normalized_item(item@, text::opt_view(rendered)),
{
    let mut object = match item {
        Json::Object(object) => {
            proof {
                json::lemma_object_view(object);
            }
            object
        },
        other => {
            return other;
        },
    };
    let is_tool = match object.get_text("role") {
        Some(role) => text::str_eq(role, "tool"),
        None => false,
    };
    if is_tool {
        if let Some(call_id) = answered_call_of(&object) {
            let output = legacy_output_from(tool_content_of(&object), rendered);
            let mut answer = JsonMap::of_type("function_call_output");
            answer.put_text("call_id", call_id.as_str());
            answer.put("output", output);
            return answer.into_json();
        }
    }
    let ghost before = object@;
    if !object.contains_key("type") && object.contains_key("role") && object.contains_key(
        "content",
    ) {
        object.put_text("type", "message");
    }
    assert(object@ == typed_message(before));
    let is_message = match object.get_text("type") {
        Some(kind) => text::str_eq(kind, "message"),
        None => false,
    };
    if is_message {
        if let Some(content) = text::opt_owned(object.get_text("content")) {
            object.put("content", text_parts(content.as_str()));
        }
    }
    object.into_json()
}

/// The one form of an input item: a message of the role `tool` that names its call is
/// that call's output, a message may leave out its type, and its content may be a text.
pub fn normalize_input_item(item: Json) -> (r: Json)
    ensures
        r@ == normalized_item(item@, item_content_text(item@)),
{
    let rendered = match &item {
        Json::Object(object) => {
            proof {
                json::lemma_object_view(*object);
            }
            tool_content_of(object).render()
        },
        _ => None,
    };
    normalize_input_item_with(item, rendered)
}

/// What the input of a request is.
#[derive(Debug, Clone)]
pub enum RequestInput {
    /// A text, as the message that it stands for.
    Message(Vec<ResponseItem>),
    /// Items, each in its one form.
    Items(Vec<Json>),
}

/// The one form of each item of an input.
pub open spec fn normalized_items(items: Seq<JsonView>) -> Seq<JsonView> {
    items.map_values(|v: JsonView| normalized_item(v, item_content_text(v)))
}

/// The input of a request: a text is a message of the user, an array is its items;
/// anything else is refused.
pub fn request_input(value: &Json) -> (r: Option<RequestInput>)
    ensures
        match value@ {
            JsonView::Text(t) => r matches Some(RequestInput::Message(items)) && items@.len() == 1
                && responses::is_text_message(items@[0], "user"@, t),
            JsonView::Array(items) => r matches Some(RequestInput::Items(normal))
                && json::items_view(normal@) == normalized_items(items),
            _ => r is None,
        },
{
    match value {
        Json::Text(t) => {
            let mut items: Vec<ResponseItem> = Vec::new();
            items.push(input_text_message("user", t.clone()));
            Some(RequestInput::Message(items))
        },
        Json::Array(items) => {
            proof {
                json::lemma_array_view(*items);
            }
            let mut normal: Vec<Json> = Vec::new();
            let mut i: usize = 0;
            while i < items.len()
                invariant
                    i <= items@.len(),
                    normal@.len() == i,
                    forall|k: int|
                        0 <= k < i ==> (#[trigger] normal@[k])@ == normalized_item(
                            items@[k]@,
                            item_content_text(items@[k]@),
                        ),
                decreases items@.len() - i,
            {
                normal.push(normalize_input_item(items[i].copy()));
                i += 1;
            }
            assert(json::items_view(normal@) =~= normalized_items(json::items_view(items@)));
            Some(RequestInput::Items(normal))
        },
        _ => None,
    }
}

/// An item in its one form stays as it is.
pub proof fn law_normal_item_is_kept(
    v: JsonView,
    rendered: Option<Seq<char>>,
    again: Option<Seq<char>>,
)
    ensures
        normalized_item(normalized_item(v, rendered), again) == normalized_item(v, rendered),
{
    reveal_strlit("type");
    reveal_strlit("role");
    reveal_strlit("content");
    reveal_strlit("call_id");
    reveal_strlit("output");
    reveal_strlit("message");
    reveal_strlit("function_call_output");
    assert("type"@.len() == 4 && "role"@.len() == 4 && "type"@[0] != "role"@[0]);
    assert("content"@.len() == 7 && "call_id"@.len() == 7 && "content"@[1] != "call_id"@[1]);
    assert("output"@.len() == 6 && "message"@.len() == 7 && "function_call_output"@.len() == 20);
    if let JsonView::Object(m) = v {
        if json::text_member(m, "role"@) == Some("tool"@) && answered_call(m) is Some {
            let call_id = answered_call(m)->0;
            let output = legacy_output(tool_content(m), rendered);
            let e = Seq::<(Seq<char>, JsonView)>::empty();
            let kind = JsonView::Text("function_call_output"@);
            let a = json::tagged("function_call_output"@);
            let b = json::put_text(a, "call_id"@, call_id);
            let c = json::set_member(b, "output"@, output);
            json::law_set_member_is_there(e, "type"@, kind);
            json::law_set_member_keeps_others(e, "type"@, kind, "role"@);
            json::law_set_member_keeps_others(e, "type"@, kind, "content"@);
            json::law_set_member_keeps_others(a, "call_id"@, JsonView::Text(call_id), "role"@);
            json::law_set_member_keeps_others(a, "call_id"@, JsonView::Text(call_id), "type"@);
            json::law_set_member_keeps_others(a, "call_id"@, JsonView::Text(call_id), "content"@);
            json::law_set_member_keeps_others(b, "output"@, output, "role"@);
            json::law_set_member_keeps_others(b, "output"@, output, "type"@);
            json::law_set_member_keeps_others(b, "output"@, output, "content"@);
            assert(json::member(e, "role"@) is None);
            assert(json::member(e, "content"@) is None);
            assert(JsonView::Object(c) == normalized_item(v, rendered));
        } else {
            let a = typed_message(m);
            json::law_set_member_is_there(m, "type"@, JsonView::Text("message"@));
            lemma_kept_by_type(m);
            let b = parted_message(a);
            if let Some(t) = json::text_member(a, "content"@) {
                json::law_set_member_is_there(a, "content"@, input_text_parts(t));
                lemma_kept_by_content(a, input_text_parts(t));
            }
            assert(typed_message(b) == b);
            assert(parted_message(b) == b);
        }
    }
}

proof fn lemma_kept_by_type(m: Seq<(Seq<char>, JsonView)>)
    ensures
        ({
            let after = json::put_text(m, "type"@, "message"@);
            &&& json::member(after, "role"@) == json::member(m, "role"@)
            &&& json::member(after, "content"@) == json::member(m, "content"@)
            &&& json::member(after, "call_id"@) == json::member(m, "call_id"@)
            &&& json::member(after, "tool_call_id"@) == json::member(m, "tool_call_id"@)
        }),
{
    reveal_strlit("type");
    reveal_strlit("role");
    reveal_strlit("content");
    reveal_strlit("call_id");
    reveal_strlit("tool_call_id");
    assert("type"@.len() == 4 && "role"@.len() == 4 && "type"@[0] != "role"@[0]);
    assert("content"@.len() == 7 && "call_id"@.len() == 7 && "tool_call_id"@.len() == 12);
    let v = JsonView::Text("message"@);
    json::law_set_member_keeps_others(m, "type"@, v, "role"@);
    json::law_set_member_keeps_others(m, "type"@, v, "content"@);
    json::law_set_member_keeps_others(m, "type"@, v, "call_id"@);
    json::law_set_member_keeps_others(m, "type"@, v, "tool_call_id"@);
}

proof fn lemma_kept_by_content(m: Seq<(Seq<char>, JsonView)>, v: JsonView)
    ensures
        ({
            let after = json::set_member(m, "content"@, v);
            &&& json::member(after, "role"@) == json::member(m, "role"@)
            &&& json::member(after, "type"@) == json::member(m, "type"@)
            &&& json::member(after, "call_id"@) == json::member(m, "call_id"@)
            &&& json::member(after, "tool_call_id"@) == json::member(m, "tool_call_id"@)
        }),
{
    reveal_strlit("type");
    reveal_strlit("role");
    reveal_strlit("content");
    reveal_strlit("call_id");
    reveal_strlit("tool_call_id");
    assert("type"@.len() == 4 && "role"@.len() == 4 && "content"@.len() == 7);
    assert("call_id"@.len() == 7 && "content"@[1] != "call_id"@[1]);
    assert("tool_call_id"@.len() == 12);
    json::law_set_member_keeps_others(m, "content"@, v, "role"@);
    json::law_set_member_keeps_others(m, "content"@, v, "type"@);
    json::law_set_member_keeps_others(m, "content"@, v, "call_id"@);
    json::law_set_member_keeps_others(m, "content"@, v, "tool_call_id"@);
}

// --- Tool choice -----------------------------------------------------------------------------

/// The object whose only member is the function's name.
pub open spec fn function_name(name: JsonView) -> JsonView {
    JsonView::Object(json::set_member(seq![], "name"@, name))
}

/// The one form of a tool choice: a function that is chosen by a flat `name` has it
/// under `function`.
pub open spec fn nested_tool_choice(v: JsonView) -> JsonView {
    match v {
        JsonView::Object(m) => {
            if json::text_member(m, "type"@) == Some("function"@) && !json::has_member(
                m,
                "function"@,
            ) && json::has_member(m, "name"@) {
                JsonView::Object(
                    json::set_member(
                        json::without_member(m, "name"@),
                        "function"@,
                        function_name(json::member(m, "name"@)->0),
                    ),
                )
            } else {
                v
            }
        },
        _ => v,
    }
}

/// The name under `function` of a chosen function.
pub open spec fn nested_name(v: JsonView) -> Option<Seq<char>> {
    match v {
        JsonView::Object(m) => if json::text_member(m, "type"@) == Some("function"@) {
            match json::member(m, "function"@) {
                Some(JsonView::Object(f)) => json::text_member(f, "name"@),
                _ => None,
            }
        } else {
            None
        },
        _ => None,
    }
}

/// The choice of the function `name` as clients write it.
pub open spec fn flat_function(name: Seq<char>) -> JsonView {
    JsonView::Object(json::put_text(json::tagged("function"@), "name"@, name))
}

/// A tool choice as responses show it: a chosen function by its flat name.
pub open spec fn flat_tool_choice(v: JsonView) -> JsonView {
    match nested_name(v) {
        Some(name) => flat_function(name),
        None => v,
    }
}

/// The one form of a tool choice.
pub fn normalize_tool_choice(choice: Json) -> (r: Json)
    ensures
        r@ == nested_tool_choice(choice@),
{
    match choice {
        Json::Object(object) => {
            proof {
                json::lemma_object_view(object);
            }
            let mut object = object;
            let is_function = match object.get_text("type") {
                Some(kind) => text::str_eq(kind, "function"),
                None => false,
            };
            if is_function && !object.contains_key("function") {
                if let Some(name) = object.remove("name") {
                    let mut function = JsonMap::new();
                    function.put("name", name);
                    object.put("function", function.into_json());
                }
            }
            object.into_json()
        },
        other => other,
    }
}

fn nested_name_of(choice: &Json) -> (r: Option<&str>)
    ensures
        text::opt_str_view(r) == nested_name(choice@),
{
    let object = match choice.as_object() {
        Some(object) => object,
        None => {
            return None;
        },
    };
    match object.get_text("type") {
        Some(kind) => if !text::str_eq(kind, "function") {
            return None;
        },
        None => {
            return None;
        },
    }
    match object.get("function") {
        Some(function) => match function.as_object() {
            Some(function) => function.get_text("name"),
            None => None,
        },
        None => None,
    }
}

/// A tool choice as responses show it.
pub fn response_tool_choice(choice: &Json) -> (r: Json)
    ensures
        r@ == flat_tool_choice(choice@),
{
    match nested_name_of(choice) {
        Some(name) => {
            let mut public = JsonMap::of_type("function");
            public.put_text("name", name);
            public.into_json()
        },
        None => choice.copy(),
    }
}

/// A response shows the choice of a function as the client wrote it.
pub proof fn law_tool_choice_comes_back(name: Seq<char>)
    ensures
        flat_tool_choice(nested_tool_choice(flat_function(name))) == flat_function(name),
{
    reveal_strlit("type");
    reveal_strlit("name");
    reveal_strlit("function");
    assert("type"@.len() == 4 && "name"@.len() == 4 && "type"@[0] != "name"@[0]);
    assert("function"@.len() == 8);
    let e = Seq::<(Seq<char>, JsonView)>::empty();
    let kind = JsonView::Text("function"@);
    let n = JsonView::Text(name);
    let a = json::tagged("function"@);
    let m = json::put_text(a, "name"@, name);
    json::law_set_member_is_there(e, "type"@, kind);
    json::law_set_member_keeps_others(e, "type"@, kind, "function"@);
    json::law_set_member_is_there(a, "name"@, n);
    json::law_set_member_keeps_others(a, "name"@, n, "type"@);
    json::law_set_member_keeps_others(a, "name"@, n, "function"@);
    assert(json::member(e, "function"@) is None);
    assert(json::keys_ascend(e));
    json::law_keys_stay_ascending(e, "type"@, kind);
    json::law_keys_stay_ascending(a, "name"@, n);
    let less = json::without_member(m, "name"@);
    json::law_removal_keeps_others(m, "name"@, "type"@);
    json::law_set_member_keeps_others(less, "function"@, function_name(n), "type"@);
    json::law_set_member_is_there(less, "function"@, function_name(n));
    json::law_set_member_is_there(e, "name"@, n);
}

// --- The early stub of a response --------------------------------------------------------------

/// A stub as JSON: the estimate only where there is one.
pub open spec fn stub_json(stub: ResponseStub) -> JsonView {
    let m = json::put_text(seq![], "id"@, stub.id@);
    JsonView::Object(
        match stub.estimated_input_tokens {
            Some(n) => json::set_member(m, "estimated_input_tokens"@, json::whole(n as int)),
            None => m,
        },
    )
}

impl ResponseStub {
    /// The stub as JSON.
    pub fn to_json(&self) -> (r: Json)
        ensures
            r@ == stub_json(*self),
    {
        let mut m = JsonMap::new();
        m.put_text("id", self.id.as_str());
        if let Some(n) = self.estimated_input_tokens {
            m.put("estimated_input_tokens", Json::unsigned(n));
        }
        m.into_json()
    }

    /// The stub that a value stands for: it has an id, and an estimate that is a number or
    /// not there.
    pub fn from_json(value: &Json) -> (r: Option<ResponseStub>)
        ensures
            match r {
                Some(stub) => stub_from(value@) == Some((stub.id@, stub.estimated_input_tokens)),
                None => stub_from(value@) is None,
            },
    {
        let names = Names::new().and("id").and("estimated_input_tokens");
        assert(names@ =~= seq!["id"@, "estimated_input_tokens"@]);
        let fields = match fields_in(value, &names, 1) {
            Some(fields) => fields,
            None => {
                return None;
            },
        };
        let m = fields.map();
        let id = match m.get_text("id") {
            Some(t) => t.to_owned(),
            None => {
                return None;
            },
        };
        let estimated_input_tokens = match m.get("estimated_input_tokens") {
            None => None,
            Some(Json::Null) => None,
            Some(Json::Number(JsonNumber::Unsigned(n))) => Some(*n),
            Some(_) => {
                return None;
            },
        };
        Some(ResponseStub { id, estimated_input_tokens })
    }
}

/// The id and the estimate of the stub that a value stands for.
pub open spec fn stub_from(v: JsonView) -> Option<(Seq<char>, Option<u64>)> {
    match fields::fields_of(v, seq!["id"@, "estimated_input_tokens"@], 1) {
        Some(m) => match json::text_member(m, "id"@) {
            Some(id) => match json::member(m, "estimated_input_tokens"@) {
                None => Some((id, None)),
                Some(JsonView::Null) => Some((id, None)),
                Some(JsonView::Number(NumberView::Unsigned(n))) => Some((id, Some(n))),
                Some(_) => None,
            },
            None => None,
        },
        None => None,
    }
}

/// A stub that is written is read back as it was, and an estimate that is not there is
/// not written.
pub proof fn law_stub_round_trip(stub: ResponseStub)
    ensures
        stub_from(stub_json(stub)) == Some((stub.id@, stub.estimated_input_tokens)),
        json::field(stub_json(stub), "estimated_input_tokens"@) is Some
            == stub.estimated_input_tokens is Some,
{
    reveal_strlit("id");
    reveal_strlit("estimated_input_tokens");
    assert("id"@.len() == 2 && "estimated_input_tokens"@.len() == 22);
    let e = Seq::<(Seq<char>, JsonView)>::empty();
    let id = JsonView::Text(stub.id@);
    let m = json::put_text(e, "id"@, stub.id@);
    json::law_set_member_is_there(e, "id"@, id);
    json::law_set_member_keeps_others(e, "id"@, id, "estimated_input_tokens"@);
    assert(json::member(e, "estimated_input_tokens"@) is None);
    if let Some(n) = stub.estimated_input_tokens {
        let v = json::whole(n as int);
        json::law_set_member_is_there(m, "estimated_input_tokens"@, v);
        json::law_set_member_keeps_others(m, "estimated_input_tokens"@, v, "id"@);
    }
}

} // verus!
