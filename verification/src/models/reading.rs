//! What a member must be to be read as a field, and what the field then holds.
use vstd::prelude::*;

use crate::json;
use crate::json::Json;
use crate::json::JsonMap;
use crate::json::JsonNumber;
use crate::json::JsonView;
use crate::json::NumberView;
use crate::models::read;
use crate::models::responses::FunctionCallOutputContent;
use crate::models::shorthand;
use crate::text;

verus! {

/// Whether a member is missing or `null`.
pub open spec fn nothing(v: Option<JsonView>) -> bool {
    v is None || v == Some(JsonView::Null)
}

/// A text that must be there.
pub open spec fn text(v: Option<JsonView>, x: String) -> bool {
    v == Some(JsonView::Text(x@))
}

/// Whether a text can be read.
pub open spec fn can_text(v: Option<JsonView>) -> bool {
    v is Some && v->0 is Text
}

/// A text that may be missing.
pub open spec fn opt_text(v: Option<JsonView>, x: Option<String>) -> bool {
    match x {
        Some(t) => v == Some(JsonView::Text(t@)),
        None => nothing(v),
    }
}

/// Whether a text that may be missing can be read.
pub open spec fn can_opt_text(v: Option<JsonView>) -> bool {
    nothing(v) || can_text(v)
}

/// A text that is empty where it is missing.
pub open spec fn text_or_empty(v: Option<JsonView>, x: String) -> bool {
    if v is None {
        x@.len() == 0
    } else {
        text(v, x)
    }
}

/// Whether a text that is empty where it is missing can be read.
pub open spec fn can_text_or_empty(v: Option<JsonView>) -> bool {
    v is None || can_text(v)
}

/// The name of a model, without the white space around it.
pub open spec fn model(v: Option<JsonView>, x: String) -> bool {
    if nothing(v) {
        x@.len() == 0
    } else {
        v matches Some(JsonView::Text(t)) && x@ == text::trimmed(t)
    }
}

/// Whether the name of a model can be read.
pub open spec fn can_model(v: Option<JsonView>) -> bool {
    can_opt_text(v)
}

/// The type of a call: a function where it is missing.
pub open spec fn call_kind(v: Option<JsonView>, x: String) -> bool {
    if nothing(v) {
        x@ == "function"@
    } else {
        text(v, x)
    }
}

/// Whether the type of a call can be read.
pub open spec fn can_call_kind(v: Option<JsonView>) -> bool {
    can_opt_text(v)
}

/// Texts, one for each element.
pub open spec fn texts(v: Option<JsonView>, x: Vec<String>) -> bool {
    v matches Some(JsonView::Array(items)) && items.len() == x@.len() && forall|i: int|
        0 <= i < items.len() ==> items[i] == JsonView::Text((#[trigger] x@[i])@)
}

/// Whether texts can be read.
pub open spec fn can_texts(v: Option<JsonView>) -> bool {
    v matches Some(JsonView::Array(items)) && forall|i: int|
        0 <= i < items.len() ==> (#[trigger] items[i]) is Text
}

/// Texts that may be missing.
pub open spec fn opt_texts(v: Option<JsonView>, x: Option<Vec<String>>) -> bool {
    match x {
        Some(t) => texts(v, t),
        None => nothing(v),
    }
}

/// Whether texts that may be missing can be read.
pub open spec fn can_opt_texts(v: Option<JsonView>) -> bool {
    nothing(v) || can_texts(v)
}

/// Texts, none where they are missing.
pub open spec fn texts_or_none(v: Option<JsonView>, x: Vec<String>) -> bool {
    if v is None {
        x@.len() == 0
    } else {
        texts(v, x)
    }
}

/// Whether texts that are none where they are missing can be read.
pub open spec fn can_texts_or_none(v: Option<JsonView>) -> bool {
    v is None || can_texts(v)
}

/// A value of any kind that must be there.
pub open spec fn value(v: Option<JsonView>, x: Json) -> bool {
    v == Some(x@)
}

/// Whether a value can be read.
pub open spec fn can_value(v: Option<JsonView>) -> bool {
    v is Some
}

/// A value of any kind that may be missing.
pub open spec fn opt_value(v: Option<JsonView>, x: Option<Json>) -> bool {
    match x {
        Some(j) => v == Some(j@) && !(j@ is Null),
        None => nothing(v),
    }
}

/// Whether a value that may be missing can be read: it always can.
pub open spec fn can_opt_value(v: Option<JsonView>) -> bool {
    true
}

/// Values, one for each element.
pub open spec fn values(v: Option<JsonView>, x: Vec<Json>) -> bool {
    v matches Some(JsonView::Array(items)) && items.len() == x@.len() && forall|i: int|
        0 <= i < items.len() ==> items[i] == (#[trigger] x@[i])@
}

/// Whether values can be read.
pub open spec fn can_values(v: Option<JsonView>) -> bool {
    v is Some && v->0 is Array
}

/// Values that may be missing.
pub open spec fn opt_values(v: Option<JsonView>, x: Option<Vec<Json>>) -> bool {
    match x {
        Some(j) => values(v, j),
        None => nothing(v),
    }
}

/// Whether values that may be missing can be read.
pub open spec fn can_opt_values(v: Option<JsonView>) -> bool {
    nothing(v) || can_values(v)
}

/// An object that may be missing.
pub open spec fn opt_object(v: Option<JsonView>, x: Option<JsonMap>) -> bool {
    match x {
        Some(o) => v == Some(JsonView::Object(o@)),
        None => nothing(v),
    }
}

/// Whether an object that may be missing can be read.
pub open spec fn can_opt_object(v: Option<JsonView>) -> bool {
    nothing(v) || v->0 is Object
}

/// A flag that may be missing.
pub open spec fn opt_flag(v: Option<JsonView>, x: Option<bool>) -> bool {
    match x {
        Some(b) => v == Some(JsonView::Bool(b)),
        None => nothing(v),
    }
}

/// Whether a flag that may be missing can be read.
pub open spec fn can_opt_flag(v: Option<JsonView>) -> bool {
    nothing(v) || v->0 is Bool
}

/// A flag that is off where it is missing.
pub open spec fn flag_or_false(v: Option<JsonView>, x: bool) -> bool {
    if v is None {
        !x
    } else {
        v == Some(JsonView::Bool(x))
    }
}

/// Whether such a flag can be read.
pub open spec fn can_flag_or_false(v: Option<JsonView>) -> bool {
    v is None || v->0 is Bool
}

/// A flag that is on where it is missing.
pub open spec fn flag_or_true(v: Option<JsonView>, x: bool) -> bool {
    if v is None {
        x
    } else {
        v == Some(JsonView::Bool(x))
    }
}

/// Whether such a flag can be read.
pub open spec fn can_flag_or_true(v: Option<JsonView>) -> bool {
    v is None || v->0 is Bool
}

/// The value of a whole number.
pub open spec fn whole(v: Option<JsonView>) -> Option<int> {
    match v {
        Some(JsonView::Number(NumberView::Unsigned(n))) => Some(n as int),
        Some(JsonView::Number(NumberView::Negative(n))) => Some(n as int),
        _ => None,
    }
}

/// Whether a value is a whole number that is not negative.
pub open spec fn is_unsigned(v: Option<JsonView>) -> bool {
    v is Some && v->0 is Number && v->0->Number_0 is Unsigned
}

/// A whole number that must be there.
pub open spec fn i64(v: Option<JsonView>, x: i64) -> bool {
    whole(v) == Some(x as int)
}

/// Whether a whole number can be read.
pub open spec fn can_i64(v: Option<JsonView>) -> bool {
    whole(v) is Some && whole(v)->0 <= i64::MAX
}

/// A whole number that is zero where it is missing.
pub open spec fn i64_or_zero(v: Option<JsonView>, x: i64) -> bool {
    if v is None {
        x == 0
    } else {
        i64(v, x)
    }
}

/// Whether such a number can be read.
pub open spec fn can_i64_or_zero(v: Option<JsonView>) -> bool {
    v is None || can_i64(v)
}

/// A whole number that may be missing.
pub open spec fn opt_i64(v: Option<JsonView>, x: Option<i64>) -> bool {
    match x {
        Some(n) => i64(v, n),
        None => nothing(v),
    }
}

/// Whether such a number can be read.
pub open spec fn can_opt_i64(v: Option<JsonView>) -> bool {
    nothing(v) || can_i64(v)
}

/// A count that may be missing.
pub open spec fn opt_u64(v: Option<JsonView>, x: Option<u64>) -> bool {
    match x {
        Some(n) => is_unsigned(v) && whole(v) == Some(n as int),
        None => nothing(v),
    }
}

/// Whether such a count can be read.
pub open spec fn can_opt_u64(v: Option<JsonView>) -> bool {
    nothing(v) || is_unsigned(v)
}

/// A small count that may be missing.
pub open spec fn opt_u32(v: Option<JsonView>, x: Option<u32>) -> bool {
    match x {
        Some(n) => is_unsigned(v) && whole(v) == Some(n as int),
        None => nothing(v),
    }
}

/// Whether such a count can be read.
pub open spec fn can_opt_u32(v: Option<JsonView>) -> bool {
    nothing(v) || (is_unsigned(v) && whole(v)->0 <= u32::MAX)
}

/// An index that must be there.
pub open spec fn usize(v: Option<JsonView>, x: usize) -> bool {
    is_unsigned(v) && whole(v) == Some(x as int)
}

/// Whether an index can be read.
pub open spec fn can_usize(v: Option<JsonView>) -> bool {
    is_unsigned(v) && whole(v)->0 <= usize::MAX
}

/// An index that may be missing.
pub open spec fn opt_usize(v: Option<JsonView>, x: Option<usize>) -> bool {
    match x {
        Some(n) => usize(v, n),
        None => nothing(v),
    }
}

/// Whether such an index can be read.
pub open spec fn can_opt_usize(v: Option<JsonView>) -> bool {
    nothing(v) || can_usize(v)
}

/// A number of any kind that may be missing.
pub open spec fn opt_number(v: Option<JsonView>, x: Option<JsonNumber>) -> bool {
    match x {
        Some(n) => v matches Some(JsonView::Number(k)) && json::as_float(k) == Some(n@),
        None => nothing(v),
    }
}

/// Whether such a number can be read.
pub open spec fn can_opt_number(v: Option<JsonView>) -> bool {
    nothing(v) || (v matches Some(JsonView::Number(k)) && json::as_float(k) is Some)
}

/// The schema of a tool: that of any object where it is missing.
pub open spec fn schema(v: Option<JsonView>, x: Json) -> bool {
    if v is None {
        x@ == JsonView::Object(seq![("type"@, JsonView::Text("object"@))])
    } else {
        v == Some(x@)
    }
}

/// Whether a schema can be read: it always can.
pub open spec fn can_schema(v: Option<JsonView>) -> bool {
    true
}

/// The choice of a tool in its one form: left to the model where it is missing.
pub open spec fn tool_choice(v: Option<JsonView>, x: Json) -> bool {
    if v is None {
        x@ == JsonView::Text("auto"@)
    } else {
        x@ == shorthand::nested_tool_choice(v->0)
    }
}

/// Whether the choice of a tool can be read: it always can.
pub open spec fn can_tool_choice(v: Option<JsonView>) -> bool {
    true
}

/// Where to stop: one text, or some.
pub open spec fn stop(v: Option<JsonView>, x: Option<Vec<String>>) -> bool {
    match x {
        Some(t) => {
            ||| t@.len() == 1 && v == Some(JsonView::Text(t@[0]@))
            ||| texts(v, t)
        },
        None => nothing(v),
    }
}

/// Whether a place to stop can be read.
pub open spec fn can_stop(v: Option<JsonView>) -> bool {
    nothing(v) || can_text(v) || can_texts(v)
}

/// Variables and their values, one for each member.
pub open spec fn opt_env(v: Option<JsonView>, x: Option<Vec<(String, String)>>) -> bool {
    match x {
        Some(env) => v matches Some(JsonView::Object(m)) && m.len() == env@.len() && forall|i: int|
            0 <= i < m.len() ==> m[i] == ((#[trigger] env@[i]).0@, JsonView::Text(env@[i].1@)),
        None => nothing(v),
    }
}

/// Whether variables can be read.
pub open spec fn can_opt_env(v: Option<JsonView>) -> bool {
    nothing(v) || (v matches Some(JsonView::Object(m)) && forall|i: int|
        0 <= i < m.len() ==> (#[trigger] m[i]).1 is Text)
}

/// What a tool answered: a text, or parts, one for each element.
pub open spec fn output(v: Option<JsonView>, x: FunctionCallOutputContent) -> bool {
    match x {
        FunctionCallOutputContent::Text(t) => v == Some(JsonView::Text(t@)),
        FunctionCallOutputContent::Content(parts) => v matches Some(JsonView::Array(items))
            && items.len() == parts@.len() && forall|i: int|
            0 <= i < items.len() ==> read::content_read(items[i]) == Some((#[trigger] parts@[i])@),
    }
}

} // verus!
