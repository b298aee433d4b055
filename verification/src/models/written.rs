//! Optional fields as members of an object.
use vstd::prelude::*;

use crate::json;
use crate::json::Json;
use crate::json::JsonMap;
use crate::json::JsonNumber;
use crate::json::JsonView;
use crate::json::NumberView;

verus! {

/// The member for a text: there where the text is.
pub open spec fn opt_text(t: Option<String>) -> Option<JsonView> {
    match t {
        Some(t) => Some(JsonView::Text(t@)),
        None => None,
    }
}

/// The member for a flag: there where the flag is.
pub open spec fn opt_flag(b: Option<bool>) -> Option<JsonView> {
    match b {
        Some(b) => Some(JsonView::Bool(b)),
        None => None,
    }
}

/// The member for a number: there where the number is.
pub open spec fn opt_number(n: Option<JsonNumber>) -> Option<JsonView> {
    match n {
        Some(n) => Some(JsonView::Number(n@)),
        None => None,
    }
}

/// A signed number as a value.
pub open spec fn signed(n: i64) -> JsonView {
    JsonView::Number(
        if n >= 0 {
            NumberView::Unsigned(n as u64)
        } else {
            NumberView::Negative(n)
        },
    )
}

/// An unsigned number as a value.
pub open spec fn unsigned(n: u64) -> JsonView {
    JsonView::Number(NumberView::Unsigned(n))
}

/// The member for a signed number: there where the number is.
pub open spec fn opt_signed(n: Option<i64>) -> Option<JsonView> {
    match n {
        Some(n) => Some(signed(n)),
        None => None,
    }
}

/// The member for an unsigned number: there where the number is.
pub open spec fn opt_unsigned(n: Option<u64>) -> Option<JsonView> {
    match n {
        Some(n) => Some(unsigned(n)),
        None => None,
    }
}

/// The member for an index: there where the index is.
pub open spec fn opt_index(n: Option<usize>) -> Option<JsonView> {
    match n {
        Some(n) => Some(unsigned(n as u64)),
        None => None,
    }
}

/// Texts as a value.
pub open spec fn texts(t: Seq<String>) -> JsonView {
    JsonView::Array(Seq::new(t.len(), |i: int| JsonView::Text(t[i]@)))
}

/// The member for texts: there where the texts are.
pub open spec fn opt_texts(t: Option<Vec<String>>) -> Option<JsonView> {
    match t {
        Some(t) => Some(texts(t@)),
        None => None,
    }
}

/// Values as one value.
pub open spec fn values(v: Seq<Json>) -> JsonView {
    JsonView::Array(Seq::new(v.len(), |i: int| v[i]@))
}

/// The member for values: there where the values are.
pub open spec fn opt_values(v: Option<Vec<Json>>) -> Option<JsonView> {
    match v {
        Some(v) => Some(values(v@)),
        None => None,
    }
}

/// The member for a value: there where the value is.
pub open spec fn opt_value(v: Option<Json>) -> Option<JsonView> {
    match v {
        Some(v) => Some(v@),
        None => None,
    }
}

/// The member for an object: there where the object is.
pub open spec fn opt_object(m: Option<JsonMap>) -> Option<JsonView> {
    match m {
        Some(m) => Some(JsonView::Object(m@)),
        None => None,
    }
}

/// What is there, or `null`.
pub open spec fn or_null(v: Option<JsonView>) -> JsonView {
    match v {
        Some(v) => v,
        None => JsonView::Null,
    }
}

/// An optional member is there where its value is, and leaves the others as they are.
pub broadcast proof fn lemma_member_of_put_opt(
    m: Seq<(Seq<char>, JsonView)>,
    key: Seq<char>,
    v: Option<JsonView>,
    other: Seq<char>,
)
    ensures
        #[trigger] json::member(json::put_opt(m, key, v), other) == (if other == key && v is Some {
            v
        } else {
            json::member(m, other)
        }),
{
    broadcast use json::lemma_member_of_set;

}

/// An optional text is there where it is given, and leaves the others as they are.
pub broadcast proof fn lemma_member_of_put_opt_text(
    m: Seq<(Seq<char>, JsonView)>,
    key: Seq<char>,
    t: Option<Seq<char>>,
    other: Seq<char>,
)
    ensures
        #[trigger] json::member(json::put_opt_text(m, key, t), other) == (if other == key
            && t is Some {
            Some(JsonView::Text(t->0))
        } else {
            json::member(m, other)
        }),
{
    broadcast use json::lemma_member_of_set;

}

/// A text that is not empty is there, and leaves the others as they are.
pub broadcast proof fn lemma_member_of_put_unless_empty(
    m: Seq<(Seq<char>, JsonView)>,
    key: Seq<char>,
    t: Seq<char>,
    other: Seq<char>,
)
    ensures
        #[trigger] json::member(json::put_text_unless_empty(m, key, t), other) == (if other == key
            && t.len() > 0 {
            Some(JsonView::Text(t))
        } else {
            json::member(m, other)
        }),
{
    broadcast use json::lemma_member_of_set;

}

/// What is known of the members of an object that is put together.
pub broadcast group group_members {
    json::lemma_member_of_set,
    lemma_member_of_put_opt,
    lemma_member_of_put_opt_text,
    lemma_member_of_put_unless_empty,
}

/// Texts are written one by one, in order.
pub proof fn lemma_texts(t: Seq<String>)
    ensures
        json::text_array(crate::text::strings_view(t)) == texts(t),
{
    assert(json::text_array(crate::text::strings_view(t))->Array_0 =~= texts(t)->Array_0);
}

/// Values are written one by one, in order.
pub proof fn lemma_values(v: Seq<Json>)
    ensures
        JsonView::Array(json::items_view(v)) == values(v),
{
    assert(json::items_view(v) =~= values(v)->Array_0);
}

} // verus!
