//! JSON as it is written, with the members of an object in their own order, and what it
//! stands for.
use vstd::prelude::*;

use crate::json;
use crate::json::JsonView;
use crate::json::NumberView;
use crate::json_string;
use crate::json_text;
use crate::text;

verus! {

/// JSON as it is written.
pub enum Doc {
    /// A value, written as [`json::Json::render`] writes it.
    Value(JsonView),
    /// A string.
    Text(Seq<char>),
    /// A whole number.
    Whole(int),
    /// An array.
    Array(Seq<Doc>),
    /// An object, its members in order.
    Object(Seq<(Seq<char>, Doc)>),
}

/// The members of an object.
pub type Members = Seq<(Seq<char>, Doc)>;

/// The compact text, where every part has one.
pub open spec fn text_of(d: Doc) -> Option<Seq<char>>
    decreases d, 0nat,
{
    match d {
        Doc::Value(v) => json::rendered_json(v),
        Doc::Text(t) => Some(json_string::quoted(t)),
        Doc::Whole(n) => Some(text::signed(n)),
        Doc::Array(items) => json_text::array_text(texts_of(items, items.len())),
        Doc::Object(m) => json_text::object_text(fields_of(m, m.len())),
    }
}

/// The texts of the first `n` elements.
pub open spec fn texts_of(items: Seq<Doc>, n: nat) -> Seq<Option<Seq<char>>>
    decreases items, n,
{
    if n == 0 || n > items.len() {
        Seq::empty()
    } else {
        texts_of(items, (n - 1) as nat).push(text_of(items[n - 1]))
    }
}

/// The texts of the first `n` members.
pub open spec fn fields_of(m: Members, n: nat) -> json_text::Fields
    decreases m, n,
{
    if n == 0 || n > m.len() {
        Some(Seq::empty())
    } else {
        json_text::put(fields_of(m, (n - 1) as nat), m[n - 1].0, text_of(m[n - 1].1))
    }
}

/// What it stands for: the last of several members with one name counts.
pub open spec fn value_of(d: Doc) -> JsonView
    decreases d, 0nat,
{
    match d {
        Doc::Value(v) => v,
        Doc::Text(t) => JsonView::Text(t),
        Doc::Whole(n) => json::whole(n),
        Doc::Array(items) => JsonView::Array(values_of(items, items.len())),
        Doc::Object(m) => JsonView::Object(members_of(m, m.len())),
    }
}

/// What the first `n` elements stand for.
pub open spec fn values_of(items: Seq<Doc>, n: nat) -> Seq<JsonView>
    decreases items, n,
{
    if n == 0 || n > items.len() {
        Seq::empty()
    } else {
        values_of(items, (n - 1) as nat).push(value_of(items[n - 1]))
    }
}

/// What the first `n` members stand for.
pub open spec fn members_of(m: Members, n: nat) -> Seq<(Seq<char>, JsonView)>
    decreases m, n,
{
    if n == 0 || n > m.len() {
        Seq::empty()
    } else {
        json::set_member(members_of(m, (n - 1) as nat), m[n - 1].0, value_of(m[n - 1].1))
    }
}

/// Whether a value has one text only: it is nested no deeper than `depth`, its numbers
/// are whole, and the keys of its objects ascend.
pub open spec fn value_is_exact(v: JsonView, depth: nat) -> bool
    decreases v,
{
    match v {
        JsonView::Number(NumberView::Decimal(_)) => false,
        JsonView::Number(NumberView::Negative(n)) => n < 0,
        JsonView::Array(items) => depth > 0 && forall|i: int|
            0 <= i < items.len() ==> value_is_exact(#[trigger] items[i], (depth - 1) as nat),
        JsonView::Object(m) => depth > 0 && json::keys_ascend(m) && forall|i: int|
            0 <= i < m.len() ==> value_is_exact((#[trigger] m[i]).1, (depth - 1) as nat),
        _ => true,
    }
}

/// Whether what is written can be read back: it is nested no deeper than `depth`, and its
/// numbers are whole and fit into 64 bits.
pub open spec fn is_exact(d: Doc, depth: nat) -> bool
    decreases d,
{
    match d {
        Doc::Value(v) => value_is_exact(v, depth),
        Doc::Text(_) => true,
        Doc::Whole(n) => i64::MIN <= n <= u64::MAX,
        Doc::Array(items) => depth > 0 && forall|i: int|
            0 <= i < items.len() ==> is_exact(#[trigger] items[i], (depth - 1) as nat),
        Doc::Object(m) => depth > 0 && forall|i: int|
            0 <= i < m.len() ==> is_exact((#[trigger] m[i]).1, (depth - 1) as nat),
    }
}

/// How deep a text may be nested that is read.
pub open spec fn readable_depth() -> nat {
    127
}

// --- Members -----------------------------------------------------------------------------------

/// The texts of members.
pub open spec fn fields(m: Members) -> json_text::Fields {
    fields_of(m, m.len())
}

/// What members stand for.
pub open spec fn members(m: Members) -> Seq<(Seq<char>, JsonView)> {
    members_of(m, m.len())
}

/// The members with one more.
pub open spec fn put(m: Members, key: Seq<char>, d: Doc) -> Members {
    m.push((key, d))
}

/// The members with one more, which is a string.
pub open spec fn put_text(m: Members, key: Seq<char>, t: Seq<char>) -> Members {
    put(m, key, Doc::Text(t))
}

/// The members with one more, where there is one.
pub open spec fn put_opt(m: Members, key: Seq<char>, d: Option<Doc>) -> Members {
    match d {
        Some(d) => put(m, key, d),
        None => m,
    }
}

/// The members with one more, which is a string, where there is one.
pub open spec fn put_opt_text(m: Members, key: Seq<char>, t: Option<Seq<char>>) -> Members {
    match t {
        Some(t) => put_text(m, key, t),
        None => m,
    }
}

/// The single member `type`.
pub open spec fn tagged(kind: Seq<char>) -> Members {
    put_text(Seq::empty(), "type"@, kind)
}

/// An array of strings.
pub open spec fn texts(items: Seq<Seq<char>>) -> Doc {
    Doc::Array(items.map_values(|t: Seq<char>| Doc::Text(t)))
}

/// An array of values.
pub open spec fn values(items: Seq<json::Json>) -> Doc {
    Doc::Array(items.map_values(|v: json::Json| Doc::Value(v@)))
}

proof fn lemma_before_last(m: Members, x: (Seq<char>, Doc), n: nat)
    requires
        n <= m.len(),
    ensures
        fields_of(m.push(x), n) == fields_of(m, n),
        members_of(m.push(x), n) == members_of(m, n),
    decreases n,
{
    if n > 0 {
        lemma_before_last(m, x, (n - 1) as nat);
        assert(m.push(x)[n - 1] == m[n - 1]);
    }
}

/// An object's text.
pub broadcast proof fn lemma_object_text(m: Members)
    ensures
        #[trigger] text_of(Doc::Object(m)) == json_text::object_text(fields(m)),
{
}

/// What an object stands for.
pub broadcast proof fn lemma_object_value(m: Members)
    ensures
        #[trigger] value_of(Doc::Object(m)) == JsonView::Object(members(m)),
{
}

/// No members have no texts and stand for none.
pub proof fn lemma_no_members()
    ensures
        fields(Seq::empty()) == Some(Seq::<Seq<char>>::empty()),
        members(Seq::empty()) == Seq::<(Seq<char>, JsonView)>::empty(),
{
}

/// The text of the single member `type`.
pub broadcast proof fn lemma_fields_tagged(kind: Seq<char>)
    ensures
        #[trigger] fields(tagged(kind)) == json_text::tagged(kind),
{
    lemma_fields_put(Seq::empty(), "type"@, Doc::Text(kind));
}

/// What the single member `type` stands for.
pub broadcast proof fn lemma_members_tagged(kind: Seq<char>)
    ensures
        #[trigger] members(tagged(kind)) == json::tagged(kind),
{
    lemma_members_put(Seq::empty(), "type"@, Doc::Text(kind));
}

/// The texts of members with one more.
pub broadcast proof fn lemma_fields_put(m: Members, key: Seq<char>, d: Doc)
    ensures
        #[trigger] fields(put(m, key, d)) == json_text::put(fields(m), key, text_of(d)),
{
    lemma_before_last(m, (key, d), m.len());
}

/// What members with one more stand for.
pub broadcast proof fn lemma_members_put(m: Members, key: Seq<char>, d: Doc)
    ensures
        #[trigger] members(put(m, key, d)) == json::set_member(members(m), key, value_of(d)),
{
    lemma_before_last(m, (key, d), m.len());
}

proof fn lemma_elements(items: Seq<Doc>, n: nat)
    requires
        n <= items.len(),
    ensures
        texts_of(items, n).len() == n,
        values_of(items, n).len() == n,
        forall|i: int| 0 <= i < n ==> #[trigger] texts_of(items, n)[i] == text_of(items[i]),
        forall|i: int| 0 <= i < n ==> #[trigger] values_of(items, n)[i] == value_of(items[i]),
    decreases n,
{
    if n > 0 {
        lemma_elements(items, (n - 1) as nat);
    }
}

/// The text of an array whose elements have these texts, and what it stands for where
/// they stand for these values.
pub proof fn lemma_array(docs: Seq<Doc>, shown: Seq<Option<Seq<char>>>, meant: Seq<JsonView>)
    requires
        docs.len() == shown.len() == meant.len(),
        forall|i: int| 0 <= i < docs.len() ==> text_of(#[trigger] docs[i]) == shown[i],
        forall|i: int| 0 <= i < docs.len() ==> value_of(#[trigger] docs[i]) == meant[i],
    ensures
        text_of(Doc::Array(docs)) == json_text::array_text(shown),
        value_of(Doc::Array(docs)) == JsonView::Array(meant),
{
    lemma_elements(docs, docs.len());
    assert(texts_of(docs, docs.len()) =~= shown);
    assert(values_of(docs, docs.len()) =~= meant);
}

pub broadcast group group_members {
    lemma_object_text,
    lemma_object_value,
    lemma_fields_tagged,
    lemma_members_tagged,
    lemma_fields_put,
    lemma_members_put,
}

/// The text of an array of strings, and what it stands for.
pub proof fn lemma_texts(items: Seq<Seq<char>>)
    ensures
        text_of(texts(items)) == Some(json_text::strings_text(items)),
        value_of(texts(items)) == json::text_array(items),
{
    let shown = items.map_values(|t: Seq<char>| Some(json_string::quoted(t)));
    lemma_array(
        items.map_values(|t: Seq<char>| Doc::Text(t)),
        shown,
        items.map_values(|t: Seq<char>| JsonView::Text(t)),
    );
    assert(shown.map_values(|t: Option<Seq<char>>| t->0) =~= items.map_values(
        |t: Seq<char>| json_string::quoted(t),
    ));
}

/// The text of an array of values, and what it stands for.
pub proof fn lemma_values(items: Seq<json::Json>)
    ensures
        text_of(values(items)) == json_text::array_text(json_text::value_texts(items)),
        value_of(values(items)) == JsonView::Array(json::items_view(items)),
{
    lemma_array(
        items.map_values(|v: json::Json| Doc::Value(v@)),
        json_text::value_texts(items),
        json::items_view(items),
    );
}

proof fn lemma_fields_are_there(m: Members, n: nat)
    ensures
        fields_of(m, n) is Some,
    decreases m, n,
{
    if 0 < n <= m.len() {
        lemma_fields_are_there(m, (n - 1) as nat);
        law_has_text(m[n - 1].1);
    }
}

proof fn lemma_texts_are_there(items: Seq<Doc>, n: nat)
    ensures
        forall|i: int|
            0 <= i < texts_of(items, n).len() ==> (#[trigger] texts_of(items, n)[i]) is Some,
    decreases items, n,
{
    if 0 < n <= items.len() {
        lemma_texts_are_there(items, (n - 1) as nat);
        law_has_text(items[n - 1]);
    }
}

/// Everything that is written has a text.
pub proof fn law_has_text(d: Doc)
    ensures
        text_of(d) is Some,
    decreases d, 0nat,
{
    match d {
        Doc::Array(items) => lemma_texts_are_there(items, items.len()),
        Doc::Object(m) => lemma_fields_are_there(m, m.len()),
        _ => {},
    }
}

} // verus!
