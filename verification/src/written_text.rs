//! Members in the text of an object.
use vstd::prelude::*;

use crate::json_string;
use crate::json_text;
use crate::text;
use crate::text_laws;

verus! {

/// Whether the text of an object has a member, by its key and the text of its value.
#[verifier::opaque]
pub open spec fn tells(t: Option<Seq<char>>, key: Seq<char>, value: Seq<char>) -> bool {
    t is Some && text::has_part(t->0, json_string::quoted(key) + ":"@ + value)
}

/// A member that is put is there, and those that were there stay.
pub broadcast proof fn lemma_put(
    fields: json_text::Fields,
    key: Seq<char>,
    value: Option<Seq<char>>,
    x: Seq<char>,
)
    requires
        fields is Some,
        value is Some,
    ensures
        #[trigger] json_text::put(fields, key, value)->0.contains(x) <==> fields->0.contains(x) || x
            == json_text::field(key, value->0),
{
    let before = fields->0;
    let added = json_text::field(key, value->0);
    let after = before.push(added);
    if before.contains(x) {
        let i = choose|i: int| 0 <= i < before.len() && before[i] == x;
        assert(after[i] == x);
    }
    assert(after[before.len() as int] == added);
    if after.contains(x) {
        let i = choose|i: int| 0 <= i < after.len() && after[i] == x;
        if i < before.len() {
            assert(before[i] == x);
        }
    }
}

/// The text of an object has each of its members.
pub proof fn lemma_object_tells(
    fields: json_text::Fields,
    key: Seq<char>,
    value: Seq<char>,
)
    requires
        fields is Some,
        fields->0.contains(json_text::field(key, value)),
    ensures
        tells(json_text::object_text(fields), key, value),
{
    reveal(tells);
    let parts = fields->0;
    let x = json_text::field(key, value);
    let k = choose|k: int| 0 <= k < parts.len() && parts[k] == x;
    text_laws::law_joined_texts_are_parts(parts, ","@, parts.len() as int, k);
    let inner = text::join(parts, ","@);
    let all = "{"@ + inner + "}"@;
    let i = choose|i: int| text::holds_at(inner, i, x);
    let j = i + "{"@.len();
    assert(all.subrange(j, j + x.len()) =~= inner.subrange(i, i + x.len()));
    assert(text::holds_at(all, j, x));
}

/// The text of an array has the text of each element, in order, with commas between them.
pub proof fn law_array_text_has_its_elements(items: Seq<Option<Seq<char>>>, k: int)
    requires
        0 <= k < items.len(),
        json_text::array_text(items) is Some,
    ensures
        items[k] is Some,
        text::has_part(json_text::array_text(items)->0, items[k]->0),
{
    let parts = items.map_values(|t: Option<Seq<char>>| t->0);
    text_laws::law_joined_texts_are_parts(parts, ","@, parts.len() as int, k);
    let inner = text::join(parts, ","@);
    let x = parts[k];
    let all = "["@ + inner + "]"@;
    let i = choose|i: int| text::holds_at(inner, i, x);
    let j = i + "["@.len();
    assert(all.subrange(j, j + x.len()) =~= inner.subrange(i, i + x.len()));
    assert(text::holds_at(all, j, x));
}

/// Where `b` has members, `a` has too, and each of them is among those of `b`.
#[verifier::opaque]
pub open spec fn within(a: json_text::Fields, b: json_text::Fields) -> bool {
    b is Some ==> a is Some && forall|x: Seq<char>|
        a->0.contains(x) ==> #[trigger] b->0.contains(x)
}

/// The members with one more, where `there` says so.
pub open spec fn put_where(
    fields: json_text::Fields,
    key: Seq<char>,
    there: bool,
    value: Option<Seq<char>>,
) -> json_text::Fields {
    if there {
        json_text::put(fields, key, value)
    } else {
        fields
    }
}

/// Where the members after a put are among others, the one that was put is, and so are those
/// before it.
pub proof fn lemma_put_within(
    a: json_text::Fields,
    key: Seq<char>,
    value: Option<Seq<char>>,
    b: json_text::Fields,
)
    requires
        within(json_text::put(a, key, value), b),
        b is Some,
    ensures
        within(a, b),
        value is Some,
        b->0.contains(json_text::field(key, value->0)),
{
    broadcast use lemma_put;

    reveal(within);
    assert(json_text::put(a, key, value)->0.contains(json_text::field(key, value->0)));
    assert forall|x: Seq<char>| a->0.contains(x) implies #[trigger] b->0.contains(x) by {
        assert(json_text::put(a, key, value)->0.contains(x));
    }
}

/// Where the members after a put are among others, the text of those tells the one that was
/// put, where it was.
pub proof fn lemma_put_where_tells(
    a: json_text::Fields,
    key: Seq<char>,
    there: bool,
    value: Option<Seq<char>>,
    b: json_text::Fields,
)
    requires
        within(put_where(a, key, there, value), b),
        b is Some,
    ensures
        within(a, b),
        there ==> value is Some && tells(json_text::object_text(b), key, value->0),
{
    if there {
        lemma_put_within(a, key, value, b);
        lemma_object_tells(b, key, value->0);
    }
}

} // verus!
