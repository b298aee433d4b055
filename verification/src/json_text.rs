//! JSON text whose members stand in the order in which they were put there.
use vstd::prelude::*;

use crate::json;
use crate::json::Json;
use crate::json_string;
use crate::json_string::encode_json_string;
use crate::text;

verus! {

/// The members of an object as text, in order; `None` where one of them has no text.
pub struct ObjectText {
    fields: Option<Vec<String>>,
}

/// The texts of members, where all of them have one.
pub type Fields = Option<Seq<Seq<char>>>;

impl View for ObjectText {
    type V = Option<Seq<Seq<char>>>;

    closed spec fn view(&self) -> Option<Seq<Seq<char>>> {
        text::opt_strings_view(self.fields)
    }
}

/// The text of one member.
pub open spec fn field(key: Seq<char>, value: Seq<char>) -> Seq<char> {
    json_string::quoted(key) + ":"@ + value
}

/// The members with one more, which has the text `value`.
pub open spec fn put(fields: Fields, key: Seq<char>, value: Option<Seq<char>>) -> Fields {
    if fields is Some && value is Some {
        Some(fields->0.push(field(key, value->0)))
    } else {
        None
    }
}

/// The members with one more, which is a string.
pub open spec fn put_text(fields: Fields, key: Seq<char>, t: Seq<char>) -> Fields {
    put(fields, key, Some(json_string::quoted(t)))
}

/// The members with one more, which is a string, where there is one.
pub open spec fn put_opt_text(fields: Fields, key: Seq<char>, t: Option<Seq<char>>) -> Fields {
    match t {
        Some(t) => put_text(fields, key, t),
        None => fields,
    }
}

/// The object with the single member `type`.
pub open spec fn tagged(kind: Seq<char>) -> Fields {
    put_text(Some(Seq::empty()), "type"@, kind)
}

/// The text of the object with these members.
pub open spec fn object_text(fields: Fields) -> Option<Seq<char>> {
    match fields {
        Some(fields) => Some("{"@ + text::join(fields, ","@) + "}"@),
        None => None,
    }
}

/// The text of the array with these elements, where all of them have one.
pub open spec fn array_text(items: Seq<Option<Seq<char>>>) -> Option<Seq<char>> {
    if forall|i: int| 0 <= i < items.len() ==> (#[trigger] items[i]) is Some {
        Some(
            "["@ + text::join(items.map_values(|t: Option<Seq<char>>| t->0), ","@) + "]"@,
        )
    } else {
        None
    }
}

impl ObjectText {
    /// No members.
    pub fn new() -> (r: Self)
        ensures
            r@ == Some(Seq::<Seq<char>>::empty()),
    {
        let r = ObjectText { fields: Some(Vec::new()) };
        assert(r@->0 =~= Seq::<Seq<char>>::empty());
        r
    }

    /// The single member `type`.
    pub fn of_type(kind: &str) -> (r: Self)
        ensures
            r@ == tagged(kind@),
    {
        let mut r = ObjectText::new();
        r.put_text("type", kind);
        r
    }

    /// Adds a member that has the text `value`.
    pub fn put(&mut self, key: &str, value: Option<String>)
        ensures
            final(self)@ == put(old(self)@, key@, text::opt_view(value)),
    {
        match value {
            Some(value) => {
                if let Some(fields) = &mut self.fields {
                    let mut t = encode_json_string(key);
                    t.append(":");
                    t.append(value.as_str());
                    let ghost before = fields@;
                    fields.push(t);
                    assert(text::strings_view(fields@) =~= text::strings_view(before).push(t@));
                }
            },
            None => {
                self.fields = None;
            },
        }
    }

    /// Adds a string.
    pub fn put_text(&mut self, key: &str, t: &str)
        ensures
            final(self)@ == put_text(old(self)@, key@, t@),
    {
        self.put(key, Some(encode_json_string(t)));
    }

    /// Adds a string, where there is one.
    pub fn put_opt_text(&mut self, key: &str, t: &Option<String>)
        ensures
            final(self)@ == put_opt_text(old(self)@, key@, text::opt_view(*t)),
    {
        if let Some(t) = t {
            self.put_text(key, t.as_str());
        }
    }

    /// The text of the object.
    pub fn into_text(self) -> (r: Option<String>)
        ensures
            text::opt_view(r) == object_text(self@),
    {
        match self.fields {
            Some(fields) => {
                let mut out = "{".to_owned();
                out.append(text::join_strings(&fields, ",").as_str());
                out.append("}");
                Some(out)
            },
            None => None,
        }
    }
}

/// The texts of values, in order.
pub open spec fn value_texts(items: Seq<Json>) -> Seq<Option<Seq<char>>> {
    items.map_values(|v: Json| json::rendered_json(v@))
}

/// The text of the array with these elements, where all of them have one.
pub fn array_of(items: Vec<Option<String>>) -> (r: Option<String>)
    ensures
        text::opt_view(r) == array_text(items@.map_values(|t: Option<String>| text::opt_view(t))),
{
    let ghost views = items@.map_values(|t: Option<String>| text::opt_view(t));
    let mut parts: Vec<String> = Vec::new();
    let mut i: usize = 0;
    while i < items.len()
        invariant
            i <= items@.len(),
            views == items@.map_values(|t: Option<String>| text::opt_view(t)),
            parts@.len() == i,
            forall|k: int| 0 <= k < i ==> views[k] == Some((#[trigger] parts@[k])@),
        decreases items@.len() - i,
    {
        match &items[i] {
            Some(t) => parts.push(t.clone()),
            None => {
                assert(views[i as int] is None);
                return None;
            },
        }
        i += 1;
    }
    assert forall|k: int| 0 <= k < views.len() implies (#[trigger] views[k]) is Some by {
        assert(views[k] == Some(parts@[k]@));
    }
    assert(text::strings_view(parts@) =~= views.map_values(|t: Option<Seq<char>>| t->0));
    let mut out = "[".to_owned();
    out.append(text::join_strings(&parts, ",").as_str());
    out.append("]");
    Some(out)
}

/// The text of an array of values.
pub fn values_text(items: &Vec<Json>) -> (r: Option<String>)
    ensures
        text::opt_view(r) == array_text(value_texts(items@)),
{
    let mut texts: Vec<Option<String>> = Vec::new();
    let mut i: usize = 0;
    while i < items.len()
        invariant
            i <= items@.len(),
            texts@.len() == i,
            forall|k: int|
                0 <= k < i ==> text::opt_view(#[trigger] texts@[k]) == json::rendered_json(
                    items@[k]@,
                ),
        decreases items@.len() - i,
    {
        texts.push(items[i].render());
        i += 1;
    }
    assert(texts@.map_values(|t: Option<String>| text::opt_view(t)) =~= value_texts(items@));
    array_of(texts)
}

/// The text of an array of strings.
pub open spec fn strings_text(items: Seq<Seq<char>>) -> Seq<char> {
    "["@ + text::join(items.map_values(|t: Seq<char>| json_string::quoted(t)), ","@) + "]"@
}

/// The text of an array of strings.
pub fn strings_of(items: &Vec<String>) -> (r: String)
    ensures
        r@ == strings_text(text::strings_view(items@)),
{
    let mut parts: Vec<String> = Vec::new();
    let mut i: usize = 0;
    while i < items.len()
        invariant
            i <= items@.len(),
            parts@.len() == i,
            forall|k: int|
                0 <= k < i ==> (#[trigger] parts@[k])@ == json_string::quoted(items@[k]@),
        decreases items@.len() - i,
    {
        parts.push(encode_json_string(items[i].as_str()));
        i += 1;
    }
    assert(text::strings_view(parts@) =~= text::strings_view(items@).map_values(
        |t: Seq<char>| json_string::quoted(t),
    ));
    let mut out = "[".to_owned();
    out.append(text::join_strings(&parts, ",").as_str());
    out.append("]");
    out
}

/// The text of a value, `null` where there is none.
pub open spec fn value_or_null(v: Option<Json>) -> Option<Seq<char>> {
    match v {
        Some(v) => json::rendered_json(v@),
        None => Some("null"@),
    }
}

/// The text of a value, `null` where there is none.
pub fn value_text_or_null(v: &Option<Json>) -> (r: Option<String>)
    ensures
        text::opt_view(r) == value_or_null(*v),
{
    match v {
        Some(v) => v.render(),
        None => Some("null".to_owned()),
    }
}

/// The text of a flag.
pub open spec fn flag_text(b: bool) -> Seq<char> {
    if b {
        "true"@
    } else {
        "false"@
    }
}

/// The text of a flag.
pub fn flag_of(b: bool) -> (r: String)
    ensures
        r@ == flag_text(b),
{
    if b {
        "true".to_owned()
    } else {
        "false".to_owned()
    }
}

/// The text of a string, `null` where there is none.
pub open spec fn text_or_null(t: Option<Seq<char>>) -> Seq<char> {
    match t {
        Some(t) => json_string::quoted(t),
        None => "null"@,
    }
}

/// The text of a string, `null` where there is none.
pub fn text_or_null_of(t: &Option<String>) -> (r: String)
    ensures
        r@ == text_or_null(text::opt_view(*t)),
{
    match t {
        Some(t) => encode_json_string(t.as_str()),
        None => "null".to_owned(),
    }
}

} // verus!
