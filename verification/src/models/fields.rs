//! The fields of a value that is read: by name out of an object, or by position out of an
//! array.
use vstd::prelude::*;

use crate::json;
use crate::json::Json;
use crate::json::JsonMap;
use crate::json::JsonNumber;
use crate::json::JsonView;
use crate::json::NumberView;
use crate::text;

verus! {

/// The fields that elements are, by position: at least the first `needed` must be there,
/// and no more than have a name.
pub open spec fn by_position(
    items: Seq<JsonView>,
    names: Seq<Seq<char>>,
    needed: nat,
) -> Option<Seq<(Seq<char>, JsonView)>> {
    if needed <= items.len() <= names.len() {
        Some(Seq::new(items.len(), |i: int| (names[i], items[i])))
    } else {
        None
    }
}

/// The fields of a value: the members of an object, or the elements of an array by their
/// position.
pub open spec fn fields_of(v: JsonView, names: Seq<Seq<char>>, needed: nat) -> Option<
    Seq<(Seq<char>, JsonView)>,
> {
    match v {
        JsonView::Object(m) => Some(m),
        JsonView::Array(items) => by_position(items, names, needed),
        _ => None,
    }
}

/// What a value names its type by: the member `type`, or the first element.
pub open spec fn tag_value(v: JsonView) -> Option<JsonView> {
    match v {
        JsonView::Object(m) => json::member(m, "type"@),
        JsonView::Array(items) => if items.len() > 0 {
            Some(items[0])
        } else {
            None
        },
        _ => None,
    }
}

/// The type that a value names: by its name, or by its place among the `numbered` ones. A
/// part of something that itself names a type may use either; anything else has no
/// numbered types.
pub open spec fn tag_of(v: JsonView, numbered: Seq<Seq<char>>) -> Option<Seq<char>> {
    match tag_value(v) {
        Some(JsonView::Text(t)) => Some(t),
        Some(JsonView::Number(NumberView::Unsigned(n))) => if n < numbered.len() {
            Some(numbered[n as int])
        } else {
            None
        },
        _ => None,
    }
}

/// The fields of a value that names its type: the members of an object, or the elements
/// after the first by their position.
pub open spec fn tagged_fields_of(v: JsonView, names: Seq<Seq<char>>, needed: nat) -> Option<
    Seq<(Seq<char>, JsonView)>,
> {
    match v {
        JsonView::Object(m) => Some(m),
        JsonView::Array(items) => if items.len() > 0 {
            by_position(items.skip(1), names, needed)
        } else {
            None
        },
        _ => None,
    }
}

/// Names of fields, in order.
pub struct Names {
    list: Vec<String>,
}

impl View for Names {
    type V = Seq<Seq<char>>;

    closed spec fn view(&self) -> Seq<Seq<char>> {
        text::strings_view(self.list@)
    }
}

impl Names {
    /// No names.
    pub fn new() -> (r: Self)
        ensures
            r@ == Seq::<Seq<char>>::empty(),
    {
        let r = Names { list: Vec::new() };
        assert(r@ =~= Seq::<Seq<char>>::empty());
        r
    }

    /// The names with one more.
    pub fn and(self, name: &str) -> (r: Self)
        ensures
            r@ == self@.push(name@),
    {
        let mut list = self.list;
        list.push(name.to_owned());
        let r = Names { list };
        assert(r@ =~= self@.push(name@));
        r
    }
}

/// Fields that were found.
pub enum Fields<'a> {
    /// The members of an object.
    Named(&'a JsonMap),
    /// The elements of an array.
    Placed(JsonMap),
}

impl<'a> Fields<'a> {
    /// The fields, by name.
    pub open spec fn members(self) -> Seq<(Seq<char>, JsonView)> {
        match self {
            Fields::Named(m) => m@,
            Fields::Placed(m) => m@,
        }
    }

    /// The fields, by name.
    pub fn map(&self) -> (r: &JsonMap)
        ensures
            r@ == self.members(),
    {
        match self {
            Fields::Named(m) => m,
            Fields::Placed(m) => m,
        }
    }
}

/// The members of fields that were found.
pub open spec fn found(r: Option<Fields>) -> Option<Seq<(Seq<char>, JsonView)>> {
    match r {
        Some(f) => Some(f.members()),
        None => None,
    }
}

fn placed<'a>(items: &Vec<Json>, from: usize, names: &Names, needed: usize) -> (r: Option<
    Fields<'a>,
>)
    requires
        from <= items@.len(),
    ensures
        found(r) == by_position(
            json::items_view(items@).skip(from as int),
            names@,
            needed as nat,
        ),
{
    let total: usize = items.len();
    let n: usize = total - from;
    if n < needed || n > names.list.len() {
        return None;
    }
    let mut entries: Vec<(String, Json)> = Vec::new();
    let mut i: usize = 0;
    while i < n
        invariant
            from + n == total,
            total == items@.len(),
            n <= names.list@.len(),
            i <= n,
            entries@.len() == i,
            forall|k: int|
                0 <= k < i ==> (#[trigger] entries@[k]).0@ == names.list@[k]@ && entries@[k].1@
                    == items@[from + k]@,
        decreases n - i,
    {
        entries.push((names.list[i].clone(), items[from + i].copy()));
        i += 1;
    }
    let m = JsonMap { entries };
    assert(m@ =~= by_position(
        json::items_view(items@).skip(from as int),
        names@,
        needed as nat,
    )->0);
    Some(Fields::Placed(m))
}

/// The fields of a value.
pub fn fields_in<'a>(value: &'a Json, names: &Names, needed: usize) -> (r: Option<Fields<'a>>)
    ensures
        found(r) == fields_of(value@, names@, needed as nat),
{
    match value {
        Json::Object(m) => {
            proof {
                json::lemma_object_view(*m);
            }
            Some(Fields::Named(m))
        },
        Json::Array(items) => {
            proof {
                json::lemma_array_view(*items);
                assert(json::items_view(items@).skip(0) =~= json::items_view(items@));
            }
            placed(items, 0, names, needed)
        },
        _ => None,
    }
}

/// What a value names its type by.
fn tag_value_in(value: &Json) -> (r: Option<&Json>)
    ensures
        match r {
            Some(v) => tag_value(value@) == Some(v@),
            None => tag_value(value@) is None,
        },
{
    match value {
        Json::Object(m) => {
            proof {
                json::lemma_object_view(*m);
            }
            m.get("type")
        },
        Json::Array(items) => {
            proof {
                json::lemma_array_view(*items);
            }
            if items.len() > 0 {
                Some(&items[0])
            } else {
                None
            }
        },
        _ => None,
    }
}

/// The type that a value names.
pub fn tag_in<'a>(value: &'a Json, numbered: &'a Names) -> (r: Option<&'a str>)
    ensures
        text::opt_str_view(r) == tag_of(value@, numbered@),
{
    match tag_value_in(value) {
        Some(Json::Text(t)) => Some(t.as_str()),
        Some(Json::Number(JsonNumber::Unsigned(n))) => if *n < numbered.list.len() as u64 {
            Some(numbered.list[*n as usize].as_str())
        } else {
            None
        },
        _ => None,
    }
}

/// The fields of a value that names its type.
pub fn tagged_fields_in<'a>(value: &'a Json, names: &Names, needed: usize) -> (r: Option<
    Fields<'a>,
>)
    ensures
        found(r) == tagged_fields_of(value@, names@, needed as nat),
{
    match value {
        Json::Object(m) => {
            proof {
                json::lemma_object_view(*m);
            }
            Some(Fields::Named(m))
        },
        Json::Array(items) => {
            proof {
                json::lemma_array_view(*items);
            }
            if items.len() > 0 {
                placed(items, 1, names, needed)
            } else {
                None
            }
        },
        _ => None,
    }
}

} // verus!
