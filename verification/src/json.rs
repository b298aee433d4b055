//! JSON values as the gateway reads and writes them.
use serde_json::Value;
use vstd::prelude::*;

use crate::json_doc;
use crate::json_doc::Doc;
use crate::json_string;
use crate::json_text;
use crate::text;

verus! {

/// A JSON number, as its text is stored.
#[derive(Debug, PartialEq)]
pub enum JsonNumber {
    /// A whole number that is not negative.
    Unsigned(u64),
    /// A negative whole number.
    Negative(i64),
    /// Any other number, by its shortest decimal text.
    Decimal(String),
}

/// A JSON value.
#[derive(Debug, PartialEq)]
pub enum Json {
    /// `null`.
    Null,
    /// `true` or `false`.
    Bool(bool),
    /// A number.
    Number(JsonNumber),
    /// A string.
    Text(String),
    /// An array.
    Array(Vec<Json>),
    /// An object.
    Object(JsonMap),
}

/// The members of an object. Setting and removing members keep ascending keys ascending.
#[derive(Debug, PartialEq)]
pub struct JsonMap {
    /// Keys and values.
    pub entries: Vec<(String, Json)>,
}

/// The contents of a [`JsonNumber`].
pub enum NumberView {
    /// A whole number that is not negative.
    Unsigned(u64),
    /// A negative whole number.
    Negative(i64),
    /// Any other number, by its text.
    Decimal(Seq<char>),
}

/// The members of an object.
pub type Members = Seq<(Seq<char>, JsonView)>;

/// The contents of a [`Json`].
pub enum JsonView {
    /// `null`.
    Null,
    /// `true` or `false`.
    Bool(bool),
    /// A number.
    Number(NumberView),
    /// A string.
    Text(Seq<char>),
    /// An array.
    Array(Seq<JsonView>),
    /// An object.
    Object(Seq<(Seq<char>, JsonView)>),
}

impl View for JsonNumber {
    type V = NumberView;

    open spec fn view(&self) -> NumberView {
        match self {
            JsonNumber::Unsigned(n) => NumberView::Unsigned(*n),
            JsonNumber::Negative(n) => NumberView::Negative(*n),
            JsonNumber::Decimal(t) => NumberView::Decimal(t@),
        }
    }
}

impl Json {
    /// The contents.
    pub open spec fn view(&self) -> JsonView
        decreases self,
    {
        match self {
            Json::Null => JsonView::Null,
            Json::Bool(b) => JsonView::Bool(*b),
            Json::Number(n) => JsonView::Number(n@),
            Json::Text(t) => JsonView::Text(t@),
            Json::Array(items) => JsonView::Array(
                Seq::new(
                    items@.len(),
                    |i: int|
                        if 0 <= i < items@.len() {
                            items@[i].view()
                        } else {
                            JsonView::Null
                        },
                ),
            ),
            Json::Object(map) => JsonView::Object(
                Seq::new(
                    map.entries@.len(),
                    |i: int|
                        if 0 <= i < map.entries@.len() {
                            (map.entries@[i].0@, map.entries@[i].1.view())
                        } else {
                            (seq![], JsonView::Null)
                        },
                ),
            ),
        }
    }
}


/// The contents of the elements of an array.
pub open spec fn items_view(items: Seq<Json>) -> Seq<JsonView> {
    Seq::new(items.len(), |i: int| items[i]@)
}

impl View for JsonMap {
    type V = Seq<(Seq<char>, JsonView)>;

    open spec fn view(&self) -> Seq<(Seq<char>, JsonView)> {
        Seq::new(self.entries@.len(), |i: int| (self.entries@[i].0@, self.entries@[i].1@))
    }
}

/// The view of an array, by its elements.
pub proof fn lemma_array_view(items: Vec<Json>)
    ensures
        Json::Array(items)@ == JsonView::Array(items_view(items@)),
{
    assert(Json::Array(items)@->Array_0 =~= items_view(items@));
}

/// The view of an object, by its members.
pub proof fn lemma_object_view(map: JsonMap)
    ensures
        Json::Object(map)@ == JsonView::Object(map@),
{
    assert(Json::Object(map)@->Object_0 =~= map@);
}

/// The index of the first member from `i` with the key `key`, or the number of
/// members.
pub open spec fn key_index(m: Seq<(Seq<char>, JsonView)>, key: Seq<char>, i: int) -> int
    decreases m.len() - i,
{
    if !(0 <= i < m.len()) {
        m.len() as int
    } else if m[i].0 == key {
        i
    } else {
        key_index(m, key, i + 1)
    }
}

/// The value of the member with the key `key`.
pub open spec fn member(m: Seq<(Seq<char>, JsonView)>, key: Seq<char>) -> Option<JsonView> {
    let i = key_index(m, key, 0);
    if i < m.len() {
        Some(m[i].1)
    } else {
        None
    }
}

/// Whether a member has the key `key`.
pub open spec fn has_member(m: Seq<(Seq<char>, JsonView)>, key: Seq<char>) -> bool {
    member(m, key) is Some
}

/// The text of a value that is a string.
pub open spec fn as_text(v: JsonView) -> Option<Seq<char>> {
    match v {
        JsonView::Text(t) => Some(t),
        _ => None,
    }
}

/// The text of the member with the key `key`, where it is a string.
pub open spec fn text_member(m: Seq<(Seq<char>, JsonView)>, key: Seq<char>) -> Option<Seq<char>> {
    match member(m, key) {
        Some(v) => as_text(v),
        None => None,
    }
}

/// `m[i..]` with the member `key` set to `value`: in its place where the key is
/// there, else before the first greater key.
pub open spec fn with_member(
    m: Seq<(Seq<char>, JsonView)>,
    key: Seq<char>,
    value: JsonView,
    i: int,
) -> Seq<(Seq<char>, JsonView)>
    decreases m.len() - i,
{
    if !(0 <= i < m.len()) {
        m.push((key, value))
    } else if m[i].0 == key {
        m.update(i, (key, value))
    } else if text::before(key, m[i].0) {
        m.insert(i, (key, value))
    } else {
        with_member(m, key, value, i + 1)
    }
}

/// `m` with the member `key` set to `value`.
pub open spec fn set_member(
    m: Seq<(Seq<char>, JsonView)>,
    key: Seq<char>,
    value: JsonView,
) -> Seq<(Seq<char>, JsonView)> {
    with_member(m, key, value, 0)
}

/// `m` without its member `key`.
pub open spec fn without_member(
    m: Seq<(Seq<char>, JsonView)>,
    key: Seq<char>,
) -> Seq<(Seq<char>, JsonView)> {
    let i = key_index(m, key, 0);
    if i < m.len() {
        m.remove(i)
    } else {
        m
    }
}

pub proof fn lemma_key_index(m: Seq<(Seq<char>, JsonView)>, key: Seq<char>, i: int)
    requires
        0 <= i <= m.len(),
    ensures
        i <= key_index(m, key, i) <= m.len(),
        key_index(m, key, i) < m.len() ==> m[key_index(m, key, i)].0 == key,
        forall|k: int| i <= k < key_index(m, key, i) ==> (#[trigger] m[k]).0 != key,
    decreases m.len() - i,
{
    if i < m.len() && m[i].0 != key {
        lemma_key_index(m, key, i + 1);
    }
}

/// The member `key` of a value that is an object.
pub open spec fn field(v: JsonView, key: Seq<char>) -> Option<JsonView> {
    match v {
        JsonView::Object(m) => member(m, key),
        _ => None,
    }
}

/// The member `key` of a value that is an object, where it is a string.
pub open spec fn text_field(v: JsonView, key: Seq<char>) -> Option<Seq<char>> {
    match field(v, key) {
        Some(f) => as_text(f),
        None => None,
    }
}

impl Json {
    /// The member `key`, where the value is an object.
    pub fn field(&self, key: &str) -> (r: Option<&Json>)
        ensures
            match r {
                Some(v) => field(self@, key@) == Some(v@),
                None => field(self@, key@) is None,
            },
    {
        match self.as_object() {
            Some(object) => object.get(key),
            None => None,
        }
    }

    /// The member `key`, where the value is an object and the member a string.
    pub fn text_field(&self, key: &str) -> (r: Option<&str>)
        ensures
            text::opt_str_view(r) == text_field(self@, key@),
    {
        match self.field(key) {
            Some(v) => v.as_str(),
            None => None,
        }
    }
}

impl JsonMap {
    /// No members.
    pub fn new() -> (r: Self)
        ensures
            r@ == Seq::<(Seq<char>, JsonView)>::empty(),
    {
        let r = JsonMap { entries: Vec::new() };
        assert(r@ =~= Seq::<(Seq<char>, JsonView)>::empty());
        r
    }

    pub(crate) fn index_of(&self, key: &str) -> (r: usize)
        ensures
            r == key_index(self@, key@, 0),
            r <= self.entries@.len(),
    {
        let mut i: usize = 0;
        while i < self.entries.len()
            invariant
                i <= self.entries@.len(),
                key_index(self@, key@, 0) == key_index(self@, key@, i as int),
            decreases self.entries@.len() - i,
        {
            if text::str_eq(self.entries[i].0.as_str(), key) {
                return i;
            }
            i += 1;
        }
        i
    }

    /// The value of the member `key`.
    pub fn get(&self, key: &str) -> (r: Option<&Json>)
        ensures
            match r {
                Some(v) => member(self@, key@) == Some(v@),
                None => member(self@, key@) is None,
            },
    {
        let i = self.index_of(key);
        if i < self.entries.len() {
            Some(&self.entries[i].1)
        } else {
            None
        }
    }

    /// Whether there is a member `key`.
    pub fn contains_key(&self, key: &str) -> (r: bool)
        ensures
            r == has_member(self@, key@),
    {
        self.get(key).is_some()
    }

    /// The text of the member `key`, where it is a string.
    pub fn get_text(&self, key: &str) -> (r: Option<&str>)
        ensures
            text::opt_str_view(r) == text_member(self@, key@),
    {
        match self.get(key) {
            Some(v) => v.as_str(),
            None => None,
        }
    }

    /// Sets the member `key`.
    pub fn insert(&mut self, key: String, value: Json)
        ensures
            final(self)@ == set_member(old(self)@, key@, value@),
    {
        let mut i: usize = 0;
        while i < self.entries.len()
            invariant
                i <= self.entries@.len(),
                *self == *old(self),
                set_member(old(self)@, key@, value@) == with_member(
                    old(self)@,
                    key@,
                    value@,
                    i as int,
                ),
            decreases self.entries@.len() - i,
        {
            if text::str_eq(self.entries[i].0.as_str(), key.as_str()) {
                self.entries.set(i, (key, value));
                assert(self@ =~= old(self)@.update(i as int, (key@, value@)));
                return ;
            }
            if text::is_before(key.as_str(), self.entries[i].0.as_str()) {
                self.entries.insert(i, (key, value));
                assert(self@ =~= old(self)@.insert(i as int, (key@, value@)));
                return ;
            }
            i += 1;
        }
        self.entries.push((key, value));
        assert(self@ =~= old(self)@.push((key@, value@)));
    }

    /// Removes the member `key`, and hands out its value.
    pub fn remove(&mut self, key: &str) -> (r: Option<Json>)
        ensures
            final(self)@ == without_member(old(self)@, key@),
            match r {
                Some(v) => member(old(self)@, key@) == Some(v@),
                None => member(old(self)@, key@) is None,
            },
    {
        let i = self.index_of(key);
        if i < self.entries.len() {
            let (k, v) = self.entries.remove(i);
            assert(self@ =~= old(self)@.remove(i as int));
            Some(v)
        } else {
            None
        }
    }

    /// A copy.
    pub fn copy(&self) -> (r: Self)
        ensures
            r@ == self@,
        decreases self,
    {
        let mut entries: Vec<(String, Json)> = Vec::new();
        let mut i: usize = 0;
        while i < self.entries.len()
            invariant
                i <= self.entries@.len(),
                entries@.len() == i,
                forall|k: int|
                    0 <= k < i ==> (#[trigger] entries@[k]).0@ == self.entries@[k].0@
                        && entries@[k].1@ == self.entries@[k].1@,
            decreases self.entries@.len() - i,
        {
            entries.push((self.entries[i].0.clone(), self.entries[i].1.copy()));
            i += 1;
        }
        let r = JsonMap { entries };
        assert(r@ =~= self@);
        r
    }
}

impl Json {
    /// A string.
    pub fn text(t: &str) -> (r: Self)
        ensures
            r@ == JsonView::Text(t@),
    {
        Json::Text(t.to_owned())
    }

    /// A whole number that is not negative.
    pub fn unsigned(n: u64) -> (r: Self)
        ensures
            r@ == JsonView::Number(NumberView::Unsigned(n)),
    {
        Json::Number(JsonNumber::Unsigned(n))
    }

    /// The text of a string.
    pub fn as_str(&self) -> (r: Option<&str>)
        ensures
            text::opt_str_view(r) == as_text(self@),
    {
        match self {
            Json::Text(t) => Some(t.as_str()),
            _ => None,
        }
    }

    /// The members of an object.
    pub fn as_object(&self) -> (r: Option<&JsonMap>)
        ensures
            match r {
                Some(m) => self@ == JsonView::Object(m@),
                None => !(self@ is Object),
            },
    {
        match self {
            Json::Object(m) => {
                proof {
                    lemma_object_view(*m);
                }
                Some(m)
            },
            _ => None,
        }
    }

    /// The elements of an array.
    pub fn as_array(&self) -> (r: Option<&Vec<Json>>)
        ensures
            match r {
                Some(items) => self@ == JsonView::Array(items_view(items@)),
                None => !(self@ is Array),
            },
    {
        match self {
            Json::Array(items) => {
                proof {
                    lemma_array_view(*items);
                }
                Some(items)
            },
            _ => None,
        }
    }

    /// Whether it is `null`.
    pub fn is_null(&self) -> (r: bool)
        ensures
            r == (self@ is Null),
    {
        matches!(self, Json::Null)
    }

    /// A copy.
    pub fn copy(&self) -> (r: Self)
        ensures
            r@ == self@,
        decreases self,
    {
        match self {
            Json::Null => Json::Null,
            Json::Bool(b) => Json::Bool(*b),
            Json::Number(n) => Json::Number(n.copy()),
            Json::Text(t) => Json::Text(t.clone()),
            Json::Array(items) => {
                let out = copy_items(items);
                proof {
                    lemma_array_view(*items);
                    lemma_array_view(out);
                }
                Json::Array(out)
            },
            Json::Object(map) => {
                let out = map.copy();
                proof {
                    lemma_object_view(*map);
                    lemma_object_view(out);
                }
                Json::Object(out)
            },
        }
    }
}

impl JsonNumber {
    /// A copy.
    pub fn copy(&self) -> (r: Self)
        ensures
            r@ == self@,
    {
        match self {
            JsonNumber::Unsigned(n) => JsonNumber::Unsigned(*n),
            JsonNumber::Negative(n) => JsonNumber::Negative(*n),
            JsonNumber::Decimal(t) => JsonNumber::Decimal(t.clone()),
        }
    }
}

impl Clone for JsonNumber {
    fn clone(&self) -> (r: Self)
        ensures
            r@ == self@,
    {
        self.copy()
    }
}

impl Clone for JsonMap {
    fn clone(&self) -> (r: Self)
        ensures
            r@ == self@,
    {
        self.copy()
    }
}

impl Clone for Json {
    fn clone(&self) -> (r: Self)
        ensures
            r@ == self@,
    {
        self.copy()
    }
}

/// A copy of the elements of an array.
pub fn copy_items(items: &Vec<Json>) -> (r: Vec<Json>)
    ensures
        items_view(r@) == items_view(items@),
    decreases items,
{
    let mut out: Vec<Json> = Vec::new();
    let mut i: usize = 0;
    while i < items.len()
        invariant
            i <= items@.len(),
            out@.len() == i,
            forall|k: int| 0 <= k < i ==> (#[trigger] out@[k])@ == items@[k]@,
        decreases items@.len() - i,
    {
        out.push(items[i].copy());
        i += 1;
    }
    assert(items_view(out@) =~= items_view(items@));
    out
}

/// A copy of an optional value.
pub fn copy_opt(v: &Option<Json>) -> (r: Option<Json>)
    ensures
        opt_json_view(r) == opt_json_view(*v),
{
    match v {
        Some(j) => Some(j.copy()),
        None => None,
    }
}

/// The contents of an optional value.
pub open spec fn opt_json_view(v: Option<Json>) -> Option<JsonView> {
    match v {
        Some(j) => Some(j@),
        None => None,
    }
}


// --- Building objects ---------------------------------------------------------------

/// `m` with the text member `key`.
pub open spec fn put_text(
    m: Seq<(Seq<char>, JsonView)>,
    key: Seq<char>,
    t: Seq<char>,
) -> Seq<(Seq<char>, JsonView)> {
    set_member(m, key, JsonView::Text(t))
}

/// `m` with the member `key`, where there is a value.
pub open spec fn put_opt(
    m: Seq<(Seq<char>, JsonView)>,
    key: Seq<char>,
    v: Option<JsonView>,
) -> Seq<(Seq<char>, JsonView)> {
    match v {
        Some(v) => set_member(m, key, v),
        None => m,
    }
}

/// `m` with the text member `key`, where there is a text.
pub open spec fn put_opt_text(
    m: Seq<(Seq<char>, JsonView)>,
    key: Seq<char>,
    t: Option<Seq<char>>,
) -> Seq<(Seq<char>, JsonView)> {
    match t {
        Some(t) => put_text(m, key, t),
        None => m,
    }
}

/// `m` with the member `key`, which is `null` where there is no text.
pub open spec fn put_text_or_null(
    m: Seq<(Seq<char>, JsonView)>,
    key: Seq<char>,
    t: Option<Seq<char>>,
) -> Seq<(Seq<char>, JsonView)> {
    set_member(m, key, text_or_null(t))
}

/// `m` with the text member `key`, unless the text is empty.
pub open spec fn put_text_unless_empty(
    m: Seq<(Seq<char>, JsonView)>,
    key: Seq<char>,
    t: Seq<char>,
) -> Seq<(Seq<char>, JsonView)> {
    if t.len() == 0 {
        m
    } else {
        put_text(m, key, t)
    }
}

/// A value, or `null` where there is none.
pub open spec fn or_null(v: Option<JsonView>) -> JsonView {
    match v {
        Some(v) => v,
        None => JsonView::Null,
    }
}

/// A text, or `null` where there is none.
pub open spec fn text_or_null(t: Option<Seq<char>>) -> JsonView {
    match t {
        Some(t) => JsonView::Text(t),
        None => JsonView::Null,
    }
}

/// An object with the single member `type`.
pub open spec fn tagged(kind: Seq<char>) -> Seq<(Seq<char>, JsonView)> {
    put_text(seq![], "type"@, kind)
}

/// A whole number.
pub open spec fn whole(n: int) -> JsonView {
    if n >= 0 {
        JsonView::Number(NumberView::Unsigned(n as u64))
    } else {
        JsonView::Number(NumberView::Negative(n as i64))
    }
}

/// An array of texts.
pub open spec fn text_array(texts: Seq<Seq<char>>) -> JsonView {
    JsonView::Array(texts.map_values(|t: Seq<char>| JsonView::Text(t)))
}

impl JsonMap {
    /// An object with the single member `type`.
    pub fn of_type(kind: &str) -> (r: Self)
        ensures
            r@ == tagged(kind@),
    {
        let mut m = JsonMap::new();
        m.put_text("type", kind);
        m
    }

    /// Sets the member `key`.
    pub fn put(&mut self, key: &str, value: Json)
        ensures
            final(self)@ == set_member(old(self)@, key@, value@),
    {
        self.insert(key.to_owned(), value);
    }

    /// Sets the member `key` to a text.
    pub fn put_text(&mut self, key: &str, t: &str)
        ensures
            final(self)@ == put_text(old(self)@, key@, t@),
    {
        self.insert(key.to_owned(), Json::Text(t.to_owned()));
    }

    /// Sets the member `key` to a text, where there is one.
    pub fn put_opt_text(&mut self, key: &str, t: &Option<String>)
        ensures
            final(self)@ == put_opt_text(old(self)@, key@, text::opt_view(*t)),
    {
        if let Some(t) = t {
            self.put_text(key, t.as_str());
        }
    }

    /// Sets the member `key` to a text, or to `null` where there is none.
    pub fn put_text_or_null(&mut self, key: &str, t: &Option<String>)
        ensures
            final(self)@ == put_text_or_null(old(self)@, key@, text::opt_view(*t)),
    {
        match t {
            Some(t) => self.put_text(key, t.as_str()),
            None => self.insert(key.to_owned(), Json::Null),
        }
    }

    /// Sets the member `key`, where there is a value.
    pub fn put_opt(&mut self, key: &str, value: Option<Json>)
        ensures
            final(self)@ == put_opt(old(self)@, key@, opt_json_view(value)),
    {
        if let Some(value) = value {
            self.put(key, value);
        }
    }

    /// Sets the member `key` to a text that is not empty.
    pub fn put_text_unless_empty(&mut self, key: &str, t: &str)
        ensures
            final(self)@ == put_text_unless_empty(old(self)@, key@, t@),
    {
        if !t.is_empty() {
            self.put_text(key, t);
        }
    }

    /// The object with these members.
    pub fn into_json(self) -> (r: Json)
        ensures
            r@ == JsonView::Object(self@),
    {
        proof {
            lemma_object_view(self);
        }
        Json::Object(self)
    }
}

impl Json {
    /// A value, or `null` where there is none.
    pub fn or_null(value: Option<Json>) -> (r: Self)
        ensures
            r@ == or_null(opt_json_view(value)),
    {
        match value {
            Some(value) => value,
            None => Json::Null,
        }
    }

    /// A whole number.
    pub fn integer(n: i64) -> (r: Self)
        ensures
            r@ == whole(n as int),
    {
        if n >= 0 {
            Json::Number(JsonNumber::Unsigned(n as u64))
        } else {
            Json::Number(JsonNumber::Negative(n))
        }
    }

    /// An array of these elements.
    pub fn array(items: Vec<Json>) -> (r: Self)
        ensures
            r@ == JsonView::Array(items_view(items@)),
    {
        proof {
            lemma_array_view(items);
        }
        Json::Array(items)
    }

    /// An array of texts.
    pub fn texts(texts: &Vec<String>) -> (r: Self)
        ensures
            r@ == text_array(text::strings_view(texts@)),
    {
        let mut items: Vec<Json> = Vec::new();
        let mut i: usize = 0;
        while i < texts.len()
            invariant
                i <= texts@.len(),
                items@.len() == i,
                forall|k: int| 0 <= k < i ==> (#[trigger] items@[k])@ == JsonView::Text(texts@[k]@),
            decreases texts@.len() - i,
        {
            items.push(Json::Text(texts[i].clone()));
            i += 1;
        }
        assert(items_view(items@) =~= text::strings_view(texts@).map_values(
            |t: Seq<char>| JsonView::Text(t),
        ));
        Json::array(items)
    }
}

// --- Laws on members -------------------------------------------------------------------

/// The keys ascend, so that no key is there twice.
pub open spec fn keys_ascend(m: Seq<(Seq<char>, JsonView)>) -> bool {
    forall|i: int, j: int| 0 <= i < j < m.len() ==> text::before(m[i].0, m[j].0)
}

proof fn lemma_with_member(
    m: Seq<(Seq<char>, JsonView)>,
    key: Seq<char>,
    value: JsonView,
    i: int,
) -> (at: int)
    requires
        0 <= i <= m.len(),
        forall|k: int| 0 <= k < i ==> (#[trigger] m[k]).0 != key,
    ensures
        i <= at <= m.len(),
        forall|k: int| 0 <= k < at ==> (#[trigger] m[k]).0 != key,
        at < m.len() && m[at].0 == key ==> with_member(m, key, value, i) == m.update(
            at,
            (key, value),
        ),
        !(at < m.len() && m[at].0 == key) ==> with_member(m, key, value, i) == m.insert(
            at,
            (key, value),
        ),
        at < m.len() && m[at].0 != key ==> text::before(key, m[at].0),
        forall|k: int| i <= k < at ==> !text::before(key, (#[trigger] m[k]).0),
    decreases m.len() - i,
{
    if i == m.len() {
        assert(m.push((key, value)) =~= m.insert(i, (key, value)));
        i
    } else if m[i].0 == key || text::before(key, m[i].0) {
        i
    } else {
        lemma_with_member(m, key, value, i + 1)
    }
}

proof fn lemma_member_at(m: Seq<(Seq<char>, JsonView)>, key: Seq<char>, at: int)
    requires
        0 <= at < m.len(),
        m[at].0 == key,
        forall|k: int| 0 <= k < at ==> (#[trigger] m[k]).0 != key,
    ensures
        key_index(m, key, 0) == at,
        member(m, key) == Some(m[at].1),
{
    lemma_key_index(m, key, 0);
    let i = key_index(m, key, 0);
    if i < at {
        assert(m[i].0 == key);
    } else if at < i {
        assert(m[at].0 != key);
    }
}

/// A member that was set is there.
pub proof fn law_set_member_is_there(
    m: Seq<(Seq<char>, JsonView)>,
    key: Seq<char>,
    value: JsonView,
)
    ensures
        member(set_member(m, key, value), key) == Some(value),
{
    let at = lemma_with_member(m, key, value, 0);
    let after = set_member(m, key, value);
    assert(after[at] == (key, value));
    assert forall|k: int| 0 <= k < at implies (#[trigger] after[k]).0 != key by {
        assert(after[k] == m[k]);
    }
    lemma_member_at(after, key, at);
}

/// Setting a member leaves the others as they are.
pub proof fn law_set_member_keeps_others(
    m: Seq<(Seq<char>, JsonView)>,
    key: Seq<char>,
    value: JsonView,
    other: Seq<char>,
)
    requires
        other != key,
    ensures
        member(set_member(m, key, value), other) == member(m, other),
{
    let at = lemma_with_member(m, key, value, 0);
    let after = set_member(m, key, value);
    lemma_key_index(m, other, 0);
    lemma_key_index(after, other, 0);
    let i = key_index(m, other, 0);
    let replaced = at < m.len() && m[at].0 == key;
    let shift = |k: int|
        if replaced || k < at {
            k
        } else {
            k + 1
        };
    if i < m.len() {
        assert(after[shift(i)] == m[i]);
        assert forall|k: int| 0 <= k < shift(i) implies (#[trigger] after[k]).0 != other by {
            if k == at {
            } else if replaced || k < at {
                assert(after[k] == m[k]);
            } else {
                assert(after[k] == m[k - 1]);
            }
        }
        lemma_member_at(after, other, shift(i));
    } else {
        let j = key_index(after, other, 0);
        if j < after.len() {
            assert(after[j].0 == other);
            if j == at {
            } else if replaced || j < at {
                assert(m[j].0 != other);
            } else {
                assert(m[j - 1].0 != other);
            }
        }
    }
}

/// The member under a key of an object whose keys ascend.
pub proof fn lemma_member_is_at(m: Seq<(Seq<char>, JsonView)>, i: int)
    requires
        keys_ascend(m),
        0 <= i < m.len(),
    ensures
        member(m, m[i].0) == Some(m[i].1),
{
    assert forall|k: int| 0 <= k < i implies (#[trigger] m[k]).0 != m[i].0 by {
        assert(text::before(m[k].0, m[i].0));
        text::lemma_before_irreflexive(m[i].0, 0);
    }
    lemma_member_at(m, m[i].0, i);
}

proof fn lemma_same_at(a: Seq<(Seq<char>, JsonView)>, b: Seq<(Seq<char>, JsonView)>, i: int)
    requires
        keys_ascend(a),
        keys_ascend(b),
        forall|k: Seq<char>| #[trigger] member(a, k) == member(b, k),
        0 <= i < a.len(),
    ensures
        i < b.len(),
        a[i] == b[i],
    decreases i,
{
    assert forall|j: int| 0 <= j < i implies j < b.len() && #[trigger] a[j] == b[j] by {
        lemma_same_at(a, b, j);
    }
    let key = a[i].0;
    lemma_member_is_at(a, i);
    lemma_key_index(b, key, 0);
    let p = key_index(b, key, 0);
    assert(member(b, key) == Some(a[i].1));
    text::lemma_before_irreflexive(key, 0);
    if p < i {
        assert(a[p] == b[p]);
        assert(text::before(a[p].0, a[i].0));
    } else if p > i {
        assert(text::before(b[i].0, b[p].0));
        let other = b[i].0;
        lemma_member_is_at(b, i);
        lemma_key_index(a, other, 0);
        let q = key_index(a, other, 0);
        assert(member(a, other) == Some(b[i].1));
        text::lemma_before_irreflexive(other, 0);
        if q < i {
            assert(a[q] == b[q]);
            assert(text::before(b[q].0, b[i].0));
        } else if q > i {
            assert(text::before(a[i].0, a[q].0));
            text::lemma_before_transitive(key, other, key, 0);
        }
    }
}

/// Two objects whose keys ascend and that have the same members are the same.
pub proof fn law_members_decide(a: Seq<(Seq<char>, JsonView)>, b: Seq<(Seq<char>, JsonView)>)
    requires
        keys_ascend(a),
        keys_ascend(b),
        forall|k: Seq<char>| #[trigger] member(a, k) == member(b, k),
    ensures
        a == b,
{
    assert forall|i: int| 0 <= i < a.len() implies i < b.len() && #[trigger] a[i] == b[i] by {
        lemma_same_at(a, b, i);
    }
    assert(forall|k: Seq<char>| #[trigger] member(b, k) == member(a, k));
    assert forall|i: int| 0 <= i < b.len() implies i < a.len() && #[trigger] b[i] == a[i] by {
        lemma_same_at(b, a, i);
    }
    if a.len() > 0 {
        lemma_same_at(a, b, a.len() - 1);
    }
    if b.len() > 0 {
        lemma_same_at(b, a, b.len() - 1);
    }
    assert(a =~= b);
}

/// A member once another, or itself, was set.
pub broadcast proof fn lemma_member_of_set(
    m: Seq<(Seq<char>, JsonView)>,
    key: Seq<char>,
    value: JsonView,
    other: Seq<char>,
)
    ensures
        #[trigger] member(set_member(m, key, value), other) == if other == key {
            Some(value)
        } else {
            member(m, other)
        },
{
    law_set_member_is_there(m, key, value);
    if other != key {
        law_set_member_keeps_others(m, key, value, other);
    }
}

/// Setting and removing members keep the keys ascending.
pub proof fn law_keys_stay_ascending(
    m: Seq<(Seq<char>, JsonView)>,
    key: Seq<char>,
    value: JsonView,
)
    requires
        keys_ascend(m),
    ensures
        keys_ascend(set_member(m, key, value)),
        keys_ascend(without_member(m, key)),
{
    let at = lemma_with_member(m, key, value, 0);
    let after = set_member(m, key, value);
    if at < m.len() && m[at].0 == key {
        assert(forall|k: int| 0 <= k < m.len() ==> (#[trigger] after[k]).0 == m[k].0);
    } else {
        assert forall|i: int, j: int| 0 <= i < j < after.len() implies text::before(
            after[i].0,
            after[j].0,
        ) by {
            if j == at {
                assert(after[i] == m[i]);
                assert(!text::before(key, m[i].0));
                assert(key.take(0) =~= m[i].0.take(0));
                text::lemma_before_total(key, m[i].0, 0);
            } else if i == at {
                assert(text::before(key, m[at].0));
                assert(after[j] == m[j - 1]);
                if j - 1 > at {
                    assert(text::before(m[at].0, m[j - 1].0));
                    text::lemma_before_transitive(key, m[at].0, m[j - 1].0, 0);
                }
            } else {
                let i0 = if i < at {
                    i
                } else {
                    i - 1
                };
                let j0 = if j < at {
                    j
                } else {
                    j - 1
                };
                assert(after[i] == m[i0] && after[j] == m[j0]);
            }
        }
    }
    lemma_key_index(m, key, 0);
    let i = key_index(m, key, 0);
    if i < m.len() {
        let less = m.remove(i);
        assert forall|p: int, q: int| 0 <= p < q < less.len() implies text::before(
            less[p].0,
            less[q].0,
        ) by {
            let p0 = if p < i {
                p
            } else {
                p + 1
            };
            let q0 = if q < i {
                q
            } else {
                q + 1
            };
            assert(less[p] == m[p0] && less[q] == m[q0]);
        }
    }
}

/// Removing a member leaves the others as they are.
pub proof fn law_removal_keeps_others(
    m: Seq<(Seq<char>, JsonView)>,
    key: Seq<char>,
    other: Seq<char>,
)
    requires
        key != other,
    ensures
        member(without_member(m, key), other) == member(m, other),
{
    lemma_key_index(m, key, 0);
    lemma_key_index(m, other, 0);
    let i = key_index(m, key, 0);
    let o = key_index(m, other, 0);
    let less = without_member(m, key);
    lemma_key_index(less, other, 0);
    if i < m.len() {
        let back = |k: int|
            if k < i {
                k
            } else {
                k + 1
            };
        assert(forall|k: int| 0 <= k < less.len() ==> #[trigger] less[k] == m[back(k)]);
        if o < m.len() {
            let at = if o < i {
                o
            } else {
                o - 1
            };
            assert(less[at] == m[o]);
            lemma_member_at(less, other, at);
        } else {
            let j = key_index(less, other, 0);
            if j < less.len() {
                assert(m[back(j)].0 == other);
            }
        }
    }
}

/// A member that was removed is gone.
pub proof fn law_removed_member_is_gone(m: Seq<(Seq<char>, JsonView)>, key: Seq<char>)
    requires
        keys_ascend(m),
    ensures
        member(without_member(m, key), key) is None,
{
    lemma_key_index(m, key, 0);
    let i = key_index(m, key, 0);
    let less = without_member(m, key);
    lemma_key_index(less, key, 0);
    let j = key_index(less, key, 0);
    if j < less.len() {
        if i < m.len() {
            let j0 = if j < i {
                j
            } else {
                j + 1
            };
            assert(less[j] == m[j0]);
            assert(m[j0].0 == m[i].0);
            text::lemma_before_irreflexive(m[i].0, 0);
            if j0 < i {
                assert(text::before(m[j0].0, m[i].0));
            } else {
                assert(text::before(m[i].0, m[j0].0));
            }
        }
    }
}

// --- Text and back, through serde_json -------------------------------------------

/// `serde_json`'s own value, as it is handed to and taken from that crate.
#[verifier::external_type_specification]
#[verifier::external_body]
pub struct ExValue(serde_json::Value);

/// `serde_json`'s own number, as it is handed to and taken from that crate.
#[verifier::external_type_specification]
#[verifier::external_body]
pub struct ExNumber(serde_json::Number);

/// What `serde_json::from_str` makes of a text: a value, or an error's message.
pub uninterp spec fn parsed_json(text: Seq<char>) -> Result<JsonView, Seq<char>>;

/// What `serde_json::from_slice` makes of bytes: a value, or an error's message.
pub uninterp spec fn parsed_bytes(bytes: Seq<u8>) -> Result<JsonView, Seq<char>>;

/// What `serde_json::to_string` makes of the number with this text, as far as it is no
/// whole one.
pub uninterp spec fn number_text(text: Seq<char>) -> Seq<char>;

/// `m` with the entry `key`, from `i` on: in its place where it is there, else before the
/// first greater key.
pub open spec fn with_entry<T>(m: Seq<(Seq<char>, T)>, key: Seq<char>, value: T, i: int) -> Seq<
    (Seq<char>, T),
>
    decreases m.len() - i,
{
    if !(0 <= i < m.len()) {
        m.push((key, value))
    } else if m[i].0 == key {
        m.update(i, (key, value))
    } else if text::before(key, m[i].0) {
        m.insert(i, (key, value))
    } else {
        with_entry(m, key, value, i + 1)
    }
}

/// The compact text of a value. The members of an object stand in the order of their keys;
/// of several with one key the last counts.
#[verifier::opaque]
pub open spec fn value_text(v: JsonView) -> Seq<char>
    decreases v, 0nat,
{
    match v {
        JsonView::Null => "null"@,
        JsonView::Bool(b) => json_text::flag_text(b),
        JsonView::Number(NumberView::Unsigned(n)) => text::decimal(n as nat),
        JsonView::Number(NumberView::Negative(i)) => text::signed(i as int),
        JsonView::Number(NumberView::Decimal(t)) => number_text(t),
        JsonView::Text(t) => json_string::quoted(t),
        JsonView::Array(items) => "["@ + text::join(item_texts(items, items.len()), ","@) + "]"@,
        JsonView::Object(m) => {
            let members = member_texts(m, m.len()).map_values(
                |e: (Seq<char>, Seq<char>)| json_text::field(e.0, e.1),
            );
            "{"@ + text::join(members, ","@) + "}"@
        },
    }
}

/// The texts of the first `n` elements.
pub open spec fn item_texts(items: Seq<JsonView>, n: nat) -> Seq<Seq<char>>
    decreases items, n,
{
    if n == 0 || n > items.len() {
        Seq::empty()
    } else {
        item_texts(items, (n - 1) as nat).push(value_text(items[n - 1]))
    }
}

/// The texts of the first `n` members, by ascending key.
pub open spec fn member_texts(m: Seq<(Seq<char>, JsonView)>, n: nat) -> Seq<
    (Seq<char>, Seq<char>),
>
    decreases m, n,
{
    if n == 0 || n > m.len() {
        Seq::empty()
    } else {
        with_entry(member_texts(m, (n - 1) as nat), m[n - 1].0, value_text(m[n - 1].1), 0)
    }
}

/// The compact text of a value, which every value has.
pub open spec fn rendered_json(value: JsonView) -> Option<Seq<char>> {
    Some(value_text(value))
}

/// The contents of what was read, or the message of the error.
pub open spec fn parse_view(r: Result<Json, String>) -> Result<JsonView, Seq<char>> {
    match r {
        Ok(v) => Ok(v@),
        Err(e) => Err(e@),
    }
}

/// The text that `serde_json::Number::from_f64` gives the number with this text, once it is
/// a floating-point number.
pub uninterp spec fn float_text(text: Seq<char>) -> Option<Seq<char>>;

/// `serde_json::Number::from_f64` on the number with this text: its text as a
/// floating-point number, which depends on that text alone.
#[verifier::external_body]
fn serde_float(text: &str) -> (r: Option<String>)
    ensures
        text::opt_view(r) == float_text(text@),
{
    let number = text.parse::<serde_json::Number>().ok();
    let float = number.and_then(|n| n.as_f64()).and_then(serde_json::Number::from_f64);
    float.map(|n| n.to_string())
}

/// A number where one is wanted that need not be whole: a whole one is written as such a
/// number, too.
pub open spec fn as_float(n: NumberView) -> Option<NumberView> {
    let whole = match n {
        NumberView::Unsigned(u) => text::decimal(u as nat),
        NumberView::Negative(i) => text::signed(i as int),
        NumberView::Decimal(t) => t,
    };
    if n is Decimal {
        Some(n)
    } else {
        match float_text(whole) {
            Some(t) => Some(NumberView::Decimal(t)),
            None => None,
        }
    }
}

impl JsonNumber {
    /// The number where one is wanted that need not be whole.
    pub fn to_float(&self) -> (r: Option<JsonNumber>)
        ensures
            match r {
                Some(f) => as_float(self@) == Some(f@),
                None => as_float(self@) is None,
            },
    {
        let whole = match self {
            JsonNumber::Unsigned(u) => text::decimal_of(*u as u128),
            JsonNumber::Negative(i) => text::signed_of(*i),
            JsonNumber::Decimal(t) => {
                return Some(JsonNumber::Decimal(t.clone()));
            },
        };
        match serde_float(whole.as_str()) {
            Some(t) => Some(JsonNumber::Decimal(t)),
            None => None,
        }
    }
}

/// Whether a text is the compact text of a document that can be read back from it.
pub open spec fn is_text_of(t: Seq<char>, d: Doc) -> bool {
    json_doc::text_of(d) == Some(t) && json_doc::is_exact(d, json_doc::readable_depth())
}

/// Takes a number of `serde_json` over: a whole number where it is one, or else its text.
#[verifier::external_body]
fn number_from_serde(n: serde_json::Number) -> JsonNumber {
    match (n.as_u64(), n.as_i64()) {
        (Some(u), _) => JsonNumber::Unsigned(u),
        (None, Some(i)) => JsonNumber::Negative(i),
        (None, None) => JsonNumber::Decimal(n.to_string()),
    }
}

/// Takes a `serde_json::Value` over, variant by variant.
#[verifier::external_body]
fn from_serde(value: Value) -> Json {
    match value {
        Value::Null => Json::Null,
        Value::Bool(b) => Json::Bool(b),
        Value::Number(n) => Json::Number(number_from_serde(n)),
        Value::String(t) => Json::Text(t),
        Value::Array(items) => Json::Array(items.into_iter().map(from_serde).collect()),
        Value::Object(map) => Json::Object(
            JsonMap { entries: map.into_iter().map(|(k, v)| (k, from_serde(v))).collect() },
        ),
    }
}

/// Hands a number to `serde_json`, variant by variant.
#[verifier::external_body]
fn number_to_serde(number: &JsonNumber) -> Value {
    match number {
        JsonNumber::Unsigned(n) => Value::from(*n),
        JsonNumber::Negative(n) => Value::from(*n),
        JsonNumber::Decimal(t) => t.parse().map_or(Value::Null, Value::Number),
    }
}

/// Hands a value to `serde_json`, variant by variant.
#[verifier::external_body]
fn to_serde(value: &Json) -> Value {
    match value {
        Json::Null => Value::Null,
        Json::Bool(b) => Value::Bool(*b),
        Json::Number(n) => number_to_serde(n),
        Json::Text(t) => Value::from(t.as_str()),
        Json::Array(items) => items.iter().map(to_serde).collect(),
        Json::Object(map) => map.entries.iter().map(|(k, v)| (k.clone(), to_serde(v))).collect(),
    }
}

/// `serde_json::from_str`: the value that a text stands for, or the message of
/// the error. The result depends on the text alone. The compact text of a document whose
/// numbers are whole, and which is nested less than 128 deep, stands for that document;
/// the keys of an object come out ascending.
#[verifier::external_body]
fn serde_parse(text: &str) -> (r: Result<Json, String>)
    ensures
        parse_view(r) == parsed_json(text@),
        forall|d: Doc| #[trigger]
            is_text_of(text@, d) ==> r is Ok && r->Ok_0@ == json_doc::value_of(d),
{
    match serde_json::from_str::<serde_json::Value>(text) {
        Ok(value) => Ok(from_serde(value)),
        Err(error) => Err(error.to_string()),
    }
}

/// `serde_json::from_slice`: the value that bytes stand for, or the message of the
/// error. The result depends on the bytes alone, and is that of `from_str` where they are
/// a text.
#[verifier::external_body]
fn serde_parse_bytes(bytes: &[u8]) -> (r: Result<Json, String>)
    ensures
        parse_view(r) == parsed_bytes(bytes@),
        vstd::utf8::valid_utf8(bytes@) ==> parse_view(r) == parsed_json(
            vstd::utf8::decode_utf8(bytes@),
        ),
{
    match serde_json::from_slice::<serde_json::Value>(bytes) {
        Ok(value) => Ok(from_serde(value)),
        Err(error) => Err(error.to_string()),
    }
}

/// `serde_json::to_string`: the compact text of a value. A number that is not whole has
/// the text that `serde_json` gives it, which depends on its own text alone; everything
/// else is written as JSON has it, without white space, an object by ascending keys.
#[verifier::external_body]
fn serde_render(value: &Json) -> (r: Option<String>)
    ensures
        text::opt_view(r) == rendered_json(value@),
        value@ matches JsonView::Number(NumberView::Decimal(t)) ==> text::opt_view(r) == Some(
            number_text(t),
        ),
{
    serde_json::to_string(&to_serde(value)).ok()
}

impl Json {
    /// The value that `text` stands for, or what is wrong with it. What was written
    /// compactly is read back as it was.
    pub fn parse(text: &str) -> (r: Result<Json, String>)
        ensures
            parse_view(r) == parsed_json(text@),
            forall|d: Doc| #[trigger]
                is_text_of(text@, d) ==> r is Ok && r->Ok_0@ == json_doc::value_of(d),
    {
        serde_parse(text)
    }

    /// The value that `bytes` stand for, or what is wrong with them.
    pub fn parse_bytes(bytes: &[u8]) -> (r: Result<Json, String>)
        ensures
            parse_view(r) == parsed_bytes(bytes@),
            vstd::utf8::valid_utf8(bytes@) ==> parse_view(r) == parsed_json(
                vstd::utf8::decode_utf8(bytes@),
            ),
    {
        serde_parse_bytes(bytes)
    }

    /// The compact text of the value.
    pub fn render(&self) -> (r: Option<String>)
        ensures
            text::opt_view(r) == rendered_json(self@),
    {
        serde_render(self)
    }
}

} // verus!
