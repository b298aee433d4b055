//! How stable consecutive requests of a request log are: shared prefixes, and the
//! JSON paths at which they differ.
use vstd::prelude::*;

use crate::json;
use crate::json::Json;
use crate::json::JsonMap;
use crate::json::JsonNumber;
use crate::json::JsonView;
use crate::json::NumberView;
use crate::text;

verus! {

// --- Prefixes ----------------------------------------------------------------------------------

/// The number of bytes at which `left` and `right` agree from their start.
pub open spec fn is_common_prefix(left: Seq<u8>, right: Seq<u8>, n: int) -> bool {
    &&& 0 <= n <= left.len()
    &&& n <= right.len()
    &&& left.take(n) == right.take(n)
    &&& n < left.len() && n < right.len() ==> left[n] != right[n]
}

/// The first index from `i` at which `left` and `right` do not agree.
pub open spec fn agree_until(left: Seq<u8>, right: Seq<u8>, i: int) -> int
    decreases left.len() - i,
{
    if 0 <= i < left.len() && i < right.len() && left[i] == right[i] {
        agree_until(left, right, i + 1)
    } else {
        i
    }
}

/// The number of bytes at which `left` and `right` agree from their start.
pub fn common_prefix_len(left: &[u8], right: &[u8]) -> (r: usize)
    ensures
        is_common_prefix(left@, right@, r as int),
        r == agree_until(left@, right@, 0),
{
    let mut i: usize = 0;
    while i < left.len() && i < right.len() && left[i] == right[i]
        invariant
            i <= left@.len(),
            i <= right@.len(),
            forall|k: int| 0 <= k < i ==> left@[k] == right@[k],
            agree_until(left@, right@, 0) == agree_until(left@, right@, i as int),
        decreases left@.len() - i,
    {
        i += 1;
    }
    assert(left@.take(i as int) =~= right@.take(i as int));
    i
}

/// There is one such number.
pub proof fn law_common_prefix_is_unique(left: Seq<u8>, right: Seq<u8>, m: int, n: int)
    requires
        is_common_prefix(left, right, m),
        is_common_prefix(left, right, n),
    ensures
        m == n,
{
    if m < n {
        assert(left.take(n)[m] == right.take(n)[m]);
    } else if n < m {
        assert(left.take(m)[n] == right.take(m)[n]);
    }
}

// --- Previews ----------------------------------------------------------------------------------

/// The bytes that `c` takes in UTF-8.
pub open spec fn char_width(c: char) -> nat {
    if (c as u32) < 0x80 {
        1
    } else if (c as u32) < 0x800 {
        2
    } else if (c as u32) < 0x10000 {
        3
    } else {
        4
    }
}

/// The number of characters of `t[i..]`, which starts at the byte `offset`, that
/// start before the byte `boundary`.
pub open spec fn chars_before(t: Seq<char>, i: int, offset: nat, boundary: nat) -> nat
    decreases t.len() - i,
{
    if !(0 <= i < t.len()) || offset >= boundary {
        0
    } else {
        1 + chars_before(t, i + 1, offset + char_width(t[i]), boundary)
    }
}

/// A character of a preview: line ends and tabs are shown as escapes.
pub open spec fn shown_char(c: char) -> Seq<char> {
    if c == '\n' {
        "\\n"@
    } else if c == '\r' {
        "\\r"@
    } else if c == '\t' {
        "\\t"@
    } else {
        seq![c]
    }
}

/// `t[i..]` with line ends and tabs shown as escapes.
pub open spec fn sanitized(t: Seq<char>, i: int) -> Seq<char>
    decreases t.len() - i,
{
    if !(0 <= i < t.len()) {
        seq![]
    } else {
        shown_char(t[i]) + sanitized(t, i + 1)
    }
}

/// What stands round the byte `boundary` of `t`: up to 32 characters before it, a
/// bar, and up to 48 after it, with an ellipsis where something is left out.
pub open spec fn preview(t: Seq<char>, boundary: nat) -> Seq<char> {
    let at = chars_before(t, 0, 0, boundary) as int;
    let start = if at >= 32 {
        at - 32
    } else {
        0
    };
    let end = if at + 48 <= t.len() {
        at + 48
    } else {
        t.len() as int
    };
    (if start > 0 {
        "…"@
    } else {
        ""@
    }) + sanitized(t.subrange(start, at), 0) + "|"@ + sanitized(t.subrange(at, end), 0) + (if end
        < t.len() {
        "…"@
    } else {
        ""@
    })
}

fn char_width_of(c: char) -> (r: usize)
    ensures
        r == char_width(c),
        r <= 4,
{
    let n: u32 = c as u32;
    if n < 0x80 {
        1
    } else if n < 0x800 {
        2
    } else if n < 0x10000 {
        3
    } else {
        4
    }
}

proof fn lemma_chars_before(t: Seq<char>, i: int, offset: nat, boundary: nat)
    requires
        0 <= i <= t.len(),
    ensures
        chars_before(t, i, offset, boundary) <= t.len() - i,
    decreases t.len() - i,
{
    if i < t.len() && offset < boundary {
        lemma_chars_before(t, i + 1, offset + char_width(t[i]), boundary);
    }
}

/// `value` with line ends and tabs shown as escapes.
pub fn sanitize_preview(value: &str) -> (r: String)
    ensures
        r@ == sanitized(value@, 0),
{
    let chars = text::chars_of(value);
    let mut out = String::new();
    let mut i: usize = 0;
    while i < chars.len()
        invariant
            i <= chars@.len(),
            chars@ == value@,
            out@ + sanitized(value@, i as int) == sanitized(value@, 0),
        decreases chars@.len() - i,
    {
        let c = chars[i];
        let ghost before = out@;
        if c == '\n' {
            out.append("\\n");
        } else if c == '\r' {
            out.append("\\r");
        } else if c == '\t' {
            out.append("\\t");
        } else {
            out.push(c);
        }
        assert(before + (shown_char(c) + sanitized(value@, i + 1)) =~= out@ + sanitized(
            value@,
            i + 1,
        ));
        i += 1;
    }
    assert(out@ + Seq::<char>::empty() =~= out@);
    out
}

/// What stands round the byte `boundary` of `text`.
pub fn boundary_preview(text: &str, boundary: usize) -> (r: String)
    ensures
        r@ == preview(text@, boundary as nat),
{
    let chars = text::chars_of(text);
    let n: usize = chars.len();
    let mut at: usize = 0;
    let mut offset: u128 = 0;
    proof {
        lemma_chars_before(text@, 0, 0, boundary as nat);
    }
    while at < n && offset < boundary as u128
        invariant
            n == chars@.len(),
            chars@ == text@,
            at <= n,
            offset <= 4 * at,
            chars_before(text@, 0, 0, boundary as nat) == at + chars_before(
                text@,
                at as int,
                offset as nat,
                boundary as nat,
            ),
        decreases n - at,
    {
        offset = offset + char_width_of(chars[at]) as u128;
        at += 1;
    }
    let start: usize = if at >= 32 {
        at - 32
    } else {
        0
    };
    let end: usize = if n - at >= 48 {
        at + 48
    } else {
        n
    };
    let mut out = if start > 0 {
        "…".to_owned()
    } else {
        "".to_owned()
    };
    let before = text::string_of(&chars, start, at);
    let after = text::string_of(&chars, at, end);
    out.append(sanitize_preview(before.as_str()).as_str());
    out.append("|");
    out.append(sanitize_preview(after.as_str()).as_str());
    if end < n {
        out.append("…");
    } else {
        out.append("");
    }
    out
}

/// A character's width is the length of its UTF-8 encoding.
pub proof fn law_char_width_is_utf8(c: char)
    ensures
        char_width(c) == vstd::utf8::encode_scalar(c as u32).len(),
{
    vstd::utf8::char_is_scalar(c);
}

// --- Differences -------------------------------------------------------------------------------

/// The text of a zero that is no whole number.
pub open spec fn is_zero_text(t: Seq<char>) -> bool {
    t == "0.0"@ || t == "-0.0"@
}

/// Whether two values that are not both arrays or both objects are equal. Zero has
/// two texts.
pub open spec fn same_scalar(a: JsonView, b: JsonView) -> bool {
    match (a, b) {
        (JsonView::Null, JsonView::Null) => true,
        (JsonView::Bool(x), JsonView::Bool(y)) => x == y,
        (JsonView::Text(x), JsonView::Text(y)) => x == y,
        (
            JsonView::Number(NumberView::Unsigned(x)),
            JsonView::Number(NumberView::Unsigned(y)),
        ) => x == y,
        (
            JsonView::Number(NumberView::Negative(x)),
            JsonView::Number(NumberView::Negative(y)),
        ) => x == y,
        (
            JsonView::Number(NumberView::Decimal(x)),
            JsonView::Number(NumberView::Decimal(y)),
        ) => x == y || is_zero_text(x) && is_zero_text(y),
        _ => false,
    }
}

/// `path.key`.
pub open spec fn child(path: Seq<char>, key: Seq<char>) -> Seq<char> {
    path + "."@ + key
}

/// The paths below `path` at which two values differ: a member of one only, an
/// array's length, or a value that is another.
pub open spec fn diff_paths(path: Seq<char>, l: JsonView, r: JsonView) -> Seq<Seq<char>>
    decreases l, 0nat,
{
    match (l, r) {
        (JsonView::Object(lm), JsonView::Object(rm)) => diff_members(
            path,
            lm,
            rm,
            lm.len(),
        ) + new_members(path, lm, rm, rm.len() as int),
        (JsonView::Array(li), JsonView::Array(ri)) => {
            let n = if li.len() <= ri.len() {
                li.len()
            } else {
                ri.len()
            };
            diff_items(path, li, ri, n) + (if li.len() != ri.len() {
                seq![path + "[len]"@]
            } else {
                seq![]
            })
        },
        _ => if same_scalar(l, r) {
            seq![]
        } else {
            seq![path]
        },
    }
}

/// The paths at which the first `n` members on the left differ from the right.
pub open spec fn diff_members(
    path: Seq<char>,
    l: Seq<(Seq<char>, JsonView)>,
    r: Seq<(Seq<char>, JsonView)>,
    n: nat,
) -> Seq<Seq<char>>
    decreases l, n,
{
    if n == 0 || n > l.len() {
        seq![]
    } else {
        let (key, value) = l[n - 1];
        diff_members(path, l, r, (n - 1) as nat) + match json::member(r, key) {
            Some(other) => diff_paths(child(path, key), l[n - 1].1, other),
            None => seq![child(path, key)],
        }
    }
}

/// The paths of the first `n` members on the right that are not on the left.
pub open spec fn new_members(
    path: Seq<char>,
    l: Seq<(Seq<char>, JsonView)>,
    r: Seq<(Seq<char>, JsonView)>,
    n: int,
) -> Seq<Seq<char>>
    decreases n,
{
    if n <= 0 {
        seq![]
    } else {
        let rest = new_members(path, l, r, n - 1);
        if json::has_member(l, r[n - 1].0) {
            rest
        } else {
            rest.push(child(path, r[n - 1].0))
        }
    }
}

/// The paths at which the first `n` elements differ.
pub open spec fn diff_items(
    path: Seq<char>,
    l: Seq<JsonView>,
    r: Seq<JsonView>,
    n: nat,
) -> Seq<Seq<char>>
    decreases l, n,
{
    if n == 0 || n > l.len() {
        seq![]
    } else {
        diff_items(path, l, r, (n - 1) as nat) + diff_paths(
            text::indexed(path, n - 1),
            l[n - 1],
            r[n - 1],
        )
    }
}

/// Whether no object in a value has a key twice.
pub open spec fn has_no_key_twice(v: JsonView) -> bool
    decreases v, 0nat,
{
    match v {
        JsonView::Object(m) => json::keys_ascend(m) && members_have_no_key_twice(m, m.len()),
        JsonView::Array(items) => items_have_no_key_twice(items, items.len()),
        _ => true,
    }
}

/// Whether no object in the first `n` members has a key twice.
pub open spec fn members_have_no_key_twice(m: Seq<(Seq<char>, JsonView)>, n: nat) -> bool
    decreases m, n,
{
    if n == 0 || n > m.len() {
        true
    } else {
        members_have_no_key_twice(m, (n - 1) as nat) && has_no_key_twice(m[n - 1].1)
    }
}

/// Whether no object in the first `n` elements has a key twice.
pub open spec fn items_have_no_key_twice(items: Seq<JsonView>, n: nat) -> bool
    decreases items, n,
{
    if n == 0 || n > items.len() {
        true
    } else {
        items_have_no_key_twice(items, (n - 1) as nat) && has_no_key_twice(items[n - 1])
    }
}

/// A value differs from itself nowhere.
pub proof fn law_value_is_like_itself(path: Seq<char>, v: JsonView)
    requires
        has_no_key_twice(v),
    ensures
        diff_paths(path, v, v) == Seq::<Seq<char>>::empty(),
    decreases v, 0nat,
{
    match v {
        JsonView::Object(m) => {
            lemma_members_are_like_themselves(path, m, m.len());
            lemma_no_new_members(path, m, m.len() as int);
        },
        JsonView::Array(items) => {
            lemma_items_are_like_themselves(path, items, items.len());
        },
        _ => {},
    }
    assert(diff_paths(path, v, v) =~= Seq::<Seq<char>>::empty());
}

proof fn lemma_members_are_like_themselves(path: Seq<char>, m: Seq<(Seq<char>, JsonView)>, n: nat)
    requires
        json::keys_ascend(m),
        members_have_no_key_twice(m, n),
        n <= m.len(),
    ensures
        diff_members(path, m, m, n) == Seq::<Seq<char>>::empty(),
    decreases m, n,
{
    if n > 0 {
        lemma_members_are_like_themselves(path, m, (n - 1) as nat);
        json::lemma_member_is_at(m, n - 1);
        law_value_is_like_itself(child(path, m[n - 1].0), m[n - 1].1);
    }
    assert(diff_members(path, m, m, n) =~= Seq::<Seq<char>>::empty());
}

proof fn lemma_no_new_members(path: Seq<char>, m: Seq<(Seq<char>, JsonView)>, n: int)
    requires
        json::keys_ascend(m),
        0 <= n <= m.len(),
    ensures
        new_members(path, m, m, n) == Seq::<Seq<char>>::empty(),
    decreases n,
{
    if n > 0 {
        lemma_no_new_members(path, m, n - 1);
        json::lemma_member_is_at(m, n - 1);
    }
}

proof fn lemma_items_are_like_themselves(path: Seq<char>, items: Seq<JsonView>, n: nat)
    requires
        items_have_no_key_twice(items, n),
        n <= items.len(),
    ensures
        diff_items(path, items, items, n) == Seq::<Seq<char>>::empty(),
    decreases items, n,
{
    if n > 0 {
        lemma_items_are_like_themselves(path, items, (n - 1) as nat);
        law_value_is_like_itself(text::indexed(path, n - 1), items[n - 1]);
    }
    assert(diff_items(path, items, items, n) =~= Seq::<Seq<char>>::empty());
}

fn is_zero(t: &String) -> (r: bool)
    ensures
        r == is_zero_text(t@),
{
    text::str_eq(t.as_str(), "0.0") || text::str_eq(t.as_str(), "-0.0")
}

fn scalar_eq(left: &Json, right: &Json) -> (r: bool)
    ensures
        r == same_scalar(left@, right@),
{
    match (left, right) {
        (Json::Null, Json::Null) => true,
        (Json::Bool(x), Json::Bool(y)) => *x == *y,
        (Json::Text(x), Json::Text(y)) => text::str_eq(x.as_str(), y.as_str()),
        (Json::Number(x), Json::Number(y)) => match (x, y) {
            (JsonNumber::Unsigned(m), JsonNumber::Unsigned(n)) => *m == *n,
            (JsonNumber::Negative(m), JsonNumber::Negative(n)) => *m == *n,
            (JsonNumber::Decimal(m), JsonNumber::Decimal(n)) => text::str_eq(
                m.as_str(),
                n.as_str(),
            ) || (is_zero(m) && is_zero(n)),
            _ => false,
        },
        _ => false,
    }
}

fn child_path(path: &str, key: &str) -> (r: String)
    ensures
        r@ == child(path@, key@),
{
    let mut out = path.to_owned();
    out.append(".");
    out.append(key);
    out
}

fn push_path(differences: &mut Vec<String>, path: String)
    ensures
        text::strings_view(final(differences)@) == text::strings_view(old(differences)@).push(
            path@,
        ),
{
    differences.push(path);
    assert(text::strings_view(differences@) =~= text::strings_view(old(differences)@).push(path@));
}

/// Appends the paths below `path` at which two values differ.
pub fn diff_values(path: &str, left: &Json, right: &Json, differences: &mut Vec<String>)
    ensures
        text::strings_view(final(differences)@) == text::strings_view(old(differences)@)
            + diff_paths(path@, left@, right@),
    decreases left, 0nat,
{
    let ghost before = text::strings_view(differences@);
    match (left, right) {
        (Json::Object(lm), Json::Object(rm)) => {
            proof {
                json::lemma_object_view(*lm);
                json::lemma_object_view(*rm);
            }
            diff_objects(path, lm, rm, differences);
        },
        (Json::Array(li), Json::Array(ri)) => {
            proof {
                json::lemma_array_view(*li);
                json::lemma_array_view(*ri);
            }
            diff_arrays(path, li, ri, differences);
        },
        _ => {
            if !scalar_eq(left, right) {
                push_path(differences, path.to_owned());
                assert(before.push(path@) =~= before + seq![path@]);
            } else {
                assert(before =~= before + Seq::<Seq<char>>::empty());
            }
        },
    }
}

fn diff_objects(path: &str, left: &JsonMap, right: &JsonMap, differences: &mut Vec<String>)
    ensures
        text::strings_view(final(differences)@) == text::strings_view(old(differences)@) + (
        diff_members(path@, left@, right@, left@.len()) + new_members(
            path@,
            left@,
            right@,
            right@.len() as int,
        )),
    decreases left, 0nat,
{
    let ghost before = text::strings_view(differences@);
    let ghost l = left@;
    let ghost r = right@;
    let mut i: usize = 0;
    assert(before =~= before + diff_members(path@, l, r, 0));
    while i < left.entries.len()
        invariant
            i <= left.entries@.len(),
            l == left@,
            r == right@,
            text::strings_view(differences@) == before + diff_members(path@, l, r, i as nat),
        decreases left.entries@.len() - i,
    {
        let key = left.entries[i].0.as_str();
        let at = child_path(path, key);
        let ghost so_far = diff_members(path@, l, r, i as nat);
        assert(l[i as int] == (key@, left.entries@[i as int].1@));
        match right.get(key) {
            Some(other) => {
                diff_values(at.as_str(), &left.entries[i].1, other, differences);
                proof {
                    let more = diff_paths(at@, l[i as int].1, other@);
                    assert(before + so_far + more =~= before + (so_far + more));
                    assert(diff_members(path@, l, r, (i + 1) as nat) == so_far + more);
                }
            },
            None => {
                push_path(differences, at);
                proof {
                    assert((before + so_far).push(at@) =~= before + (so_far + seq![at@]));
                    assert(diff_members(path@, l, r, (i + 1) as nat) == so_far + seq![at@]);
                }
            },
        }
        i += 1;
    }
    let ghost members = diff_members(path@, l, r, l.len());
    let ghost after = before + members;
    let mut j: usize = 0;
    assert(after =~= after + new_members(path@, l, r, 0));
    while j < right.entries.len()
        invariant
            j <= right.entries@.len(),
            l == left@,
            r == right@,
            text::strings_view(differences@) == after + new_members(path@, l, r, j as int),
        decreases right.entries@.len() - j,
    {
        let key = right.entries[j].0.as_str();
        assert(r[j as int].0 == key@);
        if !left.contains_key(key) {
            push_path(differences, child_path(path, key));
            proof {
                let so_far = new_members(path@, l, r, j as int);
                assert((after + so_far).push(child(path@, key@)) =~= after + so_far.push(
                    child(path@, key@),
                ));
            }
        }
        j += 1;
    }
    assert(after + new_members(path@, l, r, r.len() as int) =~= before + (members + new_members(
        path@,
        l,
        r,
        r.len() as int,
    )));
}

fn diff_arrays(path: &str, left: &Vec<Json>, right: &Vec<Json>, differences: &mut Vec<String>)
    ensures
        text::strings_view(final(differences)@) == text::strings_view(old(differences)@) + (
        diff_items(
            path@,
            json::items_view(left@),
            json::items_view(right@),
            if left@.len() <= right@.len() {
                left@.len()
            } else {
                right@.len()
            },
        ) + (if left@.len() != right@.len() {
            seq![path@ + "[len]"@]
        } else {
            seq![]
        })),
    decreases left, 0nat,
{
    let ghost before = text::strings_view(differences@);
    let ghost l = json::items_view(left@);
    let ghost r = json::items_view(right@);
    let n: usize = if left.len() <= right.len() {
        left.len()
    } else {
        right.len()
    };
    let mut i: usize = 0;
    assert(before =~= before + diff_items(path@, l, r, 0));
    while i < n
        invariant
            i <= n,
            n <= left@.len(),
            n <= right@.len(),
            l == json::items_view(left@),
            r == json::items_view(right@),
            text::strings_view(differences@) == before + diff_items(path@, l, r, i as nat),
        decreases n - i,
    {
        let at = text::indexed_path(path, i);
        let ghost so_far = diff_items(path@, l, r, i as nat);
        diff_values(at.as_str(), &left[i], &right[i], differences);
        proof {
            let more = diff_paths(at@, l[i as int], r[i as int]);
            assert(before + so_far + more =~= before + (so_far + more));
            assert(diff_items(path@, l, r, (i + 1) as nat) == so_far + more);
        }
        i += 1;
    }
    let ghost items = diff_items(path@, l, r, n as nat);
    if left.len() != right.len() {
        push_path(differences, text::joined(path, "[len]"));
        assert((before + items).push(path@ + "[len]"@) =~= before + (items + seq![
            path@ + "[len]"@,
        ]));
    } else {
        assert(before + items =~= before + (items + Seq::<Seq<char>>::empty()));
    }
}


// --- Entries -----------------------------------------------------------------------------------

/// One request of a log.
#[derive(Debug)]
pub struct RequestLogEntry {
    /// The line it stands on, from 1.
    pub line_number: usize,
    /// The line, without white space round it.
    pub raw: String,
    /// What the line stands for.
    pub value: Json,
}

/// The contents of a [`RequestLogEntry`].
#[verifier::ext_equal]
pub struct EntryView {
    /// The line it stands on.
    pub line_number: int,
    /// The line.
    pub raw: Seq<char>,
    /// What the line stands for.
    pub value: JsonView,
}

impl View for RequestLogEntry {
    type V = EntryView;

    open spec fn view(&self) -> EntryView {
        EntryView { line_number: self.line_number as int, raw: self.raw@, value: self.value@ }
    }
}

/// The contents of entries.
pub open spec fn entries_view(entries: Seq<RequestLogEntry>) -> Seq<EntryView> {
    entries.map_values(|e: RequestLogEntry| e@)
}

/// The index of the first line feed of `t` from `i`, or the end of `t`.
pub open spec fn line_end(t: Seq<char>, i: int) -> int
    decreases t.len() - i,
{
    if 0 <= i < t.len() && t[i] != '\n' {
        line_end(t, i + 1)
    } else {
        i
    }
}

/// Reads the lines of `t` from `i`, the first of which is line `n`: the requests on
/// the lines that are not blank, or the first line that is no JSON and why.
pub open spec fn entries_from(t: Seq<char>, i: int, n: int) -> Result<
    Seq<EntryView>,
    (int, Seq<char>),
>
    decreases t.len() + 1 - i,
{
    let e = line_end(t, i);
    if !(0 <= i <= e <= t.len()) {
        Ok(seq![])
    } else {
        let raw = text::trimmed(t.subrange(i, e));
        if raw.len() == 0 {
            entries_from(t, e + 1, n + 1)
        } else {
            match json::parsed_json(raw) {
                Err(why) => Err((n, why)),
                Ok(value) => match entries_from(t, e + 1, n + 1) {
                    Err(other) => Err(other),
                    Ok(rest) => Ok(
                        seq![EntryView { line_number: n, raw, value }] + rest,
                    ),
                },
            }
        }
    }
}

/// The requests of a log, or the first line that is no JSON and why.
pub open spec fn log_entries(t: Seq<char>) -> Result<Seq<EntryView>, (int, Seq<char>)> {
    entries_from(t, 0, 1)
}

proof fn lemma_line_end(t: Seq<char>, i: int)
    requires
        0 <= i <= t.len(),
    ensures
        i <= line_end(t, i) <= t.len(),
    decreases t.len() - i,
{
    if i < t.len() && t[i] != '\n' {
        lemma_line_end(t, i + 1);
    }
}

/// The requests of a log, or the first line that is no JSON and why.
pub fn read_entries(contents: &str) -> (r: Result<Vec<RequestLogEntry>, (usize, String)>)
    ensures
        match log_entries(contents@) {
            Ok(entries) => r matches Ok(out) && entries_view(out@) == entries,
            Err((line, why)) => r matches Err((l, w)) && l == line && w@ == why,
        },
{
    let chars = text::chars_of(contents);
    let n: usize = chars.len();
    let mut out: Vec<RequestLogEntry> = Vec::new();
    let ghost t = contents@;
    let mut i: usize = 0;
    let mut line: usize = 0;
    assert(entries_view(out@) =~= seq![]);
    proof {
        if let Ok(rest) = entries_from(t, 0, 1) {
            assert(Seq::<EntryView>::empty() + rest =~= rest);
        }
    }
    loop
        invariant
            n == chars@.len(),
            chars@ == t,
            t == contents@,
            i <= n,
            line <= i,
            match entries_from(t, i as int, line + 1) {
                Ok(rest) => log_entries(t) == Ok::<Seq<EntryView>, (int, Seq<char>)>(
                    entries_view(out@) + rest,
                ),
                Err(e) => log_entries(t) == Err::<Seq<EntryView>, (int, Seq<char>)>(e),
            },
        decreases n - i,
    {
        let mut e: usize = i;
        proof {
            lemma_line_end(t, i as int);
        }
        while e < n && chars[e] != '\n'
            invariant
                n == chars@.len(),
                chars@ == t,
                i <= e <= n,
                line_end(t, i as int) == line_end(t, e as int),
            decreases n - e,
        {
            e += 1;
        }
        let piece = text::string_of(&chars, i, e);
        let raw = text::trim(piece.as_str());
        let ghost next = entries_from(t, e + 1, line + 2);
        if i < e && !raw.as_str().is_empty() {
            match Json::parse(raw.as_str()) {
                Ok(value) => {
                    let ghost before = entries_view(out@);
                    let ghost entry = EntryView {
                        line_number: line + 1,
                        raw: raw@,
                        value: value@,
                    };
                    out.push(RequestLogEntry { line_number: line + 1, raw, value });
                    assert(entries_view(out@) =~= before.push(entry));
                    proof {
                        if let Ok(rest) = next {
                            assert(before + (seq![entry] + rest) =~= before.push(entry) + rest);
                        }
                    }
                },
                Err(why) => {
                    return Err((line + 1, why));
                },
            }
        }
        if e >= n {
            assert(next == Ok::<Seq<EntryView>, (int, Seq<char>)>(seq![]));
            assert(entries_view(out@) + Seq::<EntryView>::empty() =~= entries_view(out@));
            return Ok(out);
        }
        i = e + 1;
        line += 1;
    }
}

// --- Pairs -------------------------------------------------------------------------------------

/// How two consecutive requests compare.
#[derive(Debug)]
pub struct PairReport {
    /// Line of the first.
    pub previous_line: usize,
    /// Line of the second.
    pub current_line: usize,
    /// Bytes of the first.
    pub previous_len: usize,
    /// Bytes of the second.
    pub current_len: usize,
    /// Bytes that they share from their start.
    pub common_prefix_bytes: usize,
    /// Where they differ.
    pub differing_paths: Vec<String>,
    /// The first, round the end of what they share.
    pub previous_boundary_preview: String,
    /// The second, round the end of what they share.
    pub current_boundary_preview: String,
}

/// The contents of a [`PairReport`].
#[verifier::ext_equal]
pub struct PairView {
    /// Line of the first.
    pub previous_line: int,
    /// Line of the second.
    pub current_line: int,
    /// Bytes of the first.
    pub previous_len: nat,
    /// Bytes of the second.
    pub current_len: nat,
    /// Bytes that they share from their start.
    pub common_prefix_bytes: int,
    /// Where they differ.
    pub differing_paths: Seq<Seq<char>>,
    /// The first, round the end of what they share.
    pub previous_boundary_preview: Seq<char>,
    /// The second, round the end of what they share.
    pub current_boundary_preview: Seq<char>,
}

impl View for PairReport {
    type V = PairView;

    open spec fn view(&self) -> PairView {
        PairView {
            previous_line: self.previous_line as int,
            current_line: self.current_line as int,
            previous_len: self.previous_len as nat,
            current_len: self.current_len as nat,
            common_prefix_bytes: self.common_prefix_bytes as int,
            differing_paths: text::strings_view(self.differing_paths@),
            previous_boundary_preview: self.previous_boundary_preview@,
            current_boundary_preview: self.current_boundary_preview@,
        }
    }
}

/// The contents of pair reports.
pub open spec fn pairs_view(pairs: Seq<PairReport>) -> Seq<PairView> {
    pairs.map_values(|p: PairReport| p@)
}

/// How two requests compare.
pub open spec fn compared(previous: EntryView, current: EntryView) -> PairView {
    let a = vstd::utf8::encode_utf8(previous.raw);
    let b = vstd::utf8::encode_utf8(current.raw);
    let n = agree_until(a, b, 0);
    PairView {
        previous_line: previous.line_number,
        current_line: current.line_number,
        previous_len: a.len(),
        current_len: b.len(),
        common_prefix_bytes: n,
        differing_paths: diff_paths("$"@, previous.value, current.value),
        previous_boundary_preview: preview(previous.raw, n as nat),
        current_boundary_preview: preview(current.raw, n as nat),
    }
}

/// How many pairs of `n` requests are compared: at least one, where there is one.
pub open spec fn pair_count(n: nat, max_pairs: nat) -> nat {
    let limit = if max_pairs >= 1 {
        max_pairs
    } else {
        1
    };
    if n == 0 {
        0
    } else if limit <= n - 1 {
        limit
    } else {
        (n - 1) as nat
    }
}

/// The first pairs of consecutive requests.
pub open spec fn pairs_of(entries: Seq<EntryView>, max_pairs: nat) -> Seq<PairView> {
    Seq::new(
        pair_count(entries.len(), max_pairs),
        |i: int| compared(entries[i], entries[i + 1]),
    )
}

/// Where the first `n` pairs differ, pair after pair.
pub open spec fn all_paths(pairs: Seq<PairView>, n: int) -> Seq<Seq<char>>
    decreases n,
{
    if n <= 0 {
        seq![]
    } else {
        all_paths(pairs, n - 1) + pairs[n - 1].differing_paths
    }
}

/// How often `p` is among the first `n` of `paths`, as far as a machine word counts.
pub open spec fn path_count(paths: Seq<Seq<char>>, p: Seq<char>, n: int) -> nat
    decreases n,
{
    if n <= 0 {
        0
    } else {
        let rest = path_count(paths, p, n - 1);
        if paths[n - 1] == p && rest < usize::MAX {
            rest + 1
        } else {
            rest
        }
    }
}

/// Whether a path with its count stands before another: more often first, then by
/// name.
pub open spec fn ranks_before(a: (Seq<char>, nat), b: (Seq<char>, nat)) -> bool {
    a.1 > b.1 || a.1 == b.1 && text::before(a.0, b.0)
}

/// Whether `counts` holds the path `p`.
pub open spec fn has_path(counts: Seq<(Seq<char>, nat)>, p: Seq<char>) -> bool {
    exists|i: int| 0 <= i < counts.len() && (#[trigger] counts[i]).0 == p
}

/// Whether `counts` holds each of `paths` once, with how often it is among them.
pub open spec fn counts_paths(paths: Seq<Seq<char>>, counts: Seq<(Seq<char>, nat)>) -> bool {
    &&& forall|i: int|
        0 <= i < counts.len() ==> (#[trigger] counts[i]).1 == path_count(
            paths,
            counts[i].0,
            paths.len() as int,
        ) && counts[i].1 > 0
    &&& forall|i: int, j: int| 0 <= i < j < counts.len() ==> counts[i].0 != counts[j].0
    &&& forall|k: int| 0 <= k < paths.len() ==> has_path(counts, #[trigger] paths[k])
}

/// Whether `counts` stand in order.
pub open spec fn is_ranked(counts: Seq<(Seq<char>, nat)>) -> bool {
    forall|i: int, j: int| 0 <= i < j < counts.len() ==> ranks_before(counts[i], counts[j])
}

/// The contents of paths with their counts.
pub open spec fn counts_view(counts: Seq<(String, usize)>) -> Seq<(Seq<char>, nat)> {
    counts.map_values(|c: (String, usize)| (c.0@, c.1 as nat))
}

/// Whether `top` are the most frequent of `paths`, at most ten, in order.
pub open spec fn are_most_frequent(paths: Seq<Seq<char>>, top: Seq<(Seq<char>, nat)>) -> bool {
    exists|all: Seq<(Seq<char>, nat)>|
        #![trigger counts_paths(paths, all)]
        counts_paths(paths, all) && is_ranked(all) && top == all.take(
            if all.len() <= 10 {
                all.len() as int
            } else {
                10
            },
        )
}

/// How the requests of a log compare.
#[derive(Debug)]
pub struct RequestLogReport {
    /// How many requests there are.
    pub parsed: usize,
    /// The pairs that were compared.
    pub pairs: Vec<PairReport>,
    /// The paths that differ most often.
    pub unstable: Vec<(String, usize)>,
}

fn compare_pair(previous: &RequestLogEntry, current: &RequestLogEntry) -> (r: PairReport)
    ensures
        r@ == compared(previous@, current@),
{
    let a = previous.raw.as_str().as_bytes();
    let b = current.raw.as_str().as_bytes();
    let common_prefix_bytes = common_prefix_len(a, b);
    let mut differing_paths: Vec<String> = Vec::new();
    diff_values("$", &previous.value, &current.value, &mut differing_paths);
    proof {
        let none: Seq<Seq<char>> = seq![];
        assert(none + diff_paths("$"@, previous.value@, current.value@) =~= diff_paths(
            "$"@,
            previous.value@,
            current.value@,
        ));
        assert(text::strings_view(Seq::<String>::empty()) =~= none);
    }
    PairReport {
        previous_line: previous.line_number,
        current_line: current.line_number,
        previous_len: a.len(),
        current_len: b.len(),
        common_prefix_bytes,
        differing_paths,
        previous_boundary_preview: boundary_preview(previous.raw.as_str(), common_prefix_bytes),
        current_boundary_preview: boundary_preview(current.raw.as_str(), common_prefix_bytes),
    }
}

proof fn lemma_path_count_zero(paths: Seq<Seq<char>>, p: Seq<char>, n: int)
    requires
        0 <= n <= paths.len(),
        forall|k: int| 0 <= k < n ==> paths[k] != p,
    ensures
        path_count(paths, p, n) == 0,
    decreases n,
{
    if n > 0 {
        lemma_path_count_zero(paths, p, n - 1);
    }
}

proof fn lemma_path_count_prefix(a: Seq<Seq<char>>, b: Seq<Seq<char>>, p: Seq<char>, n: int)
    requires
        0 <= n <= a.len(),
        n <= b.len(),
        forall|k: int| 0 <= k < n ==> a[k] == b[k],
    ensures
        path_count(a, p, n) == path_count(b, p, n),
    decreases n,
{
    if n > 0 {
        lemma_path_count_prefix(a, b, p, n - 1);
    }
}

fn count_path(counts: &mut Vec<(String, usize)>, path: &String, Ghost(paths): Ghost<Seq<Seq<char>>>)
    requires
        counts_paths(paths, counts_view(old(counts)@)),
    ensures
        counts_paths(paths.push(path@), counts_view(final(counts)@)),
{
    let ghost more = paths.push(path@);
    let ghost n = paths.len() as int;
    let ghost before = counts_view(counts@);
    proof {
        assert forall|p: Seq<char>|
            #[trigger] path_count(more, p, n + 1) == if p == path@ && path_count(paths, p, n)
                < usize::MAX {
                path_count(paths, p, n) + 1
            } else {
                path_count(paths, p, n)
            } by {
            lemma_path_count_prefix(more, paths, p, n);
        }
    }
    let mut i: usize = 0;
    while i < counts.len()
        invariant
            i <= counts@.len(),
            *counts == *old(counts),
            before == counts_view(counts@),
            counts_paths(paths, before),
            n == paths.len(),
            more == paths.push(path@),
            forall|p: Seq<char>|
                #[trigger] path_count(more, p, n + 1) == if p == path@ && path_count(paths, p, n)
                    < usize::MAX {
                    path_count(paths, p, n) + 1
                } else {
                    path_count(paths, p, n)
                },
            forall|k: int| 0 <= k < i ==> (#[trigger] before[k]).0 != path@,
        decreases counts@.len() - i,
    {
        if text::str_eq(counts[i].0.as_str(), path.as_str()) {
            let count: usize = counts[i].1;
            let next: usize = count.saturating_add(1);
            let name = counts[i].0.clone();
            counts.set(i, (name, next));
            proof {
                let after = counts_view(counts@);
                assert(before[i as int].0 == path@);
                assert(after =~= before.update(i as int, (path@, next as nat)));
                assert forall|k: int| 0 <= k < after.len() implies (#[trigger] after[k]).1
                    == path_count(more, after[k].0, n + 1) && after[k].1 > 0 by {
                    assert(before[k].1 == path_count(paths, before[k].0, n));
                    if k != i {
                        assert(before[k].0 != before[i as int].0);
                    }
                }
                assert forall|k: int| 0 <= k < more.len() implies has_path(
                    after,
                    #[trigger] more[k],
                ) by {
                    if k < n {
                        assert(has_path(before, paths[k]));
                        let j = choose|j: int|
                            0 <= j < before.len() && (#[trigger] before[j]).0 == paths[k];
                        assert(after[j].0 == more[k]);
                    } else {
                        assert(after[i as int].0 == more[k]);
                    }
                }
            }
            return ;
        }
        i += 1;
    }
    counts.push((path.clone(), 1));
    proof {
        let after = counts_view(counts@);
        assert(after =~= before.push((path@, 1nat)));
        assert(more.len() == n + 1);
        assert forall|k: int| 0 <= k < n implies paths[k] != path@ by {
            assert(has_path(before, paths[k]));
            let j = choose|j: int| 0 <= j < before.len() && (#[trigger] before[j]).0 == paths[k];
            assert(before[j].0 != path@);
        }
        lemma_path_count_zero(paths, path@, n);
        assert forall|k: int| 0 <= k < after.len() implies (#[trigger] after[k]).1 == path_count(
            more,
            after[k].0,
            n + 1,
        ) && after[k].1 > 0 by {
            if k < before.len() {
                assert(before[k].1 == path_count(paths, before[k].0, n));
                assert(after[k] == before[k]);
            }
        }
        assert forall|i: int, j: int| 0 <= i < j < after.len() implies after[i].0
            != after[j].0 by {
            assert(after[i] == before[i]);
            if j < before.len() {
                assert(after[j] == before[j]);
            }
        }
        assert forall|k: int| 0 <= k < more.len() implies has_path(
            after,
            #[trigger] more[k],
        ) by {
            if k < n {
                assert(has_path(before, paths[k]));
                let j = choose|j: int|
                    0 <= j < before.len() && (#[trigger] before[j]).0 == paths[k];
                assert(after[j].0 == more[k]);
            } else {
                assert(after[before.len() as int].0 == more[k]);
            }
        }
    }
}

fn is_ranked_before(a: &(String, usize), b: &(String, usize)) -> (r: bool)
    ensures
        r == ranks_before((a.0@, a.1 as nat), (b.0@, b.1 as nat)),
{
    a.1 > b.1 || (a.1 == b.1 && text::is_before(a.0.as_str(), b.0.as_str()))
}

proof fn lemma_rank_total(a: (Seq<char>, nat), b: (Seq<char>, nat))
    requires
        a.0 != b.0,
        !ranks_before(a, b),
    ensures
        ranks_before(b, a),
{
    assert(a.0.take(0) =~= b.0.take(0));
    text::lemma_before_total(a.0, b.0, 0);
}

proof fn lemma_rank_transitive(a: (Seq<char>, nat), b: (Seq<char>, nat), c: (Seq<char>, nat))
    requires
        ranks_before(a, b),
        ranks_before(b, c),
    ensures
        ranks_before(a, c),
{
    if a.1 == b.1 && b.1 == c.1 {
        text::lemma_before_transitive(a.0, b.0, c.0, 0);
    }
}

/// Whether two lists hold the same elements.
pub open spec fn same_elements(a: Seq<(Seq<char>, nat)>, b: Seq<(Seq<char>, nat)>) -> bool {
    forall|x: (Seq<char>, nat)| a.contains(x) <==> b.contains(x)
}

/// Puts one more path in its place.
fn insert_ranked(
    ranked: &mut Vec<(String, usize)>,
    item: (String, usize),
    Ghost(seen): Ghost<Seq<(Seq<char>, nat)>>,
)
    requires
        is_ranked(counts_view(old(ranked)@)),
        same_elements(counts_view(old(ranked)@), seen),
        forall|k: int| 0 <= k < seen.len() ==> (#[trigger] seen[k]).0 != item.0@,
    ensures
        is_ranked(counts_view(final(ranked)@)),
        same_elements(counts_view(final(ranked)@), seen.push((item.0@, item.1 as nat))),
{
    let ghost before = counts_view(ranked@);
    let ghost x = (item.0@, item.1 as nat);
    let mut i: usize = 0;
    while i < ranked.len() && !is_ranked_before(&item, &ranked[i])
        invariant
            i <= ranked@.len(),
            *ranked == *old(ranked),
            before == counts_view(ranked@),
            x == (item.0@, item.1 as nat),
            forall|k: int| 0 <= k < i ==> !ranks_before(x, #[trigger] before[k]),
        decreases ranked@.len() - i,
    {
        i += 1;
    }
    ranked.insert(i, item);
    proof {
        let after = counts_view(ranked@);
        assert(after =~= before.insert(i as int, x));
        assert forall|k: int| 0 <= k < before.len() implies (#[trigger] before[k]).0 != x.0 by {
            assert(before.contains(before[k]));
            assert(seen.contains(before[k]));
            let j = choose|j: int| 0 <= j < seen.len() && seen[j] == before[k];
            assert(seen[j].0 != x.0);
        }
        assert forall|p: int, q: int| 0 <= p < q < after.len() implies ranks_before(
            after[p],
            after[q],
        ) by {
            if p == i {
                assert(ranks_before(x, before[i as int]));
                if q > i + 1 {
                    assert(ranks_before(before[i as int], before[q - 1]));
                    lemma_rank_transitive(x, before[i as int], before[q - 1]);
                }
                assert(after[q] == before[q - 1]);
            } else if q == i {
                assert(!ranks_before(x, before[p]));
                lemma_rank_total(x, before[p]);
            } else {
                let p0 = if p < i {
                    p
                } else {
                    p - 1
                };
                let q0 = if q < i {
                    q
                } else {
                    q - 1
                };
                assert(after[p] == before[p0] && after[q] == before[q0]);
            }
        }
        let grown = seen.push(x);
        assert forall|y: (Seq<char>, nat)| after.contains(y) <==> grown.contains(y) by {
            if after.contains(y) {
                let k = choose|k: int| 0 <= k < after.len() && after[k] == y;
                if k == i {
                    assert(grown[seen.len() as int] == y);
                } else {
                    let k0 = if k < i {
                        k
                    } else {
                        k - 1
                    };
                    assert(before[k0] == y);
                    assert(seen.contains(y));
                    let j = choose|j: int| 0 <= j < seen.len() && seen[j] == y;
                    assert(grown[j] == y);
                }
            }
            if grown.contains(y) {
                let j = choose|j: int| 0 <= j < grown.len() && grown[j] == y;
                if j == seen.len() {
                    assert(after[i as int] == y);
                } else {
                    assert(seen[j] == y);
                    assert(before.contains(y));
                    let k = choose|k: int| 0 <= k < before.len() && before[k] == y;
                    if k < i {
                        assert(after[k] == y);
                    } else {
                        assert(after[k + 1] == y);
                    }
                }
            }
        }
    }
}

fn count_paths(pairs: &Vec<PairReport>) -> (r: Vec<(String, usize)>)
    ensures
        counts_paths(all_paths(pairs_view(pairs@), pairs@.len() as int), counts_view(r@)),
{
    let ghost views = pairs_view(pairs@);
    let mut counts: Vec<(String, usize)> = Vec::new();
    let mut i: usize = 0;
    while i < pairs.len()
        invariant
            i <= pairs@.len(),
            views == pairs_view(pairs@),
            counts_paths(all_paths(views, i as int), counts_view(counts@)),
        decreases pairs@.len() - i,
    {
        let paths = &pairs[i].differing_paths;
        let ghost done = all_paths(views, i as int);
        let ghost here = text::strings_view(paths@);
        let mut j: usize = 0;
        assert(done + here.take(0) =~= done);
        while j < paths.len()
            invariant
                j <= paths@.len(),
                here == text::strings_view(paths@),
                counts_paths(done + here.take(j as int), counts_view(counts@)),
            decreases paths@.len() - j,
        {
            count_path(&mut counts, &paths[j], Ghost(done + here.take(j as int)));
            assert((done + here.take(j as int)).push(here[j as int]) =~= done + here.take(j + 1));
            j += 1;
        }
        assert(here.take(here.len() as int) =~= here);
        assert(views[i as int].differing_paths == here);
        i += 1;
    }
    counts
}

proof fn lemma_ranking_counts(
    paths: Seq<Seq<char>>,
    counts: Seq<(Seq<char>, nat)>,
    ranked: Seq<(Seq<char>, nat)>,
)
    requires
        counts_paths(paths, counts),
        same_elements(ranked, counts),
        is_ranked(ranked),
    ensures
        counts_paths(paths, ranked),
{
    assert forall|i: int| 0 <= i < ranked.len() implies (#[trigger] ranked[i]).1 == path_count(
        paths,
        ranked[i].0,
        paths.len() as int,
    ) && ranked[i].1 > 0 by {
        assert(ranked.contains(ranked[i]));
        assert(counts.contains(ranked[i]));
        let k = choose|k: int| 0 <= k < counts.len() && counts[k] == ranked[i];
        assert(counts[k].1 > 0);
    }
    assert forall|i: int, j: int| 0 <= i < j < ranked.len() implies ranked[i].0 != ranked[j].0 by {
        if ranked[i].0 == ranked[j].0 {
            assert(ranked[i].1 == ranked[j].1);
            assert(ranks_before(ranked[i], ranked[j]));
            text::lemma_before_irreflexive(ranked[i].0, 0);
        }
    }
    assert forall|k: int| 0 <= k < paths.len() implies has_path(ranked, #[trigger] paths[k]) by {
        assert(has_path(counts, paths[k]));
        let i = choose|i: int| 0 <= i < counts.len() && (#[trigger] counts[i]).0 == paths[k];
        assert(counts.contains(counts[i]));
        assert(ranked.contains(counts[i]));
        let m = choose|m: int| 0 <= m < ranked.len() && ranked[m] == counts[i];
        assert(ranked[m].0 == paths[k]);
    }
}

/// The paths that differ most often, at most ten, the most frequent first.
pub fn most_frequent_paths(pairs: &Vec<PairReport>) -> (r: Vec<(String, usize)>)
    ensures
        are_most_frequent(
            all_paths(pairs_view(pairs@), pairs@.len() as int),
            counts_view(r@),
        ),
{
    let counts = count_paths(pairs);
    let ghost paths = all_paths(pairs_view(pairs@), pairs@.len() as int);
    let ghost all = counts_view(counts@);
    let mut ranked: Vec<(String, usize)> = Vec::new();
    let mut i: usize = 0;
    assert(all.take(0) =~= counts_view(ranked@));
    while i < counts.len()
        invariant
            i <= counts@.len(),
            all == counts_view(counts@),
            counts_paths(paths, all),
            is_ranked(counts_view(ranked@)),
            same_elements(counts_view(ranked@), all.take(i as int)),
        decreases counts@.len() - i,
    {
        let item = (counts[i].0.clone(), counts[i].1);
        proof {
            assert forall|k: int| 0 <= k < i implies (#[trigger] all.take(i as int)[k]).0
                != item.0@ by {
                assert(all[k].0 != all[i as int].0);
            }
        }
        insert_ranked(&mut ranked, item, Ghost(all.take(i as int)));
        assert(all.take(i as int).push(all[i as int]) =~= all.take(i + 1));
        i += 1;
    }
    let ghost full = counts_view(ranked@);
    proof {
        assert(all.take(all.len() as int) =~= all);
        lemma_ranking_counts(paths, all, full);
    }
    if ranked.len() > 10 {
        ranked.truncate(10);
    }
    assert(counts_view(ranked@) =~= full.take(
        if full.len() <= 10 {
            full.len() as int
        } else {
            10
        },
    ));
    ranked
}

/// Compares the first pairs of consecutive requests.
pub fn compare_entries(entries: &Vec<RequestLogEntry>, max_pairs: usize) -> (r: RequestLogReport)
    ensures
        r.parsed == entries@.len(),
        pairs_view(r.pairs@) == pairs_of(entries_view(entries@), max_pairs as nat),
        are_most_frequent(
            all_paths(
                pairs_of(entries_view(entries@), max_pairs as nat),
                pairs_of(entries_view(entries@), max_pairs as nat).len() as int,
            ),
            counts_view(r.unstable@),
        ),
{
    let ghost views = entries_view(entries@);
    let ghost want = pairs_of(views, max_pairs as nat);
    let limit: usize = if max_pairs >= 1 {
        max_pairs
    } else {
        1
    };
    let n: usize = entries.len();
    let mut pairs: Vec<PairReport> = Vec::new();
    let mut i: usize = 0;
    while i < limit && n > 0 && i < n - 1
        invariant
            n == entries@.len(),
            views == entries_view(entries@),
            limit == (if max_pairs >= 1 {
                max_pairs
            } else {
                1
            }),
            i <= pair_count(n as nat, max_pairs as nat),
            pairs@.len() == i,
            forall|k: int|
                0 <= k < i ==> (#[trigger] pairs@[k])@ == compared(views[k], views[k + 1]),
        decreases limit - i,
    {
        pairs.push(compare_pair(&entries[i], &entries[i + 1]));
        i += 1;
    }
    assert(pairs_view(pairs@) =~= want);
    let unstable = most_frequent_paths(&pairs);
    RequestLogReport { parsed: n, pairs, unstable }
}

// --- The report --------------------------------------------------------------------------------

/// What an analysis comes to.
#[derive(Debug)]
pub enum RequestLogAnalysis {
    /// There is nothing to compare; a sentence says why.
    Note(String),
    /// A comparison.
    Report(RequestLogReport),
}

/// Analyses the contents of the log at `path`: a note where there are fewer than two
/// requests, else how the first `max_pairs` pairs compare; the error names the first
/// line that is no JSON.
pub fn analyze_request_log(path: &str, contents: &str, max_pairs: usize) -> (r: Result<
    RequestLogAnalysis,
    String,
>)
    ensures
        match log_entries(contents@) {
            Err((line, why)) => r matches Err(e) && e@ == "failed to parse JSON on line "@
                + text::decimal(line as nat) + " of "@ + path@ + ": "@ + why,
            Ok(entries) => if entries.len() == 0 {
                r matches Ok(RequestLogAnalysis::Note(note)) && note@ == path@ + " is empty"@
            } else if entries.len() == 1 {
                r matches Ok(RequestLogAnalysis::Note(note)) && note@ == path@
                    + " contains only one request; collect at least two requests to diff prefixes"@
            } else {
                r matches Ok(RequestLogAnalysis::Report(report)) && report.parsed
                    == entries.len() && pairs_view(report.pairs@) == pairs_of(
                    entries,
                    max_pairs as nat,
                ) && are_most_frequent(
                    all_paths(
                        pairs_of(entries, max_pairs as nat),
                        pairs_of(entries, max_pairs as nat).len() as int,
                    ),
                    counts_view(report.unstable@),
                )
            },
        },
{
    match read_entries(contents) {
        Err((line, why)) => {
            let mut message = "failed to parse JSON on line ".to_owned();
            message.append(text::decimal_of(line as u128).as_str());
            message.append(" of ");
            message.append(path);
            message.append(": ");
            message.append(why.as_str());
            Err(message)
        },
        Ok(entries) => {
            if entries.len() == 0 {
                Ok(RequestLogAnalysis::Note(text::joined(path, " is empty")))
            } else if entries.len() == 1 {
                Ok(
                    RequestLogAnalysis::Note(
                        text::joined(
                            path,
                            " contains only one request; collect at least two requests to diff prefixes",
                        ),
                    ),
                )
            } else {
                Ok(RequestLogAnalysis::Report(compare_entries(&entries, max_pairs)))
            }
        },
    }
}

/// The first of the first `n` pairs that shares the fewest bytes.
pub open spec fn worst_pair(pairs: Seq<PairView>, n: int) -> int
    decreases n,
{
    if n <= 1 {
        0
    } else {
        let w = worst_pair(pairs, n - 1);
        if pairs[n - 1].common_prefix_bytes < pairs[w].common_prefix_bytes {
            n - 1
        } else {
            w
        }
    }
}

/// `a -> b`.
pub open spec fn arrow(p: PairView) -> Seq<char> {
    text::decimal(p.previous_line as nat) + " -> "@ + text::decimal(p.current_line as nat)
}

/// The head of a report.
pub open spec fn head_text(path: Seq<char>, parsed: nat, pairs: Seq<PairView>) -> Seq<char> {
    "request log: "@ + path + "\nparsed "@ + text::decimal(parsed) + " request(s); reporting "@
        + text::decimal(pairs.len()) + " consecutive pair(s)\n"@
}

/// The line on the pair that shares the fewest bytes.
pub open spec fn worst_text(pairs: Seq<PairView>) -> Seq<char> {
    if pairs.len() == 0 {
        ""@
    } else {
        let w = pairs[worst_pair(pairs, pairs.len() as int)];
        "worst prefix stability: lines "@ + arrow(w) + " share "@ + text::decimal(
            w.common_prefix_bytes as nat,
        ) + " byte(s)\n"@
    }
}

/// The line on where a pair differs.
pub open spec fn changed_text(p: PairView) -> Seq<char> {
    if p.differing_paths.len() == 0 {
        "  changed paths: none (byte diff likely due to key ordering/formatting)\n"@
    } else {
        "  changed paths ("@ + text::decimal(p.differing_paths.len()) + "): "@ + text::join(
            p.differing_paths,
            ", "@,
        ) + "\n"@
    }
}

/// The lines on a pair, with the shares of its two requests in percent.
pub open spec fn pair_text(p: PairView, of_previous: Seq<char>, of_current: Seq<char>) -> Seq<
    char,
> {
    "\nlines "@ + arrow(p) + ": common prefix "@ + text::decimal(p.common_prefix_bytes as nat)
        + " byte(s) ("@ + of_previous + "% of previous, "@ + of_current + "% of current)\n"@
        + changed_text(p) + "  previous boundary: "@ + p.previous_boundary_preview
        + "\n  current boundary:  "@ + p.current_boundary_preview + "\n"@
}

/// The lines on the first `n` pairs.
pub open spec fn pairs_text(
    pairs: Seq<PairView>,
    percents: Seq<(String, String)>,
    n: int,
) -> Seq<char>
    decreases n,
{
    if n <= 0 {
        seq![]
    } else {
        pairs_text(pairs, percents, n - 1) + pair_text(
            pairs[n - 1],
            percents[n - 1].0@,
            percents[n - 1].1@,
        )
    }
}

/// The lines on the first `n` paths.
pub open spec fn paths_text(top: Seq<(Seq<char>, nat)>, n: int) -> Seq<char>
    decreases n,
{
    if n <= 0 {
        seq![]
    } else {
        paths_text(top, n - 1) + "  "@ + top[n - 1].0 + ": "@ + text::decimal(top[n - 1].1)
            + " pair(s)\n"@
    }
}

/// The lines on the paths that differ most often.
pub open spec fn unstable_text(top: Seq<(Seq<char>, nat)>) -> Seq<char> {
    if top.len() == 0 {
        ""@
    } else {
        "\nmost frequent unstable paths:\n"@ + paths_text(top, top.len() as int)
    }
}

/// The text of a report.
pub open spec fn report_text(
    path: Seq<char>,
    report: RequestLogReport,
    percents: Seq<(String, String)>,
) -> Seq<char> {
    let pairs = pairs_view(report.pairs@);
    head_text(path, report.parsed as nat, pairs) + worst_text(pairs) + pairs_text(
        pairs,
        percents,
        pairs.len() as int,
    ) + unstable_text(counts_view(report.unstable@))
}

fn worst_index(pairs: &Vec<PairReport>) -> (r: usize)
    requires
        pairs@.len() > 0,
    ensures
        r == worst_pair(pairs_view(pairs@), pairs@.len() as int),
        r < pairs@.len(),
{
    let ghost views = pairs_view(pairs@);
    let mut w: usize = 0;
    let mut i: usize = 1;
    while i < pairs.len()
        invariant
            1 <= i <= pairs@.len(),
            w < i,
            views == pairs_view(pairs@),
            w == worst_pair(views, i as int),
        decreases pairs@.len() - i,
    {
        if pairs[i].common_prefix_bytes < pairs[w].common_prefix_bytes {
            w = i;
        }
        i += 1;
    }
    w
}

fn write_arrow(out: &mut String, pair: &PairReport)
    ensures
        final(out)@ == old(out)@ + arrow(pair@),
{
    let ghost before = out@;
    out.append(text::decimal_of(pair.previous_line as u128).as_str());
    out.append(" -> ");
    out.append(text::decimal_of(pair.current_line as u128).as_str());
    assert(out@ =~= before + arrow(pair@));
}

fn write_pair(out: &mut String, pair: &PairReport, of_previous: &str, of_current: &str)
    ensures
        final(out)@ == old(out)@ + pair_text(pair@, of_previous@, of_current@),
{
    let ghost before = out@;
    let mut lines = "\nlines ".to_owned();
    write_arrow(&mut lines, pair);
    lines.append(": common prefix ");
    lines.append(text::decimal_of(pair.common_prefix_bytes as u128).as_str());
    lines.append(" byte(s) (");
    lines.append(of_previous);
    lines.append("% of previous, ");
    lines.append(of_current);
    lines.append("% of current)\n");
    let mut changed = "".to_owned();
    if pair.differing_paths.len() == 0 {
        changed = "  changed paths: none (byte diff likely due to key ordering/formatting)\n".to_owned();
    } else {
        changed = "  changed paths (".to_owned();
        changed.append(text::decimal_of(pair.differing_paths.len() as u128).as_str());
        changed.append("): ");
        changed.append(text::join_strings(&pair.differing_paths, ", ").as_str());
        changed.append("\n");
    }
    assert(changed@ == changed_text(pair@));
    lines.append(changed.as_str());
    lines.append("  previous boundary: ");
    lines.append(pair.previous_boundary_preview.as_str());
    lines.append("\n  current boundary:  ");
    lines.append(pair.current_boundary_preview.as_str());
    lines.append("\n");
    assert(lines@ == pair_text(pair@, of_previous@, of_current@));
    out.append(lines.as_str());
}

fn write_unstable(out: &mut String, unstable: &Vec<(String, usize)>)
    ensures
        final(out)@ == old(out)@ + unstable_text(counts_view(unstable@)),
{
    let ghost before = out@;
    let ghost top = counts_view(unstable@);
    if unstable.len() == 0 {
        out.append("");
        return ;
    }
    let mut lines = "".to_owned();
    proof {
        reveal_strlit("");
        assert(lines@ =~= paths_text(top, 0));
    }
    let mut i: usize = 0;
    while i < unstable.len()
        invariant
            i <= unstable@.len(),
            top == counts_view(unstable@),
            lines@ == paths_text(top, i as int),
        decreases unstable@.len() - i,
    {
        lines.append("  ");
        lines.append(unstable[i].0.as_str());
        lines.append(": ");
        lines.append(text::decimal_of(unstable[i].1 as u128).as_str());
        lines.append(" pair(s)\n");
        i += 1;
    }
    out.append("\nmost frequent unstable paths:\n");
    out.append(lines.as_str());
    assert(out@ =~= before + unstable_text(top));
}

/// Writes a report on the log at `path`. `percents` holds, for each pair, what share
/// of its first and its second request the common prefix is, in percent.
pub fn render_report(
    path: &str,
    report: &RequestLogReport,
    percents: &Vec<(String, String)>,
) -> (r: String)
    requires
        percents@.len() == report.pairs@.len(),
    ensures
        r@ == report_text(path@, *report, percents@),
{
    let ghost views = pairs_view(report.pairs@);
    let mut out = "request log: ".to_owned();
    out.append(path);
    out.append("\nparsed ");
    out.append(text::decimal_of(report.parsed as u128).as_str());
    out.append(" request(s); reporting ");
    out.append(text::decimal_of(report.pairs.len() as u128).as_str());
    out.append(" consecutive pair(s)\n");
    let ghost head = out@;
    if report.pairs.len() > 0 {
        let w = worst_index(&report.pairs);
        let mut line = "worst prefix stability: lines ".to_owned();
        write_arrow(&mut line, &report.pairs[w]);
        line.append(" share ");
        line.append(text::decimal_of(report.pairs[w].common_prefix_bytes as u128).as_str());
        line.append(" byte(s)\n");
        assert(line@ == worst_text(views));
        out.append(line.as_str());
    } else {
        out.append("");
    }
    let ghost start = out@;
    assert(start == head_text(path@, report.parsed as nat, views) + worst_text(views));
    let mut i: usize = 0;
    assert(start + pairs_text(views, percents@, 0) =~= start);
    while i < report.pairs.len()
        invariant
            i <= report.pairs@.len(),
            percents@.len() == report.pairs@.len(),
            views == pairs_view(report.pairs@),
            out@ == start + pairs_text(views, percents@, i as int),
        decreases report.pairs@.len() - i,
    {
        let ghost so_far = pairs_text(views, percents@, i as int);
        write_pair(
            &mut out,
            &report.pairs[i],
            percents[i].0.as_str(),
            percents[i].1.as_str(),
        );
        assert(start + so_far + pair_text(
            views[i as int],
            percents@[i as int].0@,
            percents@[i as int].1@,
        ) =~= start + pairs_text(views, percents@, i + 1));
        i += 1;
    }
    write_unstable(&mut out, &report.unstable);
    out
}

} // verus!
