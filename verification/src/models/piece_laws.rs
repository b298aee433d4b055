//! What a piece of an answer adds, where to stop, and what stands beside typed fields.
use vstd::prelude::*;

use crate::error;
use crate::json;
use crate::json::JsonView;
use crate::models::chat;
use crate::models::chat::ChatDelta;
use crate::models::payloads;
use crate::models::responses::TextControls;
use crate::models::responses::TextFormat;
use crate::models::wire;
use crate::models::written;
use crate::text;

verus! {

broadcast use written::group_members;

/// Whether a text is missing or empty.
pub open spec fn lacks_text(t: Option<Seq<char>>) -> bool {
    t matches Some(s) ==> s.len() == 0
}

/// Whether a member is a text that is not empty.
pub open spec fn has_text(m: Seq<(Seq<char>, JsonView)>, key: Seq<char>) -> bool {
    json::member(m, key) matches Some(JsonView::Text(t)) && t.len() > 0
}

/// The reasoning is the first text that is not empty: the typed field, and then the others in
/// the order in which they are looked at.
pub proof fn law_first_reasoning_counts(
    content: Option<Seq<char>>,
    extra: Seq<(Seq<char>, JsonView)>,
)
    ensures
        !lacks_text(content) ==> chat::reasoning_text(content, extra) == content,
        lacks_text(content) && chat::reasoning_under(extra, "reasoning"@) is Some
            ==> chat::reasoning_text(content, extra) == chat::reasoning_under(extra, "reasoning"@),
        lacks_text(content) && chat::reasoning_under(extra, "reasoning"@) is None
            && chat::reasoning_under(extra, "reasoning_text"@) is Some
            ==> chat::reasoning_text(content, extra)
                == chat::reasoning_under(extra, "reasoning_text"@),
        lacks_text(content) && chat::reasoning_under(extra, "reasoning"@) is None
            && chat::reasoning_under(extra, "reasoning_text"@) is None
            && chat::reasoning_under(extra, "reasoning_delta"@) is Some
            ==> chat::reasoning_text(content, extra)
                == chat::reasoning_under(extra, "reasoning_delta"@),
        lacks_text(content) && chat::reasoning_under(extra, "reasoning"@) is None
            && chat::reasoning_under(extra, "reasoning_text"@) is None
            && chat::reasoning_under(extra, "reasoning_delta"@) is None
            && chat::reasoning_under(extra, "reasoning_summary"@) is Some
            ==> chat::reasoning_text(content, extra)
                == chat::reasoning_under(extra, "reasoning_summary"@),
        lacks_text(content) && chat::reasoning_under(extra, "reasoning"@) is None
            && chat::reasoning_under(extra, "reasoning_text"@) is None
            && chat::reasoning_under(extra, "reasoning_delta"@) is None
            && chat::reasoning_under(extra, "reasoning_summary"@) is None
            && chat::reasoning_under(extra, "thinking"@) is Some
            ==> chat::reasoning_text(content, extra) == chat::reasoning_under(extra, "thinking"@),
        lacks_text(content) && chat::reasoning_under(extra, "reasoning"@) is None
            && chat::reasoning_under(extra, "reasoning_text"@) is None
            && chat::reasoning_under(extra, "reasoning_delta"@) is None
            && chat::reasoning_under(extra, "reasoning_summary"@) is None
            && chat::reasoning_under(extra, "thinking"@) is None
            && chat::reasoning_under(extra, "thinking_content"@) is Some
            ==> chat::reasoning_text(content, extra)
                == chat::reasoning_under(extra, "thinking_content"@),
        lacks_text(content) && chat::reasoning_under(extra, "reasoning"@) is None
            && chat::reasoning_under(extra, "reasoning_text"@) is None
            && chat::reasoning_under(extra, "reasoning_delta"@) is None
            && chat::reasoning_under(extra, "reasoning_summary"@) is None
            && chat::reasoning_under(extra, "thinking"@) is None
            && chat::reasoning_under(extra, "thinking_content"@) is None
            ==> chat::reasoning_text(content, extra) is None,
{
}

/// The reasoning under a key is its text, or that of an object; an empty one is none.
pub proof fn law_reasoning_under_a_key(extra: Seq<(Seq<char>, JsonView)>, key: Seq<char>)
    ensures
        has_text(extra, key) ==> json::member(extra, key) == Some(
            JsonView::Text(chat::reasoning_under(extra, key)->0),
        ) && chat::reasoning_under(extra, key) is Some,
        json::member(extra, key) matches Some(JsonView::Object(m)) ==> chat::reasoning_under(
            extra,
            key,
        ) == chat::object_reasoning(m),
        !has_text(extra, key) && !(json::member(extra, key) matches Some(JsonView::Object(_)))
            ==> chat::reasoning_under(extra, key) is None,
{
}

/// The reasoning of an object is its first text that is not empty, in the order in which they
/// are looked at.
pub proof fn law_first_text_of_an_object_counts(m: Seq<(Seq<char>, JsonView)>)
    ensures
        has_text(m, "text"@)
            ==> json::member(m, "text"@) == Some(JsonView::Text(chat::object_reasoning(m)->0))
                && chat::object_reasoning(m) is Some,
        !has_text(m, "text"@) && has_text(m, "delta"@)
            ==> json::member(m, "delta"@) == Some(JsonView::Text(chat::object_reasoning(m)->0))
                && chat::object_reasoning(m) is Some,
        !has_text(m, "text"@) && !has_text(m, "delta"@) && has_text(m, "content"@)
            ==> json::member(m, "content"@) == Some(JsonView::Text(chat::object_reasoning(m)->0))
                && chat::object_reasoning(m) is Some,
        !has_text(m, "text"@) && !has_text(m, "delta"@) && !has_text(m, "content"@)
            && has_text(m, "summary"@)
            ==> json::member(m, "summary"@) == Some(JsonView::Text(chat::object_reasoning(m)->0))
                && chat::object_reasoning(m) is Some,
        !has_text(m, "text"@) && !has_text(m, "delta"@) && !has_text(m, "content"@)
            && !has_text(m, "summary"@) && has_text(m, "thinking"@)
            ==> json::member(m, "thinking"@) == Some(JsonView::Text(chat::object_reasoning(m)->0))
                && chat::object_reasoning(m) is Some,
        !has_text(m, "text"@) && !has_text(m, "delta"@) && !has_text(m, "content"@)
            && !has_text(m, "summary"@) && !has_text(m, "thinking"@)
            ==> chat::object_reasoning(m) is None,
{
}

/// A field of the object under `thinking` is its text.
pub proof fn law_field_of_thinking(
    extra: Seq<(Seq<char>, JsonView)>,
    m: Seq<(Seq<char>, JsonView)>,
    field: Seq<char>,
    t: Seq<char>,
)
    ensures
        json::member(extra, "thinking"@) == Some(JsonView::Object(m)) ==> (chat::thinking_field(
            extra,
            field,
        ) == Some(t) <==> json::member(m, field) == Some(JsonView::Text(t))),
        !(json::member(extra, "thinking"@) matches Some(JsonView::Object(_)))
            ==> chat::thinking_field(extra, field) is None,
{
}

/// The keys of a piece are those of its fields that are there, and of its other members that
/// are not `null`.
pub proof fn law_keys_of_a_delta(d: ChatDelta, key: Seq<char>)
    ensures
        d.present_keys().contains(key) <==> (d.content is Some && key == "content"@) || (
        d.reasoning_content is Some && key == "reasoning_content"@) || (d.tool_calls is Some && key
            == "tool_calls"@) || (d.function_call is Some && key == "function_call"@) || (
        d.refusal is Some && key == "refusal"@) || (exists|i: int|
            0 <= i < d.extra@.len() && (#[trigger] d.extra@[i]).0 == key
                && !(d.extra@[i].1 is Null)),
{
    let a = chat::with_key(Seq::empty(), d.content is Some, "content"@);
    let b = chat::with_key(a, d.reasoning_content is Some, "reasoning_content"@);
    let c = chat::with_key(b, d.tool_calls is Some, "tool_calls"@);
    let e = chat::with_key(c, d.function_call is Some, "function_call"@);
    let f = chat::with_key(e, d.refusal is Some, "refusal"@);
    let n = d.extra@.len() as int;
    lemma_with_key(Seq::empty(), d.content is Some, "content"@, key);
    lemma_with_key(a, d.reasoning_content is Some, "reasoning_content"@, key);
    lemma_with_key(b, d.tool_calls is Some, "tool_calls"@, key);
    lemma_with_key(c, d.function_call is Some, "function_call"@, key);
    lemma_with_key(e, d.refusal is Some, "refusal"@, key);
    lemma_non_null_keys(d.extra@, n, key);
    lemma_joined(f, chat::non_null_keys(d.extra@, n), key);
}

proof fn lemma_with_key(keys: Seq<Seq<char>>, there: bool, k: Seq<char>, key: Seq<char>)
    ensures
        chat::with_key(keys, there, k).contains(key) <==> keys.contains(key) || (there && k == key),
{
    if there {
        lemma_pushed(keys, k, key);
    }
}

proof fn lemma_pushed(s: Seq<Seq<char>>, x: Seq<char>, e: Seq<char>)
    ensures
        s.push(x).contains(e) <==> s.contains(e) || x == e,
{
    if s.contains(e) {
        let k = choose|k: int| 0 <= k < s.len() && s[k] == e;
        assert(s.push(x)[k] == e);
    }
    assert(s.push(x)[s.len() as int] == x);
    if s.push(x).contains(e) && x != e {
        let k = choose|k: int| 0 <= k < s.push(x).len() && s.push(x)[k] == e;
        assert(s[k] == e);
    }
}

proof fn lemma_joined(a: Seq<Seq<char>>, b: Seq<Seq<char>>, e: Seq<char>)
    ensures
        (a + b).contains(e) <==> a.contains(e) || b.contains(e),
{
    if a.contains(e) {
        let k = choose|k: int| 0 <= k < a.len() && a[k] == e;
        assert((a + b)[k] == e);
    }
    if b.contains(e) {
        let k = choose|k: int| 0 <= k < b.len() && b[k] == e;
        assert((a + b)[a.len() + k] == e);
    }
    if (a + b).contains(e) {
        let k = choose|k: int| 0 <= k < (a + b).len() && (a + b)[k] == e;
        if k < a.len() {
            assert(a[k] == e);
        } else {
            assert(b[k - a.len()] == e);
        }
    }
}

proof fn lemma_non_null_keys(m: Seq<(Seq<char>, JsonView)>, n: int, key: Seq<char>)
    requires
        0 <= n <= m.len(),
    ensures
        chat::non_null_keys(m, n).contains(key) <==> exists|i: int|
            0 <= i < n && (#[trigger] m[i]).0 == key && !(m[i].1 is Null),
    decreases n,
{
    if n > 0 {
        lemma_non_null_keys(m, n - 1, key);
        if !(m[n - 1].1 is Null) {
            lemma_pushed(chat::non_null_keys(m, n - 1), m[n - 1].0, key);
        }
        if chat::non_null_keys(m, n).contains(key) && !chat::non_null_keys(m, n - 1).contains(key) {
            assert(m[n - 1].0 == key);
        }
    }
}

/// Stop sequences that count are those that are not empty, and there are one to four of them;
/// with none there is no place to stop, and more are refused.
pub proof fn law_stops_that_count(texts: Seq<Seq<char>>, t: Seq<char>)
    ensures
        chat::stops(None) == Ok::<Option<Seq<Seq<char>>>, error::ErrorView>(None),
        chat::stops(Some(texts)) matches Ok(Some(kept)) ==> 1 <= kept.len() <= 4 && (kept.contains(
            t,
        ) <==> texts.contains(t) && t.len() > 0),
        chat::stops(Some(texts)) matches Ok(None) ==> (texts.contains(t) ==> t.len() == 0),
        chat::stops(Some(texts)) matches Err(e) ==> texts.len() > 4 && e.status == 400,
{
    lemma_non_empty(texts, texts.len() as int, t);
    assert(texts.take(texts.len() as int) =~= texts);
    let kept = chat::non_empty(texts, texts.len() as int);
    if kept.len() == 0 {
        assert(!kept.contains(t));
    }
}

/// Stop sequences none of which is empty stay as they are, up to four of them; more are
/// refused, and their number is told.
pub proof fn law_full_stops_stay(texts: Seq<Seq<char>>)
    requires
        texts.len() > 0,
        forall|i: int| 0 <= i < texts.len() ==> (#[trigger] texts[i]).len() > 0,
    ensures
        texts.len() <= 4 ==> chat::stops(Some(texts)) == Ok::<
            Option<Seq<Seq<char>>>,
            error::ErrorView,
        >(Some(texts)),
        texts.len() > 4 ==> (chat::stops(Some(texts)) matches Err(e) && e.message
            == "stop supports at most 4 sequences, got "@ + text::decimal(texts.len())),
{
    lemma_all_full(texts, texts.len() as int);
    assert(texts.take(texts.len() as int) =~= texts);
}

proof fn lemma_all_full(texts: Seq<Seq<char>>, n: int)
    requires
        0 <= n <= texts.len(),
        forall|i: int| 0 <= i < texts.len() ==> (#[trigger] texts[i]).len() > 0,
    ensures
        chat::non_empty(texts, n) == texts.take(n),
    decreases n,
{
    if n > 0 {
        lemma_all_full(texts, n - 1);
        assert(texts[n - 1].len() > 0);
        assert(texts.take(n) =~= texts.take(n - 1).push(texts[n - 1]));
    }
}

proof fn lemma_non_empty(texts: Seq<Seq<char>>, n: int, t: Seq<char>)
    requires
        0 <= n <= texts.len(),
    ensures
        chat::non_empty(texts, n).contains(t) <==> texts.take(n).contains(t) && t.len() > 0,
        chat::non_empty(texts, n).len() <= n,
    decreases n,
{
    if n > 0 {
        lemma_non_empty(texts, n - 1, t);
        assert(texts.take(n) =~= texts.take(n - 1).push(texts[n - 1]));
        lemma_pushed(texts.take(n - 1), texts[n - 1], t);
        lemma_pushed(chat::non_empty(texts, n - 1), texts[n - 1], t);
    }
}

/// Beside the typed fields stand the other ones, and a field that is not among them is what it
/// is as a typed one.
pub proof fn law_other_fields_stand_beside(
    m: Seq<(Seq<char>, JsonView)>,
    extra: Seq<(Seq<char>, JsonView)>,
    key: Seq<char>,
    n: int,
)
    requires
        0 <= n <= extra.len(),
    ensures
        (forall|i: int| 0 <= i < n ==> (#[trigger] extra[i]).0 != key) ==> json::member(
            chat::with_fields(m, extra, n),
            key,
        ) == json::member(m, key),
        forall|i: int|
            0 <= i < n && (#[trigger] extra[i]).0 == key && (forall|j: int|
                i < j < n ==> (#[trigger] extra[j]).0 != key) ==> json::member(
                chat::with_fields(m, extra, n),
                key,
            ) == Some(extra[i].1),
    decreases n,
{
    if n > 0 {
        law_other_fields_stand_beside(m, extra, key, n - 1);
        assert(extra[n - 1].0 == extra[n - 1].0);
    }
}

/// An event has its type and the members of its payload.
pub proof fn law_payload_stands_beside(
    m: Seq<(Seq<char>, JsonView)>,
    payload: Seq<(Seq<char>, JsonView)>,
    key: Seq<char>,
    n: int,
)
    requires
        0 <= n <= payload.len(),
    ensures
        (forall|i: int| 0 <= i < n ==> (#[trigger] payload[i]).0 != key) ==> json::member(
            payloads::with_payload(m, payload, n),
            key,
        ) == json::member(m, key),
        forall|i: int|
            0 <= i < n && (#[trigger] payload[i]).0 == key && (forall|j: int|
                i < j < n ==> (#[trigger] payload[j]).0 != key) ==> json::member(
                payloads::with_payload(m, payload, n),
                key,
            ) == Some(payload[i].1),
    decreases n,
{
    if n > 0 {
        law_payload_stands_beside(m, payload, key, n - 1);
        assert(payload[n - 1].0 == payload[n - 1].0);
    }
}

/// An event whose payload names no type has its own.
pub proof fn law_event_has_its_type(kind: Seq<char>, payload: Seq<(Seq<char>, JsonView)>)
    requires
        forall|i: int| 0 <= i < payload.len() ==> (#[trigger] payload[i]).0 != "type"@,
    ensures
        payloads::envelope_json(kind, payload) matches JsonView::Object(o) && json::member(
            o,
            "type"@,
        ) == Some(JsonView::Text(kind)),
{
    law_payload_stands_beside(
        json::tagged(kind),
        payload,
        "type"@,
        payload.len() as int,
    );
}

/// A format of the text has its type, and one with a schema the members of that; another type
/// is refused.
pub proof fn law_text_format_members(x: TextFormat)
    ensures
        wire::text_format_json(x) is Err <==> x.kind@ != "text"@ && x.kind@ != "json_object"@
            && x.kind@ != "json_schema"@,
        wire::text_format_json(x) matches Err(e) ==> e == "unsupported text format type: "@
            + x.kind@,
        wire::text_format_json(x) matches Ok(v) ==> (v matches JsonView::Object(m) && json::member(
            m,
            "type"@,
        ) == Some(JsonView::Text(x.kind@)) && json::member(m, "name"@) == (if x.kind@
            == "json_schema"@ {
            Some(JsonView::Text(x.name@))
        } else {
            None
        }) && json::member(m, "schema"@) == (if x.kind@ == "json_schema"@ {
            Some(x.schema@)
        } else {
            None
        }) && json::member(m, "strict"@) == (if x.kind@ == "json_schema"@ {
            Some(JsonView::Bool(x.strict))
        } else {
            None
        }) && json::member(m, "description"@) == (if x.kind@ == "json_schema"@ {
            written::opt_text(x.description)
        } else {
            None
        })),
{
    reveal_strlit("type");
    reveal_strlit("name");
    reveal_strlit("schema");
    reveal_strlit("strict");
    reveal_strlit("description");
    assert("type"@.len() == 4);
    assert("name"@.len() == 4);
    assert("schema"@.len() == 6);
    assert("strict"@.len() == 6);
    assert("description"@.len() == 11);
    assert("type"@[0] != "name"@[0]);
    assert("schema"@[1] != "strict"@[1]);
    reveal_strlit("text");
    reveal_strlit("json_object");
    reveal_strlit("json_schema");
    assert("text"@.len() == 4);
    assert("json_object"@.len() == 11);
    assert("json_schema"@.len() == 11);
    assert("json_object"@[5] != "json_schema"@[5]);
}

/// What is asked of the text has how much to say and the format, each `null` where it is not
/// asked.
pub proof fn law_text_controls_members(x: TextControls)
    ensures
        wire::text_controls_json(x) is Err <==> (x.format is Some && wire::text_format_json(
            x.format->0,
        ) is Err),
        wire::text_controls_json(x) matches Ok(v) ==> (v matches JsonView::Object(m)
            && json::member(m, "verbosity"@) == Some(
            match x.verbosity {
                Some(t) => JsonView::Text(t@),
                None => JsonView::Null,
            },
        ) && json::member(m, "format"@) == Some(
            match x.format {
                Some(f) => wire::text_format_json(f)->Ok_0,
                None => JsonView::Null,
            },
        )),
{
    reveal_strlit("verbosity");
    reveal_strlit("format");
    assert("verbosity"@.len() == 9);
    assert("format"@.len() == 6);
}

} // verus!
