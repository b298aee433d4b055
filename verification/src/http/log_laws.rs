//! What the log tells of a request: which of its fields, and what of them.
use vstd::prelude::*;

use crate::http::api_log;
use crate::http::api_log::ContentCount;
use crate::http::body_log;
use crate::http::tally;
use crate::json;
use crate::json::JsonView;
use crate::redaction;
use crate::text;
use crate::text_laws;

verus! {

// --- Single values -----------------------------------------------------------------------------

/// A text is logged on one line: its first 160 characters, each as it is unless it is a
/// control code, which is a blank; and dots where there are more.
pub proof fn law_logged_text_is_the_text(t: Seq<char>, i: int)
    ensures
        t.len() <= 160 ==> api_log::compact(t).len() == t.len(),
        t.len() > 160 ==> api_log::compact(t).len() == 163 && api_log::compact(t).skip(160)
            == "..."@,
        0 <= i < t.len() && i < 160 ==> api_log::compact(t)[i] == (if (t[i] as u32) < 32 || (127
            <= (t[i] as u32) && (t[i] as u32) < 160) {
            ' '
        } else {
            t[i]
        }),
{
    reveal_strlit("...");
    if t.len() > 160 {
        let head = api_log::blanked(t, 160);
        assert(api_log::compact(t) == head + "..."@);
        assert(api_log::compact(t).skip(160) =~= "..."@);
        if 0 <= i < 160 {
            assert(head[i] == api_log::compact(t)[i]);
            assert(t.take(160)[i] == t[i]);
        }
    } else {
        assert(t.take(t.len() as int) =~= t);
    }
}

/// A whole number is logged in decimal, and a flag by its name.
pub proof fn law_scalars_are_logged_as_they_are(n: u64, b: bool, t: Seq<char>)
    ensures
        api_log::scalar_text(
            JsonView::Number(json::NumberView::Unsigned(n)),
        ) matches Some(s) && text_laws::decimal_value(s) == n,
        api_log::scalar_text(JsonView::Bool(true)) == Some("true"@),
        api_log::scalar_text(JsonView::Bool(false)) == Some("false"@),
        api_log::scalar_text(JsonView::Null) == Some("null"@),
        api_log::scalar_text(JsonView::Text(t)) == Some(api_log::compact(t)),
{
    text_laws::law_decimal_is_the_number(n as nat);
}

// --- Counting ----------------------------------------------------------------------------------

/// How often a key was counted.
pub open spec fn counted(m: Seq<(Seq<char>, usize)>, key: Seq<char>, n: int) -> int
    decreases n,
{
    if n <= 0 || n > m.len() {
        0
    } else if m[n - 1].0 == key {
        m[n - 1].1 as int
    } else {
        counted(m, key, n - 1)
    }
}

/// The keys of counts ascend.
pub open spec fn ascend(m: Seq<(Seq<char>, usize)>) -> bool {
    forall|i: int, j: int| 0 <= i < j < m.len() ==> text::before(m[i].0, m[j].0)
}

proof fn lemma_counted(m: Seq<(Seq<char>, usize)>, key: Seq<char>, n: int, at: int)
    requires
        ascend(m),
        0 <= at < n <= m.len(),
        m[at].0 == key,
    ensures
        counted(m, key, n) == m[at].1,
    decreases n,
{
    if at < n - 1 {
        if m[n - 1].0 == key {
            assert(text::before(m[at].0, m[n - 1].0));
            text::lemma_before_irreflexive(key, 0);
        }
        lemma_counted(m, key, n - 1, at);
    }
}

proof fn lemma_not_counted(m: Seq<(Seq<char>, usize)>, key: Seq<char>, n: int)
    requires
        0 <= n <= m.len(),
        forall|i: int| 0 <= i < n ==> (#[trigger] m[i]).0 != key,
    ensures
        counted(m, key, n) == 0,
    decreases n,
{
    if n > 0 {
        lemma_not_counted(m, key, n - 1);
    }
}

proof fn lemma_bumped_from(m: Seq<(Seq<char>, usize)>, key: Seq<char>, i: int) -> (at: int)
    requires
        0 <= i <= m.len(),
        forall|k: int| 0 <= k < i ==> text::before((#[trigger] m[k]).0, key),
    ensures
        i <= at <= m.len(),
        forall|k: int| 0 <= k < at ==> text::before((#[trigger] m[k]).0, key),
        at < m.len() && m[at].0 == key ==> tally::bumped_from(m, key, i) == m.update(
            at,
            (key, tally::next(m[at].1)),
        ),
        !(at < m.len() && m[at].0 == key) ==> tally::bumped_from(m, key, i) == m.insert(
            at,
            (key, 1usize),
        ) && (at < m.len() ==> text::before(key, m[at].0)),
    decreases m.len() - i,
{
    if i == m.len() {
        assert(m.push((key, 1usize)) =~= m.insert(i, (key, 1usize)));
        i
    } else if m[i].0 == key || text::before(key, m[i].0) {
        i
    } else {
        assert(m[i].0.take(0) =~= key.take(0));
        text::lemma_before_total(m[i].0, key, 0);
        lemma_bumped_from(m, key, i + 1)
    }
}

/// Counting a key adds one to its count, as far as the type goes, and leaves the others; the
/// keys stay in order.
pub proof fn law_counting_adds_one(
    m: Seq<(Seq<char>, usize)>,
    key: Seq<char>,
    other: Seq<char>,
)
    requires
        ascend(m),
        other != key,
        counted(m, key, m.len() as int) < usize::MAX,
    ensures
        counted(tally::bumped(m, key), key, tally::bumped(m, key).len() as int) == counted(
            m,
            key,
            m.len() as int,
        ) + 1,
        counted(tally::bumped(m, key), other, tally::bumped(m, key).len() as int) == counted(
            m,
            other,
            m.len() as int,
        ),
        ascend(tally::bumped(m, key)),
{
    let at = lemma_bumped_from(m, key, 0);
    let b = tally::bumped(m, key);
    let replaced = at < m.len() && m[at].0 == key;
    text::lemma_before_irreflexive(key, 0);
    assert(b[at].0 == key);
    assert forall|i: int, j: int| 0 <= i < j < b.len() implies text::before(b[i].0, b[j].0) by {
        if replaced {
            assert(text::before(m[i].0, m[j].0));
        } else {
            let i0 = if i < at {
                i
            } else {
                i - 1
            };
            let j0 = if j < at {
                j
            } else {
                j - 1
            };
            if i == at {
                if j - 1 > at {
                    assert(text::before(m[at].0, m[j - 1].0));
                    text::lemma_before_transitive(key, m[at].0, m[j - 1].0, 0);
                }
                assert(b[j] == m[j - 1]);
            } else if j == at {
                assert(b[i] == m[i]);
            } else {
                assert(b[i] == m[i0] && b[j] == m[j0]);
                assert(text::before(m[i0].0, m[j0].0));
            }
        }
    }
    lemma_counted(b, key, b.len() as int, at);
    if replaced {
        lemma_counted(m, key, m.len() as int, at);
    } else {
        assert forall|i: int| 0 <= i < m.len() implies (#[trigger] m[i]).0 != key by {
            if i >= at {
                if i > at {
                    assert(text::before(m[at].0, m[i].0));
                    text::lemma_before_transitive(key, m[at].0, m[i].0, 0);
                }
            }
        }
        lemma_not_counted(m, key, m.len() as int);
    }
    lemma_other_count(m, b, at, replaced, other);
}

proof fn lemma_other_count(
    m: Seq<(Seq<char>, usize)>,
    b: Seq<(Seq<char>, usize)>,
    at: int,
    replaced: bool,
    other: Seq<char>,
)
    requires
        ascend(m),
        ascend(b),
        0 <= at < b.len(),
        b[at].0 != other,
        replaced ==> b.len() == m.len() && m[at].0 != other && forall|k: int|
            0 <= k < m.len() && k != at ==> b[k] == m[k],
        !replaced ==> b.len() == m.len() + 1 && (forall|k: int| 0 <= k < at ==> b[k] == m[k])
            && forall|k: int| at <= k < m.len() ==> b[k + 1] == #[trigger] m[k],
    ensures
        counted(b, other, b.len() as int) == counted(m, other, m.len() as int),
{
    if exists|k: int| 0 <= k < m.len() && (#[trigger] m[k]).0 == other {
        let k = choose|k: int| 0 <= k < m.len() && (#[trigger] m[k]).0 == other;
        lemma_counted(m, other, m.len() as int, k);
        let k1 = if replaced || k < at {
            k
        } else {
            k + 1
        };
        assert(b[k1] == m[k]);
        lemma_counted(b, other, b.len() as int, k1);
    } else {
        lemma_not_counted(m, other, m.len() as int);
        assert forall|i: int| 0 <= i < b.len() implies (#[trigger] b[i]).0 != other by {
            if i != at {
                let i0 = if replaced || i < at {
                    i
                } else {
                    i - 1
                };
                assert(b[i] == m[i0]);
            }
        }
        lemma_not_counted(b, other, b.len() as int);
    }
}

/// A list is shown whole, or as much of it as may be and how many more there are.
pub proof fn law_list_is_shown(values: Seq<Seq<char>>, max: int, k: int)
    requires
        0 <= max,
        0 <= k < values.len(),
        k < max,
    ensures
        text::has_part(tally::summarized(values, max), values[k]),
        values.len() > max ==> text::has_part(
            tally::summarized(values, max),
            "+"@ + text::decimal((values.len() - max) as nat),
        ),
{
    let shown = tally::cut_list(values, max);
    let n = shown.len() as int;
    assert(shown[k] == values[k]);
    text_laws::law_joined_texts_are_parts(shown, ","@, n, k);
    lemma_inside(text::join(shown, ","@), values[k]);
    if values.len() > max {
        let more = "+"@ + text::decimal((values.len() - max) as nat);
        assert(shown[max] == more);
        text_laws::law_joined_texts_are_parts(shown, ","@, n, max);
        lemma_inside(text::join(shown, ","@), more);
    }
}

proof fn lemma_inside(t: Seq<char>, p: Seq<char>)
    requires
        text::has_part(t, p),
    ensures
        text::has_part("["@ + t + "]"@, p),
{
    let all = "["@ + t + "]"@;
    let i = choose|i: int| text::holds_at(t, i, p);
    let j = i + "["@.len();
    assert(all.subrange(j, j + p.len()) =~= t.subrange(i, i + p.len()));
    assert(text::holds_at(all, j, p));
}

/// A message that is a text adds its characters, as far as the type goes.
pub proof fn law_text_of_messages_is_counted(messages: Seq<JsonView>, n: int, t: Seq<char>)
    requires
        0 < n <= messages.len(),
        json::field(messages[n - 1], "content"@) == Some(JsonView::Text(t)),
    ensures
        api_log::chat_count(messages, n).chars == tally::total(
            api_log::chat_count(messages, n - 1).chars,
            t.len(),
        ),
        api_log::blocks_count(messages, n).chars == tally::total(
            api_log::blocks_count(messages, n - 1).chars,
            t.len(),
        ),
{
}

/// A message without content adds nothing.
pub proof fn law_message_without_content_adds_nothing(messages: Seq<JsonView>, n: int)
    requires
        0 < n <= messages.len(),
        json::field(messages[n - 1], "content"@) is None,
    ensures
        api_log::chat_count(messages, n) == api_log::chat_count(messages, n - 1),
        api_log::blocks_count(messages, n) == api_log::blocks_count(messages, n - 1),
{
}

/// A part of a message that has a text adds its characters, as far as the type goes.
pub proof fn law_text_of_parts_is_counted(
    c: ContentCount,
    parts: Seq<JsonView>,
    n: int,
    t: Seq<char>,
)
    requires
        0 < n <= parts.len(),
        json::text_field(parts[n - 1], "text"@) == Some(t),
    ensures
        api_log::with_chat_parts(c, parts, n).chars == tally::total(
            api_log::with_chat_parts(c, parts, n - 1).chars,
            t.len(),
        ),
{
}

// --- Summaries ---------------------------------------------------------------------------------

/// What is in the sum of two lists is in one of them.
pub broadcast proof fn lemma_in_sum(a: Seq<Seq<char>>, b: Seq<Seq<char>>, x: Seq<char>)
    ensures
        #[trigger] (a + b).contains(x) <==> a.contains(x) || b.contains(x),
{
    let all = a + b;
    if a.contains(x) {
        let i = choose|i: int| 0 <= i < a.len() && a[i] == x;
        assert(all[i] == x);
    }
    if b.contains(x) {
        let i = choose|i: int| 0 <= i < b.len() && b[i] == x;
        assert(all[a.len() + i] == x);
    }
    if all.contains(x) {
        let i = choose|i: int| 0 <= i < all.len() && all[i] == x;
        if i < a.len() {
            assert(a[i] == x);
        } else {
            assert(b[i - a.len()] == x);
        }
    }
}

pub proof fn lemma_summary(path: Seq<char>, m: Seq<(Seq<char>, JsonView)>, x: Seq<char>)
    requires
        body_log::with_surface(
            body_log::with_common(
                seq![api_log::part("keys"@, tally::summarized(api_log::keys_of(m), 24))],
                m,
            ),
            path,
            m,
        ).contains(x),
    ensures
        text::has_part(body_log::json_summary(path, JsonView::Object(m)), x),
{
    let parts = body_log::with_surface(
        body_log::with_common(
            seq![api_log::part("keys"@, tally::summarized(api_log::keys_of(m), 24))],
            m,
        ),
        path,
        m,
    );
    let k = choose|k: int| 0 <= k < parts.len() && parts[k] == x;
    text_laws::law_joined_texts_are_parts(parts, " "@, parts.len() as int, k);
}

proof fn lemma_common(path: Seq<char>, m: Seq<(Seq<char>, JsonView)>, x: Seq<char>)
    requires
        body_log::with_common(
            seq![api_log::part("keys"@, tally::summarized(api_log::keys_of(m), 24))],
            m,
        ).contains(x),
    ensures
        text::has_part(body_log::json_summary(path, JsonView::Object(m)), x),
{
    broadcast use lemma_in_sum;

    lemma_summary(path, m, x);
}

/// The summary of a body tells the keys of the body.
pub proof fn law_summary_tells_the_keys(path: Seq<char>, m: Seq<(Seq<char>, JsonView)>)
    ensures
        text::has_part(
            body_log::json_summary(path, JsonView::Object(m)),
            "keys="@ + tally::summarized(api_log::keys_of(m), 24),
        ),
{
    broadcast use lemma_in_sum;

    let x = api_log::part("keys"@, tally::summarized(api_log::keys_of(m), 24));
    assert(seq![x][0] == x);
    reveal_strlit("keys");
    reveal_strlit("=");
    reveal_strlit("keys=");
    assert("keys="@ =~= "keys"@ + "="@);
    assert(x =~= "keys="@ + tally::summarized(api_log::keys_of(m), 24));
    lemma_common(path, m, x);
}

/// The summary tells each of these fields by its value, where it is there and is no array or
/// object.
pub proof fn law_summary_tells_scalars(
    path: Seq<char>,
    m: Seq<(Seq<char>, JsonView)>,
    key: Seq<char>,
    v: JsonView,
)
    requires
        key == "model"@ || key == "stream"@ || key == "max_tokens"@ || key == "max_output_tokens"@
            || key == "max_completion_tokens"@ || key == "store"@ || key
            == "parallel_tool_calls"@ || key == "temperature"@ || key == "top_p"@,
        json::member(m, key) == Some(v),
        api_log::scalar_text(v) is Some,
    ensures
        text::has_part(
            body_log::json_summary(path, JsonView::Object(m)),
            key + "="@ + api_log::scalar_text(v)->0,
        ),
{
    broadcast use lemma_in_sum;

    let x = api_log::part(key, api_log::scalar_text(v)->0);
    assert(api_log::scalar_part(m, key)[0] == x);
    lemma_common(path, m, x);
}

/// The summary tells each of these fields by its kind, where it is there.
pub proof fn law_summary_tells_kinds(
    path: Seq<char>,
    m: Seq<(Seq<char>, JsonView)>,
    key: Seq<char>,
    v: JsonView,
)
    requires
        key == "tool_choice"@ || key == "thinking"@ || key == "reasoning"@,
        json::member(m, key) == Some(v),
    ensures
        text::has_part(
            body_log::json_summary(path, JsonView::Object(m)),
            key + "="@ + api_log::kind_of(v),
        ),
{
    broadcast use lemma_in_sum;

    let x = api_log::part(key, api_log::kind_of(v));
    assert(api_log::kind_part(m, key)[0] == x);
    lemma_common(path, m, x);
}

/// On every surface the summary tells how many tools there are.
pub proof fn law_summary_counts_tools(
    path: Seq<char>,
    m: Seq<(Seq<char>, JsonView)>,
    tools: Seq<JsonView>,
)
    requires
        json::member(m, "tools"@) == Some(JsonView::Array(tools)),
    ensures
        text::has_part(
            body_log::json_summary(path, JsonView::Object(m)),
            "tools"@ + "="@ + text::decimal(tools.len()),
        ),
{
    broadcast use lemma_in_sum;

    let x = api_log::number_part("tools"@, tools.len());
    assert(api_log::tools_parts(m)[0] == x);
    lemma_summary(path, m, x);
}

/// The summary tells how many messages there are, on every surface that has messages.
pub proof fn law_summary_counts_messages(
    path: Seq<char>,
    m: Seq<(Seq<char>, JsonView)>,
    messages: Seq<JsonView>,
)
    requires
        json::member(m, "messages"@) == Some(JsonView::Array(messages)),
        text::has_part(path, "/messages"@) || !text::has_part(path, "/responses"@),
    ensures
        text::has_part(
            body_log::json_summary(path, JsonView::Object(m)),
            "messages"@ + "="@ + text::decimal(messages.len()),
        ),
        text::has_part(
            body_log::json_summary(path, JsonView::Object(m)),
            "message_roles"@ + "="@ + tally::summarized(api_log::roles_of(messages), 16),
        ),
{
    broadcast use lemma_in_sum;

    let x = api_log::number_part("messages"@, messages.len());
    let y = api_log::part("message_roles"@, tally::summarized(api_log::roles_of(messages), 16));
    assert(api_log::blocks_messages_parts(messages)[0] == y);
    assert(api_log::chat_messages_parts(messages)[0] == y);
    assert(seq![x][0] == x);
    lemma_summary(path, m, x);
    lemma_summary(path, m, y);
}

/// On the Responses surface the summary tells how long the instructions are and how many
/// items there are.
pub proof fn law_summary_counts_items(
    path: Seq<char>,
    m: Seq<(Seq<char>, JsonView)>,
    t: Seq<char>,
    items: Seq<JsonView>,
)
    requires
        text::has_part(path, "/responses"@),
        !text::has_part(path, "/messages"@),
    ensures
        json::member(m, "instructions"@) == Some(JsonView::Text(t)) ==> text::has_part(
            body_log::json_summary(path, JsonView::Object(m)),
            "instructions_chars"@ + "="@ + text::decimal(t.len()),
        ),
        json::member(m, "input"@) == Some(JsonView::Array(items)) ==> text::has_part(
            body_log::json_summary(path, JsonView::Object(m)),
            "input_items"@ + "="@ + text::decimal(items.len()),
        ),
        json::member(m, "input"@) == Some(JsonView::Text(t)) ==> text::has_part(
            body_log::json_summary(path, JsonView::Object(m)),
            "input_chars"@ + "="@ + text::decimal(t.len()),
        ),
{
    broadcast use lemma_in_sum;

    let x = api_log::number_part("instructions_chars"@, t.len());
    let y = api_log::number_part("input_items"@, items.len());
    let z = api_log::number_part("input_chars"@, t.len());
    if json::member(m, "instructions"@) == Some(JsonView::Text(t)) {
        assert(body_log::instructions_parts(m)[0] == x);
        lemma_summary(path, m, x);
    }
    if json::member(m, "input"@) == Some(JsonView::Array(items)) {
        assert(body_log::input_parts(m)[0] == y);
        lemma_summary(path, m, y);
    }
    if json::member(m, "input"@) == Some(JsonView::Text(t)) {
        assert(body_log::input_parts(m)[1] == z);
        lemma_summary(path, m, z);
    }
}

/// A tool goes by its own name, or else by that of its function.
pub proof fn law_tool_goes_by_its_name(
    m: Seq<(Seq<char>, JsonView)>,
    f: Seq<(Seq<char>, JsonView)>,
    t: Seq<char>,
)
    ensures
        json::member(m, "name"@) == Some(JsonView::Text(t)) ==> api_log::tool_name(
            JsonView::Object(m),
        ) == Some(t),
        json::member(m, "name"@) is None && json::member(m, "function"@) == Some(
            JsonView::Object(f),
        ) && json::member(f, "name"@) == Some(JsonView::Text(t)) ==> api_log::tool_name(
            JsonView::Object(m),
        ) == Some(t),
{
}

// --- Payloads ----------------------------------------------------------------------------------

/// What is no secret is logged as it is: scalars stay, and each element and member stays in
/// its place.
pub proof fn law_what_is_no_secret_is_kept(v: JsonView, i: int)
    ensures
        v is Null || v is Bool || v is Number || v is Text ==> body_log::secrets_redacted(v) == v,
        v matches JsonView::Array(items) ==> body_log::secrets_redacted(v) matches JsonView::Array(
            out,
        ) && out.len() == items.len() && (0 <= i < items.len() ==> out[i]
            == body_log::secrets_redacted(items[i])),
        v matches JsonView::Object(m) ==> body_log::secrets_redacted(v) matches JsonView::Object(
            out,
        ) && out.len() == m.len() && (0 <= i < m.len() ==> out[i].0 == m[i].0 && (
        redaction::is_sensitive_key(m[i].0) || out[i].1 == body_log::secrets_redacted(m[i].1))),
{
}

} // verus!
