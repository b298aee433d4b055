//! What the log tells of a body, surface by surface.
use vstd::prelude::*;

use crate::http::api_log;
use crate::http::api_log::ContentCount;
use crate::http::body_log;
use crate::http::log_laws;
use crate::http::tally;
use crate::json;
use crate::json::JsonView;
use crate::json::NumberView;
use crate::redaction;
use crate::text;

verus! {

/// A value goes by the type that it names, and one that names none by what kind of JSON it is;
/// a text goes by itself.
pub proof fn law_value_goes_by_its_kind(v: JsonView, m: Seq<(Seq<char>, JsonView)>, t: Seq<char>)
    ensures
        v == JsonView::Object(m) && json::member(m, "type"@) == Some(JsonView::Text(t))
            ==> api_log::kind_of(v) == t,
        v == JsonView::Object(m) && json::member(m, "type"@) is None ==> api_log::kind_of(v)
            == "object"@,
        v == JsonView::Text(t) ==> api_log::kind_of(v) == api_log::compact(t),
        v is Null ==> api_log::kind_of(v) == "null"@,
        v is Bool ==> api_log::kind_of(v) == "bool"@,
        v is Number ==> api_log::kind_of(v) == "number"@,
        v is Array ==> api_log::kind_of(v) == "array"@,
        v is Text ==> api_log::json_type_name(v) == "string"@,
        v is Object ==> api_log::json_type_name(v) == "object"@,
        v is Null || v is Bool || v is Number || v is Array ==> api_log::json_type_name(v)
            == api_log::kind_of(v),
{
}

/// A number is logged as it is written.
pub proof fn law_number_is_logged_as_written(i: i64, t: Seq<char>)
    ensures
        i < 0 ==> api_log::number_text(NumberView::Negative(i)) == "-"@ + text::decimal(
            (-(i as int)) as nat,
        ),
        api_log::number_text(NumberView::Decimal(t)) == t,
        api_log::scalar_text(JsonView::Number(NumberView::Decimal(t))) == Some(t),
{
}

/// An array and an object are no scalars.
pub proof fn law_nested_values_are_no_scalars(v: JsonView)
    ensures
        api_log::scalar_text(v) is None <==> v is Array || v is Object,
{
}

/// Text that is content counts its characters and is of the kind of texts; what is neither text
/// nor array is of its own kind.
pub proof fn law_plain_content_is_counted(c: ContentCount, v: JsonView, t: Seq<char>)
    ensures
        v == JsonView::Text(t) ==> api_log::with_chat_content(c, v) == (ContentCount {
            chars: tally::total(c.chars, t.len()),
            kinds: tally::bumped(c.kinds, "string"@),
        }),
        v == JsonView::Text(t) ==> api_log::with_blocks_content(c, v)
            == api_log::with_chat_content(c, v),
        v == JsonView::Text(t) ==> api_log::with_item_content(c, v) == (ContentCount {
            chars: tally::total(c.chars, t.len()),
            kinds: c.kinds,
        }),
        !(v is Text || v is Array) ==> api_log::with_chat_content(c, v) == (ContentCount {
            chars: c.chars,
            kinds: tally::bumped(c.kinds, api_log::json_type_name(v)),
        }),
        !(v is Text || v is Array) ==> api_log::with_blocks_content(c, v)
            == api_log::with_chat_content(c, v),
        !(v is Text || v is Array) ==> api_log::with_item_content(c, v) == c,
{
}

/// Parts are counted one after the other: each by its kind, and the characters of its text.
pub proof fn law_parts_are_counted_in_turn(c: ContentCount, parts: Seq<JsonView>, n: int)
    requires
        0 <= n < parts.len(),
    ensures
        api_log::with_chat_parts(c, parts, 0) == c,
        api_log::with_item_parts(c, parts, 0) == c,
        api_log::with_chat_parts(c, parts, n + 1).kinds == tally::bumped(
            api_log::with_chat_parts(c, parts, n).kinds,
            api_log::kind_of(parts[n]),
        ),
        json::text_field(parts[n], "text"@) is None ==> api_log::with_chat_parts(
            c,
            parts,
            n + 1,
        ).chars == api_log::with_chat_parts(c, parts, n).chars,
        api_log::with_item_parts(c, parts, n + 1).kinds == api_log::with_item_parts(
            c,
            parts,
            n,
        ).kinds,
        api_log::with_chat_content(c, JsonView::Array(parts)) == api_log::with_chat_parts(
            c,
            parts,
            parts.len() as int,
        ),
        api_log::with_item_content(c, JsonView::Array(parts)) == api_log::with_item_parts(
            c,
            parts,
            parts.len() as int,
        ),
{
}

/// Of an item's parts each text counts, under whichever of its three names it stands.
pub proof fn law_texts_of_item_parts_are_counted(
    c: ContentCount,
    parts: Seq<JsonView>,
    n: int,
    t: Seq<char>,
)
    requires
        0 <= n < parts.len(),
    ensures
        json::text_field(parts[n], "text"@) == Some(t) && json::text_field(
            parts[n],
            "input_text"@,
        ) is None && json::text_field(parts[n], "output_text"@) is None
            ==> api_log::with_item_parts(c, parts, n + 1).chars == tally::total(
            api_log::with_item_parts(c, parts, n).chars,
            t.len(),
        ),
        json::text_field(parts[n], "text"@) is None && json::text_field(
            parts[n],
            "input_text"@,
        ) == Some(t) && json::text_field(parts[n], "output_text"@) is None
            ==> api_log::with_item_parts(c, parts, n + 1).chars == tally::total(
            api_log::with_item_parts(c, parts, n).chars,
            t.len(),
        ),
        json::text_field(parts[n], "text"@) is None && json::text_field(
            parts[n],
            "input_text"@,
        ) is None && json::text_field(parts[n], "output_text"@) == Some(t)
            ==> api_log::with_item_parts(c, parts, n + 1).chars == tally::total(
            api_log::with_item_parts(c, parts, n).chars,
            t.len(),
        ),
{
}

/// Blocks are counted one after the other: each by its kind, and the characters of a text, of
/// a thought, and of what a tool answered; any other block has none.
pub proof fn law_blocks_are_counted_in_turn(
    c: ContentCount,
    blocks: Seq<JsonView>,
    n: int,
    m: Seq<(Seq<char>, JsonView)>,
    t: Seq<char>,
)
    requires
        0 <= n < blocks.len(),
        blocks[n] == JsonView::Object(m),
        json::member(m, "type"@) == Some(JsonView::Text(t)),
    ensures
        api_log::with_blocks(c, blocks, 0) == c,
        t != "tool_result"@ ==> api_log::with_blocks(c, blocks, n + 1).kinds == tally::bumped(
            api_log::with_blocks(c, blocks, n).kinds,
            t,
        ),
        (t == "text"@ && json::member(m, "text"@) matches Some(JsonView::Text(s)))
            ==> api_log::with_blocks(c, blocks, n + 1).chars == tally::total(
            api_log::with_blocks(c, blocks, n).chars,
            json::member(m, "text"@)->0->Text_0.len(),
        ),
        (t == "thinking"@ && json::member(m, "thinking"@) matches Some(JsonView::Text(s)))
            ==> api_log::with_blocks(c, blocks, n + 1).chars == tally::total(
            api_log::with_blocks(c, blocks, n).chars,
            json::member(m, "thinking"@)->0->Text_0.len(),
        ),
        t == "tool_result"@ && json::member(m, "content"@) is Some ==> api_log::with_blocks(
            c,
            blocks,
            n + 1,
        ) == api_log::with_blocks_content(
            (ContentCount {
                chars: api_log::with_blocks(c, blocks, n).chars,
                kinds: tally::bumped(api_log::with_blocks(c, blocks, n).kinds, t),
            }),
            json::member(m, "content"@)->0,
        ),
        t != "text"@ && t != "thinking"@ && t != "tool_result"@ ==> api_log::with_blocks(
            c,
            blocks,
            n + 1,
        ).chars == api_log::with_blocks(c, blocks, n).chars,
{
    reveal_strlit("text");
    reveal_strlit("thinking");
    reveal_strlit("tool_result");
    assert("text"@.len() == 4 && "thinking"@.len() == 8 && "tool_result"@.len() == 11);
    json::lemma_key_index(m, "content"@, 0);
}

/// A message is of its role, and of an unknown one where it names none.
pub proof fn law_message_is_of_its_role(messages: Seq<JsonView>, i: int, t: Seq<char>)
    requires
        0 <= i < messages.len(),
    ensures
        api_log::roles_of(messages).len() == messages.len(),
        json::text_field(messages[i], "role"@) == Some(t) ==> api_log::roles_of(messages)[i] == t,
        json::text_field(messages[i], "role"@) is None ==> api_log::roles_of(messages)[i]
            == "unknown"@,
{
}

/// Tool calls are counted message by message, as far as the type goes.
pub proof fn law_tool_calls_are_counted(messages: Seq<JsonView>, n: int, calls: Seq<JsonView>)
    requires
        0 <= n < messages.len(),
    ensures
        api_log::tool_call_count(messages, 0) == 0,
        json::field(messages[n], "tool_calls"@) == Some(JsonView::Array(calls))
            ==> api_log::tool_call_count(messages, n + 1) == tally::total(
            api_log::tool_call_count(messages, n),
            calls.len(),
        ),
        json::field(messages[n], "tool_calls"@) is None ==> api_log::tool_call_count(
            messages,
            n + 1,
        ) == api_log::tool_call_count(messages, n),
{
}

/// Items are counted one after the other by their types: what names none and has a role is a
/// message, and anything else is unknown. Their roles are listed where they have one.
pub proof fn law_items_are_counted_in_turn(items: Seq<JsonView>, n: int, t: Seq<char>)
    requires
        0 <= n < items.len(),
    ensures
        api_log::items_count(items, 0) == ContentCount::none(),
        json::field(items[n], "content"@) is None ==> api_log::items_count(items, n + 1) == (
        ContentCount {
            chars: api_log::items_count(items, n).chars,
            kinds: tally::bumped(
                api_log::items_count(items, n).kinds,
                api_log::item_type(items[n]),
            ),
        }),
        json::text_field(items[n], "type"@) == Some(t) ==> api_log::item_type(items[n]) == t,
        json::text_field(items[n], "type"@) is None && json::field(items[n], "role"@) is Some
            ==> api_log::item_type(items[n]) == "message"@,
        json::text_field(items[n], "type"@) is None && json::field(items[n], "role"@) is None
            ==> api_log::item_type(items[n]) == "unknown"@,
        json::text_field(items[n], "role"@) == Some(t) ==> api_log::item_roles(items, n + 1)
            == api_log::item_roles(items, n).push(t),
        json::text_field(items[n], "role"@) is None ==> api_log::item_roles(items, n + 1)
            == api_log::item_roles(items, n),
        ContentCount::none().chars == 0,
        ContentCount::none().kinds.len() == 0,
{
}

/// Tools are listed by their names, those that have one.
pub proof fn law_tools_are_listed_by_name(tools: Seq<JsonView>, n: int, t: Seq<char>)
    requires
        0 <= n < tools.len(),
    ensures
        api_log::tool_names(tools, 0).len() == 0,
        api_log::tool_name(tools[n]) == Some(t) ==> api_log::tool_names(tools, n + 1)
            == api_log::tool_names(tools, n).push(t),
        api_log::tool_name(tools[n]) is None ==> api_log::tool_names(tools, n + 1)
            == api_log::tool_names(tools, n),
{
}

/// A body that is no object is told by its kind, an empty one is told to be empty, and one that
/// is no JSON by what is wrong with it and a look at it without addresses.
pub proof fn law_other_bodies_are_told(
    path: Seq<char>,
    v: JsonView,
    e: Seq<char>,
    lossy: Seq<char>,
)
    ensures
        !(v is Object) ==> body_log::json_summary(path, v) == "json_type"@ + "="@
            + api_log::json_type_name(v),
        body_log::body_summary(path, seq![]) == "empty"@,
        body_log::parsed_summary(path, Err(e), lossy) == "non_json parse_error="@
            + api_log::compact(e) + " preview="@ + api_log::compact(
            redaction::uris_redacted(lossy, 0),
        ),
        body_log::parsed_summary(path, Ok(v), lossy) == body_log::json_summary(path, v),
{
}

/// What logs in and what logs out carries a secret, and nothing else does.
pub proof fn law_secret_paths(path: Seq<char>)
    ensures
        body_log::carries_secret(path) <==> path == "/dashboard/login"@ || path
            == "/dashboard/logout"@,
{
}

proof fn lemma_told(path: Seq<char>, m: Seq<(Seq<char>, JsonView)>, x: Seq<char>)
    requires
        body_log::with_surface(
            body_log::with_common(
                seq![api_log::part("keys"@, tally::summarized(api_log::keys_of(m), 24))],
                m,
            ),
            path,
            m,
        ).contains(x),
    ensures
        text::has_part(body_log::json_summary(path, JsonView::Object(m)), x),
{
    log_laws::lemma_summary(path, m, x);
}

/// On the messages surface the summary tells the system prompt, by its length or its blocks,
/// the text of the messages, where to stop, and the keys of what is attached.
pub proof fn law_messages_are_summed_up(
    path: Seq<char>,
    m: Seq<(Seq<char>, JsonView)>,
    t: Seq<char>,
    values: Seq<JsonView>,
    data: Seq<(Seq<char>, JsonView)>,
)
    requires
        text::has_part(path, "/messages"@),
    ensures
        ({
            let summary = body_log::json_summary(path, JsonView::Object(m));
            &&& json::member(m, "system"@) == Some(JsonView::Text(t)) ==> text::has_part(
                summary,
                "system"@ + "="@ + "string"@,
            ) && text::has_part(summary, "system_chars"@ + "="@ + text::decimal(t.len()))
            &&& json::member(m, "system"@) == Some(JsonView::Array(values)) ==> text::has_part(
                summary,
                "system_blocks"@ + "="@ + text::decimal(values.len()),
            )
            &&& json::member(m, "stop_sequences"@) == Some(JsonView::Array(values))
                ==> text::has_part(summary, "stop_sequences"@ + "="@ + text::decimal(values.len()))
            &&& json::member(m, "metadata"@) == Some(JsonView::Object(data)) ==> text::has_part(
                summary,
                "metadata_keys"@ + "="@ + tally::summarized(api_log::keys_of(data), 16),
            )
            &&& json::member(m, "messages"@) == Some(JsonView::Array(values)) ==> text::has_part(
                summary,
                "message_text_chars"@ + "="@ + text::decimal(
                    api_log::blocks_count(values, values.len() as int).chars as nat,
                ),
            )
        }),
{
    broadcast use log_laws::lemma_in_sum;

    if json::member(m, "system"@) == Some(JsonView::Text(t)) {
        let parts = body_log::system_parts(m);
        assert(parts[0] == api_log::part("system"@, "string"@));
        assert(parts[1] == api_log::number_part("system_chars"@, t.len()));
        lemma_told(path, m, parts[0]);
        lemma_told(path, m, parts[1]);
    }
    if json::member(m, "system"@) == Some(JsonView::Array(values)) {
        let parts = body_log::system_parts(m);
        assert(parts[0] == api_log::number_part("system_blocks"@, values.len()));
        lemma_told(path, m, parts[0]);
    }
    if json::member(m, "stop_sequences"@) == Some(JsonView::Array(values)) {
        let parts = api_log::length_part(m, "stop_sequences"@);
        assert(parts[0] == api_log::number_part("stop_sequences"@, values.len()));
        lemma_told(path, m, parts[0]);
    }
    if json::member(m, "metadata"@) == Some(JsonView::Object(data)) {
        let parts = api_log::metadata_part(m);
        assert(parts[0] == api_log::part(
            "metadata_keys"@,
            tally::summarized(api_log::keys_of(data), 16),
        ));
        lemma_told(path, m, parts[0]);
    }
    if json::member(m, "messages"@) == Some(JsonView::Array(values)) {
        let parts = api_log::blocks_messages_parts(values);
        assert(parts[1] == api_log::number_part(
            "message_text_chars"@,
            api_log::blocks_count(values, values.len() as int).chars as nat,
        ));
        lemma_told(path, m, parts[1]);
    }
}

/// On the Responses surface the summary tells the text and the roles of the items, what is
/// asked for beside the answer, and the keys of what is attached.
pub proof fn law_responses_are_summed_up(
    path: Seq<char>,
    m: Seq<(Seq<char>, JsonView)>,
    values: Seq<JsonView>,
    data: Seq<(Seq<char>, JsonView)>,
)
    requires
        text::has_part(path, "/responses"@),
        !text::has_part(path, "/messages"@),
    ensures
        ({
            let summary = body_log::json_summary(path, JsonView::Object(m));
            &&& json::member(m, "input"@) == Some(JsonView::Array(values)) ==> text::has_part(
                summary,
                "input_roles"@ + "="@ + tally::summarized(
                    api_log::item_roles(values, values.len() as int),
                    16,
                ),
            ) && text::has_part(
                summary,
                "input_text_chars"@ + "="@ + text::decimal(
                    api_log::items_count(values, values.len() as int).chars as nat,
                ),
            )
            &&& json::member(m, "include"@) == Some(JsonView::Array(values)) ==> text::has_part(
                summary,
                "include"@ + "="@ + text::decimal(values.len()),
            )
            &&& json::member(m, "metadata"@) == Some(JsonView::Object(data)) ==> text::has_part(
                summary,
                "metadata_keys"@ + "="@ + tally::summarized(api_log::keys_of(data), 16),
            )
        }),
{
    broadcast use log_laws::lemma_in_sum;

    if json::member(m, "input"@) == Some(JsonView::Array(values)) {
        let parts = api_log::items_parts(values);
        assert(parts[0] == api_log::part(
            "input_roles"@,
            tally::summarized(api_log::item_roles(values, values.len() as int), 16),
        ));
        assert(parts[1] == api_log::number_part(
            "input_text_chars"@,
            api_log::items_count(values, values.len() as int).chars as nat,
        ));
        lemma_told(path, m, parts[0]);
        lemma_told(path, m, parts[1]);
    }
    if json::member(m, "include"@) == Some(JsonView::Array(values)) {
        let parts = api_log::length_part(m, "include"@);
        assert(parts[0] == api_log::number_part("include"@, values.len()));
        lemma_told(path, m, parts[0]);
    }
    if json::member(m, "metadata"@) == Some(JsonView::Object(data)) {
        let parts = api_log::metadata_part(m);
        assert(parts[0] == api_log::part(
            "metadata_keys"@,
            tally::summarized(api_log::keys_of(data), 16),
        ));
        lemma_told(path, m, parts[0]);
    }
}

/// On the chat surface the summary tells the text and the tool calls of the messages, the
/// format of the answer, and what is asked of the stream.
pub proof fn law_chats_are_summed_up(
    path: Seq<char>,
    m: Seq<(Seq<char>, JsonView)>,
    values: Seq<JsonView>,
    v: JsonView,
)
    requires
        text::has_part(path, "/chat/completions"@),
        !text::has_part(path, "/messages"@),
        !text::has_part(path, "/responses"@),
    ensures
        ({
            let summary = body_log::json_summary(path, JsonView::Object(m));
            &&& json::member(m, "messages"@) == Some(JsonView::Array(values)) ==> text::has_part(
                summary,
                "message_text_chars"@ + "="@ + text::decimal(
                    api_log::chat_count(values, values.len() as int).chars as nat,
                ),
            ) && text::has_part(
                summary,
                "message_tool_calls"@ + "="@ + text::decimal(
                    api_log::tool_call_count(values, values.len() as int) as nat,
                ),
            )
            &&& json::member(m, "response_format"@) == Some(v) ==> text::has_part(
                summary,
                "response_format"@ + "="@ + api_log::kind_of(v),
            )
            &&& json::member(m, "stream_options"@) == Some(v) ==> text::has_part(
                summary,
                "stream_options"@ + "="@ + api_log::kind_of(v),
            )
        }),
{
    broadcast use log_laws::lemma_in_sum;

    if json::member(m, "messages"@) == Some(JsonView::Array(values)) {
        let parts = api_log::chat_messages_parts(values);
        assert(parts[1] == api_log::number_part(
            "message_text_chars"@,
            api_log::chat_count(values, values.len() as int).chars as nat,
        ));
        assert(parts[2] == api_log::number_part(
            "message_tool_calls"@,
            api_log::tool_call_count(values, values.len() as int) as nat,
        ));
        lemma_told(path, m, parts[1]);
        lemma_told(path, m, parts[2]);
    }
    if json::member(m, "response_format"@) == Some(v) {
        let parts = api_log::kind_part(m, "response_format"@);
        assert(parts[0] == api_log::part("response_format"@, api_log::kind_of(v)));
        lemma_told(path, m, parts[0]);
    }
    if json::member(m, "stream_options"@) == Some(v) {
        let parts = api_log::kind_part(m, "stream_options"@);
        assert(parts[0] == api_log::part("stream_options"@, api_log::kind_of(v)));
        lemma_told(path, m, parts[0]);
    }
}

/// On any other surface the summary tells the input: the length of a text, or how many items
/// there are.
pub proof fn law_other_input_is_summed_up(
    path: Seq<char>,
    m: Seq<(Seq<char>, JsonView)>,
    values: Seq<JsonView>,
    t: Seq<char>,
)
    requires
        !text::has_part(path, "/chat/completions"@),
        !text::has_suffix(path, "/completions"@),
        !text::has_part(path, "/messages"@),
        !text::has_part(path, "/responses"@),
    ensures
        ({
            let summary = body_log::json_summary(path, JsonView::Object(m));
            &&& json::member(m, "input"@) == Some(JsonView::Array(values)) ==> text::has_part(
                summary,
                "input_items"@ + "="@ + text::decimal(values.len()),
            )
            &&& json::member(m, "input"@) == Some(JsonView::Text(t)) ==> text::has_part(
                summary,
                "input"@ + "="@ + "string"@,
            ) && text::has_part(summary, "input_chars"@ + "="@ + text::decimal(t.len()))
        }),
{
    broadcast use log_laws::lemma_in_sum;

    let parts = body_log::plain_input_parts(m);
    if json::member(m, "input"@) == Some(JsonView::Array(values)) {
        assert(parts[0] == api_log::number_part("input_items"@, values.len()));
        lemma_told(path, m, parts[0]);
    }
    if json::member(m, "input"@) == Some(JsonView::Text(t)) {
        assert(parts[0] == api_log::part("input"@, "string"@));
        assert(parts[1] == api_log::number_part("input_chars"@, t.len()));
        lemma_told(path, m, parts[0]);
        lemma_told(path, m, parts[1]);
    }
}

/// The kinds that were counted are listed where there are any.
pub proof fn law_counted_kinds_are_listed(name: Seq<char>, counts: Seq<(Seq<char>, usize)>)
    ensures
        counts.len() == 0 ==> api_log::counts_part(name, counts).len() == 0,
        counts.len() > 0 ==> api_log::counts_part(name, counts) == seq![
            name + "="@ + tally::summarized(tally::shown_counts(counts), 16),
        ],
{
}

} // verus!
