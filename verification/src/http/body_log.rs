//! The summary of a request body, and the body itself as it may be logged.
use vstd::prelude::*;

use crate::digest;
use crate::http::api_log;
use crate::http::api_log::append_anthropic_message_summary;
use crate::http::api_log::append_array_len;
use crate::http::api_log::append_chat_message_summary;
use crate::http::api_log::append_metadata_summary;
use crate::http::api_log::append_responses_input_summary;
use crate::http::api_log::append_scalar_field;
use crate::http::api_log::append_tool_summary;
use crate::http::api_log::append_typed_field;
use crate::http::api_log::array_of;
use crate::http::api_log::compact_for_log;
use crate::http::api_log::count_parts;
use crate::http::api_log::json_type;
use crate::http::api_log::keys_of_map;
use crate::http::api_log::push_counts;
use crate::http::api_log::push_number;
use crate::http::api_log::push_part;
use crate::http::tally;
use crate::http::tally::summarized_list;
use crate::json;
use crate::json::Json;
use crate::json::JsonMap;
use crate::json::JsonView;
use crate::redaction;
use crate::redaction::capture;
use crate::redaction::capture::lossy_text_of;
use crate::redaction::is_sensitive_payload_key;
use crate::redaction::redact_image_uris;
use crate::redaction::redact_image_uris_in_value;
use crate::text;

verus! {

// --- The summary -------------------------------------------------------------------------------

/// `before` with the parts of the fields that all surfaces share.
pub open spec fn with_common(
    before: Seq<Seq<char>>,
    m: Seq<(Seq<char>, JsonView)>,
) -> Seq<Seq<char>> {
    before + api_log::scalar_part(m, "model"@) + api_log::scalar_part(m, "stream"@) + api_log::scalar_part(
        m,
        "max_tokens"@,
    ) + api_log::scalar_part(m, "max_output_tokens"@) + api_log::scalar_part(
        m,
        "max_completion_tokens"@,
    ) + api_log::scalar_part(m, "store"@) + api_log::scalar_part(m, "parallel_tool_calls"@)
        + api_log::scalar_part(m, "temperature"@) + api_log::scalar_part(m, "top_p"@)
        + api_log::kind_part(m, "tool_choice"@) + api_log::kind_part(m, "thinking"@)
        + api_log::kind_part(m, "reasoning"@)
}

/// The parts of a system prompt.
pub open spec fn system_parts(m: Seq<(Seq<char>, JsonView)>) -> Seq<Seq<char>> {
    match json::member(m, "system"@) {
        Some(JsonView::Text(t)) => seq![
            api_log::part("system"@, "string"@),
            api_log::number_part("system_chars"@, t.len()),
        ],
        Some(JsonView::Array(blocks)) => {
            let count = api_log::with_chat_parts(
                api_log::ContentCount::none(),
                blocks,
                blocks.len() as int,
            );
            seq![
                api_log::number_part("system_blocks"@, blocks.len()),
                api_log::number_part("system_chars"@, count.chars as nat),
            ] + api_log::counts_part("system_block_types"@, count.kinds)
        },
        Some(v) => seq![api_log::part("system_type"@, api_log::json_type_name(v))],
        None => Seq::empty(),
    }
}

/// The parts of the messages of the Messages surface.
pub open spec fn blocks_message_parts(m: Seq<(Seq<char>, JsonView)>) -> Seq<Seq<char>> {
    match json::member(m, "messages"@) {
        Some(JsonView::Array(messages)) => seq![api_log::number_part("messages"@, messages.len())]
            + api_log::blocks_messages_parts(messages),
        _ => Seq::empty(),
    }
}

/// The parts of the messages of the Chat surface.
pub open spec fn chat_message_parts(m: Seq<(Seq<char>, JsonView)>) -> Seq<Seq<char>> {
    match json::member(m, "messages"@) {
        Some(JsonView::Array(messages)) => seq![api_log::number_part("messages"@, messages.len())]
            + api_log::chat_messages_parts(messages),
        _ => Seq::empty(),
    }
}

/// The parts of an input that is a text.
pub open spec fn text_input_parts(t: Seq<char>) -> Seq<Seq<char>> {
    seq![
        api_log::part("input"@, "string"@),
        api_log::number_part("input_chars"@, t.len()),
    ]
}

/// The parts of the instructions and the input of the Responses surface.
pub open spec fn instructions_parts(m: Seq<(Seq<char>, JsonView)>) -> Seq<Seq<char>> {
    match json::text_member(m, "instructions"@) {
        Some(t) => seq![api_log::number_part("instructions_chars"@, t.len())],
        None => Seq::empty(),
    }
}

/// The parts of the input of the Responses surface.
pub open spec fn input_parts(m: Seq<(Seq<char>, JsonView)>) -> Seq<Seq<char>> {
    match json::member(m, "input"@) {
        Some(JsonView::Text(t)) => text_input_parts(t),
        Some(JsonView::Array(items)) => seq![api_log::number_part("input_items"@, items.len())]
            + api_log::items_parts(items),
        Some(v) => seq![api_log::part("input_type"@, api_log::json_type_name(v))],
        None => Seq::empty(),
    }
}

/// The parts of an input whose surface is not known.
pub open spec fn plain_input_parts(m: Seq<(Seq<char>, JsonView)>) -> Seq<Seq<char>> {
    match json::member(m, "input"@) {
        Some(JsonView::Text(t)) => text_input_parts(t),
        Some(JsonView::Array(items)) => seq![api_log::number_part("input_items"@, items.len())],
        _ => Seq::empty(),
    }
}

/// `before` with the parts of a body of the Messages surface.
pub open spec fn with_messages(
    before: Seq<Seq<char>>,
    m: Seq<(Seq<char>, JsonView)>,
) -> Seq<Seq<char>> {
    before + system_parts(m) + blocks_message_parts(m) + api_log::tools_parts(m) + api_log::metadata_part(m)
        + api_log::length_part(m, "stop_sequences"@)
}

/// `before` with the parts of a body of the Responses surface.
pub open spec fn with_responses(
    before: Seq<Seq<char>>,
    m: Seq<(Seq<char>, JsonView)>,
) -> Seq<Seq<char>> {
    before + instructions_parts(m) + input_parts(m) + api_log::tools_parts(m) + api_log::length_part(
        m,
        "include"@,
    ) + api_log::metadata_part(m)
}

/// `before` with the parts of a body of the Chat surface.
pub open spec fn with_chat(
    before: Seq<Seq<char>>,
    m: Seq<(Seq<char>, JsonView)>,
) -> Seq<Seq<char>> {
    before + chat_message_parts(m) + api_log::tools_parts(m) + api_log::kind_part(m, "response_format"@)
        + api_log::kind_part(m, "stream_options"@)
}

/// `before` with the parts of a body whose surface is not known.
pub open spec fn with_other(
    before: Seq<Seq<char>>,
    m: Seq<(Seq<char>, JsonView)>,
) -> Seq<Seq<char>> {
    before + chat_message_parts(m) + plain_input_parts(m) + api_log::tools_parts(m)
}

/// `before` with the parts that the surface at a path adds.
pub open spec fn with_surface(
    before: Seq<Seq<char>>,
    path: Seq<char>,
    m: Seq<(Seq<char>, JsonView)>,
) -> Seq<Seq<char>> {
    if text::has_part(path, "/messages"@) {
        with_messages(before, m)
    } else if text::has_part(path, "/responses"@) {
        with_responses(before, m)
    } else if text::has_part(path, "/chat/completions"@) || text::has_suffix(
        path,
        "/completions"@,
    ) {
        with_chat(before, m)
    } else {
        with_other(before, m)
    }
}

/// The summary of a JSON body: names, numbers and types, never the texts themselves.
pub open spec fn json_summary(path: Seq<char>, v: JsonView) -> Seq<char> {
    match v {
        JsonView::Object(m) => {
            let keys = seq![api_log::part("keys"@, tally::summarized(api_log::keys_of(m), 24))];
            text::join(with_surface(with_common(keys, m), path, m), " "@)
        },
        _ => api_log::part("json_type"@, api_log::json_type_name(v)),
    }
}

fn append_common_json_fields(parts: &mut Vec<String>, map: &JsonMap)
    ensures
        text::strings_view(final(parts)@) == with_common(text::strings_view(old(parts)@), map@),
{
    append_scalar_field(parts, map, "model");
    append_scalar_field(parts, map, "stream");
    append_scalar_field(parts, map, "max_tokens");
    append_scalar_field(parts, map, "max_output_tokens");
    append_scalar_field(parts, map, "max_completion_tokens");
    append_scalar_field(parts, map, "store");
    append_scalar_field(parts, map, "parallel_tool_calls");
    append_scalar_field(parts, map, "temperature");
    append_scalar_field(parts, map, "top_p");
    append_typed_field(parts, map, "tool_choice");
    append_typed_field(parts, map, "thinking");
    append_typed_field(parts, map, "reasoning");
}

fn append_anthropic_system_summary(parts: &mut Vec<String>, map: &JsonMap)
    ensures
        text::strings_view(final(parts)@) == text::strings_view(old(parts)@) + system_parts(map@),
{
    let ghost before = text::strings_view(parts@);
    match map.get("system") {
        Some(Json::Text(t)) => {
            push_part(parts, "system", "string");
            push_number(parts, "system_chars", t.as_str().unicode_len());
        },
        Some(Json::Array(blocks)) => {
            proof {
                json::lemma_array_view(*blocks);
            }
            let (chars, kinds) = count_parts(blocks);
            push_number(parts, "system_blocks", blocks.len());
            push_number(parts, "system_chars", chars);
            push_counts(parts, "system_block_types", &kinds);
        },
        Some(other) => {
            push_part(parts, "system_type", json_type(other));
        },
        None => {},
    }
    assert(text::strings_view(parts@) =~= before + system_parts(map@));
}

fn append_anthropic_messages(parts: &mut Vec<String>, map: &JsonMap)
    ensures
        text::strings_view(final(parts)@) == text::strings_view(old(parts)@)
            + blocks_message_parts(map@),
{
    let ghost before = text::strings_view(parts@);
    if let Some(messages) = array_of(map, "messages") {
        push_number(parts, "messages", messages.len());
        append_anthropic_message_summary(parts, messages);
    }
    assert(text::strings_view(parts@) =~= before + blocks_message_parts(map@));
}

fn append_anthropic_json_summary(parts: &mut Vec<String>, map: &JsonMap)
    ensures
        text::strings_view(final(parts)@) == with_messages(text::strings_view(old(parts)@), map@),
{
    append_anthropic_system_summary(parts, map);
    append_anthropic_messages(parts, map);
    append_tool_summary(parts, map);
    append_metadata_summary(parts, map);
    append_array_len(parts, map, "stop_sequences");
}

fn push_text_input(parts: &mut Vec<String>, t: &str)
    ensures
        text::strings_view(final(parts)@) == text::strings_view(old(parts)@) + text_input_parts(t@),
{
    let ghost before = text::strings_view(parts@);
    push_part(parts, "input", "string");
    push_number(parts, "input_chars", t.unicode_len());
    assert(text::strings_view(parts@) =~= before + text_input_parts(t@));
}

fn append_instructions(parts: &mut Vec<String>, map: &JsonMap)
    ensures
        text::strings_view(final(parts)@) == text::strings_view(old(parts)@) + instructions_parts(
            map@,
        ),
{
    let ghost before = text::strings_view(parts@);
    if let Some(instructions) = map.get_text("instructions") {
        push_number(parts, "instructions_chars", instructions.unicode_len());
    }
    assert(text::strings_view(parts@) =~= before + instructions_parts(map@));
}

fn append_input(parts: &mut Vec<String>, map: &JsonMap)
    ensures
        text::strings_view(final(parts)@) == text::strings_view(old(parts)@) + input_parts(map@),
{
    let ghost before = text::strings_view(parts@);
    match map.get("input") {
        Some(Json::Text(t)) => {
            push_text_input(parts, t.as_str());
        },
        Some(Json::Array(items)) => {
            proof {
                json::lemma_array_view(*items);
            }
            push_number(parts, "input_items", items.len());
            append_responses_input_summary(parts, items);
        },
        Some(other) => {
            push_part(parts, "input_type", json_type(other));
        },
        None => {},
    }
    assert(text::strings_view(parts@) =~= before + input_parts(map@));
}

fn append_responses_json_summary(parts: &mut Vec<String>, map: &JsonMap)
    ensures
        text::strings_view(final(parts)@) == with_responses(text::strings_view(old(parts)@), map@),
{
    append_instructions(parts, map);
    append_input(parts, map);
    append_tool_summary(parts, map);
    append_array_len(parts, map, "include");
    append_metadata_summary(parts, map);
}

fn append_chat_messages(parts: &mut Vec<String>, map: &JsonMap)
    ensures
        text::strings_view(final(parts)@) == text::strings_view(old(parts)@) + chat_message_parts(
            map@,
        ),
{
    let ghost before = text::strings_view(parts@);
    if let Some(messages) = array_of(map, "messages") {
        push_number(parts, "messages", messages.len());
        append_chat_message_summary(parts, messages);
    }
    assert(text::strings_view(parts@) =~= before + chat_message_parts(map@));
}

fn append_chat_json_summary(parts: &mut Vec<String>, map: &JsonMap)
    ensures
        text::strings_view(final(parts)@) == with_chat(text::strings_view(old(parts)@), map@),
{
    append_chat_messages(parts, map);
    append_tool_summary(parts, map);
    append_typed_field(parts, map, "response_format");
    append_typed_field(parts, map, "stream_options");
}

fn append_plain_input(parts: &mut Vec<String>, map: &JsonMap)
    ensures
        text::strings_view(final(parts)@) == text::strings_view(old(parts)@) + plain_input_parts(
            map@,
        ),
{
    let ghost before = text::strings_view(parts@);
    match map.get("input") {
        Some(Json::Text(t)) => {
            push_text_input(parts, t.as_str());
        },
        Some(Json::Array(items)) => {
            proof {
                json::lemma_array_view(*items);
            }
            push_number(parts, "input_items", items.len());
        },
        _ => {},
    }
    assert(text::strings_view(parts@) =~= before + plain_input_parts(map@));
}

fn append_generic_json_summary(parts: &mut Vec<String>, map: &JsonMap)
    ensures
        text::strings_view(final(parts)@) == with_other(text::strings_view(old(parts)@), map@),
{
    append_chat_messages(parts, map);
    append_plain_input(parts, map);
    append_tool_summary(parts, map);
}

/// The summary of a JSON body.
pub fn summarize_json_api_body(path: &str, value: &Json) -> (r: String)
    ensures
        r@ == json_summary(path@, value@),
{
    let map = match value.as_object() {
        Some(map) => map,
        None => {
            let name = text::joined("json_type", "=");
            return text::joined(name.as_str(), json_type(value));
        },
    };
    let mut parts: Vec<String> = Vec::new();
    assert(text::strings_view(parts@) =~= Seq::<Seq<char>>::empty());
    push_part(&mut parts, "keys", summarized_list(keys_of_map(map), 24).as_str());
    assert(text::strings_view(parts@) =~= seq![
        api_log::part("keys"@, tally::summarized(api_log::keys_of(map@), 24)),
    ]);
    append_common_json_fields(&mut parts, map);
    if text::contains(path, "/messages") {
        append_anthropic_json_summary(&mut parts, map);
    } else if text::contains(path, "/responses") {
        append_responses_json_summary(&mut parts, map);
    } else if text::contains(path, "/chat/completions") || text::ends_with(path, "/completions") {
        append_chat_json_summary(&mut parts, map);
    } else {
        append_generic_json_summary(&mut parts, map);
    }
    text::join_strings(&parts, " ")
}

/// The summary of a body that was parsed, or of one that was not, whose text is `lossy`.
pub open spec fn parsed_summary(
    path: Seq<char>,
    parsed: Result<JsonView, Seq<char>>,
    lossy: Seq<char>,
) -> Seq<char> {
    match parsed {
        Ok(v) => json_summary(path, v),
        Err(e) => "non_json parse_error="@ + api_log::compact(e) + " preview="@ + api_log::compact(
            redaction::uris_redacted(lossy, 0),
        ),
    }
}

/// The summary of a body.
pub open spec fn body_summary(path: Seq<char>, body: Seq<u8>) -> Seq<char> {
    if body.len() == 0 {
        "empty"@
    } else {
        parsed_summary(path, json::parsed_bytes(body), capture::lossy_text(body))
    }
}

/// The summary of a body that was parsed, or of one that was not, whose text is `lossy`.
pub fn summarize_parsed(path: &str, parsed: &Result<Json, String>, lossy: &str) -> (r: String)
    ensures
        r@ == parsed_summary(path@, json::parse_view(*parsed), lossy@),
{
    match parsed {
        Ok(value) => summarize_json_api_body(path, value),
        Err(e) => {
            let mut out = "non_json parse_error=".to_owned();
            out.append(compact_for_log(e.as_str()).as_str());
            out.append(" preview=");
            out.append(compact_for_log(redact_image_uris(lossy).as_str()).as_str());
            out
        },
    }
}

/// The summary of a body.
pub fn summarize_api_body(path: &str, body: &[u8]) -> (r: String)
    ensures
        r@ == body_summary(path@, body@),
{
    if body.len() == 0 {
        return "empty".to_owned();
    }
    let parsed = Json::parse_bytes(body);
    let lossy = lossy_text_of(body);
    summarize_parsed(path, &parsed, lossy.as_str())
}

/// What is logged of a body.
#[derive(Debug, Clone)]
pub struct BodyLogFields {
    /// Its length.
    pub bytes: usize,
    /// Its digest.
    pub sha256: String,
    /// Its summary.
    pub summary: String,
}

/// Whether a request to this path carries the secret of a session.
pub open spec fn carries_secret(path: Seq<char>) -> bool {
    path == "/dashboard/login"@ || path == "/dashboard/logout"@
}

/// Whether a request to this path carries the secret of a session.
pub fn is_dashboard_auth_path(path: &str) -> (r: bool)
    ensures
        r == carries_secret(path@),
{
    text::str_eq(path, "/dashboard/login") || text::str_eq(path, "/dashboard/logout")
}

/// What is logged of a body. Of one that carries a secret nothing is: its length and
/// digest would be enough to try secrets against.
pub fn body_log_fields(path: &str, body: &[u8]) -> (r: Option<BodyLogFields>)
    ensures
        match r {
            Some(fields) => {
                &&& !carries_secret(path@)
                &&& fields.bytes == body@.len()
                &&& fields.sha256@ == digest::hex_text(digest::sha256_digest(body@))
                &&& fields.summary@ == body_summary(path@, body@)
            },
            None => carries_secret(path@),
        },
{
    if is_dashboard_auth_path(path) {
        return None;
    }
    Some(
        BodyLogFields {
            bytes: body.len(),
            sha256: digest::sha256_hex(body),
            summary: summarize_api_body(path, body),
        },
    )
}

/// Whether a body may be logged itself: it is small and carries no secret of a session.
pub fn logs_payload(path: &str, body_len: usize) -> (r: bool)
    ensures
        r == (!carries_secret(path@) && body_len <= api_log::API_LOG_PAYLOAD_DUMP_LIMIT_BYTES),
{
    !is_dashboard_auth_path(path) && body_len <= api_log::API_LOG_PAYLOAD_DUMP_LIMIT_BYTES
}

// --- The body itself ---------------------------------------------------------------------------

/// A value with `[redacted]` in the place of every secret, at any depth.
pub open spec fn secrets_redacted(v: JsonView) -> JsonView
    decreases v,
{
    match v {
        JsonView::Array(items) => JsonView::Array(
            Seq::new(
                items.len(),
                |i: int|
                    if 0 <= i < items.len() {
                        secrets_redacted(items[i])
                    } else {
                        JsonView::Null
                    },
            ),
        ),
        JsonView::Object(m) => JsonView::Object(
            Seq::new(
                m.len(),
                |i: int|
                    if 0 <= i < m.len() {
                        if redaction::is_sensitive_key(m[i].0) {
                            (m[i].0, JsonView::Text("[redacted]"@))
                        } else {
                            (m[i].0, secrets_redacted(m[i].1))
                        }
                    } else {
                        (seq![], JsonView::Null)
                    },
            ),
        ),
        _ => v,
    }
}

fn without_secrets(value: &Json) -> (r: Json)
    ensures
        r@ == secrets_redacted(value@),
    decreases value,
{
    match value {
        Json::Array(items) => {
            let out = items_without_secrets(items);
            proof {
                json::lemma_array_view(*items);
                json::lemma_array_view(out);
                assert(json::items_view(out@) =~= secrets_redacted(value@)->Array_0);
            }
            Json::Array(out)
        },
        Json::Object(map) => {
            let out = members_without_secrets(map);
            proof {
                json::lemma_object_view(*map);
                json::lemma_object_view(out);
                assert(out@ =~= secrets_redacted(value@)->Object_0);
            }
            Json::Object(out)
        },
        _ => value.copy(),
    }
}

fn items_without_secrets(items: &Vec<Json>) -> (r: Vec<Json>)
    ensures
        r@.len() == items@.len(),
        forall|k: int| 0 <= k < items@.len() ==> (#[trigger] r@[k])@ == secrets_redacted(items@[k]@),
    decreases items,
{
    let mut out: Vec<Json> = Vec::new();
    let mut i: usize = 0;
    while i < items.len()
        invariant
            i <= items@.len(),
            out@.len() == i,
            forall|k: int| 0 <= k < i ==> (#[trigger] out@[k])@ == secrets_redacted(items@[k]@),
        decreases items@.len() - i,
    {
        out.push(without_secrets(&items[i]));
        i += 1;
    }
    out
}

fn members_without_secrets(map: &JsonMap) -> (r: JsonMap)
    ensures
        r@.len() == map@.len(),
        forall|k: int|
            0 <= k < map@.len() ==> (#[trigger] r@[k]) == if redaction::is_sensitive_key(
                map@[k].0,
            ) {
                (map@[k].0, JsonView::Text("[redacted]"@))
            } else {
                (map@[k].0, secrets_redacted(map@[k].1))
            },
    decreases map,
{
    let mut entries: Vec<(String, Json)> = Vec::new();
    let mut i: usize = 0;
    while i < map.entries.len()
        invariant
            i <= map.entries@.len(),
            entries@.len() == i,
            forall|k: int|
                0 <= k < i ==> (#[trigger] entries@[k]).0@ == map.entries@[k].0@ && entries@[k].1@
                    == if redaction::is_sensitive_key(map.entries@[k].0@) {
                    JsonView::Text("[redacted]"@)
                } else {
                    secrets_redacted(map.entries@[k].1@)
                },
        decreases map.entries@.len() - i,
    {
        let key = map.entries[i].0.clone();
        let value = if is_sensitive_payload_key(key.as_str()) {
            Json::text("[redacted]")
        } else {
            without_secrets(&map.entries[i].1)
        };
        entries.push((key, value));
        i += 1;
    }
    JsonMap { entries }
}

/// Puts `[redacted]` in the place of every secret, at any depth.
pub fn redact_payload_secrets(value: &mut Json)
    ensures
        final(value)@ == secrets_redacted(old(value)@),
{
    *value = without_secrets(value);
}

/// A value as it may be logged: without secrets and images.
pub open spec fn loggable(v: JsonView) -> JsonView {
    redaction::value_uris_redacted(secrets_redacted(v))
}

/// A value as it may be logged.
pub fn loggable_value(value: Json) -> (r: Json)
    ensures
        r@ == loggable(value@),
{
    let mut value = value;
    redact_payload_secrets(&mut value);
    redact_image_uris_in_value(&mut value);
    value
}

/// A body as it may be logged.
pub open spec fn payload(body: Seq<u8>) -> Seq<char> {
    match json::parsed_bytes(body) {
        Ok(v) => match json::rendered_json(loggable(v)) {
            Some(t) => t,
            None => "<failed to serialize json>"@,
        },
        Err(_) => redaction::uris_redacted(capture::lossy_text(body), 0),
    }
}

/// A body as it may be logged.
pub fn payload_for_log(body: &[u8]) -> (r: String)
    ensures
        r@ == payload(body@),
{
    match Json::parse_bytes(body) {
        Ok(value) => match loggable_value(value).render() {
            Some(t) => t,
            None => "<failed to serialize json>".to_owned(),
        },
        Err(_) => redact_image_uris(lossy_text_of(body).as_str()),
    }
}

/// The value under a sensitive key is never logged, wherever its object stands in an
/// array or under another key.
pub proof fn law_secret_members_are_redacted(m: Seq<(Seq<char>, JsonView)>, i: int)
    requires
        0 <= i < m.len(),
    ensures
        secrets_redacted(JsonView::Object(m)) matches JsonView::Object(r) && r.len() == m.len()
            && r[i].0 == m[i].0 && r[i].1 == if redaction::is_sensitive_key(m[i].0) {
            JsonView::Text("[redacted]"@)
        } else {
            secrets_redacted(m[i].1)
        },
{
}

/// Redacting secrets once more changes nothing.
pub proof fn law_secret_redaction_is_idempotent(v: JsonView)
    ensures
        secrets_redacted(secrets_redacted(v)) == secrets_redacted(v),
    decreases v,
{
    match v {
        JsonView::Array(items) => {
            let once = secrets_redacted(v)->Array_0;
            let twice = secrets_redacted(JsonView::Array(once))->Array_0;
            assert forall|i: int| 0 <= i < items.len() implies twice[i] == once[i] by {
                law_secret_redaction_is_idempotent(items[i]);
            }
            assert(twice =~= once);
        },
        JsonView::Object(m) => {
            let once = secrets_redacted(v)->Object_0;
            let twice = secrets_redacted(JsonView::Object(once))->Object_0;
            assert forall|i: int| 0 <= i < m.len() implies twice[i] == once[i] by {
                assert(decreases_to!(m => m[i]));
                law_secret_redaction_is_idempotent(m[i].1);
            }
            assert(twice =~= once);
        },
        _ => {},
    }
}

} // verus!
