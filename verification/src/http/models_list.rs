//! The list of models as clients of the Messages surface see it: entries of one shape, and
//! pages of them.
use vstd::prelude::*;

use crate::error;
use crate::error::AppError;
use crate::error::FailoverDisposition;
use crate::json;
use crate::json::Json;
use crate::json::JsonMap;
use crate::json::JsonNumber;
use crate::json::JsonView;
use crate::json::NumberView;
use crate::text;

verus! {

/// What a client asks of the list.
#[derive(Debug, Clone)]
pub struct ModelsListQuery {
    /// The model after which the page starts.
    pub after_id: Option<String>,
    /// The model before which the page ends.
    pub before_id: Option<String>,
    /// How many models a page holds.
    pub limit: Option<String>,
}

/// What a client gets that did something wrong.
pub open spec fn refusal(message: Seq<char>) -> error::ErrorView {
    error::shown(400, message, None, FailoverDisposition::Failover)
}

// --- The limit ---------------------------------------------------------------------------------

/// Whether a character is a decimal digit.
pub open spec fn is_digit(c: char) -> bool {
    '0' <= c <= '9'
}

/// The value of the first `n` digits.
pub open spec fn digits_value(t: Seq<char>, n: int) -> int
    decreases n,
{
    if n <= 0 || n > t.len() {
        0
    } else {
        digits_value(t, n - 1) * 10 + (t[n - 1] as int - 48)
    }
}

/// The digits of a number, without a plus sign before them.
pub open spec fn without_plus(t: Seq<char>) -> Seq<char> {
    if t.len() > 0 && t[0] == '+' {
        t.skip(1)
    } else {
        t
    }
}

/// The number that a text stands for: digits, with or without a plus sign before them, as
/// far as the type goes.
pub open spec fn parsed_number(t: Seq<char>) -> Option<int> {
    let d = without_plus(t);
    if d.len() > 0 && (forall|i: int| 0 <= i < d.len() ==> is_digit(#[trigger] d[i]))
        && digits_value(d, d.len() as int) <= usize::MAX {
        Some(digits_value(d, d.len() as int))
    } else {
        None
    }
}

proof fn lemma_digits_value(t: Seq<char>, n: int, m: int)
    requires
        0 <= n <= m <= t.len(),
        forall|i: int| 0 <= i < m ==> is_digit(#[trigger] t[i]),
    ensures
        0 <= digits_value(t, n) <= digits_value(t, m),
    decreases m,
{
    if m > n {
        lemma_digits_value(t, n, m - 1);
        assert(is_digit(t[m - 1]));
    } else if n > 0 {
        lemma_digits_value(t, n - 1, m - 1);
        assert(is_digit(t[n - 1]));
    }
}

fn parse_number(t: &str) -> (r: Option<usize>)
    ensures
        match r {
            Some(n) => parsed_number(t@) == Some(n as int),
            None => parsed_number(t@) is None,
        },
{
    let chars = text::chars_of(t);
    let start: usize = if chars.len() > 0 && chars[0] == '+' {
        1
    } else {
        0
    };
    let ghost d = without_plus(t@);
    assert(d =~= t@.skip(start as int));
    let mut value: usize = 0;
    let mut i: usize = start;
    while i < chars.len()
        invariant
            chars@ == t@,
            start <= i <= chars@.len(),
            d == t@.skip(start as int),
            d == without_plus(t@),
            value == digits_value(d, i - start),
            forall|k: int| 0 <= k < i - start ==> is_digit(#[trigger] d[k]),
        decreases chars@.len() - i,
    {
        let c = chars[i];
        assert(d[i - start] == c);
        if c < '0' || c > '9' {
            assert(!is_digit(d[i - start]));
            return None;
        }
        let code: u32 = c as u32;
        let digit: usize = (code - 48) as usize;
        proof {
            if forall|k: int| 0 <= k < d.len() ==> is_digit(#[trigger] d[k]) {
                lemma_digits_value(d, i + 1 - start, d.len() as int);
            }
        }
        value = match value.checked_mul(10) {
            Some(tens) => match tens.checked_add(digit) {
                Some(n) => n,
                None => {
                    return None;
                },
            },
            None => {
                return None;
            },
        };
        i += 1;
    }
    if i == start {
        return None;
    }
    Some(value)
}

/// How many models a page holds: as many as the client asks for, from 1 to 1000, and 20
/// where it asks for nothing.
pub open spec fn page_limit(limit: Option<Seq<char>>) -> Result<int, error::ErrorView> {
    match limit {
        Some(t) => match parsed_number(t) {
            Some(n) => if 1 <= n <= 1000 {
                Ok(n)
            } else {
                Err(refusal("limit must be between 1 and 1000"@))
            },
            None => Err(refusal("limit must be an integer from 1 to 1000"@)),
        },
        None => Ok(20),
    }
}

/// How many models a page holds.
pub fn parse_anthropic_models_limit(limit: Option<&str>) -> (r: Result<usize, AppError>)
    ensures
        match r {
            Ok(n) => page_limit(text::opt_str_view(limit)) == Ok::<int, error::ErrorView>(
                n as int,
            ),
            Err(e) => page_limit(text::opt_str_view(limit)) == Err::<int, error::ErrorView>(e@),
        },
{
    match limit {
        Some(t) => match parse_number(t) {
            Some(n) => if n >= 1 && n <= 1000 {
                Ok(n)
            } else {
                Err(AppError::bad_request("limit must be between 1 and 1000"))
            },
            None => Err(AppError::bad_request("limit must be an integer from 1 to 1000")),
        },
        None => Ok(20),
    }
}

// --- Entries -----------------------------------------------------------------------------------

/// The time of creation of a model that has none.
pub open spec fn unknown_created_at() -> Seq<char> {
    "1970-01-01T00:00:00Z"@
}

/// `chrono::DateTime::from_timestamp` and `to_rfc3339_opts` on whole seconds, with `Z`:
/// the date and time of that many seconds after the epoch, where chrono has one.
pub uninterp spec fn rfc3339_text(seconds: i64) -> Option<Seq<char>>;

/// `chrono::DateTime::from_timestamp`, then `to_rfc3339_opts`: the date and time as text,
/// which depends on the seconds alone; `None` beyond the range of chrono's dates.
#[verifier::external_body]
fn rfc3339(seconds: i64) -> (r: Option<String>)
    ensures
        text::opt_view(r) == rfc3339_text(seconds),
{
    chrono::DateTime::from_timestamp(seconds, 0).map(
        |t| t.to_rfc3339_opts(chrono::SecondsFormat::Secs, true),
    )
}

/// `serde_json::Number::as_f64` on the number with this text, cut to a whole number: none
/// below zero, and at most what the type holds.
pub uninterp spec fn whole_part(text: Seq<char>) -> Option<u64>;

/// `serde_json::Number::as_f64`, cut to a whole number, which depends on the number's
/// text alone.
#[verifier::external_body]
fn whole_part_of(t: &str) -> (r: Option<u64>)
    ensures
        r == whole_part(t@),
{
    match t.parse::<serde_json::Number>() {
        Ok(n) => match n.as_f64() {
            Some(f) => Some(f as u64),
            None => None,
        },
        Err(_) => None,
    }
}

/// The whole seconds that a number stands for: none below zero.
pub open spec fn seconds_of(v: JsonView) -> Option<u64> {
    match v {
        JsonView::Number(NumberView::Unsigned(n)) => Some(n),
        JsonView::Number(NumberView::Negative(i)) => if i >= 0 {
            Some(i as u64)
        } else {
            Some(0)
        },
        JsonView::Number(NumberView::Decimal(t)) => whole_part(t),
        _ => None,
    }
}

/// Unsigned seconds as signed ones, which start over where the type ends.
pub open spec fn signed_seconds(n: u64) -> i64 {
    if n <= i64::MAX {
        n as i64
    } else {
        (n - 18446744073709551616) as i64
    }
}

/// When a model was created: the text `created_at`, or else the seconds `created`, as
/// date and time.
pub open spec fn created_at(m: Seq<(Seq<char>, JsonView)>) -> Option<Seq<char>> {
    match json::text_member(m, "created_at"@) {
        Some(t) => Some(t),
        None => match json::member(m, "created"@) {
            Some(v) => match seconds_of(v) {
                Some(n) => rfc3339_text(signed_seconds(n)),
                None => None,
            },
            None => None,
        },
    }
}

fn seconds_in(v: &Json) -> (r: Option<u64>)
    ensures
        r == seconds_of(v@),
{
    match v {
        Json::Number(JsonNumber::Unsigned(n)) => Some(*n),
        Json::Number(JsonNumber::Negative(i)) => if *i >= 0 {
            Some(*i as u64)
        } else {
            Some(0)
        },
        Json::Number(JsonNumber::Decimal(t)) => whole_part_of(t.as_str()),
        _ => None,
    }
}

fn parse_created_at(map: &JsonMap) -> (r: Option<String>)
    ensures
        text::opt_view(r) == created_at(map@),
{
    match map.get_text("created_at") {
        Some(t) => Some(t.to_owned()),
        None => match map.get("created") {
            Some(v) => match seconds_in(v) {
                Some(n) => {
                    let seconds: i64 = if n <= 9223372036854775807 {
                        n as i64
                    } else {
                        (n as i128 - 18446744073709551616) as i64
                    };
                    rfc3339(seconds)
                },
                None => None,
            },
            None => None,
        },
    }
}

/// What is not supported.
pub open spec fn unsupported() -> JsonView {
    JsonView::Object(json::set_member(seq![], "supported"@, JsonView::Bool(false)))
}

/// The ways to manage context, none supported.
pub open spec fn context_capabilities() -> JsonView {
    let m = json::set_member(seq![], "clear_thinking_20251015"@, unsupported());
    let m = json::set_member(m, "clear_tool_uses_20250919"@, unsupported());
    let m = json::set_member(m, "compact_20260112"@, unsupported());
    JsonView::Object(json::set_member(m, "supported"@, JsonView::Bool(false)))
}

/// The levels of effort, none supported.
pub open spec fn effort_capabilities() -> JsonView {
    let m = json::set_member(seq![], "high"@, unsupported());
    let m = json::set_member(m, "low"@, unsupported());
    let m = json::set_member(m, "max"@, unsupported());
    let m = json::set_member(m, "medium"@, unsupported());
    JsonView::Object(json::set_member(m, "supported"@, JsonView::Bool(false)))
}

/// The ways to reason, none supported.
pub open spec fn thinking_capabilities() -> JsonView {
    let types = json::set_member(seq![], "adaptive"@, unsupported());
    let types = json::set_member(types, "enabled"@, unsupported());
    let m = json::set_member(seq![], "supported"@, JsonView::Bool(false));
    JsonView::Object(json::set_member(m, "types"@, JsonView::Object(types)))
}

/// What a model can do of which nothing is known: nothing.
pub open spec fn default_capabilities() -> JsonView {
    let m = json::set_member(seq![], "batch"@, unsupported());
    let m = json::set_member(m, "citations"@, unsupported());
    let m = json::set_member(m, "code_execution"@, unsupported());
    let m = json::set_member(m, "context_management"@, context_capabilities());
    let m = json::set_member(m, "effort"@, effort_capabilities());
    let m = json::set_member(m, "image_input"@, unsupported());
    let m = json::set_member(m, "pdf_input"@, unsupported());
    let m = json::set_member(m, "structured_outputs"@, unsupported());
    JsonView::Object(json::set_member(m, "thinking"@, thinking_capabilities()))
}

fn unsupported_value() -> (r: Json)
    ensures
        r@ == unsupported(),
{
    let mut m = JsonMap::new();
    m.put("supported", Json::Bool(false));
    m.into_json()
}

/// What a model can do of which nothing is known: nothing.
pub fn default_anthropic_model_capabilities() -> (r: Json)
    ensures
        r@ == default_capabilities(),
{
    let mut context = JsonMap::new();
    context.put("clear_thinking_20251015", unsupported_value());
    context.put("clear_tool_uses_20250919", unsupported_value());
    context.put("compact_20260112", unsupported_value());
    context.put("supported", Json::Bool(false));
    let mut effort = JsonMap::new();
    effort.put("high", unsupported_value());
    effort.put("low", unsupported_value());
    effort.put("max", unsupported_value());
    effort.put("medium", unsupported_value());
    effort.put("supported", Json::Bool(false));
    let mut types = JsonMap::new();
    types.put("adaptive", unsupported_value());
    types.put("enabled", unsupported_value());
    let mut thinking = JsonMap::new();
    thinking.put("supported", Json::Bool(false));
    thinking.put("types", types.into_json());
    let mut m = JsonMap::new();
    m.put("batch", unsupported_value());
    m.put("citations", unsupported_value());
    m.put("code_execution", unsupported_value());
    m.put("context_management", context.into_json());
    m.put("effort", effort.into_json());
    m.put("image_input", unsupported_value());
    m.put("pdf_input", unsupported_value());
    m.put("structured_outputs", unsupported_value());
    m.put("thinking", thinking.into_json());
    m.into_json()
}

/// A whole number that is not negative, 0 in the place of anything else.
pub open spec fn number_or_zero(v: Option<JsonView>) -> JsonView {
    match v {
        Some(JsonView::Number(NumberView::Unsigned(n))) => json::whole(n as int),
        Some(JsonView::Number(NumberView::Negative(i))) => if i >= 0 {
            json::whole(i as int)
        } else {
            json::whole(0)
        },
        _ => json::whole(0),
    }
}

fn numeric_field_or_zero(value: Option<&Json>) -> (r: Json)
    ensures
        r@ == number_or_zero(
            match value {
                Some(v) => Some(v@),
                None => None,
            },
        ),
{
    match value {
        Some(Json::Number(JsonNumber::Unsigned(n))) => Json::unsigned(*n),
        Some(Json::Number(JsonNumber::Negative(i))) => if *i >= 0 {
            Json::unsigned(*i as u64)
        } else {
            Json::unsigned(0)
        },
        _ => Json::unsigned(0),
    }
}

/// The first of two members that is there.
pub open spec fn or_member(
    v: Option<JsonView>,
    m: Seq<(Seq<char>, JsonView)>,
    key: Seq<char>,
) -> Option<JsonView> {
    match v {
        Some(v) => Some(v),
        None => json::member(m, key),
    }
}

/// How many input tokens a model takes, under the first name that is there.
pub open spec fn input_tokens(m: Seq<(Seq<char>, JsonView)>) -> Option<JsonView> {
    let v = json::member(m, "max_input_tokens"@);
    let v = or_member(v, m, "context_length"@);
    let v = or_member(v, m, "context_window"@);
    let v = or_member(v, m, "max_context_length"@);
    or_member(v, m, "max_model_len"@)
}

/// How many output tokens a model gives, under the first name that is there.
pub open spec fn output_tokens(m: Seq<(Seq<char>, JsonView)>) -> Option<JsonView> {
    or_member(json::member(m, "max_tokens"@), m, "max_output_tokens"@)
}

/// An entry of the list.
pub open spec fn entry(
    id: Seq<char>,
    display_name: Seq<char>,
    created: Seq<char>,
    max_input_tokens: Option<JsonView>,
    max_tokens: Option<JsonView>,
    capabilities: JsonView,
) -> JsonView {
    let m = json::put_text(seq![], "id"@, id);
    let m = json::set_member(m, "capabilities"@, capabilities);
    let m = json::put_text(m, "created_at"@, created);
    let m = json::put_text(m, "display_name"@, display_name);
    let m = json::set_member(m, "max_input_tokens"@, number_or_zero(max_input_tokens));
    let m = json::set_member(m, "max_tokens"@, number_or_zero(max_tokens));
    JsonView::Object(json::put_text(m, "type"@, "model"@))
}

/// The entry of a model of the upstream: a text is its id, and an object must have one.
pub open spec fn model_entry(v: JsonView) -> Option<JsonView> {
    match v {
        JsonView::Text(id) => Some(
            entry(id, id, unknown_created_at(), None, None, default_capabilities()),
        ),
        JsonView::Object(m) => match json::text_member(m, "id"@) {
            Some(id) => Some(
                entry(
                    id,
                    match json::text_member(m, "display_name"@) {
                        Some(t) => t,
                        None => id,
                    },
                    match created_at(m) {
                        Some(t) => t,
                        None => unknown_created_at(),
                    },
                    input_tokens(m),
                    output_tokens(m),
                    match json::member(m, "capabilities"@) {
                        Some(JsonView::Object(c)) => JsonView::Object(c),
                        _ => default_capabilities(),
                    },
                ),
            ),
            None => None,
        },
        _ => None,
    }
}

fn build_anthropic_model_entry(
    id: &str,
    display_name: &str,
    created: &str,
    max_input_tokens: Option<&Json>,
    max_tokens: Option<&Json>,
    capabilities: Json,
) -> (r: Json)
    ensures
        r@ == entry(
            id@,
            display_name@,
            created@,
            match max_input_tokens {
                Some(v) => Some(v@),
                None => None,
            },
            match max_tokens {
                Some(v) => Some(v@),
                None => None,
            },
            capabilities@,
        ),
{
    let mut m = JsonMap::new();
    m.put_text("id", id);
    m.put("capabilities", capabilities);
    m.put_text("created_at", created);
    m.put_text("display_name", display_name);
    m.put("max_input_tokens", numeric_field_or_zero(max_input_tokens));
    m.put("max_tokens", numeric_field_or_zero(max_tokens));
    m.put_text("type", "model");
    m.into_json()
}

fn or_get<'a>(v: Option<&'a Json>, map: &'a JsonMap, key: &str) -> (r: Option<&'a Json>)
    ensures
        (match r {
            Some(j) => Some(j@),
            None => None,
        }) == or_member(
            match v {
                Some(j) => Some(j@),
                None => None,
            },
            map@,
            key@,
        ),
{
    match v {
        Some(v) => Some(v),
        None => map.get(key),
    }
}

/// The entry of a model of the upstream.
pub fn anthropic_model_entry(entry: &Json) -> (r: Option<Json>)
    ensures
        json::opt_json_view(r) == model_entry(entry@),
{
    match entry {
        Json::Text(id) => Some(
            build_anthropic_model_entry(
                id.as_str(),
                id.as_str(),
                "1970-01-01T00:00:00Z",
                None,
                None,
                default_anthropic_model_capabilities(),
            ),
        ),
        Json::Object(map) => {
            proof {
                json::lemma_object_view(*map);
            }
            let id = match map.get_text("id") {
                Some(id) => id,
                None => {
                    return None;
                },
            };
            let display_name = match map.get_text("display_name") {
                Some(t) => t,
                None => id,
            };
            let created = match parse_created_at(map) {
                Some(t) => t,
                None => "1970-01-01T00:00:00Z".to_owned(),
            };
            let input = map.get("max_input_tokens");
            let input = or_get(input, map, "context_length");
            let input = or_get(input, map, "context_window");
            let input = or_get(input, map, "max_context_length");
            let input = or_get(input, map, "max_model_len");
            let output = or_get(map.get("max_tokens"), map, "max_output_tokens");
            let capabilities = match map.get("capabilities") {
                Some(Json::Object(c)) => {
                    proof {
                        json::lemma_object_view(*c);
                    }
                    c.copy().into_json()
                },
                _ => default_anthropic_model_capabilities(),
            };
            Some(
                build_anthropic_model_entry(
                    id,
                    display_name,
                    created.as_str(),
                    input,
                    output,
                    capabilities,
                ),
            )
        },
        _ => None,
    }
}

/// The models of an upstream's list: an array, or the array `data` of an object, or else
/// its array `models`.
pub open spec fn listed_models(body: JsonView) -> Seq<JsonView> {
    match body {
        JsonView::Array(items) => items,
        JsonView::Object(m) => match or_member(json::member(m, "data"@), m, "models"@) {
            Some(JsonView::Array(items)) => items,
            _ => Seq::empty(),
        },
        _ => Seq::empty(),
    }
}

/// The entries of the first `n` models that have one.
pub open spec fn entries_of(models: Seq<JsonView>, n: int) -> Seq<JsonView>
    decreases n,
{
    if n <= 0 || n > models.len() {
        Seq::empty()
    } else {
        match model_entry(models[n - 1]) {
            Some(e) => entries_of(models, n - 1).push(e),
            None => entries_of(models, n - 1),
        }
    }
}

/// The entries of an upstream's list.
pub open spec fn list_entries(body: JsonView) -> Seq<JsonView> {
    entries_of(listed_models(body), listed_models(body).len() as int)
}

fn entries_from(models: &Vec<Json>) -> (r: Vec<Json>)
    ensures
        json::items_view(r@) == entries_of(json::items_view(models@), models@.len() as int),
{
    let ghost views = json::items_view(models@);
    let mut out: Vec<Json> = Vec::new();
    assert(json::items_view(out@) =~= Seq::<JsonView>::empty());
    let mut i: usize = 0;
    while i < models.len()
        invariant
            i <= models@.len(),
            views == json::items_view(models@),
            json::items_view(out@) == entries_of(views, i as int),
        decreases models@.len() - i,
    {
        if let Some(e) = anthropic_model_entry(&models[i]) {
            let ghost before = out@;
            out.push(e);
            assert(json::items_view(out@) =~= json::items_view(before).push(e@));
        }
        i += 1;
    }
    out
}

/// The entries of an upstream's list.
pub fn model_entries(body: &Json) -> (r: Vec<Json>)
    ensures
        json::items_view(r@) == list_entries(body@),
{
    let listed = match body {
        Json::Array(items) => {
            proof {
                json::lemma_array_view(*items);
            }
            Some(items)
        },
        Json::Object(map) => {
            proof {
                json::lemma_object_view(*map);
            }
            match or_get(map.get("data"), map, "models") {
                Some(v) => v.as_array(),
                None => None,
            }
        },
        _ => None,
    };
    match listed {
        Some(models) => entries_from(models),
        None => {
            let none: Vec<Json> = Vec::new();
            assert(json::items_view(none@) =~= Seq::<JsonView>::empty());
            none
        },
    }
}

// --- Pages -------------------------------------------------------------------------------------

/// The first index from `i` on whose entry has the id; the length where none has.
pub open spec fn entry_index(models: Seq<JsonView>, id: Seq<char>, i: int) -> int
    decreases models.len() - i,
{
    if !(0 <= i < models.len()) {
        models.len() as int
    } else if json::text_field(models[i], "id"@) == Some(id) {
        i
    } else {
        entry_index(models, id, i + 1)
    }
}

/// What is told of a cursor that no entry has.
pub open spec fn no_cursor(id: Seq<char>) -> error::ErrorView {
    refusal("model cursor not found: "@ + id)
}

/// Where a page starts and ends.
pub open spec fn page_bounds(
    models: Seq<JsonView>,
    after: Option<Seq<char>>,
    before: Option<Seq<char>>,
    limit: int,
) -> Result<(int, int), error::ErrorView> {
    match before {
        Some(id) => {
            let end = entry_index(models, id, 0);
            if end < models.len() {
                Ok((
                    if end > limit {
                        end - limit
                    } else {
                        0
                    },
                    end,
                ))
            } else {
                Err(no_cursor(id))
            }
        },
        None => match after {
            Some(id) => {
                let at = entry_index(models, id, 0);
                if at < models.len() {
                    Ok((at + 1, page_end(models, at + 1, limit)))
                } else {
                    Err(no_cursor(id))
                }
            },
            None => Ok((0, page_end(models, 0, limit))),
        },
    }
}

/// Where a page ends that starts here.
pub open spec fn page_end(models: Seq<JsonView>, start: int, limit: int) -> int {
    if start + limit < models.len() {
        start + limit
    } else {
        models.len() as int
    }
}

/// Whether there is more beyond a page, on the side to which the client goes.
pub open spec fn more_beyond(
    models: Seq<JsonView>,
    before: Option<Seq<char>>,
    bounds: (int, int),
) -> bool {
    if before is Some {
        bounds.0 > 0
    } else {
        bounds.1 < models.len()
    }
}

/// The id of the first or last entry of a page, `null` where the page is empty.
pub open spec fn entry_id(models: Seq<JsonView>, i: int) -> JsonView {
    if 0 <= i < models.len() {
        json::text_or_null(json::text_field(models[i], "id"@))
    } else {
        JsonView::Null
    }
}

/// A page of the list.
pub open spec fn page_json(page: Seq<JsonView>, has_more: bool) -> JsonView {
    let m = json::set_member(seq![], "data"@, JsonView::Array(page));
    let m = json::set_member(m, "first_id"@, entry_id(page, 0));
    let m = json::set_member(m, "has_more"@, JsonView::Bool(has_more));
    JsonView::Object(json::set_member(m, "last_id"@, entry_id(page, page.len() - 1)))
}

/// The page that a client asks for of an upstream's list.
pub open spec fn models_page(
    body: JsonView,
    after: Option<Seq<char>>,
    before: Option<Seq<char>>,
    limit: Option<Seq<char>>,
) -> Result<JsonView, error::ErrorView> {
    if after is Some && before is Some {
        Err(refusal("after_id and before_id cannot both be specified"@))
    } else {
        match page_limit(limit) {
            Ok(n) => {
                let models = list_entries(body);
                match page_bounds(models, after, before, n) {
                    Ok(bounds) => Ok(
                        page_json(
                            models.subrange(bounds.0, bounds.1),
                            more_beyond(models, before, bounds),
                        ),
                    ),
                    Err(e) => Err(e),
                }
            },
            Err(e) => Err(e),
        }
    }
}

proof fn lemma_entry_index(models: Seq<JsonView>, id: Seq<char>, i: int)
    requires
        0 <= i <= models.len(),
    ensures
        i <= entry_index(models, id, i) <= models.len(),
        entry_index(models, id, i) < models.len() ==> json::text_field(
            models[entry_index(models, id, i)],
            "id"@,
        ) == Some(id),
        forall|k: int|
            i <= k < entry_index(models, id, i) ==> json::text_field(#[trigger] models[k], "id"@)
                != Some(id),
    decreases models.len() - i,
{
    if i < models.len() && json::text_field(models[i], "id"@) != Some(id) {
        lemma_entry_index(models, id, i + 1);
    }
}

fn model_index(models: &Vec<Json>, id: &str) -> (r: Result<usize, AppError>)
    ensures
        match r {
            Ok(i) => i < models@.len() && i == entry_index(json::items_view(models@), id@, 0),
            Err(e) => {
                &&& entry_index(json::items_view(models@), id@, 0) == models@.len()
                &&& e@ == no_cursor(id@)
            },
        },
{
    let ghost views = json::items_view(models@);
    let mut i: usize = 0;
    while i < models.len()
        invariant
            i <= models@.len(),
            views == json::items_view(models@),
            entry_index(views, id@, 0) == entry_index(views, id@, i as int),
        decreases models@.len() - i,
    {
        assert(views[i as int] == models@[i as int]@);
        if let Some(other) = models[i].text_field("id") {
            if text::str_eq(other, id) {
                return Ok(i);
            }
        }
        i += 1;
    }
    Err(AppError::bad_request(text::joined("model cursor not found: ", id).as_str()))
}

fn opt_str(t: &Option<String>) -> (r: Option<&str>)
    ensures
        text::opt_str_view(r) == text::opt_view(*t),
{
    match t {
        Some(t) => Some(t.as_str()),
        None => None,
    }
}

fn bounds_of(models: &Vec<Json>, query: &ModelsListQuery, limit: usize) -> (r: Result<
    (usize, usize),
    AppError,
>)
    ensures
        match r {
            Ok(b) => page_bounds(
                json::items_view(models@),
                text::opt_view(query.after_id),
                text::opt_view(query.before_id),
                limit as int,
            ) == Ok::<(int, int), error::ErrorView>((b.0 as int, b.1 as int)) && b.0 <= b.1
                <= models@.len(),
            Err(e) => page_bounds(
                json::items_view(models@),
                text::opt_view(query.after_id),
                text::opt_view(query.before_id),
                limit as int,
            ) == Err::<(int, int), error::ErrorView>(e@),
        },
{
    if let Some(id) = &query.before_id {
        let end = match model_index(models, id.as_str()) {
            Ok(end) => end,
            Err(e) => {
                return Err(e);
            },
        };
        let start: usize = if end > limit {
            end - limit
        } else {
            0
        };
        return Ok((start, end));
    }
    let count: usize = models.len();
    let start: usize = match &query.after_id {
        Some(id) => match model_index(models, id.as_str()) {
            Ok(at) => at + 1,
            Err(e) => {
                return Err(e);
            },
        },
        None => 0,
    };
    let end: usize = if limit < count - start {
        start + limit
    } else {
        count
    };
    Ok((start, end))
}

fn page_of(models: &Vec<Json>, start: usize, end: usize, has_more: bool) -> (r: Json)
    requires
        start <= end <= models@.len(),
    ensures
        r@ == page_json(
            json::items_view(models@).subrange(start as int, end as int),
            has_more,
        ),
{
    let mut page: Vec<Json> = Vec::new();
    let mut i: usize = start;
    while i < end
        invariant
            start <= i <= end <= models@.len(),
            page@.len() == i - start,
            forall|k: int| 0 <= k < i - start ==> (#[trigger] page@[k])@ == models@[start + k]@,
        decreases end - i,
    {
        page.push(models[i].copy());
        i += 1;
    }
    let ghost views = json::items_view(page@);
    assert(views =~= json::items_view(models@).subrange(start as int, end as int));
    let first = if page.len() > 0 {
        assert(views[0] == page@[0]@);
        text::opt_owned(page[0].text_field("id"))
    } else {
        None
    };
    let last = if page.len() > 0 {
        assert(views[page@.len() - 1] == page@[page@.len() - 1]@);
        text::opt_owned(page[page.len() - 1].text_field("id"))
    } else {
        None
    };
    let mut m = JsonMap::new();
    m.put("data", Json::array(page));
    m.put_text_or_null("first_id", &first);
    m.put("has_more", Json::Bool(has_more));
    m.put_text_or_null("last_id", &last);
    m.into_json()
}

/// The page that a client asks for of an upstream's list.
pub fn transform_models_response_for_anthropic(body: &Json, query: &ModelsListQuery) -> (r: Result<
    Json,
    AppError,
>)
    ensures
        match r {
            Ok(page) => models_page(
                body@,
                text::opt_view(query.after_id),
                text::opt_view(query.before_id),
                text::opt_view(query.limit),
            ) == Ok::<JsonView, error::ErrorView>(page@),
            Err(e) => models_page(
                body@,
                text::opt_view(query.after_id),
                text::opt_view(query.before_id),
                text::opt_view(query.limit),
            ) == Err::<JsonView, error::ErrorView>(e@),
        },
{
    if query.after_id.is_some() && query.before_id.is_some() {
        return Err(AppError::bad_request("after_id and before_id cannot both be specified"));
    }
    let limit = match parse_anthropic_models_limit(opt_str(&query.limit)) {
        Ok(n) => n,
        Err(e) => {
            return Err(e);
        },
    };
    let models = model_entries(body);
    match bounds_of(&models, query, limit) {
        Ok((start, end)) => {
            let has_more = if query.before_id.is_some() {
                start > 0
            } else {
                end < models.len()
            };
            Ok(page_of(&models, start, end, has_more))
        },
        Err(e) => Err(e),
    }
}

/// Whether a client that sends these headers is one of the Messages surface.
pub fn is_anthropic_models_request(has_version: bool, has_beta: bool) -> (r: bool)
    ensures
        r == (has_version || has_beta),
{
    has_version || has_beta
}

// --- Laws --------------------------------------------------------------------------------------

/// No id is there twice.
pub open spec fn ids_distinct(models: Seq<JsonView>) -> bool {
    forall|i: int, j: int|
        0 <= i < j < models.len() ==> json::text_field(#[trigger] models[i], "id"@)
            != json::text_field(#[trigger] models[j], "id"@)
}

proof fn lemma_index_is(models: Seq<JsonView>, id: Seq<char>, at: int)
    requires
        ids_distinct(models),
        0 <= at < models.len(),
        json::text_field(models[at], "id"@) == Some(id),
    ensures
        entry_index(models, id, 0) == at,
{
    lemma_entry_index(models, id, 0);
    let i = entry_index(models, id, 0);
    if i < at {
        assert(json::text_field(models[i], "id"@) != json::text_field(models[at], "id"@));
    } else if at < i {
        assert(json::text_field(models[at], "id"@) != Some(id));
    }
}

/// A client that goes on after the last entry of a page gets the entries that follow it,
/// with none left out and none again.
pub proof fn law_pages_follow_each_other(
    models: Seq<JsonView>,
    after: Option<Seq<char>>,
    limit: int,
    last: Seq<char>,
)
    requires
        ids_distinct(models),
        limit >= 1,
        page_bounds(models, after, None, limit) matches Ok(b) && b.0 < b.1 && json::text_field(
            models[b.1 - 1],
            "id"@,
        ) == Some(last),
    ensures
        page_bounds(models, after, None, limit) matches Ok(b) && page_bounds(
            models,
            Some(last),
            None,
            limit,
        ) matches Ok(c) && c.0 == b.1,
{
    let b = page_bounds(models, after, None, limit)->Ok_0;
    if after is Some {
        lemma_entry_index(models, after->0, 0);
    }
    lemma_index_is(models, last, b.1 - 1);
}

/// A client that goes back before the first entry of a page gets the entries that come
/// right before it.
pub proof fn law_pages_go_back(models: Seq<JsonView>, at: int, limit: int, first: Seq<char>)
    requires
        ids_distinct(models),
        limit >= 1,
        0 <= at < models.len(),
        json::text_field(models[at], "id"@) == Some(first),
    ensures
        page_bounds(models, None, Some(first), limit) matches Ok(b) && b.1 == at && b.0 <= b.1
            && b.1 - b.0 <= limit && (b.0 > 0 ==> b.1 - b.0 == limit),
{
    lemma_index_is(models, first, at);
}

/// A page never holds more than its limit, and less only where the list ends.
pub proof fn law_page_is_within_its_limit(
    models: Seq<JsonView>,
    after: Option<Seq<char>>,
    before: Option<Seq<char>>,
    limit: int,
)
    requires
        limit >= 1,
    ensures
        page_bounds(models, after, before, limit) matches Ok(b) ==> {
            &&& 0 <= b.0 <= b.1 <= models.len()
            &&& b.1 - b.0 <= limit
            &&& more_beyond(models, before, b) ==> b.1 - b.0 == limit
        },
{
    if before is Some {
        lemma_entry_index(models, before->0, 0);
    }
    if after is Some {
        lemma_entry_index(models, after->0, 0);
    }
}

} // verus!
