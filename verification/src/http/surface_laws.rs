//! What the gateway answers at its routes, member by member, and what it passes on.
use vstd::prelude::*;

use crate::error;
use crate::http::models_list;
use crate::http::routes;
use crate::http::routes::FlowKillOutcome;
use crate::json;
use crate::json::JsonView;
use crate::json::NumberView;
use crate::models::written;
use crate::proxy_headers;
use crate::raw::SseEvent;
use crate::text;
use crate::text_laws;

verus! {

// --- Headers -----------------------------------------------------------------------------------

/// A header of a response is passed on unless it is hop by hop or tells the length.
pub proof fn law_response_headers_are_passed_on(name: Seq<char>)
    ensures
        routes::is_passed_on(name) <==> !proxy_headers::is_hop_by_hop(name)
            && text::ascii_lower_seq(name) != text::ascii_lower_seq("content-length"@),
{
}

/// A header of a request is sent on unless it is hop by hop, or tells the credential, the
/// host or the length.
pub proof fn law_request_headers_are_sent_on(name: Seq<char>)
    ensures
        routes::is_sent_on(name) <==> !proxy_headers::is_hop_by_hop(name)
            && text::ascii_lower_seq(name) != text::ascii_lower_seq("authorization"@)
            && text::ascii_lower_seq(name) != text::ascii_lower_seq("host"@)
            && text::ascii_lower_seq(name) != text::ascii_lower_seq("content-length"@),
{
}

/// Exactly the headers that may be passed on are, each once and in order.
pub proof fn law_passed_on_headers(names: Seq<Seq<char>>, n: int, i: int)
    requires
        0 <= i < n <= names.len() <= usize::MAX,
    ensures
        routes::passed_on(names, n).contains(i as usize) <==> routes::is_passed_on(names[i]),
        forall|a: int, b: int|
            0 <= a < b < routes::passed_on(names, n).len() ==> routes::passed_on(names, n)[a]
                < routes::passed_on(names, n)[b],
        forall|a: int|
            0 <= a < routes::passed_on(names, n).len()
                ==> (#[trigger] routes::passed_on(names, n)[a])
                < n,
    decreases n,
{
    let all = routes::passed_on(names, n);
    lemma_passed_on(names, n);
    if i == n - 1 {
        if routes::is_passed_on(names[i]) {
            assert(all[all.len() - 1] == i as usize);
        } else {
            lemma_passed_on(names, n - 1);
            if all.contains(i as usize) {
                let k = choose|k: int| 0 <= k < all.len() && all[k] == i as usize;
                assert(routes::passed_on(names, n - 1)[k] < n - 1);
            }
        }
    } else {
        law_passed_on_headers(names, n - 1, i);
        let rest = routes::passed_on(names, n - 1);
        if rest.contains(i as usize) {
            let k = choose|k: int| 0 <= k < rest.len() && rest[k] == i as usize;
            assert(all[k] == i as usize);
        }
        if all.contains(i as usize) {
            let k = choose|k: int| 0 <= k < all.len() && all[k] == i as usize;
            if k < rest.len() {
                assert(rest[k] == i as usize);
            }
        }
    }
}

proof fn lemma_passed_on(names: Seq<Seq<char>>, n: int)
    requires
        0 <= n <= names.len() <= usize::MAX,
    ensures
        forall|a: int|
            0 <= a < routes::passed_on(names, n).len()
                ==> (#[trigger] routes::passed_on(names, n)[a])
                < n,
        forall|a: int, b: int|
            0 <= a < b < routes::passed_on(names, n).len() ==> routes::passed_on(names, n)[a]
                < routes::passed_on(names, n)[b],
    decreases n,
{
    if n > 0 {
        lemma_passed_on(names, n - 1);
        let rest = routes::passed_on(names, n - 1);
        let all = routes::passed_on(names, n);
        assert forall|a: int| 0 <= a < all.len() implies (#[trigger] all[a]) < n by {
            if a < rest.len() {
                assert(all[a] == rest[a]);
            }
        }
        assert forall|a: int, b: int| 0 <= a < b < all.len() implies all[a] < all[b] by {
            assert(all[a] == rest[a]);
            if b < rest.len() {
                assert(all[b] == rest[b]);
            }
        }
    }
}

/// A text is told in a header just where it is not empty and has no control codes but tabs.
pub proof fn law_header_text_is_the_text(t: Seq<char>)
    ensures
        routes::header_text(t) matches Some(h) ==> h == t && t.len() > 0,
        routes::header_text(t) is Some <==> t.len() > 0 && forall|i: int|
            0 <= i < vstd::utf8::encode_utf8(t).len() ==> (
            #[trigger] vstd::utf8::encode_utf8(t)[i] == 9 || (vstd::utf8::encode_utf8(t)[i] >= 32
                && vstd::utf8::encode_utf8(t)[i] != 127)),
{
}

// --- Ending a flow -----------------------------------------------------------------------------

/// Who ended a flow is told which one, by its id.
pub proof fn law_killed_flow_is_named(outcome: FlowKillOutcome, api_call_id: Seq<char>)
    ensures
        outcome is Killed
            ==> routes::kill_answer(outcome, api_call_id).0 == 200
                && routes::kill_answer(outcome, api_call_id).1 is Object && json::member(
            routes::kill_answer(outcome, api_call_id).1->Object_0,
            "api_call_id"@,
        ) == Some(JsonView::Text(api_call_id)) && json::member(routes::kill_answer(
            outcome,
            api_call_id,
        ).1->Object_0, "killed"@) == Some(
            JsonView::Bool(true),
        ),
        outcome is NotFound
            ==> routes::kill_answer(outcome, api_call_id).0 == 404
                && routes::kill_answer(outcome, api_call_id).1 is Object && json::member(
            routes::kill_answer(outcome, api_call_id).1->Object_0,
            "error"@,
        ) == Some(JsonView::Text("no live flow for that id"@)),
        outcome matches FlowKillOutcome::Denied(d)
            ==> routes::kill_answer(outcome, api_call_id).0 == d.status
                && routes::kill_answer(outcome, api_call_id).1 is Object
            && json::member(routes::kill_answer(outcome, api_call_id).1->Object_0, "error"@)
                == Some(JsonView::Text(d.message@)),
        !(outcome is Killed)
            ==> json::member(
                routes::kill_answer(outcome, api_call_id).1->Object_0,
                "killed"@,
            ) is None,
{
    broadcast use written::group_members;

    reveal_strlit("api_call_id");
    reveal_strlit("killed");
    reveal_strlit("error");
    assert("api_call_id"@.len() == 11);
    assert("killed"@.len() == 6);
    assert("error"@.len() == 5);
}

// --- Answers -----------------------------------------------------------------------------------

/// An error on the Messages surface says that it is one, of which type, and the message.
pub proof fn law_messages_error_members(e: error::ErrorView)
    ensures
        routes::messages_error(e) is Object,
        json::member(routes::messages_error(e)->Object_0, "type"@) == Some(
            JsonView::Text("error"@),
        ),
        json::member(routes::messages_error(e)->Object_0, "error"@) matches Some(
            JsonView::Object(inner),
        ) && json::member(inner, "message"@) == Some(JsonView::Text(e.message)) && json::member(
            inner,
            "type"@,
        ) == Some(
            JsonView::Text(
                if e.status == 400 || e.status == 409 {
                    "invalid_request_error"@
                } else {
                    "api_error"@
                },
            ),
        ),
{
    broadcast use written::group_members;

    reveal_strlit("type");
    reveal_strlit("error");
    reveal_strlit("message");
    assert("type"@.len() == 4);
    assert("error"@.len() == 5);
    assert("message"@.len() == 7);
}

/// What a failed response is told to be is its error's message, where it has one.
pub proof fn law_failure_tells_its_message(
    data: Seq<(Seq<char>, JsonView)>,
    response: Seq<(Seq<char>, JsonView)>,
    inner: Seq<(Seq<char>, JsonView)>,
    t: Seq<char>,
)
    requires
        json::member(data, "response"@) == Some(JsonView::Object(response)),
        json::member(response, "error"@) == Some(JsonView::Object(inner)),
    ensures
        json::member(inner, "message"@) == Some(JsonView::Text(t)) ==> routes::failure_message(
            JsonView::Object(data),
        ) == t,
        json::member(inner, "message"@) is None ==> routes::failure_message(JsonView::Object(data))
            == "upstream request failed"@,
{
}

/// A stream comes to the response that its last final event brought; a failed event ends it.
pub proof fn law_final_event_brings_the_response(events: Seq<SseEvent>, event: SseEvent)
    requires
        routes::collected(events) is Ok,
    ensures
        event.event@ == "response.completed"@ || event.event@ == "response.incomplete"@
            ==> routes::collected(events.push(event)) == Ok::<Option<JsonView>, Seq<char>>(
            json::field(event.data@, "response"@),
        ),
        event.event@ == "response.failed"@ ==> routes::collected(events.push(event)) == Err::<
            Option<JsonView>,
            Seq<char>,
        >(routes::failure_message(event.data@)),
        event.event@ != "response.completed"@ && event.event@ != "response.incomplete"@
            && event.event@ != "response.failed"@ ==> routes::collected(events.push(event))
            == routes::collected(events),
{
    reveal_strlit("response.completed");
    reveal_strlit("response.incomplete");
    reveal_strlit("response.failed");
    assert("response.completed"@.len() == 18);
    assert("response.incomplete"@.len() == 19);
    assert("response.failed"@.len() == 15);
    assert(events.push(event).drop_last() =~= events);
}

// --- Lists of models ---------------------------------------------------------------------------

proof fn lemma_digits(t: Seq<char>, n: int)
    requires
        0 <= n <= t.len(),
    ensures
        models_list::digits_value(t, n) == text_laws::decimal_value(t.take(n)),
    decreases n,
{
    if n > 0 {
        lemma_digits(t, n - 1);
        assert(t.take(n).drop_last() =~= t.take(n - 1));
        assert('0' as int == 48);
    }
}

/// A page holds as many models as are asked for, by the number in decimal, from 1 to 1000.
pub proof fn law_limit_is_what_is_asked_for(n: nat)
    ensures
        1 <= n <= 1000 ==> models_list::page_limit(Some(text::decimal(n))) == Ok::<
            int,
            error::ErrorView,
        >(n as int),
        n == 0 || n > 1000 ==> models_list::page_limit(Some(text::decimal(n))) is Err,
        models_list::page_limit(None) == Ok::<int, error::ErrorView>(20),
{
    let t = text::decimal(n);
    text_laws::law_decimal_is_the_number(n);
    assert('0' <= t[0] <= '9');
    assert(models_list::without_plus(t) == t);
    lemma_digits(t, t.len() as int);
    assert(t.take(t.len() as int) =~= t);
    assert forall|i: int| 0 <= i < t.len() implies models_list::is_digit(#[trigger] t[i]) by {
        assert('0' <= t[i] <= '9');
    }
}

/// An entry tells each thing of a model under its own name, and nothing else.
pub proof fn law_entry_members(
    id: Seq<char>,
    display_name: Seq<char>,
    created: Seq<char>,
    max_input_tokens: Option<JsonView>,
    max_tokens: Option<JsonView>,
    capabilities: JsonView,
)
    ensures
        models_list::entry(
            id,
            display_name,
            created,
            max_input_tokens,
            max_tokens,
            capabilities,
        ) is Object,
        json::member(
            models_list::entry(
                id,
                display_name,
                created,
                max_input_tokens,
                max_tokens,
                capabilities,
            )->Object_0,
            "id"@,
        )
            == Some(JsonView::Text(id)),
        json::member(
            models_list::entry(
                id,
                display_name,
                created,
                max_input_tokens,
                max_tokens,
                capabilities,
            )->Object_0,
            "capabilities"@,
        )
            == Some(capabilities),
        json::member(
            models_list::entry(
                id,
                display_name,
                created,
                max_input_tokens,
                max_tokens,
                capabilities,
            )->Object_0,
            "created_at"@,
        )
            == Some(JsonView::Text(created)),
        json::member(
            models_list::entry(
                id,
                display_name,
                created,
                max_input_tokens,
                max_tokens,
                capabilities,
            )->Object_0,
            "display_name"@,
        )
            == Some(JsonView::Text(display_name)),
        json::member(
            models_list::entry(
                id,
                display_name,
                created,
                max_input_tokens,
                max_tokens,
                capabilities,
            )->Object_0,
            "max_input_tokens"@,
        )
            == Some(models_list::number_or_zero(max_input_tokens)),
        json::member(
            models_list::entry(
                id,
                display_name,
                created,
                max_input_tokens,
                max_tokens,
                capabilities,
            )->Object_0,
            "max_tokens"@,
        )
            == Some(models_list::number_or_zero(max_tokens)),
        json::member(
            models_list::entry(
                id,
                display_name,
                created,
                max_input_tokens,
                max_tokens,
                capabilities,
            )->Object_0,
            "type"@,
        )
            == Some(JsonView::Text("model"@)),
        forall|k: Seq<char>|
            k != "id"@ && k != "capabilities"@ && k != "created_at"@ && k != "display_name"@
                && k != "max_input_tokens"@ && k != "max_tokens"@ && k != "type"@
                ==> (
                #[trigger] json::member(
                    models_list::entry(
                        id,
                        display_name,
                        created,
                        max_input_tokens,
                        max_tokens,
                        capabilities,
                    )->Object_0,
                    k,
                )
                ) is None,
{
    broadcast use written::group_members;

    reveal_strlit("id");
    reveal_strlit("capabilities");
    reveal_strlit("created_at");
    reveal_strlit("display_name");
    reveal_strlit("max_input_tokens");
    reveal_strlit("max_tokens");
    reveal_strlit("type");
    assert("id"@.len() == 2);
    assert("capabilities"@.len() == 12);
    assert("created_at"@.len() == 10);
    assert("display_name"@.len() == 12);
    assert("max_input_tokens"@.len() == 16);
    assert("max_tokens"@.len() == 10);
    assert("type"@.len() == 4);
    assert("capabilities"@[0] != "display_name"@[0]);
    assert("created_at"@[0] != "max_tokens"@[0]);
}

/// A count that is a whole number and not negative is told as it is, anything else as zero.
pub proof fn law_counts_are_kept(n: u64, v: JsonView)
    ensures
        models_list::number_or_zero(Some(JsonView::Number(NumberView::Unsigned(n))))
            == JsonView::Number(NumberView::Unsigned(n)),
        !(v is Number) ==> models_list::number_or_zero(Some(v)) == JsonView::Number(
            NumberView::Unsigned(0),
        ),
        models_list::number_or_zero(None) == JsonView::Number(NumberView::Unsigned(0)),
{
}

/// What the entry of a model tells: its id, its name or else its id, how much it takes and
/// gives under the names that upstreams have for it, and what it can do.
pub proof fn law_entry_tells_the_model(m: Seq<(Seq<char>, JsonView)>, id: Seq<char>)
    requires
        json::member(m, "id"@) == Some(JsonView::Text(id)),
    ensures
        models_list::model_entry(JsonView::Object(m)) matches Some(JsonView::Object(e)) && {
            &&& json::member(e, "id"@) == Some(JsonView::Text(id))
            &&& json::member(e, "type"@) == Some(JsonView::Text("model"@))
            &&& json::member(m, "display_name"@) matches Some(JsonView::Text(t)) ==> json::member(
                e,
                "display_name"@,
            ) == Some(JsonView::Text(t))
            &&& json::member(m, "display_name"@) is None ==> json::member(e, "display_name"@)
                == Some(JsonView::Text(id))
            &&& json::member(m, "created_at"@) matches Some(JsonView::Text(t)) ==> json::member(
                e,
                "created_at"@,
            ) == Some(JsonView::Text(t))
            &&& json::member(m, "created_at"@) is None && json::member(m, "created"@) is None
                ==> json::member(e, "created_at"@) == Some(
                JsonView::Text("1970-01-01T00:00:00Z"@),
            )
            &&& json::member(m, "capabilities"@) matches Some(JsonView::Object(c))
                ==> json::member(e, "capabilities"@) == Some(JsonView::Object(c))
            &&& json::member(m, "capabilities"@) is None ==> json::member(e, "capabilities"@)
                == Some(models_list::default_capabilities())
        },
{
    law_entry_members(
        id,
        match json::text_member(m, "display_name"@) {
            Some(t) => t,
            None => id,
        },
        match models_list::created_at(m) {
            Some(t) => t,
            None => models_list::unknown_created_at(),
        },
        models_list::input_tokens(m),
        models_list::output_tokens(m),
        match json::member(m, "capabilities"@) {
            Some(JsonView::Object(c)) => JsonView::Object(c),
            _ => models_list::default_capabilities(),
        },
    );
}

/// How much a model takes and gives is told under the first of its names that is there.
pub proof fn law_counts_go_by_their_names(
    m: Seq<(Seq<char>, JsonView)>,
    id: Seq<char>,
    n: u64,
)
    requires
        json::member(m, "id"@) == Some(JsonView::Text(id)),
    ensures
        models_list::model_entry(JsonView::Object(m)) matches Some(JsonView::Object(e)) && {
            let count = Some(JsonView::Number(NumberView::Unsigned(n)));
            &&& json::member(m, "max_input_tokens"@) == count ==> json::member(
                e,
                "max_input_tokens"@,
            ) == count
            &&& json::member(m, "max_input_tokens"@) is None
                && json::member(m, "context_length"@) == count
                ==> json::member(e, "max_input_tokens"@) == count
            &&& json::member(m, "max_input_tokens"@) is None
                && json::member(m, "context_length"@) is None
                && json::member(m, "context_window"@) == count
                ==> json::member(e, "max_input_tokens"@) == count
            &&& json::member(m, "max_input_tokens"@) is None
                && json::member(m, "context_length"@) is None
                && json::member(m, "context_window"@) is None
                && json::member(m, "max_context_length"@) == count
                ==> json::member(e, "max_input_tokens"@) == count
            &&& json::member(m, "max_input_tokens"@) is None
                && json::member(m, "context_length"@) is None
                && json::member(m, "context_window"@) is None
                && json::member(m, "max_context_length"@) is None
                && json::member(m, "max_model_len"@) == count
                ==> json::member(e, "max_input_tokens"@) == count
            &&& json::member(m, "max_tokens"@) == count ==> json::member(e, "max_tokens"@) == count
            &&& json::member(m, "max_tokens"@) is None && json::member(m, "max_output_tokens"@)
                == count ==> json::member(e, "max_tokens"@) == count
        },
{
    law_entry_members(
        id,
        match json::text_member(m, "display_name"@) {
            Some(t) => t,
            None => id,
        },
        match models_list::created_at(m) {
            Some(t) => t,
            None => models_list::unknown_created_at(),
        },
        models_list::input_tokens(m),
        models_list::output_tokens(m),
        match json::member(m, "capabilities"@) {
            Some(JsonView::Object(c)) => JsonView::Object(c),
            _ => models_list::default_capabilities(),
        },
    );
}

/// A model that is only named has an entry under that name; what has no id has none.
pub proof fn law_named_model_has_an_entry(id: Seq<char>, m: Seq<(Seq<char>, JsonView)>)
    ensures
        models_list::model_entry(JsonView::Text(id)) matches Some(JsonView::Object(e))
            && json::member(e, "id"@) == Some(JsonView::Text(id)) && json::member(
            e,
            "display_name"@,
        ) == Some(JsonView::Text(id)),
        json::member(m, "id"@) is None ==> models_list::model_entry(JsonView::Object(m)) is None,
{
    law_entry_members(
        id,
        id,
        models_list::unknown_created_at(),
        None,
        None,
        models_list::default_capabilities(),
    );
}

/// Of a model of which nothing is known, nothing is said to be supported.
pub proof fn law_nothing_is_supported_unsaid(k: Seq<char>)
    ensures
        models_list::default_capabilities() is Object,
        json::member(models_list::default_capabilities()->Object_0, k) matches Some(v) ==> v
            is Object && json::member(v->Object_0, "supported"@) == Some(JsonView::Bool(false)),
        json::member(models_list::default_capabilities()->Object_0, k) is Some <==> (k == "batch"@
            || k == "citations"@ || k == "code_execution"@ || k == "context_management"@ || k
            == "effort"@ || k == "image_input"@ || k == "pdf_input"@ || k == "structured_outputs"@
            || k == "thinking"@),
{
    broadcast use written::group_members;

    reveal_strlit("supported");
    reveal_strlit("types");
    reveal_strlit("high");
    reveal_strlit("low");
    reveal_strlit("max");
    reveal_strlit("medium");
    reveal_strlit("clear_thinking_20251015");
    reveal_strlit("clear_tool_uses_20250919");
    reveal_strlit("compact_20260112");
    assert("supported"@.len() == 9);
    assert("types"@.len() == 5);
    assert("high"@.len() == 4);
    assert("low"@.len() == 3);
    assert("max"@.len() == 3);
    assert("medium"@.len() == 6);
    assert("clear_thinking_20251015"@.len() == 23);
    assert("clear_tool_uses_20250919"@.len() == 24);
    assert("compact_20260112"@.len() == 16);
    assert("low"@[0] != "max"@[0]);
}

/// The models of a list are its own elements, or those under `data`, or else under `models`.
pub proof fn law_models_are_found_in_a_list(
    items: Seq<JsonView>,
    m: Seq<(Seq<char>, JsonView)>,
)
    ensures
        models_list::listed_models(JsonView::Array(items)) == items,
        json::member(m, "data"@) == Some(JsonView::Array(items)) ==> models_list::listed_models(
            JsonView::Object(m),
        ) == items,
        json::member(m, "data"@) is None && json::member(m, "models"@) == Some(
            JsonView::Array(items),
        ) ==> models_list::listed_models(JsonView::Object(m)) == items,
{
}

/// The entries are those of the models that have one, in order.
pub proof fn law_every_model_is_listed(models: Seq<JsonView>, n: int, e: JsonView)
    requires
        0 <= n <= models.len(),
    ensures
        models_list::entries_of(models, n).contains(e) <==> exists|k: int|
            0 <= k < n && models_list::model_entry(#[trigger] models[k]) == Some(e),
        n > 0 ==> models_list::entries_of(models, n - 1).is_prefix_of(
            models_list::entries_of(models, n),
        ),
    decreases n,
{
    if n > 0 {
        law_every_model_is_listed(models, n - 1, e);
        let rest = models_list::entries_of(models, n - 1);
        let all = models_list::entries_of(models, n);
        if rest.contains(e) {
            let j = choose|j: int| 0 <= j < rest.len() && rest[j] == e;
            assert(all[j] == e);
        }
        if models_list::model_entry(models[n - 1]) == Some(e) {
            assert(all[rest.len() as int] == e);
        }
        if all.contains(e) && !rest.contains(e) {
            let j = choose|j: int| 0 <= j < all.len() && all[j] == e;
            if j < rest.len() {
                assert(rest[j] == e);
            }
            assert(models_list::model_entry(models[n - 1]) == Some(e));
        }
        assert(all.take(rest.len() as int) =~= rest);
    }
}

/// A page tells its entries, the ids of the first and the last one, and whether there is more.
pub proof fn law_page_members(page: Seq<JsonView>, has_more: bool)
    ensures
        models_list::page_json(page, has_more) is Object,
        json::member(models_list::page_json(page, has_more)->Object_0, "data"@)
            == Some(JsonView::Array(page)),
        json::member(models_list::page_json(page, has_more)->Object_0, "first_id"@) == Some(
            if page.len() > 0 {
                json::text_or_null(json::text_field(page[0], "id"@))
            } else {
                JsonView::Null
            },
        ),
        json::member(models_list::page_json(page, has_more)->Object_0, "has_more"@)
            == Some(JsonView::Bool(has_more)),
        json::member(models_list::page_json(page, has_more)->Object_0, "last_id"@) == Some(
            if page.len() > 0 {
                json::text_or_null(json::text_field(page[page.len() - 1], "id"@))
            } else {
                JsonView::Null
            },
        ),
        forall|k: Seq<char>|
            k != "data"@ && k != "first_id"@ && k != "has_more"@ && k != "last_id"@
                ==> (
                #[trigger] json::member(models_list::page_json(page, has_more)->Object_0, k)
                ) is None,
{
    broadcast use written::group_members;

    reveal_strlit("data");
    reveal_strlit("first_id");
    reveal_strlit("has_more");
    reveal_strlit("last_id");
    assert("data"@.len() == 4);
    assert("first_id"@.len() == 8);
    assert("has_more"@.len() == 8);
    assert("last_id"@.len() == 7);
    assert("first_id"@[0] != "has_more"@[0]);
}

/// There is more just where the list goes on in the direction in which the client goes.
pub proof fn law_more_is_told(
    models: Seq<JsonView>,
    before: Option<Seq<char>>,
    start: int,
    end: int,
)
    requires
        0 <= start <= end <= models.len(),
    ensures
        before is Some ==> (models_list::more_beyond(models, before, (start, end)) <==> models.take(
            start,
        ).len() > 0),
        before is None ==> (models_list::more_beyond(models, before, (start, end)) <==> models.skip(
            end,
        ).len() > 0),
{
}

/// A limit that holds anything but digits behind at most one plus is refused, and so is an
/// empty one.
pub proof fn law_limit_is_a_number(t: Seq<char>, i: int)
    ensures
        t.len() == 0 ==> models_list::page_limit(Some(t)) is Err,
        0 <= i < t.len() && !('0' <= t[i] <= '9') && !(i == 0 && t[0] == '+')
            ==> models_list::page_limit(Some(t)) is Err,
{
    let d = models_list::without_plus(t);
    if 0 <= i < t.len() && !('0' <= t[i] <= '9') && !(i == 0 && t[0] == '+') {
        let at = if t[0] == '+' {
            i - 1
        } else {
            i
        };
        assert(d[at] == t[i]);
        assert(!models_list::is_digit(d[at]));
    }
}

/// A model is found at the first entry with its id, and at none where no entry has it.
pub proof fn law_model_is_found_by_its_id(models: Seq<JsonView>, id: Seq<char>, i: int, k: int)
    requires
        0 <= i <= models.len(),
    ensures
        i <= models_list::entry_index(models, id, i) <= models.len(),
        models_list::entry_index(models, id, i) < models.len() ==> json::text_field(
            models[models_list::entry_index(models, id, i)],
            "id"@,
        ) == Some(id),
        i <= k < models_list::entry_index(models, id, i) ==> json::text_field(models[k], "id"@)
            != Some(id),
    decreases models.len() - i,
{
    if i < models.len() && json::text_field(models[i], "id"@) != Some(id) {
        law_model_is_found_by_its_id(models, id, i + 1, k);
    }
}

/// A page goes one way only: both cursors at once are refused, and so is one that no model has.
pub proof fn law_page_goes_one_way(
    body: JsonView,
    after: Seq<char>,
    before: Seq<char>,
    limit: Option<Seq<char>>,
)
    ensures
        models_list::models_page(body, Some(after), Some(before), limit) is Err,
        models_list::page_limit(limit) is Ok && models_list::entry_index(
            models_list::list_entries(body),
            after,
            0,
        ) == models_list::list_entries(body).len() ==> (models_list::models_page(
            body,
            Some(after),
            None,
            limit,
        ) matches Err(e) && e.message == "model cursor not found: "@ + after),
        models_list::page_limit(limit) is Ok && models_list::entry_index(
            models_list::list_entries(body),
            before,
            0,
        ) == models_list::list_entries(body).len() ==> (models_list::models_page(
            body,
            None,
            Some(before),
            limit,
        ) matches Err(e) && e.message == "model cursor not found: "@ + before),
        models_list::page_limit(limit) is Err ==> models_list::models_page(
            body,
            Some(after),
            None,
            limit,
        ) is Err,
{
}

/// A page after a model starts with the one that follows it, one before a model ends with the
/// one that it follows, and each holds as many models as asked for where there are so many.
pub proof fn law_page_starts_behind_its_cursor(
    models: Seq<JsonView>,
    id: Seq<char>,
    limit: int,
)
    requires
        1 <= limit,
        models_list::entry_index(models, id, 0) < models.len(),
    ensures
        ({
            let at = models_list::entry_index(models, id, 0);
            &&& models_list::page_bounds(models, Some(id), None, limit) matches Ok((from, to))
                && from == at + 1 && (to == models.len() || to == from + limit)
                    && to - from <= limit
            &&& models_list::page_bounds(models, None, Some(id), limit) matches Ok((from, to)) && to
                == at && (from == 0 || from == to - limit) && to - from <= limit
            &&& models_list::page_bounds(models, None, None, limit) matches Ok((from, to)) && from
                == 0 && (to == models.len() || to == limit) && to <= limit
        }),
{
    law_model_is_found_by_its_id(models, id, 0, 0);
}

/// A whole number of seconds counts as it is, and one before the first second as none.
pub proof fn law_seconds_are_counted(n: u64, i: i64)
    ensures
        models_list::seconds_of(JsonView::Number(NumberView::Unsigned(n))) == Some(n),
        i < 0 ==> models_list::seconds_of(JsonView::Number(NumberView::Negative(i))) == Some(0u64),
        models_list::seconds_of(JsonView::Null) is None,
{
}

} // verus!
