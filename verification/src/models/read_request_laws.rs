//! What is read of a request, and when.
use vstd::prelude::*;

use crate::json::JsonView;
use crate::json;
use crate::models::read;
use crate::models::read_laws::lemma_stop;
use crate::models::read_laws::lemma_stop_is_readable;
use crate::models::read_laws::lemma_texts;
use crate::models::read_request;
use crate::models::reading;
use crate::models::responses::ReasoningRequest;
use crate::models::responses::ResponseInstructions;
use crate::models::responses::ResponsesRequest;
use crate::models::responses::TextControls;
use crate::models::shorthand;
use crate::text;

verus! {

/// What is asked of reasoning is read by its members.
pub proof fn law_reasoning_is_read(
    m: Seq<(Seq<char>, JsonView)>,
    key: Seq<char>,
    o: Seq<(Seq<char>, JsonView)>,
    x: ReasoningRequest,
)
    requires
        json::member(m, key) == Some(JsonView::Object(o)),
        read_request::opt_reasoning_at(m, key) == Some(Some(x@)),
    ensures
        reading::opt_text(json::member(o, "effort"@), x.effort),
        reading::opt_text(json::member(o, "summary"@), x.summary),
{
}

/// What is asked of reasoning is read just where each member is what it should be.
pub proof fn law_reasoning_is_readable(
    m: Seq<(Seq<char>, JsonView)>,
    key: Seq<char>,
    o: Seq<(Seq<char>, JsonView)>,
)
    requires
        json::member(m, key) == Some(JsonView::Object(o)),
    ensures
        read_request::opt_reasoning_at(m, key) is Some <==> reading::can_opt_text(
            json::member(o, "effort"@),
        ) && reading::can_opt_text(json::member(o, "summary"@)),
        read_request::opt_reasoning_at(m, key) != Some(None::<read_request::ReasoningRequestView>),
{
}

/// What is asked of the text is read by its members.
pub proof fn law_text_controls_are_read(
    m: Seq<(Seq<char>, JsonView)>,
    key: Seq<char>,
    o: Seq<(Seq<char>, JsonView)>,
    x: TextControls,
)
    requires
        json::member(m, key) == Some(JsonView::Object(o)),
        read_request::opt_controls_at(m, key) == Some(Some(x@)),
    ensures
        reading::opt_text(json::member(o, "verbosity"@), x.verbosity),
        x.format is None <==> reading::nothing(json::member(o, "format"@)),
        x.format is Some ==> read_request::text_format_from(json::member(o, "format"@)->0) == Some(
            (x.format->0)@,
        ),
{
}

/// Instructions are the text that they are, or the items, each in its one form.
pub proof fn law_instructions_are_read(v: JsonView, x: ResponseInstructions, i: int)
    requires
        read_request::instructions_from(v) == Some(x@),
    ensures
        v is Text || v is Array,
        v is Text ==> (x matches ResponseInstructions::Text(t) && v == JsonView::Text(t@)),
        v is Array ==> (x matches ResponseInstructions::Items(items) && items@.len()
            == v->Array_0.len() && (0 <= i < items@.len() ==> read::item_from(
            shorthand::normalized_items(v->Array_0)[i],
        ) == Some(items@[i]@))),
{
    if let JsonView::Array(values) = v {
        let normal = shorthand::normalized_items(values);
        let read = read::each_item_from(normal)->0;
        let contents = read::items_contents(x->Items_0@);
        assert(read == contents);
        assert(normal.len() == values.len());
        if 0 <= i < x->Items_0@.len() {
            assert(read[i] == read::item_from(normal[i])->0);
            assert(contents[i] == x->Items_0@[i]@);
        }
    }
}

/// The field `model` of a request is read by its member.
pub proof fn law_request_model_is_read(m: Seq<(Seq<char>, JsonView)>, x: ResponsesRequest)
    requires
        read_request::request_from(JsonView::Object(m)) == Some(x@),
    ensures
        reading::model(json::member(m, "model"@), x.model),
{
}

/// The field `instructions` of a request is read by its member.
pub proof fn law_request_instructions_is_read(m: Seq<(Seq<char>, JsonView)>, x: ResponsesRequest)
    requires
        read_request::request_from(JsonView::Object(m)) == Some(x@),
    ensures
        json::member(m, "instructions"@) is None
            ==> (x.instructions matches ResponseInstructions::Text(t) && t@.len() == 0),
        json::member(m, "instructions"@) is Some
            ==> read_request::instructions_from(json::member(m, "instructions"@)->0)
                == Some(x.instructions@),
{
}

/// The field `input` of a request is read by its member.
pub proof fn law_request_input_is_read(m: Seq<(Seq<char>, JsonView)>, x: ResponsesRequest)
    requires
        read_request::request_from(JsonView::Object(m)) == Some(x@),
    ensures
        json::member(m, "input"@) is None ==> x.input@.len() == 0,
        json::member(m, "input"@) is Some
            ==> read_request::input_items(json::member(m, "input"@)->0)
                == Some(read::items_contents(x.input@)),
{
    assert(read::items_contents(x.input@).len() == x.input@.len());
}

/// The field `tools` of a request is read by its member.
pub proof fn law_request_tools_is_read(m: Seq<(Seq<char>, JsonView)>, x: ResponsesRequest)
    requires
        read_request::request_from(JsonView::Object(m)) == Some(x@),
    ensures
        json::member(m, "tools"@) is None ==> x.tools@.len() == 0,
        json::member(m, "tools"@) is Some
            ==> (
            json::member(m, "tools"@) matches Some(JsonView::Array(values))
                && values.len() == x.tools@.len() && forall|i: int| 0 <= i < values.len()
                ==> read_request::tool_from(values[i]) == Some((#[trigger] x.tools@[i])@)
            ),
{
    if json::member(m, "tools"@) is Some {
        let values = (json::member(m, "tools"@)->0)->Array_0;
        let read = read_request::each_tool_from(values)->0;
        let contents = read_request::tools_view(x.tools@);
        assert(read == contents);
        assert forall|i: int| 0 <= i < values.len() implies
            read_request::tool_from(values[i]) == Some((#[trigger] x.tools@[i])@) by {
            assert(read[i] == read_request::tool_from(values[i])->0);
            assert(contents[i] == x.tools@[i]@);
        }
    } else {
        assert(read_request::tools_view(x.tools@).len() == x.tools@.len());
    }
}

/// The field `tool_choice` of a request is read by its member.
pub proof fn law_request_tool_choice_is_read(m: Seq<(Seq<char>, JsonView)>, x: ResponsesRequest)
    requires
        read_request::request_from(JsonView::Object(m)) == Some(x@),
    ensures
        reading::tool_choice(json::member(m, "tool_choice"@), x.tool_choice),
{
}

/// The field `parallel_tool_calls` of a request is read by its member.
pub proof fn law_request_parallel_tool_calls_is_read(
    m: Seq<(Seq<char>, JsonView)>,
    x: ResponsesRequest,
)
    requires
        read_request::request_from(JsonView::Object(m)) == Some(x@),
    ensures
        reading::opt_flag(json::member(m, "parallel_tool_calls"@), x.parallel_tool_calls),
{
}

/// The field `reasoning` of a request is read by its member.
pub proof fn law_request_reasoning_is_read(m: Seq<(Seq<char>, JsonView)>, x: ResponsesRequest)
    requires
        read_request::request_from(JsonView::Object(m)) == Some(x@),
    ensures
        x.reasoning is None <==> reading::nothing(json::member(m, "reasoning"@)),
{
}

/// The field `store` of a request is read by its member.
pub proof fn law_request_store_is_read(m: Seq<(Seq<char>, JsonView)>, x: ResponsesRequest)
    requires
        read_request::request_from(JsonView::Object(m)) == Some(x@),
    ensures
        reading::flag_or_true(json::member(m, "store"@), x.store),
{
}

/// The field `stream` of a request is read by its member.
pub proof fn law_request_stream_is_read(m: Seq<(Seq<char>, JsonView)>, x: ResponsesRequest)
    requires
        read_request::request_from(JsonView::Object(m)) == Some(x@),
    ensures
        reading::flag_or_false(json::member(m, "stream"@), x.stream),
{
}

/// The field `include` of a request is read by its member.
pub proof fn law_request_includes_is_read(m: Seq<(Seq<char>, JsonView)>, x: ResponsesRequest)
    requires
        read_request::request_from(JsonView::Object(m)) == Some(x@),
    ensures
        reading::texts_or_none(json::member(m, "include"@), x.includes),
{
    if json::member(m, "include"@) is Some {
        lemma_texts((json::member(m, "include"@)->0)->Array_0, x.includes);
    } else {
        assert(text::strings_view(x.includes@).len() == x.includes@.len());
    }
}

/// The field `service_tier` of a request is read by its member.
pub proof fn law_request_service_tier_is_read(m: Seq<(Seq<char>, JsonView)>, x: ResponsesRequest)
    requires
        read_request::request_from(JsonView::Object(m)) == Some(x@),
    ensures
        reading::opt_text(json::member(m, "service_tier"@), x.service_tier),
{
}

/// The field `prompt_cache_key` of a request is read by its member.
pub proof fn law_request_prompt_cache_key_is_read(
    m: Seq<(Seq<char>, JsonView)>,
    x: ResponsesRequest,
)
    requires
        read_request::request_from(JsonView::Object(m)) == Some(x@),
    ensures
        reading::opt_text(json::member(m, "prompt_cache_key"@), x.prompt_cache_key),
{
}

/// The field `prompt_cache_retention` of a request is read by its member.
pub proof fn law_request_prompt_cache_retention_is_read(
    m: Seq<(Seq<char>, JsonView)>,
    x: ResponsesRequest,
)
    requires
        read_request::request_from(JsonView::Object(m)) == Some(x@),
    ensures
        reading::opt_text(json::member(m, "prompt_cache_retention"@), x.prompt_cache_retention),
{
}

/// The field `text` of a request is read by its member.
pub proof fn law_request_text_is_read(m: Seq<(Seq<char>, JsonView)>, x: ResponsesRequest)
    requires
        read_request::request_from(JsonView::Object(m)) == Some(x@),
    ensures
        x.text is None <==> reading::nothing(json::member(m, "text"@)),
{
}

/// The field `previous_response_id` of a request is read by its member.
pub proof fn law_request_previous_response_id_is_read(
    m: Seq<(Seq<char>, JsonView)>,
    x: ResponsesRequest,
)
    requires
        read_request::request_from(JsonView::Object(m)) == Some(x@),
    ensures
        reading::opt_text(json::member(m, "previous_response_id"@), x.previous_response_id),
{
}

/// The field `llmconduit_replay` of a request is read by its member.
pub proof fn law_request_llmconduit_replay_is_read(
    m: Seq<(Seq<char>, JsonView)>,
    x: ResponsesRequest,
)
    requires
        read_request::request_from(JsonView::Object(m)) == Some(x@),
    ensures
        reading::opt_flag(json::member(m, "llmconduit_replay"@), x.llmconduit_replay),
{
}

/// The field `temperature` of a request is read by its member.
pub proof fn law_request_temperature_is_read(m: Seq<(Seq<char>, JsonView)>, x: ResponsesRequest)
    requires
        read_request::request_from(JsonView::Object(m)) == Some(x@),
    ensures
        reading::opt_number(json::member(m, "temperature"@), x.temperature),
{
}

/// The field `top_p` of a request is read by its member.
pub proof fn law_request_top_p_is_read(m: Seq<(Seq<char>, JsonView)>, x: ResponsesRequest)
    requires
        read_request::request_from(JsonView::Object(m)) == Some(x@),
    ensures
        reading::opt_number(json::member(m, "top_p"@), x.top_p),
{
}

/// The field `max_output_tokens` of a request is read by its member.
pub proof fn law_request_max_output_tokens_is_read(
    m: Seq<(Seq<char>, JsonView)>,
    x: ResponsesRequest,
)
    requires
        read_request::request_from(JsonView::Object(m)) == Some(x@),
    ensures
        reading::opt_i64(json::member(m, "max_output_tokens"@), x.max_output_tokens),
{
}

/// The field `frequency_penalty` of a request is read by its member.
pub proof fn law_request_frequency_penalty_is_read(
    m: Seq<(Seq<char>, JsonView)>,
    x: ResponsesRequest,
)
    requires
        read_request::request_from(JsonView::Object(m)) == Some(x@),
    ensures
        reading::opt_number(json::member(m, "frequency_penalty"@), x.frequency_penalty),
{
}

/// The field `presence_penalty` of a request is read by its member.
pub proof fn law_request_presence_penalty_is_read(
    m: Seq<(Seq<char>, JsonView)>,
    x: ResponsesRequest,
)
    requires
        read_request::request_from(JsonView::Object(m)) == Some(x@),
    ensures
        reading::opt_number(json::member(m, "presence_penalty"@), x.presence_penalty),
{
}

/// The field `truncation` of a request is read by its member.
pub proof fn law_request_truncation_is_read(m: Seq<(Seq<char>, JsonView)>, x: ResponsesRequest)
    requires
        read_request::request_from(JsonView::Object(m)) == Some(x@),
    ensures
        reading::opt_value(json::member(m, "truncation"@), x.truncation),
{
}

/// The field `metadata` of a request is read by its member.
pub proof fn law_request_metadata_is_read(m: Seq<(Seq<char>, JsonView)>, x: ResponsesRequest)
    requires
        read_request::request_from(JsonView::Object(m)) == Some(x@),
    ensures
        reading::opt_object(json::member(m, "metadata"@), x.metadata),
{
}

/// The field `stop` of a request is read by its member.
pub proof fn law_request_stop_is_read(m: Seq<(Seq<char>, JsonView)>, x: ResponsesRequest)
    requires
        read_request::request_from(JsonView::Object(m)) == Some(x@),
    ensures
        reading::stop(json::member(m, "stop"@), x.stop),
{
    if x.stop is Some {
        lemma_stop(json::member(m, "stop"@)->0, x.stop->0);
    }
}

/// A request is read just where each member is what it should be.
pub proof fn law_request_is_readable(m: Seq<(Seq<char>, JsonView)>)
    ensures
        read_request::request_from(JsonView::Object(m)) is Some
            <==> reading::can_model(json::member(m, "model"@))
                && read_request::instructions_at(m, "instructions"@) is Some
                && read_request::input_at(m, "input"@) is Some
                && (
                json::member(m, "tools"@) is None
                    || (
                    json::member(m, "tools"@) matches Some(JsonView::Array(values))
                        && forall|i: int| 0 <= i < values.len()
                        ==> read_request::tool_from(#[trigger] values[i]) is Some
                    )
                )
                && reading::can_tool_choice(json::member(m, "tool_choice"@))
                && reading::can_opt_flag(json::member(m, "parallel_tool_calls"@))
                && read_request::opt_reasoning_at(m, "reasoning"@) is Some
                && reading::can_flag_or_true(json::member(m, "store"@))
                && reading::can_flag_or_false(json::member(m, "stream"@))
                && reading::can_texts_or_none(json::member(m, "include"@))
                && reading::can_opt_text(json::member(m, "service_tier"@))
                && reading::can_opt_text(json::member(m, "prompt_cache_key"@))
                && reading::can_opt_text(json::member(m, "prompt_cache_retention"@))
                && read_request::opt_controls_at(m, "text"@) is Some
                && reading::can_opt_text(json::member(m, "previous_response_id"@))
                && reading::can_opt_flag(json::member(m, "llmconduit_replay"@))
                && reading::can_opt_number(json::member(m, "temperature"@))
                && reading::can_opt_number(json::member(m, "top_p"@))
                && reading::can_opt_i64(json::member(m, "max_output_tokens"@))
                && reading::can_opt_number(json::member(m, "frequency_penalty"@))
                && reading::can_opt_number(json::member(m, "presence_penalty"@))
                && reading::can_opt_value(json::member(m, "truncation"@))
                && reading::can_opt_object(json::member(m, "metadata"@))
                && reading::can_stop(json::member(m, "stop"@)),
{
    if json::member(m, "stop"@) is Some {
        lemma_stop_is_readable(json::member(m, "stop"@)->0);
    }
}

} // verus!
