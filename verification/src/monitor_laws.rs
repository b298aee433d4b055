//! What the texts of the monitor tell: every count under its own name.
use vstd::prelude::*;

use crate::json_string;
use crate::json_text;
use crate::monitor;
use crate::monitor::MonitorEvent;
use crate::monitor::MonitorEventKind;
use crate::text;
use crate::written_text;

verus! {

proof fn lemma_named_tells(name: Seq<char>, m: json_text::Fields, key: Seq<char>, value: Seq<char>)
    requires
        written_text::tells(json_text::object_text(m), key, value),
    ensures
        written_text::tells(monitor::named(name, m), key, value),
{
    reveal(written_text::tells);
    let inner = json_text::object_text(m)->0;
    let head = "{"@ + (json_string::quoted(name) + ":"@);
    let all = monitor::named(name, m)->0;
    let fields = seq![json_text::field(name, inner)];
    assert(json_text::put(Some(Seq::empty()), name, Some(inner)) == Some(
        Seq::<Seq<char>>::empty().push(json_text::field(name, inner)),
    ));
    assert(text::join(Seq::<Seq<char>>::empty().push(json_text::field(name, inner)), ","@)
        == json_text::field(name, inner));
    assert(all =~= head + inner + "}"@);
    let p = json_string::quoted(key) + ":"@ + value;
    let i = choose|i: int| text::holds_at(inner, i, p);
    assert(all.subrange(i + head.len(), i + head.len() + p.len()) =~= inner.subrange(
        i,
        i + p.len(),
    ));
    assert(text::holds_at(all, i + head.len(), p));
}

proof fn lemma_name_is_told(name: Seq<char>, m: json_text::Fields)
    requires
        monitor::named(name, m) is Some,
    ensures
        written_text::tells(monitor::named(name, m), name, json_text::object_text(m)->0),
{
    broadcast use written_text::lemma_put;

    let z: json_text::Fields = Some(Seq::empty());
    written_text::lemma_object_tells(
        json_text::put(z, name, json_text::object_text(m)),
        name,
        json_text::object_text(m)->0,
    );
}

/// That request started happened is told with each thing that is known of it, under its own name.
pub proof fn law_request_started_is_told(kind: MonitorEventKind)
    requires
        kind is RequestStarted,
    ensures
        monitor::kind_text(kind) is Some,
        text::has_part(monitor::kind_text(kind)->0, json_string::quoted("RequestStarted"@) + ":"@),
        written_text::tells(
            monitor::kind_text(kind),
            "model"@,
            json_string::quoted(kind->RequestStarted_model@),
        ),
        written_text::tells(
            monitor::kind_text(kind),
            "input_items"@,
            text::decimal(kind->RequestStarted_input_items as nat),
        ),
        written_text::tells(
            monitor::kind_text(kind),
            "tool_count"@,
            text::decimal(kind->RequestStarted_tool_count as nat),
        ),
        written_text::tells(
            monitor::kind_text(kind),
            "turn_count"@,
            text::decimal(kind->RequestStarted_turn_count as nat),
        ),
        written_text::tells(
            monitor::kind_text(kind),
            "user_messages"@,
            text::decimal(kind->RequestStarted_user_messages as nat),
        ),
        written_text::tells(
            monitor::kind_text(kind),
            "assistant_messages"@,
            text::decimal(kind->RequestStarted_assistant_messages as nat),
        ),
        written_text::tells(
            monitor::kind_text(kind),
            "system_messages"@,
            text::decimal(kind->RequestStarted_system_messages as nat),
        ),
        written_text::tells(
            monitor::kind_text(kind),
            "developer_messages"@,
            text::decimal(kind->RequestStarted_developer_messages as nat),
        ),
        written_text::tells(
            monitor::kind_text(kind),
            "reasoning_items"@,
            text::decimal(kind->RequestStarted_reasoning_items as nat),
        ),
        written_text::tells(
            monitor::kind_text(kind),
            "function_calls"@,
            text::decimal(kind->RequestStarted_function_calls as nat),
        ),
        written_text::tells(
            monitor::kind_text(kind),
            "function_outputs"@,
            text::decimal(kind->RequestStarted_function_outputs as nat),
        ),
        written_text::tells(
            monitor::kind_text(kind),
            "tool_items"@,
            text::decimal(kind->RequestStarted_tool_items as nat),
        ),
        written_text::tells(
            monitor::kind_text(kind),
            "input_chars"@,
            text::decimal(kind->RequestStarted_input_chars as nat),
        ),
        written_text::tells(
            monitor::kind_text(kind),
            "instructions_chars"@,
            text::decimal(kind->RequestStarted_instructions_chars as nat),
        ),
{
    broadcast use written_text::lemma_put;

    if let MonitorEventKind::RequestStarted {
        model,
        input_items,
        tool_count,
        turn_count,
        user_messages,
        assistant_messages,
        system_messages,
        developer_messages,
        reasoning_items,
        function_calls,
        function_outputs,
        tool_items,
        input_chars,
        instructions_chars,
    } = kind {
        let m = Some(Seq::<Seq<char>>::empty());
        let m = json_text::put_text(m, "model"@, model@);
        let m = json_text::put(m, "input_items"@, Some(text::decimal(input_items as nat)));
        let m = json_text::put(m, "tool_count"@, Some(text::decimal(tool_count as nat)));
        let m = json_text::put(m, "turn_count"@, Some(text::decimal(turn_count as nat)));
        let m = json_text::put(m, "user_messages"@, Some(text::decimal(user_messages as nat)));
        let m = json_text::put(
            m,
            "assistant_messages"@,
            Some(text::decimal(assistant_messages as nat)),
        );
        let m = json_text::put(m, "system_messages"@, Some(text::decimal(system_messages as nat)));
        let m = json_text::put(
            m,
            "developer_messages"@,
            Some(text::decimal(developer_messages as nat)),
        );
        let m = json_text::put(m, "reasoning_items"@, Some(text::decimal(reasoning_items as nat)));
        let m = json_text::put(m, "function_calls"@, Some(text::decimal(function_calls as nat)));
        let m = json_text::put(
            m,
            "function_outputs"@,
            Some(text::decimal(function_outputs as nat)),
        );
        let m = json_text::put(m, "tool_items"@, Some(text::decimal(tool_items as nat)));
        let m = json_text::put(m, "input_chars"@, Some(text::decimal(input_chars as nat)));
        let m = json_text::put(
            m,
            "instructions_chars"@,
            Some(text::decimal(instructions_chars as nat)),
        );
        written_text::lemma_object_tells(m, "model"@, json_string::quoted(model@));
        lemma_named_tells("RequestStarted"@, m, "model"@, json_string::quoted(model@));
        written_text::lemma_object_tells(m, "input_items"@, text::decimal(input_items as nat));
        lemma_named_tells("RequestStarted"@, m, "input_items"@, text::decimal(input_items as nat));
        written_text::lemma_object_tells(m, "tool_count"@, text::decimal(tool_count as nat));
        lemma_named_tells("RequestStarted"@, m, "tool_count"@, text::decimal(tool_count as nat));
        written_text::lemma_object_tells(m, "turn_count"@, text::decimal(turn_count as nat));
        lemma_named_tells("RequestStarted"@, m, "turn_count"@, text::decimal(turn_count as nat));
        written_text::lemma_object_tells(m, "user_messages"@, text::decimal(user_messages as nat));
        lemma_named_tells(
            "RequestStarted"@,
            m,
            "user_messages"@,
            text::decimal(user_messages as nat),
        );
        written_text::lemma_object_tells(
            m,
            "assistant_messages"@,
            text::decimal(assistant_messages as nat),
        );
        lemma_named_tells(
            "RequestStarted"@,
            m,
            "assistant_messages"@,
            text::decimal(assistant_messages as nat),
        );
        written_text::lemma_object_tells(
            m,
            "system_messages"@,
            text::decimal(system_messages as nat),
        );
        lemma_named_tells(
            "RequestStarted"@,
            m,
            "system_messages"@,
            text::decimal(system_messages as nat),
        );
        written_text::lemma_object_tells(
            m,
            "developer_messages"@,
            text::decimal(developer_messages as nat),
        );
        lemma_named_tells(
            "RequestStarted"@,
            m,
            "developer_messages"@,
            text::decimal(developer_messages as nat),
        );
        written_text::lemma_object_tells(
            m,
            "reasoning_items"@,
            text::decimal(reasoning_items as nat),
        );
        lemma_named_tells(
            "RequestStarted"@,
            m,
            "reasoning_items"@,
            text::decimal(reasoning_items as nat),
        );
        written_text::lemma_object_tells(
            m,
            "function_calls"@,
            text::decimal(function_calls as nat),
        );
        lemma_named_tells(
            "RequestStarted"@,
            m,
            "function_calls"@,
            text::decimal(function_calls as nat),
        );
        written_text::lemma_object_tells(
            m,
            "function_outputs"@,
            text::decimal(function_outputs as nat),
        );
        lemma_named_tells(
            "RequestStarted"@,
            m,
            "function_outputs"@,
            text::decimal(function_outputs as nat),
        );
        written_text::lemma_object_tells(m, "tool_items"@, text::decimal(tool_items as nat));
        lemma_named_tells("RequestStarted"@, m, "tool_items"@, text::decimal(tool_items as nat));
        written_text::lemma_object_tells(m, "input_chars"@, text::decimal(input_chars as nat));
        lemma_named_tells("RequestStarted"@, m, "input_chars"@, text::decimal(input_chars as nat));
        written_text::lemma_object_tells(
            m,
            "instructions_chars"@,
            text::decimal(instructions_chars as nat),
        );
        lemma_named_tells(
            "RequestStarted"@,
            m,
            "instructions_chars"@,
            text::decimal(instructions_chars as nat),
        );
        lemma_name_is_told("RequestStarted"@, m);
        reveal(written_text::tells);
        lemma_start("RequestStarted"@, json_text::object_text(m)->0, monitor::kind_text(kind)->0);
    }
}

/// That upstream request happened is told with each thing that is known of it, under its own name.
pub proof fn law_upstream_request_is_told(kind: MonitorEventKind)
    requires
        kind is UpstreamRequest,
    ensures
        monitor::kind_text(kind) is Some,
        text::has_part(monitor::kind_text(kind)->0, json_string::quoted("UpstreamRequest"@) + ":"@),
        written_text::tells(
            monitor::kind_text(kind),
            "request_index"@,
            text::decimal(kind->UpstreamRequest_request_index as nat),
        ),
        written_text::tells(
            monitor::kind_text(kind),
            "message_count"@,
            text::decimal(kind->UpstreamRequest_message_count as nat),
        ),
        written_text::tells(
            monitor::kind_text(kind),
            "prompt_chars"@,
            text::decimal(kind->UpstreamRequest_prompt_chars as nat),
        ),
{
    broadcast use written_text::lemma_put;

    if let MonitorEventKind::UpstreamRequest { request_index, message_count, prompt_chars } = kind {
        let m = Some(Seq::<Seq<char>>::empty());
        let m = json_text::put(m, "request_index"@, Some(text::decimal(request_index as nat)));
        let m = json_text::put(m, "message_count"@, Some(text::decimal(message_count as nat)));
        let m = json_text::put(m, "prompt_chars"@, Some(text::decimal(prompt_chars as nat)));
        written_text::lemma_object_tells(m, "request_index"@, text::decimal(request_index as nat));
        lemma_named_tells(
            "UpstreamRequest"@,
            m,
            "request_index"@,
            text::decimal(request_index as nat),
        );
        written_text::lemma_object_tells(m, "message_count"@, text::decimal(message_count as nat));
        lemma_named_tells(
            "UpstreamRequest"@,
            m,
            "message_count"@,
            text::decimal(message_count as nat),
        );
        written_text::lemma_object_tells(m, "prompt_chars"@, text::decimal(prompt_chars as nat));
        lemma_named_tells(
            "UpstreamRequest"@,
            m,
            "prompt_chars"@,
            text::decimal(prompt_chars as nat),
        );
        lemma_name_is_told("UpstreamRequest"@, m);
        reveal(written_text::tells);
        lemma_start("UpstreamRequest"@, json_text::object_text(m)->0, monitor::kind_text(kind)->0);
    }
}

/// That response item happened is told with each thing that is known of it, under its own name.
pub proof fn law_response_item_is_told(kind: MonitorEventKind)
    requires
        kind is ResponseItem,
    ensures
        monitor::kind_text(kind) is Some,
        text::has_part(monitor::kind_text(kind)->0, json_string::quoted("ResponseItem"@) + ":"@),
        written_text::tells(
            monitor::kind_text(kind),
            "event"@,
            json_string::quoted(kind->ResponseItem_event@),
        ),
        written_text::tells(
            monitor::kind_text(kind),
            "summary"@,
            json_string::quoted(kind->ResponseItem_summary@),
        ),
        written_text::tells(
            monitor::kind_text(kind),
            "payload_preview"@,
            json_string::quoted(kind->ResponseItem_payload_preview@),
        ),
{
    broadcast use written_text::lemma_put;

    if let MonitorEventKind::ResponseItem { event, summary, payload_preview } = kind {
        let m = Some(Seq::<Seq<char>>::empty());
        let m = json_text::put_text(m, "event"@, event@);
        let m = json_text::put_text(m, "summary"@, summary@);
        let m = json_text::put_text(m, "payload_preview"@, payload_preview@);
        written_text::lemma_object_tells(m, "event"@, json_string::quoted(event@));
        lemma_named_tells("ResponseItem"@, m, "event"@, json_string::quoted(event@));
        written_text::lemma_object_tells(m, "summary"@, json_string::quoted(summary@));
        lemma_named_tells("ResponseItem"@, m, "summary"@, json_string::quoted(summary@));
        written_text::lemma_object_tells(
            m,
            "payload_preview"@,
            json_string::quoted(payload_preview@),
        );
        lemma_named_tells(
            "ResponseItem"@,
            m,
            "payload_preview"@,
            json_string::quoted(payload_preview@),
        );
        lemma_name_is_told("ResponseItem"@, m);
        reveal(written_text::tells);
        lemma_start("ResponseItem"@, json_text::object_text(m)->0, monitor::kind_text(kind)->0);
    }
}

/// That output text delta happened is told with each thing that is known of it, under its own name.
pub proof fn law_output_text_delta_is_told(kind: MonitorEventKind)
    requires
        kind is OutputTextDelta,
    ensures
        monitor::kind_text(kind) is Some,
        text::has_part(monitor::kind_text(kind)->0, json_string::quoted("OutputTextDelta"@) + ":"@),
        written_text::tells(
            monitor::kind_text(kind),
            "delta"@,
            json_string::quoted(kind->OutputTextDelta_delta@),
        ),
{
    broadcast use written_text::lemma_put;

    if let MonitorEventKind::OutputTextDelta { delta } = kind {
        let m = Some(Seq::<Seq<char>>::empty());
        let m = json_text::put_text(m, "delta"@, delta@);
        written_text::lemma_object_tells(m, "delta"@, json_string::quoted(delta@));
        lemma_named_tells("OutputTextDelta"@, m, "delta"@, json_string::quoted(delta@));
        lemma_name_is_told("OutputTextDelta"@, m);
        reveal(written_text::tells);
        lemma_start("OutputTextDelta"@, json_text::object_text(m)->0, monitor::kind_text(kind)->0);
    }
}

/// That reasoning text delta happened is told with each thing that is known of it, under its
/// own name.
pub proof fn law_reasoning_text_delta_is_told(kind: MonitorEventKind)
    requires
        kind is ReasoningTextDelta,
    ensures
        monitor::kind_text(kind) is Some,
        text::has_part(
            monitor::kind_text(kind)->0,
            json_string::quoted("ReasoningTextDelta"@) + ":"@,
        ),
        written_text::tells(
            monitor::kind_text(kind),
            "delta"@,
            json_string::quoted(kind->ReasoningTextDelta_delta@),
        ),
{
    broadcast use written_text::lemma_put;

    if let MonitorEventKind::ReasoningTextDelta { delta } = kind {
        let m = Some(Seq::<Seq<char>>::empty());
        let m = json_text::put_text(m, "delta"@, delta@);
        written_text::lemma_object_tells(m, "delta"@, json_string::quoted(delta@));
        lemma_named_tells("ReasoningTextDelta"@, m, "delta"@, json_string::quoted(delta@));
        lemma_name_is_told("ReasoningTextDelta"@, m);
        reveal(written_text::tells);
        lemma_start(
            "ReasoningTextDelta"@,
            json_text::object_text(m)->0,
            monitor::kind_text(kind)->0,
        );
    }
}

/// That tool phase happened is told with each thing that is known of it, under its own name.
pub proof fn law_tool_phase_is_told(kind: MonitorEventKind)
    requires
        kind is ToolPhase,
    ensures
        monitor::kind_text(kind) is Some,
        text::has_part(monitor::kind_text(kind)->0, json_string::quoted("ToolPhase"@) + ":"@),
        written_text::tells(
            monitor::kind_text(kind),
            "phase"@,
            json_string::quoted(kind->ToolPhase_phase@),
        ),
        written_text::tells(
            monitor::kind_text(kind),
            "detail"@,
            json_string::quoted(kind->ToolPhase_detail@),
        ),
{
    broadcast use written_text::lemma_put;

    if let MonitorEventKind::ToolPhase { phase, detail } = kind {
        let m = Some(Seq::<Seq<char>>::empty());
        let m = json_text::put_text(m, "phase"@, phase@);
        let m = json_text::put_text(m, "detail"@, detail@);
        written_text::lemma_object_tells(m, "phase"@, json_string::quoted(phase@));
        lemma_named_tells("ToolPhase"@, m, "phase"@, json_string::quoted(phase@));
        written_text::lemma_object_tells(m, "detail"@, json_string::quoted(detail@));
        lemma_named_tells("ToolPhase"@, m, "detail"@, json_string::quoted(detail@));
        lemma_name_is_told("ToolPhase"@, m);
        reveal(written_text::tells);
        lemma_start("ToolPhase"@, json_text::object_text(m)->0, monitor::kind_text(kind)->0);
    }
}

/// That failed happened is told with each thing that is known of it, under its own name.
pub proof fn law_failed_is_told(kind: MonitorEventKind)
    requires
        kind is Failed,
    ensures
        monitor::kind_text(kind) is Some,
        text::has_part(monitor::kind_text(kind)->0, json_string::quoted("Failed"@) + ":"@),
        written_text::tells(
            monitor::kind_text(kind),
            "message"@,
            json_string::quoted(kind->Failed_message@),
        ),
{
    broadcast use written_text::lemma_put;

    if let MonitorEventKind::Failed { message } = kind {
        let m = Some(Seq::<Seq<char>>::empty());
        let m = json_text::put_text(m, "message"@, message@);
        written_text::lemma_object_tells(m, "message"@, json_string::quoted(message@));
        lemma_named_tells("Failed"@, m, "message"@, json_string::quoted(message@));
        lemma_name_is_told("Failed"@, m);
        reveal(written_text::tells);
        lemma_start("Failed"@, json_text::object_text(m)->0, monitor::kind_text(kind)->0);
    }
}

proof fn lemma_start(name: Seq<char>, value: Seq<char>, t: Seq<char>)
    requires
        text::has_part(t, json_string::quoted(name) + ":"@ + value),
    ensures
        text::has_part(t, json_string::quoted(name) + ":"@),
{
    let p = json_string::quoted(name) + ":"@ + value;
    let q = json_string::quoted(name) + ":"@;
    let i = choose|i: int| text::holds_at(t, i, p);
    assert(t.subrange(i, i + q.len()) =~= p.subrange(0, q.len() as int));
    assert(p.subrange(0, q.len() as int) =~= q);
    assert(text::holds_at(t, i, q));
}

/// An event tells the response that it belongs to, when it was, and what happened.
pub proof fn law_event_is_told(item: MonitorEvent)
    requires
        monitor::event_text(item) is Some,
    ensures
        written_text::tells(
            monitor::event_text(item),
            "response_id"@,
            json_string::quoted(item.response_id@),
        ),
        written_text::tells(
            monitor::event_text(item),
            "timestamp_ms"@,
            text::decimal(item.timestamp_ms as nat),
        ),
        written_text::tells(monitor::event_text(item), "kind"@, monitor::kind_text(item.kind)->0),
{
    broadcast use written_text::lemma_put;

    let m = Some(Seq::<Seq<char>>::empty());
    let m = json_text::put_text(m, "response_id"@, item.response_id@);
    let m = json_text::put(m, "timestamp_ms"@, Some(text::decimal(item.timestamp_ms as nat)));
    let m = json_text::put(m, "kind"@, monitor::kind_text(item.kind));
    written_text::lemma_object_tells(m, "response_id"@, json_string::quoted(item.response_id@));
    written_text::lemma_object_tells(m, "timestamp_ms"@, text::decimal(item.timestamp_ms as nat));
    written_text::lemma_object_tells(m, "kind"@, monitor::kind_text(item.kind)->0);
}

} // verus!
