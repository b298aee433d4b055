//! What the gateway tells its monitors.
use vstd::prelude::*;

use crate::json_string;
use crate::json_string::encode_json_string;
use crate::json_text;
use crate::json_text::ObjectText;
use crate::text;
use crate::text::decimal_of;

verus! {

/// What happened.
#[derive(Debug, Clone)]
pub enum MonitorEventKind {
    /// A request came in.
    RequestStarted {
        /// Model.
        model: String,
        /// Number of input items.
        input_items: usize,
        /// Number of tools.
        tool_count: usize,
        /// Number of turns.
        turn_count: usize,
        /// Number of messages of the user.
        user_messages: usize,
        /// Number of messages of the assistant.
        assistant_messages: usize,
        /// Number of system messages.
        system_messages: usize,
        /// Number of developer messages.
        developer_messages: usize,
        /// Number of reasoning items.
        reasoning_items: usize,
        /// Number of function calls.
        function_calls: usize,
        /// Number of function outputs.
        function_outputs: usize,
        /// Number of other tool items.
        tool_items: usize,
        /// Characters of the input.
        input_chars: usize,
        /// Characters of the instructions.
        instructions_chars: usize,
    },
    /// A request went to an upstream.
    UpstreamRequest {
        /// Which request of the response it is.
        request_index: usize,
        /// Number of messages.
        message_count: usize,
        /// Characters of the prompt.
        prompt_chars: usize,
    },
    /// An item of the response.
    ResponseItem {
        /// Name of the event.
        event: String,
        /// Summary.
        summary: String,
        /// The start of the payload.
        payload_preview: String,
    },
    /// A piece of output text.
    OutputTextDelta {
        /// The piece.
        delta: String,
    },
    /// A piece of reasoning.
    ReasoningTextDelta {
        /// The piece.
        delta: String,
    },
    /// A tool moved on.
    ToolPhase {
        /// Phase.
        phase: String,
        /// Detail.
        detail: String,
    },
    /// The response is complete.
    Completed,
    /// The response failed.
    Failed {
        /// What went wrong.
        message: String,
    },
}

/// What happened, to which response, and when.
#[derive(Debug, Clone)]
pub struct MonitorEvent {
    /// Id of the response.
    pub response_id: String,
    /// Milliseconds since the epoch.
    pub timestamp_ms: u128,
    /// What happened.
    pub kind: MonitorEventKind,
}

impl MonitorEvent {
    /// An event that happens `since_epoch_ms` after the epoch; one before the epoch is
    /// stamped with the epoch itself.
    pub fn at(response_id: &str, since_epoch_ms: Option<u128>, kind: MonitorEventKind) -> (r: Self)
        ensures
            r.response_id@ == response_id@,
            r.timestamp_ms == match since_epoch_ms {
                Some(ms) => ms,
                None => 0,
            },
            r.kind == kind,
    {
        let timestamp_ms: u128 = match since_epoch_ms {
            Some(ms) => ms,
            None => 0,
        };
        MonitorEvent { response_id: response_id.to_owned(), timestamp_ms, kind }
    }
}

/// The object whose single member has the name of what happened.
pub open spec fn named(name: Seq<char>, m: json_text::Fields) -> Option<Seq<char>> {
    json_text::object_text(
        json_text::put(Some(Seq::empty()), name, json_text::object_text(m)),
    )
}

fn named_of(name: &str, m: ObjectText) -> (r: Option<String>)
    ensures
        text::opt_view(r) == named(name@, m@),
{
    let mut outer = ObjectText::new();
    outer.put(name, m.into_text());
    outer.into_text()
}

/// What happened, as text: its name, or an object with its name and what is known of it.
pub open spec fn kind_text(kind: MonitorEventKind) -> Option<Seq<char>> {
    match kind {
        MonitorEventKind::RequestStarted {
            model,
            input_items,
            tool_count,
            turn_count,
            user_messages,
            assistant_messages,
            system_messages,
            developer_messages,
            reasoning_items,
            function_calls,
            function_outputs,
            tool_items,
            input_chars,
            instructions_chars,
        } => {
            let m = Some(Seq::<Seq<char>>::empty());
            let m = json_text::put_text(m, "model"@, model@);
            let m = json_text::put(m, "input_items"@, Some(text::decimal(input_items as nat)));
            let m = json_text::put(m, "tool_count"@, Some(text::decimal(tool_count as nat)));
            let m = json_text::put(m, "turn_count"@, Some(text::decimal(turn_count as nat)));
            let m = json_text::put(m, "user_messages"@, Some(text::decimal(user_messages as nat)));
            let m = json_text::put(
                m,
                "assistant_messages"@,
                Some(text::decimal(assistant_messages as nat)),
            );
            let m = json_text::put(
                m,
                "system_messages"@,
                Some(text::decimal(system_messages as nat)),
            );
            let m = json_text::put(
                m,
                "developer_messages"@,
                Some(text::decimal(developer_messages as nat)),
            );
            let m = json_text::put(
                m,
                "reasoning_items"@,
                Some(text::decimal(reasoning_items as nat)),
            );
            let m = json_text::put(
                m,
                "function_calls"@,
                Some(text::decimal(function_calls as nat)),
            );
            let m = json_text::put(
                m,
                "function_outputs"@,
                Some(text::decimal(function_outputs as nat)),
            );
            let m = json_text::put(m, "tool_items"@, Some(text::decimal(tool_items as nat)));
            let m = json_text::put(m, "input_chars"@, Some(text::decimal(input_chars as nat)));
            let m = json_text::put(
                m,
                "instructions_chars"@,
                Some(text::decimal(instructions_chars as nat)),
            );
            named("RequestStarted"@, m)
        },
        MonitorEventKind::UpstreamRequest { request_index, message_count, prompt_chars } => {
            let m = Some(Seq::<Seq<char>>::empty());
            let m = json_text::put(m, "request_index"@, Some(text::decimal(request_index as nat)));
            let m = json_text::put(m, "message_count"@, Some(text::decimal(message_count as nat)));
            let m = json_text::put(m, "prompt_chars"@, Some(text::decimal(prompt_chars as nat)));
            named("UpstreamRequest"@, m)
        },
        MonitorEventKind::ResponseItem { event, summary, payload_preview } => {
            let m = Some(Seq::<Seq<char>>::empty());
            let m = json_text::put_text(m, "event"@, event@);
            let m = json_text::put_text(m, "summary"@, summary@);
            let m = json_text::put_text(m, "payload_preview"@, payload_preview@);
            named("ResponseItem"@, m)
        },
        MonitorEventKind::OutputTextDelta { delta } => {
            let m = Some(Seq::<Seq<char>>::empty());
            let m = json_text::put_text(m, "delta"@, delta@);
            named("OutputTextDelta"@, m)
        },
        MonitorEventKind::ReasoningTextDelta { delta } => {
            let m = Some(Seq::<Seq<char>>::empty());
            let m = json_text::put_text(m, "delta"@, delta@);
            named("ReasoningTextDelta"@, m)
        },
        MonitorEventKind::ToolPhase { phase, detail } => {
            let m = Some(Seq::<Seq<char>>::empty());
            let m = json_text::put_text(m, "phase"@, phase@);
            let m = json_text::put_text(m, "detail"@, detail@);
            named("ToolPhase"@, m)
        },
        MonitorEventKind::Failed { message } => {
            let m = Some(Seq::<Seq<char>>::empty());
            let m = json_text::put_text(m, "message"@, message@);
            named("Failed"@, m)
        },
        MonitorEventKind::Completed => Some(json_string::quoted("Completed"@)),
    }
}

impl MonitorEventKind {
    /// What happened, as text.
    pub fn to_text(&self) -> (r: Option<String>)
        ensures
            text::opt_view(r) == kind_text(*self),
    {
        match self {
            MonitorEventKind::RequestStarted {
                model,
                input_items,
                tool_count,
                turn_count,
                user_messages,
                assistant_messages,
                system_messages,
                developer_messages,
                reasoning_items,
                function_calls,
                function_outputs,
                tool_items,
                input_chars,
                instructions_chars,
            } => {
                let mut m = ObjectText::new();
                m.put_text("model", model.as_str());
                m.put("input_items", Some(decimal_of(*input_items as u128)));
                m.put("tool_count", Some(decimal_of(*tool_count as u128)));
                m.put("turn_count", Some(decimal_of(*turn_count as u128)));
                m.put("user_messages", Some(decimal_of(*user_messages as u128)));
                m.put("assistant_messages", Some(decimal_of(*assistant_messages as u128)));
                m.put("system_messages", Some(decimal_of(*system_messages as u128)));
                m.put("developer_messages", Some(decimal_of(*developer_messages as u128)));
                m.put("reasoning_items", Some(decimal_of(*reasoning_items as u128)));
                m.put("function_calls", Some(decimal_of(*function_calls as u128)));
                m.put("function_outputs", Some(decimal_of(*function_outputs as u128)));
                m.put("tool_items", Some(decimal_of(*tool_items as u128)));
                m.put("input_chars", Some(decimal_of(*input_chars as u128)));
                m.put("instructions_chars", Some(decimal_of(*instructions_chars as u128)));
                named_of("RequestStarted", m)
            },
            MonitorEventKind::UpstreamRequest { request_index, message_count, prompt_chars } => {
                let mut m = ObjectText::new();
                m.put("request_index", Some(decimal_of(*request_index as u128)));
                m.put("message_count", Some(decimal_of(*message_count as u128)));
                m.put("prompt_chars", Some(decimal_of(*prompt_chars as u128)));
                named_of("UpstreamRequest", m)
            },
            MonitorEventKind::ResponseItem { event, summary, payload_preview } => {
                let mut m = ObjectText::new();
                m.put_text("event", event.as_str());
                m.put_text("summary", summary.as_str());
                m.put_text("payload_preview", payload_preview.as_str());
                named_of("ResponseItem", m)
            },
            MonitorEventKind::OutputTextDelta { delta } => {
                let mut m = ObjectText::new();
                m.put_text("delta", delta.as_str());
                named_of("OutputTextDelta", m)
            },
            MonitorEventKind::ReasoningTextDelta { delta } => {
                let mut m = ObjectText::new();
                m.put_text("delta", delta.as_str());
                named_of("ReasoningTextDelta", m)
            },
            MonitorEventKind::ToolPhase { phase, detail } => {
                let mut m = ObjectText::new();
                m.put_text("phase", phase.as_str());
                m.put_text("detail", detail.as_str());
                named_of("ToolPhase", m)
            },
            MonitorEventKind::Failed { message } => {
                let mut m = ObjectText::new();
                m.put_text("message", message.as_str());
                named_of("Failed", m)
            },
            MonitorEventKind::Completed => Some(encode_json_string("Completed")),
        }
    }
}

/// An event as text.
pub open spec fn event_text(item: MonitorEvent) -> Option<Seq<char>> {
    let m = Some(Seq::<Seq<char>>::empty());
    let m = json_text::put_text(m, "response_id"@, item.response_id@);
    let m = json_text::put(m, "timestamp_ms"@, Some(text::decimal(item.timestamp_ms as nat)));
    let m = json_text::put(m, "kind"@, kind_text(item.kind));
    json_text::object_text(m)
}

impl MonitorEvent {
    /// An event as text.
    pub fn to_text(&self) -> (r: Option<String>)
        ensures
            text::opt_view(r) == event_text(*self),
    {
        let mut m = ObjectText::new();
        m.put_text("response_id", self.response_id.as_str());
        m.put("timestamp_ms", Some(decimal_of(self.timestamp_ms as u128)));
        m.put("kind", self.kind.to_text());
        m.into_text()
    }
}

} // verus!
