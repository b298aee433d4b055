use llmconduit::json::Json;
use llmconduit::json::JsonMap;
use llmconduit::raw::raw_model_delta_from_sse_event;
use llmconduit::raw::RawOutput;
use llmconduit::raw::SseEvent;

fn event(name: &str, delta: &str) -> SseEvent {
    let mut data = JsonMap::of_type(name);
    data.put_text("delta", delta);
    SseEvent {
        event: name.to_string(),
        data: data.into_json(),
    }
}

#[test]
fn extracts_any_sse_delta_with_a_string_delta_field() {
    assert_eq!(
        raw_model_delta_from_sse_event(&event("response.output_text.delta", "hel")),
        Some("hel")
    );
    assert_eq!(
        raw_model_delta_from_sse_event(&event("response.reasoning_summary_text.delta", "think")),
        Some("think")
    );
    assert_eq!(
        raw_model_delta_from_sse_event(&event("response.function_call_arguments.delta", "{}")),
        Some("{}")
    );
    assert_eq!(
        raw_model_delta_from_sse_event(&event("response.refusal.delta", "no")),
        Some("no")
    );
    assert_eq!(
        raw_model_delta_from_sse_event(&event("response.future_text.delta", "future")),
        Some("future")
    );
}

#[test]
fn ignores_non_delta_events_and_delta_events_without_string_delta() {
    assert_eq!(
        raw_model_delta_from_sse_event(&event("response.output_text.done", "hello")),
        None
    );
    assert_eq!(
        raw_model_delta_from_sse_event(&SseEvent {
            event: "response.output_text.delta".to_string(),
            data: Json::parse(r#"{ "delta": 1 }"#).unwrap(),
        }),
        None
    );
}

#[test]
fn raw_output_writes_extracted_deltas_in_one_stream() {
    let mut raw = RawOutput::new();

    raw.write_sse_event(&event("response.output_text.delta", "hel"));
    raw.write_sse_event(&event("response.reasoning_summary_text.delta", "think"));
    raw.write_sse_event(&event("response.function_call_arguments.delta", "{\"x\":1}"));
    raw.write_sse_event(&event("response.refusal.delta", "no"));
    raw.write_sse_event(&event("response.output_text.done", "ignored"));
    raw.write_sse_event(&event("response.output_text.delta", "lo"));

    assert_eq!(
        String::from_utf8(raw.take()).expect("utf8"),
        "helthink{\"x\":1}nolo"
    );
    assert!(raw.take().is_empty());
}
