use llmconduit::models::chat::StreamOptions;
use llmconduit::models::chat::ChatCompletionResponse;
use llmconduit::models::anthropic::AnthropicToolChoice;
use llmconduit::models::anthropic::AnthropicThinking;
use llmconduit::models::anthropic::AnthropicResponseContentBlock;
use llmconduit::models::anthropic::AnthropicRequest;
use llmconduit::models::anthropic::AnthropicMessageUsage;
use llmconduit::models::anthropic::AnthropicMessageResponse;
use llmconduit::models::anthropic::AnthropicContentBlock;
use llmconduit::models::shorthand::normalize_legacy_function_output;
use llmconduit::models::responses::default_true;
use llmconduit::json::Json;
use llmconduit::json::JsonMap;
use llmconduit::json::JsonNumber;
use llmconduit::models::anthropic::AnthropicContent;
use llmconduit::models::anthropic::AnthropicContentBlockStart;
use llmconduit::models::anthropic::AnthropicDelta;
use llmconduit::models::anthropic::AnthropicMessageDeltaBody;
use llmconduit::models::anthropic::AnthropicMessageStart;
use llmconduit::models::anthropic::AnthropicStreamEvent;
use llmconduit::models::anthropic::AnthropicSystemContent;
use llmconduit::models::anthropic::AnthropicTool;
use llmconduit::models::anthropic::AnthropicUsage;
use llmconduit::models::anthropic::ContentShape;
use llmconduit::models::chat::ChatCompletionChunk;
use llmconduit::models::chat::ChatCompletionRequest;
use llmconduit::models::chat::ChatDelta;
use llmconduit::models::chat::ChatFunctionCall;
use llmconduit::models::chat::ChatTool;
use llmconduit::models::chat::chat_tool_call_kind;
use llmconduit::models::chat::normalize_stop;
use llmconduit::models::chat::opt_stop;
use llmconduit::models::chat::request_model;
use llmconduit::models::responses::ContentItem;
use llmconduit::models::responses::CustomToolFormat;
use llmconduit::models::responses::DeltaPayload;
use llmconduit::models::responses::FunctionCallOutputContent;
use llmconduit::models::responses::LocalShellAction;
use llmconduit::models::responses::LocalShellExecAction;
use llmconduit::models::responses::ReasoningContentItem;
use llmconduit::models::responses::ReasoningSummaryItem;
use llmconduit::models::responses::ResponseInstructions;
use llmconduit::models::responses::ResponseItem;
use llmconduit::models::responses::ResponseResource;
use llmconduit::models::responses::ResponseStub;
use llmconduit::models::responses::ResponsesEnvelope;
use llmconduit::models::responses::ResponsesRequest;
use llmconduit::models::responses::TerminalReason;
use llmconduit::models::responses::TextControls;
use llmconduit::models::responses::TextFormat;
use llmconduit::models::responses::ToolSpec;
use llmconduit::models::responses::WebSearchAction;
use llmconduit::models::responses::default_store_true;
use llmconduit::models::shorthand::RequestInput;
use llmconduit::models::shorthand::normalize_input_item;
use llmconduit::models::shorthand::normalize_tool_choice;
use llmconduit::models::shorthand::request_input;
use llmconduit::models::shorthand::response_tool_choice;
use llmconduit::raw::SseEvent;
use llmconduit::raw::raw_model_delta_from_sse_event;

fn json(text: &str) -> Json {
    Json::parse(text).expect("json")
}

fn map(text: &str) -> JsonMap {
    match json(text) {
        Json::Object(map) => map,
        other => panic!("expected an object, got {other:?}"),
    }
}

fn render(value: &Json) -> String {
    value.render().expect("text")
}

fn chat_request() -> ChatCompletionRequest {
    ChatCompletionRequest {
        model: "glm-5.1".to_string(),
        messages: Vec::new(),
        stream: true,
        tools: None,
        tool_choice: None,
        parallel_tool_calls: false,
        reasoning_effort: None,
        response_format: None,
        stream_options: None,
        temperature: None,
        top_p: None,
        max_output_tokens: None,
        frequency_penalty: None,
        presence_penalty: None,
        stop: None,
        extra_body: JsonMap::new(),
    }
}

fn responses_request() -> ResponsesRequest {
    ResponsesRequest {
        model: "m".to_string(),
        instructions: ResponseInstructions::default(),
        input: vec![],
        tools: vec![],
        tool_choice: Json::text("auto"),
        parallel_tool_calls: None,
        reasoning: None,
        thinking: Some(true),
        store: true,
        stream: false,
        includes: vec!["x".to_string()],
        service_tier: None,
        prompt_cache_key: None,
        prompt_cache_retention: None,
        text: None,
        previous_response_id: None,
        llmconduit_replay: None,
        temperature: None,
        top_p: None,
        max_output_tokens: Some(-3),
        frequency_penalty: Some(JsonNumber::Decimal("0.5".to_string())),
        presence_penalty: None,
        truncation: None,
        metadata: None,
        stop: None,
        extra_body: map(r#"{"model":"evil","vendor":1}"#),
    }
}

#[test]
fn tool_without_input_schema_gets_default() {
    let tool = AnthropicTool::from_json(&json(r#"{"name": "web_search"}"#)).unwrap();
    assert_eq!(tool.name, "web_search");
    assert_eq!(tool.input_schema, json(r#"{"type": "object"}"#));
}

#[test]
fn tool_with_input_schema_preserves_value() {
    let schema = r#"{"type": "object", "properties": { "query": { "type": "string" } }}"#;
    let value = json(&format!(r#"{{"name": "search", "input_schema": {schema}}}"#));
    let tool = AnthropicTool::from_json(&value).unwrap();
    assert_eq!(tool.name, "search");
    assert_eq!(tool.input_schema, json(schema));
}

fn chunk(text: &str) -> ChatCompletionChunk {
    ChatCompletionChunk::from_json(&json(text)).expect("chunk should deserialize")
}

#[test]
fn deserializes_tool_call_chunk_without_type_field() {
    let chunk = chunk(
        r#"{
            "id": "chatcmpl-1",
            "choices": [{
                "index": 0,
                "delta": {
                    "tool_calls": [{
                        "index": 0,
                        "id": "call_1",
                        "function": {
                            "name": "echo",
                            "arguments": "{\"value\":\"hi\"}"
                        }
                    }]
                },
                "finish_reason": null
            }]
        }"#,
    );
    let tool_call = &chunk.choices[0].delta.tool_calls.as_ref().unwrap()[0];
    assert_eq!(tool_call.kind, "function");
    assert_eq!(tool_call.id.as_deref(), Some("call_1"));
    assert_eq!(tool_call.function.name.as_deref(), Some("echo"));
}

#[test]
fn deserializes_openrouter_sparse_tool_call_chunk() {
    let chunk = chunk(
        r#"{
            "id": "gen-1778509792-pCb6B8HesSj8dH3qOYxT",
            "object": "chat.completion.chunk",
            "created": 1778509792,
            "model": "xiaomi/mimo-v2.5-pro-20260422",
            "provider": "Xiaomi",
            "choices": [{
                "index": 0,
                "delta": {
                    "content": null,
                    "role": "assistant",
                    "tool_calls": [{
                        "index": 0,
                        "function": {
                            "arguments": "{\"file_path\":\"/home/luke/projects/demo/memory/smb_clone.md\"}"
                        }
                    }]
                },
                "finish_reason": null,
                "native_finish_reason": null
            }]
        }"#,
    );
    let tool_call = &chunk.choices[0].delta.tool_calls.as_ref().unwrap()[0];
    assert_eq!(tool_call.kind, "function");
    assert_eq!(tool_call.index, Some(0));
    assert_eq!(tool_call.id, None);
    assert_eq!(tool_call.function.name, None);
    assert_eq!(
        tool_call
            .function
            .arguments
            .as_ref()
            .and_then(Json::as_str),
        Some(
            "{\"file_path\":\"/home/luke/projects/demo/memory/smb_clone.md\"}"
        )
    );
}

#[test]
fn deserializes_tool_call_chunk_with_null_type_field() {
    let payload = r#"{"id":"chatcmpl-872acb605d617b3c","object":"chat.completion.chunk","created":1778678877,"model":"Kimi-K2.6","choices":[{"index":0,"delta":{"tool_calls":[{"id":null,"type":null,"index":0,"function":{"name":null,"arguments":"\"} "}}]},"logprobs":null,"finish_reason":"tool_calls","stop_reason":163586,"token_ids":null}]}"#;
    let chunk = chunk(payload);

    let tool_call = &chunk.choices[0].delta.tool_calls.as_ref().unwrap()[0];
    assert_eq!(tool_call.kind, "function");
    assert!(tool_call.id.is_none());
    assert!(tool_call.function.name.is_none());
    assert_eq!(
        tool_call
            .function
            .arguments
            .as_ref()
            .and_then(Json::as_str),
        Some("\"} ")
    );
}

#[test]
fn deserializes_tool_call_chunk_without_function_field() {
    let chunk = chunk(
        r#"{
            "id": "chatcmpl-1",
            "choices": [{
                "index": 0,
                "delta": {
                    "tool_calls": [{
                        "index": 0,
                        "id": "call_1"
                    }]
                },
                "finish_reason": null
            }]
        }"#,
    );
    let tool_call = &chunk.choices[0].delta.tool_calls.as_ref().unwrap()[0];
    assert_eq!(tool_call.kind, "function");
    assert_eq!(tool_call.id.as_deref(), Some("call_1"));
    assert_eq!(tool_call.function, ChatFunctionCall::default());
}

#[test]
fn deserializes_legacy_function_call_chunk() {
    let chunk = chunk(
        r#"{
            "id": "chatcmpl-1",
            "choices": [{
                "index": 0,
                "delta": {
                    "function_call": {
                        "name": "echo",
                        "arguments": "{\"value\":\"hi\"}"
                    }
                },
                "finish_reason": null
            }]
        }"#,
    );
    let function_call = chunk.choices[0].delta.function_call.as_ref().unwrap();
    assert_eq!(function_call.name.as_deref(), Some("echo"));
    assert_eq!(
        function_call.arguments.as_ref().and_then(Json::as_str),
        Some("{\"value\":\"hi\"}")
    );
    assert_eq!(
        chunk.choices[0].delta.non_null_delta_keys(),
        vec!["function_call".to_string()]
    );
}

#[test]
fn deserializes_reasoning_delta_alias() {
    let chunk = chunk(
        r#"{
            "id": "chatcmpl-1",
            "choices": [{
                "index": 0,
                "delta": {
                    "reasoning": "hidden step"
                },
                "finish_reason": null
            }]
        }"#,
    );
    assert_eq!(
        chunk.choices[0].delta.reasoning_delta(),
        Some("hidden step")
    );
    assert_eq!(
        chunk.choices[0].delta.non_null_delta_keys(),
        vec!["reasoning".to_string()]
    );
}

#[test]
fn deserializes_nested_thinking_content_and_signature() {
    let chunk = chunk(
        r#"{
            "id": "chatcmpl-1",
            "choices": [{
                "index": 0,
                "delta": {
                    "thinking": {
                        "content": "hidden step",
                        "signature": "sig_123"
                    }
                },
                "finish_reason": null
            }]
        }"#,
    );
    let delta = &chunk.choices[0].delta;
    assert_eq!(delta.reasoning_delta(), Some("hidden step"));
    assert_eq!(delta.reasoning_signature_delta(), Some("sig_123"));
    assert_eq!(delta.non_null_delta_keys(), vec!["thinking".to_string()]);
}

#[test]
fn chunks_bring_their_usage() {
    let chunk = chunk(
        r#"{"id":"c","choices":[],"usage":{"prompt_tokens":1,"completion_tokens":2,"total_tokens":3,
            "prompt_tokens_details":{},"completion_tokens_details":{"reasoning_tokens":5}}}"#,
    );
    let usage = chunk.usage.expect("usage");
    assert_eq!(usage.total_tokens, 3);
    assert_eq!(usage.prompt_tokens_details.expect("details").cached_tokens, 0);
    assert_eq!(
        usage
            .completion_tokens_details
            .expect("details")
            .reasoning_tokens,
        5
    );
    assert!(ChatCompletionChunk::from_json(&json(r#"{"id":"c"}"#)).is_none());
}

#[test]
fn deserializes_max_completion_tokens_alias() {
    let request = ChatCompletionRequest::from_json(&json(
        r#"{"model": "glm-5.1", "messages": [], "max_completion_tokens": 512}"#,
    ))
    .expect("request should deserialize");
    assert_eq!(request.max_output_tokens, Some(512));
    assert!(ChatCompletionRequest::from_json(&json(
        r#"{"model": "glm-5.1", "messages": [], "max_tokens": 1, "max_completion_tokens": 2}"#,
    ))
    .is_none());
}

#[test]
fn deserializes_chat_tool_without_description() {
    let tool = ChatTool::from_json(&json(
        r#"{
            "type": "function",
            "function": {
                "name": "echo",
                "parameters": {
                    "type": "object",
                    "properties": {}
                }
            }
        }"#,
    ))
    .expect("tool should deserialize");
    assert_eq!(tool.function.name, "echo");
    assert_eq!(tool.function.description, "");
}

#[test]
fn chat_request_is_read_and_written() {
    let text = r#"{"frequency_penalty":0.5,"max_tokens":7,"messages":[{"content":"hi","role":"user"}],"model":"m","parallel_tool_calls":true,"stop":["a"],"stream":true,"stream_options":{"include_usage":true},"vendor":{"x":1}}"#;
    let request = ChatCompletionRequest::from_json(&json(text)).expect("request");
    assert_eq!(render(&request.to_json()), text);
    assert_eq!(request.extra_body.entries.len(), 1);
}

#[test]
fn empty_reasoning_falls_through() {
    let delta = ChatDelta {
        content: Some("x".to_string()),
        reasoning_content: Some(String::new()),
        extra: map(r#"{"reasoning":"","reasoning_text":null,"thinking_content":"late","signature":"top","zed":null}"#),
        ..ChatDelta::default()
    };
    assert_eq!(delta.reasoning_delta(), Some("late"));
    assert_eq!(delta.reasoning_signature_delta(), Some("top"));
    assert_eq!(
        delta.non_null_delta_keys(),
        vec!["content", "reasoning_content", "reasoning", "signature", "thinking_content"]
    );
}

#[test]
fn serializes_max_output_tokens_as_chat_max_tokens() {
    let request = ChatCompletionRequest {
        max_output_tokens: Some(256),
        ..chat_request()
    };
    let value = request.to_json();
    assert_eq!(value.field("max_tokens"), Some(&Json::unsigned(256)));
    assert!(
        value.field("max_output_tokens").is_none(),
        "chat backend requests should use max_tokens"
    );
}

#[test]
fn serializes_stop_to_upstream_key() {
    let request = ChatCompletionRequest {
        stop: Some(vec!["</decision>".to_string()]),
        ..chat_request()
    };
    let value = request.to_json();
    assert_eq!(value.field("stop"), Some(&json(r#"["</decision>"]"#)));

    let omitted = ChatCompletionRequest {
        stop: None,
        ..request
    };
    let value = omitted.to_json();
    assert!(
        value.field("stop").is_none(),
        "stop must be omitted when None"
    );
}

#[test]
fn deserializes_stop_as_string_or_array() {
    let stop = |text: &str| {
        ChatCompletionRequest::from_json(&json(text))
            .expect("stop should deserialize")
            .stop
    };
    assert_eq!(
        stop(r#"{"model": "glm-5.1", "messages": [], "stop": "</s>"}"#),
        Some(vec!["</s>".to_string()])
    );
    assert_eq!(
        stop(r#"{"model": "glm-5.1", "messages": [], "stop": ["a", "b"]}"#),
        Some(vec!["a".to_string(), "b".to_string()])
    );
    assert_eq!(stop(r#"{"model": "glm-5.1", "messages": []}"#), None);
    assert_eq!(
        stop(r#"{"model": "glm-5.1", "messages": [], "stop": null}"#),
        None
    );
    assert_eq!(
        opt_stop(&json(r#"["a", 1]"#)),
        Err("data did not match any variant of untagged enum StringOrVec".to_string())
    );
    assert!(opt_stop(&json("7")).is_err());
}

#[test]
fn normalize_stop_drops_empties_and_rejects_excess() {
    assert_eq!(normalize_stop(None).expect("none"), None);
    assert_eq!(
        normalize_stop(Some(vec![String::new(), String::new()])).expect("all empty"),
        None
    );
    assert_eq!(
        normalize_stop(Some(vec!["x".to_string(), String::new(), "y".to_string()]))
            .expect("filtered"),
        Some(vec!["x".to_string(), "y".to_string()])
    );
    let four = vec![
        "a".to_string(),
        "b".to_string(),
        "c".to_string(),
        "d".to_string(),
    ];
    assert_eq!(
        normalize_stop(Some(four.clone())).expect("exactly four"),
        Some(four)
    );
    let mut five = vec![
        "a".to_string(),
        "b".to_string(),
        "c".to_string(),
        "d".to_string(),
    ];
    five.push("e".to_string());
    let error = normalize_stop(Some(five)).expect_err("more than four must error");
    assert_eq!(error.describe(), "stop supports at most 4 sequences, got 5");
}

#[test]
fn model_is_trimmed_and_kinds_default() {
    assert_eq!(request_model(Some("  glm \n")), "glm");
    assert_eq!(request_model(None), "");
    assert_eq!(chat_tool_call_kind(None), "function");
    assert_eq!(chat_tool_call_kind(Some("x".to_string())), "x");
}

#[test]
fn response_tool_choice_serializes_function_selection_in_official_flat_form() {
    let resource = |tool_choice| ResponseResource {
        id: "resp_test".to_string(),
        object: "response".to_string(),
        created_at: 1,
        completed_at: None,
        status: "in_progress".to_string(),
        error: None,
        instructions: None,
        max_output_tokens: None,
        output: Vec::new(),
        model: "test-model".to_string(),
        parallel_tool_calls: None,
        previous_response_id: None,
        reasoning: None,
        store: false,
        temperature: None,
        text: None,
        tool_choice,
        tools: Vec::new(),
        top_p: None,
        truncation: None,
        service_tier: None,
        prompt_cache_key: None,
        prompt_cache_retention: None,
        estimated_input_tokens: None,
        usage: None,
        metadata: None,
        incomplete_details: None,
        stop_sequence: None,
        terminal_reason: None,
    };
    let serialized = resource(json(
        r#"{"type": "function", "function": { "name": "echo" }}"#,
    ))
    .to_json()
    .expect("serialize tool choice");
    assert_eq!(
        serialized.field("tool_choice"),
        Some(&json(r#"{ "type": "function", "name": "echo" }"#))
    );

    let serialized = resource(Json::text("auto"))
        .to_json()
        .expect("serialize automatic tool choice");
    assert_eq!(serialized.text_field("tool_choice"), Some("auto"));
    assert_eq!(
        render(&serialized),
        r#"{"created_at":1,"id":"resp_test","model":"test-model","object":"response","output":[],"status":"in_progress","store":false,"tool_choice":"auto","tools":[]}"#
    );
}

#[test]
fn tool_choice_comes_back_as_it_was() {
    let flat = json(r#"{"type":"function","name":"echo"}"#);
    let nested = normalize_tool_choice(flat.copy());
    assert_eq!(
        render(&nested),
        r#"{"function":{"name":"echo"},"type":"function"}"#
    );
    assert_eq!(response_tool_choice(&nested), flat);
}

fn round_trip(item: ResponseItem) {
    let text = item.to_text().expect("text");
    let roundtripped = ResponseItem::from_json(&json(&text)).expect("item");
    assert_eq!(item, roundtripped);
    let again = ResponseItem::from_json(&item.to_json()).expect("item");
    assert_eq!(item, again);
}

#[test]
fn response_item_message_serde_roundtrip() {
    round_trip(ResponseItem::Message {
        id: Some("msg_1".to_string()),
        role: "assistant".to_string(),
        content: vec![ContentItem::OutputText {
            text: "hello".to_string(),
        }],
        phase: None,
    });
}

#[test]
fn response_item_function_call_serde_roundtrip() {
    round_trip(ResponseItem::FunctionCall {
        id: Some("fc_1".to_string()),
        name: "calculator".to_string(),
        namespace: Some("mcp__math".to_string()),
        arguments: r#"{"expr":"1+1"}"#.to_string(),
        call_id: "call_1".to_string(),
    });
}

#[test]
fn response_item_web_search_call_serde_roundtrip() {
    round_trip(ResponseItem::WebSearchCall {
        id: Some("ws_1".to_string()),
        status: Some("completed".to_string()),
        action: Some(WebSearchAction::Search {
            query: Some("rust async".to_string()),
            queries: None,
            sources: None,
        }),
    });
}

#[test]
fn other_items_round_trip() {
    round_trip(ResponseItem::LocalShellCall {
        id: None,
        call_id: Some("c".to_string()),
        status: "done".to_string(),
        action: LocalShellAction::Exec(LocalShellExecAction {
            command: vec!["ls".to_string(), "-l".to_string()],
            timeout_ms: Some(10),
            working_directory: Some("/".to_string()),
            env: Some(vec![
                ("A".to_string(), "1".to_string()),
                ("B".to_string(), "2".to_string()),
            ]),
            user: None,
        }),
    });
    round_trip(ResponseItem::Reasoning {
        id: "r".to_string(),
        summary: vec![ReasoningSummaryItem::SummaryText {
            text: "s".to_string(),
        }],
        content: Some(vec![ReasoningContentItem::Text {
            text: "t".to_string(),
        }]),
        encrypted_content: Some("e".to_string()),
    });
    round_trip(ResponseItem::FunctionCallOutput {
        call_id: "c".to_string(),
        output: FunctionCallOutputContent::Content(vec![ContentItem::InputText {
            text: "x".to_string(),
        }]),
    });
    round_trip(ResponseItem::ToolSearchOutput {
        call_id: None,
        status: "ok".to_string(),
        execution: "server".to_string(),
        tools: vec![json(r#"{"a":[1]}"#)],
    });
    let pending = ResponseItem::from_json(&json(r#"{"type":"reasoning"}"#)).expect("item");
    assert_eq!(
        pending,
        ResponseItem::Reasoning {
            id: "rsn_pending".to_string(),
            summary: vec![],
            content: None,
            encrypted_content: None,
        }
    );
    assert!(ResponseItem::from_json(&json(r#"{"type":"unheard_of"}"#)).is_none());
    assert!(ResponseItem::from_json(&json(r#"{"type":"message","role":"user"}"#)).is_none());
}

#[test]
fn terminal_reason_wire_strings_are_pinned() {
    for (variant, expected) in [
        (TerminalReason::Stop, "stop"),
        (TerminalReason::Length, "length"),
        (TerminalReason::ToolCall, "tool_calls"),
        (TerminalReason::ContentFilter, "content_filter"),
        (TerminalReason::Other, "other"),
    ] {
        assert_eq!(
            variant.wire_name(),
            expected,
            "wire string for {variant:?}"
        );
        assert_eq!(
            TerminalReason::from_finish_reason(Some(expected)),
            variant,
            "round-trip for {variant:?}",
        );
    }
    assert!(TerminalReason::Stop.is_clean_stop());
    assert!(!TerminalReason::from_finish_reason(None).is_clean_stop());
}

#[test]
fn response_stub_estimated_input_tokens_round_trips_present_and_absent() {
    let present = ResponseStub {
        id: "resp_123".to_string(),
        estimated_input_tokens: Some(20),
    };
    let value = present.to_json();
    assert_eq!(value.field("estimated_input_tokens"), Some(&json("20")));
    let roundtripped = ResponseStub::from_json(&value).expect("deserialize present");
    assert_eq!(present, roundtripped);

    let absent = ResponseStub {
        id: "resp_456".to_string(),
        estimated_input_tokens: None,
    };
    let value = absent.to_json();
    assert!(
        !value
            .as_object()
            .unwrap()
            .contains_key("estimated_input_tokens"),
        "None must be OMITTED, not serialized as null: {value:?}"
    );
    let roundtripped = ResponseStub::from_json(&value).expect("deserialize absent");
    assert_eq!(absent, roundtripped);
}

#[test]
fn content_item_multimodal_serde_roundtrip() {
    let items = vec![
        ContentItem::InputImage {
            image_url: None,
            file_id: Some("file_img".to_string()),
            detail: Some("high".to_string()),
        },
        ContentItem::InputFile {
            file_id: Some("file_doc".to_string()),
            file_url: None,
            filename: Some("brief.pdf".to_string()),
            file_data: None,
        },
        ContentItem::Other(json(
            r#"{"type": "input_audio", "input_audio": {"data": "abc", "format": "wav"}}"#,
        )),
    ];
    for item in items {
        let text = item.to_text().expect("text");
        let roundtripped = ContentItem::from_json(&json(&text)).expect("content");
        assert_eq!(item, roundtripped);
    }
}

#[test]
fn content_errors_are_told() {
    for (text, message) in [
        ("7", "content item must be an object"),
        (r#"{"type":"input_text"}"#, "missing field `text`"),
        (r#"{"type":"input_text","text":1}"#, "text must be a string"),
        (
            r#"{"type":"input_image","image_url":{}}"#,
            "image_url.url is required",
        ),
        (
            r#"{"type":"input_image","image_url":{"url":1}}"#,
            "image_url.url must be a string",
        ),
        (
            r#"{"type":"input_image","image_url":1}"#,
            "image_url must be a string",
        ),
        (
            r#"{"type":"input_file","file_id":1}"#,
            "file_id must be a string",
        ),
    ] {
        assert_eq!(
            ContentItem::from_json(&json(text)),
            Err(message.to_string())
        );
    }
}

fn request(text: &str) -> ResponsesRequest {
    ResponsesRequest::from_json(&json(text)).expect("request")
}

#[test]
fn test_store_defaults_to_true() {
    let req = request(r#"{"model":"gpt-4","input":[]}"#);
    assert!(req.store, "store should default to true");
    assert!(default_store_true());
}

#[test]
fn test_store_explicit_false() {
    let req = request(r#"{"model":"gpt-4","input":[],"store":false}"#);
    assert!(!req.store, "store should be false when explicitly set");
}

#[test]
fn test_penalties_roundtrip() {
    let req = request(
        r#"{"model":"gpt-4","input":[],"frequency_penalty":0.5,"presence_penalty":0.3}"#,
    );
    assert_eq!(
        req.frequency_penalty,
        Some(JsonNumber::Decimal("0.5".to_string()))
    );
    assert_eq!(
        req.presence_penalty,
        Some(JsonNumber::Decimal("0.3".to_string()))
    );
}

#[test]
fn requests_keep_what_they_do_not_know() {
    let req = request(
        r#"{"model":" m ","instructions":[{"role":"developer","content":"x"}],"input":"hi","include":["a"],
            "tools":[{"type":"function","name":"f","parameters":{}},{"type":"local_shell"},{"type":"custom","name":"c"}],
            "tool_choice":{"type":"function","name":"f"},"text":{"format":{"type":"json_object"}},
            "max_output_tokens":-1,"metadata":{"k":1},"stop":"s","thinking":true,"vendor":2}"#,
    );
    assert_eq!(req.model, "m");
    assert_eq!(req.instructions.items().map(Vec::len), Some(1));
    assert_eq!(req.includes, vec!["a"]);
    assert_eq!(req.tools.len(), 3);
    assert_eq!(
        render(&req.tool_choice),
        r#"{"function":{"name":"f"},"type":"function"}"#
    );
    assert_eq!(req.max_output_tokens, Some(-1));
    assert_eq!(req.stop, Some(vec!["s".to_string()]));
    assert_eq!(req.thinking, None);
    assert_eq!(
        render(&req.extra_body.copy().into_json()),
        r#"{"thinking":true,"vendor":2}"#
    );
    assert!(ResponsesRequest::from_json(&json(r#"{"store":null}"#)).is_none());
    assert!(ResponsesRequest::from_json(&json(r#"{"input":7}"#)).is_none());
    assert!(ResponsesRequest::from_json(&json(r#"{"text":{"format":{"type":"yaml"}}}"#)).is_none());
}

#[test]
fn test_input_bare_string_deserializes() {
    let req = request(r#"{"model":"gpt-4","input":"hello","stream":true}"#);
    assert_eq!(req.input.len(), 1);
    match &req.input[0] {
        ResponseItem::Message { role, content, .. } => {
            assert_eq!(role, "user");
            assert_eq!(content.len(), 1);
            match &content[0] {
                ContentItem::InputText { text } => assert_eq!(text, "hello"),
                other => panic!("expected InputText, got {:?}", other),
            }
        }
        other => panic!("expected Message, got {:?}", other),
    }
    assert!(request_input(&json("7")).is_none());
}

#[test]
fn input_items_have_one_form() {
    let normal = |text: &str| render(&normalize_input_item(json(text)));
    assert_eq!(
        normal(r#"{"role":"user","content":"hi"}"#),
        r#"{"content":[{"text":"hi","type":"input_text"}],"role":"user","type":"message"}"#
    );
    assert_eq!(
        normal(r#"{"role":"tool","tool_call_id":"c","content":{"a":1}}"#),
        r#"{"call_id":"c","output":"{\"a\":1}","type":"function_call_output"}"#
    );
    assert_eq!(
        normal(r#"{"role":"tool","call_id":"c"}"#),
        r#"{"call_id":"c","output":"","type":"function_call_output"}"#
    );
    assert_eq!(
        normal(r#"{"role":"tool","call_id":1,"tool_call_id":"c"}"#),
        r#"{"call_id":1,"role":"tool","tool_call_id":"c"}"#
    );
    assert_eq!(normal(r#"{"type":"reasoning","content":"x"}"#), r#"{"content":"x","type":"reasoning"}"#);
    match request_input(&json(r#"[{"role":"user","content":"hi"},7]"#)) {
        Some(RequestInput::Items(items)) => {
            assert_eq!(items.len(), 2);
            assert_eq!(items[0].text_field("type"), Some("message"));
            assert_eq!(items[1], json("7"));
        }
        other => panic!("expected items, got {other:?}"),
    }
}

#[test]
fn typed_fields_of_a_request_win() {
    let value = responses_request().to_json().expect("json");
    assert_eq!(
        render(&value),
        r#"{"frequency_penalty":0.5,"include":["x"],"input":[],"instructions":"","max_output_tokens":-3,"metadata":null,"model":"m","previous_response_id":null,"prompt_cache_key":null,"prompt_cache_retention":null,"reasoning":null,"service_tier":null,"store":true,"stream":false,"text":null,"tool_choice":"auto","tools":[],"truncation":null,"vendor":1}"#
    );
    assert!(ResponsesRequest::is_typed_field_name("include"));
    assert!(!ResponsesRequest::is_typed_field_name("thinking"));
}

#[test]
fn unknown_text_format_is_refused() {
    let request = ResponsesRequest {
        text: Some(TextControls {
            verbosity: None,
            format: Some(TextFormat::plain("yaml")),
        }),
        ..responses_request()
    };
    assert_eq!(
        request.to_json(),
        Err("unsupported text format type: yaml".to_string())
    );
    let schema = TextFormat::json_schema("n".to_string(), json("{}"), true, None);
    assert_eq!(
        render(&schema.to_json().expect("json")),
        r#"{"name":"n","schema":{},"strict":true,"type":"json_schema"}"#
    );
    assert_eq!(
        render(&TextFormat::plain("json_object").to_json().expect("json")),
        r#"{"type":"json_object"}"#
    );
}

#[test]
fn tools_and_items_as_json() {
    let tool = ToolSpec::WebSearch {
        external_web_access: Some(true),
        filters: None,
        user_location: None,
        search_context_size: None,
        search_content_types: Some(vec!["text".to_string()]),
    };
    assert_eq!(
        render(&tool.to_json()),
        r#"{"external_web_access":true,"filters":null,"search_content_types":["text"],"search_context_size":null,"type":"web_search","user_location":null}"#
    );
    let tool = ToolSpec::Function {
        name: "f".to_string(),
        description: String::new(),
        strict: true,
        parameters: json("{}"),
    };
    assert_eq!(
        render(&tool.to_json()),
        r#"{"name":"f","parameters":{},"strict":true,"type":"function"}"#
    );
    let item = ResponseItem::WebSearchCall {
        id: Some("ws_1".to_string()),
        status: Some("completed".to_string()),
        action: Some(WebSearchAction::Search {
            query: Some("rust async".to_string()),
            queries: None,
            sources: None,
        }),
    };
    assert_eq!(
        item.to_text().as_deref(),
        Some(
            r#"{"type":"web_search_call","id":"ws_1","status":"completed","action":{"type":"search","query":"rust async"}}"#
        )
    );
    assert_eq!(
        render(&item.to_json()),
        r#"{"action":{"query":"rust async","type":"search"},"id":"ws_1","status":"completed","type":"web_search_call"}"#
    );
}

#[test]
fn instructions_have_a_replay_key() {
    let text = ResponseInstructions::Text("be brief".to_string());
    assert_eq!(text.replay_key(), "be brief");
    assert_eq!(text.character_count(), 8);
    assert!(text.contains("brief") && text.is_text("be brief"));
    let mut items = ResponseInstructions::Items(vec![ResponseItem::ItemReference {
        id: "a\"b".to_string(),
    }]);
    assert_eq!(
        items.replay_key(),
        "\0responses-instruction-items:[{\"type\":\"item_reference\",\"id\":\"a\\\"b\"}]"
    );
    assert!(!items.contains("item"));
    items.prepend_system_text("first".to_string());
    assert_eq!(items.items().map(Vec::len), Some(2));
    if let Some(list) = items.items_mut() {
        list.clear();
    }
    assert!(items.is_empty());
    let mut text = ResponseInstructions::default();
    text.prepend_system_text("a".to_string());
    text.prepend_system_text("b".to_string());
    assert_eq!(text.text(), Some("b\n\na"));
}

#[test]
fn function_output_takes_any_value() {
    let out = |text: &str| FunctionCallOutputContent::from_json(&json(text));
    assert_eq!(out("\"x\""), FunctionCallOutputContent::Text("x".to_string()));
    assert_eq!(out("null"), FunctionCallOutputContent::Text(String::new()));
    assert_eq!(
        out(r#"{"a":1}"#),
        FunctionCallOutputContent::Text(r#"{"a":1}"#.to_string())
    );
    let mut parts = out(r#"[{"type":"input_text","text":"t"},7]"#);
    assert_eq!(
        parts.content(),
        Some(&vec![
            ContentItem::InputText {
                text: "t".to_string()
            },
            ContentItem::Other(json("7")),
        ])
    );
    assert_eq!(
        parts.to_text().as_deref(),
        Some(r#"[{"type":"input_text","text":"t"},7]"#)
    );
    assert!(parts.content_mut().is_some());
    assert!(out("true").content().is_none());
}

#[test]
fn stream_events_as_text() {
    let usage = AnthropicUsage {
        input_tokens: Some(3),
        output_tokens: None,
    };
    let start = AnthropicStreamEvent::MessageStart {
        message: AnthropicMessageStart {
            id: "msg_1".to_string(),
            kind: "message".to_string(),
            role: "assistant".to_string(),
            content: vec![],
            model: "m".to_string(),
            stop_reason: None,
            stop_sequence: None,
            usage: usage.clone(),
        },
    };
    assert_eq!(
        start.to_json(),
        r#"{"type":"message_start","message":{"id":"msg_1","type":"message","role":"assistant","content":[],"model":"m","stop_reason":null,"stop_sequence":null,"usage":{"input_tokens":3}}}"#
    );
    assert_eq!(start.sse_event_type(), "message_start");
    let delta = AnthropicStreamEvent::ContentBlockDelta {
        index: 2,
        delta: AnthropicDelta::TextDelta {
            text: "a\"\n".to_string(),
        },
    };
    assert_eq!(
        delta.to_json(),
        r#"{"type":"content_block_delta","index":2,"delta":{"type":"text_delta","text":"a\"\n"}}"#
    );
    let block = AnthropicStreamEvent::ContentBlockStart {
        index: 0,
        content_block: AnthropicContentBlockStart::ToolUse {
            id: "t".to_string(),
            name: "n".to_string(),
            input: json("{}"),
        },
    };
    assert_eq!(
        block.to_json(),
        r#"{"type":"content_block_start","index":0,"content_block":{"type":"tool_use","id":"t","name":"n","input":{}}}"#
    );
    let end = AnthropicStreamEvent::MessageDelta {
        delta: AnthropicMessageDeltaBody {
            stop_reason: "end_turn".to_string(),
            stop_sequence: Some(Json::text("X")),
        },
        usage,
    };
    assert_eq!(
        end.to_json(),
        r#"{"type":"message_delta","delta":{"stop_reason":"end_turn","stop_sequence":"X"},"usage":{"input_tokens":3}}"#
    );
    assert_eq!(AnthropicStreamEvent::Ping.to_json(), r#"{"type":"ping"}"#);
}

#[test]
fn content_may_be_a_text_blocks_or_null() {
    assert_eq!(
        AnthropicSystemContent::shape(&json("\"x\"")),
        Ok(ContentShape::Text("x".to_string()))
    );
    assert_eq!(
        AnthropicContent::shape(&json("[]")),
        Ok(ContentShape::Blocks)
    );
    assert_eq!(
        AnthropicContent::shape(&Json::Null),
        Ok(ContentShape::Text(String::new()))
    );
    assert_eq!(
        AnthropicContent::shape(&json("1")),
        Err("expected string or array for message content".to_string())
    );
    assert_eq!(
        AnthropicSystemContent::shape(&json("{}")),
        Err("expected string or array for system content".to_string())
    );
}

#[test]
fn payloads_as_json() {
    let payload = DeltaPayload {
        item_id: "i".to_string(),
        output_index: 1,
        content_index: 0,
        delta: "hel".to_string(),
    };
    assert_eq!(
        render(&payload.to_json()),
        r#"{"content_index":0,"delta":"hel","item_id":"i","output_index":1}"#
    );
    let event = SseEvent {
        event: "response.output_text.delta".to_string(),
        data: payload.to_json(),
    };
    assert_eq!(raw_model_delta_from_sse_event(&event), Some("hel"));
    let envelope = ResponsesEnvelope {
        kind: "response.output_text.delta".to_string(),
        payload: match payload.to_json() {
            Json::Object(map) => map,
            other => panic!("expected an object, got {other:?}"),
        },
    };
    assert_eq!(
        render(&envelope.to_json()),
        r#"{"content_index":0,"delta":"hel","item_id":"i","output_index":1,"type":"response.output_text.delta"}"#
    );
}

#[test]
fn request_that_is_written_and_read_again_is_the_same() {
    let text = r#"{"model":"m","instructions":[{"type":"message","role":"developer","content":[{"type":"input_text","text":"x"}]}],
        "input":[{"type":"function_call","name":"f","arguments":"{}","call_id":"c"},
                 {"type":"function_call_output","call_id":"c","output":"done"}],
        "tools":[{"type":"function","name":"f","description":"","strict":false,"parameters":{"type":"object"}},
                 {"type":"namespace","name":"n","description":"d","tools":[{"type":"function","name":"g","parameters":null}]},
                 {"type":"web_search","filters":{"a":1},"search_content_types":["text"]},
                 {"type":"custom","name":"c","format":{"type":"grammar","syntax":"lark","definition":"s: /./"}},
                 {"type":"image_generation","output_format":"png"},{"type":"local_shell"},
                 {"type":"tool_search","execution":"server","description":"d","parameters":1}],
        "tool_choice":{"type":"function","name":"f"},"parallel_tool_calls":true,
        "reasoning":{"effort":"low"},"include":["a","b"],"store":false,"stream":true,
        "text":{"verbosity":"low","format":{"type":"json_schema","name":"s","schema":{},"strict":true}},
        "temperature":0.25,"max_output_tokens":7,"metadata":{"k":1},"stop":["s"],"vendor":2,"alpha":[]}"#;
    let first = request(text).to_json().expect("json");
    let again = ResponsesRequest::from_json(&first).expect("request");
    assert_eq!(again.tools.len(), 7);
    assert_eq!(again.input.len(), 2);
    let second = again.to_json().expect("json");
    assert_eq!(render(&first), render(&second));
    assert_eq!(
        render(&again.extra_body.into_json()),
        r#"{"alpha":[],"vendor":2}"#
    );
}

#[test]
fn tool_content_becomes_output() {
    let output = |text: &str| render(&normalize_legacy_function_output(json(text)));
    assert_eq!(output("null"), r#""""#);
    assert_eq!(output(r#""done""#), r#""done""#);
    assert_eq!(output("[1]"), "[1]");
    assert_eq!(output(r#"{"a":true}"#), r#""{\"a\":true}""#);
    assert_eq!(output("7"), r#""7""#);
    assert!(default_true());
}

#[test]
fn message_of_one_text() {
    let item = ResponseItem::message_text("assistant", "hi");
    assert_eq!(
        render(&item.to_json()),
        r#"{"content":[{"text":"hi","type":"output_text"}],"role":"assistant","type":"message"}"#
    );
}

#[test]
fn text_is_instructions() {
    let instructions = ResponseInstructions::from("be brief".to_string());
    assert!(instructions.is_text("be brief"));
    assert_eq!(instructions.text(), Some("be brief"));
}

#[test]
fn fields_are_read_by_position_too() {
    let chat = |options: &str| {
        let text = format!(r#"{{"model":"m","messages":[],"stream_options":{options}}}"#);
        ChatCompletionRequest::from_json(&json(&text))
    };
    assert!(!chat("[]").expect("request").stream_options.expect("options").include_usage);
    assert!(chat("[true]").expect("request").stream_options.expect("options").include_usage);
    assert!(chat("[true,1]").is_none());
    assert!(StreamOptions::from_json(&json("7")).is_none());
    let item = |text: &str| ResponseItem::from_json(&json(text));
    assert_eq!(
        item(r#"["message",null,"user",[{"type":"input_text","text":"hi"}]]"#),
        item(r#"{"type":"message","role":"user","content":[{"type":"input_text","text":"hi"}]}"#)
    );
    assert!(item(r#"["message",null,"user"]"#).is_none());
    assert!(item(r#"[]"#).is_none());
    assert!(item(r#"["reasoning"]"#).is_some());
    assert_eq!(
        item(r#"["web_search_call","w",null,["find_in_page","u"]]"#),
        item(r#"{"type":"web_search_call","id":"w","action":{"type":"find_in_page","url":"u"}}"#)
    );
    let tool = |text: &str| ToolSpec::from_json(&json(text));
    assert_eq!(
        tool(r#"["function","f","d",false,{}]"#),
        tool(r#"{"type":"function","name":"f","description":"d","strict":false,"parameters":{}}"#)
    );
    assert_eq!(tool(r#"["local_shell"]"#), tool(r#"{"type":"local_shell","x":1}"#));
    assert!(tool(r#"["local_shell",1]"#).is_none());
    assert!(ResponsesRequest::from_json(&json("[]")).is_none());
    assert_eq!(
        ResponseStub::from_json(&json(r#"["r",5]"#)).map(|stub| stub.estimated_input_tokens),
        Some(Some(5))
    );
    let asked = request(r#"{"reasoning":["low"],"text":[null,["json_schema","n",{},true]]}"#);
    assert_eq!(asked.reasoning.expect("reasoning").effort.as_deref(), Some("low"));
    assert!(asked.text.expect("text").format.expect("format").strict);
}

#[test]
fn whole_numbers_are_floats_where_floats_are_wanted() {
    let asked = request(r#"{"temperature":1,"top_p":0.25,"presence_penalty":-2}"#);
    assert_eq!(asked.temperature, Some(JsonNumber::Decimal("1.0".to_string())));
    assert_eq!(asked.top_p, Some(JsonNumber::Decimal("0.25".to_string())));
    assert_eq!(asked.presence_penalty, Some(JsonNumber::Decimal("-2.0".to_string())));
    let chat = ChatCompletionRequest::from_json(&json(
        r#"{"model":"m","messages":[],"temperature":0}"#,
    ))
    .expect("request");
    assert!(render(&chat.to_json()).contains(r#""temperature":0.0"#));
}

#[test]
fn request_text_is_in_order() {
    let asked = request(
        r#"{"vendor":{"b":1,"a":2},"model":"m","input":"hi","temperature":1,"stop":["s"],"store":false,
            "tools":[{"type":"web_search"},{"type":"custom","name":"c"}],"text":{"format":{"type":"text"}},
            "reasoning":{"effort":"low"},"llmconduit_replay":true}"#,
    );
    assert_eq!(
        asked.to_text().expect("text"),
        concat_lines(&[
            r#"{"model":"m","instructions":"","#,
            r#""input":[{"type":"message","role":"user","content":[{"type":"input_text","text":"hi"}]}],"#,
            r#""tools":[{"type":"web_search","external_web_access":null,"filters":null,"#,
            r#""user_location":null,"search_context_size":null,"search_content_types":null},"#,
            r#"{"type":"custom","name":"c","format":{"type":"text"}}],"tool_choice":"auto","#,
            r#""reasoning":{"effort":"low","summary":null},"store":false,"stream":false,"include":[],"#,
            r#""service_tier":null,"prompt_cache_key":null,"prompt_cache_retention":null,"#,
            r#""text":{"verbosity":null,"format":{"type":"text"}},"previous_response_id":null,"#,
            r#""llmconduit_replay":true,"temperature":1.0,"truncation":null,"metadata":null,"#,
            r#""stop":["s"],"vendor":{"a":2,"b":1}}"#,
        ])
    );
    let refused = ResponsesRequest {
        text: Some(TextControls {
            verbosity: None,
            format: Some(TextFormat::plain("yaml")),
        }),
        ..responses_request()
    };
    assert_eq!(refused.to_text(), None);
}

fn concat_lines(lines: &[&str]) -> String {
    lines.concat()
}

#[test]
fn messages_request_is_read() {
    let asked = AnthropicRequest::from_json(&json(
        r#"{"model":"m","max_tokens":10,"system":[{"type":"text","text":"s"}],"top_k":5,"temperature":1,
            "messages":[{"role":"user","content":"hi"},
                {"role":"assistant","content":[{"type":"thinking","thinking":"t"},
                    {"type":"tool_use","id":"i","name":"n","input":{"a":1}}]},
                {"role":"user","content":[{"type":"tool_result","tool_use_id":"i","is_error":true,
                    "content":[{"type":"text","text":"x"},{"type":"image","source":{"type":"url","url":"u"}}]},
                    {"type":"tool_result","tool_use_id":"j","content":null},["text","by place"]]},
                ["user",null]],
            "tools":[{"name":"f"}],"tool_choice":{"type":"none"},"thinking":{"type":"enabled","budget_tokens":7},
            "stop_sequences":["s"],"metadata":{"user_id":"u"}}"#,
    ))
    .expect("request");
    assert_eq!(asked.max_tokens, Some(10));
    assert_eq!(asked.top_k, Some(5));
    assert_eq!(asked.temperature, Some(JsonNumber::Decimal("1.0".to_string())));
    assert!(matches!(asked.system, Some(AnthropicSystemContent::Blocks(ref blocks)) if blocks.len() == 1));
    assert_eq!(asked.messages.len(), 4);
    assert!(matches!(asked.messages[3].content, AnthropicContent::Text(ref t) if t.is_empty()));
    let AnthropicContent::Blocks(blocks) = &asked.messages[2].content else {
        panic!("blocks");
    };
    let AnthropicContentBlock::ToolResult { content, is_error, .. } = &blocks[0] else {
        panic!("result");
    };
    assert_eq!(*is_error, Some(true));
    assert!(matches!(content, Some(AnthropicContent::Blocks(inner)) if inner.len() == 2));
    assert!(matches!(blocks[1], AnthropicContentBlock::ToolResult { content: None, .. }));
    assert!(matches!(blocks[2], AnthropicContentBlock::Text { ref text } if text == "by place"));
    assert!(matches!(asked.tool_choice, Some(AnthropicToolChoice::NoTool)));
    assert!(matches!(
        asked.thinking,
        Some(AnthropicThinking::Enabled { budget_tokens: Some(7) })
    ));
    assert!(!asked.stream);
    for refused in [
        r#"{"messages":[]}"#,
        r#"{"model":"m"}"#,
        r#"{"model":"m","messages":[{"role":"user","content":7}]}"#,
        r#"{"model":"m","messages":[{"role":"user","content":[{"type":"video"}]}]}"#,
        r#"{"model":"m","messages":[],"top_k":4294967296}"#,
        r#"{"model":"m","messages":[],"tool_choice":{"type":"tool"}}"#,
    ] {
        assert!(AnthropicRequest::from_json(&json(refused)).is_none(), "{refused}");
    }
}

#[test]
fn message_response_as_text() {
    let response = AnthropicMessageResponse {
        id: "msg_1".to_string(),
        kind: "message".to_string(),
        role: "assistant".to_string(),
        content: vec![
            AnthropicResponseContentBlock::Thinking {
                thinking: "t".to_string(),
            },
            AnthropicResponseContentBlock::ToolUse {
                id: "i".to_string(),
                name: "n".to_string(),
                input: json(r#"{"b":1,"a":2}"#),
            },
        ],
        model: "m".to_string(),
        stop_reason: "tool_use".to_string(),
        stop_sequence: None,
        usage: AnthropicMessageUsage {
            input_tokens: 3,
            output_tokens: 4,
        },
    };
    assert_eq!(
        response.to_text().expect("text"),
        r#"{"id":"msg_1","type":"message","role":"assistant","content":[{"type":"thinking","thinking":"t"},{"type":"tool_use","id":"i","name":"n","input":{"a":2,"b":1}}],"model":"m","stop_reason":"tool_use","stop_sequence":null,"usage":{"input_tokens":3,"output_tokens":4}}"#
    );
}

#[test]
fn completion_is_read() {
    let completion = ChatCompletionResponse::from_json(&json(
        r#"{"id":"x","choices":[{"index":0,"message":{"role":"assistant","content":"hi","tool_calls":[{"id":"c","function":{"name":"f"}}]},"finish_reason":"stop"}]}"#,
    ))
    .expect("completion");
    let choice = &completion.choices[0];
    assert_eq!(choice.message.content.as_deref(), Some("hi"));
    assert_eq!(choice.message.reasoning_content, None);
    assert_eq!(choice.message.tool_calls.as_ref().expect("calls")[0].kind, "function");
    assert_eq!(choice.finish_reason.as_deref(), Some("stop"));
    assert!(ChatCompletionResponse::from_json(&json(r#"{"choices":[{"index":0}]}"#)).is_none());
    assert!(ChatCompletionResponse::from_json(&json("{}")).is_none());
}

#[test]
fn chat_request_text_is_in_order() {
    let chat = ChatCompletionRequest::from_json(&json(
        r#"{"zeta":1,"max_tokens":5,"messages":[{"role":"assistant","content":null,"thinking":{"content":"t"},
            "tool_calls":[{"id":"c","index":0,"function":{"name":"f","arguments":"{}"}}]}],
            "model":"m","stream":true,"tools":[{"type":"function","function":{"name":"f","parameters":{}}}],
            "stream_options":{"include_usage":true},"temperature":1,"alpha":{"b":1,"a":2}}"#,
    ))
    .expect("request");
    assert_eq!(
        chat.to_text().expect("text"),
        concat_lines(&[
            r#"{"model":"m","messages":[{"role":"assistant","thinking":{"content":"t"},"#,
            r#""tool_calls":[{"id":"c","index":0,"type":"function","function":{"name":"f","arguments":"{}"}}]}],"#,
            r#""stream":true,"tools":[{"type":"function","function":{"name":"f","description":"","parameters":{},"strict":false}}],"#,
            r#""parallel_tool_calls":false,"stream_options":{"include_usage":true},"temperature":1.0,"max_tokens":5,"#,
            r#""alpha":{"a":2,"b":1},"zeta":1}"#,
        ])
    );
}

#[test]
fn parts_may_number_their_type() {
    let item = |text: &str| ResponseItem::from_json(&json(text));
    match item(r#"{"type":"reasoning","summary":[{"type":0,"text":"s"}],"content":[{"type":1,"text":"c"}]}"#) {
        Some(ResponseItem::Reasoning {
            summary, content, ..
        }) => {
            assert_eq!(
                summary,
                vec![ReasoningSummaryItem::SummaryText { text: "s".into() }]
            );
            assert_eq!(
                content,
                Some(vec![ReasoningContentItem::Text { text: "c".into() }])
            );
        }
        other => panic!("expected reasoning, got {other:?}"),
    }
    match item(r#"{"type":"web_search_call","action":{"type":2,"pattern":"p"}}"#) {
        Some(ResponseItem::WebSearchCall { action, .. }) => assert_eq!(
            action,
            Some(WebSearchAction::FindInPage {
                url: None,
                pattern: Some("p".into())
            })
        ),
        other => panic!("expected a web search, got {other:?}"),
    }
    match item(r#"{"type":"local_shell_call","status":"s","action":{"type":0,"command":["ls"]}}"#) {
        Some(ResponseItem::LocalShellCall { action, .. }) => {
            let LocalShellAction::Exec(exec) = action;
            assert_eq!(exec.command, ["ls"]);
        }
        other => panic!("expected a shell call, got {other:?}"),
    }
    match ToolSpec::from_json(&json(
        r#"{"type":"custom","name":"c","format":{"type":1,"syntax":"lark","definition":"d"}}"#,
    )) {
        Some(ToolSpec::Custom { format, .. }) => assert_eq!(
            format,
            CustomToolFormat::Grammar {
                syntax: "lark".into(),
                definition: "d".into()
            }
        ),
        other => panic!("expected a custom tool, got {other:?}"),
    }
    assert!(ToolSpec::from_json(&json(
        r#"{"type":"namespace","name":"n","description":"d","tools":[{"type":0,"name":"g","parameters":{}}]}"#
    ))
    .is_some());
}

#[test]
fn only_parts_may_number_their_type() {
    let summary = json(r#"{"type":0,"text":"s"}"#);
    assert_eq!(ReasoningSummaryItem::from_json(&summary), None);
    assert_eq!(
        ReasoningSummaryItem::from_part(&summary),
        Some(ReasoningSummaryItem::SummaryText { text: "s".into() })
    );
    assert_eq!(
        ReasoningSummaryItem::from_part(&json(r#"{"type":1,"text":"s"}"#)),
        None
    );
    assert_eq!(
        ReasoningSummaryItem::from_part(&json(r#"{"type":-1,"text":"s"}"#)),
        None
    );
    assert_eq!(ResponseItem::from_json(&json(r#"{"type":0,"id":"i"}"#)), None);
    assert_eq!(ToolSpec::from_json(&json(r#"{"type":0,"name":"f"}"#)), None);
}
