use llmconduit::http::inbound::inbound_record;
use llmconduit::http::inbound::InboundHeaders;
use llmconduit::error::AppError;
use llmconduit::http::api_log::compact_for_log;
use llmconduit::http::api_log::header_for_log;
use llmconduit::http::body_log::body_log_fields;
use llmconduit::http::body_log::logs_payload;
use llmconduit::http::body_log::payload_for_log;
use llmconduit::http::body_log::summarize_api_body;
use llmconduit::http::models_list::anthropic_model_entry;
use llmconduit::http::models_list::parse_anthropic_models_limit;
use llmconduit::http::models_list::transform_models_response_for_anthropic;
use llmconduit::http::models_list::ModelsListQuery;
use llmconduit::http::routes::anthropic_error_response;
use llmconduit::http::routes::begin_kill;
use llmconduit::http::routes::flow_kill_outcome;
use llmconduit::http::routes::is_flow_capture_request;
use llmconduit::http::routes::kill_response;
use llmconduit::http::routes::FlowKillOutcome;
use llmconduit::http::routes::KillStep;
use llmconduit::http::routes::MutationDenied;
use llmconduit::http::routes::ResponsesCollector;
use llmconduit::http::routes::RouterOptions;
use llmconduit::http::tally::summarized_list;
use llmconduit::json::Json;
use llmconduit::raw::SseEvent;
use sha2::Digest;

fn json(text: &str) -> Json {
    Json::parse(text).expect("json")
}

fn render(value: &Json) -> String {
    value.render().expect("text")
}

#[test]
fn auth_path_body_emits_no_body_derived_log_fields() {
    let token = "s3cret-login-token";
    let body = format!(r#"{{"token":"{token}"}}"#);
    let body = body.as_bytes();
    let token_sha = hex::encode(sha2::Sha256::digest(token.as_bytes()));
    let body_sha = hex::encode(sha2::Sha256::digest(body));

    assert!(
        body_log_fields("/dashboard/login", body).is_none(),
        "login body must produce no body-derived log fields (token oracle)"
    );
    assert!(body_log_fields("/dashboard/logout", b"").is_none());

    let normal =
        body_log_fields("/v1/messages", body).expect("non-auth path logs body-derived fields");
    assert_eq!(normal.bytes, body.len());
    assert_eq!(normal.sha256, body_sha);
    assert_ne!(normal.sha256, token_sha);
    assert!(!logs_payload("/dashboard/login", 10));
    assert!(logs_payload("/v1/messages", 16 * 1024));
    assert!(!logs_payload("/v1/messages", 16 * 1024 + 1));
}

#[test]
fn messages_body_is_summarized() {
    let body = br#"{"model":"m","stream":true,"system":[{"type":"text","text":"ab"}],
        "messages":[{"role":"user","content":"hey"},
          {"role":"assistant","content":[{"type":"thinking","thinking":"xy"},{"type":"tool_use","id":"1"}]},
          {"role":"user","content":[{"type":"tool_result","content":[{"type":"text","text":"four"}]}]}],
        "tools":[{"name":"calc"},{"function":{"name":"echo"}}],"metadata":{"user_id":"u"},"stop_sequences":["a"]}"#;
    assert_eq!(
        summarize_api_body("/v1/messages", body),
        "keys=[messages,metadata,model,stop_sequences,stream,system,tools] model=m stream=true \
         system_blocks=1 system_chars=2 system_block_types=[text:1] messages=3 \
         message_roles=[user,assistant,user] message_text_chars=9 \
         message_content=[string:1,text:1,thinking:1,tool_result:1,tool_use:1] \
         tools=2 tools_names=[calc,echo] metadata_keys=[user_id] stop_sequences=1"
    );
}

#[test]
fn responses_body_is_summarized() {
    let body = br#"{"model":"m","instructions":"abc","input":[{"role":"user","content":"hi"},
        {"type":"reasoning"},{"x":1}],"include":["a","b"],"reasoning":{"effort":"low"},"max_output_tokens":-1}"#;
    assert_eq!(
        summarize_api_body("/v1/responses", body),
        "keys=[include,input,instructions,max_output_tokens,model,reasoning] model=m \
         max_output_tokens=-1 reasoning=object instructions_chars=3 input_items=3 \
         input_roles=[user] input_text_chars=2 \
         input_item_types=[message:1,reasoning:1,unknown:1] include=2"
    );
    assert_eq!(
        summarize_api_body("/v1/responses", br#"{"input":"four"}"#),
        "keys=[input] input=string input_chars=4"
    );
}

#[test]
fn chat_and_other_bodies_are_summarized() {
    let body = br#"{"messages":[{"content":[{"type":"text","text":"abc"}],"tool_calls":[1,2]},{"role":"tool","content":null}],
        "response_format":{"type":"json_object"},"temperature":0.5}"#;
    assert_eq!(
        summarize_api_body("/v1/chat/completions", body),
        "keys=[messages,response_format,temperature] temperature=0.5 messages=2 \
         message_roles=[unknown,tool] message_text_chars=3 message_tool_calls=2 \
         message_content=[null:1,text:1] response_format=json_object"
    );
    assert_eq!(
        summarize_api_body("/v1/embeddings", br#"{"input":[1,2]}"#),
        "keys=[input] input_items=2"
    );
    assert_eq!(summarize_api_body("/x", b"[1]"), "json_type=array");
    assert_eq!(summarize_api_body("/x", b""), "empty");
}

#[test]
fn bad_body_is_previewed_without_images() {
    let shown = summarize_api_body("/x", b"oops data:image/png;base64,LEAK end");
    assert!(shown.starts_with("non_json parse_error=expected value"), "{shown}");
    assert!(shown.ends_with(" preview=oops <redacted uri> end"), "{shown}");
}

#[test]
fn payload_is_logged_without_secrets_and_images() {
    assert_eq!(
        payload_for_log(
            br#"{"a":[{"api_key":"sk","u":"see https://x/y"}],"authorization":{"b":1}}"#
        ),
        r#"{"a":[{"api_key":"[redacted]","u":"see <redacted uri>"}],"authorization":"[redacted]"}"#
    );
    assert_eq!(payload_for_log(b"raw https://x/y z"), "raw <redacted uri> z");
}

#[test]
fn log_texts_are_short_and_on_one_line() {
    assert_eq!(compact_for_log("a\nb\u{7f}c\u{85}d"), "a b c d");
    assert_eq!(
        compact_for_log(&"x".repeat(161)),
        format!("{}...", "x".repeat(160))
    );
    assert_eq!(header_for_log(None), "");
    assert_eq!(header_for_log(Some("a\tb")), "a b");
    let values: Vec<String> = (0..5).map(|n| n.to_string()).collect();
    assert_eq!(summarized_list(values.clone(), 3), "[0,1,2,+2]");
    assert_eq!(summarized_list(values, 5), "[0,1,2,3,4]");
}

fn query(after: Option<&str>, before: Option<&str>, limit: Option<&str>) -> ModelsListQuery {
    ModelsListQuery {
        after_id: after.map(str::to_string),
        before_id: before.map(str::to_string),
        limit: limit.map(str::to_string),
    }
}

fn ids(page: &Json) -> Vec<String> {
    page.field("data")
        .and_then(Json::as_array)
        .expect("data")
        .iter()
        .map(|entry| entry.text_field("id").expect("id").to_string())
        .collect()
}

#[test]
fn models_are_paged() {
    let body = json(r#"{"data":["a",{"id":"b"},{"name":"no id"},{"id":"c"},7,{"id":"d"}]}"#);
    let page = transform_models_response_for_anthropic(&body, &query(None, None, Some("2")))
        .expect("page");
    assert_eq!(ids(&page), vec!["a", "b"]);
    assert_eq!(page.field("has_more"), Some(&Json::Bool(true)));
    assert_eq!(page.text_field("first_id"), Some("a"));
    assert_eq!(page.text_field("last_id"), Some("b"));
    let page = transform_models_response_for_anthropic(&body, &query(Some("b"), None, Some("2")))
        .expect("page");
    assert_eq!(ids(&page), vec!["c", "d"]);
    assert_eq!(page.field("has_more"), Some(&Json::Bool(false)));
    let page = transform_models_response_for_anthropic(&body, &query(None, Some("c"), Some("1")))
        .expect("page");
    assert_eq!(ids(&page), vec!["b"]);
    assert_eq!(page.field("has_more"), Some(&Json::Bool(true)));
    let page = transform_models_response_for_anthropic(&body, &query(Some("d"), None, None))
        .expect("page");
    assert!(ids(&page).is_empty());
    assert_eq!(page.field("first_id"), Some(&Json::Null));
}

#[test]
fn bad_page_queries_are_refused() {
    let body = json(r#"["a"]"#);
    for (query, message) in [
        (
            query(Some("a"), Some("a"), None),
            "after_id and before_id cannot both be specified",
        ),
        (query(Some("z"), None, None), "model cursor not found: z"),
        (query(None, Some("z"), None), "model cursor not found: z"),
        (
            query(None, None, Some("x")),
            "limit must be an integer from 1 to 1000",
        ),
        (
            query(None, None, Some("")),
            "limit must be an integer from 1 to 1000",
        ),
        (query(None, None, Some("0")), "limit must be between 1 and 1000"),
        (
            query(None, None, Some("1001")),
            "limit must be between 1 and 1000",
        ),
    ] {
        let error = transform_models_response_for_anthropic(&body, &query).expect_err("refused");
        assert_eq!(error.describe(), message);
        assert_eq!(error.status, 400);
    }
    assert_eq!(parse_anthropic_models_limit(Some("+7")).expect("limit"), 7);
    assert_eq!(parse_anthropic_models_limit(Some("007")).expect("limit"), 7);
    assert!(parse_anthropic_models_limit(Some("+")).is_err());
    assert!(parse_anthropic_models_limit(Some("99999999999999999999999")).is_err());
    assert_eq!(parse_anthropic_models_limit(None).expect("limit"), 20);
}

#[test]
fn model_entries_have_one_shape() {
    let entry = anthropic_model_entry(&json(
        r#"{"id":"m","created":1431648000,"context_window":8,"max_tokens":"x","capabilities":{"a":1}}"#,
    ))
    .expect("entry");
    assert_eq!(
        render(&entry),
        r#"{"capabilities":{"a":1},"created_at":"2015-05-15T00:00:00Z","display_name":"m","id":"m","max_input_tokens":8,"max_tokens":0,"type":"model"}"#
    );
    let text = anthropic_model_entry(&json(r#""m""#)).expect("entry");
    assert_eq!(text.text_field("created_at"), Some("1970-01-01T00:00:00Z"));
    assert!(render(&text).contains(r#""thinking":{"supported":false,"types":{"adaptive":{"supported":false},"enabled":{"supported":false}}}"#));
    let float = anthropic_model_entry(&json(r#"{"id":"m","created":1431648000.9}"#)).expect("entry");
    assert_eq!(float.text_field("created_at"), Some("2015-05-15T00:00:00Z"));
    let negative = anthropic_model_entry(&json(r#"{"id":"m","created":-5}"#)).expect("entry");
    assert_eq!(negative.text_field("created_at"), Some("1970-01-01T00:00:00Z"));
    let iso = anthropic_model_entry(&json(r#"{"id":"m","created_at":"then","display_name":"M"}"#))
        .expect("entry");
    assert_eq!(iso.text_field("created_at"), Some("then"));
    assert_eq!(iso.text_field("display_name"), Some("M"));
    let far = anthropic_model_entry(&json(r#"{"id":"m","created":9223372036854775807}"#))
        .expect("entry");
    assert_eq!(far.text_field("created_at"), Some("1970-01-01T00:00:00Z"));
}

#[test]
fn kills_are_answered() {
    let denied = MutationDenied {
        status: 403,
        message: "mutations are disabled".to_string(),
    };
    match begin_kill(Some(denied)) {
        KillStep::Done(outcome) => {
            let (status, body) = kill_response(&outcome, "api_1");
            assert_eq!(status, 403);
            assert_eq!(render(&body), r#"{"error":"mutations are disabled"}"#);
        }
        KillStep::Abort => panic!("a denied kill must not abort"),
    }
    assert_eq!(begin_kill(None), KillStep::Abort);
    assert_eq!(flow_kill_outcome(true), FlowKillOutcome::Killed);
    let (status, body) = kill_response(&flow_kill_outcome(true), "api_1");
    assert_eq!((status, render(&body).as_str()), (200, r#"{"api_call_id":"api_1","killed":true}"#));
    let (status, body) = kill_response(&flow_kill_outcome(false), "api_1");
    assert_eq!((status, render(&body).as_str()), (404, r#"{"error":"no live flow for that id"}"#));
}

#[test]
fn only_posted_inference_is_followed() {
    assert!(is_flow_capture_request("POST", "/v1/messages"));
    assert!(is_flow_capture_request("POST", "/v1/responses"));
    assert!(is_flow_capture_request("POST", "/v1/chat/completions"));
    assert!(!is_flow_capture_request("HEAD", "/v1/messages"));
    assert!(!is_flow_capture_request("POST", "/v1/completions"));
    let options = RouterOptions {
        with_debug_ui: true,
        register_protected_routes: true,
    };
    assert!(options.registers_protected_routes(true));
    assert!(!options.registers_protected_routes(false));
    assert!(!RouterOptions::default().registers_protected_routes(true));
}

#[test]
fn errors_of_the_messages_surface() {
    let (status, body) = anthropic_error_response(&AppError::conflict("busy"));
    assert_eq!(status, 409);
    assert_eq!(
        render(&body),
        r#"{"error":{"message":"busy","type":"invalid_request_error"},"type":"error"}"#
    );
    let (status, body) = anthropic_error_response(&AppError::upstream("boom"));
    assert_eq!(status, 502);
    assert_eq!(
        render(&body),
        r#"{"error":{"message":"boom","type":"api_error"},"type":"error"}"#
    );
}

fn event(name: &str, data: &str) -> SseEvent {
    SseEvent {
        event: name.to_string(),
        data: json(data),
    }
}

#[test]
fn last_terminal_event_is_the_response() {
    let mut collector = ResponsesCollector::new();
    collector
        .process(&event("response.created", r#"{"response":{"id":"early"}}"#))
        .expect("ok");
    collector
        .process(&event("response.incomplete", r#"{"response":{"id":"r"}}"#))
        .expect("ok");
    let response = collector.into_response().expect("response");
    assert_eq!(response.text_field("id"), Some("r"));
    let error = ResponsesCollector::new().into_response().expect_err("no response");
    assert_eq!(
        error.describe(),
        "stream ended before a final response resource was emitted"
    );
}

#[test]
fn failed_event_is_the_error() {
    let mut collector = ResponsesCollector::new();
    let error = collector
        .process(&event(
            "response.failed",
            r#"{"response":{"error":{"message":"quota"}}}"#,
        ))
        .expect_err("failed");
    assert_eq!(error.describe(), "quota");
    assert_eq!(error.status, 502);
    let error = collector
        .process(&event("response.failed", "{}"))
        .expect_err("failed");
    assert_eq!(error.describe(), "upstream request failed");
}

#[test]
fn inbound_requests_are_recorded() {
    let headers = InboundHeaders {
        content_type: Some("application/json\n".to_string()),
        user_agent: None,
        anthropic_version: None,
        anthropic_beta: None,
        openai_beta: None,
        request_id: Some("r-1".to_string()),
        authorization_present: true,
        x_api_key_present: false,
    };
    let record = inbound_record("POST", "/v1/responses", &headers, b"{}", true);
    assert_eq!(record.content_type, "application/json ");
    assert_eq!(record.user_agent, "");
    assert_eq!(record.request_id, "r-1");
    assert!(record.authorization_present && !record.x_api_key_present && record.follows_flow);
    assert_eq!(record.body.as_ref().map(|body| body.bytes), Some(2));
    assert_eq!(record.payload.as_deref(), Some("{}"));
    let login = inbound_record("POST", "/dashboard/login", &headers, b"{}", true);
    assert!(login.body.is_none() && login.payload.is_none() && !login.follows_flow);
    assert!(!inbound_record("POST", "/v1/responses", &headers, b"{}", false).follows_flow);
}
