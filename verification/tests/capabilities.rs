use llmconduit::json::Json;
use llmconduit::models::responses::ResponsesRequest;
use llmconduit::responses_capabilities::prepare_capability_fields;
use llmconduit::responses_capabilities::request_has_input_images;
use llmconduit::responses_capabilities::unsupported_parameter;
use llmconduit::responses_capabilities::validate_and_prepare;
use llmconduit::responses_capabilities::AgentMessageEncryptedContentCapability;
use llmconduit::responses_capabilities::CapabilityAllowlist;
use llmconduit::responses_capabilities::CapabilityCandidate;
use llmconduit::responses_capabilities::CapabilityPlan;
use llmconduit::responses_capabilities::CapabilityTarget;
use llmconduit::responses_capabilities::InputFileCapability;
use llmconduit::responses_capabilities::PromptCacheKeyCapability;
use llmconduit::responses_capabilities::ResponsesCapabilities;
use llmconduit::responses_capabilities::ResponsesCapabilitiesConfig;
use llmconduit::responses_capabilities::PROMPT_CACHE_AFFINITY_EXTENSION;

fn request(text: &str) -> ResponsesRequest {
    ResponsesRequest::from_json(&Json::parse(text).expect("json")).expect("request")
}

#[test]
fn capability_config_overlays_by_field() {
    let base = ResponsesCapabilitiesConfig {
        parallel_tool_calls: Some(true),
        service_tiers: Some(vec!["default".to_string()]),
        ..Default::default()
    };
    let child = ResponsesCapabilitiesConfig {
        parallel_tool_calls: Some(false),
        prompt_cache_key: Some(PromptCacheKeyCapability::GatewayHash),
        agent_message_encrypted_content: Some(
            AgentMessageEncryptedContentCapability::PlaintextCompat,
        ),
        ..Default::default()
    };
    let resolved = base.overlaid(&child).resolve();
    assert!(!resolved.parallel_tool_calls);
    assert_eq!(resolved.service_tiers, ["default"]);
    assert_eq!(
        resolved.prompt_cache_key,
        PromptCacheKeyCapability::GatewayHash
    );
    assert_eq!(
        resolved.agent_message_encrypted_content,
        AgentMessageEncryptedContentCapability::PlaintextCompat
    );
}

#[test]
fn exact_unsupported_paths_are_reported() {
    let input_request = request(
        r#"{
            "model": "m",
            "input": [{"role":"user","content":[{"type":"input_file","file_id":"f"}]}]
        }"#,
    );
    assert_eq!(
        unsupported_parameter(&input_request, &ResponsesCapabilities::default()).as_deref(),
        Some("input[0].content[0]")
    );

    let instructions = request(
        r#"{
            "model": "m",
            "instructions": [{
                "role":"developer",
                "content":[{"type":"input_file","file_id":"f"}]
            }],
            "input": "hello"
        }"#,
    );
    assert_eq!(
        unsupported_parameter(&instructions, &ResponsesCapabilities::default()).as_deref(),
        Some("instructions[0].content[0]")
    );
}

#[test]
fn primary_rejects_but_incapable_fallback_is_only_pruned() {
    let mut request = request(
        r#"{
            "model": "m",
            "input": "hello",
            "parallel_tool_calls": true
        }"#,
    );
    let capable = ResponsesCapabilitiesConfig {
        parallel_tool_calls: Some(true),
        ..Default::default()
    }
    .resolve();
    let plan = CapabilityPlan {
        candidates: vec![
            CapabilityCandidate {
                target: CapabilityTarget {
                    provider: "primary".into(),
                    model: "m".into(),
                },
                capabilities: capable,
            },
            CapabilityCandidate {
                target: CapabilityTarget {
                    provider: "fallback".into(),
                    model: "m".into(),
                },
                capabilities: ResponsesCapabilities::default(),
            },
        ],
    };
    let allowlist = validate_and_prepare(&mut request, &plan).unwrap();
    assert!(allowlist.permits("primary", "m"));
    assert!(allowlist.input_image_policy().is_some());
    assert_eq!(CapabilityAllowlist::unrestricted().input_image_policy(), None);
    assert!(!allowlist.permits("fallback", "m"));
}

#[test]
fn incapable_primary_is_refused() {
    let mut request = request(
        r#"{
            "model": "m",
            "input": "hello",
            "parallel_tool_calls": true
        }"#,
    );
    let plan = CapabilityPlan {
        candidates: vec![CapabilityCandidate {
            target: CapabilityTarget {
                provider: "primary".into(),
                model: "m".into(),
            },
            capabilities: ResponsesCapabilities::default(),
        }],
    };
    let error = validate_and_prepare(&mut request, &plan).expect_err("refused");
    assert_eq!(error.status, 400);
    assert_eq!(error.param.as_deref(), Some("parallel_tool_calls"));
}

#[test]
fn cache_key_affinity_is_hashed_without_replacing_public_value() {
    let mut request = request(
        r#"{
            "model": "m", "input": "hello", "prompt_cache_key": "opaque-secret"
        }"#,
    );
    let caps = ResponsesCapabilitiesConfig {
        prompt_cache_key: Some(PromptCacheKeyCapability::GatewayHash),
        ..Default::default()
    }
    .resolve();
    prepare_capability_fields(&mut request, &caps);
    assert_eq!(request.prompt_cache_key.as_deref(), Some("opaque-secret"));
    let hashed = request
        .extra_body
        .get(PROMPT_CACHE_AFFINITY_EXTENSION)
        .and_then(Json::as_str)
        .expect("hashed affinity");
    assert_eq!(hashed.len(), 64);
    assert!(!hashed.contains("opaque-secret"));
    assert!(!request.extra_body.contains_key("prompt_cache_key"));
}

#[test]
fn web_search_controls_are_rejected_with_exact_paths() {
    for (field, value) in [
        ("external_web_access", "false"),
        ("filters", r#"{"allowed_domains": ["example.com"]}"#),
        ("user_location", r#"{"country": "US"}"#),
        ("search_context_size", "\"low\""),
        ("search_content_types", r#"["text"]"#),
    ] {
        let request = request(&format!(
            r#"{{
                "model": "m",
                "input": "hello",
                "tools": [{{"type": "web_search", "{field}": {value}}}]
            }}"#
        ));
        let expected = format!("tools[0].{field}");
        assert_eq!(
            unsupported_parameter(&request, &ResponsesCapabilities::default()).as_deref(),
            Some(expected.as_str()),
        );
    }

    let bare = request(
        r#"{
            "model": "m",
            "input": "hello",
            "tools": [{"type": "web_search"}]
        }"#,
    );
    assert_eq!(
        unsupported_parameter(&bare, &ResponsesCapabilities::default()),
        None,
    );
}

#[test]
fn images_are_seen() {
    assert!(request_has_input_images(&request(
        r#"{"input":[{"role":"user","content":[{"type":"input_image","image_url":"data:image/png;base64,AA"}]}]}"#
    )));
    assert!(!request_has_input_images(&request(
        r#"{"input":"hello"}"#
    )));
}

#[test]
fn unrestricted_list_permits_all() {
    let list = CapabilityAllowlist::unrestricted();
    assert!(list.permits("any", "model"));
    let list = CapabilityAllowlist::from_targets(vec![CapabilityTarget {
        provider: "p".into(),
        model: "m".into(),
    }]);
    assert!(list.permits("p", "m") && list.permits_model("m"));
    assert!(!list.permits("p", "n") && !list.permits_model("n"));
}

#[test]
fn more_capabilities_refuse_no_more() {
    let asked = request(
        r#"{"input":[{"role":"user","content":[{"type":"input_file","file_id":"f"}]}],"parallel_tool_calls":true}"#,
    );
    let some = ResponsesCapabilities {
        parallel_tool_calls: true,
        input_file: InputFileCapability::Native,
        ..Default::default()
    };
    let more = ResponsesCapabilities {
        parallel_tool_calls: true,
        input_file: InputFileCapability::Native,
        service_tiers: vec!["default".to_string()],
        prompt_cache_key: PromptCacheKeyCapability::Upstream,
        ..Default::default()
    };
    assert_eq!(unsupported_parameter(&asked, &some), None);
    assert_eq!(unsupported_parameter(&asked, &more), None);
    assert_eq!(
        unsupported_parameter(&asked, &ResponsesCapabilities::default()),
        Some("parallel_tool_calls".to_string())
    );
}
