use llmconduit::redaction::capture::is_json_scalar;
use axum::http::HeaderMap;
use axum::http::HeaderName;
use axum::http::HeaderValue;
use llmconduit::json::Json;
use llmconduit::redaction::bound_chars;
use llmconduit::redaction::cap_str_on_char_boundary;
use llmconduit::redaction::capture::capture_capped_redacted;
use llmconduit::redaction::capture::lossy_text_of;
use llmconduit::redaction::is_sensitive_payload_key;
use llmconduit::redaction::redact_headers_capped;
use llmconduit::redaction::redact_image_uris;
use llmconduit::redaction::redact_image_uris_in_value;
use llmconduit::redaction::redact_sensitive_literals;
use llmconduit::redaction::redact_vision_text;
use llmconduit::redaction::replace_all;
use llmconduit::redaction::VISION_TEXT_REDACT_LIMIT;

#[test]
fn is_sensitive_payload_key_covers_aliases_and_openai_beta() {
    for key in [
        "api_key",
        "API-KEY",
        "x-api-key",
        "Authorization",
        "openai-beta",
        "openai_beta",
        "client_secret",
        "refresh_token",
    ] {
        assert!(is_sensitive_payload_key(key), "{key} must be sensitive");
    }
    for key in ["model", "content", "messages", "x-request-id"] {
        assert!(
            !is_sensitive_payload_key(key),
            "{key} must NOT be sensitive"
        );
    }
}

#[test]
fn capture_redacts_sensitive_keys_and_escaped_uris() {
    let esc_data: String = "data"
        .chars()
        .map(|c| format!("\\u{:04x}", c as u32))
        .collect();
    let body = format!(
        r#"{{"model":"m","api_key":"sk-LEAK","img":"{esc_data}:image/png;base64,ESCLEAK x"}}"#
    );
    let out = capture_capped_redacted(body.as_bytes(), 128 * 1024, 4 * 1024);
    let text = String::from_utf8_lossy(&out);
    assert!(!text.contains("sk-LEAK"), "api_key redacted");
    assert!(!text.contains("ESCLEAK"), "escaped data: uri redacted");
    assert!(text.contains("[redacted]"));
    assert!(text.contains("<redacted uri>"));
    let _: serde_json::Value = serde_json::from_slice(&out).expect("valid json out");
}

#[test]
fn capture_respects_configurable_caps() {
    let body = format!("{{\"s\":\"{}\"}}", "z".repeat(10_000));
    let out = capture_capped_redacted(body.as_bytes(), 256, 64);
    assert!(out.len() <= 256, "body_cap honored: {} > 256", out.len());
}

#[test]
fn capture_fallback_redacts_non_json_without_value() {
    let raw = b"not json data:image/png;base64,RAWLEAK trailing";
    let out = capture_capped_redacted(raw, 128 * 1024, 4 * 1024);
    let text = String::from_utf8_lossy(&out);
    assert!(!text.contains("RAWLEAK"), "non-json image uri redacted");
    assert!(text.contains("<redacted uri>"));
}

#[test]
fn redact_headers_capped_redacts_sensitive_and_uri_values() {
    let mut headers = HeaderMap::new();
    headers.insert(
        HeaderName::from_static("authorization"),
        HeaderValue::from_static("Bearer HDRLEAK"),
    );
    headers.insert(
        HeaderName::from_static("openai-beta"),
        HeaderValue::from_static("tok=BETALEAK"),
    );
    headers.insert(
        HeaderName::from_static("x-cb"),
        HeaderValue::from_static("https://x/y?sig=URLLEAK"),
    );
    let plain: Vec<(String, Option<String>)> = headers
        .iter()
        .map(|(name, value)| {
            (
                name.as_str().to_string(),
                value.to_str().ok().map(str::to_string),
            )
        })
        .collect();
    let out = redact_headers_capped(&plain, 4 * 1024);
    let dumped = format!("{out:?}");
    assert!(!dumped.contains("HDRLEAK"));
    assert!(!dumped.contains("BETALEAK"), "openai-beta value redacted");
    assert!(
        !dumped.contains("URLLEAK"),
        "uri-bearing header value redacted"
    );
}

#[test]
fn redact_vision_text_strips_data_uris_and_caps_length() {
    let body = "error before data:image/png;base64,AAAABBBBCCCC after";
    let redacted = redact_vision_text(body);
    assert!(
        !redacted.contains("AAAABBBBCCCC"),
        "base64 payload stripped"
    );
    assert!(!redacted.contains("data:image"), "data uri stripped");
    assert!(redacted.contains("<redacted uri>"));
    assert!(redacted.contains("error before"));
    assert!(redacted.contains("after"));

    let long = "x".repeat(VISION_TEXT_REDACT_LIMIT + 500);
    let capped = redact_vision_text(&long);
    assert!(capped.ends_with("…[truncated]"));
    assert!(
        capped.chars().count() <= VISION_TEXT_REDACT_LIMIT + "…[truncated]".chars().count()
    );
    let multibyte = "é".repeat(VISION_TEXT_REDACT_LIMIT + 10);
    let capped_mb = redact_vision_text(&multibyte);
    assert!(capped_mb.is_char_boundary(capped_mb.len()));

    let json_err = "{\"detail\":\"bad input data:image/jpeg;base64,ZZZZ\"}";
    let r = redact_vision_text(json_err);
    assert!(!r.contains("ZZZZ"));
}

#[test]
fn redact_vision_text_is_case_insensitive_and_strips_http_image_urls() {
    let upper = "oops DATA:IMAGE/PNG;BASE64,SECRETPAYLOAD trailing";
    let r = redact_vision_text(upper);
    assert!(!r.contains("SECRETPAYLOAD"), "uppercase data: stripped");
    assert!(r.contains("<redacted uri>"));
    assert!(r.contains("trailing"));

    let signed =
        "fetch failed for https://cdn.example.com/img.png?sig=ABCSECRET123&exp=999 oh no";
    let r = redact_vision_text(signed);
    assert!(!r.contains("ABCSECRET123"), "signed-url token stripped");
    assert!(!r.contains("cdn.example.com"), "image host stripped");
    assert!(r.contains("fetch failed for"));
    assert!(r.contains("oh no"));

    let mixed_case_http = "HTTPS://Host/Path?token=ZZZ done";
    let r = redact_vision_text(mixed_case_http);
    assert!(!r.contains("ZZZ"), "uppercase https stripped");
    assert!(r.contains("done"));
}

#[test]
fn redact_vision_text_strips_json_escaped_signed_urls() {
    let escaped =
        r#"{"error":"could not load https:\/\/cdn.example.com\/i.png?sig=ESCAPEDTOKEN&x=1"}"#;
    let r = redact_vision_text(escaped);
    assert!(
        !r.contains("ESCAPEDTOKEN"),
        "escaped signed-url token stripped"
    );
    assert!(
        !r.contains("cdn.example.com"),
        "escaped image host stripped"
    );
    assert!(r.contains("<redacted uri>"));
    assert!(r.contains("could not load"));

    let escaped_http = r#"HTTP:\/\/host\/p?tok=ABC end"#;
    let r = redact_vision_text(escaped_http);
    assert!(!r.contains("ABC"), "escaped http token stripped");
    assert!(r.contains("end"));

    let success = "Here is your image data:image/png;base64,REALPAYLOAD and analysis.";
    let r = redact_vision_text(success);
    assert!(!r.contains("REALPAYLOAD"));
    assert!(r.contains("and analysis."));
}

#[test]
fn redact_image_uris_in_value_strips_nested_image_fields() {
    let mut value = Json::parse(
        r#"{
            "model": "glm-5.1",
            "messages": [{
                "role": "user",
                "content": [
                    { "type": "text", "text": "keep this prose" },
                    { "type": "image_url", "image_url": { "url": "data:image/png;base64,NESTEDLEAK" } },
                    { "type": "image_url", "image_url": { "url": "https://cdn.x/i.png?sig=SIGLEAK" } }
                ]
            }],
            "note": "see https:\\/\\/cdn.x\\/e.png?tok=ESCLEAK now"
        }"#,
    )
    .expect("json");
    redact_image_uris_in_value(&mut value);
    let dumped = value.render().expect("serialize");
    assert!(
        !dumped.contains("NESTEDLEAK"),
        "nested data: payload stripped"
    );
    assert!(
        !dumped.contains("SIGLEAK"),
        "nested signed-url token stripped"
    );
    assert!(
        !dumped.contains("ESCLEAK"),
        "escaped signed-url token stripped"
    );
    assert!(!dumped.contains("cdn.x"), "image host stripped");
    assert!(
        dumped.contains("keep this prose"),
        "non-image text preserved"
    );
    assert!(dumped.contains("glm-5.1"), "model preserved");
    assert!(dumped.contains("<redacted uri>"));
}

#[test]
fn redact_image_uris_handles_multibyte_around_uris() {
    let text = "café ☕ before data:image/png;base64,PAYLÖAD/é+= after — déjà vu";
    let r = redact_image_uris(text);
    assert!(
        !r.contains("PAYL"),
        "base64 payload (with multibyte) stripped"
    );
    assert!(r.contains("<redacted uri>"));
    assert!(r.contains("café ☕ before "));
    assert!(r.contains(" after — déjà vu"));

    let text2 = "señor https://hôst.x/p?tok=ZZZé done ☕";
    let r2 = redact_image_uris(text2);
    assert!(!r2.contains("ZZZ"), "signed-url token stripped");
    assert!(r2.contains("señor "));
    assert!(r2.contains(" done ☕"));

    let plain = "完全に日本語のテキスト ☕ café";
    assert_eq!(redact_image_uris(plain), plain);
}

#[test]
fn uri_redaction_is_idempotent_on_a_sample() {
    let once = redact_image_uris("a data:image/png;base64,AAAA b https://x.y/z c");
    assert_eq!(once, "a <redacted uri> b <redacted uri> c");
    assert_eq!(redact_image_uris(&once), once);
}

#[test]
fn capture_is_exact_on_a_small_body() {
    let out = capture_capped_redacted(
        br#"{ "token_count": 3, "authorization": {"a": [1, 2]}, "ok": [true, null, "x"] }"#,
        1024,
        64,
    );
    assert_eq!(
        String::from_utf8(out).expect("utf8"),
        r#"{"token_count":3,"authorization":"[redacted]","ok":[true,null,"x"]}"#
    );
}

#[test]
fn lossy_text_replaces_what_is_no_utf8() {
    assert_eq!(lossy_text_of(b"ab\xffcd"), "ab\u{fffd}cd");
    assert_eq!(lossy_text_of("déjà".as_bytes()), "déjà");
}

#[test]
fn capture_of_bytes_that_are_no_utf8_is_still_redacted() {
    let out = capture_capped_redacted(b"\xff data:image/png;base64,LEAK", 1024, 64);
    let text = String::from_utf8(out).expect("utf8");
    assert!(text.starts_with("\u{fffd} "));
    assert!(!text.contains("LEAK"));
}

#[test]
fn cuts_fall_on_characters() {
    assert_eq!(cap_str_on_char_boundary("aé", 2), "a");
    assert_eq!(cap_str_on_char_boundary("aé", 3), "aé");
    assert_eq!(bound_chars("éé", 1), "é…[truncated]");
}

#[test]
fn literals_are_replaced_everywhere() {
    assert_eq!(replace_all("a-b-a", "a", "xx"), "xx-b-xx");
    assert_eq!(replace_all("abc", "", "xx"), "abc");
    assert_eq!(
        redact_sensitive_literals("k1 and k2", &vec!["k1".to_string(), "k2".to_string()]),
        "[redacted] and [redacted]"
    );
}

#[test]
fn bare_url_is_no_json_scalar() {
    let capture = |raw: &[u8]| {
        String::from_utf8(capture_capped_redacted(raw, 128 * 1024, 4 * 1024)).expect("text")
    };
    assert_eq!(capture(b"https://h/p?sig=LEAK"), "<redacted uri>");
    assert_eq!(capture(br#"{"a":https://x?sig=S}"#), r#"{"a":<redacted uri>}"#);
    assert_eq!(capture(b"[1,data:image/png;base64,LEAK]"), "[1,<redacted uri>]");
    assert_eq!(
        capture(br#"{"api_key":https://x?sig=S,"b":1}"#),
        r#"{"api_key":<redacted uri>,"b":1}"#
    );
}

#[test]
fn scalars_are_numbers_and_words() {
    for scalar in ["0", "-0", "12", "1.5", "-2e10", "3E-2", "0.1e+7", "true", "false", "null"] {
        assert!(is_json_scalar(scalar.as_bytes()), "{scalar}");
        let body = format!("{{\"a\": [{scalar} ]}}");
        assert_eq!(
            capture_capped_redacted(body.as_bytes(), 1000, 100),
            format!("{{\"a\":[{scalar}]}}").into_bytes()
        );
    }
    for other in ["", "-", "01", "1.", ".5", "1e", "1e+", "+1", "True", "nul", "1x", "NaN"] {
        assert!(!is_json_scalar(other.as_bytes()), "{other}");
    }
}
