use llmconduit::error::bounded_operator_detail;
use llmconduit::error::AppError;
use llmconduit::error::FailoverDisposition;

fn body(error: AppError) -> String {
    let payload = error.payload();
    format!("{payload:?}")
}

#[test]
fn test_internal_error_hides_detail() {
    let body = body(AppError::internal("secret detail"));
    assert!(body.contains("internal server error"));
    assert!(!body.contains("secret detail"));
}

#[test]
fn test_bad_request_shows_detail() {
    let body = body(AppError::bad_request("invalid field X"));
    assert!(body.contains("invalid field X"));
}

#[test]
fn test_upstream_error_hides_operator_detail() {
    let body = body(AppError::upstream("provider returned 500: oops"));
    assert!(body.contains("the upstream request failed"));
    assert!(!body.contains("provider returned 500: oops"));
}

#[test]
fn terminal_event_codes_restore_nonstream_http_statuses() {
    for (code, expected, expected_message) in [
        ("invalid_request_error", 400, "sanitized"),
        ("request_too_large", 413, "sanitized"),
        ("unsupported_media_type", 415, "sanitized"),
        ("unprocessable_entity", 422, "sanitized"),
        ("upstream_timeout", 504, "the upstream response timed out"),
        ("internal_error", 500, "internal server error"),
        ("rate_limit_exceeded", 429, "sanitized"),
        (
            "upstream_authentication_error",
            502,
            "the upstream request failed",
        ),
        ("upstream_error", 502, "the upstream request failed"),
    ] {
        let error = AppError::from_terminal_event("sanitized", Some(code), None, None);
        assert_eq!(error.status, expected, "code={code}");
        assert_eq!(error.client_message, expected_message);
        assert_eq!(error.code.as_deref(), Some(code));
    }
}

#[test]
fn generic_constructors_default_to_failover_disposition() {
    let cases = [
        AppError::bad_request("x"),
        AppError::conflict("x"),
        AppError::upstream("x"),
        AppError::internal("x"),
        AppError::cancelled(),
        AppError::upstream_with_disposition("x", FailoverDisposition::Failover),
    ];
    for error in cases {
        assert_eq!(
            error.failover_disposition(),
            FailoverDisposition::Failover,
            "generic/explicit-failover errors must remain failover-eligible \
             (status {})",
            error.status
        );
    }
}

#[test]
fn unknown_tool_repair_exhausted_carries_structured_code() {
    let error = AppError::unknown_tool_repair_exhausted();
    assert_eq!(error.status, 502);
    assert_eq!(error.code.as_deref(), Some("invalid_tool_call"));
    assert!(error.failover_disposition() == FailoverDisposition::Failover);
    assert!(!error.client_message.is_empty());
}

#[test]
fn with_code_sets_structured_code_and_generic_constructors_have_none() {
    assert_eq!(AppError::upstream("x").code, None);
    assert_eq!(
        AppError::upstream("x").with_code("my_code").code.as_deref(),
        Some("my_code")
    );
}

#[test]
fn upstream_terminal_disposition_is_not_failover() {
    let error = AppError::upstream_with_disposition("overflow", FailoverDisposition::Terminal);
    assert_eq!(error.failover_disposition(), FailoverDisposition::Terminal);
    assert_eq!(error.status, 502);
}

#[test]
fn explicit_status_overrides_the_code() {
    let error = AppError::from_terminal_event("m", Some("upstream_error"), Some(418), Some("input"));
    assert_eq!(error.status, 418);
    assert_eq!(error.param.as_deref(), Some("input"));
    assert_eq!(error.failover_disposition(), FailoverDisposition::Terminal);
}

#[test]
fn payload_kind_follows_the_status() {
    assert_eq!(AppError::not_found("x").payload().kind, "invalid_request_error");
    assert_eq!(AppError::upstream("x").payload().kind, "server_error");
    assert_eq!(AppError::payload_too_large(10).status, 413);
    assert_eq!(
        AppError::payload_too_large(10).client_message,
        "request body exceeds the 10-byte limit"
    );
    assert!(AppError::cancelled().is_cancelled());
    assert!(!AppError::upstream("x").is_cancelled());
}

#[test]
fn unsupported_parameter_names_its_path() {
    let error = AppError::unsupported_parameter("tools[0].filters");
    assert_eq!(error.status, 400);
    assert_eq!(error.describe(), "unsupported parameter: tools[0].filters");
    assert_eq!(error.code.as_deref(), Some("unsupported_parameter"));
    assert_eq!(error.param.as_deref(), Some("tools[0].filters"));
}

#[test]
fn operator_detail_is_bounded() {
    let detail = bounded_operator_detail(&"x".repeat(5000), 100);
    assert!(detail.chars().count() < 5000);
    assert!(detail.starts_with("xxx"));
}

#[test]
fn unauthorized_is_shown_and_final() {
    let error = AppError::unauthorized("no key");
    assert_eq!(error.status_code(), 401);
    assert_eq!(error.payload().message, "no key");
    assert_eq!(error.payload().code.as_deref(), Some("invalid_api_key"));
    assert_eq!(error.failover_disposition(), FailoverDisposition::Terminal);
}
