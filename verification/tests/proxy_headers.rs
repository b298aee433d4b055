use llmconduit::http::routes::should_proxy_request_header;
use axum::http::HeaderName;
use llmconduit::http::routes::models_etag;
use llmconduit::http::routes::model_headers;
use llmconduit::http::routes::proxied_headers;
use llmconduit::http::routes::should_proxy_response_header;
use llmconduit::proxy_headers::header_name_eq;
use llmconduit::proxy_headers::is_hop_by_hop_header;

const HOP_BY_HOP: [&str; 8] = [
    "connection",
    "keep-alive",
    "proxy-authenticate",
    "proxy-authorization",
    "te",
    "trailer",
    "transfer-encoding",
    "upgrade",
];

#[test]
fn canonical_strips_full_hop_by_hop_set() {
    for header in HOP_BY_HOP {
        let name = HeaderName::from_bytes(header.as_bytes()).unwrap();
        assert!(
            is_hop_by_hop_header(name.as_str()),
            "{header} must be classified hop-by-hop",
        );
    }
}

#[test]
fn canonical_is_ascii_case_insensitive() {
    let name = HeaderName::from_static("transfer-encoding");
    assert!(is_hop_by_hop_header(name.as_str()));
    assert!(header_name_eq(name.as_str(), "Transfer-Encoding"));
    assert!(header_name_eq(name.as_str(), "TRANSFER-ENCODING"));
}

#[test]
fn canonical_passes_representative_passthrough_header() {
    let name = HeaderName::from_static("content-type");
    assert!(!is_hop_by_hop_header(name.as_str()));
}

#[test]
fn response_direction_strips_full_hop_by_hop_set() {
    for header in HOP_BY_HOP {
        let name = HeaderName::from_bytes(header.as_bytes()).unwrap();
        assert!(
            !should_proxy_response_header(name.as_str()),
            "response proxy must strip hop-by-hop header {header}",
        );
    }
}

#[test]
fn response_direction_strips_content_length() {
    let name = HeaderName::from_static("content-length");
    assert!(!should_proxy_response_header(name.as_str()));
}

#[test]
fn response_direction_passes_representative_passthrough_header() {
    let name = HeaderName::from_static("content-type");
    assert!(should_proxy_response_header(name.as_str()));
}

#[test]
fn upper_case_names_are_stripped_too() {
    let names = vec![
        "Content-Type".to_string(),
        "CONNECTION".to_string(),
        "x-a".to_string(),
        "Content-Length".to_string(),
    ];
    assert_eq!(proxied_headers(&names), vec![0, 2]);
}

#[test]
fn model_headers_tell_a_mismatch_only() {
    let same = model_headers("GPT", "gpt");
    assert_eq!(same.served.as_deref(), Some("gpt"));
    assert_eq!(same.requested, None);
    let other = model_headers("a", "b");
    assert_eq!(other.served.as_deref(), Some("b"));
    assert_eq!(other.requested.as_deref(), Some("a"));
    let bad = model_headers("line\nend", "");
    assert_eq!(bad.served, None);
    assert_eq!(bad.requested, None);
}

#[test]
fn etag_is_for_the_plain_list_only() {
    assert_eq!(models_etag(true, Some("x".to_string())).expect("ok"), None);
    assert_eq!(
        models_etag(false, Some("x".to_string())).expect("ok"),
        Some("x".to_string())
    );
    let error = models_etag(false, Some("a\u{7f}".to_string())).expect_err("bad header");
    assert_eq!(
        error.describe(),
        "invalid ETag header: failed to parse header value"
    );
}

#[test]
fn request_direction_strips_its_own_headers() {
    for name in ["Authorization", "HOST", "content-length", "te", "Upgrade"] {
        assert!(!should_proxy_request_header(name), "{name}");
    }
    assert!(should_proxy_request_header("x-request-id"));
    assert!(should_proxy_request_header("content-type"));
}
