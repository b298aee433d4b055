use llmconduit::search::SearchOutcome;
use llmconduit::search::redact_search_outcome_credentials;
use llmconduit::search::collect_sources;
use llmconduit::search::format_search_results;
use llmconduit::search::redact_brave_response_credentials;
use llmconduit::search::BraveSearchClient;
use llmconduit::search::BraveSearchResponse;
use llmconduit::search::BraveWebResult;
use llmconduit::search::BraveWebResults;
use llmconduit::search::SearchReply;
use llmconduit::search::SearchSource;

fn result(title: &str, url: &str, description: &str) -> BraveWebResult {
    BraveWebResult {
        title: title.to_string(),
        url: url.to_string(),
        description: description.to_string(),
    }
}

fn response(results: Vec<BraveWebResult>) -> BraveSearchResponse {
    BraveSearchResponse {
        web: Some(BraveWebResults { results }),
    }
}

#[test]
fn format_search_results_empty() {
    let response = BraveSearchResponse { web: None };
    assert_eq!(
        format_search_results(&response),
        "No Brave search results found."
    );
}

#[test]
fn format_search_results_missing_fields() {
    let response = response(vec![result("", "", "")]);
    let result = format_search_results(&response);
    assert!(result.contains("1."));
}

#[test]
fn collect_sources_extracts_structured_url_title_skipping_empty_urls() {
    let response = response(vec![
        result("Alpha", "https://a.test", "da"),
        result("No URL", "", "d"),
        result("Beta", "https://b.test", "db"),
    ]);
    let sources = collect_sources(&response);
    assert_eq!(
        sources,
        vec![
            SearchSource {
                title: "Alpha".to_string(),
                url: "https://a.test".to_string(),
            },
            SearchSource {
                title: "Beta".to_string(),
                url: "https://b.test".to_string(),
            },
        ]
    );
    assert!(format_search_results(&response).contains("URL: https://a.test"));
}

#[test]
fn endpoint_url_preserves_v1_without_trailing_slash() {
    let client = BraveSearchClient::new(
        "https://api.search.brave.com/res/v1".to_string(),
        Some("secret".to_string()),
        5,
    );
    assert_eq!(
        client.endpoint_url("web/search").expect("endpoint").as_str(),
        "https://api.search.brave.com/res/v1/web/search"
    );
}

#[test]
fn endpoint_url_preserves_v1_with_trailing_slash() {
    let client = BraveSearchClient::new(
        "https://api.search.brave.com/res/v1/".to_string(),
        Some("secret".to_string()),
        5,
    );
    assert_eq!(
        client.endpoint_url("web/search").expect("endpoint").as_str(),
        "https://api.search.brave.com/res/v1/web/search"
    );
}

#[test]
fn brave_backend_never_echoes_key_from_neutral_error_or_result_fields() {
    const SENTINEL: &str = "brave-key-sentinel-7f291";

    let error = BraveSearchClient::check_status(502).expect_err("non-success response must fail");
    assert_eq!(error.message, "Brave search backend returned HTTP 502");
    assert!(!error.describe().contains(SENTINEL));
    assert!(!error.client_message.contains(SENTINEL));

    let outcome = BraveSearchClient::finish_search(
        SENTINEL,
        SearchReply::Payload(response(vec![
            result(
                &format!("reflected title {SENTINEL}"),
                &format!("https://result.test/path?token={SENTINEL}"),
                &format!("reflected description {SENTINEL}"),
            ),
            result(
                &format!("safe URL but reflected {SENTINEL}"),
                "https://safe-result.test/path",
                "ordinary description",
            ),
        ])),
    )
    .expect("search outcome");
    assert!(!outcome.formatted.contains(SENTINEL));
    assert!(outcome
        .sources
        .iter()
        .all(|source| !source.title.contains(SENTINEL) && !source.url.contains(SENTINEL)));
    assert_eq!(
        outcome.sources.len(),
        1,
        "credential-bearing URL is omitted"
    );
    assert_eq!(outcome.sources[0].url, "https://safe-result.test/path");
}

#[test]
fn encoded_key_is_redacted_too() {
    let mut payload = response(vec![result("t", "https://x/?k=a%2Bb%2Fc", "a+b/c and a%2Bb%2Fc")]);
    redact_brave_response_credentials(&mut payload, "a+b/c");
    let shown = format!("{payload:?}");
    assert!(!shown.contains("a+b/c"), "{shown}");
    assert!(!shown.contains("a%2Bb%2Fc"), "{shown}");
}

#[test]
fn each_failed_reply_is_told() {
    for (reply, message) in [
        (SearchReply::SendFailed, "Brave search request failed"),
        (SearchReply::ReadFailed, "failed to read Brave search response"),
        (SearchReply::TooLarge, "Brave search response was too large"),
        (SearchReply::InvalidJson, "invalid Brave search JSON"),
    ] {
        let error = BraveSearchClient::finish_search("key", reply).expect_err("failed reply");
        assert_eq!(error.describe(), message);
    }
}

#[test]
fn search_needs_a_key_and_sends_its_query() {
    let client = BraveSearchClient::new("https://h/v1".to_string(), None, 5);
    assert!(client.begin_search("q").is_err());
    let client = BraveSearchClient::new("https://h/v1".to_string(), Some("k".to_string()), 7);
    let request = client.begin_search("rust verus").expect("request");
    assert_eq!(request.url, "https://h/v1/web/search");
    assert_eq!(request.token, "k");
    assert_eq!(request.params[0], ("q".to_string(), "rust verus".to_string()));
    assert_eq!(request.params[1], ("count".to_string(), "7".to_string()));
    assert!(BraveSearchClient::check_status(200).is_ok());
}

#[test]
fn bad_base_url_is_refused() {
    let client = BraveSearchClient::new("mailto:x@y".to_string(), Some("k".to_string()), 5);
    assert!(client.endpoint_url("web/search").is_err());
}

#[test]
fn outcome_is_scrubbed_of_a_key_that_is_there() {
    let outcome = || SearchOutcome {
        formatted: "see sk-abc-123 here".to_string(),
        sources: vec![
            SearchSource {
                title: "sk-abc-123 title".to_string(),
                url: "https://a.test".to_string(),
            },
            SearchSource {
                title: "t".to_string(),
                url: "https://b.test/?k=sk-abc-123".to_string(),
            },
        ],
    };
    let mut scrubbed = outcome();
    redact_search_outcome_credentials(&mut scrubbed, Some("sk-abc-123"));
    assert!(!scrubbed.formatted.contains("sk-abc-123"));
    assert_eq!(scrubbed.sources.len(), 1);
    assert!(!scrubbed.sources[0].title.contains("sk-abc-123"));
    for key in [None, Some("")] {
        let mut kept = outcome();
        redact_search_outcome_credentials(&mut kept, key);
        assert_eq!(kept.formatted, "see sk-abc-123 here");
        assert_eq!(kept.sources.len(), 2);
    }
}

#[test]
fn ordinary_base_can_be_extended() {
    for (base, begins) in [
        ("https://h/v1", true),
        ("https://h/v1/", true),
        ("nonsense", false),
        ("mailto:", false),
    ] {
        let client = BraveSearchClient::new(base.to_string(), Some("k".to_string()), 5);
        let begun = client.try_begin_search("q").expect("room");
        assert_eq!(begun.is_ok(), begins);
    }
    let keyless = BraveSearchClient::new("https://h/v1".to_string(), None, 5);
    assert!(keyless.try_begin_search("q").expect("answer").is_err());
}
