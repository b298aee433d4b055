use llmconduit::json::Json;
use llmconduit::request_log::analyze_request_log;
use llmconduit::request_log::boundary_preview;
use llmconduit::request_log::common_prefix_len;
use llmconduit::request_log::diff_values;
use llmconduit::request_log::render_report;
use llmconduit::request_log::sanitize_preview;
use llmconduit::request_log::RequestLogAnalysis;

fn json(text: &str) -> Json {
    Json::parse(text).expect("json")
}

#[test]
fn common_prefix_len_counts_matching_bytes() {
    assert_eq!(common_prefix_len(b"abcdef", b"abcxyz"), 3);
    assert_eq!(common_prefix_len(b"", b"abc"), 0);
}

#[test]
fn diff_values_reports_nested_paths() {
    let left = json(r#"{"messages":[{"role":"user","content":"hello"}],"tools":[]}"#);
    let right = json(
        r#"{"messages":[{"role":"user","content":"hello"},{"role":"assistant","content":"world"}],"tools":[{"type":"function"}]}"#,
    );
    let mut diffs = Vec::new();

    diff_values("$", &left, &right, &mut diffs);

    assert_eq!(diffs, vec!["$.messages[len]", "$.tools[len]"]);
}

#[test]
fn request_log_single_entry() {
    let result = analyze_request_log(
        "/tmp/log.jsonl",
        "{\"model\":\"test\",\"messages\":[]}\n",
        10,
    )
    .expect("analyze");
    match result {
        RequestLogAnalysis::Note(note) => {
            assert!(note.contains("contains only one request"));
            assert!(note.starts_with("/tmp/log.jsonl "));
        }
        other => panic!("expected a note, got {other:?}"),
    }
}

#[test]
fn boundary_preview_at_start() {
    let result = boundary_preview("abcdef", 0);
    assert!(result.starts_with('|'));
}

#[test]
fn analyze_request_log_reports_pair_details() {
    let contents = format!(
        "{}{}",
        "{\"messages\":[{\"role\":\"user\",\"content\":\"hello\"}],\"model\":\"Qwen3.5\"}\n",
        "{\"messages\":[{\"role\":\"user\",\"content\":\"hello\"},{\"role\":\"assistant\",\"content\":\"world\"}],\"model\":\"Qwen3.5\"}\n"
    );
    let analysis = analyze_request_log("log", &contents, 10).expect("analyze request log");
    let report = match analysis {
        RequestLogAnalysis::Report(report) => report,
        other => panic!("expected a report, got {other:?}"),
    };
    assert_eq!(report.parsed, 2);
    assert_eq!(report.pairs.len(), 1);
    assert_eq!(report.pairs[0].common_prefix_bytes, 46);
    let text = render_report("log", &report, &vec![("63.4".to_string(), "40.5".to_string())]);
    assert!(text.contains("lines 1 -> 2"));
    assert!(text.contains("$.messages[len]"));
    assert!(text.contains("worst prefix stability"));
}

#[test]
fn empty_log_is_noted() {
    match analyze_request_log("p", "\n  \n", 10).expect("analyze") {
        RequestLogAnalysis::Note(note) => assert_eq!(note, "p is empty"),
        other => panic!("expected a note, got {other:?}"),
    }
}

#[test]
fn bad_line_is_named() {
    let error = analyze_request_log("p", "{}\n\n{oops\n", 10).expect_err("bad json");
    assert!(error.starts_with("failed to parse JSON on line 3 of p: "), "{error}");
}

#[test]
fn equal_values_do_not_differ() {
    let value = json(r#"{"a":[1,{"b":null}]}"#);
    let mut diffs = Vec::new();
    diff_values("$", &value, &value.copy(), &mut diffs);
    assert!(diffs.is_empty());
}

#[test]
fn previews_are_on_one_line() {
    assert_eq!(sanitize_preview("a\nb\tc"), "a\\nb\\tc");
    assert_eq!(boundary_preview("abcdef", 2), "ab|cdef");
}
