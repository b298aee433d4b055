use llmconduit::metrics::wire::PercentileTexts;
use llmconduit::metrics::counts::FlowStatus;
use llmconduit::metrics::counts::FlowUsage;
use llmconduit::metrics::counts::StatusClass;
use llmconduit::metrics::histogram::bucket_index;
use llmconduit::metrics::histogram::bucket_upper_ms;
use llmconduit::metrics::histogram::Histogram;
use llmconduit::metrics::histogram::QuantilePlace;
use llmconduit::metrics::histogram::HISTOGRAM_BUCKETS;
use llmconduit::metrics::layer::MetricsLayer;
use llmconduit::metrics::snapshots::summary_approx_bytes;
use llmconduit::metrics::snapshots::SnapshotFlowSummary;
use llmconduit::metrics::snapshots::TopologySnapshot;

const HISTOGRAM_MAX_MS: f64 = 120_000.0;

fn upper(index: usize) -> f64 {
    if index >= HISTOGRAM_BUCKETS - 1 {
        return f64::INFINITY;
    }
    (HISTOGRAM_MAX_MS.ln() * index as f64 / (HISTOGRAM_BUCKETS - 2) as f64).exp()
}

fn lower(index: usize) -> f64 {
    if index == 0 {
        0.0
    } else {
        upper(index - 1)
    }
}

fn quantile(histogram: &Histogram, percent: u64) -> f64 {
    match histogram.quantile_place(percent) {
        QuantilePlace::Empty => 0.0,
        QuantilePlace::Inside {
            bucket,
            before,
            count,
        } => {
            if upper(bucket).is_infinite() {
                return lower(bucket);
            }
            let target = percent as f64 * histogram.total as f64 / 100.0;
            let fraction = ((target - before as f64).max(0.0) / count as f64).clamp(0.0, 1.0);
            lower(bucket) + (upper(bucket) - lower(bucket)) * fraction
        }
        QuantilePlace::Beyond => upper(HISTOGRAM_BUCKETS - 2),
    }
}

fn histogram_of(samples: &[u128]) -> Histogram {
    let mut histogram = Histogram::new();
    for &sample in samples {
        histogram.record(sample);
    }
    histogram
}

fn usage(prompt: i64, completion: i64, cached: i64, reasoning: i64) -> FlowUsage {
    FlowUsage {
        prompt,
        completion,
        total: prompt + completion,
        cached,
        reasoning,
    }
}

fn summary(id: &str, started_ms: u128) -> SnapshotFlowSummary {
    SnapshotFlowSummary {
        api_call_id: id.to_string(),
        response_id: None,
        method: "POST".to_string(),
        uri: "/v1/responses".to_string(),
        model_requested: None,
        model_served: None,
        upstream_target: Some("p".to_string()),
        terminal_reason: None,
        status: FlowStatus::Completed,
        started_ms,
    }
}

const NOW: u64 = 1_700_000_000;
const NOW_MS: u128 = 1_700_000_000_000;

fn topology(version: u64) -> TopologySnapshot {
    TopologySnapshot {
        version,
        text: format!("{{\"version\":{version}}}"),
        bytes: 64,
    }
}

#[test]
fn disabled_layer_is_a_no_op() {
    let mut metrics = MetricsLayer::disabled();
    assert!(!metrics.is_enabled());
    metrics.record_response(
        FlowStatus::Completed,
        Some("m"),
        "/v1/responses",
        Some("p"),
        12,
        NOW,
    );
    metrics.record_usage(
        FlowStatus::Completed,
        Some("m"),
        "/v1/responses",
        Some("p"),
        FlowUsage::default(),
        NOW,
    );
    assert_eq!(metrics.metrics_seq(), 0, "disabled layer never bumps seq");
    let view = metrics.view(NOW);
    assert_eq!(view.window_1m.total_count(), 0);
    assert!(metrics.latest_snapshot().is_none());
    assert!(metrics.snapshot_at(u128::MAX).is_none());
    assert!(metrics.snapshot(vec![], 0, topology(0), NOW_MS).is_none());
}

#[test]
fn quantile_known_distribution_uniform_1_to_100() {
    let samples: Vec<u128> = (1..=100).collect();
    let histogram = histogram_of(&samples);
    let p50 = quantile(&histogram, 50);
    let p95 = quantile(&histogram, 95);
    let p99 = quantile(&histogram, 99);
    assert!(
        (30.0..=75.0).contains(&p50),
        "p50 {p50} within log-bucket tolerance of 50ms"
    );
    assert!(
        (75.0..=120.0).contains(&p95),
        "p95 {p95} within log-bucket tolerance of 96ms"
    );
    assert!(
        (80.0..=130.0).contains(&p99),
        "p99 {p99} within log-bucket tolerance of 100ms"
    );
    assert!(p50 <= p95 && p95 <= p99, "quantiles monotonic");
}

#[test]
fn quantile_empty_histogram_is_zero() {
    let histogram = Histogram::new();
    assert_eq!(quantile(&histogram, 50), 0.0);
    assert_eq!(quantile(&histogram, 95), 0.0);
    assert_eq!(quantile(&histogram, 99), 0.0);
    assert_eq!(histogram.quantile_place(50), QuantilePlace::Empty);
}

#[test]
fn quantile_single_sample_lands_in_its_bucket() {
    let histogram = histogram_of(&[50]);
    let index = bucket_index(50);
    let lower = lower(index);
    let upper = upper(index);
    for percent in [50, 95, 99] {
        let value = quantile(&histogram, percent);
        assert!(
            value >= lower && value <= upper,
            "q{percent} {value} within bucket [{lower},{upper}]"
        );
        assert_eq!(
            histogram.quantile_place(percent),
            QuantilePlace::Inside {
                bucket: index,
                before: 0,
                count: 1
            }
        );
    }
}

#[test]
fn quantile_bimodal_separates_low_and_high() {
    let mut samples = vec![5; 90];
    samples.extend(vec![5000; 10]);
    let histogram = histogram_of(&samples);
    let p50 = quantile(&histogram, 50);
    let p99 = quantile(&histogram, 99);
    assert!(p50 < 100.0, "p50 {p50} in the low (~5ms) mode");
    assert!(p99 > 1000.0, "p99 {p99} in the high (~5000ms) mode");
}

#[test]
fn quantile_overflow_bucket_reports_finite_max() {
    let histogram = histogram_of(&[500_000]);
    let p99 = quantile(&histogram, 99);
    assert!(p99.is_finite(), "overflow quantile is finite");
    assert!(
        (p99 - HISTOGRAM_MAX_MS).abs() < 1.0,
        "overflow quantile {p99} == finite max {HISTOGRAM_MAX_MS}"
    );
}

#[test]
fn bucket_boundaries_are_monotonic_and_span_range() {
    let mut previous = 0;
    for index in 0..HISTOGRAM_BUCKETS - 1 {
        let bound = bucket_upper_ms(index).expect("bounded");
        assert!(bound >= previous, "bucket {index} upper {bound} increasing");
        assert!(
            bound as f64 <= upper(index) + 1e-6 && upper(index) < bound as f64 + 1.0,
            "bucket {index} upper {bound} is the whole part of {}",
            upper(index)
        );
        previous = bound;
    }
    assert_eq!(bucket_upper_ms(0), Some(1), "bucket 0 upper == exactly 1 ms");
    assert_eq!(
        bucket_upper_ms(HISTOGRAM_BUCKETS - 2),
        Some(120_000),
        "last finite bucket == exactly 120 s"
    );
    assert!(bucket_upper_ms(HISTOGRAM_BUCKETS - 1).is_none());
}

#[test]
fn record_response_populates_all_windows_and_bumps_seq() {
    let mut metrics = MetricsLayer::new();
    assert_eq!(metrics.metrics_seq(), 0);
    metrics.record_response(
        FlowStatus::Completed,
        Some("served-m"),
        "/v1/responses",
        Some("provider-a"),
        42,
        NOW,
    );
    assert_eq!(metrics.metrics_seq(), 1, "one mutation bumps seq once");
    let view = metrics.view(NOW);
    assert_eq!(view.window_1m.total_count(), 1);
    assert_eq!(view.window_5m.total_count(), 1);
    assert_eq!(view.window_1h.total_count(), 1);
    let (key, counts) = view
        .window_1m
        .buckets
        .entries
        .first()
        .expect("one bucket present");
    assert_eq!(key.status, StatusClass::Success);
    assert_eq!(key.model, "served-m");
    assert_eq!(key.endpoint, "/v1/responses");
    assert_eq!(key.upstream, "provider-a");
    assert_eq!(counts.count, 1);
    assert!(
        quantile(&view.window_1m.histogram, 50) > 0.0,
        "p50 populated from the 42ms sample"
    );
}

#[test]
fn record_response_unknown_dimensions_collapse_to_unknown() {
    let mut metrics = MetricsLayer::new();
    metrics.record_response(
        FlowStatus::Failed,
        None,
        "/v1/chat/completions",
        None,
        7,
        NOW,
    );
    let view = metrics.view(NOW);
    let (key, _) = view.window_1m.buckets.entries.first().expect("bucket");
    assert_eq!(key.status, StatusClass::Error);
    assert_eq!(key.model, "unknown");
    assert_eq!(key.upstream, "unknown");
}

#[test]
fn record_usage_sums_token_counters() {
    let mut metrics = MetricsLayer::new();
    for tokens in [usage(100, 40, 10, 7), usage(50, 20, 5, 3)] {
        metrics.record_usage(
            FlowStatus::Completed,
            Some("m"),
            "/v1/responses",
            Some("p"),
            tokens,
            NOW,
        );
    }
    let view = metrics.view(NOW);
    let (_, counts) = view.window_1m.buckets.entries.first().expect("usage bucket");
    assert_eq!(counts.prompt_tokens, 150);
    assert_eq!(counts.completion_tokens, 60);
    assert_eq!(counts.cached_tokens, 15);
    assert_eq!(counts.reasoning_tokens, 10);
}

#[test]
fn record_terminal_co_locates_count_and_tokens_in_one_slot_and_bumps_seq_once() {
    let mut metrics = MetricsLayer::new();
    assert_eq!(metrics.metrics_seq(), 0);
    metrics.record_terminal(
        FlowStatus::Completed,
        Some("served-m"),
        "/v1/responses",
        Some("provider-a"),
        42,
        Some(usage(100, 40, 10, 7)),
        NOW,
    );
    assert_eq!(metrics.metrics_seq(), 1, "atomic terminal bumps seq once");
    let view = metrics.view(NOW);
    assert_eq!(
        view.window_1m.buckets.entries.len(),
        1,
        "count + tokens share a slot"
    );
    let (key, counts) = view
        .window_1m
        .buckets
        .entries
        .first()
        .expect("the single terminal bucket");
    assert_eq!(key.status, StatusClass::Success);
    assert_eq!(key.model, "served-m");
    assert_eq!(counts.count, 1, "response counted");
    assert_eq!(
        counts.prompt_tokens, 100,
        "tokens in the SAME bucket as count"
    );
    assert_eq!(counts.completion_tokens, 40);
    assert_eq!(counts.cached_tokens, 10);
    assert_eq!(counts.reasoning_tokens, 7);
    assert!(
        quantile(&view.window_1m.histogram, 50) > 0.0,
        "latency recorded"
    );
    assert_eq!(view.window_5m.total_count(), 1);
    assert_eq!(view.window_1h.total_count(), 1);
}

#[test]
fn record_terminal_without_usage_records_count_only() {
    let mut metrics = MetricsLayer::new();
    metrics.record_terminal(
        FlowStatus::Failed,
        None,
        "/v1/chat/completions",
        None,
        7,
        None,
        NOW,
    );
    assert_eq!(metrics.metrics_seq(), 1);
    let view = metrics.view(NOW);
    let (key, counts) = view.window_1m.buckets.entries.first().expect("bucket");
    assert_eq!(key.status, StatusClass::Error);
    assert_eq!(counts.count, 1);
    assert_eq!(counts.prompt_tokens, 0, "no tokens recorded");
    assert_eq!(counts.completion_tokens, 0);
}

#[test]
fn status_class_mapping() {
    assert_eq!(
        StatusClass::from_status(FlowStatus::Completed),
        StatusClass::Success
    );
    assert_eq!(
        StatusClass::from_status(FlowStatus::Failed),
        StatusClass::Error
    );
    assert_eq!(
        StatusClass::from_status(FlowStatus::Cancelled),
        StatusClass::Cancelled
    );
    assert_eq!(
        StatusClass::from_status(FlowStatus::Open),
        StatusClass::Error
    );
}

#[test]
fn coordinated_snapshot_is_internally_consistent() {
    let mut metrics = MetricsLayer::new();
    metrics.record_response(
        FlowStatus::Completed,
        Some("served-m"),
        "/v1/responses",
        Some("provider-a"),
        42,
        NOW,
    );
    let cut = metrics
        .snapshot(vec![summary("api_1", NOW_MS)], 2, topology(1), NOW_MS)
        .expect("cut taken");
    assert_eq!(cut.summaries.len(), 1);
    assert_eq!(cut.summaries[0].api_call_id, "api_1");
    assert_eq!(cut.summaries[0].status, FlowStatus::Completed);
    assert_eq!(cut.metrics.window_1m.total_count(), 1);
    assert!(cut.cursors.flow_seq >= 1, "flow_seq advanced");
    assert!(cut.cursors.metrics_seq >= 1, "metrics_seq advanced");
    assert_eq!(cut.cursors.topology_seq, 1, "topology_seq == version");
}

#[test]
fn snapshot_cuts_hold_no_body_refs_and_are_quota_bounded() {
    let quota = 256 * 1024;
    let mut metrics = MetricsLayer::with_snapshot_quota(quota);
    for round in 0..50u128 {
        let summaries: Vec<SnapshotFlowSummary> =
            (0..64).map(|index| summary(&format!("api_{index}"), 0)).collect();
        for one in &summaries {
            assert!(
                summary_approx_bytes(one) < 1024,
                "each body-free summary is < 1 KiB"
            );
        }
        metrics.snapshot(summaries, 1, topology(1), NOW_MS + round).expect("a cut");
    }
    let retained = metrics.retained_bytes();
    assert!(retained > 0);
    assert!(
        retained <= quota,
        "snapshot ring retained {retained} bytes <= quota {quota}"
    );
}

#[test]
fn snapshot_at_returns_nearest_le_cut() {
    let mut metrics = MetricsLayer::new();
    let mut timestamps = Vec::new();
    for step in 0..3u128 {
        let cut = metrics
            .snapshot(vec![], 0, topology(0), NOW_MS + 2 * step)
            .expect("cut");
        timestamps.push(cut.taken_at_ms);
    }
    let latest = metrics
        .snapshot_at(timestamps[2] + 1000)
        .expect("nearest <= ts");
    assert_eq!(latest.taken_at_ms, timestamps[2]);
    let mid = metrics
        .snapshot_at(timestamps[1].saturating_sub(1))
        .expect("nearest <= the boundary");
    assert_eq!(mid.taken_at_ms, timestamps[0]);
    assert!(metrics
        .snapshot_at(timestamps[0].saturating_sub(1))
        .is_none());
    assert_eq!(
        metrics.latest_snapshot().map(|cut| cut.taken_at_ms),
        Some(timestamps[2])
    );
}

#[test]
fn per_domain_cursors_are_monotonic_across_cuts() {
    let mut metrics = MetricsLayer::new();
    let first = metrics.snapshot(vec![], 1, topology(1), NOW_MS).expect("cut1").cursors;
    metrics.record_response(
        FlowStatus::Completed,
        Some("m"),
        "/v1/responses",
        Some("p"),
        5,
        NOW,
    );
    let second = metrics
        .snapshot(vec![], 2, topology(2), NOW_MS + 1)
        .expect("cut2")
        .cursors;
    assert!(second.metrics_seq > first.metrics_seq, "metrics_seq monotonic");
    assert!(second.flow_seq > first.flow_seq, "flow_seq monotonic");
    assert!(
        second.topology_seq > first.topology_seq,
        "topology_seq monotonic"
    );
}

#[test]
fn snapshot_with_monitor_seq_records_monitor_cursor() {
    let mut metrics = MetricsLayer::new();
    let cut = metrics
        .snapshot_with_monitor_seq(vec![], 0, topology(1), 99, NOW_MS)
        .expect("cut");
    assert_eq!(cut.cursors.monitor_seq, 99);
}

#[test]
fn old_seconds_leave_the_window() {
    let mut metrics = MetricsLayer::new();
    for second in [NOW, NOW + 59, NOW + 60] {
        metrics.record_response(
            FlowStatus::Completed,
            Some("m"),
            "/v1/responses",
            None,
            5,
            second,
        );
    }
    assert_eq!(metrics.view(NOW + 60).window_1m.total_count(), 2);
    assert_eq!(metrics.view(NOW + 60).window_5m.total_count(), 3);
    assert_eq!(metrics.view(NOW + 4000).window_1h.total_count(), 0);
}

#[test]
fn keys_are_kept_in_order() {
    let mut metrics = MetricsLayer::new();
    for (status, model) in [
        (FlowStatus::Cancelled, "a"),
        (FlowStatus::Completed, "z"),
        (FlowStatus::Failed, "b"),
        (FlowStatus::Completed, "a"),
    ] {
        metrics.record_response(status, Some(model), "/v1/responses", None, 5, NOW);
    }
    let view = metrics.view(NOW);
    let shown: Vec<(StatusClass, &str)> = view
        .window_1m
        .buckets
        .entries
        .iter()
        .map(|(key, _)| (key.status, key.model.as_str()))
        .collect();
    assert_eq!(
        shown,
        vec![
            (StatusClass::Success, "a"),
            (StatusClass::Success, "z"),
            (StatusClass::Error, "b"),
            (StatusClass::Cancelled, "a"),
        ]
    );
}

#[test]
fn snapshots_are_capped_in_number() {
    let mut metrics = MetricsLayer::new();
    for step in 0..725u128 {
        metrics.snapshot(vec![], 0, topology(0), step).expect("cut");
    }
    assert!(metrics.snapshot_at(4).is_none());
    assert_eq!(metrics.snapshot_at(5).map(|cut| cut.taken_at_ms), Some(5));
}

#[test]
fn metrics_as_text() {
    let mut histogram = Histogram::new();
    histogram.record(3);
    let text = histogram.to_text().expect("text");
    assert!(text.starts_with(r#"{"buckets":[0,0,0,1,0,"#), "{text}");
    assert!(text.ends_with(r#"],"total":1}"#), "{text}");
    let zero = || PercentileTexts {
        p50: "0.0".to_string(),
        p95: "0.0".to_string(),
        p99: "0.0".to_string(),
    };
    let mut layer = MetricsLayer::new();
    let view = layer.view(100);
    let text = view.to_text(&zero(), &zero(), &zero()).expect("text");
    assert!(text.starts_with(r#"{"window_1m":{"buckets":{},"histogram":{"buckets":[0,"#), "{text}");
    assert!(text.ends_with(r#""percentiles_1h":{"p50":0.0,"p95":0.0,"p99":0.0}}"#), "{text}");
    layer.record_response(FlowStatus::Completed, Some("m"), "/v1/responses", None, 3, 100);
    let counted = layer.view(100);
    assert_eq!(counted.to_text(&zero(), &zero(), &zero()), None);
    let (key, counts) = &counted.window_1m.buckets.entries[0];
    assert_eq!(
        key.to_text().expect("text"),
        r#"{"status":"success","model":"m","endpoint":"/v1/responses","upstream":"unknown"}"#
    );
    assert_eq!(
        counts.to_text().expect("text"),
        r#"{"count":1,"prompt_tokens":0,"completion_tokens":0,"cached_tokens":0,"reasoning_tokens":0}"#
    );
    let cut = layer
        .snapshot(vec![], 1, topology(2), 5)
        .expect("a cut")
        .to_text(Some("[]".to_string()), Some("{}".to_string()))
        .expect("text");
    assert!(cut.starts_with(r#"{"taken_at_ms":5,"cursors":{"flow_seq":1,"metrics_seq":"#), "{cut}");
    assert!(cut.ends_with(r#"},"summaries":[],"metrics":{},"topology":{"version":2}}"#), "{cut}");
}

#[test]
fn snapshot_counts_its_topology() {
    let mut layer = MetricsLayer::new();
    let cut = layer.snapshot(vec![], 0, topology(3), 5).expect("a cut");
    assert_eq!(cut.topology.version, 3);
    assert_eq!(cut.cursors.topology_seq, 3);
    assert_eq!(cut.approx_bytes(), 3 * 248 + 64);
}
