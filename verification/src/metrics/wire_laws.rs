//! What the texts of the metrics tell: every count under its own name.
use vstd::prelude::*;

use crate::json_string;
use crate::json_text;
use crate::metrics::counts::BucketCounts;
use crate::metrics::counts::BucketKey;
use crate::metrics::counts::StatusClass;
use crate::metrics::histogram::Histogram;
use crate::metrics::snapshots::DashboardSnapshot;
use crate::metrics::snapshots::DomainCursors;
use crate::metrics::snapshots::MetricsView;
use crate::metrics::wire;
use crate::metrics::wire::PercentileTexts;
use crate::text;
use crate::written_text;

verus! {

/// What counts are kept apart by is told, each under its own name.
pub proof fn law_key_tells(key: BucketKey)
    requires
        wire::key_text(key) is Some,
    ensures
        written_text::tells(
            wire::key_text(key),
            "status"@,
            json_string::quoted(wire::class_name(key.status)),
        ),
        written_text::tells(wire::key_text(key), "model"@, json_string::quoted(key.model@)),
        written_text::tells(wire::key_text(key), "endpoint"@, json_string::quoted(key.endpoint@)),
        written_text::tells(wire::key_text(key), "upstream"@, json_string::quoted(key.upstream@)),
{
    broadcast use written_text::lemma_put;

    let z: json_text::Fields = Some(Seq::empty());
    let m = json_text::put_text(z, "status"@, wire::class_name(key.status));
    let m = json_text::put_text(m, "model"@, key.model@);
    let m = json_text::put_text(m, "endpoint"@, key.endpoint@);
    let m = json_text::put_text(m, "upstream"@, key.upstream@);
    written_text::lemma_object_tells(
        m,
        "status"@,
        json_string::quoted(wire::class_name(key.status)),
    );
    written_text::lemma_object_tells(m, "model"@, json_string::quoted(key.model@));
    written_text::lemma_object_tells(m, "endpoint"@, json_string::quoted(key.endpoint@));
    written_text::lemma_object_tells(m, "upstream"@, json_string::quoted(key.upstream@));
}

/// Each count is told under its own name.
pub proof fn law_counts_tells(item: BucketCounts)
    requires
        wire::counts_text(item) is Some,
    ensures
        written_text::tells(wire::counts_text(item), "count"@, text::decimal(item.count as nat)),
        written_text::tells(
            wire::counts_text(item),
            "prompt_tokens"@,
            text::signed(item.prompt_tokens as int),
        ),
        written_text::tells(
            wire::counts_text(item),
            "completion_tokens"@,
            text::signed(item.completion_tokens as int),
        ),
        written_text::tells(
            wire::counts_text(item),
            "cached_tokens"@,
            text::signed(item.cached_tokens as int),
        ),
        written_text::tells(
            wire::counts_text(item),
            "reasoning_tokens"@,
            text::signed(item.reasoning_tokens as int),
        ),
{
    broadcast use written_text::lemma_put;

    let m = Some(Seq::<Seq<char>>::empty());
    let m = json_text::put(m, "count"@, Some(text::decimal(item.count as nat)));
    let m = json_text::put(m, "prompt_tokens"@, Some(text::signed(item.prompt_tokens as int)));
    let m = json_text::put(
        m,
        "completion_tokens"@,
        Some(text::signed(item.completion_tokens as int)),
    );
    let m = json_text::put(m, "cached_tokens"@, Some(text::signed(item.cached_tokens as int)));
    let m = json_text::put(
        m,
        "reasoning_tokens"@,
        Some(text::signed(item.reasoning_tokens as int)),
    );
    written_text::lemma_object_tells(m, "count"@, text::decimal(item.count as nat));
    written_text::lemma_object_tells(m, "prompt_tokens"@, text::signed(item.prompt_tokens as int));
    written_text::lemma_object_tells(
        m,
        "completion_tokens"@,
        text::signed(item.completion_tokens as int),
    );
    written_text::lemma_object_tells(m, "cached_tokens"@, text::signed(item.cached_tokens as int));
    written_text::lemma_object_tells(
        m,
        "reasoning_tokens"@,
        text::signed(item.reasoning_tokens as int),
    );
}

/// A histogram tells its counts and their total.
pub proof fn law_histogram_tells(item: Histogram)
    requires
        wire::histogram_text(item) is Some,
    ensures
        written_text::tells(
            wire::histogram_text(item),
            "buckets"@,
            wire::numbers_text(item.buckets@)->0,
        ),
        written_text::tells(wire::histogram_text(item), "total"@, text::decimal(item.total as nat)),
{
    broadcast use written_text::lemma_put;

    let m = Some(Seq::<Seq<char>>::empty());
    let m = json_text::put(m, "buckets"@, wire::numbers_text(item.buckets@));
    let m = json_text::put(m, "total"@, Some(text::decimal(item.total as nat)));
    written_text::lemma_object_tells(m, "buckets"@, wire::numbers_text(item.buckets@)->0);
    written_text::lemma_object_tells(m, "total"@, text::decimal(item.total as nat));
}

/// Each latency is told under its own name.
pub proof fn law_percentiles_tells(item: PercentileTexts)
    requires
        wire::percentiles_text(item) is Some,
    ensures
        written_text::tells(wire::percentiles_text(item), "p50"@, item.p50@),
        written_text::tells(wire::percentiles_text(item), "p95"@, item.p95@),
        written_text::tells(wire::percentiles_text(item), "p99"@, item.p99@),
{
    broadcast use written_text::lemma_put;

    let m = Some(Seq::<Seq<char>>::empty());
    let m = json_text::put(m, "p50"@, Some(item.p50@));
    let m = json_text::put(m, "p95"@, Some(item.p95@));
    let m = json_text::put(m, "p99"@, Some(item.p99@));
    written_text::lemma_object_tells(m, "p50"@, item.p50@);
    written_text::lemma_object_tells(m, "p95"@, item.p95@);
    written_text::lemma_object_tells(m, "p99"@, item.p99@);
}

/// Where each store stood is told under its own name.
pub proof fn law_cursors_tells(item: DomainCursors)
    requires
        wire::cursors_text(item) is Some,
    ensures
        written_text::tells(
            wire::cursors_text(item),
            "flow_seq"@,
            text::decimal(item.flow_seq as nat),
        ),
        written_text::tells(
            wire::cursors_text(item),
            "metrics_seq"@,
            text::decimal(item.metrics_seq as nat),
        ),
        written_text::tells(
            wire::cursors_text(item),
            "topology_seq"@,
            text::decimal(item.topology_seq as nat),
        ),
        written_text::tells(
            wire::cursors_text(item),
            "monitor_seq"@,
            text::decimal(item.monitor_seq as nat),
        ),
{
    broadcast use written_text::lemma_put;

    let m = Some(Seq::<Seq<char>>::empty());
    let m = json_text::put(m, "flow_seq"@, Some(text::decimal(item.flow_seq as nat)));
    let m = json_text::put(m, "metrics_seq"@, Some(text::decimal(item.metrics_seq as nat)));
    let m = json_text::put(m, "topology_seq"@, Some(text::decimal(item.topology_seq as nat)));
    let m = json_text::put(m, "monitor_seq"@, Some(text::decimal(item.monitor_seq as nat)));
    written_text::lemma_object_tells(m, "flow_seq"@, text::decimal(item.flow_seq as nat));
    written_text::lemma_object_tells(m, "metrics_seq"@, text::decimal(item.metrics_seq as nat));
    written_text::lemma_object_tells(m, "topology_seq"@, text::decimal(item.topology_seq as nat));
    written_text::lemma_object_tells(m, "monitor_seq"@, text::decimal(item.monitor_seq as nat));
}

/// Each window and its latencies are told under their own names.
pub proof fn law_windows_tells(
    view: MetricsView,
    last_minute: PercentileTexts,
    last_five: PercentileTexts,
    last_hour: PercentileTexts,
)
    requires
        wire::view_text(view, last_minute, last_five, last_hour) is Some,
    ensures
        written_text::tells(
            wire::view_text(view, last_minute, last_five, last_hour),
            "window_1m"@,
            wire::report_text(view.window_1m)->0,
        ),
        written_text::tells(
            wire::view_text(view, last_minute, last_five, last_hour),
            "window_5m"@,
            wire::report_text(view.window_5m)->0,
        ),
        written_text::tells(
            wire::view_text(view, last_minute, last_five, last_hour),
            "window_1h"@,
            wire::report_text(view.window_1h)->0,
        ),
        written_text::tells(
            wire::view_text(view, last_minute, last_five, last_hour),
            "percentiles_1m"@,
            wire::percentiles_text(last_minute)->0,
        ),
        written_text::tells(
            wire::view_text(view, last_minute, last_five, last_hour),
            "percentiles_5m"@,
            wire::percentiles_text(last_five)->0,
        ),
        written_text::tells(
            wire::view_text(view, last_minute, last_five, last_hour),
            "percentiles_1h"@,
            wire::percentiles_text(last_hour)->0,
        ),
{
    broadcast use written_text::lemma_put;

    let z: json_text::Fields = Some(Seq::empty());
    let m = json_text::put(z, "window_1m"@, wire::report_text(view.window_1m));
    let m = json_text::put(m, "window_5m"@, wire::report_text(view.window_5m));
    let m = json_text::put(m, "window_1h"@, wire::report_text(view.window_1h));
    let m = json_text::put(m, "percentiles_1m"@, wire::percentiles_text(last_minute));
    let m = json_text::put(m, "percentiles_5m"@, wire::percentiles_text(last_five));
    let m = json_text::put(m, "percentiles_1h"@, wire::percentiles_text(last_hour));
    written_text::lemma_object_tells(m, "window_1m"@, wire::report_text(view.window_1m)->0);
    written_text::lemma_object_tells(m, "window_5m"@, wire::report_text(view.window_5m)->0);
    written_text::lemma_object_tells(m, "window_1h"@, wire::report_text(view.window_1h)->0);
    written_text::lemma_object_tells(m, "percentiles_1m"@, wire::percentiles_text(last_minute)->0);
    written_text::lemma_object_tells(m, "percentiles_5m"@, wire::percentiles_text(last_five)->0);
    written_text::lemma_object_tells(m, "percentiles_1h"@, wire::percentiles_text(last_hour)->0);
}

/// A snapshot tells when it was taken, where each store stood, and what each held.
pub proof fn law_snapshot_tells(
    snapshot: DashboardSnapshot,
    summaries: Option<Seq<char>>,
    metrics: Option<Seq<char>>,
)
    requires
        wire::snapshot_text(snapshot, summaries, metrics) is Some,
    ensures
        written_text::tells(
            wire::snapshot_text(snapshot, summaries, metrics),
            "taken_at_ms"@,
            text::decimal(snapshot.taken_at_ms as nat),
        ),
        written_text::tells(
            wire::snapshot_text(snapshot, summaries, metrics),
            "cursors"@,
            wire::cursors_text(snapshot.cursors)->0,
        ),
        written_text::tells(
            wire::snapshot_text(snapshot, summaries, metrics),
            "summaries"@,
            summaries->0,
        ),
        written_text::tells(
            wire::snapshot_text(snapshot, summaries, metrics),
            "metrics"@,
            metrics->0,
        ),
        written_text::tells(
            wire::snapshot_text(snapshot, summaries, metrics),
            "topology"@,
            snapshot.topology.text@,
        ),
{
    broadcast use written_text::lemma_put;

    let z: json_text::Fields = Some(Seq::empty());
    let m = json_text::put(z, "taken_at_ms"@, Some(text::decimal(snapshot.taken_at_ms as nat)));
    let m = json_text::put(m, "cursors"@, wire::cursors_text(snapshot.cursors));
    let m = json_text::put(m, "summaries"@, summaries);
    let m = json_text::put(m, "metrics"@, metrics);
    let m = json_text::put(m, "topology"@, Some(snapshot.topology.text@));
    written_text::lemma_object_tells(m, "taken_at_ms"@, text::decimal(snapshot.taken_at_ms as nat));
    written_text::lemma_object_tells(m, "cursors"@, wire::cursors_text(snapshot.cursors)->0);
    written_text::lemma_object_tells(m, "summaries"@, summaries->0);
    written_text::lemma_object_tells(m, "metrics"@, metrics->0);
    written_text::lemma_object_tells(m, "topology"@, snapshot.topology.text@);
}

/// The names of how flows count are apart.
pub proof fn law_class_names_are_apart(a: StatusClass, b: StatusClass)
    requires
        wire::class_name(a) == wire::class_name(b),
    ensures
        a == b,
        a is Success ==> wire::class_name(a) == "success"@,
        a is Error ==> wire::class_name(a) == "error"@,
        a is Cancelled ==> wire::class_name(a) == "cancelled"@,
{
    reveal_strlit("success");
    reveal_strlit("error");
    reveal_strlit("cancelled");
    assert("success"@.len() == 7);
    assert("error"@.len() == 5);
    assert("cancelled"@.len() == 9);
}

} // verus!
