//! Metrics and snapshots as JSON text.
use vstd::prelude::*;

use crate::json_text;
use crate::json_text::array_of;
use crate::json_text::ObjectText;
use crate::metrics::counts::BucketCounts;
use crate::metrics::counts::BucketKey;
use crate::metrics::counts::StatusClass;
use crate::metrics::histogram::Histogram;
use crate::metrics::snapshots::DashboardSnapshot;
use crate::metrics::snapshots::DomainCursors;
use crate::metrics::snapshots::MetricsView;
use crate::metrics::window::WindowReport;
use crate::text;
use crate::text::decimal_of;
use crate::text::signed_of;

verus! {

// --- Counts ------------------------------------------------------------------------------------

/// The name of how a finished flow counts.
pub open spec fn class_name(class: StatusClass) -> Seq<char> {
    match class {
        StatusClass::Success => "success"@,
        StatusClass::Error => "error"@,
        StatusClass::Cancelled => "cancelled"@,
    }
}

impl StatusClass {
    /// The name of how a finished flow counts.
    pub fn name(&self) -> (r: &'static str)
        ensures
            r@ == class_name(*self),
    {
        match self {
            StatusClass::Success => "success",
            StatusClass::Error => "error",
            StatusClass::Cancelled => "cancelled",
        }
    }
}

/// What counts are kept apart by, as text.
pub open spec fn key_text(key: BucketKey) -> Option<Seq<char>> {
    let m = json_text::put_text(Some(Seq::empty()), "status"@, class_name(key.status));
    let m = json_text::put_text(m, "model"@, key.model@);
    let m = json_text::put_text(m, "endpoint"@, key.endpoint@);
    let m = json_text::put_text(m, "upstream"@, key.upstream@);
    json_text::object_text(m)
}

impl BucketKey {
    /// What counts are kept apart by, as text.
    pub fn to_text(&self) -> (r: Option<String>)
        ensures
            text::opt_view(r) == key_text(*self),
    {
        let mut m = ObjectText::new();
        m.put_text("status", self.status.name());
        m.put_text("model", self.model.as_str());
        m.put_text("endpoint", self.endpoint.as_str());
        m.put_text("upstream", self.upstream.as_str());
        m.into_text()
    }
}

/// Counts as text.
pub open spec fn counts_text(item: BucketCounts) -> Option<Seq<char>> {
    let m = Some(Seq::<Seq<char>>::empty());
    let m = json_text::put(m, "count"@, Some(text::decimal(item.count as nat)));
    let m = json_text::put(m, "prompt_tokens"@, Some(text::signed(item.prompt_tokens as int)));
    let m = json_text::put(
        m,
        "completion_tokens"@,
        Some(text::signed(item.completion_tokens as int)),
    );
    let m = json_text::put(m, "cached_tokens"@, Some(text::signed(item.cached_tokens as int)));
    let m = json_text::put(
        m,
        "reasoning_tokens"@,
        Some(text::signed(item.reasoning_tokens as int)),
    );
    json_text::object_text(m)
}

impl BucketCounts {
    /// Counts as text.
    pub fn to_text(&self) -> (r: Option<String>)
        ensures
            text::opt_view(r) == counts_text(*self),
    {
        let mut m = ObjectText::new();
        m.put("count", Some(decimal_of(self.count as u128)));
        m.put("prompt_tokens", Some(signed_of(self.prompt_tokens as i64)));
        m.put("completion_tokens", Some(signed_of(self.completion_tokens as i64)));
        m.put("cached_tokens", Some(signed_of(self.cached_tokens as i64)));
        m.put("reasoning_tokens", Some(signed_of(self.reasoning_tokens as i64)));
        m.into_text()
    }
}

// --- Windows -----------------------------------------------------------------------------------

/// Numbers as text.
pub open spec fn numbers_text(numbers: Seq<u64>) -> Option<Seq<char>> {
    json_text::array_text(numbers.map_values(|n: u64| Some(text::decimal(n as nat))))
}

fn numbers_of(numbers: &Vec<u64>) -> (r: Option<String>)
    ensures
        text::opt_view(r) == numbers_text(numbers@),
{
    let mut texts: Vec<Option<String>> = Vec::new();
    let mut i: usize = 0;
    while i < numbers.len()
        invariant
            i <= numbers@.len(),
            texts@.len() == i,
            forall|k: int|
                0 <= k < i ==> text::opt_view(#[trigger] texts@[k]) == Some(
                    text::decimal(numbers@[k] as nat),
                ),
        decreases numbers@.len() - i,
    {
        texts.push(Some(decimal_of(numbers[i] as u128)));
        i += 1;
    }
    assert(texts@.map_values(|t: Option<String>| text::opt_view(t)) =~= numbers@.map_values(
        |n: u64| Some(text::decimal(n as nat)),
    ));
    array_of(texts)
}

/// A histogram as text.
pub open spec fn histogram_text(item: Histogram) -> Option<Seq<char>> {
    let m = Some(Seq::<Seq<char>>::empty());
    let m = json_text::put(m, "buckets"@, numbers_text(item.buckets@));
    let m = json_text::put(m, "total"@, Some(text::decimal(item.total as nat)));
    json_text::object_text(m)
}

impl Histogram {
    /// A histogram as text.
    pub fn to_text(&self) -> (r: Option<String>)
        ensures
            text::opt_view(r) == histogram_text(*self),
    {
        let mut m = ObjectText::new();
        m.put("buckets", numbers_of(&self.buckets));
        m.put("total", Some(decimal_of(self.total as u128)));
        m.into_text()
    }
}

/// A report as text. JSON knows no member but by a string, so a report with counts, whose
/// keys are none, has no text.
pub open spec fn report_text(report: WindowReport) -> Option<Seq<char>> {
    let buckets = if report.buckets.entries@.len() == 0 {
        Some("{}"@)
    } else {
        None
    };
    let m = json_text::put(Some(Seq::empty()), "buckets"@, buckets);
    let m = json_text::put(m, "histogram"@, histogram_text(report.histogram));
    json_text::object_text(m)
}

impl WindowReport {
    /// A report as text.
    pub fn to_text(&self) -> (r: Option<String>)
        ensures
            text::opt_view(r) == report_text(*self),
    {
        let mut m = ObjectText::new();
        let buckets = if self.buckets.entries.len() == 0 {
            Some("{}".to_owned())
        } else {
            None
        };
        m.put("buckets", buckets);
        m.put("histogram", self.histogram.to_text());
        m.into_text()
    }
}

/// Latencies as the texts of numbers.
pub struct PercentileTexts {
    /// The median.
    pub p50: String,
    /// The quantile of 95 percent.
    pub p95: String,
    /// The quantile of 99 percent.
    pub p99: String,
}

/// Latencies as text.
pub open spec fn percentiles_text(item: PercentileTexts) -> Option<Seq<char>> {
    let m = Some(Seq::<Seq<char>>::empty());
    let m = json_text::put(m, "p50"@, Some(item.p50@));
    let m = json_text::put(m, "p95"@, Some(item.p95@));
    let m = json_text::put(m, "p99"@, Some(item.p99@));
    json_text::object_text(m)
}

impl PercentileTexts {
    /// Latencies as text.
    pub fn to_text(&self) -> (r: Option<String>)
        ensures
            text::opt_view(r) == percentiles_text(*self),
    {
        let mut m = ObjectText::new();
        m.put("p50", Some(self.p50.clone()));
        m.put("p95", Some(self.p95.clone()));
        m.put("p99", Some(self.p99.clone()));
        m.into_text()
    }
}

// --- Snapshots ---------------------------------------------------------------------------------

/// The three windows and their latencies as text.
pub open spec fn view_text(
    view: MetricsView,
    last_minute: PercentileTexts,
    last_five: PercentileTexts,
    last_hour: PercentileTexts,
) -> Option<Seq<char>> {
    let m = json_text::put(Some(Seq::empty()), "window_1m"@, report_text(view.window_1m));
    let m = json_text::put(m, "window_5m"@, report_text(view.window_5m));
    let m = json_text::put(m, "window_1h"@, report_text(view.window_1h));
    let m = json_text::put(m, "percentiles_1m"@, percentiles_text(last_minute));
    let m = json_text::put(m, "percentiles_5m"@, percentiles_text(last_five));
    let m = json_text::put(m, "percentiles_1h"@, percentiles_text(last_hour));
    json_text::object_text(m)
}

impl MetricsView {
    /// The three windows and their latencies as text.
    pub fn to_text(
        &self,
        last_minute: &PercentileTexts,
        last_five: &PercentileTexts,
        last_hour: &PercentileTexts,
    ) -> (r: Option<String>)
        ensures
            text::opt_view(r) == view_text(*self, *last_minute, *last_five, *last_hour),
    {
        let mut m = ObjectText::new();
        m.put("window_1m", self.window_1m.to_text());
        m.put("window_5m", self.window_5m.to_text());
        m.put("window_1h", self.window_1h.to_text());
        m.put("percentiles_1m", last_minute.to_text());
        m.put("percentiles_5m", last_five.to_text());
        m.put("percentiles_1h", last_hour.to_text());
        m.into_text()
    }
}

/// Where each store stood as text.
pub open spec fn cursors_text(item: DomainCursors) -> Option<Seq<char>> {
    let m = Some(Seq::<Seq<char>>::empty());
    let m = json_text::put(m, "flow_seq"@, Some(text::decimal(item.flow_seq as nat)));
    let m = json_text::put(m, "metrics_seq"@, Some(text::decimal(item.metrics_seq as nat)));
    let m = json_text::put(m, "topology_seq"@, Some(text::decimal(item.topology_seq as nat)));
    let m = json_text::put(m, "monitor_seq"@, Some(text::decimal(item.monitor_seq as nat)));
    json_text::object_text(m)
}

impl DomainCursors {
    /// Where each store stood as text.
    pub fn to_text(&self) -> (r: Option<String>)
        ensures
            text::opt_view(r) == cursors_text(*self),
    {
        let mut m = ObjectText::new();
        m.put("flow_seq", Some(decimal_of(self.flow_seq as u128)));
        m.put("metrics_seq", Some(decimal_of(self.metrics_seq as u128)));
        m.put("topology_seq", Some(decimal_of(self.topology_seq as u128)));
        m.put("monitor_seq", Some(decimal_of(self.monitor_seq as u128)));
        m.into_text()
    }
}

/// A snapshot as text, given the texts of its flows and its metrics.
pub open spec fn snapshot_text(
    snapshot: DashboardSnapshot,
    summaries: Option<Seq<char>>,
    metrics: Option<Seq<char>>,
) -> Option<Seq<char>> {
    let taken = Some(text::decimal(snapshot.taken_at_ms as nat));
    let m = json_text::put(Some(Seq::empty()), "taken_at_ms"@, taken);
    let m = json_text::put(m, "cursors"@, cursors_text(snapshot.cursors));
    let m = json_text::put(m, "summaries"@, summaries);
    let m = json_text::put(m, "metrics"@, metrics);
    let m = json_text::put(m, "topology"@, Some(snapshot.topology.text@));
    json_text::object_text(m)
}

impl DashboardSnapshot {
    /// A snapshot as text, given the texts of its flows and its metrics.
    pub fn to_text(
        &self,
        summaries: Option<String>,
        metrics: Option<String>,
    ) -> (r: Option<String>)
        ensures
            text::opt_view(r) == snapshot_text(
                *self,
                text::opt_view(summaries),
                text::opt_view(metrics),
            ),
    {
        let mut m = ObjectText::new();
        m.put("taken_at_ms", Some(decimal_of(self.taken_at_ms)));
        m.put("cursors", self.cursors.to_text());
        m.put("summaries", summaries);
        m.put("metrics", metrics);
        m.put("topology", Some(self.topology.text.clone()));
        m.into_text()
    }
}

} // verus!
