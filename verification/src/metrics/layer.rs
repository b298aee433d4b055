//! The metrics of the gateway: three windows of time, and the snapshots taken of them.
use vstd::prelude::*;

use crate::metrics::counts;
use crate::metrics::counts::BucketCounts;
use crate::metrics::counts::BucketKey;
use crate::metrics::counts::FlowStatus;
use crate::metrics::counts::FlowUsage;
use crate::metrics::counts::KeyView;
use crate::metrics::histogram;
use crate::metrics::snapshots;
use crate::metrics::snapshots::DashboardSnapshot;
use crate::metrics::snapshots::DomainCursors;
use crate::metrics::snapshots::MetricsView;
use crate::metrics::snapshots::RingView;
use crate::metrics::snapshots::SnapshotFlowSummary;
use crate::metrics::snapshots::SnapshotRing;
use crate::metrics::snapshots::TopologySnapshot;
use crate::metrics::window;
use crate::metrics::window::ReportView;
use crate::metrics::window::SlotView;
use crate::metrics::window::WindowReport;
use crate::metrics::window::WindowRing;
use crate::text;

verus! {

/// Seconds in the window of a minute.
pub const WINDOW_1M_SLOTS: usize = 60;

/// Seconds in the window of five minutes.
pub const WINDOW_5M_SLOTS: usize = 300;

/// Seconds in the window of an hour.
pub const WINDOW_1H_SLOTS: usize = 3600;

/// The contents of a [`MetricsLayer`].
pub struct LayerView {
    /// Whether anything is counted.
    pub enabled: bool,
    /// The last minute.
    pub minute: Seq<SlotView>,
    /// The last five minutes.
    pub five_minutes: Seq<SlotView>,
    /// The last hour.
    pub hour: Seq<SlotView>,
    /// How often something was counted.
    pub seq: u64,
    /// The snapshots.
    pub snapshots: RingView,
}

impl LayerView {
    /// The windows are well formed.
    pub open spec fn wf(self) -> bool {
        &&& window::ring_wf(self.minute)
        &&& window::ring_wf(self.five_minutes)
        &&& window::ring_wf(self.hour)
    }

    /// Nothing counted.
    pub open spec fn fresh(enabled: bool, quota: usize) -> LayerView {
        LayerView {
            enabled,
            minute: window::empty_ring(WINDOW_1M_SLOTS as nat),
            five_minutes: window::empty_ring(WINDOW_5M_SLOTS as nat),
            hour: window::empty_ring(WINDOW_1H_SLOTS as nat),
            seq: 0,
            snapshots: RingView { cuts: Seq::empty(), retained: 0, quota },
        }
    }

    /// With counts, and a latency where there is one, in the same second of all three
    /// windows. Metrics that are off stay as they are.
    pub open spec fn recorded(
        self,
        epoch_s: u64,
        key: KeyView,
        c: BucketCounts,
        latency: Option<u128>,
    ) -> LayerView {
        if self.enabled {
            LayerView {
                minute: window::recorded(self.minute, epoch_s, key, c, latency),
                five_minutes: window::recorded(self.five_minutes, epoch_s, key, c, latency),
                hour: window::recorded(self.hour, epoch_s, key, c, latency),
                seq: histogram::sat_add(self.seq, 1),
                ..self
            }
        } else {
            self
        }
    }
}

/// Whether `m` is what is counted in the three windows that end with `now`.
pub open spec fn is_view_at(m: MetricsView, v: LayerView, now: u64) -> bool {
    &&& m.window_1m@ == window::report_of(v.minute, now, v.minute.len() as int)
    &&& m.window_5m@ == window::report_of(v.five_minutes, now, v.five_minutes.len() as int)
    &&& m.window_1h@ == window::report_of(v.hour, now, v.hour.len() as int)
}

/// The second that an instant in milliseconds is in.
pub open spec fn second_of(ms: u128) -> u64 {
    ((ms / 1000) % 18446744073709551616) as u64
}

/// The metrics of the gateway.
#[derive(Debug)]
pub struct MetricsLayer {
    enabled: bool,
    ring_1m: WindowRing,
    ring_5m: WindowRing,
    ring_1h: WindowRing,
    seq: u64,
    snapshots: SnapshotRing,
}

impl MetricsLayer {
    /// The contents.
    pub closed spec fn contents(&self) -> LayerView {
        LayerView {
            enabled: self.enabled,
            minute: self.ring_1m@,
            five_minutes: self.ring_5m@,
            hour: self.ring_1h@,
            seq: self.seq,
            snapshots: self.snapshots@,
        }
    }

    fn with(enabled: bool, quota_bytes: usize) -> (r: Self)
        ensures
            r.contents() == LayerView::fresh(enabled, quota_bytes),
            r.contents().wf(),
    {
        MetricsLayer {
            enabled,
            ring_1m: WindowRing::new(WINDOW_1M_SLOTS),
            ring_5m: WindowRing::new(WINDOW_5M_SLOTS),
            ring_1h: WindowRing::new(WINDOW_1H_SLOTS),
            seq: 0,
            snapshots: SnapshotRing::new(quota_bytes),
        }
    }

    /// Metrics that count.
    pub fn new() -> (r: Self)
        ensures
            r.contents() == LayerView::fresh(true, snapshots::DEFAULT_SNAPSHOT_QUOTA_BYTES),
            r.contents().wf(),
    {
        Self::with(true, snapshots::DEFAULT_SNAPSHOT_QUOTA_BYTES)
    }

    /// Metrics that are off.
    pub fn disabled() -> (r: Self)
        ensures
            r.contents() == LayerView::fresh(false, 0),
            r.contents().wf(),
    {
        Self::with(false, 0)
    }

    /// Metrics that count and keep this many bytes of snapshots.
    pub fn with_snapshot_quota(quota_bytes: usize) -> (r: Self)
        ensures
            r.contents() == LayerView::fresh(true, quota_bytes),
            r.contents().wf(),
    {
        Self::with(true, quota_bytes)
    }

    /// Whether anything is counted.
    pub fn is_enabled(&self) -> (r: bool)
        ensures
            r == self.contents().enabled,
    {
        self.enabled
    }

    fn record(
        &mut self,
        epoch_s: u64,
        key: &BucketKey,
        c: BucketCounts,
        latency: Option<u128>,
    )
        requires
            old(self).contents().wf(),
        ensures
            final(self).contents() == old(self).contents().recorded(epoch_s, key@, c, latency),
            final(self).contents().wf(),
    {
        if !self.enabled {
            return;
        }
        self.ring_1m.record(epoch_s, key, c, latency);
        self.ring_5m.record(epoch_s, key, c, latency);
        self.ring_1h.record(epoch_s, key, c, latency);
        self.seq = match self.seq.checked_add(1) {
            Some(n) => n,
            None => u64::MAX,
        };
    }

    /// Counts a finished flow.
    pub fn record_response(
        &mut self,
        status: FlowStatus,
        served_model: Option<&str>,
        endpoint: &str,
        upstream: Option<&str>,
        elapsed_ms: u128,
        epoch_s: u64,
    )
        requires
            old(self).contents().wf(),
        ensures
            final(self).contents() == old(self).contents().recorded(
                epoch_s,
                counts::flow_key(
                    status,
                    text::opt_str_view(served_model),
                    endpoint@,
                    text::opt_str_view(upstream),
                ),
                BucketCounts::of(1, None),
                Some(elapsed_ms),
            ),
            final(self).contents().wf(),
    {
        let key = BucketKey::of_flow(status, served_model, endpoint, upstream);
        self.record(epoch_s, &key, BucketCounts::of_flow(1, None), Some(elapsed_ms));
    }

    /// Counts the tokens of a finished flow.
    pub fn record_usage(
        &mut self,
        status: FlowStatus,
        served_model: Option<&str>,
        endpoint: &str,
        upstream: Option<&str>,
        usage: FlowUsage,
        epoch_s: u64,
    )
        requires
            old(self).contents().wf(),
        ensures
            final(self).contents() == old(self).contents().recorded(
                epoch_s,
                counts::flow_key(
                    status,
                    text::opt_str_view(served_model),
                    endpoint@,
                    text::opt_str_view(upstream),
                ),
                BucketCounts::of(0, Some(usage)),
                None,
            ),
            final(self).contents().wf(),
    {
        let key = BucketKey::of_flow(status, served_model, endpoint, upstream);
        self.record(epoch_s, &key, BucketCounts::of_flow(0, Some(usage)), None);
    }

    /// Counts a finished flow and its tokens at once.
    pub fn record_terminal(
        &mut self,
        status: FlowStatus,
        served_model: Option<&str>,
        endpoint: &str,
        upstream: Option<&str>,
        elapsed_ms: u128,
        usage: Option<FlowUsage>,
        epoch_s: u64,
    )
        requires
            old(self).contents().wf(),
        ensures
            final(self).contents() == old(self).contents().recorded(
                epoch_s,
                counts::flow_key(
                    status,
                    text::opt_str_view(served_model),
                    endpoint@,
                    text::opt_str_view(upstream),
                ),
                BucketCounts::of(1, usage),
                Some(elapsed_ms),
            ),
            final(self).contents().wf(),
    {
        let key = BucketKey::of_flow(status, served_model, endpoint, upstream);
        self.record(epoch_s, &key, BucketCounts::of_flow(1, usage), Some(elapsed_ms));
    }

    /// How often something was counted; never where the metrics are off.
    pub fn metrics_seq(&self) -> (r: u64)
        ensures
            r == if self.contents().enabled {
                self.contents().seq
            } else {
                0
            },
    {
        if self.enabled {
            self.seq
        } else {
            0
        }
    }

    fn windows(&self, now: u64) -> (r: MetricsView)
        requires
            self.contents().wf(),
        ensures
            is_view_at(r, self.contents(), now),
    {
        MetricsView {
            window_1m: self.ring_1m.aggregate(now),
            window_5m: self.ring_5m.aggregate(now),
            window_1h: self.ring_1h.aggregate(now),
        }
    }

    /// What is counted in the three windows that end with `now`; nothing where the
    /// metrics are off.
    pub fn view(&self, now: u64) -> (r: MetricsView)
        requires
            self.contents().wf(),
        ensures
            if self.contents().enabled {
                is_view_at(r, self.contents(), now)
            } else {
                &&& r.window_1m@ == ReportView::empty()
                &&& r.window_5m@ == ReportView::empty()
                &&& r.window_1h@ == ReportView::empty()
            },
    {
        if self.enabled {
            self.windows(now)
        } else {
            MetricsView {
                window_1m: WindowReport::new(),
                window_5m: WindowReport::new(),
                window_1h: WindowReport::new(),
            }
        }
    }

    /// Takes a snapshot at an instant at which the other stores stand as given; nothing
    /// where the metrics are off.
    pub fn snapshot_with_monitor_seq(
        &mut self,
        summaries: Vec<SnapshotFlowSummary>,
        flow_seq: u64,
        topology: TopologySnapshot,
        monitor_seq: u64,
        taken_at_ms: u128,
    ) -> (r: Option<&DashboardSnapshot>)
        requires
            old(self).contents().wf(),
        ensures
            final(self).contents().wf(),
            match r {
                Some(cut) => {
                    &&& old(self).contents().enabled
                    &&& cut.taken_at_ms == taken_at_ms
                    &&& cut.cursors == (DomainCursors {
                        flow_seq,
                        metrics_seq: old(self).contents().seq,
                        topology_seq: topology.version,
                        monitor_seq,
                    })
                    &&& cut.summaries == summaries
                    &&& cut.topology == topology
                    &&& is_view_at(cut.metrics, old(self).contents(), second_of(taken_at_ms))
                    &&& final(self).contents() == (LayerView {
                        snapshots: old(self).contents().snapshots.pushed(*cut),
                        ..old(self).contents()
                    })
                },
                None => !old(self).contents().enabled && final(self).contents() == old(self).contents(),
            },
    {
        if !self.enabled {
            return None;
        }
        let second: u64 = ((taken_at_ms / 1000) % 18446744073709551616) as u64;
        let cut = DashboardSnapshot {
            taken_at_ms,
            cursors: DomainCursors {
                flow_seq,
                metrics_seq: self.seq,
                topology_seq: topology.version,
                monitor_seq,
            },
            summaries,
            metrics: self.windows(second),
            topology,
        };
        proof {
            snapshots::law_snapshots_are_bounded(self.contents().snapshots, cut);
        }
        self.snapshots.push(cut);
        self.snapshots.latest()
    }

    /// Takes a snapshot where the monitor has not begun.
    pub fn snapshot(
        &mut self,
        summaries: Vec<SnapshotFlowSummary>,
        flow_seq: u64,
        topology: TopologySnapshot,
        taken_at_ms: u128,
    ) -> (r: Option<&DashboardSnapshot>)
        requires
            old(self).contents().wf(),
        ensures
            final(self).contents().wf(),
            match r {
                Some(cut) => {
                    &&& old(self).contents().enabled
                    &&& cut.taken_at_ms == taken_at_ms
                    &&& cut.cursors == (DomainCursors {
                        flow_seq,
                        metrics_seq: old(self).contents().seq,
                        topology_seq: topology.version,
                        monitor_seq: 0,
                    })
                    &&& cut.summaries == summaries
                    &&& cut.topology == topology
                    &&& is_view_at(cut.metrics, old(self).contents(), second_of(taken_at_ms))
                    &&& final(self).contents() == (LayerView {
                        snapshots: old(self).contents().snapshots.pushed(*cut),
                        ..old(self).contents()
                    })
                },
                None => !old(self).contents().enabled && final(self).contents() == old(self).contents(),
            },
    {
        self.snapshot_with_monitor_seq(summaries, flow_seq, topology, 0, taken_at_ms)
    }

    /// The bytes of the snapshots, as they were counted.
    pub fn retained_bytes(&self) -> (r: usize)
        ensures
            r == self.contents().snapshots.retained,
    {
        self.snapshots.retained_bytes()
    }

    /// The last snapshot that was taken at `ts` or before.
    pub fn snapshot_at(&self, ts: u128) -> (r: Option<&DashboardSnapshot>)
        ensures
            match r {
                Some(cut) => {
                    let cuts = self.contents().snapshots.cuts;
                    &&& self.contents().enabled
                    &&& cut.taken_at_ms <= ts
                    &&& cuts.contains(*cut)
                    &&& snapshots::in_order(cuts) ==> snapshots::nearest(
                        cuts,
                        ts,
                        cuts.len() as int,
                    ) >= 0 && *cut == cuts[snapshots::nearest(cuts, ts, cuts.len() as int)]
                },
                None => self.contents().enabled ==> {
                    let cuts = self.contents().snapshots.cuts;
                    &&& cuts.len() > 0 ==> cuts[0].taken_at_ms > ts
                    &&& snapshots::in_order(cuts) ==> snapshots::nearest(
                        cuts,
                        ts,
                        cuts.len() as int,
                    ) == -1
                },
            },
    {
        if self.enabled {
            self.snapshots.snapshot_at(ts)
        } else {
            None
        }
    }

    /// The newest snapshot.
    pub fn latest_snapshot(&self) -> (r: Option<&DashboardSnapshot>)
        ensures
            match r {
                Some(cut) => self.contents().enabled && self.contents().snapshots.cuts.len() > 0 && *cut
                    == self.contents().snapshots.cuts.last(),
                None => self.contents().enabled ==> self.contents().snapshots.cuts.len() == 0,
            },
    {
        if self.enabled {
            self.snapshots.latest()
        } else {
            None
        }
    }
}

impl Default for MetricsLayer {
    fn default() -> (r: Self)
        ensures
            r.contents() == LayerView::fresh(true, snapshots::DEFAULT_SNAPSHOT_QUOTA_BYTES),
            r.contents().wf(),
    {
        MetricsLayer::new()
    }
}

/// Metrics that are off never change.
pub proof fn law_disabled_metrics_never_change(
    v: LayerView,
    epoch_s: u64,
    key: KeyView,
    c: BucketCounts,
    latency: Option<u128>,
)
    requires
        !v.enabled,
    ensures
        v.recorded(epoch_s, key, c, latency) == v,
{
}

/// A finished flow and its tokens, counted at once, are counted as if one after the other
/// in the same second, but for the number of times that something was counted.
pub proof fn law_terminal_is_response_and_usage(
    v: LayerView,
    epoch_s: u64,
    key: KeyView,
    usage: FlowUsage,
    latency: u128,
)
    requires
        v.enabled,
        v.wf(),
        v.seq < u64::MAX - 1,
    ensures
        ({
            let at_once = v.recorded(epoch_s, key, BucketCounts::of(1, Some(usage)), Some(latency));
            let apart = v.recorded(
                epoch_s,
                key,
                BucketCounts::of(1, None),
                Some(latency),
            ).recorded(epoch_s, key, BucketCounts::of(0, Some(usage)), None);
            &&& at_once.seq == v.seq + 1
            &&& apart.seq == v.seq + 2
            &&& at_once.minute == apart.minute
            &&& at_once.five_minutes == apart.five_minutes
            &&& at_once.hour == apart.hour
        }),
{
    lemma_at_once(v.minute, epoch_s, key, usage, latency);
    lemma_at_once(v.five_minutes, epoch_s, key, usage, latency);
    lemma_at_once(v.hour, epoch_s, key, usage, latency);
}

proof fn lemma_at_once(
    ring: Seq<SlotView>,
    epoch_s: u64,
    key: KeyView,
    usage: FlowUsage,
    latency: u128,
)
    requires
        window::ring_wf(ring),
    ensures
        window::recorded(ring, epoch_s, key, BucketCounts::of(1, Some(usage)), Some(latency))
            == window::recorded(
            window::recorded(ring, epoch_s, key, BucketCounts::of(1, None), Some(latency)),
            epoch_s,
            key,
            BucketCounts::of(0, Some(usage)),
            None,
        ),
{
    let i = epoch_s as int % ring.len() as int;
    assert(0 <= i < ring.len());
    let m = window::slot_for(ring, epoch_s).report.buckets;
    counts::lemma_added_twice(
        m,
        key,
        BucketCounts::of(1, None),
        BucketCounts::of(0, Some(usage)),
        BucketCounts::of(1, Some(usage)),
        0,
    );
    let one = window::recorded(ring, epoch_s, key, BucketCounts::of(1, None), Some(latency));
    assert(one[i].epoch_s == epoch_s);
    let at_once = window::recorded(
        ring,
        epoch_s,
        key,
        BucketCounts::of(1, Some(usage)),
        Some(latency),
    );
    let apart = window::recorded(one, epoch_s, key, BucketCounts::of(0, Some(usage)), None);
    assert(at_once =~= apart);
}

} // verus!
