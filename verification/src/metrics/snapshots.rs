//! The bounded store of snapshots: at most an hour of them, and at most so many bytes, the
//! oldest leaving first.
use vstd::prelude::*;

use crate::metrics::counts::BucketCounts;
use crate::metrics::counts::BucketKey;
use crate::metrics::counts::FlowStatus;
use crate::metrics::window::WindowReport;

verus! {

/// How many snapshots are kept: one every five seconds for an hour.
pub const SNAPSHOT_RING_SLOTS: usize = 720;

/// How many bytes of snapshots are kept.
pub const DEFAULT_SNAPSHOT_QUOTA_BYTES: usize = 419430400;

/// The bytes of a histogram: thirty counts and their sum.
pub const HISTOGRAM_BYTES: usize = 248;

/// What a snapshot says of a flow. It holds no body.
#[derive(Debug, Clone)]
pub struct SnapshotFlowSummary {
    /// Id of the call.
    pub api_call_id: String,
    /// Id of the response.
    pub response_id: Option<String>,
    /// Method of the request.
    pub method: String,
    /// Path of the request.
    pub uri: String,
    /// The model that was asked for.
    pub model_requested: Option<String>,
    /// The model that answered.
    pub model_served: Option<String>,
    /// The upstream that answered.
    pub upstream_target: Option<String>,
    /// Why the flow ended.
    pub terminal_reason: Option<String>,
    /// How the flow stands.
    pub status: FlowStatus,
    /// When the flow started.
    pub started_ms: u128,
}

/// Where each store stood when a snapshot was taken.
#[derive(Debug, Clone, Copy, PartialEq, Eq, Structural)]
pub struct DomainCursors {
    /// The store of flows.
    pub flow_seq: u64,
    /// The metrics.
    pub metrics_seq: u64,
    /// The topology.
    pub topology_seq: u64,
    /// The monitor.
    pub monitor_seq: u64,
}

/// What is counted in the three windows.
#[derive(Debug, Clone)]
pub struct MetricsView {
    /// The last minute.
    pub window_1m: WindowReport,
    /// The last five minutes.
    pub window_5m: WindowReport,
    /// The last hour.
    pub window_1h: WindowReport,
}

/// The health of the upstreams when a snapshot was taken.
#[derive(Debug, Clone)]
pub struct TopologySnapshot {
    /// Its version.
    pub version: u64,
    /// Its JSON text.
    pub text: String,
    /// How many bytes it counts for.
    pub bytes: usize,
}

/// A cut through all stores at one instant.
#[derive(Debug, Clone)]
pub struct DashboardSnapshot {
    /// When it was taken.
    pub taken_at_ms: u128,
    /// Where each store stood.
    pub cursors: DomainCursors,
    /// The flows.
    pub summaries: Vec<SnapshotFlowSummary>,
    /// The metrics.
    pub metrics: MetricsView,
    /// The health of the upstreams.
    pub topology: TopologySnapshot,
}

// --- Sizes -------------------------------------------------------------------------------------

/// A number of bytes, as far as the type goes.
pub open spec fn clamp(n: int) -> usize {
    if n > usize::MAX {
        usize::MAX
    } else {
        n as usize
    }
}

fn plus(a: usize, b: usize) -> (r: usize)
    ensures
        r == clamp(a + b),
{
    a.saturating_add(b)
}

/// The bytes of a text.
pub open spec fn text_bytes(t: String) -> int {
    vstd::utf8::encode_utf8(t@).len() as int
}

/// The bytes of a text, none where there is no text.
pub open spec fn opt_bytes(t: Option<String>) -> int {
    match t {
        Some(t) => text_bytes(t),
        None => 0,
    }
}

fn opt_len(t: &Option<String>) -> (r: usize)
    ensures
        r == opt_bytes(*t),
{
    match t {
        Some(t) => t.as_str().as_bytes().len(),
        None => 0,
    }
}

/// The bytes of what a snapshot says of a flow.
pub open spec fn summary_bytes(s: SnapshotFlowSummary) -> int {
    vstd::layout::size_of::<SnapshotFlowSummary>() + text_bytes(s.api_call_id) + opt_bytes(
        s.response_id,
    ) + text_bytes(s.method) + text_bytes(s.uri) + opt_bytes(s.model_requested) + opt_bytes(
        s.model_served,
    ) + opt_bytes(s.upstream_target) + opt_bytes(s.terminal_reason)
}

/// The bytes of the first `n` summaries.
pub open spec fn summaries_bytes(s: Seq<SnapshotFlowSummary>, n: int) -> int
    decreases n,
{
    if n <= 0 || n > s.len() {
        0
    } else {
        summaries_bytes(s, n - 1) + summary_bytes(s[n - 1])
    }
}

/// The bytes of the first `n` counts.
pub open spec fn entries_bytes(e: Seq<(BucketKey, BucketCounts)>, n: int) -> int
    decreases n,
{
    if n <= 0 || n > e.len() {
        0
    } else {
        entries_bytes(e, n - 1) + text_bytes(e[n - 1].0.model) + text_bytes(e[n - 1].0.endpoint)
            + text_bytes(e[n - 1].0.upstream) + vstd::layout::size_of::<BucketKey>()
            + vstd::layout::size_of::<BucketCounts>()
    }
}

/// The bytes of what is counted in a window.
pub open spec fn window_bytes(w: WindowReport) -> int {
    HISTOGRAM_BYTES + entries_bytes(
        w.buckets.entries@,
        w.buckets.entries@.len() as int,
    )
}

/// The bytes of what is counted in the three windows.
pub open spec fn metrics_bytes(m: MetricsView) -> int {
    window_bytes(m.window_1m) + window_bytes(m.window_5m) + window_bytes(m.window_1h)
}

/// The bytes of a snapshot, as far as the type goes.
pub open spec fn snapshot_bytes(s: DashboardSnapshot) -> usize {
    clamp(
        summaries_bytes(s.summaries@, s.summaries@.len() as int) + metrics_bytes(s.metrics)
            + s.topology.bytes,
    )
}

proof fn lemma_summaries_bytes(s: Seq<SnapshotFlowSummary>, n: int)
    ensures
        summaries_bytes(s, n) >= 0,
    decreases n,
{
    if 0 < n <= s.len() {
        lemma_summaries_bytes(s, n - 1);
    }
}

proof fn lemma_entries_bytes(e: Seq<(BucketKey, BucketCounts)>, n: int)
    ensures
        entries_bytes(e, n) >= 0,
    decreases n,
{
    if 0 < n <= e.len() {
        lemma_entries_bytes(e, n - 1);
    }
}

/// The bytes of what a snapshot says of a flow, as far as the type goes.
pub fn summary_approx_bytes(s: &SnapshotFlowSummary) -> (r: usize)
    ensures
        r == clamp(summary_bytes(*s)),
{
    let fixed = core::mem::size_of::<SnapshotFlowSummary>();
    let a = plus(fixed, s.api_call_id.as_str().as_bytes().len());
    let b = plus(a, opt_len(&s.response_id));
    let c = plus(b, s.method.as_str().as_bytes().len());
    let d = plus(c, s.uri.as_str().as_bytes().len());
    let e = plus(d, opt_len(&s.model_requested));
    let f = plus(e, opt_len(&s.model_served));
    let g = plus(f, opt_len(&s.upstream_target));
    plus(g, opt_len(&s.terminal_reason))
}

fn window_approx_bytes(w: &WindowReport) -> (r: usize)
    ensures
        r == clamp(window_bytes(*w)),
{
    let entries = &w.buckets.entries;
    let mut total: usize = HISTOGRAM_BYTES;
    let mut i: usize = 0;
    while i < entries.len()
        invariant
            entries == w.buckets.entries,
            i <= entries@.len(),
            total == clamp(HISTOGRAM_BYTES + entries_bytes(entries@, i as int)),
        decreases entries@.len() - i,
    {
        let key = &entries[i].0;
        proof {
            lemma_entries_bytes(entries@, i as int);
        }
        let a = plus(total, key.model.as_str().as_bytes().len());
        let b = plus(a, key.endpoint.as_str().as_bytes().len());
        let c = plus(b, key.upstream.as_str().as_bytes().len());
        let d = plus(c, core::mem::size_of::<BucketKey>());
        total = plus(d, core::mem::size_of::<BucketCounts>());
        i += 1;
    }
    total
}

impl DashboardSnapshot {
    /// The bytes of the snapshot, as far as the type goes.
    pub fn approx_bytes(&self) -> (r: usize)
        ensures
            r == snapshot_bytes(*self),
    {
        let mut total: usize = 0;
        let mut i: usize = 0;
        while i < self.summaries.len()
            invariant
                i <= self.summaries@.len(),
                total == clamp(summaries_bytes(self.summaries@, i as int)),
            decreases self.summaries@.len() - i,
        {
            proof {
                lemma_summaries_bytes(self.summaries@, i as int);
            }
            total = plus(total, summary_approx_bytes(&self.summaries[i]));
            i += 1;
        }
        proof {
            lemma_summaries_bytes(self.summaries@, i as int);
            let m = self.metrics;
            lemma_entries_bytes(
                m.window_1m.buckets.entries@,
                m.window_1m.buckets.entries@.len() as int,
            );
            lemma_entries_bytes(
                m.window_5m.buckets.entries@,
                m.window_5m.buckets.entries@.len() as int,
            );
            lemma_entries_bytes(
                m.window_1h.buckets.entries@,
                m.window_1h.buckets.entries@.len() as int,
            );
        }
        let a = plus(total, window_approx_bytes(&self.metrics.window_1m));
        let b = plus(a, window_approx_bytes(&self.metrics.window_5m));
        let c = plus(b, window_approx_bytes(&self.metrics.window_1h));
        plus(c, self.topology.bytes)
    }
}

// --- The ring ----------------------------------------------------------------------------------

/// The contents of a [`SnapshotRing`].
pub struct RingView {
    /// The snapshots, the oldest first.
    pub cuts: Seq<DashboardSnapshot>,
    /// Their bytes, as they were counted.
    pub retained: usize,
    /// How many bytes are kept.
    pub quota: usize,
}

impl RingView {
    /// The ring without the oldest snapshot.
    pub open spec fn popped(self) -> RingView {
        let size = snapshot_bytes(self.cuts[0]);
        RingView {
            cuts: self.cuts.skip(1),
            retained: if size > self.retained {
                0
            } else {
                (self.retained - size) as usize
            },
            ..self
        }
    }

    /// The ring without the oldest, until there are no more than may be kept.
    pub open spec fn within_slots(self) -> RingView
        decreases self.cuts.len(),
    {
        if self.cuts.len() > SNAPSHOT_RING_SLOTS {
            self.popped().within_slots()
        } else {
            self
        }
    }

    /// The ring without the oldest, until the bytes fit or one snapshot is left.
    pub open spec fn within_quota(self) -> RingView
        decreases self.cuts.len(),
    {
        if self.retained > self.quota && self.cuts.len() > 1 {
            self.popped().within_quota()
        } else {
            self
        }
    }

    /// The ring with a new snapshot.
    pub open spec fn pushed(self, cut: DashboardSnapshot) -> RingView {
        RingView {
            cuts: self.cuts.push(cut),
            retained: clamp(self.retained + snapshot_bytes(cut)),
            ..self
        }.within_slots().within_quota()
    }
}

/// The snapshots are in the order in which they were taken.
pub open spec fn in_order(cuts: Seq<DashboardSnapshot>) -> bool {
    forall|i: int, j: int|
        0 <= i < j < cuts.len() ==> (#[trigger] cuts[i]).taken_at_ms <= (
        #[trigger] cuts[j]).taken_at_ms
}

/// The index of the last of the first `n` snapshots that was taken at `ts` or before; -1
/// where there is none.
pub open spec fn nearest(cuts: Seq<DashboardSnapshot>, ts: u128, n: int) -> int
    decreases n,
{
    if n <= 0 || n > cuts.len() {
        -1
    } else if cuts[n - 1].taken_at_ms <= ts {
        n - 1
    } else {
        nearest(cuts, ts, n - 1)
    }
}

/// The store of snapshots.
#[derive(Debug)]
pub struct SnapshotRing {
    cuts: Vec<DashboardSnapshot>,
    retained_bytes: usize,
    quota_bytes: usize,
}

impl View for SnapshotRing {
    type V = RingView;

    closed spec fn view(&self) -> RingView {
        RingView {
            cuts: self.cuts@,
            retained: self.retained_bytes,
            quota: self.quota_bytes,
        }
    }
}

impl SnapshotRing {
    /// No snapshots.
    pub fn new(quota_bytes: usize) -> (r: Self)
        ensures
            r@ == (RingView { cuts: Seq::empty(), retained: 0, quota: quota_bytes }),
    {
        SnapshotRing { cuts: Vec::new(), retained_bytes: 0, quota_bytes }
    }

    /// The bytes of the snapshots, as they were counted.
    pub fn retained_bytes(&self) -> (r: usize)
        ensures
            r == self@.retained,
    {
        self.retained_bytes
    }

    /// How many snapshots there are.
    pub fn len(&self) -> (r: usize)
        ensures
            r == self@.cuts.len(),
    {
        self.cuts.len()
    }

    fn pop_oldest(&mut self)
        requires
            old(self)@.cuts.len() > 0,
        ensures
            final(self)@ == old(self)@.popped(),
    {
        let gone = self.cuts.remove(0);
        self.retained_bytes = self.retained_bytes.saturating_sub(gone.approx_bytes());
        assert(self.cuts@ =~= old(self).cuts@.skip(1));
    }

    /// Keeps a new snapshot, and drops the oldest until the rest fits.
    pub fn push(&mut self, cut: DashboardSnapshot)
        ensures
            final(self)@ == old(self)@.pushed(cut),
    {
        self.retained_bytes = plus(self.retained_bytes, cut.approx_bytes());
        self.cuts.push(cut);
        let ghost start = self@;
        while self.cuts.len() > SNAPSHOT_RING_SLOTS
            invariant
                self@.within_slots() == start.within_slots(),
            decreases self@.cuts.len(),
        {
            self.pop_oldest();
        }
        let ghost middle = self@;
        while self.retained_bytes > self.quota_bytes && self.cuts.len() > 1
            invariant
                self@.within_quota() == middle.within_quota(),
            decreases self@.cuts.len(),
        {
            self.pop_oldest();
        }
    }

    fn index_at(&self, ts: u128) -> (r: Option<usize>)
        ensures
            match r {
                Some(i) => {
                    &&& i < self@.cuts.len()
                    &&& self@.cuts[i as int].taken_at_ms <= ts
                    &&& i + 1 < self@.cuts.len() ==> self@.cuts[i + 1].taken_at_ms > ts
                },
                None => self@.cuts.len() > 0 ==> self@.cuts[0].taken_at_ms > ts,
            },
    {
        let mut lo: usize = 0;
        let mut hi: usize = self.cuts.len();
        while lo < hi
            invariant
                lo <= hi <= self.cuts@.len(),
                lo > 0 ==> self.cuts@[lo - 1].taken_at_ms <= ts,
                hi < self.cuts@.len() ==> self.cuts@[hi as int].taken_at_ms > ts,
            decreases hi - lo,
        {
            let mid: usize = lo + (hi - lo) / 2;
            if self.cuts[mid].taken_at_ms <= ts {
                lo = mid + 1;
            } else {
                hi = mid;
            }
        }
        if lo == 0 {
            None
        } else {
            Some(lo - 1)
        }
    }

    /// A snapshot that was taken at `ts` or before, and after which none or a later one
    /// follows; of snapshots in order, the last one that was taken by then.
    pub fn snapshot_at(&self, ts: u128) -> (r: Option<&DashboardSnapshot>)
        ensures
            match r {
                Some(cut) => {
                    &&& cut.taken_at_ms <= ts
                    &&& self@.cuts.contains(*cut)
                    &&& in_order(self@.cuts) ==> nearest(self@.cuts, ts, self@.cuts.len() as int)
                        >= 0 && *cut == self@.cuts[nearest(
                        self@.cuts,
                        ts,
                        self@.cuts.len() as int,
                    )]
                },
                None => {
                    &&& self@.cuts.len() > 0 ==> self@.cuts[0].taken_at_ms > ts
                    &&& in_order(self@.cuts) ==> nearest(self@.cuts, ts, self@.cuts.len() as int)
                        == -1
                },
            },
    {
        match self.index_at(ts) {
            Some(i) => {
                proof {
                    if in_order(self@.cuts) {
                        lemma_nearest(self@.cuts, ts, i as int, self@.cuts.len() as int);
                    }
                    assert(self@.cuts[i as int] == self.cuts@[i as int]);
                }
                Some(&self.cuts[i])
            },
            None => {
                proof {
                    if in_order(self@.cuts) {
                        lemma_nearest(self@.cuts, ts, -1, self@.cuts.len() as int);
                    }
                }
                None
            },
        }
    }

    /// The newest snapshot.
    pub fn latest(&self) -> (r: Option<&DashboardSnapshot>)
        ensures
            match r {
                Some(cut) => self@.cuts.len() > 0 && *cut == self@.cuts.last(),
                None => self@.cuts.len() == 0,
            },
    {
        if self.cuts.len() == 0 {
            None
        } else {
            Some(&self.cuts[self.cuts.len() - 1])
        }
    }
}

proof fn lemma_nearest(cuts: Seq<DashboardSnapshot>, ts: u128, i: int, n: int)
    requires
        in_order(cuts),
        -1 <= i < n <= cuts.len() || (i == -1 && n == 0),
        i >= 0 ==> cuts[i].taken_at_ms <= ts,
        i + 1 < cuts.len() ==> cuts[i + 1].taken_at_ms > ts,
    ensures
        nearest(cuts, ts, n) == i,
    decreases n,
{
    if n > 0 && n - 1 > i {
        if n - 1 > i + 1 {
            assert(cuts[i + 1].taken_at_ms <= cuts[n - 1].taken_at_ms);
        }
        lemma_nearest(cuts, ts, i, n - 1);
    }
}

// --- Laws --------------------------------------------------------------------------------------

proof fn lemma_within_slots(v: RingView)
    ensures
        v.within_slots().cuts.len() <= SNAPSHOT_RING_SLOTS,
        v.within_slots().quota == v.quota,
        v.within_slots().cuts.len() <= v.cuts.len(),
        v.within_slots().cuts == v.cuts.skip(v.cuts.len() - v.within_slots().cuts.len()),
        v.cuts.len() > 0 ==> v.within_slots().cuts.len() > 0,
    decreases v.cuts.len(),
{
    if v.cuts.len() > SNAPSHOT_RING_SLOTS {
        lemma_within_slots(v.popped());
        let out = v.popped().within_slots().cuts;
        assert(v.cuts.skip(1).skip(v.cuts.len() - 1 - out.len()) =~= v.cuts.skip(
            v.cuts.len() - out.len(),
        ));
    } else {
        assert(v.cuts.skip(0) =~= v.cuts);
    }
}

proof fn lemma_within_quota(v: RingView)
    ensures
        v.within_quota().retained <= v.quota || v.within_quota().cuts.len() <= 1,
        v.within_quota().quota == v.quota,
        v.within_quota().cuts.len() <= v.cuts.len(),
        v.within_quota().cuts == v.cuts.skip(v.cuts.len() - v.within_quota().cuts.len()),
        v.cuts.len() > 0 ==> v.within_quota().cuts.len() > 0,
    decreases v.cuts.len(),
{
    if v.retained > v.quota && v.cuts.len() > 1 {
        lemma_within_quota(v.popped());
        let out = v.popped().within_quota().cuts;
        assert(v.cuts.skip(1).skip(v.cuts.len() - 1 - out.len()) =~= v.cuts.skip(
            v.cuts.len() - out.len(),
        ));
    } else {
        assert(v.cuts.skip(0) =~= v.cuts);
    }
}

/// There are never more snapshots than may be kept, nor more bytes, but for a single
/// snapshot that is too large by itself. The newest is always there, and those that left
/// are the oldest.
pub proof fn law_snapshots_are_bounded(v: RingView, cut: DashboardSnapshot)
    ensures
        v.pushed(cut).cuts.len() <= SNAPSHOT_RING_SLOTS,
        v.pushed(cut).retained <= v.quota || v.pushed(cut).cuts.len() == 1,
        v.pushed(cut).quota == v.quota,
        0 < v.pushed(cut).cuts.len() <= v.cuts.len() + 1,
        v.pushed(cut).cuts.last() == cut,
        v.pushed(cut).cuts == v.cuts.push(cut).skip(v.cuts.len() + 1 - v.pushed(cut).cuts.len()),
{
    let start = RingView {
        cuts: v.cuts.push(cut),
        retained: clamp(v.retained + snapshot_bytes(cut)),
        ..v
    };
    lemma_within_slots(start);
    let middle = start.within_slots();
    lemma_within_quota(middle);
    let out = middle.within_quota().cuts;
    let a = start.cuts.len() - middle.cuts.len();
    let b = middle.cuts.len() - out.len();
    assert(start.cuts.skip(a).skip(b) =~= start.cuts.skip(a + b));
    assert(out.last() == start.cuts.last());
}

proof fn lemma_push_in_order(cuts: Seq<DashboardSnapshot>, cut: DashboardSnapshot)
    requires
        in_order(cuts),
        cuts.len() > 0 ==> cuts.last().taken_at_ms <= cut.taken_at_ms,
    ensures
        in_order(cuts.push(cut)),
{
    let all = cuts.push(cut);
    assert forall|i: int, j: int| 0 <= i < j < all.len() implies (#[trigger] all[i]).taken_at_ms
        <= (#[trigger] all[j]).taken_at_ms by {
        assert(all[i] == cuts[i]);
        if j == cuts.len() {
            if i < cuts.len() - 1 {
                assert(cuts[i].taken_at_ms <= cuts[cuts.len() - 1].taken_at_ms);
            }
        } else {
            assert(cuts[i].taken_at_ms <= cuts[j].taken_at_ms);
        }
    }
}

proof fn lemma_skip_in_order(cuts: Seq<DashboardSnapshot>, gone: int)
    requires
        in_order(cuts),
        0 <= gone <= cuts.len(),
    ensures
        in_order(cuts.skip(gone)),
{
    let left = cuts.skip(gone);
    assert forall|i: int, j: int| 0 <= i < j < left.len() implies (#[trigger] left[i]).taken_at_ms
        <= (#[trigger] left[j]).taken_at_ms by {
        assert(cuts[i + gone].taken_at_ms <= cuts[j + gone].taken_at_ms);
    }
}

/// Snapshots that are taken one after the other stay in order.
pub proof fn law_snapshots_stay_in_order(v: RingView, cut: DashboardSnapshot)
    requires
        in_order(v.cuts),
        v.cuts.len() > 0 ==> v.cuts.last().taken_at_ms <= cut.taken_at_ms,
    ensures
        in_order(v.pushed(cut).cuts),
{
    law_snapshots_are_bounded(v, cut);
    lemma_push_in_order(v.cuts, cut);
    lemma_skip_in_order(v.cuts.push(cut), v.cuts.len() + 1 - v.pushed(cut).cuts.len());
}

/// The bytes of all snapshots.
pub open spec fn total_bytes(cuts: Seq<DashboardSnapshot>) -> int
    decreases cuts.len(),
{
    if cuts.len() == 0 {
        0
    } else {
        snapshot_bytes(cuts[0]) + total_bytes(cuts.skip(1))
    }
}

proof fn lemma_total_push(cuts: Seq<DashboardSnapshot>, cut: DashboardSnapshot)
    ensures
        total_bytes(cuts.push(cut)) == total_bytes(cuts) + snapshot_bytes(cut),
    decreases cuts.len(),
{
    if cuts.len() > 0 {
        lemma_total_push(cuts.skip(1), cut);
        assert(cuts.push(cut).skip(1) =~= cuts.skip(1).push(cut));
    } else {
        assert(cuts.push(cut).skip(1) =~= Seq::empty());
        assert(total_bytes(cuts.push(cut).skip(1)) == 0);
    }
}

proof fn lemma_total_not_negative(cuts: Seq<DashboardSnapshot>)
    ensures
        total_bytes(cuts) >= 0,
    decreases cuts.len(),
{
    if cuts.len() > 0 {
        lemma_total_not_negative(cuts.skip(1));
    }
}

proof fn lemma_slots_count_right(v: RingView)
    requires
        v.retained == total_bytes(v.cuts),
    ensures
        v.within_slots().retained == total_bytes(v.within_slots().cuts),
    decreases v.cuts.len(),
{
    if v.cuts.len() > SNAPSHOT_RING_SLOTS {
        lemma_total_not_negative(v.cuts.skip(1));
        lemma_slots_count_right(v.popped());
    }
}

proof fn lemma_quota_count_right(v: RingView)
    requires
        v.retained == total_bytes(v.cuts),
    ensures
        v.within_quota().retained == total_bytes(v.within_quota().cuts),
    decreases v.cuts.len(),
{
    if v.retained > v.quota && v.cuts.len() > 1 {
        lemma_total_not_negative(v.cuts.skip(1));
        lemma_quota_count_right(v.popped());
    }
}

/// The bytes that are counted are those of the snapshots, as long as they can be counted.
pub proof fn law_retained_bytes_are_right(v: RingView, cut: DashboardSnapshot)
    requires
        v.retained == total_bytes(v.cuts),
        v.retained + snapshot_bytes(cut) <= usize::MAX,
    ensures
        v.pushed(cut).retained == total_bytes(v.pushed(cut).cuts),
{
    lemma_total_push(v.cuts, cut);
    let start = RingView {
        cuts: v.cuts.push(cut),
        retained: clamp(v.retained + snapshot_bytes(cut)),
        ..v
    };
    lemma_slots_count_right(start);
    lemma_quota_count_right(start.within_slots());
}

} // verus!
