//! A window of time: a ring with a slot for each second, of which only those count that
//! belong to the window.
use vstd::prelude::*;

use crate::metrics::counts;
use crate::metrics::counts::BucketCounts;
use crate::metrics::counts::BucketKey;
use crate::metrics::counts::Buckets;
use crate::metrics::counts::KeyView;
use crate::metrics::histogram::Histogram;
use crate::metrics::histogram::HistogramView;
use crate::metrics::histogram::QuantilePlace;

verus! {

/// What a second, or a window, holds.
pub struct ReportView {
    /// Counts by key.
    pub buckets: Seq<(KeyView, BucketCounts)>,
    /// Latencies.
    pub histogram: HistogramView,
}

impl ReportView {
    /// Nothing.
    pub open spec fn empty() -> ReportView {
        ReportView { buckets: Seq::empty(), histogram: HistogramView::empty() }
    }

    /// Its parts are well formed.
    pub open spec fn wf(self) -> bool {
        self.histogram.wf() && counts::keys_ascend(self.buckets)
    }

    /// With counts under a key, and a latency where there is one.
    pub open spec fn recorded(
        self,
        key: KeyView,
        c: BucketCounts,
        latency: Option<u128>,
    ) -> ReportView {
        ReportView {
            buckets: counts::added(self.buckets, key, c),
            histogram: match latency {
                Some(ms) => self.histogram.recorded(ms as int),
                None => self.histogram,
            },
        }
    }

    /// Both together.
    pub open spec fn merged(self, other: ReportView) -> ReportView {
        ReportView {
            buckets: counts::added_all(self.buckets, other.buckets, other.buckets.len() as int),
            histogram: self.histogram.merged(other.histogram),
        }
    }
}

/// What is counted in a window.
#[derive(Debug, Clone)]
pub struct WindowReport {
    /// Counts by key.
    pub buckets: Buckets,
    /// Latencies.
    pub histogram: Histogram,
}

impl View for WindowReport {
    type V = ReportView;

    open spec fn view(&self) -> ReportView {
        ReportView { buckets: self.buckets@, histogram: self.histogram@ }
    }
}

impl WindowReport {
    /// Nothing.
    pub fn new() -> (r: Self)
        ensures
            r@ == ReportView::empty(),
            r@.wf(),
    {
        WindowReport { buckets: Buckets::new(), histogram: Histogram::new() }
    }

    /// The requests in the window.
    pub fn total_count(&self) -> (r: u64)
        ensures
            r == counts::requests(self@.buckets, self@.buckets.len() as int),
    {
        self.buckets.total_count()
    }

    /// The places of the median and of the quantiles of 95 and 99 percent.
    pub fn percentile_places(&self) -> (r: (QuantilePlace, QuantilePlace, QuantilePlace))
        requires
            self@.wf(),
        ensures
            r.0 == self@.histogram.place(50),
            r.1 == self@.histogram.place(95),
            r.2 == self@.histogram.place(99),
    {
        (
            self.histogram.quantile_place(50),
            self.histogram.quantile_place(95),
            self.histogram.quantile_place(99),
        )
    }
}

/// One second of a window.
#[derive(Debug, Clone)]
pub struct Slot {
    /// The second since the epoch that it holds.
    pub epoch_s: u64,
    /// What it holds.
    pub report: WindowReport,
}

/// The contents of a [`Slot`].
pub struct SlotView {
    /// The second since the epoch that it holds.
    pub epoch_s: u64,
    /// What it holds.
    pub report: ReportView,
}

impl View for Slot {
    type V = SlotView;

    open spec fn view(&self) -> SlotView {
        SlotView { epoch_s: self.epoch_s, report: self.report@ }
    }
}

/// The slot for a second: the one that is there, or an empty one in the place of an
/// older one.
pub open spec fn slot_for(ring: Seq<SlotView>, epoch_s: u64) -> SlotView {
    let slot = ring[epoch_s as int % ring.len() as int];
    if slot.epoch_s == epoch_s {
        slot
    } else {
        SlotView { epoch_s, report: ReportView::empty() }
    }
}

/// The ring with counts, and a latency where there is one, in the slot for a second.
pub open spec fn recorded(
    ring: Seq<SlotView>,
    epoch_s: u64,
    key: KeyView,
    c: BucketCounts,
    latency: Option<u128>,
) -> Seq<SlotView> {
    let slot = slot_for(ring, epoch_s);
    ring.update(
        epoch_s as int % ring.len() as int,
        SlotView { epoch_s, report: slot.report.recorded(key, c, latency) },
    )
}

/// Whether a slot belongs to a window of `len` seconds that ends with `now`.
pub open spec fn in_window(slot: SlotView, len: int, now: u64) -> bool {
    now - slot.epoch_s < len && slot.epoch_s <= now
}

/// What those of the first `n` slots that belong to the window hold.
pub open spec fn report_of(ring: Seq<SlotView>, now: u64, n: int) -> ReportView
    decreases n,
{
    if n <= 0 || n > ring.len() {
        ReportView::empty()
    } else if in_window(ring[n - 1], ring.len() as int, now) {
        report_of(ring, now, n - 1).merged(ring[n - 1].report)
    } else {
        report_of(ring, now, n - 1)
    }
}

/// A ring with a slot for each second of a window.
#[derive(Debug, Clone)]
pub struct WindowRing {
    slots: Vec<Slot>,
}

impl View for WindowRing {
    type V = Seq<SlotView>;

    closed spec fn view(&self) -> Seq<SlotView> {
        self.slots@.map_values(|s: Slot| s@)
    }
}

/// There is a slot, and every slot is well formed.
pub open spec fn ring_wf(ring: Seq<SlotView>) -> bool {
    ring.len() > 0 && forall|i: int| 0 <= i < ring.len() ==> (#[trigger] ring[i]).report.wf()
}

/// A ring of empty slots.
pub open spec fn empty_ring(len: nat) -> Seq<SlotView> {
    Seq::new(len, |i: int| SlotView { epoch_s: 0, report: ReportView::empty() })
}

impl WindowRing {
    /// An empty window of `len` seconds.
    pub fn new(len: usize) -> (r: Self)
        requires
            len > 0,
        ensures
            r@ == empty_ring(len as nat),
            ring_wf(r@),
    {
        let mut slots: Vec<Slot> = Vec::new();
        while slots.len() < len
            invariant
                slots@.len() <= len,
                forall|k: int|
                    0 <= k < slots@.len() ==> (#[trigger] slots@[k])@ == (SlotView {
                        epoch_s: 0,
                        report: ReportView::empty(),
                    }),
            decreases len - slots@.len(),
        {
            slots.push(Slot { epoch_s: 0, report: WindowReport::new() });
        }
        let r = WindowRing { slots };
        assert(r@ =~= empty_ring(len as nat));
        r
    }

    /// Adds counts, and a latency where there is one, in the slot for a second.
    pub fn record(
        &mut self,
        epoch_s: u64,
        key: &BucketKey,
        c: BucketCounts,
        latency: Option<u128>,
    )
        requires
            ring_wf(old(self)@),
        ensures
            final(self)@ == recorded(old(self)@, epoch_s, key@, c, latency),
            ring_wf(final(self)@),
    {
        let ghost before = self@;
        let len: u64 = self.slots.len() as u64;
        let index: usize = (epoch_s % len) as usize;
        assert(before[index as int] == self.slots@[index as int]@);
        let ghost fresh = slot_for(before, epoch_s);
        let mut report = if self.slots[index].epoch_s == epoch_s {
            let mut taken = WindowReport::new();
            std::mem::swap(&mut taken, &mut self.slots[index].report);
            taken
        } else {
            WindowReport::new()
        };
        assert(report@ == fresh.report);
        proof {
            counts::law_keys_stay_ascending(report@.buckets, key@, c);
        }
        report.buckets.add(key, c);
        if let Some(ms) = latency {
            report.histogram.record(ms);
        }
        self.slots.set(index, Slot { epoch_s, report });
        assert(self@ =~= recorded(before, epoch_s, key@, c, latency));
    }

    /// What the window that ends with `now` holds.
    pub fn aggregate(&self, now: u64) -> (r: WindowReport)
        requires
            ring_wf(self@),
        ensures
            r@ == report_of(self@, now, self@.len() as int),
            r@.wf(),
    {
        let len: u64 = self.slots.len() as u64;
        let mut report = WindowReport::new();
        let mut i: usize = 0;
        while i < self.slots.len()
            invariant
                i <= self.slots@.len(),
                len == self.slots@.len(),
                ring_wf(self@),
                report@ == report_of(self@, now, i as int),
                report@.wf(),
            decreases self.slots@.len() - i,
        {
            assert(self@[i as int] == self.slots@[i as int]@);
            let slot = &self.slots[i];
            if slot.epoch_s <= now && now - slot.epoch_s < len {
                proof {
                    lemma_added_all_ascends(
                        report@.buckets,
                        slot@.report.buckets,
                        slot@.report.buckets.len() as int,
                    );
                }
                report.buckets.add_all(&slot.report.buckets);
                report.histogram.merge(&slot.report.histogram);
            }
            i += 1;
        }
        report
    }
}

proof fn lemma_added_all_ascends(
    m: Seq<(KeyView, BucketCounts)>,
    other: Seq<(KeyView, BucketCounts)>,
    n: int,
)
    requires
        counts::keys_ascend(m),
        0 <= n <= other.len(),
    ensures
        counts::keys_ascend(counts::added_all(m, other, n)),
    decreases n,
{
    if n > 0 {
        lemma_added_all_ascends(m, other, n - 1);
        counts::law_keys_stay_ascending(
            counts::added_all(m, other, n - 1),
            other[n - 1].0,
            other[n - 1].1,
        );
    }
}

/// The counts under a key in those of the first `n` slots that belong to the window.
pub open spec fn counted(ring: Seq<SlotView>, now: u64, key: KeyView, n: int) -> BucketCounts
    decreases n,
{
    if n <= 0 || n > ring.len() {
        BucketCounts::zero()
    } else if in_window(ring[n - 1], ring.len() as int, now) {
        counted(ring, now, key, n - 1).sum(counts::counts_under(ring[n - 1].report.buckets, key))
    } else {
        counted(ring, now, key, n - 1)
    }
}

proof fn lemma_not_under(m: Seq<(KeyView, BucketCounts)>, key: KeyView, i: int)
    requires
        0 <= i <= m.len(),
        forall|k: int| i <= k < m.len() ==> (#[trigger] m[k]).0 != key,
    ensures
        counts::counts_from(m, key, i) == BucketCounts::zero(),
    decreases m.len() - i,
{
    if i < m.len() {
        assert(m[i].0 != key);
        lemma_not_under(m, key, i + 1);
    }
}

proof fn lemma_under_prefix(
    m: Seq<(KeyView, BucketCounts)>,
    key: KeyView,
    n: int,
    i: int,
)
    requires
        counts::keys_ascend(m),
        0 <= i <= n < m.len(),
    ensures
        m[n].0 == key ==> counts::counts_from(m.take(n), key, i) == BucketCounts::zero()
            && counts::counts_from(m.take(n + 1), key, i) == m[n].1,
        m[n].0 != key ==> counts::counts_from(m.take(n), key, i) == counts::counts_from(
            m.take(n + 1),
            key,
            i,
        ),
    decreases n - i,
{
    if i < n {
        assert(m.take(n)[i] == m[i] && m.take(n + 1)[i] == m[i]);
        if m[n].0 == key {
            assert(counts::key_before(m[i].0, m[n].0));
            counts::lemma_before_irreflexive(m[n].0);
        }
        lemma_under_prefix(m, key, n, i + 1);
    } else {
        assert(m.take(n + 1)[n] == m[n]);
        assert(counts::counts_from(m.take(n + 1), key, n + 1) == BucketCounts::zero());
    }
}

proof fn lemma_added_all_counts(
    m: Seq<(KeyView, BucketCounts)>,
    other: Seq<(KeyView, BucketCounts)>,
    n: int,
    key: KeyView,
)
    requires
        counts::keys_ascend(m),
        counts::keys_ascend(other),
        0 <= n <= other.len(),
    ensures
        counts::counts_under(counts::added_all(m, other, n), key) == counts::counts_under(
            m,
            key,
        ).sum(counts::counts_under(other.take(n), key)),
    decreases n,
{
    if n > 0 {
        let before = counts::added_all(m, other, n - 1);
        lemma_added_all_counts(m, other, n - 1, key);
        lemma_added_all_ascends(m, other, n - 1);
        counts::law_added_counts_are_there(before, other[n - 1].0, other[n - 1].1, key);
        lemma_under_prefix(other, key, n - 1, 0);
        lemma_sum_zero(counts::counts_under(m, key));
    } else {
        lemma_not_under(other.take(0), key, 0);
        lemma_sum_zero(counts::counts_under(m, key));
    }
}

proof fn lemma_sum_zero(c: BucketCounts)
    ensures
        c.sum(BucketCounts::zero()) == c,
{
}

/// A report counts, under each key, what the slots of its window count, and nothing of
/// any other second.
pub proof fn law_report_counts_its_window(ring: Seq<SlotView>, now: u64, key: KeyView, n: int)
    requires
        ring_wf(ring),
        0 <= n <= ring.len(),
    ensures
        counts::counts_under(report_of(ring, now, n).buckets, key) == counted(ring, now, key, n),
        counts::keys_ascend(report_of(ring, now, n).buckets),
    decreases n,
{
    if n > 0 {
        law_report_counts_its_window(ring, now, key, n - 1);
        let before = report_of(ring, now, n - 1).buckets;
        let slot = ring[n - 1];
        if in_window(slot, ring.len() as int, now) {
            let more = slot.report.buckets;
            lemma_added_all_counts(before, more, more.len() as int, key);
            lemma_added_all_ascends(before, more, more.len() as int);
            assert(more.take(more.len() as int) =~= more);
        }
    }
}

/// What is recorded for a second is in the slot for that second: on top of what the same
/// second held, and without what an older one held.
pub proof fn law_recorded_counts_are_in_their_second(
    ring: Seq<SlotView>,
    epoch_s: u64,
    key: KeyView,
    c: BucketCounts,
    latency: Option<u128>,
)
    requires
        ring_wf(ring),
    ensures
        ({
            let after = recorded(ring, epoch_s, key, c, latency);
            let slot = after[epoch_s as int % ring.len() as int];
            &&& slot.epoch_s == epoch_s
            &&& counts::counts_under(slot.report.buckets, key) == counts::counts_under(
                slot_for(ring, epoch_s).report.buckets,
                key,
            ).sum(c)
            &&& forall|i: int|
                0 <= i < ring.len() && i != epoch_s as int % ring.len() as int ==> after[i]
                    == ring[i]
        }),
{
    let i = epoch_s as int % ring.len() as int;
    assert(0 <= i < ring.len());
    assert(ring[i].report.wf());
    counts::law_added_counts_are_there(slot_for(ring, epoch_s).report.buckets, key, c, key);
}

} // verus!
