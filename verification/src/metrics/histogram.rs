//! A histogram of latencies: thirty buckets whose bounds are spaced by equal factors from
//! a millisecond to two minutes, the last one for everything above.
use vstd::prelude::*;

verus! {

/// How many buckets there are.
pub const HISTOGRAM_BUCKETS: usize = 30;

/// The largest whole number of milliseconds in each bucket but the last.
pub open spec fn upper_bounds() -> Seq<int> {
    seq![
        1int, 1, 2, 3, 5, 8, 12, 18, 28, 42, 65, 98, 150, 228, 346, 526, 798, 1212, 1841, 2796, 4246,
        6447, 9790, 14865, 22572, 34275, 52045, 79028, 120000,
    ]
}

/// The bucket, from `i` on, of a latency.
pub open spec fn bucket_from(ms: int, i: int) -> int
    decreases HISTOGRAM_BUCKETS - i,
{
    if !(0 <= i < HISTOGRAM_BUCKETS - 1) {
        HISTOGRAM_BUCKETS - 1
    } else if ms <= upper_bounds()[i] {
        i
    } else {
        bucket_from(ms, i + 1)
    }
}

/// The bucket of a latency: the first whose bound it does not exceed.
pub open spec fn bucket_of(ms: int) -> int {
    bucket_from(ms, 0)
}

/// The sum, as far as the type goes.
pub open spec fn sat_add(a: u64, b: u64) -> u64 {
    if a + b > u64::MAX {
        u64::MAX
    } else {
        (a + b) as u64
    }
}

/// The largest whole number of milliseconds in a bucket; `None` for the last one, which
/// has no bound.
pub fn bucket_upper_ms(index: usize) -> (r: Option<u128>)
    ensures
        r == if index < HISTOGRAM_BUCKETS - 1 {
            Some(upper_bounds()[index as int] as u128)
        } else {
            None
        },
{
    match index {
        0 => Some(1),
        1 => Some(1),
        2 => Some(2),
        3 => Some(3),
        4 => Some(5),
        5 => Some(8),
        6 => Some(12),
        7 => Some(18),
        8 => Some(28),
        9 => Some(42),
        10 => Some(65),
        11 => Some(98),
        12 => Some(150),
        13 => Some(228),
        14 => Some(346),
        15 => Some(526),
        16 => Some(798),
        17 => Some(1212),
        18 => Some(1841),
        19 => Some(2796),
        20 => Some(4246),
        21 => Some(6447),
        22 => Some(9790),
        23 => Some(14865),
        24 => Some(22572),
        25 => Some(34275),
        26 => Some(52045),
        27 => Some(79028),
        28 => Some(120000),
        _ => None,
    }
}

/// The bucket of a latency.
pub fn bucket_index(elapsed_ms: u128) -> (r: usize)
    ensures
        r == bucket_of(elapsed_ms as int),
        r < HISTOGRAM_BUCKETS,
{
    let mut i: usize = 0;
    while i < HISTOGRAM_BUCKETS - 1
        invariant
            i <= HISTOGRAM_BUCKETS - 1,
            bucket_of(elapsed_ms as int) == bucket_from(elapsed_ms as int, i as int),
        decreases HISTOGRAM_BUCKETS - i,
    {
        match bucket_upper_ms(i) {
            Some(upper) => if elapsed_ms <= upper {
                return i;
            },
            None => {},
        }
        i += 1;
    }
    HISTOGRAM_BUCKETS - 1
}

/// The contents of a [`Histogram`].
pub struct HistogramView {
    /// Samples in each bucket.
    pub buckets: Seq<u64>,
    /// Samples in all.
    pub total: u64,
}

/// The sum of the first `n` counts.
pub open spec fn sum(buckets: Seq<u64>, n: int) -> int
    decreases n,
{
    if n <= 0 || n > buckets.len() {
        0
    } else {
        sum(buckets, n - 1) + buckets[n - 1]
    }
}

/// Where a quantile lies.
#[derive(Debug, Clone, Copy, PartialEq, Eq, Structural)]
pub enum QuantilePlace {
    /// There are no samples.
    Empty,
    /// In a bucket.
    Inside {
        /// The bucket.
        bucket: usize,
        /// Samples in the buckets before it.
        before: u128,
        /// Samples in it.
        count: u64,
    },
    /// After all samples.
    Beyond,
}

impl HistogramView {
    /// No samples.
    pub open spec fn empty() -> HistogramView {
        HistogramView { buckets: Seq::new(HISTOGRAM_BUCKETS as nat, |i: int| 0u64), total: 0 }
    }

    /// There is a count for each bucket.
    pub open spec fn wf(self) -> bool {
        self.buckets.len() == HISTOGRAM_BUCKETS
    }

    /// The histogram with one more sample.
    pub open spec fn recorded(self, ms: int) -> HistogramView {
        let i = bucket_of(ms);
        HistogramView {
            buckets: self.buckets.update(i, sat_add(self.buckets[i], 1)),
            total: sat_add(self.total, 1),
        }
    }

    /// The samples of both.
    pub open spec fn merged(self, other: HistogramView) -> HistogramView {
        HistogramView {
            buckets: Seq::new(
                HISTOGRAM_BUCKETS as nat,
                |i: int| sat_add(self.buckets[i], other.buckets[i]),
            ),
            total: sat_add(self.total, other.total),
        }
    }

    /// The place of the rank `percent * total / 100`, looked for from bucket `i` on: the
    /// first bucket with samples up to whose end there are that many.
    pub open spec fn place_from(self, percent: int, i: int) -> QuantilePlace
        decreases HISTOGRAM_BUCKETS - i,
    {
        if !(0 <= i < HISTOGRAM_BUCKETS) {
            QuantilePlace::Beyond
        } else if self.buckets[i] > 0 && percent * self.total <= 100 * sum(self.buckets, i + 1) {
            QuantilePlace::Inside {
                bucket: i as usize,
                before: sum(self.buckets, i) as u128,
                count: self.buckets[i],
            }
        } else {
            self.place_from(percent, i + 1)
        }
    }

    /// The place of a quantile.
    pub open spec fn place(self, percent: int) -> QuantilePlace {
        if self.total == 0 {
            QuantilePlace::Empty
        } else {
            self.place_from(percent, 0)
        }
    }
}

/// A histogram of latencies.
#[derive(Debug, Clone)]
pub struct Histogram {
    /// Samples in each bucket.
    pub buckets: Vec<u64>,
    /// Samples in all.
    pub total: u64,
}

impl View for Histogram {
    type V = HistogramView;

    open spec fn view(&self) -> HistogramView {
        HistogramView { buckets: self.buckets@, total: self.total }
    }
}

fn add_saturating(a: u64, b: u64) -> (r: u64)
    ensures
        r == sat_add(a, b),
{
    match a.checked_add(b) {
        Some(s) => s,
        None => u64::MAX,
    }
}

proof fn lemma_bucket_from(ms: int, i: int)
    requires
        0 <= i <= HISTOGRAM_BUCKETS - 1,
    ensures
        i <= bucket_from(ms, i) < HISTOGRAM_BUCKETS,
        bucket_from(ms, i) < HISTOGRAM_BUCKETS - 1 ==> ms <= upper_bounds()[bucket_from(ms, i)],
        forall|k: int| i <= k < bucket_from(ms, i) ==> ms > #[trigger] upper_bounds()[k],
    decreases HISTOGRAM_BUCKETS - i,
{
    if i < HISTOGRAM_BUCKETS - 1 && ms > upper_bounds()[i] {
        lemma_bucket_from(ms, i + 1);
    }
}

proof fn lemma_sum_bound(buckets: Seq<u64>, n: int)
    requires
        0 <= n <= buckets.len(),
    ensures
        0 <= sum(buckets, n) <= n * u64::MAX,
    decreases n,
{
    if n > 0 {
        lemma_sum_bound(buckets, n - 1);
        assert(n * u64::MAX == (n - 1) * u64::MAX + u64::MAX) by (nonlinear_arith);
    }
}

impl Histogram {
    /// No samples.
    pub fn new() -> (r: Self)
        ensures
            r@ == HistogramView::empty(),
            r@.wf(),
    {
        let mut buckets: Vec<u64> = Vec::new();
        while buckets.len() < HISTOGRAM_BUCKETS
            invariant
                buckets@.len() <= HISTOGRAM_BUCKETS,
                forall|k: int| 0 <= k < buckets@.len() ==> buckets@[k] == 0,
            decreases HISTOGRAM_BUCKETS - buckets@.len(),
        {
            buckets.push(0);
        }
        assert(buckets@ =~= HistogramView::empty().buckets);
        Histogram { buckets, total: 0 }
    }

    /// Adds one sample.
    pub fn record(&mut self, elapsed_ms: u128)
        requires
            old(self)@.wf(),
        ensures
            final(self)@ == old(self)@.recorded(elapsed_ms as int),
            final(self)@.wf(),
    {
        let index = bucket_index(elapsed_ms);
        let count = add_saturating(self.buckets[index], 1);
        self.buckets.set(index, count);
        self.total = add_saturating(self.total, 1);
    }

    /// Adds the samples of another.
    pub fn merge(&mut self, other: &Histogram)
        requires
            old(self)@.wf(),
            other@.wf(),
        ensures
            final(self)@ == old(self)@.merged(other@),
            final(self)@.wf(),
    {
        let ghost before = self.buckets@;
        let mut i: usize = 0;
        while i < HISTOGRAM_BUCKETS
            invariant
                i <= HISTOGRAM_BUCKETS,
                before.len() == HISTOGRAM_BUCKETS,
                other.buckets@.len() == HISTOGRAM_BUCKETS,
                self.buckets@.len() == HISTOGRAM_BUCKETS,
                self.total == old(self).total,
                forall|k: int|
                    0 <= k < i ==> self.buckets@[k] == sat_add(before[k], other.buckets@[k]),
                forall|k: int| i <= k < HISTOGRAM_BUCKETS ==> self.buckets@[k] == before[k],
            decreases HISTOGRAM_BUCKETS - i,
        {
            let count = add_saturating(self.buckets[i], other.buckets[i]);
            self.buckets.set(i, count);
            i += 1;
        }
        self.total = add_saturating(self.total, other.total);
        assert(self.buckets@ =~= old(self)@.merged(other@).buckets);
    }

    /// The place of a quantile, which is given in percent.
    pub fn quantile_place(&self, percent: u64) -> (r: QuantilePlace)
        requires
            self@.wf(),
            percent <= 100,
        ensures
            r == self@.place(percent as int),
    {
        if self.total == 0 {
            return QuantilePlace::Empty;
        }
        assert(percent * self.total <= 100 * u64::MAX) by (nonlinear_arith)
            requires
                0 <= percent <= 100,
                0 <= self.total <= u64::MAX,
        ;
        let target: u128 = percent as u128 * self.total as u128;
        let mut before: u128 = 0;
        let mut i: usize = 0;
        while i < HISTOGRAM_BUCKETS
            invariant
                i <= HISTOGRAM_BUCKETS,
                self@.wf(),
                self.total > 0,
                target == percent * self.total,
                before == sum(self.buckets@, i as int),
                self@.place(percent as int) == self@.place_from(percent as int, i as int),
            decreases HISTOGRAM_BUCKETS - i,
        {
            proof {
                lemma_sum_bound(self.buckets@, i + 1);
            }
            let count = self.buckets[i];
            let after: u128 = before + count as u128;
            if count > 0 && target <= 100 * after {
                return QuantilePlace::Inside { bucket: i, before, count };
            }
            before = after;
            i += 1;
        }
        QuantilePlace::Beyond
    }
}

/// A sample is within the bounds of its bucket.
pub proof fn law_sample_is_within_its_bucket(ms: int)
    ensures
        0 <= bucket_of(ms) < HISTOGRAM_BUCKETS,
        bucket_of(ms) < HISTOGRAM_BUCKETS - 1 ==> ms <= upper_bounds()[bucket_of(ms)],
        bucket_of(ms) > 0 ==> ms > upper_bounds()[bucket_of(ms) - 1],
{
    lemma_bucket_from(ms, 0);
}

/// The bounds of the buckets never descend, and span a millisecond to two minutes.
pub proof fn law_bounds_ascend(i: int, j: int)
    requires
        0 <= i <= j < HISTOGRAM_BUCKETS - 1,
    ensures
        upper_bounds()[i] <= upper_bounds()[j],
        upper_bounds()[0] == 1,
        upper_bounds()[HISTOGRAM_BUCKETS - 2] == 120000,
    decreases j - i,
{
    if i < j {
        law_bounds_ascend(i, j - 1);
    }
}

proof fn lemma_sum_update(buckets: Seq<u64>, i: int, v: u64, n: int)
    requires
        0 <= i < buckets.len(),
        0 <= n <= buckets.len(),
    ensures
        sum(buckets.update(i, v), n) == sum(buckets, n) + if i < n {
            v - buckets[i]
        } else {
            0
        },
    decreases n,
{
    if n > 0 {
        lemma_sum_update(buckets, i, v, n - 1);
    }
}

proof fn lemma_part_of_sum(buckets: Seq<u64>, i: int, n: int)
    requires
        0 <= i < n <= buckets.len(),
    ensures
        buckets[i] <= sum(buckets, n),
    decreases n,
{
    lemma_sum_bound(buckets, n - 1);
    if i < n - 1 {
        lemma_part_of_sum(buckets, i, n - 1);
    }
}

/// The total is the number of samples in the buckets, as long as it can be counted.
pub proof fn law_total_is_the_sum(h: HistogramView, ms: int)
    requires
        h.wf(),
        h.total == sum(h.buckets, HISTOGRAM_BUCKETS as int),
        h.total < u64::MAX,
    ensures
        h.recorded(ms).total == sum(h.recorded(ms).buckets, HISTOGRAM_BUCKETS as int),
        h.recorded(ms).total == h.total + 1,
{
    lemma_bucket_from(ms, 0);
    let i = bucket_of(ms);
    lemma_part_of_sum(h.buckets, i, HISTOGRAM_BUCKETS as int);
    lemma_sum_update(
        h.buckets,
        i,
        sat_add(h.buckets[i], 1),
        HISTOGRAM_BUCKETS as int,
    );
}

proof fn lemma_place_inside(h: HistogramView, percent: int, i: int)
    requires
        h.wf(),
        0 <= i < HISTOGRAM_BUCKETS,
        0 <= percent <= 100,
        h.total == sum(h.buckets, HISTOGRAM_BUCKETS as int),
        h.total > 0,
        sum(h.buckets, i) < h.total,
    ensures
        h.place_from(percent, i) matches QuantilePlace::Inside { bucket, before, count } && i
            <= bucket < HISTOGRAM_BUCKETS && before == sum(h.buckets, bucket as int) && count
            == h.buckets[bucket as int] && count > 0,
    decreases HISTOGRAM_BUCKETS - i,
{
    lemma_sum_bound(h.buckets, i);
    lemma_sum_bound(h.buckets, i + 1);
    assert(percent * h.total <= 100 * h.total) by (nonlinear_arith)
        requires
            0 <= percent <= 100,
            0 < h.total,
    ;
    if h.buckets[i] > 0 && percent * h.total <= 100 * sum(h.buckets, i + 1) {
    } else {
        lemma_sum_ascends(h.buckets, i + 1, HISTOGRAM_BUCKETS as int);
        if sum(h.buckets, i + 1) == h.total {
            assert(h.buckets[i] > 0);
        }
        lemma_place_inside(h, percent, i + 1);
    }
}

proof fn lemma_sum_ascends(buckets: Seq<u64>, m: int, n: int)
    requires
        0 <= m <= n <= buckets.len(),
    ensures
        sum(buckets, m) <= sum(buckets, n),
    decreases n,
{
    if m < n {
        lemma_sum_ascends(buckets, m, n - 1);
    }
}

/// Every quantile of a histogram with samples lies in a bucket that holds some.
pub proof fn law_quantile_lies_in_a_bucket(h: HistogramView, percent: int)
    requires
        h.wf(),
        0 <= percent <= 100,
        h.total == sum(h.buckets, HISTOGRAM_BUCKETS as int),
        h.total > 0,
    ensures
        h.place(percent) matches QuantilePlace::Inside { bucket, before, count } && bucket
            < HISTOGRAM_BUCKETS && before == sum(h.buckets, bucket as int) && count
            == h.buckets[bucket as int] && count > 0,
{
    lemma_place_inside(h, percent, 0);
}

/// A higher quantile never lies in a lower bucket.
pub proof fn law_quantiles_ascend(h: HistogramView, low: int, high: int)
    requires
        h.wf(),
        0 <= low <= high <= 100,
        h.total == sum(h.buckets, HISTOGRAM_BUCKETS as int),
        h.total > 0,
    ensures
        h.place(low)->Inside_bucket <= h.place(high)->Inside_bucket,
{
    lemma_places_ascend(h, low, high, 0);
}

proof fn lemma_places_ascend(h: HistogramView, low: int, high: int, i: int)
    requires
        h.wf(),
        0 <= low <= high <= 100,
        0 <= i < HISTOGRAM_BUCKETS,
        h.total == sum(h.buckets, HISTOGRAM_BUCKETS as int),
        h.total > 0,
        sum(h.buckets, i) < h.total,
    ensures
        h.place_from(low, i)->Inside_bucket <= h.place_from(high, i)->Inside_bucket,
    decreases HISTOGRAM_BUCKETS - i,
{
    lemma_place_inside(h, low, i);
    lemma_place_inside(h, high, i);
    assert(low * h.total <= high * h.total) by (nonlinear_arith)
        requires
            low <= high,
            0 < h.total,
    ;
    let end = sum(h.buckets, i + 1);
    if h.buckets[i] > 0 && low * h.total <= 100 * end {
    } else {
        assert(high * h.total <= 100 * h.total) by (nonlinear_arith)
            requires
                0 <= high <= 100,
                0 < h.total,
        ;
        lemma_sum_ascends(h.buckets, i + 1, HISTOGRAM_BUCKETS as int);
        lemma_places_ascend(h, low, high, i + 1);
    }
}

} // verus!
