//! What is counted, where, and for how long.
use vstd::prelude::*;

use crate::metrics::counts;
use crate::metrics::counts::BucketCounts;
use crate::metrics::counts::FlowStatus;
use crate::metrics::counts::FlowUsage;
use crate::metrics::counts::KeyView;
use crate::metrics::histogram;
use crate::metrics::histogram::HistogramView;
use crate::metrics::histogram::HISTOGRAM_BUCKETS;
use crate::metrics::layer;
use crate::metrics::layer::LayerView;
use crate::metrics::snapshots;
use crate::metrics::snapshots::DashboardSnapshot;
use crate::metrics::snapshots::SnapshotFlowSummary;
use crate::metrics::window;
use crate::metrics::window::SlotView;
use crate::text;

verus! {

/// Each count of a sum is the sum of the two counts of that name, as long as it can be counted.
pub proof fn law_counts_are_summed_by_name(a: BucketCounts, b: BucketCounts)
    ensures
        a.count + b.count <= u64::MAX ==> a.sum(b).count == a.count + b.count,
        i64::MIN <= a.prompt_tokens + b.prompt_tokens <= i64::MAX ==> a.sum(b).prompt_tokens
            == a.prompt_tokens + b.prompt_tokens,
        i64::MIN <= a.completion_tokens + b.completion_tokens <= i64::MAX ==> a.sum(
            b,
        ).completion_tokens == a.completion_tokens + b.completion_tokens,
        i64::MIN <= a.cached_tokens + b.cached_tokens <= i64::MAX ==> a.sum(b).cached_tokens
            == a.cached_tokens + b.cached_tokens,
        i64::MIN <= a.reasoning_tokens + b.reasoning_tokens <= i64::MAX ==> a.sum(
            b,
        ).reasoning_tokens == a.reasoning_tokens + b.reasoning_tokens,
        a.sum(b) == b.sum(a),
        a.sum(BucketCounts::zero()) == a,
{
}

/// A flow counts its own tokens, each kind under its name, and none where they are not known.
pub proof fn law_flow_counts_its_tokens(n: u64, u: FlowUsage)
    ensures
        BucketCounts::of(n, Some(u)).count == n,
        BucketCounts::of(n, Some(u)).prompt_tokens == u.prompt,
        BucketCounts::of(n, Some(u)).completion_tokens == u.completion,
        BucketCounts::of(n, Some(u)).cached_tokens == u.cached,
        BucketCounts::of(n, Some(u)).reasoning_tokens == u.reasoning,
        BucketCounts::of(n, None).count == n,
        BucketCounts::of(n, None).prompt_tokens == 0,
        BucketCounts::of(n, None).completion_tokens == 0,
        BucketCounts::of(n, None).cached_tokens == 0,
        BucketCounts::of(n, None).reasoning_tokens == 0,
{
}

/// A flow is counted under how it ended, the model that answered, its endpoint and its
/// upstream; what is not known is called unknown.
pub proof fn law_flow_is_counted_under_its_key(
    status: FlowStatus,
    model: Seq<char>,
    endpoint: Seq<char>,
    upstream: Seq<char>,
)
    ensures
        counts::flow_key(status, Some(model), endpoint, Some(upstream)).model == model,
        counts::flow_key(status, Some(model), endpoint, Some(upstream)).endpoint == endpoint,
        counts::flow_key(status, Some(model), endpoint, Some(upstream)).upstream == upstream,
        counts::flow_key(status, None, endpoint, Some(upstream)).model == "unknown"@,
        counts::flow_key(status, Some(model), endpoint, None).upstream == "unknown"@,
        counts::flow_key(status, Some(model), endpoint, Some(upstream)).status is Success
            <==> status is Completed,
        counts::flow_key(status, Some(model), endpoint, Some(upstream)).status is Cancelled
            <==> status is Cancelled,
{
}

/// The requests of all keys are those of each, as long as they can be counted.
pub proof fn law_requests_are_those_of_all_keys(m: Seq<(KeyView, BucketCounts)>, n: int)
    requires
        0 < n <= m.len(),
        counts::requests(m, n) < u64::MAX,
    ensures
        counts::requests(m, n) == counts::requests(m, n - 1) + m[n - 1].1.count,
        counts::requests(m, 0) == 0,
{
}

/// Recording a sample is merging with a histogram of that sample alone.
pub proof fn law_recording_is_merging(h: HistogramView, ms: int)
    requires
        h.wf(),
    ensures
        h.recorded(ms) == h.merged(HistogramView::empty().recorded(ms)),
        h.merged(HistogramView::empty()) == h,
{
    histogram::law_sample_is_within_its_bucket(ms);
    let one = HistogramView::empty().recorded(ms);
    assert(h.recorded(ms).buckets =~= h.merged(one).buckets);
    assert(h.merged(HistogramView::empty()).buckets =~= h.buckets);
}

/// Merging adds bucket by bucket, whichever side is first.
pub proof fn law_merging_adds_buckets(a: HistogramView, b: HistogramView, i: int)
    requires
        a.wf(),
        b.wf(),
        0 <= i < HISTOGRAM_BUCKETS,
    ensures
        a.buckets[i] + b.buckets[i] <= u64::MAX ==> a.merged(b).buckets[i] == a.buckets[i]
            + b.buckets[i],
        a.total + b.total <= u64::MAX ==> a.merged(b).total == a.total + b.total,
        a.merged(b) == b.merged(a),
{
    assert(a.merged(b).buckets =~= b.merged(a).buckets);
}

/// A sample is counted in its own bucket and in no other.
pub proof fn law_sample_is_counted_once(h: HistogramView, ms: int, i: int)
    requires
        h.wf(),
        0 <= i < HISTOGRAM_BUCKETS,
        h.buckets[i] < u64::MAX,
    ensures
        h.recorded(ms).buckets[i] == h.buckets[i] + (if i == histogram::bucket_of(ms) {
            1int
        } else {
            0
        }),
{
    histogram::law_sample_is_within_its_bucket(ms);
}

/// A quantile lies in the first bucket with samples up to whose end there are as many samples
/// as its rank.
pub proof fn law_quantile_is_at_its_rank(h: HistogramView, percent: int)
    requires
        h.wf(),
        0 <= percent <= 100,
        h.total == histogram::sum(h.buckets, HISTOGRAM_BUCKETS as int),
        h.total > 0,
    ensures
        percent * h.total <= 100 * histogram::sum(
            h.buckets,
            h.place(percent)->Inside_bucket as int + 1,
        ),
        forall|i: int|
            0 <= i < h.place(percent)->Inside_bucket && (#[trigger] h.buckets[i]) > 0 ==> percent
                * h.total > 100 * histogram::sum(h.buckets, i + 1),
{
    histogram::law_quantile_lies_in_a_bucket(h, percent);
    lemma_place(h, percent, 0);
}

proof fn lemma_place(h: HistogramView, percent: int, i: int)
    requires
        h.wf(),
        0 <= i <= HISTOGRAM_BUCKETS,
        h.place_from(percent, i) is Inside,
    ensures
        i <= h.place_from(percent, i)->Inside_bucket < HISTOGRAM_BUCKETS,
        percent * h.total <= 100 * histogram::sum(
            h.buckets,
            h.place_from(percent, i)->Inside_bucket as int + 1,
        ),
        forall|k: int|
            i <= k < h.place_from(percent, i)->Inside_bucket && (#[trigger] h.buckets[k]) > 0
                ==> percent * h.total > 100 * histogram::sum(h.buckets, k + 1),
    decreases HISTOGRAM_BUCKETS - i,
{
    if i < HISTOGRAM_BUCKETS && !(h.buckets[i] > 0 && percent * h.total <= 100 * histogram::sum(
        h.buckets,
        i + 1,
    )) {
        lemma_place(h, percent, i + 1);
    }
}

/// A second belongs to a window just where it is one of as many seconds as the window has,
/// the last of which is now.
pub proof fn law_window_is_its_seconds(slot: SlotView, len: int, now: u64)
    ensures
        window::in_window(slot, len, now) <==> now - len < slot.epoch_s <= now,
{
}

/// What is recorded in a second is reported, on top of what was counted before, while the
/// second is in the window; the latency is in the histogram of that second.
pub proof fn law_latency_is_in_its_second(
    ring: Seq<SlotView>,
    epoch_s: u64,
    key: KeyView,
    c: BucketCounts,
    ms: u128,
)
    requires
        window::ring_wf(ring),
    ensures
        ({
            let after = window::recorded(ring, epoch_s, key, c, Some(ms));
            let i = epoch_s as int % ring.len() as int;
            &&& after.len() == ring.len()
            &&& after[i].epoch_s == epoch_s
            &&& ring[i].epoch_s == epoch_s ==> after[i].report.histogram
                == ring[i].report.histogram.recorded(ms as int)
            &&& ring[i].epoch_s != epoch_s ==> after[i].report.histogram
                == HistogramView::empty().recorded(ms as int)
        }),
        ({
            let after = window::recorded(ring, epoch_s, key, c, None);
            let i = epoch_s as int % ring.len() as int;
            ring[i].epoch_s == epoch_s ==> after[i].report.histogram == ring[i].report.histogram
        }),
{
    let i = epoch_s as int % ring.len() as int;
    assert(0 <= i < ring.len());
}

/// The windows are those of a minute, of five minutes and of an hour, a slot for each second,
/// and what is recorded is recorded in all of them and counted once.
pub proof fn law_windows_are_recorded_alike(
    v: LayerView,
    epoch_s: u64,
    key: KeyView,
    c: BucketCounts,
    latency: Option<u128>,
    quota: usize,
)
    requires
        v.enabled,
        v.seq < u64::MAX,
    ensures
        LayerView::fresh(true, quota).minute.len() == 60,
        LayerView::fresh(true, quota).five_minutes.len() == 5 * 60,
        LayerView::fresh(true, quota).hour.len() == 60 * 60,
        v.recorded(epoch_s, key, c, latency).minute == window::recorded(
            v.minute,
            epoch_s,
            key,
            c,
            latency,
        ),
        v.recorded(epoch_s, key, c, latency).five_minutes == window::recorded(
            v.five_minutes,
            epoch_s,
            key,
            c,
            latency,
        ),
        v.recorded(epoch_s, key, c, latency).hour == window::recorded(
            v.hour,
            epoch_s,
            key,
            c,
            latency,
        ),
        v.recorded(epoch_s, key, c, latency).seq == v.seq + 1,
        v.recorded(epoch_s, key, c, latency).snapshots == v.snapshots,
{
}

/// An instant is in the second that began last before it.
pub proof fn law_instant_is_in_its_second(ms: u128)
    requires
        ms < 1000 * 18446744073709551616,
    ensures
        1000 * layer::second_of(ms) <= ms < 1000 * (layer::second_of(ms) + 1),
{
    assert(ms / 1000 < 18446744073709551616);
    assert((ms / 1000) % 18446744073709551616 == ms / 1000);
}

/// The snapshot that is nearest to an instant was taken then or before, and every later one
/// after it.
pub proof fn law_nearest_snapshot(cuts: Seq<DashboardSnapshot>, ts: u128, n: int, k: int)
    requires
        0 <= n <= cuts.len(),
    ensures
        -1 <= snapshots::nearest(cuts, ts, n) < n || n == 0,
        snapshots::nearest(cuts, ts, n) >= 0 ==> cuts[snapshots::nearest(cuts, ts, n)].taken_at_ms
            <= ts,
        snapshots::nearest(cuts, ts, n) < k < n ==> cuts[k].taken_at_ms > ts,
    decreases n,
{
    if n > 0 && cuts[n - 1].taken_at_ms > ts {
        law_nearest_snapshot(cuts, ts, n - 1, k);
    }
}

/// What a flow takes grows with each of its texts by as much as that does.
pub proof fn law_flow_bytes_are_those_of_its_texts(a: SnapshotFlowSummary, b: SnapshotFlowSummary)
    ensures
        snapshots::summary_bytes(a) - snapshots::summary_bytes(b) == (vstd::utf8::encode_utf8(
            a.api_call_id@,
        ).len() - vstd::utf8::encode_utf8(b.api_call_id@).len()) + (vstd::utf8::encode_utf8(
            a.method@,
        ).len() - vstd::utf8::encode_utf8(b.method@).len()) + (vstd::utf8::encode_utf8(a.uri@).len()
            - vstd::utf8::encode_utf8(b.uri@).len()) + (snapshots::opt_bytes(a.response_id)
            - snapshots::opt_bytes(b.response_id)) + (snapshots::opt_bytes(a.model_requested)
            - snapshots::opt_bytes(b.model_requested)) + (snapshots::opt_bytes(a.model_served)
            - snapshots::opt_bytes(b.model_served)) + (snapshots::opt_bytes(a.upstream_target)
            - snapshots::opt_bytes(b.upstream_target)) + (snapshots::opt_bytes(a.terminal_reason)
            - snapshots::opt_bytes(b.terminal_reason)),
        snapshots::opt_bytes(None) == 0,
{
}

/// A snapshot takes what its flows, its windows and its topology take, as long as that can be
/// counted.
pub proof fn law_snapshot_takes_what_it_holds(s: DashboardSnapshot)
    ensures
        ({
            let all = snapshots::summaries_bytes(s.summaries@, s.summaries@.len() as int)
                + snapshots::window_bytes(s.metrics.window_1m) + snapshots::window_bytes(
                s.metrics.window_5m,
            ) + snapshots::window_bytes(s.metrics.window_1h) + s.topology.bytes;
            all <= usize::MAX ==> snapshots::snapshot_bytes(s) == all as usize
        }),
{
}

/// Keys are in one order: of two that differ one is first. How a flow ended counts first, then
/// the model, the endpoint and the upstream.
pub proof fn law_keys_are_in_one_order(a: KeyView, b: KeyView)
    ensures
        !counts::key_before(a, a),
        a != b ==> (counts::key_before(a, b) <==> !counts::key_before(b, a)),
        a.status is Success && !(b.status is Success) ==> counts::key_before(a, b),
        !(a.status is Cancelled) && b.status is Cancelled ==> counts::key_before(a, b),
        a.status == b.status && text::before(a.model, b.model) ==> counts::key_before(a, b),
        a.status == b.status && a.model == b.model && text::before(a.endpoint, b.endpoint)
            ==> counts::key_before(a, b),
        a.status == b.status && a.model == b.model && a.endpoint == b.endpoint && text::before(
            a.upstream,
            b.upstream,
        ) ==> counts::key_before(a, b),
{
    lemma_order(a.model, b.model);
    lemma_order(a.endpoint, b.endpoint);
    lemma_order(a.upstream, b.upstream);
    text::lemma_before_irreflexive(a.upstream, 0);
    if a.status == b.status && a.model == b.model && a.endpoint == b.endpoint && a.upstream
        == b.upstream {
        assert(a == b);
    }
}

proof fn lemma_order(a: Seq<char>, b: Seq<char>)
    ensures
        a != b ==> (text::before(a, b) <==> !text::before(b, a)),
        text::before(a, b) ==> a != b,
{
    assert(a.take(0) =~= b.take(0));
    text::lemma_before_total(a, b, 0);
    text::lemma_before_irreflexive(a, 0);
}

/// What is counted under a key is what stands with it, and nothing where it does not stand.
pub proof fn law_counts_stand_with_their_key(m: Seq<(KeyView, BucketCounts)>, key: KeyView, k: int)
    requires
        forall|j: int| 0 <= j < k ==> (#[trigger] m[j]).0 != key,
    ensures
        0 <= k < m.len() && m[k].0 == key ==> counts::counts_under(m, key) == m[k].1,
        k == m.len() ==> counts::counts_under(m, key) == BucketCounts::zero(),
{
    if k >= 0 {
        lemma_counts_from(m, key, 0, k);
    }
}

proof fn lemma_counts_from(m: Seq<(KeyView, BucketCounts)>, key: KeyView, i: int, k: int)
    requires
        0 <= i <= k,
        forall|j: int| 0 <= j < k ==> (#[trigger] m[j]).0 != key,
    ensures
        k < m.len() && m[k].0 == key ==> counts::counts_from(m, key, i) == m[k].1,
        k == m.len() ==> counts::counts_from(m, key, i) == BucketCounts::zero(),
    decreases k - i,
{
    if i < k && k <= m.len() {
        assert(m[i].0 != key);
        lemma_counts_from(m, key, i + 1, k);
    }
}

/// Each key that is counted takes the bytes of its texts and room for itself and its counts.
pub proof fn law_keys_take_their_bytes(
    e: Seq<(counts::BucketKey, BucketCounts)>,
    n: int,
)
    requires
        0 <= n < e.len(),
    ensures
        snapshots::entries_bytes(e, 0) == 0,
        snapshots::entries_bytes(e, n + 1) == snapshots::entries_bytes(e, n)
            + vstd::utf8::encode_utf8(e[n].0.model@).len() + vstd::utf8::encode_utf8(
            e[n].0.endpoint@,
        ).len() + vstd::utf8::encode_utf8(e[n].0.upstream@).len() + vstd::layout::size_of::<
            counts::BucketKey,
        >() + vstd::layout::size_of::<BucketCounts>(),
{
}

} // verus!
