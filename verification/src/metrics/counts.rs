//! Counts of requests and tokens, kept apart by what was asked, of whom, and how it ended.
use vstd::prelude::*;

use crate::metrics::histogram;
use crate::text;

verus! {

/// How a flow stands.
#[derive(Debug, Clone, Copy, PartialEq, Eq, Structural)]
pub enum FlowStatus {
    /// It is still open.
    Open,
    /// It is complete.
    Completed,
    /// It failed.
    Failed,
    /// It was cancelled.
    Cancelled,
}

/// The tokens of a flow.
#[derive(Debug, Clone, Copy, PartialEq, Eq, Structural)]
pub struct FlowUsage {
    /// Prompt tokens.
    pub prompt: i64,
    /// Completion tokens.
    pub completion: i64,
    /// Both.
    pub total: i64,
    /// Tokens from the cache.
    pub cached: i64,
    /// Tokens of reasoning.
    pub reasoning: i64,
}

impl Default for FlowUsage {
    fn default() -> (r: Self)
        ensures
            r == (FlowUsage { prompt: 0, completion: 0, total: 0, cached: 0, reasoning: 0 }),
    {
        FlowUsage { prompt: 0, completion: 0, total: 0, cached: 0, reasoning: 0 }
    }
}

/// How a finished flow counts.
#[derive(Debug, Clone, Copy, PartialEq, Eq, Structural)]
pub enum StatusClass {
    /// As a success.
    Success,
    /// As an error.
    Error,
    /// As cancelled.
    Cancelled,
}

impl StatusClass {
    /// How a flow counts. One that is still open counts as an error.
    pub open spec fn of(status: FlowStatus) -> StatusClass {
        match status {
            FlowStatus::Completed => StatusClass::Success,
            FlowStatus::Cancelled => StatusClass::Cancelled,
            FlowStatus::Failed => StatusClass::Error,
            FlowStatus::Open => StatusClass::Error,
        }
    }

    /// The place of the class in the order of classes.
    pub open spec fn rank(self) -> int {
        match self {
            StatusClass::Success => 0,
            StatusClass::Error => 1,
            StatusClass::Cancelled => 2,
        }
    }

    /// How a flow counts.
    pub fn from_status(status: FlowStatus) -> (r: Self)
        ensures
            r == StatusClass::of(status),
    {
        match status {
            FlowStatus::Completed => StatusClass::Success,
            FlowStatus::Cancelled => StatusClass::Cancelled,
            FlowStatus::Failed => StatusClass::Error,
            FlowStatus::Open => StatusClass::Error,
        }
    }

    fn place(self) -> (r: u8)
        ensures
            r == self.rank(),
    {
        match self {
            StatusClass::Success => 0,
            StatusClass::Error => 1,
            StatusClass::Cancelled => 2,
        }
    }
}

/// What counts are kept apart by.
#[derive(Debug, Clone, PartialEq, Eq)]
pub struct BucketKey {
    /// How the flow ended.
    pub status: StatusClass,
    /// The model that answered.
    pub model: String,
    /// The endpoint that was asked.
    pub endpoint: String,
    /// The upstream that answered.
    pub upstream: String,
}

/// The contents of a [`BucketKey`].
pub struct KeyView {
    /// How the flow ended.
    pub status: StatusClass,
    /// The model that answered.
    pub model: Seq<char>,
    /// The endpoint that was asked.
    pub endpoint: Seq<char>,
    /// The upstream that answered.
    pub upstream: Seq<char>,
}

impl View for BucketKey {
    type V = KeyView;

    open spec fn view(&self) -> KeyView {
        KeyView {
            status: self.status,
            model: self.model@,
            endpoint: self.endpoint@,
            upstream: self.upstream@,
        }
    }
}

/// Whether the key `a` comes before the key `b`: by class, then by model, endpoint and
/// upstream.
pub open spec fn key_before(a: KeyView, b: KeyView) -> bool {
    if a.status != b.status {
        a.status.rank() < b.status.rank()
    } else if a.model != b.model {
        text::before(a.model, b.model)
    } else if a.endpoint != b.endpoint {
        text::before(a.endpoint, b.endpoint)
    } else {
        text::before(a.upstream, b.upstream)
    }
}

impl BucketKey {
    /// The key of a flow; what is not known is `unknown`.
    pub fn of_flow(
        status: FlowStatus,
        served_model: Option<&str>,
        endpoint: &str,
        upstream: Option<&str>,
    ) -> (r: Self)
        ensures
            r@ == flow_key(
                status,
                text::opt_str_view(served_model),
                endpoint@,
                text::opt_str_view(upstream),
            ),
    {
        BucketKey {
            status: StatusClass::from_status(status),
            model: label_or_unknown(served_model),
            endpoint: endpoint.to_owned(),
            upstream: label_or_unknown(upstream),
        }
    }

    /// A copy.
    pub fn copy(&self) -> (r: Self)
        ensures
            r@ == self@,
    {
        BucketKey {
            status: self.status,
            model: self.model.clone(),
            endpoint: self.endpoint.clone(),
            upstream: self.upstream.clone(),
        }
    }

    /// Whether the keys are the same.
    pub fn same(&self, other: &BucketKey) -> (r: bool)
        ensures
            r == (self@ == other@),
    {
        self.status == other.status && text::str_eq(self.model.as_str(), other.model.as_str())
            && text::str_eq(self.endpoint.as_str(), other.endpoint.as_str()) && text::str_eq(
            self.upstream.as_str(),
            other.upstream.as_str(),
        )
    }

    /// Whether the key comes before the other.
    pub fn before(&self, other: &BucketKey) -> (r: bool)
        ensures
            r == key_before(self@, other@),
    {
        if self.status != other.status {
            self.status.place() < other.status.place()
        } else if !text::str_eq(self.model.as_str(), other.model.as_str()) {
            text::is_before(self.model.as_str(), other.model.as_str())
        } else if !text::str_eq(self.endpoint.as_str(), other.endpoint.as_str()) {
            text::is_before(self.endpoint.as_str(), other.endpoint.as_str())
        } else {
            text::is_before(self.upstream.as_str(), other.upstream.as_str())
        }
    }
}

/// A label, `unknown` where there is none.
pub open spec fn label(value: Option<Seq<char>>) -> Seq<char> {
    match value {
        Some(t) => t,
        None => "unknown"@,
    }
}

/// The key of a flow.
pub open spec fn flow_key(
    status: FlowStatus,
    served_model: Option<Seq<char>>,
    endpoint: Seq<char>,
    upstream: Option<Seq<char>>,
) -> KeyView {
    KeyView {
        status: StatusClass::of(status),
        model: label(served_model),
        endpoint,
        upstream: label(upstream),
    }
}

/// A label, `unknown` where there is none.
pub fn label_or_unknown(value: Option<&str>) -> (r: String)
    ensures
        r@ == label(text::opt_str_view(value)),
{
    match value {
        Some(t) => t.to_owned(),
        None => "unknown".to_owned(),
    }
}

/// What is counted under a key.
#[derive(Debug, Clone, Copy, PartialEq, Eq, Structural)]
pub struct BucketCounts {
    /// Requests.
    pub count: u64,
    /// Prompt tokens.
    pub prompt_tokens: i64,
    /// Completion tokens.
    pub completion_tokens: i64,
    /// Tokens from the cache.
    pub cached_tokens: i64,
    /// Tokens of reasoning.
    pub reasoning_tokens: i64,
}

/// The sum, as far as the type goes.
pub open spec fn sat_sum(a: i64, b: i64) -> i64 {
    if a + b > i64::MAX {
        i64::MAX
    } else if a + b < i64::MIN {
        i64::MIN
    } else {
        (a + b) as i64
    }
}

fn add_tokens(a: i64, b: i64) -> (r: i64)
    ensures
        r == sat_sum(a, b),
{
    match a.checked_add(b) {
        Some(s) => s,
        None => if b > 0 {
            i64::MAX
        } else {
            i64::MIN
        },
    }
}

impl BucketCounts {
    /// Nothing counted.
    pub open spec fn zero() -> BucketCounts {
        BucketCounts {
            count: 0,
            prompt_tokens: 0,
            completion_tokens: 0,
            cached_tokens: 0,
            reasoning_tokens: 0,
        }
    }

    /// Both together, each count as far as its type goes.
    pub open spec fn sum(self, other: BucketCounts) -> BucketCounts {
        BucketCounts {
            count: histogram::sat_add(self.count, other.count),
            prompt_tokens: sat_sum(self.prompt_tokens, other.prompt_tokens),
            completion_tokens: sat_sum(self.completion_tokens, other.completion_tokens),
            cached_tokens: sat_sum(self.cached_tokens, other.cached_tokens),
            reasoning_tokens: sat_sum(self.reasoning_tokens, other.reasoning_tokens),
        }
    }

    /// What a flow with this many requests and these tokens counts.
    pub open spec fn of(count: u64, usage: Option<FlowUsage>) -> BucketCounts {
        match usage {
            Some(u) => BucketCounts {
                count,
                prompt_tokens: u.prompt,
                completion_tokens: u.completion,
                cached_tokens: u.cached,
                reasoning_tokens: u.reasoning,
            },
            None => BucketCounts { count, ..BucketCounts::zero() },
        }
    }

    /// What a flow with this many requests and these tokens counts.
    pub fn of_flow(count: u64, usage: Option<FlowUsage>) -> (r: Self)
        ensures
            r == BucketCounts::of(count, usage),
    {
        match usage {
            Some(u) => BucketCounts {
                count,
                prompt_tokens: u.prompt,
                completion_tokens: u.completion,
                cached_tokens: u.cached,
                reasoning_tokens: u.reasoning,
            },
            None => BucketCounts {
                count,
                prompt_tokens: 0,
                completion_tokens: 0,
                cached_tokens: 0,
                reasoning_tokens: 0,
            },
        }
    }

    /// Both together.
    pub fn plus(self, other: BucketCounts) -> (r: Self)
        ensures
            r == self.sum(other),
    {
        let count: u64 = match self.count.checked_add(other.count) {
            Some(n) => n,
            None => u64::MAX,
        };
        BucketCounts {
            count,
            prompt_tokens: add_tokens(self.prompt_tokens, other.prompt_tokens),
            completion_tokens: add_tokens(self.completion_tokens, other.completion_tokens),
            cached_tokens: add_tokens(self.cached_tokens, other.cached_tokens),
            reasoning_tokens: add_tokens(self.reasoning_tokens, other.reasoning_tokens),
        }
    }
}

impl Default for BucketCounts {
    fn default() -> (r: Self)
        ensures
            r == BucketCounts::zero(),
    {
        BucketCounts {
            count: 0,
            prompt_tokens: 0,
            completion_tokens: 0,
            cached_tokens: 0,
            reasoning_tokens: 0,
        }
    }
}

// --- Counts by key -----------------------------------------------------------------------------

/// The counts under a key, from `i` on.
pub open spec fn counts_from(m: Seq<(KeyView, BucketCounts)>, key: KeyView, i: int) -> BucketCounts
    decreases m.len() - i,
{
    if !(0 <= i < m.len()) {
        BucketCounts::zero()
    } else if m[i].0 == key {
        m[i].1
    } else {
        counts_from(m, key, i + 1)
    }
}

/// The counts under a key, none where it is not there.
pub open spec fn counts_under(m: Seq<(KeyView, BucketCounts)>, key: KeyView) -> BucketCounts {
    counts_from(m, key, 0)
}

/// `m` with `c` added under `key`, looked for from `i` on. A new key comes before the
/// first key that it precedes.
pub open spec fn added_from(
    m: Seq<(KeyView, BucketCounts)>,
    key: KeyView,
    c: BucketCounts,
    i: int,
) -> Seq<(KeyView, BucketCounts)>
    decreases m.len() - i,
{
    if !(0 <= i < m.len()) {
        m.push((key, BucketCounts::zero().sum(c)))
    } else if m[i].0 == key {
        m.update(i, (key, m[i].1.sum(c)))
    } else if key_before(key, m[i].0) {
        m.insert(i, (key, BucketCounts::zero().sum(c)))
    } else {
        added_from(m, key, c, i + 1)
    }
}

/// `m` with `c` added under `key`.
pub open spec fn added(
    m: Seq<(KeyView, BucketCounts)>,
    key: KeyView,
    c: BucketCounts,
) -> Seq<(KeyView, BucketCounts)> {
    added_from(m, key, c, 0)
}

/// `m` with the first `n` counts of `other` added.
pub open spec fn added_all(
    m: Seq<(KeyView, BucketCounts)>,
    other: Seq<(KeyView, BucketCounts)>,
    n: int,
) -> Seq<(KeyView, BucketCounts)>
    decreases n,
{
    if n <= 0 || n > other.len() {
        m
    } else {
        added(added_all(m, other, n - 1), other[n - 1].0, other[n - 1].1)
    }
}

/// The requests under the first `n` keys, as far as the type goes.
pub open spec fn requests(m: Seq<(KeyView, BucketCounts)>, n: int) -> u64
    decreases n,
{
    if n <= 0 || n > m.len() {
        0
    } else {
        histogram::sat_add(requests(m, n - 1), m[n - 1].1.count)
    }
}

/// The keys ascend.
pub open spec fn keys_ascend(m: Seq<(KeyView, BucketCounts)>) -> bool {
    forall|i: int, j: int| 0 <= i < j < m.len() ==> key_before(#[trigger] m[i].0, #[trigger] m[j].0)
}

/// Counts by key, the keys ascending.
#[derive(Debug, Clone)]
pub struct Buckets {
    /// The keys and their counts.
    pub entries: Vec<(BucketKey, BucketCounts)>,
}

impl View for Buckets {
    type V = Seq<(KeyView, BucketCounts)>;

    open spec fn view(&self) -> Seq<(KeyView, BucketCounts)> {
        self.entries@.map_values(|e: (BucketKey, BucketCounts)| (e.0@, e.1))
    }
}

impl Buckets {
    /// No counts.
    pub fn new() -> (r: Self)
        ensures
            r@ == Seq::<(KeyView, BucketCounts)>::empty(),
    {
        let r = Buckets { entries: Vec::new() };
        assert(r@ =~= Seq::empty());
        r
    }

    /// The counts under a key.
    pub fn get(&self, key: &BucketKey) -> (r: BucketCounts)
        ensures
            r == counts_under(self@, key@),
    {
        let mut i: usize = 0;
        while i < self.entries.len()
            invariant
                i <= self.entries@.len(),
                counts_under(self@, key@) == counts_from(self@, key@, i as int),
            decreases self.entries@.len() - i,
        {
            if self.entries[i].0.same(key) {
                return self.entries[i].1;
            }
            i += 1;
        }
        BucketCounts::default()
    }

    /// Adds counts under a key.
    pub fn add(&mut self, key: &BucketKey, counts: BucketCounts)
        ensures
            final(self)@ == added(old(self)@, key@, counts),
    {
        let ghost before = self@;
        let mut i: usize = 0;
        while i < self.entries.len()
            invariant
                i <= self.entries@.len(),
                *self == *old(self),
                before == self@,
                added(before, key@, counts) == added_from(before, key@, counts, i as int),
            decreases self.entries@.len() - i,
        {
            if self.entries[i].0.same(key) {
                let sum = self.entries[i].1.plus(counts);
                self.entries.set(i, (key.copy(), sum));
                assert(self@ =~= before.update(i as int, (key@, sum)));
                return;
            }
            if key.before(&self.entries[i].0) {
                let sum = BucketCounts::default().plus(counts);
                self.entries.insert(i, (key.copy(), sum));
                assert(self@ =~= before.insert(i as int, (key@, sum)));
                return;
            }
            i += 1;
        }
        let sum = BucketCounts::default().plus(counts);
        self.entries.push((key.copy(), sum));
        assert(self@ =~= before.push((key@, sum)));
    }

    /// Adds all counts of another.
    pub fn add_all(&mut self, other: &Buckets)
        ensures
            final(self)@ == added_all(old(self)@, other@, other@.len() as int),
    {
        let mut i: usize = 0;
        while i < other.entries.len()
            invariant
                i <= other.entries@.len(),
                self@ == added_all(old(self)@, other@, i as int),
            decreases other.entries@.len() - i,
        {
            assert(other@[i as int] == (other.entries@[i as int].0@, other.entries@[i as int].1));
            self.add(&other.entries[i].0, other.entries[i].1);
            i += 1;
        }
    }

    /// The requests under all keys.
    pub fn total_count(&self) -> (r: u64)
        ensures
            r == requests(self@, self@.len() as int),
    {
        let mut total: u64 = 0;
        let mut i: usize = 0;
        while i < self.entries.len()
            invariant
                i <= self.entries@.len(),
                total == requests(self@, i as int),
            decreases self.entries@.len() - i,
        {
            total = match total.checked_add(self.entries[i].1.count) {
                Some(n) => n,
                None => u64::MAX,
            };
            i += 1;
        }
        total
    }
}

// --- Laws --------------------------------------------------------------------------------------

pub proof fn lemma_before_irreflexive(a: KeyView)
    ensures
        !key_before(a, a),
{
    text::lemma_before_irreflexive(a.upstream, 0);
}

proof fn lemma_before_total(a: KeyView, b: KeyView)
    requires
        a != b,
        !key_before(a, b),
    ensures
        key_before(b, a),
{
    assert(a.model.take(0) =~= b.model.take(0));
    assert(a.endpoint.take(0) =~= b.endpoint.take(0));
    assert(a.upstream.take(0) =~= b.upstream.take(0));
    if a.status == b.status {
        if a.model != b.model {
            text::lemma_before_total(a.model, b.model, 0);
        } else if a.endpoint != b.endpoint {
            text::lemma_before_total(a.endpoint, b.endpoint, 0);
        } else {
            text::lemma_before_total(a.upstream, b.upstream, 0);
        }
    }
}

proof fn lemma_before_transitive(a: KeyView, b: KeyView, c: KeyView)
    requires
        key_before(a, b),
        key_before(b, c),
    ensures
        key_before(a, c),
{
    text::lemma_before_irreflexive(a.model, 0);
    text::lemma_before_irreflexive(a.endpoint, 0);
    if a.status == b.status && b.status == c.status {
        if a.model != b.model && b.model != c.model {
            text::lemma_before_transitive(a.model, b.model, c.model, 0);
        } else if a.model == b.model && b.model == c.model {
            if a.endpoint != b.endpoint && b.endpoint != c.endpoint {
                text::lemma_before_transitive(a.endpoint, b.endpoint, c.endpoint, 0);
            } else if a.endpoint == b.endpoint && b.endpoint == c.endpoint {
                text::lemma_before_transitive(a.upstream, b.upstream, c.upstream, 0);
            }
        }
    }
}

proof fn lemma_added_shape(
    m: Seq<(KeyView, BucketCounts)>,
    key: KeyView,
    c: BucketCounts,
    i: int,
) -> (at: int)
    requires
        0 <= i <= m.len(),
    ensures
        i <= at <= m.len(),
        forall|k: int|
            i <= k < at ==> (#[trigger] m[k]).0 != key && !key_before(key, m[k].0),
        if at < m.len() && m[at].0 == key {
            added_from(m, key, c, i) == m.update(at, (key, m[at].1.sum(c)))
        } else {
            &&& added_from(m, key, c, i) == m.insert(at, (key, BucketCounts::zero().sum(c)))
            &&& at < m.len() ==> key_before(key, m[at].0)
        },
    decreases m.len() - i,
{
    if i == m.len() {
        assert(m.push((key, BucketCounts::zero().sum(c))) =~= m.insert(
            i,
            (key, BucketCounts::zero().sum(c)),
        ));
        i
    } else if m[i].0 == key || key_before(key, m[i].0) {
        i
    } else {
        lemma_added_shape(m, key, c, i + 1)
    }
}

/// Counts that are added one after the other are added as their sum, where the sum is the
/// same on top of every count.
pub proof fn lemma_added_twice(
    m: Seq<(KeyView, BucketCounts)>,
    key: KeyView,
    a: BucketCounts,
    b: BucketCounts,
    both: BucketCounts,
    i: int,
)
    requires
        0 <= i <= m.len(),
        keys_ascend(m),
        forall|c: BucketCounts| (#[trigger] c.sum(a)).sum(b) == c.sum(both),
    ensures
        added_from(added_from(m, key, a, i), key, b, i) == added_from(m, key, both, i),
{
    let at = lemma_added_shape(m, key, a, i);
    let one = added_from(m, key, a, i);
    let at_both = lemma_added_shape(m, key, both, i);
    let there = at < m.len() && m[at].0 == key;
    if at < at_both {
        assert(m[at].0 != key && !key_before(key, m[at].0));
    } else if at_both < at {
        assert(m[at_both].0 != key && !key_before(key, m[at_both].0));
    }
    assert forall|k: int| i <= k < at implies (#[trigger] one[k]).0 != key && !key_before(
        key,
        one[k].0,
    ) by {
        assert(one[k] == m[k]);
    }
    assert(one[at].0 == key);
    lemma_reached(one, key, b, i, at);
    let zero = BucketCounts::zero();
    if there {
        assert(m[at].1.sum(a).sum(b) == m[at].1.sum(both));
        assert(added_from(one, key, b, i) =~= added_from(m, key, both, i));
    } else {
        assert(zero.sum(a).sum(b) == zero.sum(both));
        assert(added_from(one, key, b, i) =~= added_from(m, key, both, i));
    }
}

proof fn lemma_reached(
    m: Seq<(KeyView, BucketCounts)>,
    key: KeyView,
    c: BucketCounts,
    i: int,
    at: int,
)
    requires
        0 <= i <= at < m.len(),
        m[at].0 == key,
        forall|k: int| i <= k < at ==> (#[trigger] m[k]).0 != key && !key_before(key, m[k].0),
    ensures
        added_from(m, key, c, i) == m.update(at, (key, m[at].1.sum(c))),
    decreases at - i,
{
    if i < at {
        assert(m[i].0 != key);
        lemma_reached(m, key, c, i + 1, at);
    }
}

proof fn lemma_counts_skip(m: Seq<(KeyView, BucketCounts)>, key: KeyView, i: int, j: int)
    requires
        0 <= i <= j <= m.len(),
        forall|k: int| i <= k < j ==> (#[trigger] m[k]).0 != key,
    ensures
        counts_from(m, key, i) == counts_from(m, key, j),
    decreases j - i,
{
    if i < j {
        assert(m[i].0 != key);
        lemma_counts_skip(m, key, i + 1, j);
    }
}

proof fn lemma_counts_tail(
    m: Seq<(KeyView, BucketCounts)>,
    n: Seq<(KeyView, BucketCounts)>,
    key: KeyView,
    i: int,
    j: int,
)
    requires
        0 <= i <= m.len(),
        0 <= j <= n.len(),
        m.skip(i) == n.skip(j),
    ensures
        counts_from(m, key, i) == counts_from(n, key, j),
    decreases m.len() - i,
{
    assert(m.skip(i).len() == m.len() - i);
    assert(n.skip(j).len() == n.len() - j);
    if i < m.len() {
        assert(m[i] == m.skip(i)[0]);
        assert(n[j] == n.skip(j)[0]);
        assert(m.skip(i + 1) =~= m.skip(i).skip(1));
        assert(n.skip(j + 1) =~= n.skip(j).skip(1));
        lemma_counts_tail(m, n, key, i + 1, j + 1);
    }
}

/// Keys stay ascending when counts are added, so that no key is there twice.
pub proof fn law_keys_stay_ascending(
    m: Seq<(KeyView, BucketCounts)>,
    key: KeyView,
    c: BucketCounts,
)
    requires
        keys_ascend(m),
    ensures
        keys_ascend(added(m, key, c)),
{
    let at = lemma_added_shape(m, key, c, 0);
    let after = added(m, key, c);
    if at < m.len() && m[at].0 == key {
        assert(forall|k: int| 0 <= k < m.len() ==> (#[trigger] after[k]).0 == m[k].0);
    } else {
        assert forall|i: int, j: int| 0 <= i < j < after.len() implies key_before(
            #[trigger] after[i].0,
            #[trigger] after[j].0,
        ) by {
            if j == at {
                assert(after[i] == m[i]);
                lemma_before_total(key, m[i].0);
            } else if i == at {
                assert(after[j] == m[j - 1]);
                if j - 1 > at {
                    assert(key_before(m[at].0, m[j - 1].0));
                    lemma_before_transitive(key, m[at].0, m[j - 1].0);
                }
            } else {
                let i0 = if i < at {
                    i
                } else {
                    i - 1
                };
                let j0 = if j < at {
                    j
                } else {
                    j - 1
                };
                assert(after[i] == m[i0] && after[j] == m[j0]);
            }
        }
    }
}

/// Counts that are added are there, on top of those that were, and no others change.
pub proof fn law_added_counts_are_there(
    m: Seq<(KeyView, BucketCounts)>,
    key: KeyView,
    c: BucketCounts,
    other: KeyView,
)
    requires
        keys_ascend(m),
    ensures
        counts_under(added(m, key, c), other) == if other == key {
            counts_under(m, key).sum(c)
        } else {
            counts_under(m, other)
        },
{
    let at = lemma_added_shape(m, key, c, 0);
    let after = added(m, key, c);
    let there = at < m.len() && m[at].0 == key;
    assert forall|k: int| 0 <= k < at implies after[k] == m[k] by {}
    if other == key {
        assert forall|k: int| 0 <= k < at implies (#[trigger] after[k]).0 != key by {
            assert(after[k] == m[k]);
            assert(m[k].0 != key);
        }
        lemma_counts_skip(after, key, 0, at);
        lemma_counts_skip(m, key, 0, at);
        assert(after[at].0 == key);
        if !there {
            assert forall|k: int| at <= k < m.len() implies (#[trigger] m[k]).0 != key by {
                if k > at {
                    assert(key_before(m[at].0, m[k].0));
                    lemma_before_transitive(key, m[at].0, m[k].0);
                }
                lemma_before_irreflexive(key);
            }
            lemma_counts_skip(m, key, at, m.len() as int);
        }
    } else {
        let next = if there {
            at + 1
        } else {
            at
        };
        assert(m.skip(next) =~= after.skip(at + 1));
        lemma_counts_tail(m, after, other, next, at + 1);
        assert(after[at].0 == key);
        assert(counts_from(after, other, at) == counts_from(after, other, at + 1));
        if there {
            assert(counts_from(m, other, at) == counts_from(m, other, at + 1));
        }
        lemma_same_before(m, after, other, at, 0);
    }
}

proof fn lemma_same_before(
    m: Seq<(KeyView, BucketCounts)>,
    after: Seq<(KeyView, BucketCounts)>,
    other: KeyView,
    at: int,
    i: int,
)
    requires
        0 <= i <= at <= m.len(),
        at <= after.len(),
        forall|k: int| 0 <= k < at ==> after[k] == m[k],
        counts_from(m, other, at) == counts_from(after, other, at),
    ensures
        counts_from(m, other, i) == counts_from(after, other, i),
    decreases at - i,
{
    if i < at {
        lemma_same_before(m, after, other, at, i + 1);
    }
}

} // verus!
