//! Counting kinds of things, and showing lists of them on a log line.
use vstd::prelude::*;

use crate::text;

verus! {

/// One more, as far as the type goes.
pub open spec fn next(n: usize) -> usize {
    if n == usize::MAX {
        n
    } else {
        (n + 1) as usize
    }
}

/// The sum, as far as the type goes.
pub open spec fn total(a: usize, b: nat) -> usize {
    if a + b > usize::MAX {
        usize::MAX
    } else {
        (a + b) as usize
    }
}

/// `m` with `key` counted once more, looked for from `i` on. A new key comes before the
/// first key that it precedes.
pub open spec fn bumped_from(m: Seq<(Seq<char>, usize)>, key: Seq<char>, i: int) -> Seq<
    (Seq<char>, usize),
>
    decreases m.len() - i,
{
    if !(0 <= i < m.len()) {
        m.push((key, 1usize))
    } else if m[i].0 == key {
        m.update(i, (key, next(m[i].1)))
    } else if text::before(key, m[i].0) {
        m.insert(i, (key, 1usize))
    } else {
        bumped_from(m, key, i + 1)
    }
}

/// `m` with `key` counted once more.
pub open spec fn bumped(m: Seq<(Seq<char>, usize)>, key: Seq<char>) -> Seq<(Seq<char>, usize)> {
    bumped_from(m, key, 0)
}

/// How often each key occurs, the keys ascending.
pub struct Tally {
    entries: Vec<(String, usize)>,
}

impl View for Tally {
    type V = Seq<(Seq<char>, usize)>;

    closed spec fn view(&self) -> Seq<(Seq<char>, usize)> {
        self.entries@.map_values(|e: (String, usize)| (e.0@, e.1))
    }
}

impl Tally {
    /// Nothing counted.
    pub fn new() -> (r: Self)
        ensures
            r@ == Seq::<(Seq<char>, usize)>::empty(),
    {
        let r = Tally { entries: Vec::new() };
        assert(r@ =~= Seq::empty());
        r
    }

    /// Counts `key` once more.
    pub fn bump(&mut self, key: &str)
        ensures
            final(self)@ == bumped(old(self)@, key@),
    {
        let ghost before = self@;
        let mut i: usize = 0;
        while i < self.entries.len()
            invariant
                i <= self.entries@.len(),
                *self == *old(self),
                before == self@,
                bumped(before, key@) == bumped_from(before, key@, i as int),
            decreases self.entries@.len() - i,
        {
            if text::str_eq(self.entries[i].0.as_str(), key) {
                let count: usize = match self.entries[i].1.checked_add(1) {
                    Some(n) => n,
                    None => usize::MAX,
                };
                self.entries.set(i, (key.to_owned(), count));
                assert(self@ =~= before.update(i as int, (key@, count)));
                return;
            }
            if text::is_before(key, self.entries[i].0.as_str()) {
                self.entries.insert(i, (key.to_owned(), 1));
                assert(self@ =~= before.insert(i as int, (key@, 1usize)));
                return;
            }
            i += 1;
        }
        self.entries.push((key.to_owned(), 1));
        assert(self@ =~= before.push((key@, 1usize)));
    }

    /// Whether nothing was counted.
    pub fn is_empty(&self) -> (r: bool)
        ensures
            r == (self@.len() == 0),
    {
        self.entries.len() == 0
    }

    /// Each key with its count.
    pub fn shown(&self) -> (r: Vec<String>)
        ensures
            text::strings_view(r@) == shown_counts(self@),
    {
        let mut out: Vec<String> = Vec::new();
        let mut i: usize = 0;
        while i < self.entries.len()
            invariant
                i <= self.entries@.len(),
                out@.len() == i,
                forall|k: int| 0 <= k < i ==> (#[trigger] out@[k])@ == shown_count(self@[k]),
            decreases self.entries@.len() - i,
        {
            let mut t = self.entries[i].0.clone();
            t.append(":");
            t.append(text::decimal_of(self.entries[i].1 as u128).as_str());
            assert(self@[i as int] == (self.entries@[i as int].0@, self.entries@[i as int].1));
            out.push(t);
            i += 1;
        }
        assert(text::strings_view(out@) =~= shown_counts(self@));
        out
    }
}

/// A key with its count.
pub open spec fn shown_count(e: (Seq<char>, usize)) -> Seq<char> {
    e.0 + ":"@ + text::decimal(e.1 as nat)
}

/// Each key with its count.
pub open spec fn shown_counts(m: Seq<(Seq<char>, usize)>) -> Seq<Seq<char>> {
    m.map_values(|e: (Seq<char>, usize)| shown_count(e))
}

/// The first `max` values, and how many more there are.
pub open spec fn cut_list(values: Seq<Seq<char>>, max: int) -> Seq<Seq<char>> {
    if values.len() > max {
        values.take(max).push("+"@ + text::decimal((values.len() - max) as nat))
    } else {
        values
    }
}

/// A list in brackets, with at most `max` of its values.
pub open spec fn summarized(values: Seq<Seq<char>>, max: int) -> Seq<char> {
    "["@ + text::join(cut_list(values, max), ","@) + "]"@
}

/// A list in brackets, with at most `max` of its values.
pub fn summarized_list(values: Vec<String>, max: usize) -> (r: String)
    ensures
        r@ == summarized(text::strings_view(values@), max as int),
{
    let count: usize = values.len();
    let ghost all = text::strings_view(values@);
    let mut shown: Vec<String> = Vec::new();
    let mut i: usize = 0;
    while i < count && i < max
        invariant
            i <= count,
            i <= max,
            count == values@.len(),
            shown@.len() == i,
            forall|k: int| 0 <= k < i ==> (#[trigger] shown@[k])@ == values@[k]@,
        decreases count - i,
    {
        shown.push(values[i].clone());
        i += 1;
    }
    assert(text::strings_view(shown@) =~= all.take(i as int));
    if count > max {
        let more = text::joined("+", text::decimal_of((count - max) as u128).as_str());
        let ghost before = shown@;
        shown.push(more);
        assert(text::strings_view(shown@) =~= text::strings_view(before).push(more@));
    } else {
        assert(all.take(i as int) =~= all);
    }
    let mut out = "[".to_owned();
    out.append(text::join_strings(&shown, ",").as_str());
    out.append("]");
    out
}

} // verus!
