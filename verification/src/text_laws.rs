//! What holds of trimmed, joined and numbered texts.
use vstd::prelude::*;

use crate::text;

verus! {

/// Neither end of a text is white space.
pub open spec fn is_tight(t: Seq<char>) -> bool {
    t.len() > 0 && !text::is_whitespace(t[0]) && !text::is_whitespace(t[t.len() - 1])
}

proof fn lemma_skip(t: Seq<char>, i: int)
    requires
        0 <= i <= t.len(),
    ensures
        i <= text::skip_whitespace(t, i) <= t.len(),
        forall|k: int|
            i <= k < text::skip_whitespace(t, i) ==> text::is_whitespace(#[trigger] t[k]),
        text::skip_whitespace(t, i) < t.len() ==> !text::is_whitespace(
            t[text::skip_whitespace(t, i)],
        ),
    decreases t.len() - i,
{
    if i < t.len() && text::is_whitespace(t[i]) {
        lemma_skip(t, i + 1);
    }
}

proof fn lemma_back(t: Seq<char>, i: int, j: int)
    requires
        0 <= i <= j <= t.len(),
    ensures
        i <= text::trim_back(t, i, j) <= j,
        forall|k: int| text::trim_back(t, i, j) <= k < j ==> text::is_whitespace(#[trigger] t[k]),
        text::trim_back(t, i, j) > i ==> !text::is_whitespace(t[text::trim_back(t, i, j) - 1]),
    decreases j - i,
{
    if i < j && text::is_whitespace(t[j - 1]) {
        lemma_back(t, i, j - 1);
    }
}

/// Trimming takes white space from the two ends, and nothing else; what is left has none there.
pub proof fn law_trimming_takes_white_space(t: Seq<char>)
    ensures
        text::trimmed(t).len() == 0 || is_tight(text::trimmed(t)),
        exists|i: int, j: int| #[trigger] is_trimmed_at(t, i, j)
            && text::trimmed(t) == t.subrange(i, j),
{
    lemma_skip(t, 0);
    let i = text::skip_whitespace(t, 0);
    lemma_back(t, i, t.len() as int);
    let j = text::trim_back(t, i, t.len() as int);
    assert(is_trimmed_at(t, i, j));
}

/// Before `i` and from `j` on there is only white space.
pub open spec fn is_trimmed_at(t: Seq<char>, i: int, j: int) -> bool {
    &&& 0 <= i <= j <= t.len()
    &&& forall|k: int| 0 <= k < i ==> text::is_whitespace(#[trigger] t[k])
    &&& forall|k: int| j <= k < t.len() ==> text::is_whitespace(#[trigger] t[k])
}

/// A part whose ends are no white space survives trimming.
pub proof fn law_trimming_keeps_parts(t: Seq<char>, p: Seq<char>)
    requires
        text::has_part(t, p),
        is_tight(p),
    ensures
        text::has_part(text::trimmed(t), p),
{
    let at = choose|at: int| text::holds_at(t, at, p);
    let n = p.len() as int;
    let s = t.subrange(at, at + n);
    assert(s[0] == t[at]);
    assert(s[n - 1] == t[at + n - 1]);
    lemma_skip(t, 0);
    let i = text::skip_whitespace(t, 0);
    lemma_back(t, i, t.len() as int);
    let j = text::trim_back(t, i, t.len() as int);
    assert(i <= at);
    assert(at + n <= j);
    assert(text::trimmed(t).subrange(at - i, at - i + n) =~= p);
    assert(text::holds_at(text::trimmed(t), at - i, p));
}

/// Every one of the joined texts is a part of what they are joined to.
pub proof fn law_joined_texts_are_parts(parts: Seq<Seq<char>>, sep: Seq<char>, n: int, k: int)
    requires
        0 <= k < n <= parts.len(),
    ensures
        text::has_part(text::join_n(parts, sep, n), parts[k]),
    decreases n,
{
    let all = text::join_n(parts, sep, n);
    let len = parts[k].len() as int;
    if n == 1 {
        assert(all.subrange(0, len) =~= parts[k]);
        assert(text::holds_at(all, 0, parts[k]));
    } else {
        let rest = text::join_n(parts, sep, n - 1);
        if k == n - 1 {
            let at = (rest.len() + sep.len()) as int;
            assert(all.subrange(at, at + len) =~= parts[k]);
            assert(text::holds_at(all, at, parts[k]));
        } else {
            law_joined_texts_are_parts(parts, sep, n - 1, k);
            let at = choose|at: int| text::holds_at(rest, at, parts[k]);
            assert(all.subrange(at, at + len) =~= rest.subrange(at, at + len));
            assert(text::holds_at(all, at, parts[k]));
        }
    }
}

/// Joined texts are as long as the texts and the separators between them.
pub proof fn law_joined_length(parts: Seq<Seq<char>>, sep: Seq<char>, n: int)
    requires
        1 <= n < parts.len(),
    ensures
        text::join_n(parts, sep, n + 1).len() == text::join_n(parts, sep, n).len() + sep.len()
            + parts[n].len(),
{
}

/// The number that decimal digits stand for.
pub open spec fn decimal_value(t: Seq<char>) -> int
    decreases t.len(),
{
    if t.len() == 0 {
        0
    } else {
        10 * decimal_value(t.drop_last()) + (t.last() as int - '0' as int)
    }
}

/// A number in decimal is digits that stand for it, and does not begin with a zero unless it
/// is zero; so two numbers never have the same text.
pub proof fn law_decimal_is_the_number(n: nat)
    ensures
        text::decimal(n).len() > 0,
        decimal_value(text::decimal(n)) == n,
        forall|k: int| 0 <= k < text::decimal(n).len() ==> '0' <= #[trigger] text::decimal(n)[k]
            <= '9',
        n > 0 ==> text::decimal(n)[0] != '0',
    decreases n,
{
    if n >= 10 {
        law_decimal_is_the_number(n / 10);
        let t = text::decimal(n);
        assert(t.drop_last() =~= text::decimal(n / 10));
        assert(t[0] == text::decimal(n / 10)[0]);
        assert(t.last() == text::digit((n % 10) as int));
        assert(t.last() as int == n % 10 + 48);
        assert('0' as int == 48);
    } else {
        let t = text::decimal(n);
        assert(t.drop_last() =~= Seq::<char>::empty());
        assert(decimal_value(t.drop_last()) == 0);
        assert(t.last() as int == n + 48);
        assert('0' as int == 48);
    }
}

/// A capital letter of ASCII is lowered to the letter that it is the capital of, and any other
/// character stays.
pub proof fn law_capitals_are_lowered(c: char)
    ensures
        65 <= c as u32 <= 90 ==> text::ascii_lower(c) as u32 == c as u32 + 32,
        !(65 <= c as u32 <= 90) ==> text::ascii_lower(c) == c,
        text::ascii_lower(text::ascii_lower(c)) == text::ascii_lower(c),
{
}

/// Lowering a text lowers each of its characters.
pub proof fn law_text_is_lowered_by_characters(t: Seq<char>, i: int)
    ensures
        text::ascii_lower_seq(t).len() == t.len(),
        0 <= i < t.len() ==> text::ascii_lower_seq(t)[i] == text::ascii_lower(t[i]),
{
}

/// In ASCII white space is the blank and what moves the place of writing; letters, digits and
/// signs are none. Beyond ASCII it is the next line, the spaces of fixed width, and what
/// separates lines and paragraphs.
pub proof fn law_white_space(c: char)
    ensures
        (c as u32) < 128 ==> (text::is_whitespace(c) <==> c == ' ' || c == '\t' || c == '\n' || c
            == '\r' || c as u32 == 11 || c as u32 == 12),
        128 <= c as u32 <= 255 ==> (text::is_whitespace(c) <==> c as u32 == 133 || c as u32 == 160),
        256 <= c as u32
            ==> (text::is_whitespace(c) <==> c as u32 == 5760 || 8192 <= c as u32 <= 8202
            || c as u32 == 8232 || c as u32 == 8233 || c as u32 == 8239 || c as u32 == 8287 || c
            as u32 == 12288),
{
}

/// Of two texts the first place at which they differ decides which comes first.
pub proof fn law_first_difference_decides(a: Seq<char>, b: Seq<char>, k: int)
    requires
        0 <= k < a.len(),
        k < b.len(),
        a.take(k) == b.take(k),
        a[k] != b[k],
    ensures
        text::before(a, b) <==> a[k] < b[k],
{
    lemma_same_start(a, b, 0, k);
}

/// A text comes before every longer one that starts with it, and not before itself.
pub proof fn law_shorter_text_comes_first(a: Seq<char>, b: Seq<char>)
    ensures
        b.len() > 0 ==> text::before(a, a + b),
        !text::before(a + b, a),
{
    lemma_same_start(a, a + b, 0, a.len() as int);
    lemma_same_start(a + b, a, 0, a.len() as int);
}

proof fn lemma_same_start(a: Seq<char>, b: Seq<char>, i: int, k: int)
    requires
        0 <= i <= k <= a.len(),
        k <= b.len(),
        a.take(k) =~= b.take(k),
    ensures
        text::before_from(a, b, i) == text::before_from(a, b, k),
    decreases k - i,
{
    if i < k {
        assert(a.take(k)[i] == b.take(k)[i]);
        lemma_same_start(a, b, i + 1, k);
    }
}

/// A text that is held at a place stands there character by character.
pub proof fn law_held_text_stands_there(t: Seq<char>, i: int, p: Seq<char>)
    ensures
        text::holds_at(t, i, p) <==> 0 <= i && i + p.len() <= t.len() && forall|k: int|
            0 <= k < p.len() ==> t[i + k] == #[trigger] p[k],
        text::has_suffix(t, p) <==> p.is_suffix_of(t),
{
    if 0 <= i && i + p.len() <= t.len() {
        let part = t.subrange(i, i + p.len());
        if part == p {
            assert forall|k: int| 0 <= k < p.len() implies t[i + k] == #[trigger] p[k] by {
                assert(part[k] == p[k]);
            }
        }
        if forall|k: int| 0 <= k < p.len() ==> t[i + k] == #[trigger] p[k] {
            assert(part =~= p);
        }
    }
}

/// What the first element gives something for is what is found, and nothing is found where
/// none gives anything.
pub proof fn law_first_that_gives_is_found<T, U>(
    s: Seq<T>,
    f: spec_fn(int, T) -> Option<U>,
    i: int,
    k: int,
)
    requires
        0 <= i <= k <= s.len(),
        forall|j: int| i <= j < k ==> f(j, #[trigger] s[j]) is None,
    ensures
        k < s.len() && f(k, s[k]) is Some ==> text::first_some(s, f, i) == f(k, s[k]),
        k == s.len() ==> text::first_some(s, f, i) is None,
    decreases k - i,
{
    if i < k {
        assert(f(i, s[i]) is None);
        law_first_that_gives_is_found(s, f, i + 1, k);
    }
}

/// A negative number is written as its opposite behind a minus.
pub proof fn law_negative_has_a_minus(n: int)
    requires
        n > 0,
    ensures
        text::signed(-n) == "-"@ + text::signed(n),
        text::signed(n) == text::decimal(n as nat),
        text::signed(0) == text::decimal(0),
{
}

/// An element is named by its place in brackets behind the name of the list.
pub proof fn law_element_is_named_by_its_place(base: Seq<char>, i: nat)
    ensures
        text::indexed(base, i as int) == base + "["@ + text::decimal(i) + "]"@,
{
}

/// What an optional text holds is the text, and nothing where there is none.
pub proof fn law_optional_text_is_seen(t: String, texts: Vec<String>, i: int)
    ensures
        text::opt_view(Some(t)) == Some(t@),
        text::opt_view(None) is None,
        text::strings_view(texts@).len() == texts@.len(),
        0 <= i < texts@.len() ==> text::strings_view(texts@)[i] == texts@[i]@,
        text::opt_strings_view(Some(texts)) == Some(text::strings_view(texts@)),
        text::opt_strings_view(None) is None,
{
}

} // verus!
