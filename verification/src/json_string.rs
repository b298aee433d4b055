//! JSON string literals: escapes to characters and back.
use vstd::prelude::*;

use crate::digest;
use crate::text;

verus! {

/// How a character stands inside a JSON string literal: a quote, a backslash and
/// the control characters are escaped, everything else stands for itself.
pub open spec fn escaped_char(c: char) -> Seq<char> {
    if c == '"' {
        seq!['\\', '"']
    } else if c == '\\' {
        seq!['\\', '\\']
    } else if c == '\u{8}' {
        seq!['\\', 'b']
    } else if c == '\t' {
        seq!['\\', 't']
    } else if c == '\n' {
        seq!['\\', 'n']
    } else if c == '\u{C}' {
        seq!['\\', 'f']
    } else if c == '\r' {
        seq!['\\', 'r']
    } else if (c as int) < 32 {
        seq![
            '\\',
            'u',
            '0',
            '0',
            digest::hex_digit(c as int / 16),
            digest::hex_digit(c as int % 16),
        ]
    } else {
        seq![c]
    }
}

/// The characters of `t[i..]` inside a JSON string literal.
pub open spec fn escaped(t: Seq<char>, i: int) -> Seq<char>
    decreases t.len() - i,
{
    if !(0 <= i < t.len()) {
        seq![]
    } else {
        escaped_char(t[i]) + escaped(t, i + 1)
    }
}

/// `t` as a JSON string literal, quotes included.
pub open spec fn quoted(t: Seq<char>) -> Seq<char> {
    seq!['"'] + escaped(t, 0) + seq!['"']
}

/// `serde_json::to_string` on a string: the string as a JSON literal. It writes to
/// memory, which does not fail, and a string always serialises.
#[verifier::external_body]
fn serde_quote(t: &str) -> (r: Option<String>)
    ensures
        text::opt_view(r) == Some(quoted(t@)),
{
    serde_json::to_string(t).ok()
}

/// `t` as a JSON string literal, quotes included.
pub fn encode_json_string(t: &str) -> (r: String)
    ensures
        r@ == quoted(t@),
{
    match serde_quote(t) {
        Some(s) => s,
        None => "\"\"".to_owned(),
    }
}

/// The value of a hexadecimal digit.
pub open spec fn hex_value(c: char) -> Option<nat> {
    if '0' <= c <= '9' {
        Some((c as nat - 48) as nat)
    } else if 'a' <= c <= 'f' {
        Some((c as nat - 87) as nat)
    } else if 'A' <= c <= 'F' {
        Some((c as nat - 55) as nat)
    } else {
        None
    }
}

/// Reads `n` hexadecimal digits of `t` from `i`, on top of the value `acc`: their
/// value, and where reading stopped. A character that is no digit is consumed.
pub open spec fn hex_run(t: Seq<char>, i: int, n: nat, acc: nat) -> (Option<nat>, int)
    decreases n,
{
    if n == 0 {
        (Some(acc), i)
    } else if !(0 <= i < t.len()) {
        (None, i)
    } else {
        match hex_value(t[i]) {
            Some(d) => hex_run(t, i + 1, (n - 1) as nat, acc * 16 + d),
            None => (None, i + 1),
        }
    }
}

/// Four hexadecimal digits of `t` from `i`.
pub open spec fn hex4(t: Seq<char>, i: int) -> (Option<nat>, int) {
    hex_run(t, i, 4, 0)
}

/// The first half of a surrogate pair.
pub open spec fn is_high_surrogate(n: nat) -> bool {
    0xD800 <= n <= 0xDBFF
}

/// The second half of a surrogate pair.
pub open spec fn is_low_surrogate(n: nat) -> bool {
    0xDC00 <= n <= 0xDFFF
}

/// What a `\\u` escape whose digits start at `i` stands for, and where it ends. Two
/// escapes that form a surrogate pair stand for one character, an unpaired first
/// half for U+FFFD, and anything malformed for nothing.
pub open spec fn unicode_escape(t: Seq<char>, i: int) -> (Seq<char>, int) {
    let (value, end) = hex4(t, i);
    match value {
        None => (seq![], end),
        Some(hi) => if is_high_surrogate(hi) {
            let (low, low_end) = hex4(t, end + 2);
            if end + 1 < t.len() && t[end] == '\\' && t[end + 1] == 'u' && low is Some
                && is_low_surrogate(low->0) {
                (seq![(0x10000 + (hi - 0xD800) * 1024 + (low->0 - 0xDC00)) as char], low_end)
            } else {
                (seq!['\u{FFFD}'], end)
            }
        } else if is_low_surrogate(hi) {
            (seq![], end)
        } else {
            (seq![hi as char], end)
        },
    }
}

/// What stands after the backslash of an escape at `i`: what the escape stands for,
/// and where it ends.
pub open spec fn escape_at(t: Seq<char>, i: int) -> (Seq<char>, int) {
    if i >= t.len() {
        (seq![], i)
    } else if t[i] == 'n' {
        (seq!['\n'], i + 1)
    } else if t[i] == 't' {
        (seq!['\t'], i + 1)
    } else if t[i] == 'r' {
        (seq!['\r'], i + 1)
    } else if t[i] == 'b' {
        (seq!['\u{8}'], i + 1)
    } else if t[i] == 'f' {
        (seq!['\u{C}'], i + 1)
    } else if t[i] == 'u' {
        unicode_escape(t, i + 1)
    } else {
        (seq![t[i]], i + 1)
    }
}

/// Reading digits moves on.
pub proof fn lemma_hex_run(t: Seq<char>, i: int, n: nat, acc: nat)
    requires
        0 <= i <= t.len(),
        n <= 4,
        acc < 0x10000,
        n == 4 ==> acc == 0,
        n == 3 ==> acc < 16,
        n == 2 ==> acc < 256,
        n == 1 ==> acc < 4096,
    ensures
        i <= hex_run(t, i, n, acc).1 <= t.len(),
        hex_run(t, i, n, acc).0 matches Some(v) ==> v < 0x10000,
    decreases n,
{
    if n > 0 && i < t.len() && hex_value(t[i]) is Some {
        lemma_hex_run(t, i + 1, (n - 1) as nat, acc * 16 + hex_value(t[i])->0);
    }
}

/// An escape ends within the text.
pub proof fn lemma_escape(t: Seq<char>, i: int)
    requires
        0 <= i <= t.len(),
    ensures
        i <= escape_at(t, i).1 <= t.len(),
{
    if i < t.len() && t[i] == 'u' {
        lemma_hex_run(t, i + 1, 4, 0);
        let end = hex4(t, i + 1).1;
        if end + 2 <= t.len() {
            lemma_hex_run(t, end + 2, 4, 0);
        }
    }
}

/// The characters that `t[i..]`, the inside of a JSON string literal, stands for.
/// An unknown escape stands for the character after its backslash.
pub open spec fn unescaped(t: Seq<char>, i: int) -> Seq<char>
    decreases t.len() - i,
{
    if !(0 <= i < t.len()) {
        seq![]
    } else if t[i] != '\\' {
        seq![t[i]] + unescaped(t, i + 1)
    } else {
        proof {
            lemma_escape(t, i + 1);
        }
        escape_at(t, i + 1).0 + unescaped(t, escape_at(t, i + 1).1)
    }
}

/// The value of a hexadecimal digit.
fn digit_value(c: char) -> (r: Option<u32>)
    ensures
        match r {
            Some(d) => hex_value(c) == Some(d as nat) && d < 16,
            None => hex_value(c) is None,
        },
{
    let n: u32 = c as u32;
    if c >= '0' && c <= '9' {
        Some(n - 48)
    } else if c >= 'a' && c <= 'f' {
        Some(n - 87)
    } else if c >= 'A' && c <= 'F' {
        Some(n - 55)
    } else {
        None
    }
}

/// Reads four hexadecimal digits from `i`: their value, and where reading stopped.
pub fn take_hex4(chars: &[char], i: usize) -> (r: (Option<u32>, usize))
    requires
        i <= chars@.len(),
    ensures
        i <= r.1 <= chars@.len(),
        hex4(chars@, i as int).1 == r.1,
        match r.0 {
            Some(v) => hex4(chars@, i as int).0 == Some(v as nat) && v < 0x10000,
            None => hex4(chars@, i as int).0 is None,
        },
{
    let n: usize = chars.len();
    let mut value: u32 = 0;
    let mut at: usize = i;
    let mut left: u32 = 4;
    while left > 0
        invariant
            n == chars@.len(),
            i <= at <= n,
            left <= 4,
            left == 4 ==> value == 0,
            left == 3 ==> value < 16,
            left == 2 ==> value < 256,
            left == 1 ==> value < 4096,
            value < 0x10000,
            hex4(chars@, i as int) == hex_run(chars@, at as int, left as nat, value as nat),
        decreases left,
    {
        if at >= n {
            return (None, at);
        }
        match digit_value(chars[at]) {
            Some(d) => {
                value = value * 16 + d;
                at += 1;
                left -= 1;
            },
            None => {
                return (None, at + 1);
            },
        }
    }
    (Some(value), at)
}

/// `char::from_u32` on the number of a character: that character.
#[verifier::external_body]
fn char_of(n: u32) -> (r: char)
    requires
        n <= 0x10FFFF,
        !(0xD800 <= n <= 0xDFFF),
    ensures
        r == n as char,
        r as u32 == n,
{
    char::from_u32(n).unwrap_or('\u{FFFD}')
}

/// What a `\\u` escape whose digits start at `i` stands for, and where it ends.
fn decode_unicode_escape(chars: &[char], i: usize) -> (r: (Option<char>, usize))
    requires
        i <= chars@.len(),
    ensures
        i <= r.1 <= chars@.len(),
        unicode_escape(chars@, i as int) == (opt_char(r.0), r.1 as int),
{
    let n: usize = chars.len();
    let (value, end) = take_hex4(chars, i);
    let hi: u32 = match value {
        Some(hi) => hi,
        None => {
            return (None, end);
        },
    };
    if hi >= 0xD800 && hi <= 0xDBFF {
        if end < n - 1 && chars[end] == '\\' && chars[end + 1] == 'u' {
            let (low, low_end) = take_hex4(chars, end + 2);
            if let Some(lo) = low {
                if lo >= 0xDC00 && lo <= 0xDFFF {
                    let c: u32 = 0x10000 + (hi - 0xD800) * 1024 + (lo - 0xDC00);
                    return (Some(char_of(c)), low_end);
                }
            }
        }
        (Some('\u{FFFD}'), end)
    } else if hi >= 0xDC00 && hi <= 0xDFFF {
        (None, end)
    } else {
        (Some(char_of(hi)), end)
    }
}

/// No character or one.
pub open spec fn opt_char(c: Option<char>) -> Seq<char> {
    match c {
        Some(c) => seq![c],
        None => seq![],
    }
}

/// The characters that the inside of a JSON string literal stands for.
pub fn decode_json_string_inner(inner: &str) -> (r: String)
    ensures
        r@ == unescaped(inner@, 0),
{
    let chars = text::chars_of(inner);
    let n: usize = chars.len();
    let mut out = String::new();
    let mut i: usize = 0;
    while i < n
        invariant
            n == chars@.len(),
            chars@ == inner@,
            i <= n,
            out@ + unescaped(inner@, i as int) == unescaped(inner@, 0),
        decreases n - i,
    {
        let c = chars[i];
        let ghost before = out@;
        let ghost at = i as int;
        if c != '\\' {
            out.push(c);
            i += 1;
            assert(before + (seq![c] + unescaped(inner@, at + 1)) =~= before.push(c) + unescaped(
                inner@,
                at + 1,
            ));
        } else {
            proof {
                lemma_escape(inner@, i + 1);
            }
            let (decoded, end) = decode_escape(&chars, i + 1);
            if let Some(d) = decoded {
                out.push(d);
            }
            i = end;
            assert(before + (opt_char(decoded) + unescaped(inner@, end as int)) =~= out@
                + unescaped(inner@, end as int));
        }
    }
    assert(out@ + Seq::<char>::empty() =~= out@);
    out
}

fn decode_escape(chars: &[char], i: usize) -> (r: (Option<char>, usize))
    requires
        i <= chars@.len(),
    ensures
        i <= r.1 <= chars@.len(),
        escape_at(chars@, i as int) == (opt_char(r.0), r.1 as int),
{
    if i >= chars.len() {
        return (None, i);
    }
    let c = chars[i];
    if c == 'n' {
        (Some('\n'), i + 1)
    } else if c == 't' {
        (Some('\t'), i + 1)
    } else if c == 'r' {
        (Some('\r'), i + 1)
    } else if c == 'b' {
        (Some('\u{8}'), i + 1)
    } else if c == 'f' {
        (Some('\u{C}'), i + 1)
    } else if c == 'u' {
        decode_unicode_escape(chars, i + 1)
    } else {
        (Some(c), i + 1)
    }
}

/// Reading the inside of a literal gives back the text that was written.
pub proof fn law_unescape_undoes_escape(t: Seq<char>)
    ensures
        unescaped(escaped(t, 0), 0) == t,
{
    assert(escaped(t, 0).skip(0) =~= escaped(t, 0));
    lemma_round_trip(t, 0, escaped(t, 0), 0);
    assert(t.skip(0) =~= t);
}

proof fn lemma_char_code(c: char)
    ensures
        0 <= c as int <= 0x10FFFF,
{
}

proof fn lemma_round_trip(t: Seq<char>, i: int, w: Seq<char>, j: int)
    requires
        0 <= i <= t.len(),
        0 <= j <= w.len(),
        w.skip(j) == escaped(t, i),
    ensures
        unescaped(w, j) == t.skip(i),
    decreases t.len() - i,
{
    if i < t.len() {
        let c = t[i];
        let e = escaped_char(c);
        let rest = escaped(t, i + 1);
        assert(w.skip(j) == e + rest);
        assert(w.skip(j).len() == w.len() - j);
        let n = e.len() as int;
        assert(forall|k: int| 0 <= k < n ==> w[j + k] == #[trigger] e[k]) by {
            assert forall|k: int| 0 <= k < n implies w[j + k] == #[trigger] e[k] by {
                assert(w.skip(j)[k] == e[k]);
            }
        }
        assert(w.skip(j + n) =~= rest) by {
            assert(w.skip(j + n) =~= w.skip(j).skip(n));
            assert((e + rest).skip(n) =~= rest);
        }
        lemma_round_trip(t, i + 1, w, j + n);
        assert(w[j] == e[0]);
        let short = c == '"' || c == '\\' || c == '\u{8}' || c == '\t' || c == '\n' || c
            == '\u{C}' || c == '\r';
        if short {
            assert(e.len() == 2);
            assert(w[j + 1] == e[1]);
            assert(escape_at(w, j + 1) == (seq![c], j + 2));
        } else if (c as int) < 32 {
            assert(e.len() == 6);
            assert(w[j + 1] == e[1] && w[j + 2] == e[2] && w[j + 3] == e[3] && w[j + 4] == e[4]
                && w[j + 5] == e[5]);
            reveal_with_fuel(hex_run, 5);
            lemma_char_code(c);
            let hi = c as int / 16;
            let lo = c as int % 16;
            assert(0 <= hi <= 1 && 0 <= lo < 16);
            assert(e[4] == digest::hex_digit(hi));
            assert(e[5] == digest::hex_digit(lo));
            assert(hex_value(e[4]) == Some(hi as nat));
            assert(hex_value(e[5]) == Some(lo as nat));
            assert(hex4(w, j + 2) == (Some((hi * 16 + lo) as nat), j + 6));
            assert(escape_at(w, j + 1) == (seq![c], j + 6));
        }
        assert(seq![c] + t.skip(i + 1) =~= t.skip(i));
    } else {
        assert(w.skip(j).len() == w.len() - j);
        assert(t.skip(i) =~= seq![]);
    }
}

} // verus!
