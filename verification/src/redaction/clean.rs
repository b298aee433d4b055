//! No image URI is left in what is captured of a body.
use vstd::prelude::*;

use crate::redaction;
use crate::redaction::capture;

verus! {

/// What a capture shows of a value.
pub enum Shown {
    /// The mark in the place of a sensitive value.
    Mark,
    /// A number, `true`, `false` or `null`.
    Scalar(Seq<u8>),
    /// A string.
    Text(Seq<char>),
    /// An array.
    Array(Seq<Shown>),
    /// An object, by its keys.
    Object(Seq<(Seq<char>, Shown)>),
}

/// What is shown, as bytes.
pub open spec fn bytes_of(t: Shown) -> Seq<u8>
    decreases t, 0nat,
{
    match t {
        Shown::Mark => capture::redacted_mark(),
        Shown::Scalar(b) => b,
        Shown::Text(t) => capture::literal_bytes(t),
        Shown::Array(items) => seq![91u8] + if items.len() == 0 {
            seq![93u8]
        } else {
            elements_bytes(items, items.len())
        },
        Shown::Object(m) => seq![123u8] + if m.len() == 0 {
            seq![125u8]
        } else {
            members_bytes(m, m.len())
        },
    }
}

/// The last `n` elements, closing bracket included.
pub open spec fn elements_bytes(items: Seq<Shown>, n: nat) -> Seq<u8>
    decreases items, n,
{
    if n == 0 || n > items.len() {
        seq![]
    } else {
        bytes_of(items[items.len() - n]) + if n == 1 {
            seq![93u8]
        } else {
            seq![44u8] + elements_bytes(items, (n - 1) as nat)
        }
    }
}

/// The last `n` members, closing brace included.
pub open spec fn members_bytes(m: Seq<(Seq<char>, Shown)>, n: nat) -> Seq<u8>
    decreases m, n,
{
    if n == 0 || n > m.len() {
        seq![]
    } else {
        capture::literal_bytes(m[m.len() - n].0) + seq![58u8] + bytes_of(m[m.len() - n].1)
            + if n == 1 {
            seq![125u8]
        } else {
            seq![44u8] + members_bytes(m, (n - 1) as nat)
        }
    }
}

/// Whether a text holds no image URI.
pub open spec fn is_clean_text(t: Seq<char>) -> bool {
    forall|k: int| (#[trigger] redaction::uri_prefix(t, k)) is None
}

/// Whether no value that is shown holds an image URI: a string holds none, and anything
/// else that is copied is a JSON scalar, without the colon that each URI has.
pub open spec fn is_clean(t: Shown) -> bool
    decreases t,
{
    match t {
        Shown::Mark => true,
        Shown::Scalar(b) => (capture::is_number(b) || capture::is_word(b)) && !b.contains(58u8),
        Shown::Text(t) => is_clean_text(t),
        Shown::Array(items) => forall|i: int|
            0 <= i < items.len() ==> is_clean(#[trigger] items[i]),
        Shown::Object(m) => forall|i: int| 0 <= i < m.len() ==> is_clean((#[trigger] m[i]).1),
    }
}

// --- Scalars -----------------------------------------------------------------------------------

proof fn lemma_digits(s: Seq<u8>, i: int)
    requires
        0 <= i <= s.len(),
    ensures
        i <= capture::digits_end(s, i) <= s.len(),
        forall|k: int| i <= k < capture::digits_end(s, i) ==> (#[trigger] s[k]) != 58,
    decreases s.len() - i,
{
    if i < s.len() && 48 <= s[i] <= 57 {
        lemma_digits(s, i + 1);
    }
}

/// A JSON scalar has no colon.
pub proof fn law_scalar_has_no_colon(s: Seq<u8>)
    requires
        capture::is_number(s) || capture::is_word(s),
    ensures
        !s.contains(58u8),
{
    if capture::is_number(s) {
        let i = if capture::byte_at(s, 0, 45) {
            1int
        } else {
            0
        };
        lemma_digits(s, i);
        let w = capture::whole_end(s)->0;
        if capture::byte_at(s, w, 46) {
            lemma_digits(s, w + 1);
        }
        let f = capture::fraction_end(s, w)->0;
        if capture::byte_at(s, f, 101) || capture::byte_at(s, f, 69) {
            let d = if capture::byte_at(s, f + 1, 43) || capture::byte_at(s, f + 1, 45) {
                f + 2
            } else {
                f + 1
            };
            if d <= s.len() {
                lemma_digits(s, d);
            }
        }
        assert forall|k: int| 0 <= k < s.len() implies (#[trigger] s[k]) != 58 by {
            if k < w {
            } else if k < f {
            } else {
            }
        }
    }
}

// --- Values ------------------------------------------------------------------------------------

proof fn lemma_more_elements(first: Shown, rest: Seq<Shown>, n: nat)
    requires
        n <= rest.len(),
    ensures
        elements_bytes(seq![first] + rest, n) == elements_bytes(rest, n),
    decreases n,
{
    let all = seq![first] + rest;
    if n > 0 {
        lemma_more_elements(first, rest, (n - 1) as nat);
        assert(all[all.len() - n] == rest[rest.len() - n]);
    }
}

proof fn lemma_more_members(
    first: (Seq<char>, Shown),
    rest: Seq<(Seq<char>, Shown)>,
    n: nat,
)
    requires
        n <= rest.len(),
    ensures
        members_bytes(seq![first] + rest, n) == members_bytes(rest, n),
    decreases n,
{
    let all = seq![first] + rest;
    if n > 0 {
        lemma_more_members(first, rest, (n - 1) as nat);
        assert(all[all.len() - n] == rest[rest.len() - n]);
    }
}

proof fn lemma_value(s: Seq<u8>, i: int, depth: nat, sensitive: bool, cap: nat) -> (t: Shown)
    requires
        0 <= i <= s.len(),
        capture::value_out(s, i, depth, sensitive, cap) is Some,
    ensures
        bytes_of(t) == (capture::value_out(s, i, depth, sensitive, cap)->0).0,
        is_clean(t),
    decreases capture::MAX_JSON_DEPTH + 1 - depth, s.len() + 1 - i, 1int,
{
    capture::lemma_space_end(s, i);
    let p = capture::space_end(s, i);
    if sensitive {
        Shown::Mark
    } else if s[p] == 123 {
        capture::lemma_space_end(s, p + 1);
        let q = capture::space_end(s, p + 1);
        if capture::byte_at(s, q, 125) {
            let t = Shown::Object(seq![]);
            assert(bytes_of(t) =~= seq![123u8, 125u8]);
            t
        } else {
            Shown::Object(lemma_members(s, q, depth, cap))
        }
    } else if s[p] == 91 {
        capture::lemma_space_end(s, p + 1);
        let q = capture::space_end(s, p + 1);
        if capture::byte_at(s, q, 93) {
            let t = Shown::Array(seq![]);
            assert(bytes_of(t) =~= seq![91u8, 93u8]);
            t
        } else {
            Shown::Array(lemma_elements(s, q, depth, cap))
        }
    } else if s[p] == 34 {
        let e = capture::string_end(s, p)->0;
        let t = capture::literal_text(s, p, e, cap);
        let out = redaction::uris_redacted(t, 0);
        assert forall|k: int| (#[trigger] redaction::uri_prefix(out, k)) is None by {
            redaction::law_no_uri_survives(t, k);
        }
        Shown::Text(out)
    } else {
        let b = s.subrange(p, capture::scalar_at(s, p)->0);
        law_scalar_has_no_colon(b);
        Shown::Scalar(b)
    }
}

proof fn lemma_members(s: Seq<u8>, i: int, depth: nat, cap: nat) -> (m: Seq<(Seq<char>, Shown)>)
    requires
        0 <= i <= s.len(),
        depth <= capture::MAX_JSON_DEPTH,
        capture::members_out(s, i, depth, cap) is Some,
    ensures
        m.len() > 0,
        members_bytes(m, m.len()) == (capture::members_out(s, i, depth, cap)->0).0,
        forall|k: int| 0 <= k < m.len() ==> is_clean((#[trigger] m[k]).1),
    decreases capture::MAX_JSON_DEPTH + 1 - depth, s.len() + 1 - i, 0int,
{
    capture::lemma_space_end(s, i);
    let k = capture::space_end(s, i);
    capture::lemma_string_end(s, k);
    let e = capture::string_end(s, k)->0;
    let key = capture::literal_text(s, k, e, cap);
    capture::lemma_space_end(s, e);
    let c = capture::space_end(s, e);
    let sensitive = redaction::is_sensitive_key(key);
    capture::lemma_value_out(s, c + 1, depth + 1, sensitive, cap);
    let first = (key, lemma_value(s, c + 1, depth + 1, sensitive, cap));
    let (o, v) = capture::value_out(s, c + 1, depth + 1, sensitive, cap)->0;
    capture::lemma_space_end(s, v);
    let n = capture::space_end(s, v);
    let member = capture::literal_bytes(key) + seq![58u8] + o;
    if capture::byte_at(s, n, 44) {
        let rest = lemma_members(s, n + 1, depth, cap);
        let m = seq![first] + rest;
        lemma_more_members(first, rest, rest.len());
        assert(m[m.len() - m.len()] == first);
        assert(members_bytes(m, m.len()) =~= member + seq![44u8] + members_bytes(rest, rest.len()));
        m
    } else {
        let m = seq![first];
        assert(members_bytes(m, 1) =~= member + seq![125u8]);
        m
    }
}

proof fn lemma_elements(s: Seq<u8>, i: int, depth: nat, cap: nat) -> (items: Seq<Shown>)
    requires
        0 <= i <= s.len(),
        depth <= capture::MAX_JSON_DEPTH,
        capture::elements_out(s, i, depth, cap) is Some,
    ensures
        items.len() > 0,
        elements_bytes(items, items.len()) == (capture::elements_out(s, i, depth, cap)->0).0,
        forall|k: int| 0 <= k < items.len() ==> is_clean(#[trigger] items[k]),
    decreases capture::MAX_JSON_DEPTH + 1 - depth, s.len() + 1 - i, 0int,
{
    capture::lemma_value_out(s, i, depth + 1, false, cap);
    let first = lemma_value(s, i, depth + 1, false, cap);
    let (o, v) = capture::value_out(s, i, depth + 1, false, cap)->0;
    capture::lemma_space_end(s, v);
    let n = capture::space_end(s, v);
    if capture::byte_at(s, n, 44) {
        let rest = lemma_elements(s, n + 1, depth, cap);
        let items = seq![first] + rest;
        lemma_more_elements(first, rest, rest.len());
        assert(items[items.len() - items.len()] == first);
        assert(elements_bytes(items, items.len()) =~= o + seq![44u8] + elements_bytes(
            rest,
            rest.len(),
        ));
        items
    } else {
        let items = seq![first];
        assert(elements_bytes(items, 1) =~= o + seq![93u8]);
        items
    }
}

// --- The capture -------------------------------------------------------------------------------

/// Whether a capture is that of a JSON value that was followed: its start, as far as the
/// cap goes.
pub open spec fn shows(out: Seq<u8>, t: Shown, body_cap: nat) -> bool {
    out == capture::capped(bytes_of(t), body_cap)
}

/// Whatever a body holds, no image URI is left in what is captured of it. Either the body
/// is JSON, and no value that is shown holds one; or it is not, and the text that is shown
/// is the start of one that holds none.
pub proof fn law_capture_has_no_uri(raw: Seq<u8>, body_cap: nat, scalar_cap: nat)
    ensures
        ({
            let out = capture::captured(raw, body_cap, scalar_cap);
            ||| exists|t: Shown| is_clean(t) && #[trigger] shows(out, t, body_cap)
            ||| exists|t: Seq<char>|
                is_clean_text(t) && out.is_prefix_of(#[trigger] vstd::utf8::encode_utf8(t))
        }),
{
    let out = capture::captured(raw, body_cap, scalar_cap);
    match capture::value_out(raw, 0, 0, false, scalar_cap) {
        Some((o, end)) if vstd::utf8::valid_utf8(raw) && capture::space_end(raw, end)
            >= raw.len() => {
            let t = lemma_value(raw, 0, 0, false, scalar_cap);
            assert(shows(out, t, body_cap));
        },
        _ => {
            let lossy = capture::lossy_text(capture::capped(raw, body_cap));
            let t = redaction::uris_redacted(lossy, 0);
            assert forall|k: int| (#[trigger] redaction::uri_prefix(t, k)) is None by {
                redaction::law_no_uri_survives(lossy, k);
            }
            redaction::law_cut_fits(vstd::utf8::encode_utf8(t), body_cap);
        },
    }
}

} // verus!
