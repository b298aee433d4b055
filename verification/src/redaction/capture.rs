//! Capped, redacting capture of a request or response body, in one forward pass
//! over its bytes.
use vstd::prelude::*;
use vstd::string::StringSliceAdditionalSpecFns;

use crate::json_string;
use crate::redaction;
use crate::text;

verus! {

/// `String::from_utf8_lossy` on `bytes`: the text, with U+FFFD for what is no UTF-8.
pub uninterp spec fn lossy_text(bytes: Seq<u8>) -> Seq<char>;

/// `String::from_utf8_lossy`: a text that depends on `bytes` alone, and keeps valid
/// UTF-8 as it is.
#[verifier::external_body]
fn from_utf8_lossy(bytes: &[u8]) -> (r: String)
    ensures
        r@ == lossy_text(bytes@),
        vstd::utf8::valid_utf8(bytes@) ==> r@ == vstd::utf8::decode_utf8(bytes@),
{
    String::from_utf8_lossy(bytes).into_owned()
}

/// The text of bytes, with U+FFFD for what is no UTF-8.
pub fn lossy_text_of(bytes: &[u8]) -> (r: String)
    ensures
        r@ == lossy_text(bytes@),
        vstd::utf8::valid_utf8(bytes@) ==> r@ == vstd::utf8::decode_utf8(bytes@),
{
    from_utf8_lossy(bytes)
}

/// `std::str::from_utf8`: the bytes as a text, just where they are valid UTF-8.
#[verifier::external_body]
fn from_utf8<'a>(bytes: &'a [u8]) -> (r: Option<&'a str>)
    ensures
        r is Some == vstd::utf8::valid_utf8(bytes@),
        r matches Some(t) ==> t.spec_bytes() == bytes@,
{
    std::str::from_utf8(bytes).ok()
}

/// Nesting beyond this depth is not followed.
pub const MAX_JSON_DEPTH: usize = 128;

// --- What is captured ---------------------------------------------------------------------

/// `s` up to `cap` bytes.
pub open spec fn capped(s: Seq<u8>, cap: nat) -> Seq<u8> {
    if s.len() <= cap {
        s
    } else {
        s.take(cap as int)
    }
}

/// White space between JSON tokens.
pub open spec fn is_space(b: u8) -> bool {
    b == 32 || b == 9 || b == 10 || b == 13
}

/// The first index from `i` that is no white space.
pub open spec fn space_end(s: Seq<u8>, i: int) -> int
    decreases s.len() - i,
{
    if 0 <= i < s.len() && is_space(s[i]) {
        space_end(s, i + 1)
    } else {
        i
    }
}

/// A byte that ends a number or a word.
pub open spec fn ends_scalar(b: u8) -> bool {
    b == 44 || b == 125 || b == 93 || is_space(b)
}

/// The end of the number or word at `i`.
pub open spec fn scalar_end(s: Seq<u8>, i: int) -> int
    decreases s.len() - i,
{
    if 0 <= i < s.len() && !ends_scalar(s[i]) {
        scalar_end(s, i + 1)
    } else {
        i
    }
}

/// The first index from `i` that is no decimal digit.
pub open spec fn digits_end(s: Seq<u8>, i: int) -> int
    decreases s.len() - i,
{
    if 0 <= i < s.len() && 48 <= s[i] <= 57 {
        digits_end(s, i + 1)
    } else {
        i
    }
}

/// The end of the whole part of the number at the start, without a needless zero.
pub open spec fn whole_end(s: Seq<u8>) -> Option<int> {
    let i = if byte_at(s, 0, 45) {
        1int
    } else {
        0
    };
    let e = digits_end(s, i);
    if e == i || (s[i] == 48 && e > i + 1) {
        None
    } else {
        Some(e)
    }
}

/// The end of the fraction at `i`, which may be missing.
pub open spec fn fraction_end(s: Seq<u8>, i: int) -> Option<int> {
    if !byte_at(s, i, 46) {
        Some(i)
    } else if digits_end(s, i + 1) == i + 1 {
        None
    } else {
        Some(digits_end(s, i + 1))
    }
}

/// The end of the exponent at `i`, which may be missing.
pub open spec fn exponent_end(s: Seq<u8>, i: int) -> Option<int> {
    if !byte_at(s, i, 101) && !byte_at(s, i, 69) {
        Some(i)
    } else {
        let d = if byte_at(s, i + 1, 43) || byte_at(s, i + 1, 45) {
            i + 2
        } else {
            i + 1
        };
        if digits_end(s, d) == d {
            None
        } else {
            Some(digits_end(s, d))
        }
    }
}

/// Whether the bytes are a JSON number.
pub open spec fn is_number(s: Seq<u8>) -> bool {
    match whole_end(s) {
        Some(w) => match fraction_end(s, w) {
            Some(f) => exponent_end(s, f) == Some(s.len() as int),
            None => false,
        },
        None => false,
    }
}

/// Whether the bytes are `true`, `false` or `null`.
pub open spec fn is_word(s: Seq<u8>) -> bool {
    ||| s == seq![116u8, 114, 117, 101]
    ||| s == seq![102u8, 97, 108, 115, 101]
    ||| s == seq![110u8, 117, 108, 108]
}

/// The end of the number, `true`, `false` or `null` at `i`, or `None` where there is
/// none of them.
pub open spec fn scalar_at(s: Seq<u8>, i: int) -> Option<int> {
    let t = s.subrange(i, scalar_end(s, i));
    if is_number(t) || is_word(t) {
        Some(scalar_end(s, i))
    } else {
        None
    }
}

/// The index after the closing quote of a string whose inside continues at `i`.
pub open spec fn quote_end(s: Seq<u8>, i: int) -> Option<int>
    decreases s.len() + 1 - i,
{
    if !(0 <= i < s.len()) {
        None
    } else if s[i] == 92 {
        quote_end(s, i + 2)
    } else if s[i] == 34 {
        Some(i + 1)
    } else {
        quote_end(s, i + 1)
    }
}

/// The index after the string literal at `i`.
pub open spec fn string_end(s: Seq<u8>, i: int) -> Option<int> {
    if 0 <= i < s.len() && s[i] == 34 {
        quote_end(s, i + 1)
    } else {
        None
    }
}

/// Whether the byte at `i` is `b`.
pub open spec fn byte_at(s: Seq<u8>, i: int, b: u8) -> bool {
    0 <= i < s.len() && s[i] == b
}

/// The end of the value at `i`, nested `depth` deep, or `None` where there is none.
pub open spec fn value_end(s: Seq<u8>, i: int, depth: nat) -> Option<int>
    decreases MAX_JSON_DEPTH + 1 - depth, s.len() + 1 - i, 1int,
    when 0 <= i
{
    let p = space_end(s, i);
    if depth > MAX_JSON_DEPTH || !(i <= p < s.len()) {
        None
    } else if s[p] == 123 {
        let q = space_end(s, p + 1);
        if byte_at(s, q, 125) {
            Some(q + 1)
        } else if i < q <= s.len() {
            members_end(s, q, depth)
        } else {
            None
        }
    } else if s[p] == 91 {
        let q = space_end(s, p + 1);
        if byte_at(s, q, 93) {
            Some(q + 1)
        } else if i < q <= s.len() {
            elements_end(s, q, depth)
        } else {
            None
        }
    } else if s[p] == 34 {
        string_end(s, p)
    } else {
        scalar_at(s, p)
    }
}

/// The end of the object whose members continue at `i`.
pub open spec fn members_end(s: Seq<u8>, i: int, depth: nat) -> Option<int>
    decreases MAX_JSON_DEPTH + 1 - depth, s.len() + 1 - i, 0int,
    when 0 <= i && depth <= MAX_JSON_DEPTH
{
    match string_end(s, space_end(s, i)) {
        None => None,
        Some(k) => {
            let c = space_end(s, k);
            if !byte_at(s, c, 58) {
                None
            } else {
                match value_end(s, c + 1, depth + 1) {
                    None => None,
                    Some(v) => {
                        let n = space_end(s, v);
                        if byte_at(s, n, 44) && n >= i {
                            members_end(s, n + 1, depth)
                        } else if byte_at(s, n, 125) {
                            Some(n + 1)
                        } else {
                            None
                        }
                    },
                }
            }
        },
    }
}

/// The end of the array whose elements continue at `i`.
pub open spec fn elements_end(s: Seq<u8>, i: int, depth: nat) -> Option<int>
    decreases MAX_JSON_DEPTH + 1 - depth, s.len() + 1 - i, 0int,
    when 0 <= i && depth <= MAX_JSON_DEPTH
{
    match value_end(s, i, depth + 1) {
        None => None,
        Some(v) => {
            let n = space_end(s, v);
            if byte_at(s, n, 44) && n >= i {
                elements_end(s, n + 1, depth)
            } else if byte_at(s, n, 93) {
                Some(n + 1)
            } else {
                None
            }
        },
    }
}

/// The number of backslashes that end at `e`.
pub open spec fn slash_run(s: Seq<u8>, e: int) -> nat
    decreases e,
{
    if 0 < e <= s.len() && s[e - 1] == 92 {
        1 + slash_run(s, e - 1)
    } else {
        0
    }
}

/// The inside of a string literal cut to at most `cap` bytes, without splitting a
/// character or an escape's backslash from what follows it.
pub open spec fn cut_inner(s: Seq<u8>, cap: nat) -> Seq<u8> {
    if s.len() <= cap {
        s
    } else {
        let end = redaction::floor_boundary(s, cap as int);
        if slash_run(s, end) % 2 == 1 {
            s.take(end - 1)
        } else {
            s.take(end)
        }
    }
}

/// The text of the string literal `s[i..e]`, of which at most `cap` bytes are read.
pub open spec fn literal_text(s: Seq<u8>, i: int, e: int, cap: nat) -> Seq<char> {
    json_string::unescaped(
        vstd::utf8::decode_utf8(cut_inner(s.subrange(i + 1, e - 1), cap)),
        0,
    )
}

/// The bytes of a text as a JSON string literal.
pub open spec fn literal_bytes(t: Seq<char>) -> Seq<u8> {
    vstd::utf8::encode_utf8(json_string::quoted(t))
}

/// What replaces a sensitive value.
pub open spec fn redacted_mark() -> Seq<u8> {
    vstd::utf8::encode_utf8("\"[redacted]\""@)
}

/// What is written for the value at `i`, and where the value ends; `None` where the
/// input is malformed or too deep. A sensitive value is replaced as a whole, a
/// string is cut and loses its image URIs, anything else is copied.
pub open spec fn value_out(s: Seq<u8>, i: int, depth: nat, sensitive: bool, cap: nat) -> Option<
    (Seq<u8>, int),
>
    decreases MAX_JSON_DEPTH + 1 - depth, s.len() + 1 - i, 1int,
    when 0 <= i
{
    let p = space_end(s, i);
    if depth > MAX_JSON_DEPTH || !(i <= p < s.len()) {
        None
    } else if sensitive {
        match value_end(s, p, depth) {
            Some(e) => Some((redacted_mark(), e)),
            None => None,
        }
    } else if s[p] == 123 {
        let q = space_end(s, p + 1);
        if byte_at(s, q, 125) {
            Some((seq![123u8, 125u8], q + 1))
        } else if i < q <= s.len() {
            match members_out(s, q, depth, cap) {
                Some((o, e)) => Some((seq![123u8] + o, e)),
                None => None,
            }
        } else {
            None
        }
    } else if s[p] == 91 {
        let q = space_end(s, p + 1);
        if byte_at(s, q, 93) {
            Some((seq![91u8, 93u8], q + 1))
        } else if i < q <= s.len() {
            match elements_out(s, q, depth, cap) {
                Some((o, e)) => Some((seq![91u8] + o, e)),
                None => None,
            }
        } else {
            None
        }
    } else if s[p] == 34 {
        match string_end(s, p) {
            Some(e) => Some(
                (literal_bytes(redaction::uris_redacted(literal_text(s, p, e, cap), 0)), e),
            ),
            None => None,
        }
    } else {
        match scalar_at(s, p) {
            Some(e) => Some((s.subrange(p, e), e)),
            None => None,
        }
    }
}

/// What is written for the members of an object from `i` on, closing brace included.
pub open spec fn members_out(s: Seq<u8>, i: int, depth: nat, cap: nat) -> Option<(Seq<u8>, int)>
    decreases MAX_JSON_DEPTH + 1 - depth, s.len() + 1 - i, 0int,
    when 0 <= i && depth <= MAX_JSON_DEPTH
{
    let k = space_end(s, i);
    match string_end(s, k) {
        None => None,
        Some(e) => {
            let key = literal_text(s, k, e, cap);
            let c = space_end(s, e);
            if !byte_at(s, c, 58) {
                None
            } else {
                match value_out(s, c + 1, depth + 1, redaction::is_sensitive_key(key), cap) {
                    None => None,
                    Some((o, v)) => {
                        let n = space_end(s, v);
                        let member = literal_bytes(key) + seq![58u8] + o;
                        if byte_at(s, n, 44) && n >= i {
                            match members_out(s, n + 1, depth, cap) {
                                Some((rest, end)) => Some((member + seq![44u8] + rest, end)),
                                None => None,
                            }
                        } else if byte_at(s, n, 125) {
                            Some((member + seq![125u8], n + 1))
                        } else {
                            None
                        }
                    },
                }
            }
        },
    }
}

/// What is written for the elements of an array from `i` on, closing bracket
/// included.
pub open spec fn elements_out(s: Seq<u8>, i: int, depth: nat, cap: nat) -> Option<(Seq<u8>, int)>
    decreases MAX_JSON_DEPTH + 1 - depth, s.len() + 1 - i, 0int,
    when 0 <= i && depth <= MAX_JSON_DEPTH
{
    match value_out(s, i, depth + 1, false, cap) {
        None => None,
        Some((o, v)) => {
            let n = space_end(s, v);
            if byte_at(s, n, 44) && n >= i {
                match elements_out(s, n + 1, depth, cap) {
                    Some((rest, end)) => Some((o + seq![44u8] + rest, end)),
                    None => None,
                }
            } else if byte_at(s, n, 93) {
                Some((o + seq![93u8], n + 1))
            } else {
                None
            }
        },
    }
}


/// What is captured of a body: at most `body_cap` bytes of its redacted form, or,
/// where it is no JSON that can be followed, of the redacted text of its first
/// `body_cap` bytes.
pub open spec fn captured(raw: Seq<u8>, body_cap: nat, scalar_cap: nat) -> Seq<u8> {
    match value_out(raw, 0, 0, false, scalar_cap) {
        Some((out, end)) if vstd::utf8::valid_utf8(raw) && space_end(raw, end)
            >= raw.len() => capped(out, body_cap),
        _ => redaction::cut_text(
            vstd::utf8::encode_utf8(
                redaction::uris_redacted(lossy_text(capped(raw, body_cap)), 0),
            ),
            body_cap,
        ),
    }
}

// --- Positions -------------------------------------------------------------------------------

pub proof fn lemma_space_end(s: Seq<u8>, i: int)
    requires
        0 <= i <= s.len(),
    ensures
        i <= space_end(s, i) <= s.len(),
        space_end(s, space_end(s, i)) == space_end(s, i),
    decreases s.len() - i,
{
    if i < s.len() && is_space(s[i]) {
        lemma_space_end(s, i + 1);
    }
}

proof fn lemma_scalar_end(s: Seq<u8>, i: int)
    requires
        0 <= i <= s.len(),
    ensures
        i <= scalar_end(s, i) <= s.len(),
    decreases s.len() - i,
{
    if i < s.len() && !ends_scalar(s[i]) {
        lemma_scalar_end(s, i + 1);
    }
}

proof fn lemma_digits_end(s: Seq<u8>, i: int)
    requires
        0 <= i <= s.len(),
    ensures
        i <= digits_end(s, i) <= s.len(),
    decreases s.len() - i,
{
    if i < s.len() && 48 <= s[i] <= 57 {
        lemma_digits_end(s, i + 1);
    }
}

proof fn lemma_scalar_at(s: Seq<u8>, i: int)
    requires
        0 <= i <= s.len(),
    ensures
        scalar_at(s, i) matches Some(e) ==> i < e <= s.len(),
{
    lemma_scalar_end(s, i);
    if scalar_end(s, i) == i {
        let t = s.subrange(i, i);
        assert(digits_end(t, 0) == 0);
    }
}

proof fn lemma_quote_end(s: Seq<u8>, i: int)
    requires
        0 <= i,
    ensures
        quote_end(s, i) matches Some(e) ==> i < e <= s.len() && s[e - 1] == 34,
    decreases s.len() + 1 - i,
{
    if i < s.len() {
        if s[i] == 92 {
            lemma_quote_end(s, i + 2);
        } else if s[i] != 34 {
            lemma_quote_end(s, i + 1);
        }
    }
}

pub proof fn lemma_string_end(s: Seq<u8>, i: int)
    requires
        0 <= i,
    ensures
        string_end(s, i) matches Some(e) ==> i + 2 <= e <= s.len() && s[i] == 34 && s[e - 1] == 34,
{
    lemma_quote_end(s, i + 1);
}

proof fn lemma_value_end(s: Seq<u8>, i: int, depth: nat)
    requires
        0 <= i <= s.len(),
    ensures
        value_end(s, i, depth) matches Some(e) ==> i < e <= s.len(),
    decreases MAX_JSON_DEPTH + 1 - depth, s.len() + 1 - i, 1int,
{
    lemma_space_end(s, i);
    let p = space_end(s, i);
    if depth <= MAX_JSON_DEPTH && p < s.len() {
        lemma_space_end(s, p + 1);
        lemma_scalar_at(s, p);
        lemma_string_end(s, p);
        let q = space_end(s, p + 1);
        if s[p] == 123 && !byte_at(s, q, 125) {
            lemma_members_end(s, q, depth);
        } else if s[p] == 91 && !byte_at(s, q, 93) {
            lemma_elements_end(s, q, depth);
        }
    }
}

proof fn lemma_members_end(s: Seq<u8>, i: int, depth: nat)
    requires
        0 <= i <= s.len(),
        depth <= MAX_JSON_DEPTH,
    ensures
        members_end(s, i, depth) matches Some(e) ==> i < e <= s.len(),
    decreases MAX_JSON_DEPTH + 1 - depth, s.len() + 1 - i, 0int,
{
    lemma_space_end(s, i);
    lemma_string_end(s, space_end(s, i));
    if let Some(k) = string_end(s, space_end(s, i)) {
        lemma_space_end(s, k);
        let c = space_end(s, k);
        if byte_at(s, c, 58) {
            lemma_value_end(s, c + 1, depth + 1);
            if let Some(v) = value_end(s, c + 1, depth + 1) {
                lemma_space_end(s, v);
                let n = space_end(s, v);
                if byte_at(s, n, 44) {
                    lemma_members_end(s, n + 1, depth);
                }
            }
        }
    }
}

proof fn lemma_elements_end(s: Seq<u8>, i: int, depth: nat)
    requires
        0 <= i <= s.len(),
        depth <= MAX_JSON_DEPTH,
    ensures
        elements_end(s, i, depth) matches Some(e) ==> i < e <= s.len(),
    decreases MAX_JSON_DEPTH + 1 - depth, s.len() + 1 - i, 0int,
{
    lemma_value_end(s, i, depth + 1);
    if let Some(v) = value_end(s, i, depth + 1) {
        lemma_space_end(s, v);
        let n = space_end(s, v);
        if byte_at(s, n, 44) {
            lemma_elements_end(s, n + 1, depth);
        }
    }
}

// --- The inside of a string literal ------------------------------------------------------------

/// In UTF-8, the byte after an ASCII byte starts a character.
proof fn lemma_after_ascii(s: Seq<u8>, i: int)
    requires
        vstd::utf8::valid_utf8(s),
        0 <= i < s.len(),
        s[i] < 0x80,
    ensures
        vstd::utf8::is_char_boundary(s, i),
        vstd::utf8::is_char_boundary(s, i + 1),
{
    vstd::utf8::is_char_boundary_iff_not_is_continuation_byte(s, i);
    vstd::utf8::is_char_boundary_start_end_of_seq(s);
    if i + 1 < s.len() {
        let t = s.subrange(i, s.len() as int);
        vstd::utf8::valid_utf8_split(s, i);
        assert(t[0] == s[i]);
        assert(vstd::utf8::length_of_first_scalar(t) == 1);
        let u = vstd::utf8::pop_first_scalar(t);
        assert(vstd::utf8::valid_utf8(u));
        assert(u[0] == s[i + 1]);
        assert(vstd::utf8::valid_first_scalar(u));
        vstd::utf8::is_char_boundary_iff_not_is_continuation_byte(s, i + 1);
    }
}

/// The inside of a string literal of a text is a text.
proof fn lemma_inside(s: Seq<u8>, i: int, e: int)
    requires
        vstd::utf8::valid_utf8(s),
        0 <= i,
        i + 2 <= e <= s.len(),
        s[i] == 34,
        s[e - 1] == 34,
    ensures
        vstd::utf8::is_char_boundary(s, e - 1),
        vstd::utf8::valid_utf8(s.subrange(0, e - 1)),
        vstd::utf8::is_char_boundary(s.subrange(0, e - 1), i + 1),
        s.subrange(0, e - 1).subrange(i + 1, e - 1) == s.subrange(i + 1, e - 1),
{
    lemma_after_ascii(s, e - 1);
    vstd::utf8::valid_utf8_split(s, e - 1);
    let t = s.subrange(0, e - 1);
    assert(t[i] == s[i]);
    lemma_after_ascii(t, i);
    assert(t.subrange(i + 1, e - 1) =~= s.subrange(i + 1, e - 1));
}

fn slash_run_of(s: &[u8], e: usize) -> (r: usize)
    requires
        e <= s@.len(),
    ensures
        r == slash_run(s@, e as int),
        r <= e,
{
    let mut i: usize = e;
    let mut n: usize = 0;
    while i > 0 && s[i - 1] == 92
        invariant
            i + n == e <= s@.len(),
            slash_run(s@, e as int) == n + slash_run(s@, i as int),
        decreases i,
    {
        i -= 1;
        n += 1;
    }
    n
}

/// The inside of a string literal cut to at most `cap` bytes, without splitting a
/// character or an escape's backslash from what follows it.
pub fn cap_json_string_inner<'a>(inner: &'a str, cap: usize) -> (r: &'a str)
    ensures
        r.spec_bytes() == cut_inner(inner.spec_bytes(), cap as nat),
{
    let capped = redaction::cap_str_on_char_boundary(inner, cap);
    let bytes = inner.as_bytes();
    if bytes.len() <= cap {
        return capped;
    }
    let end: usize = capped.as_bytes().len();
    proof {
        vstd::utf8::encode_utf8_valid_utf8(inner@);
        redaction::lemma_floor_boundary(inner.spec_bytes(), cap as int);
    }
    let ghost s = inner.spec_bytes();
    if slash_run_of(bytes, end) % 2 == 1 {
        proof {
            lemma_after_ascii(s, end - 1);
            assert(s.subrange(0, end - 1) =~= s.take(end - 1));
        }
        inner.split_at(end - 1).0
    } else {
        capped
    }
}

// --- Writing ---------------------------------------------------------------------------------

/// Bytes up to a cap: what does not fit is dropped.
pub struct CappedWriter {
    buf: Vec<u8>,
    cap: usize,
    full: bool,
}

proof fn lemma_capped(a: Seq<u8>, b: Seq<u8>, cap: nat)
    ensures
        capped(capped(a, cap) + b, cap) == capped(a + b, cap),
{
    assert(capped(capped(a, cap) + b, cap) =~= capped(a + b, cap));
}

impl CappedWriter {
    /// What was kept.
    pub closed spec fn kept(&self) -> Seq<u8> {
        self.buf@
    }

    /// The cap.
    pub closed spec fn cap(&self) -> nat {
        self.cap as nat
    }

    /// Whether it takes nothing more.
    pub closed spec fn is_full(&self) -> bool {
        self.full
    }

    #[verifier::type_invariant]
    spec fn inv(&self) -> bool {
        &&& self.buf@.len() <= self.cap
        &&& self.full ==> self.buf@.len() == self.cap
    }

    /// An empty writer.
    pub fn new(size_hint: usize, cap: usize) -> (r: Self)
        ensures
            r.kept() == Seq::<u8>::empty(),
            r.cap() == cap,
            !r.is_full(),
    {
        let reserve: usize = if size_hint <= cap {
            size_hint
        } else {
            cap
        };
        CappedWriter { buf: Vec::with_capacity(reserve), cap, full: false }
    }

    /// Appends `bytes` as far as they fit; `false` where some did not, or nothing
    /// fits any more.
    pub fn write(&mut self, bytes: &[u8]) -> (r: bool)
        ensures
            final(self).cap() == old(self).cap(),
            final(self).kept() == capped(old(self).kept() + bytes@, old(self).cap()),
            r == (!old(self).is_full() && old(self).kept().len() + bytes@.len() <= old(self).cap()),
            final(self).is_full() == (old(self).is_full() || old(self).kept().len() + bytes@.len()
                >= old(self).cap()),
    {
        proof {
            use_type_invariant(&*self);
        }
        if self.full {
            assert(capped(self.buf@ + bytes@, self.cap as nat) =~= self.buf@);
            return false;
        }
        let cap: usize = self.cap;
        let remaining: usize = cap - self.buf.len();
        let mut buf: Vec<u8> = text::bytes_of(&self.buf, 0, 0);
        std::mem::swap(&mut self.buf, &mut buf);
        if bytes.len() <= remaining {
            text::append_bytes(&mut buf, bytes);
            let full = buf.len() == cap;
            *self = CappedWriter { buf, cap, full };
            true
        } else {
            text::append_bytes(&mut buf, vstd::slice::slice_subrange(bytes, 0, remaining));
            assert(buf@ =~= capped(old(self).buf@ + bytes@, cap as nat));
            *self = CappedWriter { buf, cap, full: true };
            false
        }
    }

    /// Appends one byte.
    pub fn write_byte(&mut self, byte: u8) -> (r: bool)
        ensures
            final(self).cap() == old(self).cap(),
            final(self).kept() == capped(old(self).kept() + seq![byte], old(self).cap()),
            r == (!old(self).is_full() && old(self).kept().len() + 1 <= old(self).cap()),
            final(self).is_full() == (old(self).is_full() || old(self).kept().len() + 1 >= old(
                self,
            ).cap()),
    {
        let mut one: Vec<u8> = Vec::new();
        one.push(byte);
        assert(one@ =~= seq![byte]);
        self.write(&one)
    }

    /// What was kept.
    pub fn into_vec(self) -> (r: Vec<u8>)
        ensures
            r@ == self.kept(),
    {
        self.buf
    }
}


// --- Scalars ---------------------------------------------------------------------------------

fn next_is_byte(s: &[u8], i: usize, b: u8) -> (r: bool)
    ensures
        r == byte_at(s@, i as int, b),
{
    i < s.len() && s[i] == b
}

fn skip_digits(s: &[u8], i: usize) -> (r: usize)
    requires
        i <= s@.len(),
    ensures
        r == digits_end(s@, i as int),
        i <= r <= s@.len(),
{
    let mut e: usize = i;
    while e < s.len() && s[e] >= 48 && s[e] <= 57
        invariant
            i <= e <= s@.len(),
            digits_end(s@, i as int) == digits_end(s@, e as int),
        decreases s@.len() - e,
    {
        e += 1;
    }
    e
}

fn is_json_number(s: &[u8]) -> (r: bool)
    ensures
        r == is_number(s@),
{
    let i: usize = if next_is_byte(s, 0, 45) {
        1
    } else {
        0
    };
    let w: usize = skip_digits(s, i);
    if w == i || (s[i] == 48 && w > i + 1) {
        return false;
    }
    let mut f: usize = w;
    if next_is_byte(s, w, 46) {
        f = skip_digits(s, w + 1);
        if f == w + 1 {
            return false;
        }
    }
    if !next_is_byte(s, f, 101) && !next_is_byte(s, f, 69) {
        return f == s.len();
    }
    let d: usize = if next_is_byte(s, f + 1, 43) || next_is_byte(s, f + 1, 45) {
        f + 2
    } else {
        f + 1
    };
    let e: usize = skip_digits(s, d);
    e != d && e == s.len()
}

fn is_json_word(s: &[u8]) -> (r: bool)
    ensures
        r == is_word(s@),
{
    let r = if s.len() == 4 {
        (s[0] == 116 && s[1] == 114 && s[2] == 117 && s[3] == 101) || (s[0] == 110 && s[1] == 117
            && s[2] == 108 && s[3] == 108)
    } else {
        s.len() == 5 && s[0] == 102 && s[1] == 97 && s[2] == 108 && s[3] == 115 && s[4] == 101
    };
    assert(r ==> s@ =~= seq![116u8, 114, 117, 101] || s@ =~= seq![102u8, 97, 108, 115, 101] || s@
        =~= seq![110u8, 117, 108, 108]);
    r
}

/// Whether the bytes are a JSON number, `true`, `false` or `null`.
pub fn is_json_scalar(s: &[u8]) -> (r: bool)
    ensures
        r == (is_number(s@) || is_word(s@)),
{
    is_json_number(s) || is_json_word(s)
}

// --- Reading ---------------------------------------------------------------------------------

/// A forward pass over the bytes of a text.
pub struct JsonRedactor<'a> {
    text: &'a str,
    bytes: &'a [u8],
    pos: usize,
    scalar_cap: usize,
}

impl<'a> JsonRedactor<'a> {
    /// The bytes of the text.
    pub closed spec fn input(&self) -> Seq<u8> {
        self.bytes@
    }

    /// How far the pass has come.
    pub closed spec fn at(&self) -> int {
        self.pos as int
    }

    /// How many bytes of a string are read.
    pub closed spec fn scalar_cap(&self) -> nat {
        self.scalar_cap as nat
    }

    #[verifier::type_invariant]
    spec fn inv(&self) -> bool {
        &&& self.bytes@ == self.text.spec_bytes()
        &&& self.pos <= self.bytes@.len()
    }

    /// Whether `after` is this pass, moved to `pos`.
    pub open spec fn moved(&self, after: &Self, pos: int) -> bool {
        &&& after.input() == self.input()
        &&& after.scalar_cap() == self.scalar_cap()
        &&& after.at() == pos
    }

    /// Whether `after` is this pass, moved somewhere.
    pub open spec fn same_text(&self, after: &Self) -> bool {
        &&& after.input() == self.input()
        &&& after.scalar_cap() == self.scalar_cap()
    }

    /// A pass over `text`, at its start.
    pub fn new(text: &'a str, scalar_cap: usize) -> (r: Self)
        ensures
            r.input() == text.spec_bytes(),
            r.at() == 0,
            r.scalar_cap() == scalar_cap,
    {
        JsonRedactor { text, bytes: text.as_bytes(), pos: 0, scalar_cap }
    }

    /// Moves past white space.
    pub fn skip_ws(&mut self)
        ensures
            old(self).moved(final(self), space_end(old(self).input(), old(self).at())),
            0 <= old(self).at() <= final(self).at() <= old(self).input().len(),
    {
        proof {
            use_type_invariant(&*self);
        }
        let bytes = self.bytes;
        let mut i: usize = self.pos;
        while i < bytes.len() && (bytes[i] == 32 || bytes[i] == 9 || bytes[i] == 10 || bytes[i]
            == 13)
            invariant
                old(self).pos <= i <= bytes@.len(),
                space_end(bytes@, old(self).pos as int) == space_end(bytes@, i as int),
            decreases bytes@.len() - i,
        {
            i += 1;
        }
        self.pos = i;
    }

    /// The next byte.
    pub fn peek(&self) -> (r: Option<u8>)
        ensures
            0 <= self.at() <= self.input().len(),
            match r {
                Some(b) => byte_at(self.input(), self.at(), b),
                None => self.at() == self.input().len(),
            },
    {
        proof {
            use_type_invariant(self);
        }
        if self.pos < self.bytes.len() {
            Some(self.bytes[self.pos])
        } else {
            None
        }
    }

    /// Whether the next byte is `b`.
    fn next_is(&self, b: u8) -> (r: bool)
        ensures
            0 <= self.at() <= self.input().len(),
            r == byte_at(self.input(), self.at(), b),
    {
        match self.peek() {
            Some(next) => next == b,
            None => false,
        }
    }

    fn step(&mut self)
        requires
            old(self).at() < old(self).input().len(),
        ensures
            old(self).moved(final(self), old(self).at() + 1),
    {
        proof {
            use_type_invariant(&*self);
        }
        let n: usize = self.bytes.len();
        self.pos = self.pos + 1;
    }

    /// Whether only white space is left.
    pub fn at_trailing_end(&mut self) -> (r: bool)
        ensures
            r == (space_end(old(self).input(), old(self).at()) >= old(self).input().len()),
            old(self).moved(final(self), space_end(old(self).input(), old(self).at())),
    {
        self.skip_ws();
        self.peek().is_none()
    }

    /// Moves past the string literal here, and hands out its range.
    pub fn scan_string_raw(&mut self) -> (r: Option<(usize, usize)>)
        ensures
            match string_end(old(self).input(), old(self).at()) {
                Some(e) => r == Some((old(self).at() as usize, e as usize)) && old(self).moved(
                    final(self),
                    e,
                ),
                None => r is None && old(self).moved(final(self), old(self).at()),
            },
    {
        proof {
            use_type_invariant(&*self);
            lemma_string_end(self.bytes@, self.pos as int);
        }
        let bytes = self.bytes;
        let n: usize = bytes.len();
        let start: usize = self.pos;
        if start >= n || bytes[start] != 34 {
            return None;
        }
        let mut i: usize = start + 1;
        while i < n
            invariant
                n == bytes@.len(),
                start < n,
                byte_at(bytes@, start as int, 34),
                old(self).inv(),
                *self == *old(self),
                bytes@ == self.bytes@,
                start == self.pos,
                string_end(bytes@, start as int) == quote_end(bytes@, i as int),
            decreases n + 1 - i,
        {
            if bytes[i] == 92 {
                if i >= n - 1 {
                    assert(quote_end(bytes@, i + 2) is None);
                    return None;
                }
                i += 2;
            } else if bytes[i] == 34 {
                self.pos = i + 1;
                return Some((start, i + 1));
            } else {
                i += 1;
            }
        }
        None
    }

    /// The inside of a scanned string literal.
    fn inside(&self, range: (usize, usize)) -> (r: &'a str)
        requires
            range.0 + 2 <= range.1 <= self.input().len(),
            self.input()[range.0 as int] == 34,
            self.input()[range.1 - 1] == 34,
        ensures
            r.spec_bytes() == self.input().subrange(range.0 + 1, range.1 - 1),
    {
        proof {
            use_type_invariant(self);
            vstd::utf8::encode_utf8_valid_utf8(self.text@);
            lemma_inside(self.bytes@, range.0 as int, range.1 as int);
        }
        let head = self.text.split_at(range.1 - 1).0;
        head.split_at(range.0 + 1).1
    }

    /// The text of a scanned string literal, of which at most `scalar_cap` bytes are
    /// read.
    fn token_str(&self, range: (usize, usize)) -> (r: String)
        requires
            range.0 + 2 <= range.1 <= self.input().len(),
            self.input()[range.0 as int] == 34,
            self.input()[range.1 - 1] == 34,
        ensures
            r@ == literal_text(
                self.input(),
                range.0 as int,
                range.1 as int,
                self.scalar_cap(),
            ),
    {
        let inner = self.inside(range);
        let capped = cap_json_string_inner(inner, self.scalar_cap);
        proof {
            vstd::utf8::encode_utf8_decode_utf8(capped@);
        }
        json_string::decode_json_string_inner(capped)
    }

    /// Moves past the number or word here, and hands out its range; `None` where there is
    /// something else.
    fn scan_scalar(&mut self) -> (r: Option<(usize, usize)>)
        ensures
            old(self).same_text(final(self)),
            match scalar_at(old(self).input(), old(self).at()) {
                Some(e) => r == Some((old(self).at() as usize, e as usize)) && final(self).at()
                    == e,
                None => r is None,
            },
    {
        proof {
            use_type_invariant(&*self);
            lemma_scalar_end(self.bytes@, self.pos as int);
        }
        let bytes = self.bytes;
        let start: usize = self.pos;
        let mut i: usize = start;
        while i < bytes.len() && !(bytes[i] == 44 || bytes[i] == 125 || bytes[i] == 93 || bytes[i]
            == 32 || bytes[i] == 9 || bytes[i] == 10 || bytes[i] == 13)
            invariant
                start <= i <= bytes@.len(),
                scalar_end(bytes@, start as int) == scalar_end(bytes@, i as int),
            decreases bytes@.len() - i,
        {
            i += 1;
        }
        self.pos = i;
        if is_json_scalar(vstd::slice::slice_subrange(bytes, start, i)) {
            Some((start, i))
        } else {
            None
        }
    }

    /// Copies a number, `true`, `false` or `null` through.
    pub fn copy_scalar(&mut self, out: &mut CappedWriter) -> (r: bool)
        ensures
            final(out).cap() == old(out).cap(),
            old(self).same_text(final(self)),
            match scalar_at(old(self).input(), old(self).at()) {
                Some(e) => {
                    &&& r
                    &&& final(self).at() == e
                    &&& final(out).kept() == capped(
                        old(out).kept() + old(self).input().subrange(old(self).at(), e),
                        old(out).cap(),
                    )
                },
                None => !r && final(out).kept() == old(out).kept(),
            },
    {
        proof {
            use_type_invariant(&*self);
            use_type_invariant(&*out);
            lemma_scalar_at(self.bytes@, self.pos as int);
        }
        match self.scan_scalar() {
            Some((start, end)) => {
                let token = vstd::slice::slice_subrange(self.bytes, start, end);
                let fits = out.write(token);
                true
            },
            None => false,
        }
    }

    /// Moves past the value here, without writing it.
    pub fn skip_value(&mut self, depth: usize) -> (r: bool)
        ensures
            old(self).same_text(final(self)),
            match value_end(old(self).input(), old(self).at(), depth as nat) {
                Some(e) => r && final(self).at() == e,
                None => !r,
            },
        decreases MAX_JSON_DEPTH + 1 - depth, 1int,
    {
        if depth > MAX_JSON_DEPTH {
            return false;
        }
        self.skip_ws();
        let ghost s = self.input();
        let ghost p = self.at();
        proof {
            if p < s.len() {
                lemma_space_end(s, p + 1);
            }
        }
        match self.peek() {
            None => false,
            Some(b) => if b == 123 {
                self.skip_object(depth)
            } else if b == 91 {
                self.skip_array(depth)
            } else if b == 34 {
                self.scan_string_raw().is_some()
            } else {
                self.scan_scalar().is_some()
            },
        }
    }

    fn skip_object(&mut self, depth: usize) -> (r: bool)
        requires
            depth <= MAX_JSON_DEPTH,
            byte_at(old(self).input(), old(self).at(), 123),
        ensures
            old(self).same_text(final(self)),
            ({
                let s = old(self).input();
                let q = space_end(s, old(self).at() + 1);
                let e = if byte_at(s, q, 125) {
                    Some(q + 1)
                } else {
                    members_end(s, q, depth as nat)
                };
                match e {
                    Some(e) => r && final(self).at() == e,
                    None => !r,
                }
            }),
        decreases MAX_JSON_DEPTH + 1 - depth, 0int,
    {
        let ghost s = self.input();
        self.step();
        self.skip_ws();
        let ghost q = self.at();
        if self.next_is(125) {
            self.step();
            return true;
        }
        loop
            invariant
                depth <= MAX_JSON_DEPTH,
                old(self).same_text(self),
                s == old(self).input(),
                q == space_end(s, old(self).at() + 1),
                !byte_at(s, q, 125),
                0 <= self.at() <= s.len(),
                members_end(s, q, depth as nat) == members_end(s, self.at(), depth as nat),
            decreases s.len() - self.at(),
        {
            let ghost i = self.at();
            self.skip_ws();
            let ghost k = self.at();
            proof {
                lemma_string_end(s, k);
            }
            if self.scan_string_raw().is_none() {
                return false;
            }
            self.skip_ws();
            if !self.next_is(58) {
                return false;
            }
            self.step();
            proof {
                lemma_value_end(s, self.at(), (depth + 1) as nat);
            }
            if !self.skip_value(depth + 1) {
                return false;
            }
            self.skip_ws();
            if self.next_is(44) {
                self.step();
            } else if self.next_is(125) {
                self.step();
                return true;
            } else {
                return false;
            }
        }
    }

    fn skip_array(&mut self, depth: usize) -> (r: bool)
        requires
            depth <= MAX_JSON_DEPTH,
            byte_at(old(self).input(), old(self).at(), 91),
        ensures
            old(self).same_text(final(self)),
            ({
                let s = old(self).input();
                let q = space_end(s, old(self).at() + 1);
                let e = if byte_at(s, q, 93) {
                    Some(q + 1)
                } else {
                    elements_end(s, q, depth as nat)
                };
                match e {
                    Some(e) => r && final(self).at() == e,
                    None => !r,
                }
            }),
        decreases MAX_JSON_DEPTH + 1 - depth, 0int,
    {
        let ghost s = self.input();
        self.step();
        self.skip_ws();
        let ghost q = self.at();
        if self.next_is(93) {
            self.step();
            return true;
        }
        loop
            invariant
                depth <= MAX_JSON_DEPTH,
                old(self).same_text(self),
                s == old(self).input(),
                q == space_end(s, old(self).at() + 1),
                !byte_at(s, q, 93),
                0 <= self.at() <= s.len(),
                elements_end(s, q, depth as nat) == elements_end(s, self.at(), depth as nat),
            decreases s.len() - self.at(),
        {
            proof {
                lemma_value_end(s, self.at(), (depth + 1) as nat);
            }
            if !self.skip_value(depth + 1) {
                return false;
            }
            self.skip_ws();
            if self.next_is(44) {
                self.step();
            } else if self.next_is(93) {
                self.step();
                return true;
            } else {
                return false;
            }
        }
    }
}


// --- Redacting ---------------------------------------------------------------------------------

pub proof fn lemma_value_out(s: Seq<u8>, i: int, depth: nat, sensitive: bool, cap: nat)
    requires
        0 <= i <= s.len(),
    ensures
        value_out(s, i, depth, sensitive, cap) matches Some((o, e)) ==> i < e <= s.len(),
    decreases MAX_JSON_DEPTH + 1 - depth, s.len() + 1 - i, 1int,
{
    lemma_space_end(s, i);
    let p = space_end(s, i);
    if depth <= MAX_JSON_DEPTH && p < s.len() {
        lemma_value_end(s, p, depth);
        lemma_space_end(s, p + 1);
        lemma_scalar_at(s, p);
        lemma_string_end(s, p);
        let q = space_end(s, p + 1);
        if !sensitive && s[p] == 123 && !byte_at(s, q, 125) {
            lemma_members_out(s, q, depth, cap);
        } else if !sensitive && s[p] == 91 && !byte_at(s, q, 93) {
            lemma_elements_out(s, q, depth, cap);
        }
    }
}

proof fn lemma_members_out(s: Seq<u8>, i: int, depth: nat, cap: nat)
    requires
        0 <= i <= s.len(),
        depth <= MAX_JSON_DEPTH,
    ensures
        members_out(s, i, depth, cap) matches Some((o, e)) ==> i < e <= s.len(),
    decreases MAX_JSON_DEPTH + 1 - depth, s.len() + 1 - i, 0int,
{
    lemma_space_end(s, i);
    let k = space_end(s, i);
    lemma_string_end(s, k);
    if let Some(e) = string_end(s, k) {
        lemma_space_end(s, e);
        let c = space_end(s, e);
        if byte_at(s, c, 58) {
            let sensitive = redaction::is_sensitive_key(literal_text(s, k, e, cap));
            lemma_value_out(s, c + 1, depth + 1, sensitive, cap);
            if let Some((o, v)) = value_out(s, c + 1, depth + 1, sensitive, cap) {
                lemma_space_end(s, v);
                let n = space_end(s, v);
                if byte_at(s, n, 44) {
                    lemma_members_out(s, n + 1, depth, cap);
                }
            }
        }
    }
}

proof fn lemma_elements_out(s: Seq<u8>, i: int, depth: nat, cap: nat)
    requires
        0 <= i <= s.len(),
        depth <= MAX_JSON_DEPTH,
    ensures
        elements_out(s, i, depth, cap) matches Some((o, e)) ==> i < e <= s.len(),
    decreases MAX_JSON_DEPTH + 1 - depth, s.len() + 1 - i, 0int,
{
    lemma_value_out(s, i, depth + 1, false, cap);
    if let Some((o, v)) = value_out(s, i, depth + 1, false, cap) {
        lemma_space_end(s, v);
        let n = space_end(s, v);
        if byte_at(s, n, 44) {
            lemma_elements_out(s, n + 1, depth, cap);
        }
    }
}

impl CappedWriter {
    /// Whether `after` is this writer once `o` was written to it.
    pub open spec fn wrote(&self, after: &Self, o: Seq<u8>) -> bool {
        &&& after.cap() == self.cap()
        &&& after.kept() == capped(self.kept() + o, self.cap())
    }
}

proof fn lemma_wrote(a: CappedWriter, b: CappedWriter, c: CappedWriter, x: Seq<u8>, y: Seq<u8>)
    requires
        a.wrote(&b, x),
        b.wrote(&c, y),
    ensures
        a.wrote(&c, x + y),
{
    lemma_capped(a.kept() + x, y, a.cap());
    assert(a.kept() + x + y =~= a.kept() + (x + y));
}

impl<'a> JsonRedactor<'a> {
    /// Writes the redacted form of the value here; `false` where the input is
    /// malformed or too deep.
    fn redact_value(&mut self, out: &mut CappedWriter, depth: usize, sensitive: bool) -> (r: bool)
        ensures
            old(self).same_text(final(self)),
            final(out).cap() == old(out).cap(),
            match value_out(
                old(self).input(),
                old(self).at(),
                depth as nat,
                sensitive,
                old(self).scalar_cap(),
            ) {
                Some((o, e)) => r && final(self).at() == e && old(out).wrote(final(out), o),
                None => !r,
            },
        decreases MAX_JSON_DEPTH + 1 - depth, 1int,
    {
        if depth > MAX_JSON_DEPTH {
            return false;
        }
        self.skip_ws();
        let ghost s = self.input();
        let ghost p = self.at();
        proof {
            lemma_space_end(s, old(self).at());
            if p < s.len() {
                lemma_space_end(s, p + 1);
            }
        }
        match self.peek() {
            None => false,
            Some(b) => if sensitive {
                let fits = out.write("\"[redacted]\"".as_bytes());
                self.skip_value(depth)
            } else if b == 123 {
                self.redact_object(out, depth)
            } else if b == 91 {
                self.redact_array(out, depth)
            } else if b == 34 {
                self.redact_string(out)
            } else {
                self.copy_scalar(out)
            },
        }
    }

    fn redact_string(&mut self, out: &mut CappedWriter) -> (r: bool)
        ensures
            old(self).same_text(final(self)),
            final(out).cap() == old(out).cap(),
            match string_end(old(self).input(), old(self).at()) {
                Some(e) => r && final(self).at() == e && old(out).wrote(
                    final(out),
                    literal_bytes(
                        redaction::uris_redacted(
                            literal_text(
                                old(self).input(),
                                old(self).at(),
                                e,
                                old(self).scalar_cap(),
                            ),
                            0,
                        ),
                    ),
                ),
                None => !r,
            },
    {
        proof {
            use_type_invariant(&*self);
            lemma_string_end(self.input(), self.at());
        }
        match self.scan_string_raw() {
            Some(range) => {
                let decoded = self.token_str(range);
                let redacted = redaction::redact_image_uris(decoded.as_str());
                let literal = json_string::encode_json_string(redacted.as_str());
                let fits = out.write(literal.as_str().as_bytes());
                true
            },
            None => false,
        }
    }

    /// Writes the key here, and hands out its text.
    fn read_key_string(&mut self, out: &mut CappedWriter) -> (r: Option<String>)
        ensures
            old(self).same_text(final(self)),
            final(out).cap() == old(out).cap(),
            match string_end(old(self).input(), old(self).at()) {
                Some(e) => {
                    let key = literal_text(
                        old(self).input(),
                        old(self).at(),
                        e,
                        old(self).scalar_cap(),
                    );
                    &&& text::opt_view(r) == Some(key)
                    &&& final(self).at() == e
                    &&& old(out).wrote(final(out), literal_bytes(key))
                },
                None => r is None,
            },
    {
        proof {
            use_type_invariant(&*self);
            lemma_string_end(self.input(), self.at());
        }
        match self.scan_string_raw() {
            Some(range) => {
                let decoded = self.token_str(range);
                let literal = json_string::encode_json_string(decoded.as_str());
                let fits = out.write(literal.as_str().as_bytes());
                Some(decoded)
            },
            None => None,
        }
    }

    fn redact_object(&mut self, out: &mut CappedWriter, depth: usize) -> (r: bool)
        requires
            depth <= MAX_JSON_DEPTH,
            byte_at(old(self).input(), old(self).at(), 123),
        ensures
            old(self).same_text(final(self)),
            final(out).cap() == old(out).cap(),
            ({
                let s = old(self).input();
                let q = space_end(s, old(self).at() + 1);
                if byte_at(s, q, 125) {
                    r && final(self).at() == q + 1 && old(out).wrote(
                        final(out),
                        seq![123u8, 125u8],
                    )
                } else {
                    match members_out(s, q, depth as nat, old(self).scalar_cap()) {
                        Some((o, e)) => r && final(self).at() == e && old(out).wrote(
                            final(out),
                            seq![123u8] + o,
                        ),
                        None => !r,
                    }
                }
            }),
        decreases MAX_JSON_DEPTH + 1 - depth, 0int,
    {
        let ghost s = self.input();
        let ghost cap = self.scalar_cap();
        self.step();
        let fits = out.write_byte(123);
        self.skip_ws();
        let ghost q = self.at();
        if self.next_is(125) {
            self.step();
            let ghost mid = *out;
            let fits = out.write_byte(125);
            proof {
                lemma_wrote(*old(out), mid, *out, seq![123u8], seq![125u8]);
                assert(seq![123u8] + seq![125u8] =~= seq![123u8, 125u8]);
            }
            return true;
        }
        let ghost mut done: Seq<u8> = seq![123u8];
        loop
            invariant
                depth <= MAX_JSON_DEPTH,
                old(self).same_text(self),
                s == old(self).input(),
                cap == old(self).scalar_cap(),
                q == space_end(s, old(self).at() + 1),
                !byte_at(s, q, 125),
                0 <= self.at() <= s.len(),
                old(out).wrote(out, done),
                match members_out(s, self.at(), depth as nat, cap) {
                    Some((o, e)) => members_out(s, q, depth as nat, cap) matches Some((all, end))
                        && end == e && seq![123u8] + all == done + o,
                    None => members_out(s, q, depth as nat, cap) is None,
                },
            decreases s.len() - self.at(),
        {
            let ghost i = self.at();
            self.skip_ws();
            let ghost k = self.at();
            proof {
                lemma_string_end(s, k);
            }
            let ghost w0 = *out;
            let key = match self.read_key_string(out) {
                Some(key) => key,
                None => {
                    return false;
                },
            };
            let ghost e = self.at();
            let ghost w1 = *out;
            self.skip_ws();
            if !self.next_is(58) {
                return false;
            }
            self.step();
            let fits = out.write_byte(58);
            let ghost w2 = *out;
            let sensitive = redaction::is_sensitive_payload_key(key.as_str());
            proof {
                lemma_value_out(s, self.at(), (depth + 1) as nat, sensitive, cap);
            }
            let ghost c1 = self.at();
            if !self.redact_value(out, depth + 1, sensitive) {
                return false;
            }
            let ghost w3 = *out;
            let ghost o = (value_out(s, c1, (depth + 1) as nat, sensitive, cap)->0).0;
            let ghost member = literal_bytes(key@) + seq![58u8] + o;
            proof {
                lemma_wrote(w0, w1, w2, literal_bytes(key@), seq![58u8]);
                lemma_wrote(w0, w2, w3, literal_bytes(key@) + seq![58u8], o);
                lemma_wrote(*old(out), w0, w3, done, member);
            }
            self.skip_ws();
            if self.next_is(44) {
                self.step();
                let fits = out.write_byte(44);
                proof {
                    lemma_wrote(*old(out), w3, *out, done + member, seq![44u8]);
                    if let Some((rest, end)) = members_out(s, self.at(), depth as nat, cap) {
                        assert(done + (member + seq![44u8] + rest) =~= done + member + seq![44u8]
                            + rest);
                    }
                    done = done + member + seq![44u8];
                }
            } else if self.next_is(125) {
                self.step();
                let fits = out.write_byte(125);
                proof {
                    lemma_wrote(*old(out), w3, *out, done + member, seq![125u8]);
                    assert(done + (member + seq![125u8]) =~= done + member + seq![125u8]);
                }
                return true;
            } else {
                return false;
            }
        }
    }

    fn redact_array(&mut self, out: &mut CappedWriter, depth: usize) -> (r: bool)
        requires
            depth <= MAX_JSON_DEPTH,
            byte_at(old(self).input(), old(self).at(), 91),
        ensures
            old(self).same_text(final(self)),
            final(out).cap() == old(out).cap(),
            ({
                let s = old(self).input();
                let q = space_end(s, old(self).at() + 1);
                if byte_at(s, q, 93) {
                    r && final(self).at() == q + 1 && old(out).wrote(final(out), seq![91u8, 93u8])
                } else {
                    match elements_out(s, q, depth as nat, old(self).scalar_cap()) {
                        Some((o, e)) => r && final(self).at() == e && old(out).wrote(
                            final(out),
                            seq![91u8] + o,
                        ),
                        None => !r,
                    }
                }
            }),
        decreases MAX_JSON_DEPTH + 1 - depth, 0int,
    {
        let ghost s = self.input();
        let ghost cap = self.scalar_cap();
        self.step();
        let fits = out.write_byte(91);
        self.skip_ws();
        let ghost q = self.at();
        if self.next_is(93) {
            self.step();
            let ghost mid = *out;
            let fits = out.write_byte(93);
            proof {
                lemma_wrote(*old(out), mid, *out, seq![91u8], seq![93u8]);
                assert(seq![91u8] + seq![93u8] =~= seq![91u8, 93u8]);
            }
            return true;
        }
        let ghost mut done: Seq<u8> = seq![91u8];
        loop
            invariant
                depth <= MAX_JSON_DEPTH,
                old(self).same_text(self),
                s == old(self).input(),
                cap == old(self).scalar_cap(),
                q == space_end(s, old(self).at() + 1),
                !byte_at(s, q, 93),
                0 <= self.at() <= s.len(),
                old(out).wrote(out, done),
                match elements_out(s, self.at(), depth as nat, cap) {
                    Some((o, e)) => elements_out(s, q, depth as nat, cap) matches Some((all, end))
                        && end == e && seq![91u8] + all == done + o,
                    None => elements_out(s, q, depth as nat, cap) is None,
                },
            decreases s.len() - self.at(),
        {
            let ghost i = self.at();
            let ghost w0 = *out;
            proof {
                lemma_value_out(s, i, (depth + 1) as nat, false, cap);
            }
            if !self.redact_value(out, depth + 1, false) {
                return false;
            }
            let ghost w1 = *out;
            let ghost o = (value_out(s, i, (depth + 1) as nat, false, cap)->0).0;
            proof {
                lemma_wrote(*old(out), w0, w1, done, o);
            }
            self.skip_ws();
            if self.next_is(44) {
                self.step();
                let fits = out.write_byte(44);
                proof {
                    lemma_wrote(*old(out), w1, *out, done + o, seq![44u8]);
                    if let Some((rest, end)) = elements_out(s, self.at(), depth as nat, cap) {
                        assert(done + (o + seq![44u8] + rest) =~= done + o + seq![44u8] + rest);
                    }
                    done = done + o + seq![44u8];
                }
            } else if self.next_is(93) {
                self.step();
                let fits = out.write_byte(93);
                proof {
                    lemma_wrote(*old(out), w1, *out, done + o, seq![93u8]);
                    assert(done + (o + seq![93u8]) =~= done + o + seq![93u8]);
                }
                return true;
            } else {
                return false;
            }
        }
    }
}

/// What is captured of a body: its redacted form, up to `body_cap` bytes.
pub fn capture_capped_redacted(raw: &[u8], body_cap: usize, scalar_cap: usize) -> (r: Vec<u8>)
    ensures
        r@ == captured(raw@, body_cap as nat, scalar_cap as nat),
{
    let n: usize = raw.len();
    if let Some(body) = from_utf8(raw) {
        let mut writer = CappedWriter::new(n, body_cap);
        let mut parser = JsonRedactor::new(body, scalar_cap);
        let ghost empty = writer;
        proof {
            lemma_value_out(raw@, 0, 0, false, scalar_cap as nat);
        }
        if parser.redact_value(&mut writer, 0, false) && parser.at_trailing_end() {
            proof {
                let o = (value_out(raw@, 0, 0, false, scalar_cap as nat)->0).0;
                assert(Seq::<u8>::empty() + o =~= o);
            }
            return writer.into_vec();
        }
    }
    let end: usize = if n <= body_cap {
        n
    } else {
        body_cap
    };
    let prefix = vstd::slice::slice_subrange(raw, 0, end);
    assert(prefix@ =~= capped(raw@, body_cap as nat));
    let lossy = from_utf8_lossy(prefix);
    let redacted = redaction::redact_image_uris(lossy.as_str());
    let all = redacted.as_str().as_bytes();
    let mut bytes = vstd::slice::slice_to_vec(all);
    redaction::truncate_bytes_to_cap(&mut bytes, body_cap);
    bytes
}


// --- Laws ------------------------------------------------------------------------------------

/// No capture is over its cap.
pub proof fn law_capture_is_bounded(raw: Seq<u8>, body_cap: nat, scalar_cap: nat)
    ensures
        captured(raw, body_cap, scalar_cap).len() <= body_cap,
{
    redaction::law_cut_fits(
        vstd::utf8::encode_utf8(
            redaction::uris_redacted(lossy_text(capped(raw, body_cap)), 0),
        ),
        body_cap,
    );
}

/// What is written for a sensitive value says nothing of the value.
pub proof fn law_sensitive_value_is_replaced(s: Seq<u8>, i: int, depth: nat, cap: nat)
    requires
        0 <= i <= s.len(),
    ensures
        value_out(s, i, depth, true, cap) matches Some((o, e)) ==> o == redacted_mark(),
{
}

/// What is written for a string is the literal of a text without image URIs.
pub proof fn law_string_value_has_no_uri(s: Seq<u8>, i: int, depth: nat, cap: nat, k: int)
    requires
        byte_at(s, i, 34),
        value_out(s, i, depth, false, cap) is Some,
    ensures
        exists|t: Seq<char>|
            (value_out(s, i, depth, false, cap)->0).0 == #[trigger] literal_bytes(t)
                && redaction::uri_prefix(t, k) is None,
{
    let e = string_end(s, i)->0;
    let t = literal_text(s, i, e, cap);
    redaction::law_no_uri_survives(t, k);
    assert((value_out(s, i, depth, false, cap)->0).0 == literal_bytes(
        redaction::uris_redacted(t, 0),
    ));
}

} // verus!
