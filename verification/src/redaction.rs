//! Redaction of image URIs and credentials on every logging or echoing surface.
pub mod capture;
pub mod clean;

use vstd::prelude::*;
use vstd::string::StringSliceAdditionalSpecFns;

use crate::json;
use crate::json::Json;
use crate::json::JsonMap;
use crate::json::JsonView;
use crate::text;

verus! {

/// Cap, in characters, on vision text that becomes model-visible or logged.
pub const VISION_TEXT_REDACT_LIMIT: usize = 4096;

/// Whether `t` holds `p` at `i`, ASCII case aside.
pub open spec fn holds_lower_at(t: Seq<char>, i: int, p: Seq<char>) -> bool {
    &&& 0 <= i
    &&& i + p.len() <= t.len()
    &&& forall|k: int| #![trigger p[k]] 0 <= k < p.len() ==> text::ascii_lower(t[i + k]) == p[k]
}

/// A URI prefix that may carry raw image data or a signed image URL.
pub struct UriPrefix {
    /// Number of characters.
    pub len: usize,
    /// Whether it is the `data:` scheme.
    pub is_data: bool,
}

/// The sensitive prefix that `t` holds at `i`: `data:`, `http://` or `https://`,
/// the latter two raw or with JSON-escaped slashes.
pub open spec fn uri_prefix(t: Seq<char>, i: int) -> Option<UriPrefix> {
    if holds_lower_at(t, i, "data:"@) {
        Some(UriPrefix { len: 5, is_data: true })
    } else if holds_lower_at(t, i, "https://"@) {
        Some(UriPrefix { len: 8, is_data: false })
    } else if holds_lower_at(t, i, "http://"@) {
        Some(UriPrefix { len: 7, is_data: false })
    } else if holds_lower_at(t, i, "https:\\/\\/"@) {
        Some(UriPrefix { len: 10, is_data: false })
    } else if holds_lower_at(t, i, "http:\\/\\/"@) {
        Some(UriPrefix { len: 9, is_data: false })
    } else {
        None
    }
}

/// A character that ends a sensitive URI run. A `data:` URL has a comma before
/// its payload, so a comma or a closing parenthesis only bounds an `http(s)` run.
pub open spec fn is_run_delimiter(c: char, is_data: bool) -> bool {
    ||| text::is_whitespace(c)
    ||| c == '"' || c == '\'' || c == ']' || c == '}' || c == '<' || c == '>'
    ||| !is_data && (c == ')' || c == ',')
}

/// The index of the first delimiter of `t` at or after `i`, or the end of `t`.
pub open spec fn run_end(t: Seq<char>, i: int, is_data: bool) -> int
    decreases t.len() - i,
{
    if i >= t.len() || is_run_delimiter(t[i], is_data) {
        i
    } else {
        run_end(t, i + 1, is_data)
    }
}

/// `t[i..]` with every sensitive URI run, prefix included, replaced by
/// `<redacted uri>`.
pub open spec fn uris_redacted(t: Seq<char>, i: int) -> Seq<char>
    decreases t.len() - i,
{
    if i >= t.len() {
        seq![]
    } else {
        match uri_prefix(t, i) {
            Some(p) => {
                proof {
                    lemma_prefix_len(t, i);
                    lemma_run_end(t, i + p.len, p.is_data);
                }
                "<redacted uri>"@ + uris_redacted(t, run_end(t, i + p.len, p.is_data))
            },
            None => seq![t[i]] + uris_redacted(t, i + 1),
        }
    }
}

/// A run ends at or after its start, and no later than the text.
pub proof fn lemma_run_end(t: Seq<char>, i: int, is_data: bool)
    ensures
        run_end(t, i, is_data) >= i,
        i <= t.len() ==> run_end(t, i, is_data) <= t.len(),
    decreases t.len() - i,
{
    if i >= t.len() || is_run_delimiter(t[i], is_data) {
    } else {
        lemma_run_end(t, i + 1, is_data);
    }
}

/// Whether `c` ends a sensitive URI run.
pub fn is_uri_run_delimiter(c: char, is_data: bool) -> (r: bool)
    ensures
        r == is_run_delimiter(c, is_data),
{
    text::is_whitespace_char(c) || c == '"' || c == '\'' || c == ']' || c == '}' || c == '<' || c
        == '>' || (!is_data && (c == ')' || c == ','))
}

fn chars_hold_lower_at(chars: &[char], i: usize, p: &str) -> (r: bool)
    requires
        i <= chars@.len(),
    ensures
        r == holds_lower_at(chars@, i as int, p@),
{
    let n: usize = chars.len();
    let m: usize = p.unicode_len();
    if m > n - i {
        return false;
    }
    let mut k: usize = 0;
    while k < m
        invariant
            k <= m == p@.len(),
            i + m <= n == chars@.len(),
            forall|j: int| 0 <= j < k ==> text::ascii_lower(chars@[i + j]) == p@[j],
        decreases m - k,
    {
        if text::ascii_lower_of(chars[i + k]) != p.get_char(k) {
            assert(p@[k as int] == p@[k as int]);
            return false;
        }
        k += 1;
    }
    true
}

fn uri_prefix_at(chars: &[char], i: usize) -> (r: Option<UriPrefix>)
    requires
        i <= chars@.len(),
    ensures
        r == uri_prefix(chars@, i as int),
{
    if chars_hold_lower_at(chars, i, "data:") {
        Some(UriPrefix { len: 5, is_data: true })
    } else if chars_hold_lower_at(chars, i, "https://") {
        Some(UriPrefix { len: 8, is_data: false })
    } else if chars_hold_lower_at(chars, i, "http://") {
        Some(UriPrefix { len: 7, is_data: false })
    } else if chars_hold_lower_at(chars, i, "https:\\/\\/") {
        Some(UriPrefix { len: 10, is_data: false })
    } else if chars_hold_lower_at(chars, i, "http:\\/\\/") {
        Some(UriPrefix { len: 9, is_data: false })
    } else {
        None
    }
}

/// A prefix lies within the text that holds it.
pub proof fn lemma_prefix_len(t: Seq<char>, i: int)
    ensures
        uri_prefix(t, i) matches Some(p) ==> 0 <= i && i + p.len <= t.len(),
{
    reveal_strlit("data:");
    reveal_strlit("https://");
    reveal_strlit("http://");
    reveal_strlit("https:\\/\\/");
    reveal_strlit("http:\\/\\/");
}

/// Replaces every `data:` and `http(s)` URI run of `text`, in raw or JSON-escaped
/// form and in any ASCII case, with `<redacted uri>`. Does not truncate.
pub fn redact_image_uris(text: &str) -> (r: String)
    ensures
        r@ == uris_redacted(text@, 0),
{
    let chars = text::chars_of(text);
    let mut out = String::new();
    let mut i: usize = 0;
    while i < chars.len()
        invariant
            chars@ == text@,
            i <= chars@.len(),
            out@ + uris_redacted(text@, i as int) == uris_redacted(text@, 0),
        decreases chars@.len() - i,
    {
        let ghost before = out@;
        let ghost at: int = i as int;
        match uri_prefix_at(&chars, i) {
            Some(p) => {
                proof {
                    lemma_prefix_len(text@, i as int);
                    lemma_run_end(text@, i + p.len, p.is_data);
                }
                out.append("<redacted uri>");
                i = i + p.len;
                while i < chars.len() && !is_uri_run_delimiter(chars[i], p.is_data)
                    invariant
                        chars@ == text@,
                        i <= chars@.len(),
                        run_end(text@, at + p.len, p.is_data) == run_end(
                            text@,
                            i as int,
                            p.is_data,
                        ),
                        at < i,
                    decreases chars@.len() - i,
                {
                    i += 1;
                }
                assert(before + ("<redacted uri>"@ + uris_redacted(text@, i as int)) =~= (before
                    + "<redacted uri>"@) + uris_redacted(text@, i as int));
            },
            None => {
                out.push(chars[i]);
                i += 1;
                assert(before + (seq![text@[at]] + uris_redacted(text@, at + 1)) =~= before.push(
                    text@[at],
                ) + uris_redacted(text@, at + 1));
            },
        }
    }
    assert(out@ + Seq::<char>::empty() =~= out@);
    out
}

/// The number of characters of `t[i..]` before the first sensitive URI.
spec fn kept(t: Seq<char>, i: int) -> int
    decreases t.len() - i,
{
    if i >= t.len() || uri_prefix(t, i) is Some {
        0
    } else {
        1 + kept(t, i + 1)
    }
}

proof fn lemma_kept(t: Seq<char>, i: int)
    requires
        0 <= i <= t.len(),
    ensures
        0 <= kept(t, i) <= t.len() - i,
        uris_redacted(t, i).len() >= kept(t, i),
        forall|k: int| 0 <= k < kept(t, i) ==> uris_redacted(t, i)[k] == t[i + k],
        uris_redacted(t, i).len() > kept(t, i) ==> uris_redacted(t, i)[kept(t, i)] == '<',
    decreases t.len() - i,
{
    if i >= t.len() {
    } else if uri_prefix(t, i) is Some {
        reveal_strlit("<redacted uri>");
    } else {
        lemma_kept(t, i + 1);
        let rest = uris_redacted(t, i + 1);
        let out = uris_redacted(t, i);
        assert(out == seq![t[i]] + rest);
        assert forall|k: int| 0 <= k < kept(t, i) implies out[k] == t[i + k] by {
            if k > 0 {
                assert(out[k] == rest[k - 1]);
            }
        }
    }
}

/// A prefix found in `t` contains neither `<` nor `>`.
proof fn lemma_prefix_chars(t: Seq<char>, i: int)
    requires
        uri_prefix(t, i) is Some,
    ensures
        forall|k: int| i <= k < i + uri_prefix(t, i)->0.len ==> t[k] != '<' && t[k] != '>',
        t[i] == 'd' || t[i] == 'D' || t[i] == 'h' || t[i] == 'H',
        uri_prefix(t, i)->0.len >= 5,
        t[i] == 'd' || t[i] == 'D' ==> t[i + 2] == 't' || t[i + 2] == 'T',
{
    reveal_strlit("data:");
    reveal_strlit("https://");
    reveal_strlit("http://");
    reveal_strlit("https:\\/\\/");
    reveal_strlit("http:\\/\\/");
    lemma_prefix_len(t, i);
    let n = uri_prefix(t, i)->0.len as int;
    let p = if holds_lower_at(t, i, "data:"@) {
        "data:"@
    } else if holds_lower_at(t, i, "https://"@) {
        "https://"@
    } else if holds_lower_at(t, i, "http://"@) {
        "http://"@
    } else if holds_lower_at(t, i, "https:\\/\\/"@) {
        "https:\\/\\/"@
    } else {
        "http:\\/\\/"@
    };
    assert(holds_lower_at(t, i, p) && p.len() == n);
    assert forall|k: int| i <= k < i + n implies t[k] != '<' && t[k] != '>' by {
        assert(text::ascii_lower(t[i + (k - i)]) == p[k - i]);
    }
    assert(text::ascii_lower(t[i + 0]) == p[0]);
    assert(text::ascii_lower(t[i + 2]) == p[2]);
}

/// No sensitive URI prefix is left in a redacted text.
pub proof fn law_no_uri_survives(t: Seq<char>, k: int)
    ensures
        uri_prefix(uris_redacted(t, 0), k) is None,
{
    lemma_no_uri_survives(t, 0, k);
}

proof fn lemma_no_uri_survives(t: Seq<char>, i: int, k: int)
    requires
        0 <= i <= t.len(),
    ensures
        uri_prefix(uris_redacted(t, i), k) is None,
    decreases t.len() - i,
{
    let out = uris_redacted(t, i);
    if uri_prefix(out, k) is Some {
        lemma_prefix_len(out, k);
        lemma_prefix_chars(out, k);
        let n = uri_prefix(out, k)->0.len as int;
        if i >= t.len() {
        } else if uri_prefix(t, i) is Some {
            let p = uri_prefix(t, i)->0;
            lemma_prefix_len(t, i);
            lemma_run_end(t, i + p.len, p.is_data);
            let j = run_end(t, i + p.len, p.is_data);
            let rest = uris_redacted(t, j);
            reveal_strlit("<redacted uri>");
            let mark = "<redacted uri>"@;
            assert(out == mark + rest);
            if k >= mark.len() {
                lemma_no_uri_survives(t, j, k - mark.len());
                lemma_shift(out, rest, k, mark.len() as int);
            } else {
                assert(out[k] == mark[k]);
                assert(k == 3 || k == 8);
                assert(out[k + 2] == mark[k + 2]);
            }
        } else {
            let rest = uris_redacted(t, i + 1);
            assert(out == seq![t[i]] + rest);
            if k >= 1 {
                lemma_no_uri_survives(t, i + 1, k - 1);
                lemma_shift(out, rest, k, 1);
            } else {
                lemma_kept(t, i);
                let c = kept(t, i);
                if n > c {
                    assert(out[c] == '<');
                } else {
                    assert(out.subrange(k, k + n) =~= t.subrange(i, i + n));
                    lemma_same_prefix(out, k, t, i, n);
                }
            }
        }
    }
}

proof fn lemma_same_prefix(a: Seq<char>, i: int, b: Seq<char>, j: int, n: int)
    requires
        uri_prefix(a, i) is Some,
        n == uri_prefix(a, i)->0.len,
        0 <= j,
        j + n <= b.len(),
        a.subrange(i, i + n) == b.subrange(j, j + n),
    ensures
        uri_prefix(b, j) is Some,
{
    reveal_strlit("data:");
    reveal_strlit("https://");
    reveal_strlit("http://");
    reveal_strlit("https:\\/\\/");
    reveal_strlit("http:\\/\\/");
    lemma_prefix_len(a, i);
    let p = if holds_lower_at(a, i, "data:"@) {
        "data:"@
    } else if holds_lower_at(a, i, "https://"@) {
        "https://"@
    } else if holds_lower_at(a, i, "http://"@) {
        "http://"@
    } else if holds_lower_at(a, i, "https:\\/\\/"@) {
        "https:\\/\\/"@
    } else {
        "http:\\/\\/"@
    };
    assert(holds_lower_at(a, i, p) && p.len() == n);
    assert forall|m: int| 0 <= m < n implies text::ascii_lower(b[j + m]) == p[m] by {
        assert(a.subrange(i, i + n)[m] == a[i + m]);
        assert(b.subrange(j, j + n)[m] == b[j + m]);
        assert(text::ascii_lower(a[i + m]) == p[m]);
    }
    assert(holds_lower_at(b, j, p));
}

proof fn lemma_shift(out: Seq<char>, rest: Seq<char>, k: int, d: int)
    requires
        0 <= d <= k,
        out.len() == rest.len() + d,
        out.skip(d) == rest,
        uri_prefix(out, k) is Some,
    ensures
        uri_prefix(rest, k - d) is Some,
{
    lemma_prefix_len(out, k);
    let n = uri_prefix(out, k)->0.len as int;
    assert(out.subrange(k, k + n) =~= rest.subrange(k - d, k - d + n));
    lemma_same_prefix(out, k, rest, k - d, n);
}

/// A text without sensitive URIs is kept as it is.
pub proof fn law_clean_text_is_kept(t: Seq<char>)
    requires
        forall|k: int| uri_prefix(t, k) is None,
    ensures
        uris_redacted(t, 0) == t,
{
    lemma_clean_text_is_kept(t, 0);
    assert(t.skip(0) =~= t);
}

proof fn lemma_clean_text_is_kept(t: Seq<char>, i: int)
    requires
        0 <= i <= t.len(),
        forall|k: int| uri_prefix(t, k) is None,
    ensures
        uris_redacted(t, i) == t.skip(i),
    decreases t.len() - i,
{
    if i < t.len() {
        assert(uri_prefix(t, i) is None);
        lemma_clean_text_is_kept(t, i + 1);
        assert(seq![t[i]] + t.skip(i + 1) =~= t.skip(i));
    } else {
        assert(t.skip(i) =~= seq![]);
    }
}

/// Redacting a second time changes nothing.
pub proof fn law_uri_redaction_is_idempotent(t: Seq<char>)
    ensures
        uris_redacted(uris_redacted(t, 0), 0) == uris_redacted(t, 0),
{
    let out = uris_redacted(t, 0);
    assert forall|k: int| uri_prefix(out, k) is None by {
        law_no_uri_survives(t, k);
    }
    law_clean_text_is_kept(out);
}

/// `t` capped at `max` characters; a longer text is cut and marked.
pub open spec fn bounded(t: Seq<char>, max: nat) -> Seq<char> {
    if t.len() <= max {
        t
    } else {
        t.take(max as int) + "…[truncated]"@
    }
}

/// `t` cut after `max` characters, with a mark where something was cut.
pub fn bound_chars(t: &str, max: usize) -> (r: String)
    ensures
        r@ == bounded(t@, max as nat),
{
    let chars = text::chars_of(t);
    if chars.len() <= max {
        t.to_owned()
    } else {
        let mut out = text::string_of(&chars, 0, max);
        out.append("…[truncated]");
        assert(t@.subrange(0, max as int) =~= t@.take(max as int));
        out
    }
}

/// Vision text that becomes model-visible or logged: image URIs redacted, outer
/// white space dropped, then capped.
pub fn redact_vision_text(text: &str) -> (r: String)
    ensures
        r@ == bounded(
            text::trimmed(uris_redacted(text@, 0)),
            VISION_TEXT_REDACT_LIMIT as nat,
        ),
{
    let redacted = redact_image_uris(text);
    let trimmed = text::trim(redacted.as_str());
    bound_chars(trimmed.as_str(), VISION_TEXT_REDACT_LIMIT)
}


// --- Sensitive keys ---------------------------------------------------------------------

/// `t[i..]` in lower case, without hyphens and underscores.
pub open spec fn normalized_key(t: Seq<char>, i: int) -> Seq<char>
    decreases t.len() - i,
{
    if !(0 <= i < t.len()) {
        seq![]
    } else if t[i] == '-' || t[i] == '_' {
        normalized_key(t, i + 1)
    } else {
        seq![text::ascii_lower(t[i])] + normalized_key(t, i + 1)
    }
}

/// Whether the value under the key `key` must never be retained.
pub open spec fn is_sensitive_key(key: Seq<char>) -> bool {
    let k = normalized_key(key, 0);
    ||| k == "apikey"@
    ||| k == "xapikey"@
    ||| k == "authorization"@
    ||| k == "password"@
    ||| k == "passwd"@
    ||| k == "secret"@
    ||| k == "clientsecret"@
    ||| k == "accesstoken"@
    ||| k == "refreshtoken"@
    ||| k == "authtoken"@
    ||| k == "bearertoken"@
    ||| k == "openaibeta"@
}

/// Whether the value under an object key or header name must never be retained.
/// Case, hyphens and underscores do not matter.
pub fn is_sensitive_payload_key(key: &str) -> (r: bool)
    ensures
        r == is_sensitive_key(key@),
{
    let chars = text::chars_of(key);
    let mut normalized = String::new();
    let mut i: usize = 0;
    while i < chars.len()
        invariant
            i <= chars@.len(),
            chars@ == key@,
            normalized@ + normalized_key(key@, i as int) == normalized_key(key@, 0),
        decreases chars@.len() - i,
    {
        let c = chars[i];
        let ghost before = normalized@;
        if c != '-' && c != '_' {
            normalized.push(text::ascii_lower_of(c));
            assert(before + (seq![text::ascii_lower(c)] + normalized_key(key@, i + 1))
                =~= normalized@ + normalized_key(key@, i + 1));
        }
        i += 1;
    }
    assert(normalized@ + Seq::<char>::empty() =~= normalized@);
    let k = normalized.as_str();
    text::str_eq(k, "apikey") || text::str_eq(k, "xapikey") || text::str_eq(k, "authorization")
        || text::str_eq(k, "password") || text::str_eq(k, "passwd") || text::str_eq(k, "secret")
        || text::str_eq(k, "clientsecret") || text::str_eq(k, "accesstoken") || text::str_eq(
        k,
        "refreshtoken",
    ) || text::str_eq(k, "authtoken") || text::str_eq(k, "bearertoken") || text::str_eq(
        k,
        "openaibeta",
    )
}

// --- Cutting at a character boundary ------------------------------------------------------

/// The last index up to `e` at which a character of the UTF-8 text `s` starts.
pub open spec fn floor_boundary(s: Seq<u8>, e: int) -> int
    decreases e,
{
    if e > 0 && vstd::utf8::is_continuation_byte(s[e]) {
        floor_boundary(s, e - 1)
    } else {
        e
    }
}

/// `s` cut to at most `cap` bytes, at a character boundary.
pub open spec fn cut_text(s: Seq<u8>, cap: nat) -> Seq<u8> {
    if s.len() <= cap {
        s
    } else {
        s.take(floor_boundary(s, cap as int))
    }
}

/// A cut is at a boundary, and no later than asked.
pub proof fn lemma_floor_boundary(s: Seq<u8>, e: int)
    requires
        0 <= e < s.len(),
    ensures
        0 <= floor_boundary(s, e) <= e,
        vstd::utf8::valid_utf8(s) ==> vstd::utf8::is_char_boundary(s, floor_boundary(s, e)),
    decreases e,
{
    if e > 0 && vstd::utf8::is_continuation_byte(s[e]) {
        lemma_floor_boundary(s, e - 1);
    } else if vstd::utf8::valid_utf8(s) {
        vstd::utf8::is_char_boundary_start_end_of_seq(s);
        vstd::utf8::is_char_boundary_iff_not_is_continuation_byte(s, e);
    }
}

fn floor_boundary_of(s: &[u8], e: usize) -> (r: usize)
    requires
        e < s@.len(),
    ensures
        r == floor_boundary(s@, e as int),
        r <= e,
{
    let mut end: usize = e;
    while end > 0 && s[end] >= 0x80 && s[end] <= 0xbf
        invariant
            end <= e < s@.len(),
            floor_boundary(s@, e as int) == floor_boundary(s@, end as int),
        decreases end,
    {
        end -= 1;
    }
    end
}

/// `text` cut to at most `cap` bytes, at a character boundary.
pub fn cap_str_on_char_boundary<'a>(text: &'a str, cap: usize) -> (r: &'a str)
    ensures
        r.spec_bytes() == cut_text(text.spec_bytes(), cap as nat),
{
    let bytes = text.as_bytes();
    if bytes.len() <= cap {
        return text;
    }
    let end = floor_boundary_of(bytes, cap);
    proof {
        vstd::utf8::encode_utf8_valid_utf8(text@);
        lemma_floor_boundary(text.spec_bytes(), cap as int);
        assert(text.spec_bytes().subrange(0, end as int) =~= text.spec_bytes().take(end as int));
    }
    text.split_at(end).0
}

/// Cuts `bytes` to at most `cap`, at a character boundary.
pub fn truncate_bytes_to_cap(bytes: &mut Vec<u8>, cap: usize)
    ensures
        final(bytes)@ == cut_text(old(bytes)@, cap as nat),
{
    if bytes.len() > cap {
        let end = floor_boundary_of(bytes, cap);
        bytes.truncate(end);
        assert(bytes@ =~= old(bytes)@.take(end as int));
    }
}

/// A cut text fits, and is the start of the text that was cut.
pub proof fn law_cut_fits(s: Seq<u8>, cap: nat)
    ensures
        cut_text(s, cap).len() <= cap,
        cut_text(s, cap).is_prefix_of(s),
{
    if s.len() > cap {
        lemma_floor_boundary(s, cap as int);
    }
}

// --- Headers and values -----------------------------------------------------------------

/// What is retained of a header's value.
pub open spec fn header_redacted(name: Seq<char>, value: Option<Seq<char>>, cap: nat) -> Seq<char> {
    if is_sensitive_key(name) {
        "[redacted]"@
    } else {
        let raw = match value {
            Some(v) => v,
            None => "<non-utf8>"@,
        };
        uris_redacted(
            vstd::utf8::decode_utf8(cut_text(vstd::utf8::encode_utf8(raw), cap)),
            0,
        )
    }
}

/// What is retained of a header's value, where `value` is `None` for one that is no
/// text: nothing of a sensitive one, else a capped text without image URIs.
pub fn redact_header_capped(name: &str, value: Option<&str>, scalar_cap: usize) -> (r: String)
    ensures
        r@ == header_redacted(name@, text::opt_str_view(value), scalar_cap as nat),
{
    if is_sensitive_payload_key(name) {
        return "[redacted]".to_owned();
    }
    let raw = match value {
        Some(v) => v,
        None => "<non-utf8>",
    };
    let capped = cap_str_on_char_boundary(raw, scalar_cap);
    proof {
        vstd::utf8::encode_utf8_decode_utf8(capped@);
    }
    redact_image_uris(capped)
}

/// The headers as they are retained, in order.
pub fn redact_headers_capped(
    headers: &Vec<(String, Option<String>)>,
    scalar_cap: usize,
) -> (r: Vec<(String, String)>)
    ensures
        r@.len() == headers@.len(),
        forall|i: int|
            0 <= i < headers@.len() ==> (#[trigger] r@[i]).0@ == headers@[i].0@ && r@[i].1@
                == header_redacted(
                headers@[i].0@,
                text::opt_view(headers@[i].1),
                scalar_cap as nat,
            ),
{
    let mut out: Vec<(String, String)> = Vec::new();
    let mut i: usize = 0;
    while i < headers.len()
        invariant
            i <= headers@.len(),
            out@.len() == i,
            forall|k: int|
                0 <= k < i ==> (#[trigger] out@[k]).0@ == headers@[k].0@ && out@[k].1@
                    == header_redacted(
                    headers@[k].0@,
                    text::opt_view(headers@[k].1),
                    scalar_cap as nat,
                ),
        decreases headers@.len() - i,
    {
        let value = match &headers[i].1 {
            Some(v) => Some(v.as_str()),
            None => None,
        };
        let redacted = redact_header_capped(headers[i].0.as_str(), value, scalar_cap);
        out.push((headers[i].0.clone(), redacted));
        i += 1;
    }
    out
}

/// A value with the image URIs in every string redacted; keys stay as they are.
pub open spec fn value_uris_redacted(v: JsonView) -> JsonView
    decreases v,
{
    match v {
        JsonView::Text(t) => JsonView::Text(uris_redacted(t, 0)),
        JsonView::Array(items) => JsonView::Array(
            Seq::new(
                items.len(),
                |i: int|
                    if 0 <= i < items.len() {
                        value_uris_redacted(items[i])
                    } else {
                        JsonView::Null
                    },
            ),
        ),
        JsonView::Object(m) => JsonView::Object(
            Seq::new(
                m.len(),
                |i: int|
                    if 0 <= i < m.len() {
                        (m[i].0, value_uris_redacted(m[i].1))
                    } else {
                        (seq![], JsonView::Null)
                    },
            ),
        ),
        _ => v,
    }
}

fn uris_redacted_in_value(value: &Json) -> (r: Json)
    ensures
        r@ == value_uris_redacted(value@),
    decreases value,
{
    match value {
        Json::Text(t) => Json::Text(redact_image_uris(t.as_str())),
        Json::Array(items) => {
            let out = uris_redacted_in_items(items);
            proof {
                json::lemma_array_view(*items);
                json::lemma_array_view(out);
                assert(json::items_view(out@) =~= value_uris_redacted(value@)->Array_0);
            }
            Json::Array(out)
        },
        Json::Object(map) => {
            let out = uris_redacted_in_members(map);
            proof {
                json::lemma_object_view(*map);
                json::lemma_object_view(out);
                assert(out@ =~= value_uris_redacted(value@)->Object_0);
            }
            Json::Object(out)
        },
        _ => value.copy(),
    }
}

fn uris_redacted_in_items(items: &Vec<Json>) -> (r: Vec<Json>)
    ensures
        r@.len() == items@.len(),
        forall|k: int|
            0 <= k < items@.len() ==> (#[trigger] r@[k])@ == value_uris_redacted(items@[k]@),
    decreases items,
{
    let mut out: Vec<Json> = Vec::new();
    let mut i: usize = 0;
    while i < items.len()
        invariant
            i <= items@.len(),
            out@.len() == i,
            forall|k: int| 0 <= k < i ==> (#[trigger] out@[k])@ == value_uris_redacted(items@[k]@),
        decreases items@.len() - i,
    {
        out.push(uris_redacted_in_value(&items[i]));
        i += 1;
    }
    out
}

fn uris_redacted_in_members(map: &JsonMap) -> (r: JsonMap)
    ensures
        r@.len() == map@.len(),
        forall|k: int|
            0 <= k < map@.len() ==> (#[trigger] r@[k]) == (
                map@[k].0,
                value_uris_redacted(map@[k].1),
            ),
    decreases map,
{
    let mut entries: Vec<(String, Json)> = Vec::new();
    let mut i: usize = 0;
    while i < map.entries.len()
        invariant
            i <= map.entries@.len(),
            entries@.len() == i,
            forall|k: int|
                0 <= k < i ==> (#[trigger] entries@[k]).0@ == map.entries@[k].0@
                    && entries@[k].1@ == value_uris_redacted(map.entries@[k].1@),
        decreases map.entries@.len() - i,
    {
        entries.push((map.entries[i].0.clone(), uris_redacted_in_value(&map.entries[i].1)));
        i += 1;
    }
    JsonMap { entries }
}

/// Redacts the image URIs in every string of `value`.
pub fn redact_image_uris_in_value(value: &mut Json)
    ensures
        final(value)@ == value_uris_redacted(old(value)@),
{
    *value = uris_redacted_in_value(value);
}


// --- Credentials ---------------------------------------------------------------------------

/// `t[i..]` with every occurrence of `p`, from left to right, replaced by `with`.
pub open spec fn replaced(t: Seq<char>, p: Seq<char>, with: Seq<char>, i: int) -> Seq<char>
    decreases t.len() - i,
{
    if !(0 <= i < t.len()) {
        seq![]
    } else if p.len() > 0 && text::holds_at(t, i, p) {
        with + replaced(t, p, with, i + p.len())
    } else {
        seq![t[i]] + replaced(t, p, with, i + 1)
    }
}

/// `t` with every occurrence of `p` replaced by `with`. An empty `p` occurs nowhere.
pub fn replace_all(t: &str, p: &str, with: &str) -> (r: String)
    ensures
        r@ == replaced(t@, p@, with@, 0),
{
    let tv = text::chars_of(t);
    let pv = text::chars_of(p);
    let n: usize = tv.len();
    let m: usize = pv.len();
    let mut out = String::new();
    let mut i: usize = 0;
    while i < n
        invariant
            n == tv@.len(),
            m == pv@.len(),
            tv@ == t@,
            pv@ == p@,
            i <= n,
            out@ + replaced(t@, p@, with@, i as int) == replaced(t@, p@, with@, 0),
        decreases n - i,
    {
        let ghost before = out@;
        if m > 0 && text::chars_hold_at(&tv, i, &pv) {
            out.append(with);
            assert(before + (with@ + replaced(t@, p@, with@, i + m)) =~= out@ + replaced(
                t@,
                p@,
                with@,
                i + m,
            ));
            i = i + m;
        } else {
            out.push(tv[i]);
            assert(before + (seq![t@[i as int]] + replaced(t@, p@, with@, i + 1)) =~= out@
                + replaced(t@, p@, with@, i + 1));
            i += 1;
        }
    }
    assert(out@ + Seq::<char>::empty() =~= out@);
    out
}

/// `t` without the first `n` of `literals`.
pub open spec fn literals_redacted(t: Seq<char>, literals: Seq<Seq<char>>, n: int) -> Seq<char>
    decreases n,
{
    if n <= 0 {
        t
    } else {
        replaced(literals_redacted(t, literals, n - 1), literals[n - 1], "[redacted]"@, 0)
    }
}

/// Replaces every occurrence of each literal, one literal after the other.
pub fn redact_sensitive_literals(t: &str, literals: &Vec<String>) -> (r: String)
    ensures
        r@ == literals_redacted(t@, text::strings_view(literals@), literals@.len() as int),
{
    let mut out = t.to_owned();
    let mut i: usize = 0;
    while i < literals.len()
        invariant
            i <= literals@.len(),
            out@ == literals_redacted(t@, text::strings_view(literals@), i as int),
        decreases literals@.len() - i,
    {
        out = replace_all(out.as_str(), literals[i].as_str(), "[redacted]");
        i += 1;
    }
    out
}

/// A literal that the replacement text can neither contain nor help to form.
pub open spec fn is_plain_literal(q: Seq<char>) -> bool {
    &&& q.len() > 0
    &&& !q.contains('[')
    &&& !q.contains(']')
    &&& !text::has_part("redacted"@, q)
}

/// The number of characters of `t[i..]` before the first `p`.
spec fn kept_before(t: Seq<char>, p: Seq<char>, i: int) -> int
    decreases t.len() - i,
{
    if !(0 <= i < t.len()) || p.len() > 0 && text::holds_at(t, i, p) {
        0
    } else {
        1 + kept_before(t, p, i + 1)
    }
}

proof fn lemma_kept_before(t: Seq<char>, p: Seq<char>, i: int)
    requires
        0 <= i <= t.len(),
    ensures
        ({
            let out = replaced(t, p, "[redacted]"@, i);
            let c = kept_before(t, p, i);
            &&& 0 <= c <= t.len() - i
            &&& out.len() >= c
            &&& forall|k: int| 0 <= k < c ==> out[k] == t[i + k]
            &&& out.len() > c ==> out[c] == '['
        }),
    decreases t.len() - i,
{
    if i < t.len() {
        if p.len() > 0 && text::holds_at(t, i, p) {
            reveal_strlit("[redacted]");
        } else {
            lemma_kept_before(t, p, i + 1);
            let rest = replaced(t, p, "[redacted]"@, i + 1);
            let out = replaced(t, p, "[redacted]"@, i);
            assert(out == seq![t[i]] + rest);
            assert forall|k: int| 0 <= k < kept_before(t, p, i) implies out[k] == t[i + k] by {
                if k > 0 {
                    assert(out[k] == rest[k - 1]);
                }
            }
        }
    }
}

proof fn lemma_no_literal(t: Seq<char>, p: Seq<char>, q: Seq<char>, i: int, k: int)
    requires
        0 <= i <= t.len(),
        is_plain_literal(q),
        q == p || !text::has_part(t, q),
    ensures
        !text::holds_at(replaced(t, p, "[redacted]"@, i), k, q),
    decreases t.len() - i,
{
    let mark = "[redacted]"@;
    let out = replaced(t, p, mark, i);
    let m = q.len() as int;
    if text::holds_at(out, k, q) {
        assert(forall|j: int| 0 <= j < m ==> #[trigger] q[j] == out[k + j]) by {
            assert forall|j: int| 0 <= j < m implies #[trigger] q[j] == out[k + j] by {
                assert(out.subrange(k, k + m)[j] == out[k + j]);
            }
        }
        if i >= t.len() {
        } else if p.len() > 0 && text::holds_at(t, i, p) {
            let rest = replaced(t, p, mark, i + p.len());
            assert(out == mark + rest);
            reveal_strlit("[redacted]");
            reveal_strlit("redacted");
            if k >= mark.len() {
                assert(out.subrange(k, k + m) =~= rest.subrange(k - 10, k - 10 + m));
                lemma_no_literal(t, p, q, i + p.len(), k - 10);
            } else if k == 0 {
                assert(q[0] == out[0]);
                assert(q.contains('['));
            } else if k + m > 9 {
                assert(q[9 - k] == out[9]);
                assert(q.contains(']'));
            } else {
                assert("redacted"@.subrange(k - 1, k - 1 + m) =~= q) by {
                    assert forall|j: int| 0 <= j < m implies "redacted"@.subrange(
                        k - 1,
                        k - 1 + m,
                    )[j] == q[j] by {
                        assert(q[j] == out[k + j]);
                        assert(out[k + j] == mark[k + j]);
                    }
                }
                assert(text::holds_at("redacted"@, k - 1, q));
            }
        } else {
            let rest = replaced(t, p, mark, i + 1);
            assert(out == seq![t[i]] + rest);
            if k >= 1 {
                assert(out.subrange(k, k + m) =~= rest.subrange(k - 1, k - 1 + m));
                lemma_no_literal(t, p, q, i + 1, k - 1);
            } else {
                lemma_kept_before(t, p, i);
                let c = kept_before(t, p, i);
                if m > c {
                    assert(q[c] == out[c]);
                    assert(q.contains('['));
                } else {
                    assert(t.subrange(i, i + m) =~= q) by {
                        assert forall|j: int| 0 <= j < m implies t.subrange(i, i + m)[j] == q[j] by {
                            assert(q[j] == out[k + j]);
                        }
                    }
                    assert(text::holds_at(t, i, q));
                }
            }
        }
    }
}

/// A credential does not survive its redaction, nor that of the literals after it.
pub proof fn law_literals_do_not_survive(t: Seq<char>, literals: Seq<Seq<char>>, j: int, n: int)
    requires
        0 <= j < n <= literals.len(),
        is_plain_literal(literals[j]),
    ensures
        !text::has_part(literals_redacted(t, literals, n), literals[j]),
    decreases n,
{
    let q = literals[j];
    let before = literals_redacted(t, literals, n - 1);
    let p = literals[n - 1];
    if j < n - 1 {
        law_literals_do_not_survive(t, literals, j, n - 1);
    }
    assert forall|k: int| !text::holds_at(literals_redacted(t, literals, n), k, q) by {
        lemma_no_literal(before, p, q, 0, k);
    }
}

} // verus!
