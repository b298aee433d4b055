//! What redaction takes out of a text, and what it leaves.
use vstd::prelude::*;

use crate::json::JsonView;
use crate::redaction;
use crate::redaction::capture;
use crate::text;

verus! {

/// Whether a text spells a word at a place, in whatever case.
pub open spec fn spells(t: Seq<char>, i: int, word: Seq<char>) -> bool {
    0 <= i && i + word.len() <= t.len() && text::ascii_lower_seq(t.subrange(i, i + word.len()))
        == word
}

proof fn lemma_spells(t: Seq<char>, i: int, word: Seq<char>)
    ensures
        redaction::holds_lower_at(t, i, word) <==> spells(t, i, word),
{
    if 0 <= i && i + word.len() <= t.len() {
        let part = t.subrange(i, i + word.len());
        let low = text::ascii_lower_seq(part);
        assert(low.len() == word.len());
        assert forall|k: int| 0 <= k < word.len() implies #[trigger] low[k] == text::ascii_lower(
            t[i + k],
        ) by {}
        if redaction::holds_lower_at(t, i, word) {
            assert(low =~= word);
        }
        if low == word {
            assert forall|k: int| #![trigger word[k]] 0 <= k < word.len() implies text::ascii_lower(
                t[i + k],
            ) == word[k] by {
                assert(low[k] == word[k]);
            }
        }
    }
}

/// What starts an address that is taken out: the scheme of data or of the web, in whatever
/// case, with slashes as they are or as JSON may write them; and nothing else does.
pub proof fn law_address_starts_with_its_scheme(t: Seq<char>, i: int)
    ensures
        spells(t, i, "data:"@)
            ==> (redaction::uri_prefix(t, i) matches Some(p) && p.len == 5 && p.is_data == true),
        spells(t, i, "https://"@)
            ==> (redaction::uri_prefix(t, i) matches Some(p) && p.len == 8 && p.is_data == false),
        spells(t, i, "http://"@)
            ==> (redaction::uri_prefix(t, i) matches Some(p) && p.len == 7 && p.is_data == false),
        spells(t, i, "https:\\/\\/"@)
            ==> (redaction::uri_prefix(t, i) matches Some(p) && p.len == 10 && p.is_data == false),
        spells(t, i, "http:\\/\\/"@)
            ==> (redaction::uri_prefix(t, i) matches Some(p) && p.len == 9 && p.is_data == false),
        redaction::uri_prefix(t, i) is Some ==> spells(t, i, "data:"@) || spells(t, i, "https://"@)
            || spells(t, i, "http://"@) || spells(t, i, "https:\\/\\/"@) || spells(
            t,
            i,
            "http:\\/\\/"@,
        ),
{
    lemma_spells(t, i, "data:"@);
    lemma_spells(t, i, "https://"@);
    lemma_spells(t, i, "http://"@);
    lemma_spells(t, i, "https:\\/\\/"@);
    lemma_spells(t, i, "http:\\/\\/"@);
    lemma_apart(t, i);
}

proof fn lemma_apart(t: Seq<char>, i: int)
    ensures
        !(spells(t, i, "data:"@) && spells(t, i, "https://"@)),
        !(spells(t, i, "data:"@) && spells(t, i, "http://"@)),
        !(spells(t, i, "data:"@) && spells(t, i, "https:\\/\\/"@)),
        !(spells(t, i, "data:"@) && spells(t, i, "http:\\/\\/"@)),
        !(spells(t, i, "https://"@) && spells(t, i, "http://"@)),
        !(spells(t, i, "https://"@) && spells(t, i, "https:\\/\\/"@)),
        !(spells(t, i, "https://"@) && spells(t, i, "http:\\/\\/"@)),
        !(spells(t, i, "http://"@) && spells(t, i, "https:\\/\\/"@)),
        !(spells(t, i, "http://"@) && spells(t, i, "http:\\/\\/"@)),
        !(spells(t, i, "https:\\/\\/"@) && spells(t, i, "http:\\/\\/"@)),
{
    reveal_strlit("data:");
    reveal_strlit("https://");
    reveal_strlit("http://");
    reveal_strlit("https:\\/\\/");
    reveal_strlit("http:\\/\\/");
    lemma_letters(t, i, "data:"@);
    lemma_letters(t, i, "https://"@);
    lemma_letters(t, i, "http://"@);
    lemma_letters(t, i, "https:\\/\\/"@);
    lemma_letters(t, i, "http:\\/\\/"@);
}

proof fn lemma_letters(t: Seq<char>, i: int, word: Seq<char>)
    requires
        word.len() >= 5,
    ensures
        spells(t, i, word) ==> text::ascii_lower(t[i]) == word[0] && text::ascii_lower(t[i + 4])
            == word[4],
        spells(t, i, word) && word.len() >= 7 ==> text::ascii_lower(t[i + 5]) == word[5]
            && text::ascii_lower(t[i + 6]) == word[6],
{
    if spells(t, i, word) {
        let low = text::ascii_lower_seq(t.subrange(i, i + word.len()));
        assert(low[0] == text::ascii_lower(t[i]));
        assert(low[4] == text::ascii_lower(t[i + 4]));
        if word.len() >= 7 {
            assert(low[5] == text::ascii_lower(t[i + 5]));
            assert(low[6] == text::ascii_lower(t[i + 6]));
        }
    }
}

/// An address goes on up to the first character that ends it, or to the end of the text.
pub proof fn law_address_ends_where_it_must(t: Seq<char>, i: int, is_data: bool, k: int)
    requires
        0 <= i <= t.len(),
    ensures
        i <= redaction::run_end(t, i, is_data) <= t.len(),
        i <= k < redaction::run_end(t, i, is_data) ==> !redaction::is_run_delimiter(t[k], is_data),
        redaction::run_end(t, i, is_data) < t.len() ==> redaction::is_run_delimiter(
            t[redaction::run_end(t, i, is_data)],
            is_data,
        ),
    decreases t.len() - i,
{
    if i < t.len() && !redaction::is_run_delimiter(t[i], is_data) {
        law_address_ends_where_it_must(t, i + 1, is_data, k);
    }
}

/// White space, quotes, closing brackets and angle brackets end an address; a comma and a
/// closing parenthesis end one of the web only; letters, digits and what else addresses are
/// made of end none.
pub proof fn law_what_ends_an_address(c: char, is_data: bool)
    ensures
        text::is_whitespace(c) ==> redaction::is_run_delimiter(c, is_data),
        c == '"' || c == '\'' || c == ']' || c == '}' || c == '<' || c == '>'
            ==> redaction::is_run_delimiter(c, is_data),
        c == ',' || c == ')' ==> (redaction::is_run_delimiter(c, is_data) <==> !is_data),
        'a' <= c <= 'z' || 'A' <= c <= 'Z' || '0' <= c <= '9' || c == '/' || c == ':' || c == '.'
            || c == '?' || c == '&' || c == '=' || c == '%' || c == '-' || c == '_' || c == '+'
            || c == '#' || c == ';' || c == '@' || c == '~' || c == '!' || c == '$' || c == '*'
            || c == '(' || c == '[' ==> !redaction::is_run_delimiter(c, is_data),
{
}

/// What stands before the first address is kept, the address up to its end becomes a mark, and
/// what stands behind it is redacted in turn.
pub proof fn law_text_around_an_address_is_kept(t: Seq<char>, i: int, k: int)
    requires
        0 <= i <= k < t.len(),
        forall|j: int| i <= j < k ==> (#[trigger] redaction::uri_prefix(t, j)) is None,
        redaction::uri_prefix(t, k) is Some,
    ensures
        redaction::uris_redacted(t, i) == t.subrange(i, k) + "<redacted uri>"@
            + redaction::uris_redacted(
            t,
            redaction::run_end(
                t,
                k + redaction::uri_prefix(t, k)->0.len,
                redaction::uri_prefix(t, k)->0.is_data,
            ),
        ),
    decreases k - i,
{
    let p = redaction::uri_prefix(t, k)->0;
    let rest = redaction::uris_redacted(t, redaction::run_end(t, k + p.len, p.is_data));
    if i < k {
        assert(redaction::uri_prefix(t, i) is None);
        law_text_around_an_address_is_kept(t, i + 1, k);
        assert(seq![t[i]] + (t.subrange(i + 1, k) + "<redacted uri>"@ + rest) =~= t.subrange(i, k)
            + "<redacted uri>"@ + rest);
    } else {
        assert("<redacted uri>"@ + rest =~= t.subrange(i, k) + "<redacted uri>"@ + rest);
    }
}

/// A text that fits stays; one that does not keeps its start, and a mark tells that it was cut.
pub proof fn law_long_text_is_cut(t: Seq<char>, max: nat)
    ensures
        t.len() <= max ==> redaction::bounded(t, max) == t,
        t.len() > max ==> redaction::bounded(t, max).take(max as int) == t.take(max as int)
            && redaction::bounded(t, max).skip(max as int) == "…[truncated]"@,
{
    if t.len() > max {
        let cut = redaction::bounded(t, max);
        assert(cut.take(max as int) =~= t.take(max as int));
        assert(cut.skip(max as int) =~= "…[truncated]"@);
    }
}

/// The key of two texts is that of the one and of the other.
pub proof fn law_key_of_two_texts(a: Seq<char>, b: Seq<char>, i: int)
    requires
        0 <= i <= a.len(),
    ensures
        redaction::normalized_key(a + b, i) == redaction::normalized_key(a, i)
            + redaction::normalized_key(b, 0),
    decreases a.len() - i,
{
    if i < a.len() {
        law_key_of_two_texts(a, b, i + 1);
        assert((a + b)[i] == a[i]);
        if a[i] != '-' && a[i] != '_' {
            assert(seq![text::ascii_lower(a[i])] + (redaction::normalized_key(a, i + 1)
                + redaction::normalized_key(b, 0)) =~= (seq![text::ascii_lower(a[i])]
                + redaction::normalized_key(a, i + 1)) + redaction::normalized_key(b, 0));
        }
    } else {
        lemma_key_from(a, b, 0);
        assert(redaction::normalized_key(a, i) + redaction::normalized_key(b, 0)
            =~= redaction::normalized_key(b, 0));
    }
}

proof fn lemma_key_from(a: Seq<char>, b: Seq<char>, j: int)
    requires
        0 <= j <= b.len(),
    ensures
        redaction::normalized_key(a + b, a.len() + j) == redaction::normalized_key(b, j),
    decreases b.len() - j,
{
    if j < b.len() {
        assert((a + b)[a.len() + j] == b[j]);
        lemma_key_from(a, b, j + 1);
    }
}

/// A hyphen and an underscore are nothing in a key, and any other character is itself in lower
/// case.
pub proof fn law_key_of_a_character(c: char)
    ensures
        c == '-' || c == '_' ==> redaction::normalized_key(seq![c], 0).len() == 0,
        c != '-' && c != '_' ==> redaction::normalized_key(seq![c], 0) == seq![
            text::ascii_lower(c),
        ],
{
    reveal_with_fuel(redaction::normalized_key, 3);
    assert(redaction::normalized_key(seq![c], 1) =~= seq![]);
    if c != '-' && c != '_' {
        assert(redaction::normalized_key(seq![c], 0) =~= seq![text::ascii_lower(c)]);
    }
}

/// A key that spells a secret's name, in whatever case and with whatever hyphens and
/// underscores, is sensitive, and no other key is.
pub proof fn law_secret_names_are_sensitive(key: Seq<char>)
    ensures
        redaction::is_sensitive_key(key)
            <==> redaction::normalized_key(key, 0) == "apikey"@
                || redaction::normalized_key(key, 0) == "xapikey"@
                || redaction::normalized_key(key, 0) == "authorization"@
                || redaction::normalized_key(key, 0) == "password"@
                || redaction::normalized_key(key, 0) == "passwd"@
                || redaction::normalized_key(key, 0) == "secret"@
                || redaction::normalized_key(key, 0) == "clientsecret"@
                || redaction::normalized_key(key, 0) == "accesstoken"@
                || redaction::normalized_key(key, 0) == "refreshtoken"@
                || redaction::normalized_key(key, 0) == "authtoken"@
                || redaction::normalized_key(key, 0) == "bearertoken"@
                || redaction::normalized_key(key, 0) == "openaibeta"@,
{
}

/// Keys that are the same but for case, hyphens and underscores are sensitive alike.
pub proof fn law_spelling_does_not_matter(a: Seq<char>, b: Seq<char>)
    requires
        redaction::normalized_key(a, 0) == redaction::normalized_key(b, 0),
    ensures
        redaction::is_sensitive_key(a) == redaction::is_sensitive_key(b),
{
}

/// A text of bytes is cut where a character starts: what is left out before the cap is the rest
/// of one character.
pub proof fn law_cut_is_at_a_character(s: Seq<u8>, cap: nat, k: int)
    requires
        s.len() > cap,
    ensures
        redaction::cut_text(s, cap).len() > 0 ==> !vstd::utf8::is_continuation_byte(
            s[redaction::cut_text(s, cap).len() as int],
        ),
        redaction::cut_text(s, cap).len() < k <= cap ==> vstd::utf8::is_continuation_byte(s[k]),
{
    redaction::lemma_floor_boundary(s, cap as int);
    lemma_floor(s, cap as int, k);
}

proof fn lemma_floor(s: Seq<u8>, e: int, k: int)
    requires
        0 <= e < s.len(),
    ensures
        0 <= redaction::floor_boundary(s, e) <= e,
        redaction::floor_boundary(s, e) > 0 ==> !vstd::utf8::is_continuation_byte(
            s[redaction::floor_boundary(s, e)],
        ),
        redaction::floor_boundary(s, e) < k <= e ==> vstd::utf8::is_continuation_byte(s[k]),
    decreases e,
{
    if e > 0 && vstd::utf8::is_continuation_byte(s[e]) {
        lemma_floor(s, e - 1, k);
    }
}

/// A secret header is replaced, whatever it holds; of any other one a value that fits and has
/// no address is kept as it is, and one that is no text is told to be none.
pub proof fn law_header_is_shown(name: Seq<char>, value: Seq<char>, cap: nat)
    ensures
        redaction::is_sensitive_key(name) ==> redaction::header_redacted(name, Some(value), cap)
            == "[redacted]"@ && redaction::header_redacted(name, None, cap) == "[redacted]"@,
        !redaction::is_sensitive_key(name) && vstd::utf8::encode_utf8(value).len() <= cap && (
        forall|k: int| (#[trigger] redaction::uri_prefix(value, k)) is None)
            ==> redaction::header_redacted(name, Some(value), cap) == value,
        !redaction::is_sensitive_key(name) ==> redaction::header_redacted(name, None, cap)
            == redaction::header_redacted(name, Some("<non-utf8>"@), cap),
{
    vstd::utf8::encode_utf8_decode_utf8(value);
    if forall|k: int| (#[trigger] redaction::uri_prefix(value, k)) is None {
        redaction::law_clean_text_is_kept(value);
    }
}

/// Redaction keeps the shape of a value: an object its keys, an array its length, and whatever
/// is no text as it is; each text is redacted.
pub proof fn law_value_keeps_its_shape(v: JsonView, i: int)
    ensures
        v matches JsonView::Text(t) ==> redaction::value_uris_redacted(v) == JsonView::Text(
            redaction::uris_redacted(t, 0),
        ),
        v matches JsonView::Array(items) ==> (redaction::value_uris_redacted(
            v,
        ) matches JsonView::Array(out) && out.len() == items.len() && (0 <= i < items.len()
            ==> out[i] == redaction::value_uris_redacted(items[i]))),
        v matches JsonView::Object(m) ==> (redaction::value_uris_redacted(
            v,
        ) matches JsonView::Object(out) && out.len() == m.len() && (0 <= i < m.len() ==> out[i].0
            == m[i].0 && out[i].1 == redaction::value_uris_redacted(m[i].1))),
        !(v is Text || v is Array || v is Object) ==> redaction::value_uris_redacted(v) == v,
{
}

/// A text that does not hold a literal stays as it is.
pub proof fn law_text_without_a_literal_stays(
    t: Seq<char>,
    p: Seq<char>,
    with: Seq<char>,
    i: int,
)
    requires
        0 <= i <= t.len(),
        forall|k: int| i <= k ==> !(#[trigger] text::holds_at(t, k, p)),
    ensures
        redaction::replaced(t, p, with, i) == t.skip(i),
    decreases t.len() - i,
{
    if i < t.len() {
        assert(!text::holds_at(t, i, p));
        law_text_without_a_literal_stays(t, p, with, i + 1);
        assert(seq![t[i]] + t.skip(i + 1) =~= t.skip(i));
    } else {
        assert(t.skip(i) =~= seq![]);
    }
}

/// The first place of a literal is replaced: what stands before it is kept, and what stands
/// behind it is looked at in turn.
pub proof fn law_literal_is_replaced(t: Seq<char>, p: Seq<char>, with: Seq<char>, i: int, k: int)
    requires
        0 <= i <= k < t.len(),
        p.len() > 0,
        forall|j: int| i <= j < k ==> !(#[trigger] text::holds_at(t, j, p)),
        text::holds_at(t, k, p),
    ensures
        redaction::replaced(t, p, with, i) == t.subrange(i, k) + with + redaction::replaced(
            t,
            p,
            with,
            k + p.len(),
        ),
    decreases k - i,
{
    let rest = redaction::replaced(t, p, with, k + p.len());
    if i < k {
        assert(!text::holds_at(t, i, p));
        law_literal_is_replaced(t, p, with, i + 1, k);
        assert(seq![t[i]] + (t.subrange(i + 1, k) + with + rest) =~= t.subrange(i, k) + with
            + rest);
    } else {
        assert(with + rest =~= t.subrange(i, k) + with + rest);
    }
}

/// Literals are taken out one after the other, each of them marked.
pub proof fn law_literals_are_taken_in_turn(t: Seq<char>, literals: Seq<Seq<char>>, n: int)
    requires
        0 < n <= literals.len(),
    ensures
        redaction::literals_redacted(t, literals, 0) == t,
        redaction::literals_redacted(t, literals, n) == redaction::replaced(
            redaction::literals_redacted(t, literals, n - 1),
            literals[n - 1],
            "[redacted]"@,
            0,
        ),
{
}

/// A number or a word that is followed by nothing but what ends one is copied as it stands.
pub proof fn law_scalar_is_copied(s: Seq<u8>, i: int, depth: nat, cap: nat)
    requires
        0 <= i < s.len(),
        depth <= capture::MAX_JSON_DEPTH,
        !capture::is_space(s[i]),
        s[i] != 123 && s[i] != 91 && s[i] != 34,
    ensures
        capture::value_out(s, i, depth, false, cap) matches Some((out, e)) ==> i <= e <= s.len()
            && out == s.subrange(i, e) && (capture::is_number(out) || capture::is_word(out)),
{
    lemma_scalar_end(s, i);
}

proof fn lemma_scalar_end(s: Seq<u8>, i: int)
    requires
        0 <= i <= s.len(),
    ensures
        i <= capture::scalar_end(s, i) <= s.len(),
    decreases s.len() - i,
{
    if i < s.len() && !capture::ends_scalar(s[i]) {
        lemma_scalar_end(s, i + 1);
    }
}

/// Digits, of which the first is zero only where it is the only one, are a number, with a
/// minus in front or not.
pub proof fn law_digits_are_a_number(s: Seq<u8>)
    requires
        s.len() > 0,
        forall|k: int| 0 <= k < s.len() ==> 48 <= #[trigger] s[k] <= 57,
    ensures
        capture::is_number(s) <==> s.len() == 1 || s[0] != 48,
        capture::is_number(seq![45u8] + s) <==> s.len() == 1 || s[0] != 48,
{
    lemma_digits(s, 0);
    let n = seq![45u8] + s;
    assert forall|k: int| 1 <= k < n.len() implies 48 <= #[trigger] n[k] <= 57 by {
        assert(n[k] == s[k - 1]);
    }
    lemma_digits(n, 1);
    assert(n[1] == s[0]);
}

proof fn lemma_digits(s: Seq<u8>, i: int)
    requires
        0 <= i <= s.len(),
        forall|k: int| i <= k < s.len() ==> 48 <= #[trigger] s[k] <= 57,
    ensures
        capture::digits_end(s, i) == s.len(),
    decreases s.len() - i,
{
    if i < s.len() {
        lemma_digits(s, i + 1);
    }
}

/// A number starts with a digit or a minus and ends with a digit.
pub proof fn law_number_starts_and_ends_with_digits(s: Seq<u8>)
    requires
        capture::is_number(s),
    ensures
        s.len() > 0,
        s[0] == 45 || 48 <= s[0] <= 57,
        48 <= s[s.len() - 1] <= 57,
{
    let i = if capture::byte_at(s, 0, 45) {
        1int
    } else {
        0
    };
    lemma_digits_end(s, i);
    let w = capture::whole_end(s)->0;
    lemma_digits_end(s, w + 1);
    let f = capture::fraction_end(s, w)->0;
    lemma_digits_end(s, f + 1);
    lemma_digits_end(s, f + 2);
}

proof fn lemma_digits_end(s: Seq<u8>, i: int)
    requires
        0 <= i,
    ensures
        capture::digits_end(s, i) >= i,
        i <= s.len() ==> capture::digits_end(s, i) <= s.len(),
        i > s.len() ==> capture::digits_end(s, i) == i,
        capture::digits_end(s, i) > i ==> 48 <= s[capture::digits_end(s, i) - 1] <= 57 && 48 <= s[i]
            <= 57,
    decreases s.len() - i,
{
    if i < s.len() && 48 <= s[i] <= 57 {
        lemma_digits_end(s, i + 1);
    }
}

/// What is captured of a body that is no text is the redacted text of its start.
pub proof fn law_body_that_is_no_text(raw: Seq<u8>, body_cap: nat, scalar_cap: nat)
    requires
        !vstd::utf8::valid_utf8(raw),
    ensures
        capture::captured(raw, body_cap, scalar_cap) == redaction::cut_text(
            vstd::utf8::encode_utf8(
                redaction::uris_redacted(capture::lossy_text(raw.take(if raw.len() <= body_cap {
                    raw.len() as int
                } else {
                    body_cap as int
                })), 0),
            ),
            body_cap,
        ),
{
    assert(raw.take(raw.len() as int) =~= raw);
}

/// What is kept of bytes is their start, up to the cap.
pub proof fn law_capped_is_the_start(s: Seq<u8>, cap: nat)
    ensures
        capture::capped(s, cap).is_prefix_of(s),
        capture::capped(s, cap).len() == if s.len() <= cap {
            s.len()
        } else {
            cap
        },
{
}

/// A string goes on to the first quote that no backslash stands before.
pub proof fn law_string_ends_at_its_quote(s: Seq<u8>, i: int, e: int)
    requires
        0 <= i <= e < s.len(),
        s[e] == 34,
        forall|k: int| i <= k < e ==> (#[trigger] s[k]) != 34 && s[k] != 92,
    ensures
        capture::quote_end(s, i) == Some(e + 1),
        i > 0 && s[i - 1] == 34 ==> capture::string_end(s, i - 1) == Some(e + 1),
    decreases e - i,
{
    if i < e {
        assert(s[i] != 34 && s[i] != 92);
        law_string_ends_at_its_quote(s, i + 1, e);
    }
}

/// What a backslash stands before does not end a string.
pub proof fn law_escape_does_not_end_a_string(s: Seq<u8>, i: int)
    requires
        0 <= i < s.len(),
        s[i] == 92,
    ensures
        capture::quote_end(s, i) == capture::quote_end(s, i + 2),
{
}

/// A member whose key is sensitive is written with the mark in place of its value, and any
/// other one with what is written for its value; the key stays.
pub proof fn law_member_is_written(s: Seq<u8>, i: int, depth: nat, cap: nat)
    requires
        0 <= i,
        depth <= capture::MAX_JSON_DEPTH,
        capture::members_out(s, i, depth, cap) is Some,
    ensures
        ({
            let k = capture::space_end(s, i);
            let e = capture::string_end(s, k)->0;
            let key = capture::literal_text(s, k, e, cap);
            let c = capture::space_end(s, e);
            let start = capture::literal_bytes(key) + seq![58u8];
            let out = (capture::members_out(s, i, depth, cap)->0).0;
            &&& capture::byte_at(s, c, 58)
            &&& redaction::is_sensitive_key(key) ==> (capture::value_out(
                s,
                c + 1,
                depth + 1,
                true,
                cap,
            ) matches Some((shown, _)) && (start + shown).is_prefix_of(out))
            &&& !redaction::is_sensitive_key(key) ==> (capture::value_out(
                s,
                c + 1,
                depth + 1,
                false,
                cap,
            ) matches Some((shown, _)) && (start + shown).is_prefix_of(out))
        }),
{
    let k = capture::space_end(s, i);
    let e = capture::string_end(s, k)->0;
    let key = capture::literal_text(s, k, e, cap);
    let c = capture::space_end(s, e);
    let shown = (capture::value_out(
        s,
        c + 1,
        depth + 1,
        redaction::is_sensitive_key(key),
        cap,
    )->0).0;
    let out = (capture::members_out(s, i, depth, cap)->0).0;
    let member = capture::literal_bytes(key) + seq![58u8] + shown;
    assert(out.take(member.len() as int) =~= member);
}

/// The bytes before what follows a value are white space.
pub proof fn law_space_is_left_out(s: Seq<u8>, i: int, k: int)
    requires
        0 <= i <= s.len(),
    ensures
        i <= capture::space_end(s, i) <= s.len(),
        i <= k < capture::space_end(s, i) ==> s[k] == 32 || s[k] == 9 || s[k] == 10 || s[k] == 13,
        capture::space_end(s, i) < s.len() ==> !(s[capture::space_end(s, i)] == 32
            || s[capture::space_end(s, i)] == 9 || s[capture::space_end(s, i)] == 10
            || s[capture::space_end(s, i)] == 13),
    decreases s.len() - i,
{
    if i < s.len() && capture::is_space(s[i]) {
        law_space_is_left_out(s, i + 1, k);
    }
}

/// A cut inside of a string loses the backslash that it would leave alone, and nothing else.
pub proof fn law_cut_splits_no_escape(s: Seq<u8>, cap: nat)
    ensures
        s.len() <= cap ==> capture::cut_inner(s, cap) == s,
        capture::cut_inner(s, cap).is_prefix_of(s),
        s.len() > cap ==> capture::slash_run(
            s,
            capture::cut_inner(s, cap).len() as int,
        ) % 2 == 0,
{
    if s.len() > cap {
        redaction::lemma_floor_boundary(s, cap as int);
    }
}

/// What is written for a value is that of the value which ends where the value ends: redaction
/// takes the same bytes as JSON does, whether the value is sensitive or not.
pub proof fn law_written_value_ends_with_the_value(
    s: Seq<u8>,
    i: int,
    depth: nat,
    sensitive: bool,
    cap: nat,
)
    requires
        0 <= i,
    ensures
        capture::value_out(s, i, depth, sensitive, cap) is Some <==> capture::value_end(
            s,
            i,
            depth,
        ) is Some,
        capture::value_out(s, i, depth, sensitive, cap) matches Some((_, e))
            ==> capture::value_end(s, i, depth) == Some(e),
    decreases capture::MAX_JSON_DEPTH + 1 - depth, s.len() + 1 - i, 1int,
{
    let p = capture::space_end(s, i);
    if i <= s.len() {
        law_space_is_left_out(s, i, i);
    }
    if depth <= capture::MAX_JSON_DEPTH && i <= p < s.len() {
        if sensitive {
            assert(capture::space_end(s, p) == p);
            lemma_value_from(s, i, depth);
        } else if s[p] == 123 {
            let q = capture::space_end(s, p + 1);
            if !capture::byte_at(s, q, 125) && i < q <= s.len() {
                lemma_members_end(s, q, depth, cap);
            }
        } else if s[p] == 91 {
            let q = capture::space_end(s, p + 1);
            if !capture::byte_at(s, q, 93) && i < q <= s.len() {
                lemma_elements_end(s, q, depth, cap);
            }
        }
    }
}

/// White space before a value does not matter.
proof fn lemma_value_from(s: Seq<u8>, i: int, depth: nat)
    requires
        0 <= i,
        i <= capture::space_end(s, i) < s.len(),
        depth <= capture::MAX_JSON_DEPTH,
    ensures
        capture::value_end(s, capture::space_end(s, i), depth) == capture::value_end(s, i, depth),
{
    let p = capture::space_end(s, i);
    law_space_is_left_out(s, i, i);
    assert(capture::space_end(s, p) == p);
    law_space_is_left_out(s, p + 1, p);
}

proof fn lemma_members_end(s: Seq<u8>, i: int, depth: nat, cap: nat)
    requires
        0 <= i,
        depth <= capture::MAX_JSON_DEPTH,
    ensures
        capture::members_out(s, i, depth, cap) is Some <==> capture::members_end(
            s,
            i,
            depth,
        ) is Some,
        capture::members_out(s, i, depth, cap) matches Some((_, e)) ==> capture::members_end(
            s,
            i,
            depth,
        ) == Some(e),
    decreases capture::MAX_JSON_DEPTH + 1 - depth, s.len() + 1 - i, 0int,
{
    let k = capture::space_end(s, i);
    if let Some(e) = capture::string_end(s, k) {
        let key = capture::literal_text(s, k, e, cap);
        let c = capture::space_end(s, e);
        if capture::byte_at(s, c, 58) {
            let sensitive = redaction::is_sensitive_key(key);
            law_written_value_ends_with_the_value(s, c + 1, depth + 1, sensitive, cap);
            if let Some((_, v)) = capture::value_out(s, c + 1, depth + 1, sensitive, cap) {
                let n = capture::space_end(s, v);
                if capture::byte_at(s, n, 44) && n >= i {
                    lemma_members_end(s, n + 1, depth, cap);
                }
            }
        }
    }
}

proof fn lemma_elements_end(s: Seq<u8>, i: int, depth: nat, cap: nat)
    requires
        0 <= i,
        depth <= capture::MAX_JSON_DEPTH,
    ensures
        capture::elements_out(s, i, depth, cap) is Some <==> capture::elements_end(
            s,
            i,
            depth,
        ) is Some,
        capture::elements_out(s, i, depth, cap) matches Some((_, e)) ==> capture::elements_end(
            s,
            i,
            depth,
        ) == Some(e),
    decreases capture::MAX_JSON_DEPTH + 1 - depth, s.len() + 1 - i, 0int,
{
    law_written_value_ends_with_the_value(s, i, depth + 1, false, cap);
    if let Some((_, v)) = capture::value_out(s, i, depth + 1, false, cap) {
        let n = capture::space_end(s, v);
        if capture::byte_at(s, n, 44) && n >= i {
            lemma_elements_end(s, n + 1, depth, cap);
        }
    }
}

} // verus!
