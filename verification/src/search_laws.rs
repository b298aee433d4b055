//! What of a reply reaches the model and the client, and what of it is taken out.
use vstd::prelude::*;

use crate::redaction;
use crate::search;
use crate::search::ResultView;
use crate::text;
use crate::text_laws;

verus! {

proof fn lemma_lines(results: Seq<ResultView>, n: int, k: int, line: Seq<char>) -> (at: int)
    requires
        0 <= k < n <= results.len(),
        search::result_lines(results[k], k).contains(line),
    ensures
        0 <= at < search::lines_for(results, n).len(),
        search::lines_for(results, n)[at] == line,
    decreases n,
{
    let rest = search::lines_for(results, n - 1);
    let last = search::result_lines(results[n - 1], n - 1);
    let all = search::lines_for(results, n);
    if k == n - 1 {
        let j = choose|j: int| 0 <= j < last.len() && last[j] == line;
        assert(all[rest.len() + j] == line);
        rest.len() + j
    } else {
        let j = lemma_lines(results, n - 1, k, line);
        assert(all[j] == rest[j]);
        j
    }
}

proof fn lemma_line_is_part(results: Seq<ResultView>, k: int, line: Seq<char>)
    requires
        0 <= k < results.len(),
        search::result_lines(results[k], k).contains(line),
        text_laws::is_tight(line),
    ensures
        text::has_part(search::formatted(results), line),
{
    let n = results.len() as int;
    let lines = search::lines_for(results, n);
    let at = lemma_lines(results, n, k, line);
    text_laws::law_joined_texts_are_parts(lines, "\n"@, lines.len() as int, at);
    text_laws::law_trimming_keeps_parts(text::join(lines, "\n"@), line);
}

proof fn lemma_tight(head: Seq<char>, t: Seq<char>)
    requires
        head.len() > 0,
        !text::is_whitespace(head[0]),
        text_laws::is_tight(t),
    ensures
        text_laws::is_tight(head + t),
{
    let all = head + t;
    assert(all[0] == head[0]);
    assert(all[all.len() - 1] == t[t.len() - 1]);
}

/// The description of every result reaches the model, after the word that announces it.
pub proof fn law_description_reaches_the_model(results: Seq<ResultView>, k: int)
    requires
        0 <= k < results.len(),
        text_laws::is_tight(results[k].description),
    ensures
        text::has_part(search::formatted(results), "Snippet: "@ + results[k].description),
{
    let r = results[k];
    let lines = search::result_lines(r, k);
    let line = "Snippet: "@ + r.description;
    reveal_strlit("Snippet: ");
    assert(lines[lines.len() - 2] == line);
    lemma_tight("Snippet: "@, r.description);
    lemma_line_is_part(results, k, line);
}

/// The URL of every result reaches the model, after the word that announces it.
pub proof fn law_url_reaches_the_model(results: Seq<ResultView>, k: int)
    requires
        0 <= k < results.len(),
        text_laws::is_tight(results[k].url),
    ensures
        text::has_part(search::formatted(results), "URL: "@ + results[k].url),
{
    let r = results[k];
    let line = "URL: "@ + r.url;
    reveal_strlit("URL: ");
    assert(search::result_lines(r, k)[1] == line);
    lemma_tight("URL: "@, r.url);
    lemma_line_is_part(results, k, line);
}

/// The title of every result reaches the model, after its number, which counts from one.
pub proof fn law_title_reaches_the_model(results: Seq<ResultView>, k: int)
    requires
        0 <= k < results.len(),
        text_laws::is_tight(results[k].title),
    ensures
        text::has_part(
            search::formatted(results),
            text::decimal((k + 1) as nat) + ". "@ + results[k].title,
        ),
{
    let r = results[k];
    let number = text::decimal((k + 1) as nat);
    let head = number + ". "@;
    let line = head + r.title;
    text_laws::law_decimal_is_the_number((k + 1) as nat);
    assert(head[0] == number[0]);
    assert(search::result_lines(r, k)[0] == line);
    lemma_tight(head, r.title);
    lemma_line_is_part(results, k, line);
}

/// Each result has a line for its title, one for its URL and one for its description where
/// they are there, and an empty one after them; the lines of the results follow each other.
pub proof fn law_lines_of_a_result(results: Seq<ResultView>, n: int)
    requires
        0 < n <= results.len(),
    ensures
        search::lines_for(results, n).len() == search::lines_for(results, n - 1).len() + 2 + (
        if results[n - 1].url.len() > 0 {
            1int
        } else {
            0
        }) + (if results[n - 1].description.len() > 0 {
            1int
        } else {
            0
        }),
        search::lines_for(results, n - 1).is_prefix_of(search::lines_for(results, n)),
        search::lines_for(results, n).last().len() == 0,
{
    let rest = search::lines_for(results, n - 1);
    let all = search::lines_for(results, n);
    let last = search::result_lines(results[n - 1], n - 1);
    assert(all == rest + last);
    assert(all.last() == last.last());
    assert(all.take(rest.len() as int) =~= rest);
}

/// The sources are the title and the URL of exactly the results that have a URL.
pub proof fn law_sources_are_the_results(
    results: Seq<ResultView>,
    n: int,
    title: Seq<char>,
    url: Seq<char>,
)
    requires
        0 <= n <= results.len(),
    ensures
        search::citable(results, n).contains((title, url)) <==> exists|k: int|
            0 <= k < n && (#[trigger] results[k]).title == title && results[k].url == url
                && url.len() > 0,
        search::citable(results, n).len() <= n,
    decreases n,
{
    if n > 0 {
        law_sources_are_the_results(results, n - 1, title, url);
        let rest = search::citable(results, n - 1);
        let all = search::citable(results, n);
        if rest.contains((title, url)) {
            let j = choose|j: int| 0 <= j < rest.len() && rest[j] == (title, url);
            assert(all[j] == (title, url));
        }
        if results[n - 1].url.len() > 0 {
            assert(all[rest.len() as int] == (results[n - 1].title, results[n - 1].url));
            if all.contains((title, url)) && !rest.contains((title, url)) {
                let j = choose|j: int| 0 <= j < all.len() && all[j] == (title, url);
                if j < rest.len() {
                    assert(rest[j] == all[j]);
                }
            }
        }
    }
}

/// The sources are in the order of the results.
pub proof fn law_sources_are_in_order(results: Seq<ResultView>, m: int, n: int)
    requires
        0 <= m <= n <= results.len(),
    ensures
        search::citable(results, m).is_prefix_of(search::citable(results, n)),
    decreases n - m,
{
    if m < n {
        law_sources_are_in_order(results, m, n - 1);
    }
}

proof fn lemma_nothing_replaced(t: Seq<char>, p: Seq<char>, with: Seq<char>, i: int)
    requires
        0 <= i <= t.len(),
        p.len() == 0 || !text::has_part(t, p),
    ensures
        redaction::replaced(t, p, with, i) == t.skip(i),
    decreases t.len() - i,
{
    if i < t.len() {
        assert(!(p.len() > 0 && text::holds_at(t, i, p)));
        lemma_nothing_replaced(t, p, with, i + 1);
        assert(seq![t[i]] + t.skip(i + 1) =~= t.skip(i));
    } else {
        assert(t.skip(i) =~= Seq::<char>::empty());
    }
}

/// A text that holds none of the literals is kept as it is.
pub proof fn law_text_without_literals_is_kept(t: Seq<char>, literals: Seq<Seq<char>>, n: int)
    requires
        0 <= n <= literals.len(),
        forall|k: int|
            0 <= k < n ==> (#[trigger] literals[k]).len() == 0 || !text::has_part(t, literals[k]),
    ensures
        redaction::literals_redacted(t, literals, n) == t,
    decreases n,
{
    if n > 0 {
        law_text_without_literals_is_kept(t, literals, n - 1);
        lemma_nothing_replaced(t, literals[n - 1], "[redacted]"@, 0);
        assert(t.skip(0) =~= t);
    }
}

/// A literal is replaced where it stands, and what is before and after it stays.
pub proof fn law_literal_is_replaced_in_place(a: Seq<char>, p: Seq<char>, b: Seq<char>)
    requires
        p.len() > 0,
        forall|i: int| 0 <= i < a.len() ==> !text::holds_at(a + p + b, i, p),
        !text::has_part(b, p),
    ensures
        redaction::replaced(a + p + b, p, "[redacted]"@, 0) == a + "[redacted]"@ + b,
{
    let t = a + p + b;
    let at = a.len() as int;
    lemma_until(t, p, 0, at);
    assert(t.subrange(at, at + p.len()) =~= p);
    assert(text::holds_at(t, at, p));
    assert(t.skip(at + p.len()) =~= b);
    lemma_tail(t, p, b, at + p.len());
    assert(t.subrange(0, at) =~= a);
    assert(a + ("[redacted]"@ + b) =~= a + "[redacted]"@ + b);
}

proof fn lemma_until(t: Seq<char>, p: Seq<char>, i: int, at: int)
    requires
        0 <= i <= at <= t.len(),
        forall|k: int| i <= k < at ==> !text::holds_at(t, k, p),
    ensures
        redaction::replaced(t, p, "[redacted]"@, i) == t.subrange(i, at) + redaction::replaced(
            t,
            p,
            "[redacted]"@,
            at,
        ),
    decreases at - i,
{
    let with = "[redacted]"@;
    if i < at {
        lemma_until(t, p, i + 1, at);
        assert(seq![t[i]] + (t.subrange(i + 1, at) + redaction::replaced(t, p, with, at))
            =~= t.subrange(i, at) + redaction::replaced(t, p, with, at));
    } else {
        assert(t.subrange(i, at) + redaction::replaced(t, p, with, at) =~= redaction::replaced(
            t,
            p,
            with,
            at,
        ));
    }
}

proof fn lemma_tail(t: Seq<char>, p: Seq<char>, b: Seq<char>, i: int)
    requires
        0 <= i <= t.len(),
        t.skip(i) == b,
        p.len() > 0,
        !text::has_part(b, p),
    ensures
        redaction::replaced(t, p, "[redacted]"@, i) == b,
{
    assert forall|k: int| i <= k < t.len() implies !text::holds_at(t, k, p) by {
        if text::holds_at(t, k, p) {
            assert(b.subrange(k - i, k - i + p.len()) =~= t.subrange(k, k + p.len()));
            assert(text::holds_at(b, k - i, p));
        }
    }
    lemma_until(t, p, i, t.len() as int);
    assert(t.subrange(i, t.len() as int) =~= b);
    assert(b + Seq::<char>::empty() =~= b);
}

/// A result that does not hold the credential in any form is kept as it is.
pub proof fn law_clean_result_is_kept(r: ResultView, key: Seq<char>)
    requires
        forall|k: int|
            0 <= k < search::key_forms(key).len() ==> (#[trigger] search::key_forms(key)[k]).len()
                == 0 || (!text::has_part(r.title, search::key_forms(key)[k]) && !text::has_part(
                r.url,
                search::key_forms(key)[k],
            ) && !text::has_part(r.description, search::key_forms(key)[k])),
    ensures
        search::scrubbed(r, search::key_forms(key)) == r,
{
    let forms = search::key_forms(key);
    law_text_without_literals_is_kept(r.title, forms, forms.len() as int);
    law_text_without_literals_is_kept(r.description, forms, forms.len() as int);
}

/// The key itself is among the forms in which it is looked for, and so is its form encoding,
/// in which each byte stands for itself or is written by its number.
pub proof fn law_key_is_looked_for(key: Seq<char>)
    ensures
        search::key_forms(key).contains(key),
        search::key_forms(key).contains(
            search::form_encoded(vstd::utf8::encode_utf8(key), 0),
        ),
        search::key_forms(key).contains(
            text::ascii_lower_seq(search::form_encoded(vstd::utf8::encode_utf8(key), 0)),
        ),
{
    let forms = search::key_forms(key);
    assert(forms[0] == key);
    assert(forms[1] == search::form_encoded(vstd::utf8::encode_utf8(key), 0));
    assert(forms[2] == text::ascii_lower_seq(
        search::form_encoded(vstd::utf8::encode_utf8(key), 0),
    ));
}

/// A source is left out just where its URL holds the credential.
pub proof fn law_sources_with_the_key_are_left_out(
    sources: Seq<(Seq<char>, Seq<char>)>,
    key: Seq<char>,
    n: int,
    url: Seq<char>,
)
    requires
        0 <= n <= sources.len(),
    ensures
        (exists|j: int|
            0 <= j < search::scrubbed_sources(sources, search::key_forms(key), n).len() && (
            #[trigger] search::scrubbed_sources(sources, search::key_forms(key), n)[j]).1 == url)
            <==> (exists|k: int| 0 <= k < n && (#[trigger] sources[k]).1 == url)
            && !search::echoes(url, search::key_forms(key)),
    decreases n,
{
    let forms = search::key_forms(key);
    if n > 0 {
        law_sources_with_the_key_are_left_out(sources, key, n - 1, url);
        let rest = search::scrubbed_sources(sources, forms, n - 1);
        let all = search::scrubbed_sources(sources, forms, n);
        if exists|j: int| 0 <= j < rest.len() && (#[trigger] rest[j]).1 == url {
            let j = choose|j: int| 0 <= j < rest.len() && (#[trigger] rest[j]).1 == url;
            assert(all[j].1 == url);
        }
        if sources[n - 1].1 == url && !search::echoes(url, forms) {
            assert(all[rest.len() as int].1 == url);
        }
        if exists|j: int| 0 <= j < all.len() && (#[trigger] all[j]).1 == url {
            let j = choose|j: int| 0 <= j < all.len() && (#[trigger] all[j]).1 == url;
            if j < rest.len() {
                assert(rest[j].1 == url);
            } else {
                assert(sources[n - 1].1 == url);
            }
        }
    }
}

/// What is asked of the backend: the query as it is, as many results as are wanted, and
/// neither marks in the texts nor another spelling.
pub proof fn law_query_is_sent(query: Seq<char>, max_results: nat)
    ensures
        search::search_params(query, max_results).contains(("q"@, query)),
        search::search_params(query, max_results).contains(
            ("count"@, text::decimal(max_results)),
        ),
        search::search_params(query, max_results).contains(("text_decorations"@, "false"@)),
        search::search_params(query, max_results).contains(("spellcheck"@, "false"@)),
        search::search_params(query, max_results).len() == 4,
{
    let p = search::search_params(query, max_results);
    assert(p[0] == ("q"@, query));
    assert(p[1] == ("count"@, text::decimal(max_results)));
    assert(p[2] == ("text_decorations"@, "false"@));
    assert(p[3] == ("spellcheck"@, "false"@));
}

/// What a path is extended to names the same directory: it ends with a slash, and has one
/// more only where there was none.
pub proof fn law_directory_ends_with_a_slash(path: Seq<char>)
    ensures
        search::as_directory(path) is None <==> text::has_suffix(path, "/"@),
        search::as_directory(path) matches Some(d) ==> d == path + "/"@,
{
}

/// Letters, digits and four signs stand for themselves in a form, a blank becomes a plus, and
/// any other byte its two digits behind a percent sign.
pub proof fn law_form_of_a_byte(b: u8)
    ensures
        97 <= b <= 122 || 65 <= b <= 90 || 48 <= b <= 57 || b == 42 || b == 45 || b == 46 || b == 95
            ==> search::form_encoded(seq![b], 0) == seq![b as char],
        b == 32 ==> search::form_encoded(seq![b], 0) == seq!['+'],
        !(97 <= b <= 122 || 65 <= b <= 90 || 48 <= b <= 57 || b == 42 || b == 45 || b == 46 || b
            == 95 || b == 32) ==> search::form_encoded(seq![b], 0).len() == 3
            && search::form_encoded(seq![b], 0)[0] == '%' && 16 * hex_place(
            search::form_encoded(seq![b], 0)[1],
        ) + hex_place(search::form_encoded(seq![b], 0)[2]) == b && 0 <= hex_place(
            search::form_encoded(seq![b], 0)[1],
        ) < 16 && 0 <= hex_place(search::form_encoded(seq![b], 0)[2]) < 16,
{
    reveal_with_fuel(search::form_encoded, 2);
    let out = search::form_encoded(seq![b], 0);
    assert(out =~= search::form_encoded_byte(b));
}

/// What a capital hexadecimal digit counts.
pub open spec fn hex_place(c: char) -> int {
    if '0' <= c <= '9' {
        c as u32 - 48
    } else if 'A' <= c <= 'F' {
        c as u32 - 55
    } else {
        -1
    }
}

/// The form of two texts is that of the one and of the other.
pub proof fn law_form_of_two_texts(a: Seq<u8>, b: Seq<u8>, i: int)
    requires
        0 <= i <= a.len(),
    ensures
        search::form_encoded(a + b, i) == search::form_encoded(a, i) + search::form_encoded(b, 0),
    decreases a.len() - i,
{
    if i < a.len() {
        law_form_of_two_texts(a, b, i + 1);
        assert((a + b)[i] == a[i]);
        let head = search::form_encoded_byte(a[i]);
        assert(head + (search::form_encoded(a, i + 1) + search::form_encoded(b, 0)) =~= (head
            + search::form_encoded(a, i + 1)) + search::form_encoded(b, 0));
    } else {
        lemma_form_from(a, b, 0);
        assert(search::form_encoded(a, i) + search::form_encoded(b, 0) =~= search::form_encoded(
            b,
            0,
        ));
    }
}

proof fn lemma_form_from(a: Seq<u8>, b: Seq<u8>, j: int)
    requires
        0 <= j <= b.len(),
    ensures
        search::form_encoded(a + b, a.len() + j) == search::form_encoded(b, j),
    decreases b.len() - j,
{
    if j < b.len() {
        assert((a + b)[a.len() + j] == b[j]);
        lemma_form_from(a, b, j + 1);
    }
}

/// A reply that brings nothing is told as what went wrong, and brings no results.
pub proof fn law_failed_reply_brings_nothing(reply: search::SearchReply, key: Seq<char>)
    ensures
        reply is Payload <==> search::reply_error(reply) is None,
        !(reply is Payload) ==> search::reply_results(reply, key).len() == 0,
        reply is SendFailed ==> search::reply_error(reply) == Some("Brave search request failed"@),
        reply is ReadFailed ==> search::reply_error(reply) == Some(
            "failed to read Brave search response"@,
        ),
        reply is TooLarge ==> search::reply_error(reply) == Some(
            "Brave search response was too large"@,
        ),
        reply is InvalidJson ==> search::reply_error(reply) == Some("invalid Brave search JSON"@),
{
}

/// Without results the model is told so; the lines of results follow each other in order.
pub proof fn law_results_are_told_in_order(results: Seq<ResultView>, n: int)
    requires
        0 <= n < results.len(),
    ensures
        search::formatted(seq![]) == "No Brave search results found."@,
        search::lines_for(results, 0).len() == 0,
        search::lines_for(results, n + 1) == search::lines_for(results, n) + search::result_lines(
            results[n],
            n,
        ),
{
}

} // verus!
