//! The hop-by-hop headers that a proxy does not forward, in either direction.
use vstd::prelude::*;

use crate::text;

verus! {

/// The hop-by-hop headers, in lower case.
pub open spec fn hop_by_hop_headers() -> Seq<Seq<char>> {
    seq![
        "connection"@,
        "keep-alive"@,
        "proxy-authenticate"@,
        "proxy-authorization"@,
        "te"@,
        "trailer"@,
        "transfer-encoding"@,
        "upgrade"@,
    ]
}

/// Whether a header is hop by hop, whatever the case of its letters.
pub open spec fn is_hop_by_hop(name: Seq<char>) -> bool {
    exists|i: int|
        0 <= i < hop_by_hop_headers().len() && same_header(
            name,
            #[trigger] hop_by_hop_headers()[i],
        )
}

/// Whether two names are equal but for the case of ASCII letters.
pub open spec fn same_header(a: Seq<char>, b: Seq<char>) -> bool {
    text::ascii_lower_seq(a) == text::ascii_lower_seq(b)
}

/// Whether the header `name` must not be forwarded.
pub fn is_hop_by_hop_header(name: &str) -> (r: bool)
    ensures
        r == is_hop_by_hop(name@),
{
    let r0 = header_name_eq(name, "connection");
    let r1 = header_name_eq(name, "keep-alive");
    let r2 = header_name_eq(name, "proxy-authenticate");
    let r3 = header_name_eq(name, "proxy-authorization");
    let r4 = header_name_eq(name, "te");
    let r5 = header_name_eq(name, "trailer");
    let r6 = header_name_eq(name, "transfer-encoding");
    let r7 = header_name_eq(name, "upgrade");
    proof {
        let headers = hop_by_hop_headers();
        assert(r0 == same_header(name@, headers[0]));
        assert(r1 == same_header(name@, headers[1]));
        assert(r2 == same_header(name@, headers[2]));
        assert(r3 == same_header(name@, headers[3]));
        assert(r4 == same_header(name@, headers[4]));
        assert(r5 == same_header(name@, headers[5]));
        assert(r6 == same_header(name@, headers[6]));
        assert(r7 == same_header(name@, headers[7]));
    }
    r0 || r1 || r2 || r3 || r4 || r5 || r6 || r7
}

/// Whether two header names are the same.
pub fn header_name_eq(name: &str, other: &str) -> (r: bool)
    ensures
        r == same_header(name@, other@),
{
    text::str_eq(text::lower(name).as_str(), text::lower(other).as_str())
}

/// The case of a header's letters does not decide whether it is forwarded.
pub proof fn law_case_does_not_matter(a: Seq<char>, b: Seq<char>)
    requires
        same_header(a, b),
    ensures
        is_hop_by_hop(a) == is_hop_by_hop(b),
{
    if is_hop_by_hop(a) {
        let i = choose|i: int|
            0 <= i < hop_by_hop_headers().len() && same_header(
                a,
                #[trigger] hop_by_hop_headers()[i],
            );
        assert(same_header(b, hop_by_hop_headers()[i]));
    }
    if is_hop_by_hop(b) {
        let i = choose|i: int|
            0 <= i < hop_by_hop_headers().len() && same_header(
                b,
                #[trigger] hop_by_hop_headers()[i],
            );
        assert(same_header(a, hop_by_hop_headers()[i]));
    }
}

/// Exactly these headers are hop by hop, whatever the case of their letters.
pub proof fn law_these_headers_are_hop_by_hop(name: Seq<char>)
    ensures
        is_hop_by_hop(name)
            <==> (
            text::ascii_lower_seq(name) == text::ascii_lower_seq("connection"@)
                || text::ascii_lower_seq(name) == text::ascii_lower_seq("keep-alive"@)
                || text::ascii_lower_seq(name) == text::ascii_lower_seq("proxy-authenticate"@)
                || text::ascii_lower_seq(name) == text::ascii_lower_seq("proxy-authorization"@)
                || text::ascii_lower_seq(name) == text::ascii_lower_seq("te"@)
                || text::ascii_lower_seq(name) == text::ascii_lower_seq("trailer"@)
                || text::ascii_lower_seq(name) == text::ascii_lower_seq("transfer-encoding"@)
                || text::ascii_lower_seq(name) == text::ascii_lower_seq("upgrade"@)
            ),
{
    let headers = hop_by_hop_headers();
    assert(headers[0] == "connection"@);
    assert(headers[1] == "keep-alive"@);
    assert(headers[2] == "proxy-authenticate"@);
    assert(headers[3] == "proxy-authorization"@);
    assert(headers[4] == "te"@);
    assert(headers[5] == "trailer"@);
    assert(headers[6] == "transfer-encoding"@);
    assert(headers[7] == "upgrade"@);
    if is_hop_by_hop(name) {
        let i = choose|i: int| 0 <= i < headers.len() && same_header(name, #[trigger] headers[i]);
        assert(0 <= i < 8);
    }
    if text::ascii_lower_seq(name) == text::ascii_lower_seq("connection"@) {
        assert(same_header(name, headers[0]));
    }
    if text::ascii_lower_seq(name) == text::ascii_lower_seq("keep-alive"@) {
        assert(same_header(name, headers[1]));
    }
    if text::ascii_lower_seq(name) == text::ascii_lower_seq("proxy-authenticate"@) {
        assert(same_header(name, headers[2]));
    }
    if text::ascii_lower_seq(name) == text::ascii_lower_seq("proxy-authorization"@) {
        assert(same_header(name, headers[3]));
    }
    if text::ascii_lower_seq(name) == text::ascii_lower_seq("te"@) {
        assert(same_header(name, headers[4]));
    }
    if text::ascii_lower_seq(name) == text::ascii_lower_seq("trailer"@) {
        assert(same_header(name, headers[5]));
    }
    if text::ascii_lower_seq(name) == text::ascii_lower_seq("transfer-encoding"@) {
        assert(same_header(name, headers[6]));
    }
    if text::ascii_lower_seq(name) == text::ascii_lower_seq("upgrade"@) {
        assert(same_header(name, headers[7]));
    }
}

} // verus!
