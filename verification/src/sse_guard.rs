//! Bounds the bytes that an upstream event stream may accumulate between two
//! event boundaries, however the stream is cut into chunks.
use vstd::prelude::*;

use crate::error;
use crate::error::AppError;
use crate::text;

verus! {

/// Default ceiling, in bytes, on one frame of an event stream.
pub const DEFAULT_MAX_SSE_FRAME_BYTES: usize = 8388608;

/// Lowest ceiling that a guard enforces.
pub const MIN_MAX_SSE_FRAME_BYTES: usize = 1024;

/// Line feed.
pub const LF: u8 = 10;

/// Carriage return.
pub const CR: u8 = 13;

/// The ceiling where none is configured.
pub fn default_max_sse_frame_bytes() -> (r: usize)
    ensures
        r == DEFAULT_MAX_SSE_FRAME_BYTES,
{
    DEFAULT_MAX_SSE_FRAME_BYTES
}

// --- The model: one byte at a time -------------------------------------------

/// Where an event stream stands.
#[verifier::ext_equal]
pub struct Progress {
    /// Bytes of the frame in progress that are known to belong to it.
    pub since: nat,
    /// The bytes read last, where they may still become part of a boundary.
    pub carry: Seq<u8>,
    /// Whether the stream stands among empty lines, outside any frame.
    pub in_run: bool,
}

/// A count as a machine word holds it.
pub open spec fn sat(n: nat) -> nat {
    if n <= usize::MAX {
        n
    } else {
        usize::MAX as nat
    }
}

/// Among empty lines: where a stream starts, and where a boundary leads.
pub open spec fn between_frames() -> Progress {
    Progress { since: 0, carry: seq![], in_run: true }
}

/// Inside a frame of `n` bytes, with nothing pending.
pub open spec fn in_frame(n: nat) -> Progress {
    Progress { since: n, carry: seq![], in_run: false }
}

/// The pending bytes are two line ends, the second of which may still grow from
/// a carriage return into a carriage return and line feed.
pub open spec fn half_closed(carry: Seq<u8>) -> bool {
    carry.len() >= 2 && carry.last() == CR
}

/// The byte sequences that may still become a boundary.
pub open spec fn is_boundary_prefix(carry: Seq<u8>) -> bool {
    ||| carry == Seq::<u8>::empty()
    ||| carry == seq![LF]
    ||| carry == seq![CR]
    ||| carry == seq![CR, LF]
    ||| carry == seq![LF, CR]
    ||| carry == seq![CR, CR]
    ||| carry == seq![CR, LF, CR]
}

impl Progress {
    /// The states that a stream can stand in.
    pub open spec fn wf(self) -> bool {
        &&& is_boundary_prefix(self.carry)
        &&& self.since <= usize::MAX
        &&& self.in_run ==> self.since == 0 && (self.carry == Seq::<u8>::empty() || self.carry
            == seq![CR])
    }

    /// Whether `b` completes or resolves a blank line after the frame in progress.
    pub open spec fn ends_frame(self, b: u8) -> bool {
        &&& !self.in_run
        &&& half_closed(self.carry) || (b == LF && (self.carry == seq![LF] || self.carry == seq![
            CR,
            LF,
        ]))
    }

    /// Where the stream stands after `b`.
    pub open spec fn step(self, b: u8) -> Progress {
        if self.in_run || half_closed(self.carry) {
            if b == LF {
                between_frames()
            } else if b == CR {
                Progress { carry: seq![CR], ..between_frames() }
            } else {
                in_frame(1)
            }
        } else if b == LF {
            if self.carry == Seq::<u8>::empty() || self.carry == seq![CR] {
                Progress { carry: self.carry.push(LF), ..self }
            } else {
                between_frames()
            }
        } else if b == CR {
            Progress { carry: self.carry.push(CR), ..self }
        } else {
            in_frame(sat(self.since + self.carry.len() + 1))
        }
    }

    /// The bytes that count for the frame in progress when the input ends here. At
    /// the end of the stream a pending line end that closes no frame counts too.
    pub open spec fn counted(self, at_eof: bool) -> nat {
        if at_eof && !self.in_run && !half_closed(self.carry) {
            sat(self.since + self.carry.len())
        } else {
            self.since
        }
    }

    /// Where the stream stands once nothing more comes.
    pub open spec fn close(self) -> Progress {
        if self.in_run || half_closed(self.carry) {
            between_frames()
        } else {
            in_frame(self.counted(true))
        }
    }
}

/// Reads `s[i..]` from `st`, against a ceiling of `cap` bytes a frame. `Err` holds
/// the bytes that were counted for the first frame over the ceiling when it ended,
/// or when the input did.
pub open spec fn scan_from(
    st: Progress,
    s: Seq<u8>,
    i: int,
    cap: nat,
    at_eof: bool,
) -> Result<Progress, nat>
    decreases s.len() - i,
{
    if 0 <= i < s.len() {
        if st.ends_frame(s[i]) && st.since > cap {
            Err(st.since)
        } else {
            scan_from(st.step(s[i]), s, i + 1, cap, at_eof)
        }
    } else if st.counted(at_eof) > cap {
        Err(st.counted(at_eof))
    } else if at_eof {
        Ok(st.close())
    } else {
        Ok(st)
    }
}

/// Reads all of `s` from `st`.
pub open spec fn scan(st: Progress, s: Seq<u8>, cap: nat, at_eof: bool) -> Result<
    Progress,
    nat,
> {
    scan_from(st, s, 0, cap, at_eof)
}


// --- Line ends and boundaries --------------------------------------------------

/// What stands at an index of a buffer.
#[derive(Debug, Clone, Copy, PartialEq, Eq, Structural)]
pub enum EolToken {
    /// A line end of this many bytes.
    Complete(usize),
    /// A carriage return at the end of the buffer, which a line feed may follow.
    IncompleteCr,
    /// No line end.
    Content,
}

/// Why a run of line ends stopped.
#[derive(Debug, Clone, Copy, PartialEq, Eq, Structural)]
pub enum EolRunStop {
    /// At a byte of a frame.
    Content,
    /// At the end of the buffer.
    BufferEnd,
    /// At a carriage return whose length is not known yet.
    IncompleteCr,
}

/// The line end at `i`: `CR LF`, `CR` or `LF`, the longest first.
pub open spec fn eol_token(s: Seq<u8>, i: int, at_eof: bool) -> EolToken {
    if !(0 <= i < s.len()) {
        EolToken::Content
    } else if s[i] == CR {
        if i + 1 < s.len() {
            if s[i + 1] == LF {
                EolToken::Complete(2)
            } else {
                EolToken::Complete(1)
            }
        } else if at_eof {
            EolToken::Complete(1)
        } else {
            EolToken::IncompleteCr
        }
    } else if s[i] == LF {
        EolToken::Complete(1)
    } else {
        EolToken::Content
    }
}

/// The end of the longest run of line ends from `i`, and why it stops there.
pub open spec fn eol_run(s: Seq<u8>, i: int, at_eof: bool) -> (int, EolRunStop)
    decreases s.len() - i,
{
    match eol_token(s, i, at_eof) {
        EolToken::Complete(n) => eol_run(s, i + n, at_eof),
        EolToken::IncompleteCr => (i, EolRunStop::IncompleteCr),
        EolToken::Content => if 0 <= i < s.len() {
            (i, EolRunStop::Content)
        } else {
            (i, EolRunStop::BufferEnd)
        },
    }
}

/// The first blank line from `i`: the range of its two line ends.
pub open spec fn blank_line(s: Seq<u8>, i: int, at_eof: bool) -> Option<(int, int)>
    decreases s.len() - i,
{
    if !(0 <= i < s.len()) {
        None
    } else {
        match eol_token(s, i, at_eof) {
            EolToken::Content => blank_line(s, i + 1, at_eof),
            EolToken::IncompleteCr => None,
            EolToken::Complete(n) => match eol_token(s, i + n, at_eof) {
                EolToken::Content => blank_line(s, i + n, at_eof),
                EolToken::IncompleteCr => None,
                EolToken::Complete(m) => Some((i, i + n + m)),
            },
        }
    }
}

/// The longest suffix of `s` that may still become a boundary.
pub open spec fn prefix_suffix_len(s: Seq<u8>) -> int {
    let n = s.len() as int;
    if n >= 3 && s[n - 3] == CR && s[n - 2] == LF && s[n - 1] == CR {
        3
    } else if n >= 2 && (s[n - 2] == CR && s[n - 1] == LF || s[n - 2] == LF && s[n - 1] == CR
        || s[n - 2] == CR && s[n - 1] == CR) {
        2
    } else if n >= 1 && (s[n - 1] == CR || s[n - 1] == LF) {
        1
    } else {
        0
    }
}

// --- Line ends as the model sees them --------------------------------------------

proof fn lemma_step_wf(st: Progress, b: u8)
    requires
        st.wf(),
    ensures
        st.step(b).wf(),
{
    let c = st.carry;
    assert(Seq::<u8>::empty().push(LF) =~= seq![LF]);
    assert(Seq::<u8>::empty().push(CR) =~= seq![CR]);
    assert(seq![CR].push(LF) =~= seq![CR, LF]);
    assert(seq![CR].push(CR) =~= seq![CR, CR]);
    assert(seq![LF].push(CR) =~= seq![LF, CR]);
    assert(seq![CR, LF].push(CR) =~= seq![CR, LF, CR]);
}

/// A line end among empty lines leaves the stream among empty lines.
proof fn lemma_run_token(s: Seq<u8>, i: int, n: usize, cap: nat, at_eof: bool)
    requires
        0 <= i < s.len(),
        eol_token(s, i, at_eof) == EolToken::Complete(n),
    ensures
        scan_from(between_frames(), s, i, cap, at_eof) == scan_from(
            between_frames(),
            s,
            i + n,
            cap,
            at_eof,
        ),
{
    let run = between_frames();
    let cr = Progress { carry: seq![CR], ..run };
    if s[i] == CR {
        assert(scan_from(run, s, i, cap, at_eof) == scan_from(cr, s, i + 1, cap, at_eof));
        if i + 1 < s.len() {
            assert(cr.step(s[i + 1]) == run.step(s[i + 1]) || s[i + 1] == LF);
            assert(scan_from(cr, s, i + 1, cap, at_eof) == scan_from(
                cr.step(s[i + 1]),
                s,
                i + 2,
                cap,
                at_eof,
            ));
            if s[i + 1] != LF {
                assert(scan_from(run, s, i + 1, cap, at_eof) == scan_from(
                    run.step(s[i + 1]),
                    s,
                    i + 2,
                    cap,
                    at_eof,
                ));
            }
        }
    }
}

/// The run of empty lines from `i`, as the model reads it.
proof fn lemma_run(s: Seq<u8>, i: int, cap: nat, at_eof: bool)
    requires
        0 <= i <= s.len(),
    ensures
        ({
            let (end, stop) = eol_run(s, i, at_eof);
            &&& i <= end <= s.len()
            &&& match stop {
                EolRunStop::Content => {
                    &&& end < s.len()
                    &&& eol_token(s, end, at_eof) == EolToken::Content
                    &&& scan_from(between_frames(), s, i, cap, at_eof) == scan_from(
                        in_frame(0),
                        s,
                        end,
                        cap,
                        at_eof,
                    )
                },
                EolRunStop::BufferEnd => {
                    &&& end == s.len()
                    &&& scan_from(between_frames(), s, i, cap, at_eof) == Ok::<Progress, nat>(
                        between_frames(),
                    )
                },
                EolRunStop::IncompleteCr => {
                    &&& !at_eof
                    &&& end == s.len() - 1
                    &&& s[end] == CR
                    &&& scan_from(between_frames(), s, i, cap, at_eof) == Ok::<Progress, nat>(
                        Progress { carry: seq![CR], ..between_frames() },
                    )
                },
            }
        }),
    decreases s.len() - i,
{
    match eol_token(s, i, at_eof) {
        EolToken::Complete(n) => {
            lemma_run_token(s, i, n, cap, at_eof);
            lemma_run(s, i + n, cap, at_eof);
        },
        EolToken::IncompleteCr => {
            let cr = Progress { carry: seq![CR], ..between_frames() };
            assert(scan_from(between_frames(), s, i, cap, at_eof) == scan_from(
                cr,
                s,
                i + 1,
                cap,
                at_eof,
            ));
        },
        EolToken::Content => {
            if i < s.len() {
                assert(between_frames().step(s[i]) == in_frame(0).step(s[i]));
            }
        },
    }
}

/// Bytes that end no frame are counted into it.
proof fn lemma_content(s: Seq<u8>, i: int, since: nat, cap: nat, at_eof: bool)
    requires
        0 <= i < s.len(),
        match eol_token(s, i, at_eof) {
            EolToken::Content => true,
            EolToken::IncompleteCr => false,
            EolToken::Complete(n) => i + n < s.len() && eol_token(s, i + n, at_eof)
                == EolToken::Content,
        },
    ensures
        ({
            let n: int = match eol_token(s, i, at_eof) {
                EolToken::Complete(n) => n as int,
                _ => 1,
            };
            scan_from(in_frame(since), s, i, cap, at_eof) == scan_from(
                in_frame(sat((since + n) as nat)),
                s,
                i + n,
                cap,
                at_eof,
            )
        }),
{
    let st = in_frame(since);
    assert(Seq::<u8>::empty().push(LF) =~= seq![LF]);
    assert(Seq::<u8>::empty().push(CR) =~= seq![CR]);
    assert(seq![CR].push(LF) =~= seq![CR, LF]);
    match eol_token(s, i, at_eof) {
        EolToken::Complete(n) => {
            let a = st.step(s[i]);
            assert(scan_from(st, s, i, cap, at_eof) == scan_from(a, s, i + 1, cap, at_eof));
            let c = s[i + n];
            let target = in_frame(sat((since + n) as nat));
            if n == 1 {
                assert(scan_from(a, s, i + 1, cap, at_eof) == scan_from(
                    a.step(c),
                    s,
                    i + 2,
                    cap,
                    at_eof,
                ));
                assert(a.step(c) == target.step(c));
            } else {
                let b = a.step(s[i + 1]);
                assert(b.carry =~= seq![CR, LF]);
                assert(scan_from(a, s, i + 1, cap, at_eof) == scan_from(
                    b,
                    s,
                    i + 2,
                    cap,
                    at_eof,
                ));
                assert(scan_from(b, s, i + 2, cap, at_eof) == scan_from(
                    b.step(c),
                    s,
                    i + 3,
                    cap,
                    at_eof,
                ));
                assert(b.step(c) == target.step(c));
            }
        },
        _ => {},
    }
}

/// Two line ends in a row end the frame.
proof fn lemma_boundary(s: Seq<u8>, i: int, n: usize, m: usize, since: nat, cap: nat, at_eof: bool)
    requires
        0 <= i < s.len(),
        eol_token(s, i, at_eof) == EolToken::Complete(n),
        eol_token(s, i + n, at_eof) == EolToken::Complete(m),
    ensures
        scan_from(in_frame(since), s, i, cap, at_eof) == (if since > cap {
            Err::<Progress, nat>(since)
        } else {
            scan_from(between_frames(), s, i + n + m, cap, at_eof)
        }),
{
    let st = in_frame(since);
    assert(Seq::<u8>::empty().push(LF) =~= seq![LF]);
    assert(Seq::<u8>::empty().push(CR) =~= seq![CR]);
    assert(seq![CR].push(LF) =~= seq![CR, LF]);
    let a = st.step(s[i]);
    assert(scan_from(st, s, i, cap, at_eof) == scan_from(a, s, i + 1, cap, at_eof));
    let first = if n == 1 {
        a
    } else {
        a.step(s[i + 1])
    };
    assert(scan_from(st, s, i, cap, at_eof) == scan_from(first, s, i + n, cap, at_eof));
    assert(first.since == since && !first.in_run && !half_closed(first.carry));
    let j = i + n;
    if s[j] == LF {
        assert(first.carry == seq![LF] || first.carry == seq![CR, LF]);
        assert(first.ends_frame(s[j]));
    } else {
        let half = first.step(s[j]);
        assert(half.carry.last() == CR && half_closed(half.carry));
        assert(scan_from(first, s, j, cap, at_eof) == scan_from(half, s, j + 1, cap, at_eof));
        if j + 1 < s.len() {
            let run = between_frames();
            assert(half.ends_frame(s[j + 1]));
            if m == 1 {
                assert(half.step(s[j + 1]) == run.step(s[j + 1]));
                assert(scan_from(run, s, j + 1, cap, at_eof) == scan_from(
                    run.step(s[j + 1]),
                    s,
                    j + 2,
                    cap,
                    at_eof,
                ));
            }
        }
    }
}

/// What is left of a stream after its last boundary.
pub open spec fn tail_result(
    s: Seq<u8>,
    i: int,
    since: nat,
    cap: nat,
    at_eof: bool,
) -> Result<Progress, nat> {
    let tail = s.subrange(i, s.len() as int);
    let charged = if at_eof {
        tail.len() as int
    } else {
        tail.len() - prefix_suffix_len(tail)
    };
    let total = sat((since + charged) as nat);
    if total > cap {
        Err(total)
    } else {
        Ok(
            Progress {
                since: total,
                carry: tail.subrange(charged, tail.len() as int),
                in_run: false,
            },
        )
    }
}

/// A frame from `i` to its boundary, or to the end of the input.
proof fn lemma_frame(s: Seq<u8>, i: int, since: nat, cap: nat, at_eof: bool)
    requires
        0 <= i <= s.len(),
        since <= usize::MAX,
    ensures
        match blank_line(s, i, at_eof) {
            Some((bs, be)) => {
                &&& i <= bs < be <= s.len()
                &&& scan_from(in_frame(since), s, i, cap, at_eof) == (if sat(
                    (since + (bs - i)) as nat,
                ) > cap {
                    Err::<Progress, nat>(sat((since + (bs - i)) as nat))
                } else {
                    scan_from(between_frames(), s, be, cap, at_eof)
                })
            },
            None => scan_from(in_frame(since), s, i, cap, at_eof) == tail_result(
                s,
                i,
                since,
                cap,
                at_eof,
            ),
        },
    decreases s.len() - i,
{
    let st = in_frame(since);
    let tail = s.subrange(i, s.len() as int);
    assert(Seq::<u8>::empty().push(LF) =~= seq![LF]);
    assert(Seq::<u8>::empty().push(CR) =~= seq![CR]);
    assert(seq![CR].push(LF) =~= seq![CR, LF]);
    if i == s.len() {
        assert(tail.subrange(0, 0) =~= Seq::<u8>::empty());
    } else {
        match eol_token(s, i, at_eof) {
            EolToken::Content => {
                lemma_content(s, i, since, cap, at_eof);
                lemma_frame(s, i + 1, sat(since + 1), cap, at_eof);
                lemma_tail_shift(s, i, 1, since, cap, at_eof);
            },
            EolToken::IncompleteCr => {
                assert(tail =~= seq![CR]);
                assert(st.step(s[i]).carry =~= tail);
                assert(scan_from(st, s, i, cap, at_eof) == scan_from(
                    st.step(s[i]),
                    s,
                    i + 1,
                    cap,
                    at_eof,
                ));
                assert(tail.subrange(0, 1) =~= tail);
            },
            EolToken::Complete(n) => match eol_token(s, i + n, at_eof) {
                EolToken::Complete(m) => {
                    lemma_boundary(s, i, n, m, since, cap, at_eof);
                },
                EolToken::IncompleteCr => {
                    lemma_half_closed_tail(s, i, n, since, cap);
                },
                EolToken::Content => {
                    if i + n < s.len() {
                        lemma_content(s, i, since, cap, at_eof);
                        lemma_frame(s, i + n, sat((since + n) as nat), cap, at_eof);
                        lemma_tail_shift(s, i, n as int, since, cap, at_eof);
                    } else {
                        lemma_open_tail(s, i, n, since, cap, at_eof);
                    }
                },
            },
        }
    }
}

/// A single line end at the very end of the input.
proof fn lemma_open_tail(s: Seq<u8>, i: int, n: usize, since: nat, cap: nat, at_eof: bool)
    requires
        0 <= i < s.len(),
        since <= usize::MAX,
        eol_token(s, i, at_eof) == EolToken::Complete(n),
        i + n == s.len(),
    ensures
        scan_from(in_frame(since), s, i, cap, at_eof) == tail_result(s, i, since, cap, at_eof),
        blank_line(s, i + n, at_eof) is None,
{
    let st = in_frame(since);
    let tail = s.subrange(i, s.len() as int);
    let a = st.step(s[i]);
    assert(scan_from(st, s, i, cap, at_eof) == scan_from(a, s, i + 1, cap, at_eof));
    let last = if n == 1 {
        a
    } else {
        a.step(s[i + 1])
    };
    assert(last.carry =~= tail);
    assert(scan_from(st, s, i, cap, at_eof) == scan_from(last, s, i + n, cap, at_eof));
    if at_eof {
        assert(tail.subrange(n as int, n as int) =~= Seq::<u8>::empty());
    } else {
        assert(tail.subrange(0, n as int) =~= tail);
    }
}

/// A line end and a pending carriage return at the very end of the input.
proof fn lemma_half_closed_tail(s: Seq<u8>, i: int, n: usize, since: nat, cap: nat)
    requires
        0 <= i < s.len(),
        since <= usize::MAX,
        eol_token(s, i, false) == EolToken::Complete(n),
        eol_token(s, i + n, false) == EolToken::IncompleteCr,
    ensures
        scan_from(in_frame(since), s, i, cap, false) == tail_result(s, i, since, cap, false),
{
    let st = in_frame(since);
    let tail = s.subrange(i, s.len() as int);
    assert(Seq::<u8>::empty().push(LF) =~= seq![LF]);
    assert(Seq::<u8>::empty().push(CR) =~= seq![CR]);
    let a = st.step(s[i]);
    assert(scan_from(st, s, i, cap, false) == scan_from(a, s, i + 1, cap, false));
    assert(a.carry =~= seq![s[i]]);
    let first = if n == 1 {
        a
    } else {
        a.step(s[i + 1])
    };
    if n == 2 {
        assert(a.carry != seq![LF]) by {
            assert(a.carry[0] != seq![LF][0]);
        }
        assert(!a.ends_frame(s[i + 1]));
    }
    assert(scan_from(st, s, i, cap, false) == scan_from(first, s, i + n, cap, false));
    assert(first.carry =~= s.subrange(i, i + n));
    let half = first.step(s[i + n]);
    assert(half.carry =~= tail);
    assert(scan_from(first, s, i + n, cap, false) == scan_from(half, s, i + n + 1, cap, false));
    assert(tail.subrange(0, tail.len() as int) =~= tail);
}

proof fn lemma_tail_shift(s: Seq<u8>, i: int, n: int, since: nat, cap: nat, at_eof: bool)
    requires
        0 <= i,
        1 <= n <= 2,
        i + n <= s.len(),
        since <= usize::MAX,
        match eol_token(s, i, at_eof) {
            EolToken::Content => n == 1,
            EolToken::Complete(m) => n == m && i + n < s.len() && eol_token(s, i + n, at_eof)
                == EolToken::Content,
            EolToken::IncompleteCr => false,
        },
    ensures
        tail_result(s, i, since, cap, at_eof) == tail_result(
            s,
            i + n,
            sat((since + n) as nat),
            cap,
            at_eof,
        ),
{
    let a = s.subrange(i, s.len() as int);
    let b = s.subrange(i + n, s.len() as int);
    assert(a.len() == b.len() + n);
    assert(forall|k: int| 0 <= k < b.len() ==> #[trigger] b[k] == a[k + n]);
    assert(prefix_suffix_len(a) == prefix_suffix_len(b));
    let ca = if at_eof {
        a.len() as int
    } else {
        a.len() - prefix_suffix_len(a)
    };
    let cb = if at_eof {
        b.len() as int
    } else {
        b.len() - prefix_suffix_len(b)
    };
    assert(a.subrange(ca, a.len() as int) =~= b.subrange(cb, b.len() as int));
}


// --- Reading chunks ----------------------------------------------------------------

/// The line end at `buf[i]`.
pub fn eol_token_at(buf: &[u8], i: usize, at_eof: bool) -> (r: EolToken)
    ensures
        r == eol_token(buf@, i as int, at_eof),
{
    let n: usize = buf.len();
    if i >= n {
        EolToken::Content
    } else if buf[i] == CR {
        if i < n - 1 {
            if buf[i + 1] == LF {
                EolToken::Complete(2)
            } else {
                EolToken::Complete(1)
            }
        } else if at_eof {
            EolToken::Complete(1)
        } else {
            EolToken::IncompleteCr
        }
    } else if buf[i] == LF {
        EolToken::Complete(1)
    } else {
        EolToken::Content
    }
}

/// The end of the longest run of line ends from `from`, and why it stops there.
pub fn eol_run_end(buf: &[u8], from: usize, at_eof: bool) -> (r: (usize, EolRunStop))
    ensures
        eol_run(buf@, from as int, at_eof) == (r.0 as int, r.1),
{
    let n: usize = buf.len();
    let mut i: usize = from;
    while i < n
        invariant
            n == buf@.len(),
            eol_run(buf@, from as int, at_eof) == eol_run(buf@, i as int, at_eof),
            from <= i,
            i <= n || i == from,
        decreases n - i,
    {
        match eol_token_at(buf, i, at_eof) {
            EolToken::Complete(len) => {
                i = i + len;
            },
            EolToken::IncompleteCr => {
                return (i, EolRunStop::IncompleteCr);
            },
            EolToken::Content => {
                return (i, EolRunStop::Content);
            },
        }
    }
    (i, EolRunStop::BufferEnd)
}

/// The first blank line of `buf` at or after `from`, as the range of its two line
/// ends.
pub fn next_boundary(buf: &[u8], from: usize, at_eof: bool) -> (r: Option<(usize, usize)>)
    ensures
        match r {
            Some((bs, be)) => blank_line(buf@, from as int, at_eof) == Some(
                (bs as int, be as int),
            ),
            None => blank_line(buf@, from as int, at_eof) is None,
        },
{
    let n: usize = buf.len();
    let mut i: usize = from;
    while i < n
        invariant
            n == buf@.len(),
            blank_line(buf@, from as int, at_eof) == blank_line(buf@, i as int, at_eof),
        decreases n - i,
    {
        match eol_token_at(buf, i, at_eof) {
            EolToken::Content => {
                i = i + 1;
            },
            EolToken::IncompleteCr => {
                return None;
            },
            EolToken::Complete(first) => match eol_token_at(buf, i + first, at_eof) {
                EolToken::Content => {
                    i = i + first;
                },
                EolToken::IncompleteCr => {
                    return None;
                },
                EolToken::Complete(second) => {
                    return Some((i, i + first + second));
                },
            },
        }
    }
    None
}

/// The length of the longest suffix of `buf` that may still become a boundary.
pub fn boundary_prefix_suffix_len(buf: &[u8]) -> (r: usize)
    ensures
        r == prefix_suffix_len(buf@),
{
    let n: usize = buf.len();
    if n >= 3 && buf[n - 3] == CR && buf[n - 2] == LF && buf[n - 1] == CR {
        3
    } else if n >= 2 && ((buf[n - 2] == CR && buf[n - 1] == LF) || (buf[n - 2] == LF && buf[n - 1]
        == CR) || (buf[n - 2] == CR && buf[n - 1] == CR)) {
        2
    } else if n >= 1 && (buf[n - 1] == CR || buf[n - 1] == LF) {
        1
    } else {
        0
    }
}

/// Where an event stream stands between two chunks.
#[derive(Debug)]
pub struct ScanState {
    /// Bytes counted for the frame in progress.
    pub since_boundary: usize,
    /// Pending bytes, not counted yet.
    pub carry: Vec<u8>,
    /// Whether the stream stands among empty lines.
    pub in_eol_run: bool,
}

impl View for ScanState {
    type V = Progress;

    open spec fn view(&self) -> Progress {
        Progress {
            since: self.since_boundary as nat,
            carry: self.carry@,
            in_run: self.in_eol_run,
        }
    }
}

/// The pending bytes, read again before the chunk, lead back to where they were
/// pending.
proof fn lemma_carry(st: Progress, chunk: Seq<u8>, cap: nat, at_eof: bool)
    requires
        st.wf(),
    ensures
        scan_from(
            Progress { carry: seq![], ..st },
            st.carry + chunk,
            0,
            cap,
            at_eof,
        ) == scan(st, chunk, cap, at_eof),
{
    let buf = st.carry + chunk;
    let s0 = Progress { carry: seq![], ..st };
    assert(Seq::<u8>::empty().push(LF) =~= seq![LF]);
    assert(Seq::<u8>::empty().push(CR) =~= seq![CR]);
    assert(seq![CR].push(LF) =~= seq![CR, LF]);
    assert(seq![CR].push(CR) =~= seq![CR, CR]);
    assert(seq![LF].push(CR) =~= seq![LF, CR]);
    assert(seq![CR, LF].push(CR) =~= seq![CR, LF, CR]);
    reveal_with_fuel(scan_from, 4);
    assert(scan_from(s0, buf, 0, cap, at_eof) == scan_from(
        st,
        buf,
        st.carry.len() as int,
        cap,
        at_eof,
    )) by {
        if st.carry.len() >= 1 {
            let s1 = s0.step(buf[0]);
            assert(s1.carry =~= st.carry.take(1));
            assert(scan_from(s0, buf, 0, cap, at_eof) == scan_from(s1, buf, 1, cap, at_eof));
            if st.carry.len() >= 2 {
                let s2 = s1.step(buf[1]);
                assert(s2.carry =~= st.carry.take(2));
                assert(scan_from(s1, buf, 1, cap, at_eof) == scan_from(s2, buf, 2, cap, at_eof));
                if st.carry.len() >= 3 {
                    let s3 = s2.step(buf[2]);
                    assert(s3.carry =~= st.carry);
                    assert(scan_from(s2, buf, 2, cap, at_eof) == scan_from(
                        s3,
                        buf,
                        3,
                        cap,
                        at_eof,
                    ));
                } else {
                    assert(s2 =~= st);
                }
            } else {
                assert(s1 =~= st);
            }
        } else {
            assert(s0 =~= st);
        }
    }
    assert(buf.skip(st.carry.len() as int) =~= chunk.skip(0));
    lemma_suffix(st, buf, st.carry.len() as int, chunk, 0, cap, at_eof);
}

/// What is read depends on what is left to read alone.
proof fn lemma_suffix(
    st: Progress,
    a: Seq<u8>,
    i: int,
    b: Seq<u8>,
    j: int,
    cap: nat,
    at_eof: bool,
)
    requires
        0 <= i <= a.len(),
        0 <= j <= b.len(),
        a.skip(i) == b.skip(j),
    ensures
        scan_from(st, a, i, cap, at_eof) == scan_from(st, b, j, cap, at_eof),
    decreases a.len() - i,
{
    assert(a.skip(i).len() == a.len() - i);
    assert(b.skip(j).len() == b.len() - j);
    if i < a.len() {
        assert(a.skip(i)[0] == a[i]);
        assert(b.skip(j)[0] == b[j]);
        assert(a.skip(i + 1) =~= a.skip(i).skip(1));
        assert(b.skip(j + 1) =~= b.skip(j).skip(1));
        lemma_suffix(st.step(a[i]), a, i + 1, b, j + 1, cap, at_eof);
    }
}

/// The `Progress` and error of a scan, as an executable result holds them.
pub open spec fn result_view(r: Result<ScanState, usize>) -> Result<Progress, nat> {
    match r {
        Ok(state) => Ok(state@),
        Err(observed) => Err(observed as nat),
    }
}

/// Reads a chunk from `state`, and bounds every frame in it. `Err` holds the count
/// that exceeded the ceiling.
pub fn scan_frames_since_boundary(
    state: ScanState,
    chunk: &[u8],
    cap: usize,
    at_eof: bool,
) -> (r: Result<ScanState, usize>)
    requires
        state@.wf(),
    ensures
        result_view(r) == scan(state@, chunk@, cap as nat, at_eof),
        r matches Ok(next) ==> next@.wf(),
{
    let ghost st = state@;
    let mut since_boundary: usize = state.since_boundary;
    let in_eol_run = state.in_eol_run;
    let mut buf: Vec<u8> = state.carry;
    text::append_bytes(&mut buf, chunk);
    let ghost goal = scan(st, chunk@, cap as nat, at_eof);
    proof {
        lemma_carry(st, chunk@, cap as nat, at_eof);
        lemma_scan_wf(st, chunk@, 0, cap as nat, at_eof);
    }
    let mut seg_start: usize = 0;
    if in_eol_run {
        let (end, stop) = eol_run_end(&buf, 0, at_eof);
        proof {
            lemma_run(buf@, 0, cap as nat, at_eof);
        }
        match stop {
            EolRunStop::IncompleteCr => {
                let carry = text::bytes_of(&buf, end, buf.len());
                assert(carry@ =~= seq![CR]);
                return Ok(ScanState { since_boundary: 0, carry, in_eol_run: true });
            },
            EolRunStop::BufferEnd => {
                return Ok(ScanState { since_boundary: 0, carry: Vec::new(), in_eol_run: true });
            },
            EolRunStop::Content => {
                seg_start = end;
            },
        }
    }
    loop
        invariant
            seg_start <= buf@.len(),
            goal == scan_from(
                in_frame(since_boundary as nat),
                buf@,
                seg_start as int,
                cap as nat,
                at_eof,
            ),
            goal == scan(state@, chunk@, cap as nat, at_eof),
            goal matches Ok(p) ==> p.wf(),
        ensures
            seg_start <= buf@.len(),
            blank_line(buf@, seg_start as int, at_eof) is None,
            goal == scan_from(
                in_frame(since_boundary as nat),
                buf@,
                seg_start as int,
                cap as nat,
                at_eof,
            ),
        decreases buf@.len() - seg_start,
    {
        let (bs, be) = match next_boundary(&buf, seg_start, at_eof) {
            Some(range) => range,
            None => {
                break ;
            },
        };
        proof {
            lemma_frame(buf@, seg_start as int, since_boundary as nat, cap as nat, at_eof);
        }
        let confirmed: usize = bs - seg_start;
        since_boundary = since_boundary.saturating_add(confirmed);
        if since_boundary > cap {
            return Err(since_boundary);
        }
        since_boundary = 0;
        let (end, stop) = eol_run_end(&buf, be, at_eof);
        proof {
            lemma_run(buf@, be as int, cap as nat, at_eof);
        }
        match stop {
            EolRunStop::IncompleteCr => {
                let carry = text::bytes_of(&buf, end, buf.len());
                assert(carry@ =~= seq![CR]);
                return Ok(ScanState { since_boundary: 0, carry, in_eol_run: true });
            },
            EolRunStop::BufferEnd => {
                return Ok(ScanState { since_boundary: 0, carry: Vec::new(), in_eol_run: true });
            },
            EolRunStop::Content => {
                seg_start = end;
            },
        }
    }
    proof {
        lemma_frame(buf@, seg_start as int, since_boundary as nat, cap as nat, at_eof);
    }
    let tail = text::bytes_of(&buf, seg_start, buf.len());
    let defer: usize = if at_eof {
        0
    } else {
        boundary_prefix_suffix_len(&tail)
    };
    let charged: usize = tail.len() - defer;
    since_boundary = since_boundary.saturating_add(charged);
    if since_boundary > cap {
        return Err(since_boundary);
    }
    let carry = text::bytes_of(&tail, charged, tail.len());
    Ok(ScanState { since_boundary, carry, in_eol_run: false })
}

proof fn lemma_scan_wf(st: Progress, s: Seq<u8>, i: int, cap: nat, at_eof: bool)
    requires
        st.wf(),
        0 <= i <= s.len(),
    ensures
        scan_from(st, s, i, cap, at_eof) matches Ok(p) ==> p.wf() && p.since <= cap,
    decreases s.len() - i,
{
    if i < s.len() {
        lemma_step_wf(st, s[i]);
        lemma_scan_wf(st.step(s[i]), s, i + 1, cap, at_eof);
    }
}


// --- The guard -----------------------------------------------------------------------

/// Counts the bytes of an event stream since its last event boundary, and refuses
/// a chunk as soon as one frame exceeds the ceiling.
#[derive(Debug)]
pub struct SseFrameGuard {
    max_frame_bytes: usize,
    since_boundary: usize,
    carry: Vec<u8>,
    in_eol_run: bool,
}

/// The operator detail of a frame over the ceiling.
pub open spec fn over_cap_message(cap: nat, observed: nat) -> Seq<char> {
    "upstream SSE frame exceeded "@ + text::decimal(cap)
        + " bytes before an event boundary (saw "@ + text::decimal(observed)
        + "); rejecting to bound memory (G6)"@
}

impl SseFrameGuard {
    /// The ceiling.
    pub closed spec fn cap(&self) -> nat {
        self.max_frame_bytes as nat
    }

    /// Where the stream stands.
    pub closed spec fn progress(&self) -> Progress {
        Progress {
            since: self.since_boundary as nat,
            carry: self.carry@,
            in_run: self.in_eol_run,
        }
    }

    #[verifier::type_invariant]
    spec fn inv(&self) -> bool {
        self.progress().wf()
    }

    /// What a call that reads `chunk` returns and leaves behind. A refused chunk
    /// leaves the count as it was, and nothing pending.
    pub open spec fn read(
        before: &Self,
        chunk: Seq<u8>,
        at_eof: bool,
        after: &Self,
        r: Result<(), AppError>,
    ) -> bool {
        &&& after.cap() == before.cap()
        &&& match scan(before.progress(), chunk, before.cap(), at_eof) {
            Ok(p) => r is Ok && after.progress() == p,
            Err(observed) => {
                &&& r matches Err(e) && e@ == error::upstream_view(
                    over_cap_message(before.cap(), observed),
                )
                &&& after.progress() == (Progress { carry: seq![], ..before.progress() })
            },
        }
    }

    /// A guard at the start of a stream. A ceiling under 1 KiB is raised to it.
    pub fn new(max_frame_bytes: usize) -> (r: Self)
        ensures
            r.cap() == if max_frame_bytes >= MIN_MAX_SSE_FRAME_BYTES {
                max_frame_bytes as nat
            } else {
                MIN_MAX_SSE_FRAME_BYTES as nat
            },
            r.progress() == between_frames(),
    {
        let cap: usize = if max_frame_bytes >= MIN_MAX_SSE_FRAME_BYTES {
            max_frame_bytes
        } else {
            MIN_MAX_SSE_FRAME_BYTES
        };
        SseFrameGuard {
            max_frame_bytes: cap,
            since_boundary: 0,
            carry: Vec::new(),
            in_eol_run: true,
        }
    }

    /// The ceiling that this guard enforces.
    pub fn max_frame_bytes(&self) -> (r: usize)
        ensures
            r as nat == self.cap(),
    {
        self.max_frame_bytes
    }

    /// Reads one chunk. `Err` as soon as one frame, ended or not, is over the
    /// ceiling.
    pub fn accept(&mut self, chunk: &[u8]) -> (r: Result<(), AppError>)
        ensures
            Self::read(old(self), chunk@, false, final(self), r),
    {
        self.scan(chunk, false)
    }

    /// Reads the end of the stream: a pending line end is counted for a frame that
    /// it does not close.
    pub fn finish(&mut self) -> (r: Result<(), AppError>)
        ensures
            Self::read(old(self), seq![], true, final(self), r),
    {
        let empty: Vec<u8> = Vec::new();
        self.scan(&empty, true)
    }

    fn scan(&mut self, chunk: &[u8], at_eof: bool) -> (r: Result<(), AppError>)
        ensures
            Self::read(old(self), chunk@, at_eof, final(self), r),
    {
        proof {
            use_type_invariant(&*self);
        }
        let state = ScanState {
            since_boundary: self.since_boundary,
            carry: text::bytes_of(&self.carry, 0, self.carry.len()),
            in_eol_run: self.in_eol_run,
        };
        assert(state@ =~= self.progress());
        let max: usize = self.max_frame_bytes;
        match scan_frames_since_boundary(state, chunk, max, at_eof) {
            Ok(next) => {
                *self = SseFrameGuard {
                    max_frame_bytes: max,
                    since_boundary: next.since_boundary,
                    carry: next.carry,
                    in_eol_run: next.in_eol_run,
                };
                Ok(())
            },
            Err(observed) => {
                let mut message = "upstream SSE frame exceeded ".to_owned();
                message.append(text::decimal_of(max as u128).as_str());
                message.append(" bytes before an event boundary (saw ");
                message.append(text::decimal_of(observed as u128).as_str());
                message.append("); rejecting to bound memory (G6)");
                self.carry = Vec::new();
                Err(AppError::upstream(message.as_str()))
            },
        }
    }
}

// --- Laws ------------------------------------------------------------------------------

proof fn lemma_over_cap(st: Progress, s: Seq<u8>, i: int, cap: nat, at_eof: bool)
    requires
        st.wf(),
        st.since > cap,
        0 <= i <= s.len(),
    ensures
        scan_from(st, s, i, cap, at_eof) is Err,
    decreases s.len() - i,
{
    if i < s.len() && !st.ends_frame(s[i]) {
        lemma_step_wf(st, s[i]);
        assert(st.step(s[i]).since >= st.since);
        lemma_over_cap(st.step(s[i]), s, i + 1, cap, at_eof);
    }
}

proof fn lemma_join(st: Progress, a: Seq<u8>, i: int, b: Seq<u8>, cap: nat, at_eof: bool)
    requires
        st.wf(),
        0 <= i <= a.len(),
    ensures
        match scan_from(st, a, i, cap, false) {
            Ok(mid) => scan_from(st, a + b, i, cap, at_eof) == scan(mid, b, cap, at_eof),
            Err(_) => scan_from(st, a + b, i, cap, at_eof) is Err,
        },
    decreases a.len() - i,
{
    let s = a + b;
    if i < a.len() {
        assert(s[i] == a[i]);
        lemma_step_wf(st, a[i]);
        lemma_join(st.step(a[i]), a, i + 1, b, cap, at_eof);
    } else {
        assert(s.skip(i) =~= b.skip(0));
        lemma_suffix(st, s, i, b, 0, cap, at_eof);
        if st.since > cap {
            lemma_over_cap(st, s, i, cap, at_eof);
        }
    }
}

/// Reading two chunks one after the other is reading them as one: the same
/// verdict, and the stream stands in the same place after it.
pub proof fn law_two_chunks_are_one(
    st: Progress,
    a: Seq<u8>,
    b: Seq<u8>,
    cap: nat,
    at_eof: bool,
)
    requires
        st.wf(),
    ensures
        match scan(st, a, cap, false) {
            Ok(mid) => scan(st, a + b, cap, at_eof) == scan(mid, b, cap, at_eof),
            Err(_) => scan(st, a + b, cap, at_eof) is Err,
        },
{
    lemma_join(st, a, 0, b, cap, at_eof);
}

/// Reads `chunks` one after the other, up to the first that is refused.
pub open spec fn read_all(st: Progress, chunks: Seq<Seq<u8>>, cap: nat) -> Option<Progress>
    decreases chunks.len(),
{
    if chunks.len() == 0 {
        Some(st)
    } else {
        match scan(st, chunks.first(), cap, false) {
            Ok(next) => read_all(next, chunks.drop_first(), cap),
            Err(_) => None,
        }
    }
}

/// The bytes of `chunks`, in order.
pub open spec fn joined(chunks: Seq<Seq<u8>>) -> Seq<u8>
    decreases chunks.len(),
{
    if chunks.len() == 0 {
        seq![]
    } else {
        chunks.first() + joined(chunks.drop_first())
    }
}

/// Reading chunks is reading their bytes as one chunk.
pub proof fn law_chunks_are_their_bytes(st: Progress, chunks: Seq<Seq<u8>>, cap: nat)
    requires
        st.wf(),
        st.since <= cap,
    ensures
        match scan(st, joined(chunks), cap, false) {
            Ok(p) => read_all(st, chunks, cap) == Some(p),
            Err(_) => read_all(st, chunks, cap) is None,
        },
    decreases chunks.len(),
{
    if chunks.len() > 0 {
        let rest = joined(chunks.drop_first());
        law_two_chunks_are_one(st, chunks.first(), rest, cap, false);
        lemma_scan_wf(st, chunks.first(), 0, cap, false);
        if let Ok(next) = scan(st, chunks.first(), cap, false) {
            law_chunks_are_their_bytes(next, chunks.drop_first(), cap);
        }
    }
}

/// The verdict on a stream does not depend on how it is cut into chunks, nor does
/// the place where the stream stands after it.
pub proof fn law_verdict_is_chunking_independent(
    st: Progress,
    left: Seq<Seq<u8>>,
    right: Seq<Seq<u8>>,
    cap: nat,
)
    requires
        st.wf(),
        st.since <= cap,
        joined(left) == joined(right),
    ensures
        read_all(st, left, cap) == read_all(st, right, cap),
{
    law_chunks_are_their_bytes(st, left, cap);
    law_chunks_are_their_bytes(st, right, cap);
}

/// The frames of a whole stream from `i`: what lies between blank lines, where no
/// empty line belongs to a frame and a single line end inside one does.
pub open spec fn frames(s: Seq<u8>, i: int) -> Seq<(int, int)>
    decreases s.len() - i,
{
    let start = eol_run(s, i, true).0;
    if !(0 <= i <= start < s.len()) {
        seq![]
    } else {
        match blank_line(s, start, true) {
            Some((bs, be)) if i < be <= s.len() => seq![(start, bs)] + frames(s, be),
            _ => seq![(start, s.len() as int)],
        }
    }
}

/// Whether no frame of a whole stream is over the ceiling.
pub open spec fn frames_fit(s: Seq<u8>, i: int, cap: nat) -> bool {
    forall|k: int|
        0 <= k < frames(s, i).len() ==> (#[trigger] frames(s, i)[k]).1 - frames(s, i)[k].0 <= cap
}

proof fn lemma_verdict(s: Seq<u8>, i: int, cap: nat)
    requires
        0 <= i <= s.len() <= usize::MAX,
    ensures
        scan_from(between_frames(), s, i, cap, true) is Ok <==> frames_fit(s, i, cap),
    decreases s.len() - i,
{
    lemma_run(s, i, cap, true);
    let (start, stop) = eol_run(s, i, true);
    if start < s.len() {
        lemma_frame(s, start, 0, cap, true);
        let f = frames(s, i);
        match blank_line(s, start, true) {
            Some((bs, be)) => {
                lemma_verdict(s, be, cap);
                let rest = frames(s, be);
                assert(f == seq![(start, bs)] + rest);
                assert(f[0] == (start, bs));
                assert(forall|k: int| 0 <= k < rest.len() ==> #[trigger] rest[k] == f[k + 1]);
                if frames_fit(s, i, cap) {
                    assert forall|k: int| 0 <= k < rest.len() implies (#[trigger] rest[k]).1
                        - rest[k].0 <= cap by {
                        assert(f[k + 1].1 - f[k + 1].0 <= cap);
                    }
                    assert(f[0].1 - f[0].0 <= cap);
                } else {
                    let k = choose|k: int|
                        0 <= k < f.len() && !((#[trigger] f[k]).1 - f[k].0 <= cap);
                    if k > 0 {
                        assert(rest[k - 1] == f[k]);
                        assert(!frames_fit(s, be, cap));
                    }
                }
            },
            None => {
                assert(f == seq![(start, s.len() as int)]);
                assert(f[0] == (start, s.len() as int));
            },
        }
    }
}

/// A whole stream passes, end included, just when none of its frames is over the
/// ceiling.
pub proof fn law_verdict_is_by_frame_size(s: Seq<u8>, cap: nat)
    requires
        s.len() <= usize::MAX,
    ensures
        scan(between_frames(), s, cap, true) is Ok <==> frames_fit(s, 0, cap),
{
    lemma_verdict(s, 0, cap);
}

/// A stream whose frames fit is never refused, whatever its chunks.
pub proof fn law_fitting_stream_is_never_refused(chunks: Seq<Seq<u8>>, rest: Seq<u8>, cap: nat)
    requires
        (joined(chunks) + rest).len() <= usize::MAX,
        frames_fit(joined(chunks) + rest, 0, cap),
    ensures
        read_all(between_frames(), chunks, cap) is Some,
{
    let s = joined(chunks);
    law_verdict_is_by_frame_size(s + rest, cap);
    law_two_chunks_are_one(between_frames(), s, rest, cap, true);
    law_chunks_are_their_bytes(between_frames(), chunks, cap);
}

/// Reading the end of a stream a second time changes nothing.
pub proof fn law_finish_is_idempotent(st: Progress, cap: nat)
    requires
        st.wf(),
    ensures
        scan(st, seq![], cap, true) matches Ok(p) ==> scan(p, seq![], cap, true) == Ok::<
            Progress,
            nat,
        >(p),
{
}

/// No more than three bytes are ever pending.
pub proof fn law_carry_is_short(st: Progress)
    requires
        st.wf(),
    ensures
        st.carry.len() <= 3,
{
}

} // verus!
