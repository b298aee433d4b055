use llmconduit::sse_guard::default_max_sse_frame_bytes;
use llmconduit::sse_guard::boundary_prefix_suffix_len;
use llmconduit::sse_guard::next_boundary;
use llmconduit::sse_guard::scan_frames_since_boundary;
use llmconduit::sse_guard::ScanState;
use llmconduit::sse_guard::SseFrameGuard;


fn frame(data: &str) -> String {
    format!("data: {data}\n\n")
}

#[test]
fn next_boundary_tokenizes_every_eol_combo_like_the_parser() {
    assert_eq!(next_boundary(b"data: hi", 0, false), None);
    assert_eq!(next_boundary(b"a\n\nb", 0, false), Some((1, 3)));
    assert_eq!(next_boundary(b"a\r\rb", 0, false), Some((1, 3)));
    assert_eq!(next_boundary(b"a\r\n\r\nb", 0, false), Some((1, 5)));
    assert_eq!(next_boundary(b"a\r\n\nb", 0, false), Some((1, 4)));
    assert_eq!(next_boundary(b"a\n\rb", 0, false), Some((1, 3)));
    assert_eq!(next_boundary(b"a\r\n\rb", 0, false), Some((1, 4)));
    assert_eq!(next_boundary(b"a\n\r\nb", 0, false), Some((1, 4)));
    assert_eq!(next_boundary(b"a\r\r\nb", 0, false), Some((1, 4)));
    assert_eq!(next_boundary(b"a\n\r", 0, false), None);
    assert_eq!(next_boundary(b"a\r\r", 0, false), None);
    assert_eq!(next_boundary(b"a\n\r", 0, true), Some((1, 3)));
    assert_eq!(next_boundary(b"a\r\r", 0, true), Some((1, 3)));
    assert_eq!(next_boundary(b"a\nb\n\nc", 0, false), Some((3, 5)));
    assert_eq!(next_boundary(b"a\n\nb\n\nc", 0, false), Some((1, 3)));
    assert_eq!(next_boundary(b"a\n\nb\n\nc", 3, false), Some((4, 6)));
}

fn scan(
    since: usize,
    carry: &[u8],
    chunk: &[u8],
    cap: usize,
    eof: bool,
) -> Result<(usize, Vec<u8>), usize> {
    scan_state(since, carry, false, chunk, cap, eof).map(|s| (s.since_boundary, s.carry))
}

fn scan_state(
    since: usize,
    carry: &[u8],
    in_eol_run: bool,
    chunk: &[u8],
    cap: usize,
    eof: bool,
) -> Result<ScanState, usize> {
    scan_frames_since_boundary(
        ScanState {
            since_boundary: since,
            carry: carry.to_vec(),
            in_eol_run,
        },
        chunk,
        cap,
        eof,
    )
}

#[test]
fn scan_frames_charges_confirmed_frame_bytes_and_defers_prefix_tail() {
    let cap = 1024;
    assert_eq!(scan(0, b"", b"ab\n\ncd", cap, false), Ok((2, vec![])));
    assert_eq!(scan(5, b"\r", b"abc", cap, false), Ok((9, vec![])));
    assert_eq!(scan(7, b"\r\n", b"\r\nz", cap, false), Ok((1, vec![])));
    assert_eq!(scan(6, b"", b"\r\n\ncd", cap, false), Ok((2, vec![])));
    assert_eq!(
        scan(0, b"", b"ab\r\n\r", cap, false),
        Ok((2, b"\r\n\r".to_vec()))
    );
    assert_eq!(scan(3, b"", b"\n", cap, false), Ok((3, b"\n".to_vec())));
    assert_eq!(scan(3, b"", b"\n\r", cap, false), Ok((3, b"\n\r".to_vec())));
}

#[test]
fn scan_frames_consumes_maximal_eol_run_after_boundary() {
    let cap = 4;
    let s = scan_state(0, b"", false, b"ab\n\n\ncd", cap, false).expect("ok");
    assert_eq!(
        (s.since_boundary, s.carry, s.in_eol_run),
        (2, vec![], false)
    );
    let s = scan_state(0, b"", false, b"ab\n\n\n\ncd", cap, false).expect("ok");
    assert_eq!(s.since_boundary, 2);
    let mut data = Vec::new();
    data.extend_from_slice(b"x".repeat(cap).as_slice());
    data.extend_from_slice(b"\n\n\n");
    data.extend_from_slice(b"y".repeat(cap).as_slice());
    let s = scan_state(0, b"", false, &data, cap, false).expect("at-cap second frame accepted");
    assert_eq!(s.since_boundary, cap);
    let s = scan_state(0, b"", false, b"ab\r\n\n\r\rz", cap, false).expect("ok");
    assert_eq!((s.since_boundary, s.carry), (1, vec![]));
}

#[test]
fn scan_frames_eol_run_straddling_chunk_edge_is_fully_consumed() {
    let cap = 8;
    let s = scan_state(0, b"", false, b"ab\n\n\r", cap, false).expect("ok");
    assert_eq!(
        (s.since_boundary, s.carry, s.in_eol_run),
        (0, b"\r".to_vec(), true)
    );
    let s = scan_state(0, b"\r", true, b"cd", cap, false).expect("ok");
    assert_eq!(
        (s.since_boundary, s.carry, s.in_eol_run),
        (2, vec![], false)
    );
    let s = scan_state(0, b"\r", true, b"\ncd", cap, false).expect("ok");
    assert_eq!((s.since_boundary, s.in_eol_run), (2, false));
    let s = scan_state(0, b"", true, b"\n", cap, false).expect("ok");
    assert_eq!((s.since_boundary, s.carry, s.in_eol_run), (0, vec![], true));
    let s = scan_state(0, b"\r", true, b"", cap, true).expect("ok");
    assert_eq!(s.since_boundary, 0);
}

#[test]
fn scan_frames_finalizes_carry_on_eof() {
    let cap = 4;
    assert_eq!(scan(cap, b"\n", b"", cap, true), Err(5));
    assert_eq!(scan(3, b"\r\r", b"", cap, true), Ok((0, vec![])));
    assert_eq!(scan(3, b"\r\n\r", b"", cap, true), Ok((0, vec![])));
    assert_eq!(scan(3, b"\r\n", b"", cap, true), Err(5));
}

#[test]
fn scan_frames_caps_pre_boundary_segment() {
    let cap = 4;
    assert_eq!(scan(0, b"", b"xxxxx\n\n", cap, false), Err(5));
    assert_eq!(scan(cap, b"", b"x\n\n", cap, false), Err(5));
}

#[test]
fn carry_completes_boundary_split_across_tiny_chunks() {
    let mut guard = SseFrameGuard::new(1024);
    guard.accept(b"\r").expect("carry \\r");
    guard.accept(b"\n").expect("carry \\r\\n");
    guard.accept(b"\r\n").expect("boundary completes");
    let near_cap = vec![b'q'; 1024];
    guard
        .accept(&near_cap)
        .expect("fresh frame fits after multi-chunk boundary reset");
}

#[test]
fn boundary_prefix_suffix_len_classifies_tails() {
    assert_eq!(boundary_prefix_suffix_len(b"a\r\n\r"), 3);
    assert_eq!(boundary_prefix_suffix_len(b"a\r\n"), 2);
    assert_eq!(boundary_prefix_suffix_len(b"a\n\r"), 2);
    assert_eq!(boundary_prefix_suffix_len(b"a\r\r"), 2);
    assert_eq!(boundary_prefix_suffix_len(b"a\r"), 1);
    assert_eq!(boundary_prefix_suffix_len(b"a\n"), 1);
    assert_eq!(boundary_prefix_suffix_len(b"x\r"), 1);
    assert_eq!(boundary_prefix_suffix_len(b"abc"), 0);
    assert_eq!(boundary_prefix_suffix_len(b""), 0);
}

#[test]
fn guard_floors_tiny_cap_to_1kib() {
    let guard = SseFrameGuard::new(10);
    assert_eq!(guard.max_frame_bytes(), 1024);
}

#[test]
fn bounded_stream_passes_normal_then_errors_on_oversized() {
    let mut guard = SseFrameGuard::new(1024);
    guard.accept(b"data: ok\n\n").expect("ok bytes");
    let err = guard
        .accept(&vec![b'x'; 2048])
        .expect_err("oversized chunk errors");
    assert!(err.describe().contains("exceeded"));
}

#[test]
fn frame_exactly_at_cap_is_accepted() {
    let cap = 4096;
    let mut guard = SseFrameGuard::new(cap);
    assert_eq!(guard.max_frame_bytes(), cap);

    let exact = vec![b'x'; cap];
    assert!(
        guard.accept(&exact).is_ok(),
        "a frame of exactly the cap must be accepted"
    );
}

#[test]
fn frame_one_byte_over_cap_is_rejected() {
    let cap = 4096;
    let mut guard = SseFrameGuard::new(cap);

    let over = vec![b'x'; cap + 1];
    let err = guard
        .accept(&over)
        .expect_err("a frame one byte over the cap must be rejected");
    let message = err.describe();
    assert!(
        message.contains("exceeded") && message.contains(&cap.to_string()),
        "rejection error should name the exceeded cap, got: {message}"
    );
}

#[test]
fn oversized_unterminated_frame_is_rejected_before_unbounded_growth() {
    let cap = 1024;
    let mut guard = SseFrameGuard::new(cap);

    let chunk = vec![b'a'; cap];
    assert!(guard.accept(&chunk).is_ok());
    let err = guard
        .accept(&chunk)
        .expect_err("unterminated frame past the cap must be rejected");
    assert!(err.describe().contains("exceeded"));
}

#[test]
fn cap_is_configurable() {
    let payload = vec![b'z'; 64 * 1024];

    let mut small = SseFrameGuard::new(8 * 1024);
    assert!(
        small.accept(&payload).is_err(),
        "small cap must reject the 64 KiB unterminated frame"
    );

    let mut large = SseFrameGuard::new(128 * 1024);
    assert!(
        large.accept(&payload).is_ok(),
        "larger cap must accept the same 64 KiB frame"
    );
}

#[test]
fn normal_streaming_is_unaffected() {
    let cap = 4096;
    let mut guard = SseFrameGuard::new(cap);

    for i in 0..10_000 {
        let event = frame(&format!("chunk number {i} with a little payload"));
        guard
            .accept(event.as_bytes())
            .expect("well-formed small frames must always pass");
    }
}

#[test]
fn chunked_frame_under_cap_passes_and_resets_on_boundary() {
    let cap = 1024;
    let mut guard = SseFrameGuard::new(cap);

    let part = vec![b'p'; 100];
    for _ in 0..8 {
        guard.accept(&part).expect("partial frame under cap");
    }
    guard.accept(b"\n\n").expect("boundary accepted");
    for _ in 0..8 {
        guard
            .accept(&part)
            .expect("next frame under cap after reset");
    }
}

#[test]
fn boundary_straddling_chunk_edge_is_detected() {
    let cap = 1024;
    let mut guard = SseFrameGuard::new(cap);

    let bulk = vec![b'd'; 1000];
    guard.accept(&bulk).expect("bulk under cap");
    guard.accept(b"\r\n").expect("first half of boundary");
    guard
        .accept(b"\r\n")
        .expect("second half completes boundary");
    guard
        .accept(&bulk)
        .expect("next frame fits because boundary reset the count");
}

#[test]
fn oversized_terminated_single_chunk_frame_is_rejected() {
    let cap = 4096;
    let mut guard = SseFrameGuard::new(cap);

    let mut payload = vec![b'x'; cap + 1];
    payload.extend_from_slice(b"\n\n");
    let err = guard
        .accept(&payload)
        .expect_err("an oversized TERMINATED frame must be rejected");
    assert!(
        err.describe().contains("exceeded"),
        "rejection should name the exceeded cap, got: {err:?}"
    );
}

#[test]
fn pre_boundary_segment_over_cap_is_rejected_even_when_chunk_has_boundary() {
    let cap = 1024;
    let mut guard = SseFrameGuard::new(cap);

    let fill = vec![b'a'; cap];
    guard.accept(&fill).expect("exactly-at-cap accepted");

    let err = guard
        .accept(b"x\n\ndata: next")
        .expect_err("pre-boundary segment over the cap must be rejected");
    assert!(err.describe().contains("exceeded"), "got: {err:?}");
}

#[test]
fn boundary_split_across_three_tiny_chunks_resets_and_does_not_falsely_reject() {
    let cap = 1024;
    let mut guard = SseFrameGuard::new(cap);

    for i in 0..5_000 {
        let line = format!("data: frame {i}");
        guard.accept(line.as_bytes()).expect("payload under cap");
        guard.accept(b"\r").expect("boundary byte 1");
        guard.accept(b"\n").expect("boundary byte 2");
        guard
            .accept(b"\r\n")
            .expect("boundary completes; counter must reset");
    }
}

fn verdict_for_split_eof(data: &[u8], cap: usize, splits: &[usize], eof: bool) -> bool {
    assert_eq!(
        splits.iter().sum::<usize>(),
        data.len(),
        "split lengths must cover all bytes"
    );
    let mut guard = SseFrameGuard::new(cap);
    let mut off = 0usize;
    for &len in splits {
        if guard.accept(&data[off..off + len]).is_err() {
            return false;
        }
        off += len;
    }
    if eof && guard.finish().is_err() {
        return false;
    }
    true
}

fn verdict_for_split(data: &[u8], cap: usize, splits: &[usize]) -> bool {
    verdict_for_split_eof(data, cap, splits, false)
}

fn verdict_whole(data: &[u8], cap: usize) -> bool {
    verdict_for_split(data, cap, &[data.len()])
}

fn verdict_byte_by_byte(data: &[u8], cap: usize) -> bool {
    let ones = vec![1usize; data.len()];
    verdict_for_split(data, cap, &ones)
}

#[test]
fn boundary_prefix_split_is_not_falsely_rejected_and_is_chunk_independent() {
    let cap = 1024;

    let mut data = vec![b'a'; cap];
    data.extend_from_slice(b"\n\n");

    let split = verdict_for_split(&data, cap, &[cap, 1, 1]);
    assert!(
        split,
        "a valid boundary split as two `\\n` chunks must be accepted (Finding 1)"
    );

    let whole = verdict_for_split(&data, cap, &[cap, 2]);
    assert!(
        whole,
        "the same boundary as one `\\n\\n` chunk must be accepted"
    );

    assert_eq!(
        split, whole,
        "verdict must not depend on how the boundary bytes are chunked"
    );
    assert_eq!(
        verdict_byte_by_byte(&data, cap),
        whole,
        "byte-by-byte delivery must match whole-chunk delivery"
    );
}

#[test]
fn carry_internal_boundary_does_not_reset_twice() {
    let cap = 1024;

    let mut guard = SseFrameGuard::new(cap);
    guard
        .accept(b"data: {}\n\ny")
        .expect("terminated frame + 1 byte of next frame is fine");
    let bulk = vec![b'x'; cap];
    let err = guard
        .accept(&bulk)
        .expect_err("a 1025-byte unterminated frame must be rejected (Finding 2)");
    assert!(err.describe().contains("exceeded"), "got: {err:?}");

    let mut data = Vec::new();
    data.extend_from_slice(b"data: {}\n\ny");
    data.extend_from_slice(&bulk);
    assert!(
        !verdict_whole(&data, cap),
        "the 1025-byte frame must be rejected as a single chunk as well"
    );
    assert!(!verdict_byte_by_byte(&data, cap), "...and byte-by-byte");
}

#[test]
fn chunking_independence_sweep_every_offset_and_random_groupings() {
    let cap = 1024;

    let mut corpus: Vec<(String, Vec<u8>)> = Vec::new();

    {
        let mut s = Vec::new();
        s.extend_from_slice(b"data: one\n\n");
        s.extend_from_slice(b"data: two\r\n\r\n");
        s.extend_from_slice(b"data: three\r\r");
        s.extend_from_slice(b"data: tail-no-final-boundary");
        corpus.push(("valid_multi_frame_mixed_boundaries".into(), s));
    }

    {
        let mut s = vec![b'a'; cap];
        s.extend_from_slice(b"\n\n");
        s.extend_from_slice(b"data: after\n\n");
        corpus.push(("frame_exactly_at_cap_terminated".into(), s));
    }

    {
        let mut s = vec![b'b'; cap + 1];
        s.extend_from_slice(b"\n\n");
        corpus.push(("frame_one_over_cap_terminated".into(), s));
    }

    {
        let s = vec![b'c'; cap + 1];
        corpus.push(("frame_one_over_cap_unterminated".into(), s));
    }

    {
        let mut s = Vec::new();
        s.extend_from_slice(b"data: ends-with-cr\r\n\n");
        s.extend_from_slice(b"data: x\n\r\r");
        s.extend_from_slice(b"data: y");
        corpus.push(("ambiguous_prefix_adjacent_boundaries".into(), s));
    }

    let mut rng: u64 = 0x1234_5678_9abc_def0;
    let mut next_rand = move |bound: usize| -> usize {
        rng = rng
            .wrapping_mul(6364136223846793005)
            .wrapping_add(1442695040888963407);
        if bound == 0 {
            0
        } else {
            ((rng >> 33) as usize) % bound
        }
    };

    for (label, data) in &corpus {
        let expected = verdict_whole(data, cap);

        assert_eq!(
            verdict_byte_by_byte(data, cap),
            expected,
            "[{label}] byte-by-byte verdict diverged from whole-chunk verdict"
        );
        for cut in 1..data.len() {
            let splits = [cut, data.len() - cut];
            assert_eq!(
                verdict_for_split(data, cap, &splits),
                expected,
                "[{label}] two-chunk split at offset {cut} diverged from whole"
            );
        }

        for trial in 0..16 {
            let mut splits = Vec::new();
            let mut remaining = data.len();
            while remaining > 0 {
                let size = 1 + next_rand(remaining.min(7));
                let size = size.min(remaining);
                splits.push(size);
                remaining -= size;
            }
            assert_eq!(
                verdict_for_split(data, cap, &splits),
                expected,
                "[{label}] random grouping #{trial} {splits:?} diverged from whole"
            );
        }
    }
}

const ALL_BOUNDARY_COMBOS: &[(&str, &[u8])] = &[
    ("lf_lf", b"\n\n"),
    ("cr_cr", b"\r\r"),
    ("crlf_crlf", b"\r\n\r\n"),
    ("crlf_lf", b"\r\n\n"),
    ("lf_cr", b"\n\r"),
    ("crlf_cr", b"\r\n\r"),
    ("lf_crlf", b"\n\r\n"),
    ("cr_crlf", b"\r\r\n"),
];

#[test]
fn exhaustive_eol_combo_convergence_gate_every_offset_random_and_eof() {
    let cap = 1024;

    let mut rng: u64 = 0x0f0f_0f0f_dead_beef;
    let mut next_rand = move |bound: usize| -> usize {
        rng = rng
            .wrapping_mul(6364136223846793005)
            .wrapping_add(1442695040888963407);
        if bound == 0 {
            0
        } else {
            ((rng >> 33) as usize) % bound
        }
    };

    for (combo, sep) in ALL_BOUNDARY_COMBOS {
        let mut corpus: Vec<(String, Vec<u8>, bool)> = Vec::new();

        {
            let mut s = vec![b'a'; cap];
            s.extend_from_slice(sep);
            s.extend_from_slice(b"data: tail");
            s.extend_from_slice(sep);
            corpus.push((format!("{combo}/at_cap_terminated"), s, true));
        }
        {
            let mut s = vec![b'b'; cap + 1];
            s.extend_from_slice(sep);
            corpus.push((format!("{combo}/over_cap_terminated"), s, false));
        }
        {
            let mut s = Vec::new();
            s.extend_from_slice(b"data: head");
            s.extend_from_slice(sep);
            s.extend_from_slice(&vec![b'c'; cap]);
            corpus.push((format!("{combo}/trailing_unterminated_at_cap"), s, true));
        }
        {
            let s = vec![b'd'; cap + 1];
            corpus.push((format!("{combo}/trailing_unterminated_over_cap"), s, false));
        }
        {
            let first_eol: &[u8] = if sep[0] == b'\r' && sep.get(1) == Some(&b'\n') {
                b"\r\n"
            } else {
                &sep[..1]
            };
            let mut s = vec![b'e'; cap];
            s.extend_from_slice(first_eol);
            corpus.push((format!("{combo}/at_cap_then_dangling_eol"), s, false));
        }

        for (label, data, intended) in &corpus {
            let expected = verdict_for_split_eof(data, cap, &[data.len()], true);
            assert_eq!(
                expected, *intended,
                "[{label}] whole+EOF verdict {expected} != intended per-frame-cap verdict {intended}"
            );

            let ones = vec![1usize; data.len()];
            assert_eq!(
                verdict_for_split_eof(data, cap, &ones, true),
                expected,
                "[{label}] byte-by-byte+EOF diverged from whole+EOF"
            );

            for cut in 1..data.len() {
                let splits = [cut, data.len() - cut];
                assert_eq!(
                    verdict_for_split_eof(data, cap, &splits, true),
                    expected,
                    "[{label}] two-chunk split at offset {cut} + EOF diverged from whole+EOF"
                );
            }

            for trial in 0..24 {
                let mut splits = Vec::new();
                let mut remaining = data.len();
                while remaining > 0 {
                    let size = (1 + next_rand(remaining.min(9))).min(remaining);
                    splits.push(size);
                    remaining -= size;
                }
                assert_eq!(
                    verdict_for_split_eof(data, cap, &splits, true),
                    expected,
                    "[{label}] random grouping #{trial} {splits:?} + EOF diverged from whole+EOF"
                );
            }
        }
    }
}

#[test]
fn pending_carry_is_charged_on_eof_for_every_combo() {
    let cap = 1024;
    for (combo, sep) in ALL_BOUNDARY_COMBOS {
        let first_eol: &[u8] = if sep[0] == b'\r' && sep.get(1) == Some(&b'\n') {
            b"\r\n"
        } else {
            &sep[..1]
        };
        let mut data = vec![b'e'; cap];
        data.extend_from_slice(first_eol);

        assert!(
            verdict_for_split_eof(&data, cap, &[data.len()], false),
            "[{combo}] without EOF the dangling separator prefix must be deferred (accepted)"
        );
        assert!(
            !verdict_for_split_eof(&data, cap, &[data.len()], true),
            "[{combo}] EOF must charge the pending carry and reject the over-cap unterminated frame"
        );
        let cut = cap;
        assert!(
            !verdict_for_split_eof(&data, cap, &[cut, data.len() - cut], true),
            "[{combo}] EOF rejection must hold when the dangling EOL is its own chunk"
        );
    }
}

#[test]
fn multi_blank_line_separators_charge_extra_eols_to_no_frame_and_are_chunk_independent() {
    let cap = 1024;

    let separators: &[(&str, &[u8])] = &[
        ("lf3", b"\n\n\n"),
        ("lf4", b"\n\n\n\n"),
        ("crlf3", b"\r\n\r\n\r\n"),
        ("mixed_lf_crlf_lf", b"\n\r\n\n"),
        ("cr3", b"\r\r\r"),
        ("mixed_crlf_lf_cr_cr", b"\r\n\n\r\r"),
    ];

    let mut rng: u64 = 0x1234_5678_dead_f00d;
    let mut next_rand = move |bound: usize| -> usize {
        rng = rng
            .wrapping_mul(6364136223846793005)
            .wrapping_add(1442695040888963407);
        if bound == 0 {
            0
        } else {
            ((rng >> 33) as usize) % bound
        }
    };

    for (sep_label, sep) in separators {
        let mut corpus: Vec<(String, Vec<u8>, bool)> = Vec::new();

        {
            let mut s = Vec::new();
            s.extend_from_slice(b"data: head");
            s.extend_from_slice(sep);
            s.extend_from_slice(&vec![b'a'; cap]);
            s.extend_from_slice(b"\n\n");
            corpus.push((format!("{sep_label}/second_frame_at_cap"), s, true));
        }
        {
            let mut s = Vec::new();
            s.extend_from_slice(b"data: head");
            s.extend_from_slice(sep);
            s.extend_from_slice(&vec![b'b'; cap + 1]);
            s.extend_from_slice(b"\n\n");
            corpus.push((format!("{sep_label}/second_frame_over_cap"), s, false));
        }
        {
            let mut s = Vec::new();
            s.extend_from_slice(sep);
            s.extend_from_slice(&vec![b'c'; cap]);
            s.extend_from_slice(b"\n\n");
            corpus.push((format!("{sep_label}/leading_run_then_at_cap"), s, true));
        }
        {
            let mut s = Vec::new();
            s.extend_from_slice(b"data: head");
            s.extend_from_slice(sep);
            s.extend_from_slice(&vec![b'd'; cap]);
            corpus.push((format!("{sep_label}/trailing_unterminated_at_cap"), s, true));
        }
        {
            let mut s = Vec::new();
            s.extend_from_slice(b"data: head");
            s.extend_from_slice(sep);
            s.extend_from_slice(&vec![b'e'; cap + 1]);
            corpus.push((
                format!("{sep_label}/trailing_unterminated_over_cap"),
                s,
                false,
            ));
        }

        for (label, data, intended) in &corpus {
            let expected = verdict_for_split_eof(data, cap, &[data.len()], true);
            assert_eq!(
                expected, *intended,
                "[{label}] whole+EOF verdict {expected} != intended per-frame-cap verdict {intended}"
            );

            let ones = vec![1usize; data.len()];
            assert_eq!(
                verdict_for_split_eof(data, cap, &ones, true),
                expected,
                "[{label}] byte-by-byte+EOF diverged from whole+EOF"
            );

            for cut in 1..data.len() {
                let splits = [cut, data.len() - cut];
                assert_eq!(
                    verdict_for_split_eof(data, cap, &splits, true),
                    expected,
                    "[{label}] two-chunk split at offset {cut} + EOF diverged from whole+EOF"
                );
            }

            for trial in 0..24 {
                let mut splits = Vec::new();
                let mut remaining = data.len();
                while remaining > 0 {
                    let size = (1 + next_rand(remaining.min(9))).min(remaining);
                    splits.push(size);
                    remaining -= size;
                }
                assert_eq!(
                    verdict_for_split_eof(data, cap, &splits, true),
                    expected,
                    "[{label}] random grouping #{trial} {splits:?} + EOF diverged from whole+EOF"
                );
            }
        }
    }
}

#[test]
fn codex_round4_extra_blank_line_before_at_cap_frame_is_accepted() {
    let cap = 1024;
    let mut data = Vec::new();
    data.extend_from_slice(b"data: {}\n\n\n");
    data.extend_from_slice(b"data: ");
    data.extend_from_slice(&vec![b'x'; cap - 6]);
    data.extend_from_slice(b"\n\n");

    assert!(
        verdict_for_split_eof(&data, cap, &[data.len()], true),
        "the second frame is exactly at cap; the extra inter-frame `\\n` must not be charged into it"
    );
    assert!(
        verdict_for_split_eof(&data, cap, &[data.len()], false),
        "exact sequence must be accepted mid-stream too"
    );
    let ones = vec![1usize; data.len()];
    assert!(
        verdict_for_split_eof(&data, cap, &ones, true),
        "byte-by-byte delivery of the exact sequence must also accept"
    );
    for cut in 1..data.len() {
        assert!(
            verdict_for_split_eof(&data, cap, &[cut, data.len() - cut], true),
            "two-chunk split at offset {cut} of the exact sequence must accept"
        );
    }
}

#[test]
fn leading_empty_event_eol_is_charged_to_no_frame_and_is_accepted() {
    let cap = 1024;
    let mut data = Vec::new();
    data.extend_from_slice(b"\n");
    data.extend_from_slice(b"data: ");
    data.extend_from_slice(&vec![b'x'; cap - 6]);
    data.extend_from_slice(b"\n\n");

    assert!(
        verdict_for_split_eof(&data, cap, &[data.len()], true),
        "the frame after the leading empty event is exactly at cap; the leading `\\n` must not be charged into it"
    );
    assert!(
        verdict_for_split_eof(&data, cap, &[data.len()], false),
        "leading-empty-event case must be accepted mid-stream as well"
    );
    assert!(
        verdict_for_split_eof(&data, cap, &[1, data.len() - 1], true),
        "leading `\\n` delivered as its own chunk must still be charged to no frame"
    );
    let ones = vec![1usize; data.len()];
    assert!(
        verdict_for_split_eof(&data, cap, &ones, true),
        "byte-by-byte delivery of the leading-empty-event case must accept"
    );
    for cut in 1..data.len() {
        assert!(
            verdict_for_split_eof(&data, cap, &[cut, data.len() - cut], true),
            "two-chunk split at offset {cut} of the leading-empty-event case must accept"
        );
    }
}

fn oracle_eol_len(buf: &[u8], i: usize) -> Option<usize> {
    match buf.get(i) {
        Some(b'\r') => {
            if buf.get(i + 1) == Some(&b'\n') {
                Some(2)
            } else {
                Some(1)
            }
        }
        Some(b'\n') => Some(1),
        _ => None,
    }
}

fn oracle_skip_eol_run(buf: &[u8], from: usize) -> usize {
    let mut i = from;
    while i < buf.len() {
        match oracle_eol_len(buf, i) {
            Some(len) => i += len,
            None => break,
        }
    }
    i
}

fn oracle_next_boundary(buf: &[u8], from: usize) -> Option<(usize, usize)> {
    let mut i = from;
    while i < buf.len() {
        let Some(first) = oracle_eol_len(buf, i) else {
            i += 1;
            continue;
        };
        match oracle_eol_len(buf, i + first) {
            Some(second) => return Some((i, i + first + second)),
            None => i += first,
        }
    }
    None
}

fn oracle_accepts(buf: &[u8], cap: usize) -> bool {
    let mut i = oracle_skip_eol_run(buf, 0);
    let mut max_frame = 0usize;
    while i < buf.len() {
        match oracle_next_boundary(buf, i) {
            Some((bs, be)) => {
                max_frame = max_frame.max(bs - i);
                i = oracle_skip_eol_run(buf, be);
            }
            None => {
                max_frame = max_frame.max(buf.len() - i);
                break;
            }
        }
    }
    max_frame <= cap
}

#[test]
fn reference_oracle_differential_gate_pins_absolute_verdict_every_eol_position() {
    let cap = 1024;

    let seps: &[&[u8]] = &[
        b"\n\n",
        b"\r\r",
        b"\r\n\r\n",
        b"\r\n\n",
        b"\n\r",
        b"\r\n\r",
        b"\n\r\n",
        b"\r\r\n",
        b"\n\n\n",
        b"\n\n\n\n",
        b"\r\n\r\n\r\n",
        b"\n\r\n\n",
        b"\r\r\r",
        b"\r\n\n\r\r",
    ];

    let mut corpus: Vec<(String, Vec<u8>)> = Vec::new();

    for sep in seps {
        let tag = format!("{sep:?}");
        for &(sz_label, first, second) in &[
            ("both_small", 10usize, 12usize),
            ("first_at_cap", cap, 12),
            ("first_over_cap", cap + 1, 12),
            ("second_at_cap", 12, cap),
            ("second_over_cap", 12, cap + 1),
        ] {
            {
                let mut s = vec![b'a'; first];
                s.extend_from_slice(sep);
                s.extend_from_slice(&vec![b'b'; second]);
                s.extend_from_slice(b"\n\n");
                corpus.push((format!("two_frames/{tag}/{sz_label}"), s));
            }
            {
                let mut s = Vec::new();
                s.extend_from_slice(sep);
                s.extend_from_slice(&vec![b'c'; first]);
                s.extend_from_slice(b"\n\n");
                corpus.push((format!("leading_sep/{tag}/{sz_label}"), s));
            }
            {
                let mut s = vec![b'd'; first];
                s.extend_from_slice(sep);
                corpus.push((format!("trailing_sep/{tag}/{sz_label}"), s));
            }
            {
                let mut s = Vec::new();
                s.extend_from_slice(sep);
                s.extend_from_slice(&vec![b'e'; first]);
                s.extend_from_slice(sep);
                s.extend_from_slice(&vec![b'f'; second]);
                corpus.push((format!("lead_mid_trail/{tag}/{sz_label}"), s));
            }
        }
    }

    for &(inner_label, inner) in &[
        ("lf", b"\n".as_slice()),
        ("cr", b"\r".as_slice()),
        ("crlf", b"\r\n".as_slice()),
    ] {
        let line1 = cap / 2;
        for (edge_label, total) in [("at_cap", cap), ("over_cap", cap + 1)] {
            let line2 = total - line1 - inner.len();
            let mut s = Vec::new();
            s.extend_from_slice(&vec![b'a'; line1]);
            s.extend_from_slice(inner);
            s.extend_from_slice(&vec![b'b'; line2]);
            s.extend_from_slice(b"\n\n");
            corpus.push((format!("multiline_2/{inner_label}/{edge_label}"), s));

            let mut s = Vec::new();
            s.extend_from_slice(&vec![b'a'; line1]);
            s.extend_from_slice(inner);
            s.extend_from_slice(&vec![b'b'; line2]);
            corpus.push((
                format!("multiline_2_unterminated/{inner_label}/{edge_label}"),
                s,
            ));
        }
    }

    for (edge_label, total) in [("at_cap", cap), ("over_cap", cap + 1)] {
        let l1 = cap / 3;
        let l2 = cap / 3;
        let l3 = total - l1 - l2 - 3;
        let mut s = Vec::new();
        s.extend_from_slice(&vec![b'a'; l1]);
        s.extend_from_slice(b"\n");
        s.extend_from_slice(&vec![b'b'; l2]);
        s.extend_from_slice(b"\r\n");
        s.extend_from_slice(&vec![b'c'; l3]);
        s.extend_from_slice(b"\n\n");
        corpus.push((format!("multiline_3_mixed_inner/{edge_label}"), s));
    }

    for &(ctx_label, lead, mid) in &[
        ("leading_blank", b"\n".as_slice(), b"\n\n".as_slice()),
        ("leading_run", b"\n\n\n".as_slice(), b"\n\n".as_slice()),
        ("extra_blank_before", b"".as_slice(), b"\n\n\n".as_slice()),
        (
            "mixed_eol_blanks",
            b"\r\n".as_slice(),
            b"\r\n\r\n".as_slice(),
        ),
    ] {
        let line1 = cap / 2;
        let inner: &[u8] = b"\n";
        for (edge_label, total) in [("at_cap", cap), ("over_cap", cap + 1)] {
            let line2 = total - line1 - inner.len();
            let mut s = Vec::new();
            s.extend_from_slice(lead);
            s.extend_from_slice(b"data: head");
            s.extend_from_slice(mid);
            s.extend_from_slice(&vec![b'a'; line1]);
            s.extend_from_slice(inner);
            s.extend_from_slice(&vec![b'b'; line2]);
            s.extend_from_slice(b"\n\n");
            corpus.push((format!("multiline_ctx/{ctx_label}/{edge_label}"), s));
        }
    }

    for lead in [
        b"\n".as_slice(),
        b"\r".as_slice(),
        b"\r\n".as_slice(),
        b"\n\n\n".as_slice(),
        b"\r\n\r\n\r".as_slice(),
        b"\n\r".as_slice(),
    ] {
        for body in [cap, cap + 1] {
            let mut s = Vec::new();
            s.extend_from_slice(lead);
            s.extend_from_slice(&vec![b'L'; body]);
            s.extend_from_slice(b"\n\n");
            corpus.push((format!("single_leading_eol/{lead:?}/body{body}"), s));
            let mut s = Vec::new();
            s.extend_from_slice(lead);
            s.extend_from_slice(&vec![b'M'; body]);
            corpus.push((
                format!("single_leading_eol_unterminated/{lead:?}/body{body}"),
                s,
            ));
        }
    }

    corpus.push(("only_eols_lf".into(), b"\n\n\n\n".to_vec()));
    corpus.push(("only_eols_mixed".into(), b"\r\n\r\r\n".to_vec()));
    corpus.push(("empty".into(), Vec::new()));
    corpus.push(("single_at_cap_unterminated".into(), vec![b'g'; cap]));
    corpus.push(("single_over_cap_unterminated".into(), vec![b'h'; cap + 1]));

    let mut rng: u64 = 0xcafe_f00d_1234_5678;
    let mut next_rand = move |bound: usize| -> usize {
        rng = rng
            .wrapping_mul(6364136223846793005)
            .wrapping_add(1442695040888963407);
        if bound == 0 {
            0
        } else {
            ((rng >> 33) as usize) % bound
        }
    };

    for (label, data) in &corpus {
        let oracle = oracle_accepts(data, cap);

        assert_eq!(
            verdict_for_split_eof(data, cap, &[data.len()], true),
            oracle,
            "[{label}] guard whole+EOF verdict disagrees with reference oracle"
        );
        let ones = vec![1usize; data.len()];
        assert_eq!(
            verdict_for_split_eof(data, cap, &ones, true),
            oracle,
            "[{label}] guard byte-by-byte+EOF disagrees with reference oracle"
        );
        for cut in 1..data.len() {
            assert_eq!(
                verdict_for_split_eof(data, cap, &[cut, data.len() - cut], true),
                oracle,
                "[{label}] guard two-chunk split at offset {cut} + EOF disagrees with oracle"
            );
        }
        for trial in 0..16 {
            let mut splits = Vec::new();
            let mut remaining = data.len();
            while remaining > 0 {
                let size = (1 + next_rand(remaining.min(9))).min(remaining);
                splits.push(size);
                remaining -= size;
            }
            assert_eq!(
                verdict_for_split_eof(data, cap, &splits, true),
                oracle,
                "[{label}] guard random grouping #{trial} {splits:?} + EOF disagrees with oracle"
            );
        }
    }
}

#[test]
fn default_ceiling_is_eight_mebibytes() {
    assert_eq!(default_max_sse_frame_bytes(), 8 * 1024 * 1024);
}

#[test]
fn finishing_twice_is_finishing_once() {
    let mut guard = SseFrameGuard::new(4);
    guard.accept(b"abc\r").expect("fits");
    assert!(guard.finish().is_ok());
    assert!(guard.finish().is_ok());
}
