use grepnir::driver::{plan_path, process_line, process_source, Config, SourceStep};
use grepnir::filter::select;
use grepnir::format::{format_line, render, Piece, PieceKind};
use grepnir::pattern::compile;
use grepnir::resolve::{
    dir_diagnostic, entry_decision, is_stdin_path, looks_binary, open_diagnostic, stdin_label,
    walk_diagnostic, EntryDecision,
};

fn strings(items: &[&str]) -> Vec<String> {
    items.iter().map(|s| s.to_string()).collect()
}

fn output_lines(out: &[Vec<u8>]) -> Vec<String> {
    out.iter()
        .map(|l| String::from_utf8(l.clone()).expect("output line not UTF-8"))
        .collect()
}

#[test]
fn test_basic_pattern_matching() {
    let pattern = compile("Alan Watts", false).unwrap();
    let lines = strings(&[
        "Alan Watts wrote...",
        "the tao of programming",
        "nothing to see here",
    ]);
    let out = process_source(&pattern, &lines, None, false, false);

    let printed = output_lines(&out);
    assert_eq!(printed, vec!["Alan Watts wrote...\n"]);
    assert!(printed[0].contains("Alan Watts"));
}

#[test]
fn test_case_insensitive_search() {
    let pattern = compile("alan watts", true).unwrap();
    let lines = strings(&["Alan Watts wrote...", "someone else wrote..."]);
    let out = process_source(&pattern, &lines, None, false, false);

    let printed = output_lines(&out);
    assert_eq!(printed, vec!["Alan Watts wrote...\n"]);
    assert!(printed[0].contains("Alan Watts"));
}

#[test]
fn test_recursive_search() {
    let pattern = compile("they", false).unwrap();
    let lines = strings(&[
        "Then they can be long-lived.",
        "An unrelated line.",
    ]);
    let out = process_source(
        &pattern,
        &lines,
        Some("tests/inputs/tao.txt"),
        true,
        false,
    );

    let printed = output_lines(&out);
    assert_eq!(printed, vec!["tests/inputs/tao.txt:Then they can be long-lived.\n"]);
}

#[test]
fn test_inverted_match() {
    let pattern = compile("Alan", false).unwrap();
    let lines = strings(&[
        "Alan Watts wrote...",
        "a line without the name",
        "Alan again",
        "the last line",
    ]);
    let out = process_source(&pattern, &lines, None, false, true);

    let printed = output_lines(&out);
    assert_eq!(printed, vec!["a line without the name\n", "the last line\n"]);
    for line in &printed {
        assert!(!line.contains("Alan"));
    }
}

#[test]
fn select_agrees_with_is_match_and_inverts_it() {
    let pattern = compile("watts", false).unwrap();
    let hit = "alan watts spoke";
    let miss = "somebody else spoke";

    assert_eq!(select(hit, &pattern, false), pattern.is_match(hit));
    assert_eq!(select(miss, &pattern, false), pattern.is_match(miss));
    assert_eq!(select(hit, &pattern, true), !pattern.is_match(hit));
    assert_eq!(select(miss, &pattern, true), !pattern.is_match(miss));
    assert_ne!(select(hit, &pattern, true), select(hit, &pattern, false));
}

#[test]
fn newline_separated_patterns_alternate() {
    let pattern = compile("foo\nbar", false).unwrap();
    assert!(pattern.is_match("a line with foo inside"));
    assert!(pattern.is_match("a line with bar inside"));
    assert!(!pattern.is_match("a line with neither"));
}

#[test]
fn case_sensitivity_is_a_compile_time_setting() {
    let exact = compile("Alan", false).unwrap();
    assert!(!exact.is_match("alan watts"));
    assert!(exact.is_match("Alan Watts"));

    let folded = compile("Alan", true).unwrap();
    assert!(folded.is_match("alan watts"));
    assert!(folded.is_match("Alan Watts"));
}

#[test]
fn invalid_pattern_is_a_configuration_error() {
    let err = match compile("(", false) {
        Ok(_) => panic!("an unclosed group must not compile"),
        Err(e) => e,
    };
    assert_eq!(err.message(), "invalid pattern");
    assert!(compile("a(b", true).is_err());
    assert!(compile("a|b(", false).is_err());
}

#[test]
fn directory_policy_decisions() {
    // A directory met without recursion is reported and skipped.
    assert_eq!(entry_decision(true, false, false), EntryDecision::DirDiagnostic);
    // With recursion it is descended into, yielding no source of its own.
    assert_eq!(entry_decision(true, false, true), EntryDecision::Skip);
    // Regular files are opened either way.
    assert_eq!(entry_decision(false, true, false), EntryDecision::Open);
    assert_eq!(entry_decision(false, true, true), EntryDecision::Open);
    // Special files are never opened.
    assert_eq!(entry_decision(false, false, false), EntryDecision::Skip);
    assert_eq!(entry_decision(false, false, true), EntryDecision::Skip);
}

#[test]
fn diagnostics_name_the_unit_that_failed() {
    assert_eq!(
        dir_diagnostic("tests/inputs"),
        "grepnir: tests/inputs: Is a directory"
    );
    assert_eq!(
        open_diagnostic("gone.txt", "No such file or directory"),
        "grepnir: gone.txt: No such file or directory"
    );
    assert_eq!(
        walk_diagnostic("permission denied at depth 2"),
        "grepnir: permission denied at depth 2"
    );
}

#[test]
fn binary_sniff_looks_at_the_first_window_only() {
    assert!(!looks_binary(b""));
    assert!(!looks_binary(b"plain text, no zero byte"));
    assert!(looks_binary(&[65u8, 0u8, 66u8]));

    // A zero byte past the window is not seen.
    let mut late_zero = vec![1u8; 1025];
    late_zero[1024] = 0u8;
    assert!(!looks_binary(&late_zero));

    // A zero byte on the window's last position is.
    let mut edge_zero = vec![1u8; 1025];
    edge_zero[1023] = 0u8;
    assert!(looks_binary(&edge_zero));
}

#[test]
fn stdin_placeholder_gets_walked_then_read() {
    assert!(is_stdin_path("-"));
    assert!(!is_stdin_path("tao.txt"));
    assert!(!is_stdin_path("--"));
    assert!(!is_stdin_path(""));

    let plan = plan_path("-");
    assert_eq!(plan.len(), 2);
    match &plan[0] {
        SourceStep::Walk(p) => assert_eq!(p, "."),
        SourceStep::ReadStdin => panic!("expected a walk of the placeholder first"),
    }
    assert!(matches!(plan[1], SourceStep::ReadStdin));

    let plan = plan_path("tests/inputs/tao.txt");
    assert_eq!(plan.len(), 1);
    match &plan[0] {
        SourceStep::Walk(p) => assert_eq!(p, "tests/inputs/tao.txt"),
        SourceStep::ReadStdin => panic!("expected a walk of the path itself"),
    }
}

#[test]
fn stdin_label_depends_on_path_count() {
    assert!(stdin_label(0).is_none());
    assert!(stdin_label(1).is_none());
    assert_eq!(stdin_label(2).as_deref(), Some("-"));
    assert_eq!(stdin_label(5).as_deref(), Some("-"));
}

#[test]
fn find_spans_are_ascending_and_non_overlapping() {
    let pattern = compile("a", false).unwrap();
    let spans = pattern.find_spans("banana");
    assert_eq!(spans, vec![(1, 2), (3, 4), (5, 6)]);

    let pattern = compile("an", false).unwrap();
    let spans = pattern.find_spans("banana");
    assert_eq!(spans, vec![(1, 3), (3, 5)]);

    let pattern = compile("zzz", false).unwrap();
    assert_eq!(pattern.find_spans("banana"), Vec::<(usize, usize)>::new());
}

fn rendered(pieces: &[Piece]) -> Vec<u8> {
    let v: Vec<Piece> = pieces
        .iter()
        .map(|p| Piece { kind: p.kind, text: p.text.clone() })
        .collect();
    render(&v)
}

#[test]
fn highlight_round_trip_reconstructs_the_line() {
    let line = "banana bread";
    let pattern = compile("an", false).unwrap();
    let spans = pattern.find_spans(line);
    let pieces = format_line(line, &spans, None, false);
    assert_eq!(rendered(&pieces), line.as_bytes());

    // Pieces alternate: verbatim, matched, verbatim, matched, verbatim.
    let kinds: Vec<PieceKind> = pieces.iter().map(|p| p.kind).collect();
    assert_eq!(
        kinds,
        vec![
            PieceKind::Plain,
            PieceKind::Matched,
            PieceKind::Plain,
            PieceKind::Matched,
            PieceKind::Plain
        ]
    );
    assert_eq!(pieces[1].text, b"an".to_vec());
    assert_eq!(pieces[3].text, b"an".to_vec());
}

#[test]
fn highlight_round_trip_holds_past_ascii() {
    let line = "tao: \u{3b1}\u{3b2}\u{3b3} end";
    let pattern = compile("\u{3b2}", false).unwrap();
    let spans = pattern.find_spans(line);
    assert_eq!(spans, vec![(7, 9)]);
    let pieces = format_line(line, &spans, None, false);
    assert_eq!(rendered(&pieces), line.as_bytes());
}

#[test]
fn labels_prefix_lines_only_in_recursive_mode() {
    let line = "Then they can be long-lived.";
    let pattern = compile("they", false).unwrap();
    let spans = pattern.find_spans(line);

    let labeled = format_line(line, &spans, Some("tao.txt"), true);
    assert_eq!(labeled[0].kind, PieceKind::Label);
    assert_eq!(labeled[0].text, b"tao.txt".to_vec());
    assert_eq!(labeled[1].kind, PieceKind::Sep);
    assert_eq!(labeled[1].text, b":".to_vec());
    let mut expected = b"tao.txt:".to_vec();
    expected.extend_from_slice(line.as_bytes());
    assert_eq!(rendered(&labeled), expected);

    // Not recursive: no prefix, even though a label exists.
    let unlabeled = format_line(line, &spans, Some("tao.txt"), false);
    assert_eq!(rendered(&unlabeled), line.as_bytes());
    assert!(unlabeled.iter().all(|p| p.kind != PieceKind::Label));

    // Recursive but unlabeled (standard input): no prefix either.
    let spans2 = pattern.find_spans(line);
    let stdin_line = format_line(line, &spans2, None, true);
    assert_eq!(rendered(&stdin_line), line.as_bytes());
    assert!(stdin_line.iter().all(|p| p.kind != PieceKind::Label));
}

#[test]
fn process_line_selects_and_formats_together() {
    let pattern = compile("they", false).unwrap();

    let hit = process_line(&pattern, "so they said", None, false, false);
    assert!(hit.is_some());
    assert_eq!(rendered(&hit.unwrap()), b"so they said".to_vec());

    let miss = process_line(&pattern, "nobody said a word", None, false, false);
    assert!(miss.is_none());

    // Inverted selection emits the line verbatim, with no highlight pieces.
    let inverted = process_line(&pattern, "nobody said a word", None, false, true).unwrap();
    assert!(inverted.iter().all(|p| p.kind == PieceKind::Plain));
    assert_eq!(rendered(&inverted), b"nobody said a word".to_vec());
    assert!(process_line(&pattern, "so they said", None, false, true).is_none());
}

#[test]
fn engine_runs_are_idempotent() {
    let pattern = compile("long", false).unwrap();
    let lines = strings(&[
        "Then they can be long-lived.",
        "short",
        "the long way around",
    ]);
    let first = process_source(&pattern, &lines, Some("tao.txt"), true, false);
    let second = process_source(&pattern, &lines, Some("tao.txt"), true, false);
    assert_eq!(first, second);
    assert_eq!(first.len(), 2);
}

#[test]
fn empty_output_is_not_an_error() {
    let pattern = compile("absent", false).unwrap();
    let lines = strings(&["one line", "another line"]);
    let out = process_source(&pattern, &lines, None, false, false);
    assert!(out.is_empty());

    // Inverted over all-matching lines: everything excluded, still fine.
    let pattern = compile("line", false).unwrap();
    let out = process_source(&pattern, &lines, None, false, true);
    assert!(out.is_empty());
}

#[test]
fn config_drives_the_whole_run() {
    let config = Config {
        pattern_text: "they\nlong".to_string(),
        paths: vec!["tests/inputs".to_string()],
        ignore_case: false,
        recursive: true,
        invert_match: false,
    };
    let pattern = config.compile_pattern().unwrap();
    let lines = strings(&[
        "Then they can be long-lived.",
        "Short-lived, this one.",
        "the long way around",
    ]);
    let out = process_source(
        &pattern,
        &lines,
        Some("tests/inputs/tao.txt"),
        config.recursive,
        config.invert_match,
    );
    assert_eq!(
        output_lines(&out),
        vec![
            "tests/inputs/tao.txt:Then they can be long-lived.\n",
            "tests/inputs/tao.txt:the long way around\n"
        ]
    );

    let bad = Config {
        pattern_text: "unclosed(".to_string(),
        paths: vec!["-".to_string()],
        ignore_case: false,
        recursive: false,
        invert_match: false,
    };
    assert!(bad.compile_pattern().is_err());
}

#[test]
fn every_output_line_is_newline_terminated() {
    let pattern = compile("a", false).unwrap();
    let lines = strings(&["aaa", "bbb", "a and a and a"]);
    let out = process_source(&pattern, &lines, None, false, false);
    assert_eq!(out.len(), 2);
    for line in &out {
        assert_eq!(*line.last().unwrap(), b'\n');
        assert_eq!(line.iter().filter(|&&b| b == b'\n').count(), 1);
    }
}
