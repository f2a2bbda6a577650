//! The driver: the per-line pipeline from selection to formatted output,
//! the per-source loop over lines, and the plan for one configured path.
//!
//! Everything here is a pure function of the configuration and of the lines
//! a source yielded; opening files, walking directories and writing streams
//! stay outside the library.

use vstd::prelude::*;
use vstd::string::StringSliceAdditionalSpecFns;
use vstd::string::StringExecFns;
use vstd::utf8::encode_utf8;
use crate::pattern::CompiledPattern;
use crate::pattern::PatternError;
use crate::pattern::alternation_of;
use crate::pattern::compile;
use crate::pattern::regex_found;
use crate::pattern::regex_ok;
use crate::pattern::spans_wf;
use crate::filter::select;
use crate::filter::selected;
use crate::format::Piece;
use crate::format::PieceKind;
use crate::format::format_model;
use crate::format::format_line;
use crate::format::flatten_pieces;
use crate::format::piece_models;
use crate::format::render;

verus! {

/// The byte that terminates every emitted output line.
pub const NL_BYTE: u8 = 10;

/// The configuration the excluded command-line layer hands the engine:
/// raw pattern text (alternatives separated by newlines), the input
/// locations in processing order, and the three flags.
pub struct Config {
    pub pattern_text: String,
    pub paths: Vec<String>,
    pub ignore_case: bool,
    pub recursive: bool,
    pub invert_match: bool,
}

impl Config {
    /// Build the run's matcher once from the configured pattern text and
    /// case flag; it is then shared read-only across every source.
    pub fn compile_pattern(&self) -> (r: Result<CompiledPattern, PatternError>)
        ensures
            r is Ok <==> regex_ok(alternation_of(self.pattern_text@), self.ignore_case),
            r is Ok ==> r->Ok_0.pattern() == alternation_of(self.pattern_text@),
            r is Ok ==> r->Ok_0.folds_case() == self.ignore_case,
    {
        compile(self.pattern_text.as_str(), self.ignore_case)
    }
}

/// The label of an optional source, as a character sequence.
pub open spec fn label_view(label: Option<&str>) -> Option<Seq<char>> {
    match label {
        Some(l) => Some(l@),
        None => None,
    }
}

/// The spans a selected line is highlighted with: none when inverted (a
/// selected line has no match to locate), all found matches otherwise.
pub open spec fn line_spans(
    pattern: Seq<char>,
    ignore_case: bool,
    line: Seq<char>,
    invert: bool,
) -> Seq<(usize, usize)> {
    if invert {
        Seq::empty()
    } else {
        regex_found(pattern, ignore_case, line)
    }
}

/// The pieces a selected line is printed as.
pub open spec fn line_pieces(
    pattern: Seq<char>,
    ignore_case: bool,
    line: Seq<char>,
    label: Option<Seq<char>>,
    recursive: bool,
    invert: bool,
) -> Seq<(PieceKind, Seq<u8>)> {
    format_model(
        encode_utf8(line),
        line_spans(pattern, ignore_case, line, invert),
        match label {
            Some(l) => Some(encode_utf8(l)),
            None => None,
        },
        recursive,
    )
}

/// What one input line contributes to standard output: one newline-terminated
/// formatted line when it is selected, nothing otherwise.
pub open spec fn line_output(
    pattern: Seq<char>,
    ignore_case: bool,
    line: Seq<char>,
    label: Option<Seq<char>>,
    recursive: bool,
    invert: bool,
) -> Option<Seq<u8>> {
    if selected(pattern, ignore_case, line, invert) {
        Some(
            flatten_pieces(line_pieces(pattern, ignore_case, line, label, recursive, invert))
                + seq![NL_BYTE],
        )
    } else {
        None
    }
}

/// What one whole source contributes to standard output, line by line in
/// file order.
pub open spec fn source_output(
    pattern: Seq<char>,
    ignore_case: bool,
    lines: Seq<Seq<char>>,
    label: Option<Seq<char>>,
    recursive: bool,
    invert: bool,
) -> Seq<Seq<u8>>
    decreases lines.len(),
{
    if lines.len() == 0 {
        Seq::empty()
    } else {
        let rest = source_output(pattern, ignore_case, lines.drop_first(), label, recursive, invert);
        match line_output(pattern, ignore_case, lines[0], label, recursive, invert) {
            Some(o) => seq![o] + rest,
            None => rest,
        }
    }
}

/// Decide one line: selected lines come back as their printable pieces
/// (label prefix and highlights included), unselected lines as nothing.
/// Computing spans never changes whether the line was selected.
pub fn process_line(
    pattern: &CompiledPattern,
    line: &str,
    label: Option<&str>,
    recursive: bool,
    invert: bool,
) -> (r: Option<Vec<Piece>>)
    ensures
        r is Some <==> selected(pattern.pattern(), pattern.folds_case(), line@, invert),
        r is Some ==> piece_models(r->0@) == line_pieces(
            pattern.pattern(),
            pattern.folds_case(),
            line@,
            label_view(label),
            recursive,
            invert,
        ),
{
    if !select(line, pattern, invert) {
        return None;
    }
    let spans: Vec<(usize, usize)> = if invert {
        Vec::new()
    } else {
        pattern.find_spans(line)
    };
    assert(spans_wf(spans@, line.spec_bytes().len() as int));
    Some(format_line(line, &spans, label, recursive))
}

/// Run the engine over the lines of one source: each selected line becomes
/// one newline-terminated output line, plain-rendered, in file order.
pub fn process_source(
    pattern: &CompiledPattern,
    lines: &Vec<String>,
    label: Option<&str>,
    recursive: bool,
    invert: bool,
) -> (out: Vec<Vec<u8>>)
    ensures
        out.deep_view() == source_output(
            pattern.pattern(),
            pattern.folds_case(),
            lines.deep_view(),
            label_view(label),
            recursive,
            invert,
        ),
{
    let ghost pat = pattern.pattern();
    let ghost fold = pattern.folds_case();
    let ghost lv = lines.deep_view();
    let ghost lab = label_view(label);
    let mut out: Vec<Vec<u8>> = Vec::new();
    let mut i: usize = 0;
    proof {
        assert(lv.skip(0) =~= lv);
        assert(out.deep_view() + source_output(pat, fold, lv, lab, recursive, invert)
            =~= source_output(pat, fold, lv, lab, recursive, invert));
    }
    while i < lines.len()
        invariant
            0 <= i <= lines@.len(),
            lv == lines.deep_view(),
            lv.len() == lines@.len(),
            pat == pattern.pattern(),
            fold == pattern.folds_case(),
            lab == label_view(label),
            out.deep_view() + source_output(pat, fold, lv.skip(i as int), lab, recursive, invert)
                == source_output(pat, fold, lv, lab, recursive, invert),
        decreases lines@.len() - i,
    {
        let line: &String = &lines[i];
        proof {
            assert(lv[i as int] == lines@[i as int]@);
            assert(lv.skip(i as int)[0] == lv[i as int]);
            assert(lv.skip(i as int).drop_first() =~= lv.skip(i as int + 1));
        }
        let ghost out_old = out.deep_view();
        match process_line(pattern, line.as_str(), label, recursive, invert) {
            Some(pieces) => {
                let mut bytes = render(&pieces);
                bytes.push(NL_BYTE);
                out.push(bytes);
                proof {
                    assert(out.deep_view() =~~= out_old.push(
                        flatten_pieces(line_pieces(pat, fold, lv[i as int], lab, recursive, invert))
                            + seq![NL_BYTE],
                    ));
                    assert(out.deep_view() + source_output(
                        pat,
                        fold,
                        lv.skip(i as int + 1),
                        lab,
                        recursive,
                        invert,
                    ) =~~= out_old + source_output(pat, fold, lv.skip(i as int), lab, recursive, invert));
                }
            },
            None => {
                proof {
                    assert(out.deep_view() + source_output(
                        pat,
                        fold,
                        lv.skip(i as int + 1),
                        lab,
                        recursive,
                        invert,
                    ) =~= out_old + source_output(pat, fold, lv.skip(i as int), lab, recursive, invert));
                }
            },
        }
        i += 1;
    }
    proof {
        assert(lv.skip(i as int) =~= Seq::<Seq<char>>::empty());
        assert(out.deep_view() =~= source_output(pat, fold, lv, lab, recursive, invert));
    }
    out
}

/// How many of a source's lines are selected.
pub open spec fn selected_count(
    pattern: Seq<char>,
    ignore_case: bool,
    lines: Seq<Seq<char>>,
    invert: bool,
) -> nat
    decreases lines.len(),
{
    if lines.len() == 0 {
        0
    } else {
        (if selected(pattern, ignore_case, lines[0], invert) {
            1nat
        } else {
            0nat
        }) + selected_count(pattern, ignore_case, lines.drop_first(), invert)
    }
}

/// Law: one output line per selected input line. The engine prints exactly
/// as many lines as are selected, each one newline-terminated, however many
/// matches a selected line holds.
pub proof fn lemma_one_line_per_selected(
    pattern: Seq<char>,
    ignore_case: bool,
    lines: Seq<Seq<char>>,
    label: Option<Seq<char>>,
    recursive: bool,
    invert: bool,
)
    ensures
        source_output(pattern, ignore_case, lines, label, recursive, invert).len()
            == selected_count(pattern, ignore_case, lines, invert),
        forall|j: int|
            0 <= j < source_output(pattern, ignore_case, lines, label, recursive, invert).len()
                ==> (#[trigger] source_output(pattern, ignore_case, lines, label, recursive, invert)[j]).len()
                > 0 && source_output(pattern, ignore_case, lines, label, recursive, invert)[j].last()
                == NL_BYTE,
    decreases lines.len(),
{
    if lines.len() > 0 {
        lemma_one_line_per_selected(
            pattern,
            ignore_case,
            lines.drop_first(),
            label,
            recursive,
            invert,
        );
        let out = source_output(pattern, ignore_case, lines, label, recursive, invert);
        let rest = source_output(pattern, ignore_case, lines.drop_first(), label, recursive, invert);
        if selected(pattern, ignore_case, lines[0], invert) {
            let o = line_output(pattern, ignore_case, lines[0], label, recursive, invert)->0;
            assert(o.last() == NL_BYTE);
            assert(out == seq![o] + rest);
            assert(forall|j: int| 1 <= j < out.len() ==> #[trigger] out[j] == rest[j - 1]);
        }
    }
}

/// Law: the engine is deterministic. Two runs whose configuration and whose
/// source lines are the same print byte-identical output.
pub proof fn lemma_run_deterministic(
    out1: Seq<Seq<u8>>,
    out2: Seq<Seq<u8>>,
    pattern: Seq<char>,
    ignore_case: bool,
    lines: Seq<Seq<char>>,
    label: Option<Seq<char>>,
    recursive: bool,
    invert: bool,
)
    requires
        out1 == source_output(pattern, ignore_case, lines, label, recursive, invert),
        out2 == source_output(pattern, ignore_case, lines, label, recursive, invert),
    ensures
        out1 == out2,
{
}

/// What the driver does for one configured path, in order.
pub enum SourceStep {
    /// Walk the filesystem from this root, opening the surviving files.
    Walk(String),
    /// Read standard input as one unlabeled source.
    ReadStdin,
}

/// The plan for one configured path: a path of its own is walked; the
/// standard-input placeholder first applies the traversal policy to the
/// stand-in location, then reads standard input itself.
pub fn plan_path(path: &str) -> (r: Vec<SourceStep>)
    ensures
        path@ == "-"@ ==> r@.len() == 2 && (r@[0] matches SourceStep::Walk(p) && p@ == "."@)
            && (r@[1] matches SourceStep::ReadStdin),
        path@ != "-"@ ==> r@.len() == 1 && (r@[0] matches SourceStep::Walk(p) && p@ == path@),
{
    let mut r: Vec<SourceStep> = Vec::new();
    if crate::resolve::is_stdin_path(path) {
        r.push(SourceStep::Walk(String::from_str(".")));
        r.push(SourceStep::ReadStdin);
    } else {
        r.push(SourceStep::Walk(path.to_owned()));
    }
    r
}

} // verus!
