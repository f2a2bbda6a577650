//! Per-line selection: the boolean predicate that decides whether a line is
//! emitted, with or without inversion.

use vstd::prelude::*;
use crate::pattern::CompiledPattern;
use crate::pattern::regex_accepts;

verus! {

/// Whether a line is selected: it matches, or, inverted, it does not.
pub open spec fn selected(
    pattern: Seq<char>,
    ignore_case: bool,
    line: Seq<char>,
    invert: bool,
) -> bool {
    regex_accepts(pattern, ignore_case, line) != invert
}

/// Decide whether this line is emitted. With `invert` unset the line is
/// selected exactly when the pattern matches it; with `invert` set, exactly
/// when it does not. The decision is stateless across lines.
pub fn select(line: &str, pattern: &CompiledPattern, invert: bool) -> (r: bool)
    ensures
        r == selected(pattern.pattern(), pattern.folds_case(), line@, invert),
{
    let m = pattern.is_match(line);
    if invert {
        !m
    } else {
        m
    }
}

/// Law: for any fixed line and pattern, plain selection agrees with the
/// match predicate, inverted selection is its negation, and the two are
/// complements of each other.
pub proof fn lemma_select_complement(pattern: Seq<char>, ignore_case: bool, line: Seq<char>)
    ensures
        selected(pattern, ignore_case, line, false) == regex_accepts(pattern, ignore_case, line),
        selected(pattern, ignore_case, line, true) == !regex_accepts(pattern, ignore_case, line),
        selected(pattern, ignore_case, line, true) == !selected(
            pattern,
            ignore_case,
            line,
            false,
        ),
{
}

} // verus!
