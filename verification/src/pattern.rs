//! Pattern compilation and matching.
//!
//! A pattern text holds one or more alternatives separated by newline
//! characters. Compilation replaces each newline with the regex alternation
//! bar and builds one matcher from the joined text, so a line matches when
//! any alternative matches any of its substrings. The matcher itself comes
//! from the regex crate; what it returns is named by uninterpreted spec
//! functions, and everything around the three calls into the crate is
//! verified against those names.

use vstd::prelude::*;
use vstd::string::StringSliceAdditionalSpecFns;
use vstd::string::StrSliceExecFns;
use vstd::string::StringExecFns;

verus! {

/// Whether building a matcher from this pattern text with this case flag
/// succeeds. Names the outcome of `regex::RegexBuilder::build`, which depends
/// on its inputs alone.
pub uninterp spec fn regex_ok(pattern: Seq<char>, ignore_case: bool) -> bool;

/// Whether the matcher built from this pattern text and case flag matches
/// anywhere in the line. Names the result of `regex::Regex::is_match`, which
/// depends on these three values alone.
pub uninterp spec fn regex_accepts(pattern: Seq<char>, ignore_case: bool, line: Seq<char>) -> bool;

/// The match spans, as half-open byte-offset ranges into the UTF-8 encoding
/// of the line, that the matcher built from this pattern text and case flag
/// finds in the line. Names the result of `regex::Regex::find_iter`, which
/// depends on these three values alone.
pub uninterp spec fn regex_found(pattern: Seq<char>, ignore_case: bool, line: Seq<char>) -> Seq<
    (usize, usize),
>;

/// Well-formed match spans over a line of `n` bytes: each span is a half-open
/// range within the line, and successive spans come in ascending order
/// without overlap.
pub open spec fn spans_wf(spans: Seq<(usize, usize)>, n: int) -> bool {
    &&& forall|i: int|
        0 <= i < spans.len() ==> (#[trigger] spans[i]).0 <= spans[i].1 <= n
    &&& forall|i: int|
        0 < i < spans.len() ==> spans[i - 1].1 <= (#[trigger] spans[i]).0
}

#[verifier::external_type_specification]
#[verifier::external_body]
pub struct ExRegex(regex::Regex);

/// The pattern text after joining: every newline separator replaced by the
/// regex alternation bar.
pub open spec fn alternation_of(s: Seq<char>) -> Seq<char> {
    Seq::new(s.len(), |i: int| if s[i] == '\n' { '|' } else { s[i] })
}

/// The error of a pattern text that does not compile. Detected once, before
/// any input is read; it aborts the run.
#[derive(Clone, Copy, PartialEq, Eq, Structural, Debug)]
pub struct PatternError;

impl PatternError {
    /// A printable description of the error.
    pub fn message(&self) -> (r: String)
        ensures
            r@ == "invalid pattern"@,
    {
        String::from_str("invalid pattern")
    }
}

/// A matcher compiled once from a joined pattern text and a case flag, shared
/// read-only for the whole run. The regex field is always the one built from
/// the other two fields: the fields are private and `compile` below is the
/// only constructor, which is what the contracts of the trusted calls in this
/// module lean on.
pub struct CompiledPattern {
    re: regex::Regex,
    text: String,
    fold_case: bool,
}

impl CompiledPattern {
    /// The joined pattern text this matcher was built from.
    pub closed spec fn pattern(&self) -> Seq<char> {
        self.text@
    }

    /// Whether this matcher folds case.
    pub closed spec fn folds_case(&self) -> bool {
        self.fold_case
    }

    /// What this matcher says of a line.
    pub open spec fn accepts(&self, line: Seq<char>) -> bool {
        regex_accepts(self.pattern(), self.folds_case(), line)
    }

    /// The spans this matcher finds in a line.
    pub open spec fn found(&self, line: Seq<char>) -> Seq<(usize, usize)> {
        regex_found(self.pattern(), self.folds_case(), line)
    }

    /// True exactly when any alternative of the pattern matches any substring
    /// of the line.
    pub fn is_match(&self, line: &str) -> (r: bool)
        ensures
            r == self.accepts(line@),
    {
        regex_is_match(self, line)
    }

    /// All match spans in the line, as byte-offset ranges, ascending and
    /// non-overlapping; empty exactly when the line does not match.
    pub fn find_spans(&self, line: &str) -> (r: Vec<(usize, usize)>)
        ensures
            r@ == self.found(line@),
            spans_wf(r@, line.spec_bytes().len() as int),
            r@.len() > 0 <==> self.accepts(line@),
    {
        regex_find_spans(self, line)
    }
}

/// Relies on `regex::RegexBuilder` (regex 1.13): `new(pattern)` followed by
/// `case_insensitive(fold)` and `build()` returns a compiled matcher or an
/// error, and which of the two depends only on the pattern text and the flag.
#[verifier::external_body]
fn build_regex(pattern: &str, fold: bool) -> (r: Option<regex::Regex>)
    ensures
        r is Some <==> regex_ok(pattern@, fold),
{
    regex::RegexBuilder::new(pattern).case_insensitive(fold).build().ok()
}

/// Relies on `regex::Regex::is_match` (regex 1.13): "true if and only if
/// there is a match for the regex anywhere in the haystack given". The
/// matcher inside a `CompiledPattern` is the one built from its own text and
/// flag, so the answer is a function of those and the line.
#[verifier::external_body]
fn regex_is_match(p: &CompiledPattern, line: &str) -> (r: bool)
    ensures
        r == regex_accepts(p.pattern(), p.folds_case(), line@),
{
    p.re.is_match(line)
}

/// Relies on `regex::Regex::find_iter` and `Match::start`/`Match::end`
/// (regex 1.13): the iterator "yields successive non-overlapping matches",
/// each match a half-open byte-offset range with `start <= end` inside the
/// haystack, and a match exists exactly when `is_match` says so. The matcher
/// inside a `CompiledPattern` is the one built from its own text and flag.
#[verifier::external_body]
fn regex_find_spans(p: &CompiledPattern, line: &str) -> (r: Vec<(usize, usize)>)
    ensures
        r@ == regex_found(p.pattern(), p.folds_case(), line@),
        spans_wf(r@, line.spec_bytes().len() as int),
        r@.len() > 0 <==> regex_accepts(p.pattern(), p.folds_case(), line@),
{
    p.re.find_iter(line).map(|m| (m.start(), m.end())).collect()
}

/// Replace every newline in the pattern text with the alternation bar, so
/// that the newline-separated alternatives become one regex alternation.
fn join_alternation(s: &str) -> (r: String)
    ensures
        r@ == alternation_of(s@),
{
    let n = s.unicode_len();
    let mut out = String::new();
    let mut start: usize = 0;
    let mut i: usize = 0;
    while i < n
        invariant
            0 <= start <= i <= n,
            n == s@.len(),
            out@ == alternation_of(s@.take(start as int)),
            forall|j: int| start <= j < i ==> s@[j] != '\n',
        decreases n - i,
    {
        if s.get_char(i) == '\n' {
            out.append(s.substring_char(start, i));
            out.append("|");
            proof {
                reveal_strlit("|");
                assert(out@ =~= alternation_of(s@.take(i + 1)));
            }
            start = i + 1;
        }
        i += 1;
    }
    out.append(s.substring_char(start, n));
    proof {
        assert(out@ =~= alternation_of(s@));
    }
    out
}

/// Compile a pattern text: split it on newlines into alternatives, join them
/// as one alternation, and build a matcher that folds case exactly when
/// `ignore_case` is set. Succeeds exactly when the joined text is a valid
/// pattern; a failure is a configuration error owed before any input is read.
pub fn compile(pattern_text: &str, ignore_case: bool) -> (r: Result<CompiledPattern, PatternError>)
    ensures
        r is Ok <==> regex_ok(alternation_of(pattern_text@), ignore_case),
        r is Ok ==> r->Ok_0.pattern() == alternation_of(pattern_text@),
        r is Ok ==> r->Ok_0.folds_case() == ignore_case,
{
    let joined = join_alternation(pattern_text);
    match build_regex(joined.as_str(), ignore_case) {
        Some(re) => Ok(CompiledPattern { re, text: joined, fold_case: ignore_case }),
        None => Err(PatternError),
    }
}

} // verus!
