//! Traversal policy: what to do with each directory entry, and the
//! binary-content sniff that excludes files from text search.

use vstd::prelude::*;
use vstd::string::StrSliceExecFns;
use vstd::string::StringExecFns;

verus! {

/// How many leading bytes the binary sniff inspects.
pub const SNIFF_LEN: usize = 1024;

/// What the engine does with one directory entry met during traversal.
#[derive(Clone, Copy, PartialEq, Eq, Structural, Debug)]
pub enum EntryDecision {
    /// A directory met without recursion: report "Is a directory" once and
    /// skip the whole subtree.
    DirDiagnostic,
    /// A regular file: open it and search its lines.
    Open,
    /// Anything else (a directory being descended into, a special file):
    /// yield no source of its own.
    Skip,
}

/// The traversal policy as a function of what the entry is.
pub open spec fn entry_policy(is_dir: bool, is_file: bool, recursive: bool) -> EntryDecision {
    if is_dir && !recursive {
        EntryDecision::DirDiagnostic
    } else if is_file {
        EntryDecision::Open
    } else {
        EntryDecision::Skip
    }
}

/// Decide what to do with one traversal entry: a directory met without
/// recursion is reported and skipped, a regular file is opened, and every
/// other entry yields nothing.
pub fn entry_decision(is_dir: bool, is_file: bool, recursive: bool) -> (d: EntryDecision)
    ensures
        d == entry_policy(is_dir, is_file, recursive),
{
    if is_dir && !recursive {
        EntryDecision::DirDiagnostic
    } else if is_file {
        EntryDecision::Open
    } else {
        EntryDecision::Skip
    }
}

/// The window the binary sniff looks at: the first `SNIFF_LEN` bytes, or the
/// whole content when it is shorter.
pub open spec fn sniff_window(data: Seq<u8>) -> Seq<u8> {
    if data.len() <= SNIFF_LEN {
        data
    } else {
        data.take(SNIFF_LEN as int)
    }
}

/// Whether the sniff window holds a zero byte, the heuristic mark of binary
/// content.
pub open spec fn window_has_zero(data: Seq<u8>) -> bool {
    exists|i: int| 0 <= i < sniff_window(data).len() && sniff_window(data)[i] == 0u8
}

/// Best-effort binary sniff: a file whose first `SNIFF_LEN` bytes hold a zero
/// byte is treated as binary and silently excluded from the search.
pub fn looks_binary(data: &[u8]) -> (r: bool)
    ensures
        r == window_has_zero(data@),
{
    let n = data.len();
    let mut i: usize = 0;
    while i < n && i < SNIFF_LEN
        invariant
            0 <= i <= n,
            n == data@.len(),
            i <= SNIFF_LEN,
            forall|j: int| 0 <= j < i ==> data@[j] != 0u8,
        decreases n - i,
    {
        if data[i] == 0u8 {
            assert(sniff_window(data@)[i as int] == 0u8);
            return true;
        }
        i += 1;
    }
    assert(!window_has_zero(data@)) by {
        assert(forall|j: int| 0 <= j < sniff_window(data@).len() ==> sniff_window(
            data@,
        )[j] != 0u8);
    }
    false
}

/// Whether this configured path denotes standard input.
pub fn is_stdin_path(path: &str) -> (r: bool)
    ensures
        r == (path@ == "-"@),
{
    proof {
        reveal_strlit("-");
    }
    if path.unicode_len() == 1 {
        let c = path.get_char(0);
        if c == '-' {
            proof {
                assert(path@ =~= "-"@);
            }
            true
        } else {
            false
        }
    } else {
        false
    }
}

/// The label a standard-input source carries: none when it is the only
/// configured path, its placeholder name when it stands among several.
pub fn stdin_label(path_count: usize) -> (r: Option<String>)
    ensures
        path_count <= 1 ==> r is None,
        path_count > 1 ==> (r matches Some(l) && l@ == "-"@),
{
    if path_count > 1 {
        Some(String::from_str("-"))
    } else {
        None
    }
}

/// The diagnostic owed when a directory is met without recursion.
pub fn dir_diagnostic(path: &str) -> (r: String)
    ensures
        r@ == "grepnir: "@ + path@ + ": Is a directory"@,
{
    let mut s = String::from_str("grepnir: ");
    s.append(path);
    s.append(": Is a directory");
    s
}

/// The diagnostic owed when a candidate file cannot be opened; the caller
/// supplies the operating system's description of the failure.
pub fn open_diagnostic(path: &str, error: &str) -> (r: String)
    ensures
        r@ == "grepnir: "@ + path@ + ": "@ + error@,
{
    let mut s = String::from_str("grepnir: ");
    s.append(path);
    s.append(": ");
    s.append(error);
    s
}

/// The diagnostic owed when a directory entry cannot be read during
/// traversal.
pub fn walk_diagnostic(error: &str) -> (r: String)
    ensures
        r@ == "grepnir: "@ + error@,
{
    let mut s = String::from_str("grepnir: ");
    s.append(error);
    s
}

} // verus!
