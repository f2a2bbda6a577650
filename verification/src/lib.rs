//! grepnir: a verified line-oriented text-search engine.
//!
//! The library compiles newline-separated patterns into a single alternation
//! matcher, decides per line whether it is selected (honoring case folding and
//! inversion), formats selected lines with an optional source label and
//! highlighted match spans, and fixes the traversal policy for directories,
//! files and standard input. Reading files and terminals is left to the
//! program around the library; everything that decides or computes lives here.

pub mod driver;
pub mod filter;
pub mod format;
pub mod pattern;
pub mod resolve;

use vstd::prelude::*;

verus! {

} // verus!
