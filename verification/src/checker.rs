//! Pre-placement checks on one source path: whether it is ignored outright
//! and whether a placed marker says it was handled before. The filesystem
//! probes are the caller's; their outcomes are handed in as plain flags.
use vstd::prelude::*;

use crate::text::{is_suffix, lower_of, lowercase, str_ends_with};

verus! {

/// The suffix of the marker file a placement leaves behind.
pub open spec fn placed_marker() -> Seq<char> {
    ".mmfplace"@
}

/// One path under check: whether it names a regular file, and whether its
/// placed marker exists.
#[derive(Debug, Clone)]
pub struct Checker {
    pub path_str: String,
    pub is_file: bool,
    pub placed_exists: bool,
}

impl Checker {
    pub fn new(path: &str, is_file: bool, placed_exists: bool) -> (r: Checker)
        ensures
            r.path_str@ == path@,
            r.is_file == is_file,
            r.placed_exists == placed_exists,
    {
        Checker { path_str: path.to_owned(), is_file, placed_exists }
    }

    /// Ignored: not a regular file, or itself a placed marker.
    pub open spec fn spec_is_ignore(self) -> bool {
        !self.is_file || is_suffix(lower_of(self.path_str@), placed_marker())
    }

    pub fn is_ignore(&self) -> (r: bool)
        ensures
            r == self.spec_is_ignore(),
    {
        if !self.is_file {
            return true;
        }
        let lowered = lowercase(self.path_str.as_str());
        str_ends_with(lowered.as_str(), ".mmfplace")
    }

    /// Handled before: the placed marker beside the file exists.
    pub fn is_placed(&self) -> (r: bool)
        ensures
            r == self.placed_exists,
    {
        self.placed_exists
    }

    /// Skipped during a run: ignored, or already placed.
    pub open spec fn spec_is_skip(self) -> bool {
        self.spec_is_ignore() || self.placed_exists
    }

    pub fn is_skip(&self) -> (r: bool)
        ensures
            r == self.spec_is_skip(),
    {
        if self.is_ignore() {
            return true;
        }
        self.is_placed()
    }
}

} // verus!
