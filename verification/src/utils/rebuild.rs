//! What a list of changed files means for the build.

use vstd::prelude::*;
use crate::text::{contains, text_contains};

verus! {

/// The build manifest is among the changed files.
pub open spec fn manifest_changed(diff: Seq<char>) -> bool {
    contains(diff, "CMakeLists.txt"@)
}

/// Compiled sources are among the changed files: the build manifest, or
/// something under the source directory.
pub open spec fn compiled_files_changed(diff: Seq<char>) -> bool {
    manifest_changed(diff) || contains(diff, "src"@)
}

/// Whether the build manifest is among the changed files.
pub fn contains_manifest(diff_output: &str) -> (r: bool)
    ensures
        r == manifest_changed(diff_output@),
{
    text_contains(diff_output, "CMakeLists.txt")
}

/// Whether compiled sources are among the changed files.
pub fn contains_compiled_files(diff_output: &str) -> (r: bool)
    ensures
        r == compiled_files_changed(diff_output@),
{
    text_contains(diff_output, "CMakeLists.txt") || text_contains(diff_output, "src")
}

} // verus!
