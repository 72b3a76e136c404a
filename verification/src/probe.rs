//! Where the metadata probe is looked for.

use crate::paths::{join, joined, parent, parent_of};
use vstd::prelude::*;

verus! {

/// The directory that holds a program, as far as its path tells; the current
/// directory where the path names none.
pub open spec fn program_dir(program: Seq<char>) -> Seq<char> {
    match parent_of(program) {
        Some(dir) => dir,
        None => "."@,
    }
}

/// The probe stands beside the program, under the name `fast_meta.exe`.
pub open spec fn probe_beside(program: Seq<char>) -> Seq<char> {
    joined(program_dir(program), "fast_meta.exe"@)
}

/// The path at which the probe is expected, given the path of the running
/// program. An empty path stands for a program whose own path is not known.
pub fn probe_location(program: &str) -> (probe: String)
    ensures
        probe@ == probe_beside(program@),
{
    match parent(program) {
        Some(dir) => join(dir.as_str(), "fast_meta.exe"),
        None => join(".", "fast_meta.exe"),
    }
}

} // verus!
