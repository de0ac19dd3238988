//! What a generator that walks directories knows of each path it meets.

use vstd::prelude::*;

verus! {

/// `std::path::PathBuf`, carried through as it is: nothing is said of what
/// a path holds.
#[verifier::external_type_specification]
#[verifier::external_body]
pub struct ExPathBuf(std::path::PathBuf);

/// One path met on a walk: the path itself, its last component, the
/// extension of that component, the last component of its parent, and
/// whether it is a directory.
pub struct PathEntry {
    pub path: String,
    pub file_name: String,
    pub extension: Option<String>,
    pub parent_name: Option<String>,
    pub is_dir: bool,
}

} // verus!
