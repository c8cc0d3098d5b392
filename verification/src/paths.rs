//! Filesystem paths, which the library carries as opaque values.

use std::path::PathBuf;
use vstd::prelude::*;

verus! {

/// `std::path::PathBuf`. The library looks into no path: it hands paths on,
/// and its contracts compare them for equality.
#[verifier::external_type_specification]
#[verifier::external_body]
pub struct ExPathBuf(PathBuf);

/// `PathBuf::clone` returns a path equal to the one it is given.
pub assume_specification[ <PathBuf as Clone>::clone ](path: &PathBuf) -> (copy: PathBuf)
    ensures
        copy == *path,
;

/// The path that `Path::join` makes of `base` and `segment`.
pub uninterp spec fn joined(base: PathBuf, segment: Seq<char>) -> PathBuf;

/// Calls `Path::join`, which returns a new path: `base` with `segment`
/// adjoined. The contract only names that path.
#[verifier::external_body]
pub(crate) fn join(base: &PathBuf, segment: &str) -> (path: PathBuf)
    ensures
        path == joined(*base, segment@),
{
    base.join(segment)
}

} // verus!
