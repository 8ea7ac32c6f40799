//! File system paths, which are opaque here: they are chosen between and carried
//! through.

use std::path::PathBuf;
use vstd::prelude::*;

verus! {

/// An owned path of std.
#[verifier::external_type_specification]
#[verifier::external_body]
pub struct ExPathBuf(PathBuf);

/// `Path::join` of std gives `joined` for a base and a relative path. Which
/// separator stands between the two is the platform's choice.
pub uninterp spec fn is_join(base: PathBuf, relative: Seq<char>, joined: PathBuf) -> bool;

/// `Path::join` of std: the base with the relative path adjoined.
#[verifier::external_body]
pub(crate) fn join(base: PathBuf, relative: &str) -> (r: PathBuf)
    ensures
        is_join(base, relative@, r),
{
    base.join(relative)
}

/// `Path::display` of std writes `text` for a path. What stands for parts that
/// are not Unicode is the platform's choice.
pub uninterp spec fn is_display(path: PathBuf, text: Seq<char>) -> bool;

/// `Path::display` of std: the path, for a reader.
#[verifier::external_body]
pub(crate) fn display(path: &PathBuf) -> (r: String)
    ensures
        is_display(*path, r@),
{
    path.display().to_string()
}

} // verus!
