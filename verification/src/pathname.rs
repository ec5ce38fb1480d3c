//! Path texts, and what the standard library's `std::path` says of them.
//!
//! The gallery holds paths as text. The three questions the collector asks of
//! a path are answered by `std::path::Path`; nothing here is proved, each
//! item states what is taken on trust.

use std::path::Path;
use vstd::prelude::*;

verus! {

/// Whether `std::path::Path::is_absolute` calls the path with this text
/// absolute. The answer depends on the text alone, by the rules of the
/// platform the crate is built for; nothing more is claimed of it.
pub uninterp spec fn is_absolute_path(path: Seq<char>) -> bool;

/// The text of the path that `std::path::Path::join` makes of `base` and
/// `path`. The result depends on the two texts alone, by the rules of the
/// platform the crate is built for; nothing more is claimed of it.
pub uninterp spec fn joined_path(base: Seq<char>, path: Seq<char>) -> Seq<char>;

/// Calls `std::path::Path::is_absolute`. Trusted: the answer is the one that
/// [`is_absolute_path`] names for this text.
#[verifier::external_body]
pub(crate) fn is_absolute(path: &str) -> (absolute: bool)
    ensures
        absolute == is_absolute_path(path@),
{
    Path::new(path).is_absolute()
}

/// Calls `std::path::Path::join`. Trusted: the text of the joined path is the
/// one that [`joined_path`] names for these two texts. Both texts are valid
/// UTF-8 and so is their join, which makes the conversion back to text exact.
#[verifier::external_body]
pub(crate) fn join(base: &str, path: &str) -> (joined: String)
    ensures
        joined@ == joined_path(base@, path@),
{
    Path::new(base).join(path).to_string_lossy().into_owned()
}

/// Calls `std::path::Path::is_dir`, which asks the file system. Nothing is
/// claimed of the answer: it may differ from one call to the next.
#[verifier::external_body]
pub(crate) fn is_dir(path: &str) -> (dir: bool)
{
    Path::new(path).is_dir()
}

} // verus!
