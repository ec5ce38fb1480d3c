//! The directory walk, done by the `ignore` crate.

use ignore::WalkBuilder;
use vstd::prelude::*;

verus! {

/// How deep the gallery's walk goes below each root; the root itself is at
/// depth zero.
pub const MAX_DEPTH: usize = 3;

/// The options of a walk, each named after the `ignore::WalkBuilder` method
/// that takes it.
#[derive(Clone, Copy, Debug, PartialEq, Eq, Structural)]
pub struct WalkSettings {
    /// The deepest level visited below a root; `None` sets no limit.
    pub max_depth: Option<usize>,
    /// Skip hidden entries.
    pub hidden: bool,
    /// Read ignore files from the parent directories of a root.
    pub parents: bool,
    /// Honour `.ignore` files.
    pub ignore: bool,
    /// Honour `.gitignore` files.
    pub git_ignore: bool,
    /// Honour the user's global gitignore file.
    pub git_global: bool,
    /// Honour `.git/info/exclude` files.
    pub git_exclude: bool,
}

impl WalkSettings {
    /// The gallery's walk: three levels deep, hidden entries included, no
    /// ignore file of any kind honoured.
    pub fn permissive() -> (settings: WalkSettings)
        ensures
            settings == (WalkSettings {
                max_depth: Some(MAX_DEPTH),
                hidden: false,
                parents: false,
                ignore: false,
                git_ignore: false,
                git_global: false,
                git_exclude: false,
            }),
    {
        WalkSettings {
            max_depth: Some(MAX_DEPTH),
            hidden: false,
            parents: false,
            ignore: false,
            git_ignore: false,
            git_global: false,
            git_exclude: false,
        }
    }
}

/// Walks `roots` with `ignore::WalkBuilder`: `from_iter` takes the roots,
/// the setter of each option takes the field of that name, and `build` gives
/// the iterator, which is run to its end. Each item it yields becomes one
/// outcome, in the order of the walk: the entry's path as text (a path that
/// is not valid UTF-8 is converted lossily), or `None` for an entry that the
/// walk reports as an error.
///
/// Trusted: a walk without roots yields nothing. What a walk with roots
/// yields depends on the file system, and nothing is claimed of it.
#[verifier::external_body]
pub(crate) fn walk(roots: &Vec<String>, settings: &WalkSettings) -> (outcomes: Vec<Option<String>>)
    ensures
        roots@.len() == 0 ==> outcomes@.len() == 0,
{
    let mut builder = WalkBuilder::from_iter(roots);
    builder
        .max_depth(settings.max_depth)
        .hidden(settings.hidden)
        .parents(settings.parents)
        .ignore(settings.ignore)
        .git_ignore(settings.git_ignore)
        .git_global(settings.git_global)
        .git_exclude(settings.git_exclude);
    builder
        .build()
        .map(|item| item.ok().map(|entry| entry.into_path().to_string_lossy().into_owned()))
        .collect()
}

} // verus!
