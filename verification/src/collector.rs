//! The path collector: from the arguments of an invocation and the working
//! directory to the ordered list of media paths.
//!
//! Arguments that name files are listed first, in the order given. The
//! directories among the arguments (or the working directory, when no
//! argument is given) are walked, and every entry the walk visits follows,
//! in the order of the walk. Entries that the walk fails on are left out.

use vstd::prelude::*;
use crate::pathname::{is_absolute, is_absolute_path, is_dir, join, joined_path};
use crate::walker::{walk, WalkSettings};

verus! {

/// An argument, resolved: its absolute path, and whether that path was a
/// directory when it was looked at.
#[derive(Clone, Debug, PartialEq, Eq)]
pub struct Target {
    pub path: String,
    pub is_dir: bool,
}

/// What is to be walked and what is listed as it stands.
#[derive(Clone, Debug, PartialEq, Eq)]
pub struct WalkPlan {
    /// The roots of the walk, in the order of the arguments.
    pub roots: Vec<String>,
    /// The paths listed without being walked, in the order of the arguments.
    pub files: Vec<String>,
}

/// The texts of a list of paths.
pub open spec fn texts(list: Seq<String>) -> Seq<Seq<char>> {
    list.map_values(|path: String| path@)
}

/// The path an argument stands for: itself when it is absolute, else the
/// working directory with the argument joined onto it.
pub open spec fn resolved(cwd: Seq<char>, arg: Seq<char>) -> Seq<char> {
    if is_absolute_path(arg) {
        arg
    } else {
        joined_path(cwd, arg)
    }
}

/// `targets` are the arguments `args`, each resolved against `cwd`.
pub open spec fn targets_of(cwd: Seq<char>, args: Seq<String>, targets: Seq<Target>) -> bool {
    &&& targets.len() == args.len()
    &&& forall|i: int|
        0 <= i < args.len() ==> (#[trigger] targets[i]).path@ == resolved(cwd, args[i]@)
}

/// The paths of those targets that are directories (`dirs`) or are not
/// (`!dirs`), in the order of the targets.
pub open spec fn chosen(targets: Seq<Target>, dirs: bool) -> Seq<Seq<char>>
    decreases targets.len(),
{
    if targets.len() == 0 {
        Seq::empty()
    } else if targets.last().is_dir == dirs {
        chosen(targets.drop_last(), dirs).push(targets.last().path@)
    } else {
        chosen(targets.drop_last(), dirs)
    }
}

/// The roots of the walk: the working directory when there is no argument,
/// else the arguments that are directories.
pub open spec fn planned_roots(cwd: Seq<char>, targets: Seq<Target>) -> Seq<Seq<char>> {
    if targets.len() == 0 {
        seq![cwd]
    } else {
        chosen(targets, true)
    }
}

/// The paths listed without being walked: the arguments that are not
/// directories.
pub open spec fn planned_files(targets: Seq<Target>) -> Seq<Seq<char>> {
    chosen(targets, false)
}

/// The paths of the entries that a walk visited, in the order of the walk;
/// the entries it failed on are left out.
pub open spec fn visited(outcomes: Seq<Option<String>>) -> Seq<Seq<char>>
    decreases outcomes.len(),
{
    if outcomes.len() == 0 {
        Seq::empty()
    } else {
        match outcomes.last() {
            Some(path) => visited(outcomes.drop_last()).push(path@),
            None => visited(outcomes.drop_last()),
        }
    }
}

/// The media list: the listed files, then what the walk visited.
pub open spec fn media_list(files: Seq<Seq<char>>, outcomes: Seq<Option<String>>) -> Seq<Seq<char>> {
    files + visited(outcomes)
}

/// `list` is a media list for the arguments `args` in the working directory
/// `cwd`: for some answers of the file system about which arguments are
/// directories, and some outcomes of the walk, it is the listed files
/// followed by the visited entries. Where nothing is to be walked, nothing
/// was visited.
pub open spec fn collected(cwd: Seq<char>, args: Seq<String>, list: Seq<Seq<char>>) -> bool {
    exists|targets: Seq<Target>, outcomes: Seq<Option<String>>|
        {
            &&& targets_of(cwd, args, targets)
            &&& planned_roots(cwd, targets).len() == 0 ==> outcomes.len() == 0
            &&& list == #[trigger] media_list(planned_files(targets), outcomes)
        }
}

/// Resolves one argument against the working directory.
pub fn resolve(cwd: &str, arg: &str) -> (path: String)
    ensures
        path@ == resolved(cwd@, arg@),
{
    if is_absolute(arg) {
        arg.to_owned()
    } else {
        join(cwd, arg)
    }
}

/// Resolves every argument against the working directory and asks the file
/// system whether it is a directory. The paths are determined by the
/// arguments; the answers are not.
pub fn probe(cwd: &str, args: &Vec<String>) -> (targets: Vec<Target>)
    ensures
        targets_of(cwd@, args@, targets@),
{
    let mut targets: Vec<Target> = Vec::new();
    let mut i: usize = 0;
    while i < args.len()
        invariant
            i <= args.len(),
            targets@.len() == i,
            forall|k: int|
                0 <= k < i ==> (#[trigger] targets@[k]).path@ == resolved(cwd@, args@[k]@),
        decreases args.len() - i,
    {
        let path = resolve(cwd, args[i].as_str());
        let dir = is_dir(path.as_str());
        targets.push(Target { path, is_dir: dir });
        i += 1;
    }
    targets
}

/// Sorts the targets into the roots of the walk and the files listed as they
/// stand. With no target at all the working directory is the one root.
pub fn plan(cwd: &str, targets: &Vec<Target>) -> (plan: WalkPlan)
    ensures
        texts(plan.roots@) == planned_roots(cwd@, targets@),
        texts(plan.files@) == planned_files(targets@),
{
    let mut roots: Vec<String> = Vec::new();
    let mut files: Vec<String> = Vec::new();
    if targets.len() == 0 {
        roots.push(cwd.to_owned());
        assert(texts(roots@) =~= seq![cwd@]);
        assert(texts(files@) =~= Seq::<Seq<char>>::empty());
        return WalkPlan { roots, files };
    }
    let mut i: usize = 0;
    assert(targets@.take(0) =~= Seq::<Target>::empty());
    while i < targets.len()
        invariant
            i <= targets.len(),
            texts(roots@) == chosen(targets@.take(i as int), true),
            texts(files@) == chosen(targets@.take(i as int), false),
        decreases targets.len() - i,
    {
        proof {
            let longer = targets@.take(i + 1);
            assert(longer.drop_last() =~= targets@.take(i as int));
            assert(longer.last() == targets@[i as int]);
        }
        let ghost before_roots = roots@;
        let ghost before_files = files@;
        if targets[i].is_dir {
            roots.push(targets[i].path.clone());
            assert(texts(roots@) =~= texts(before_roots).push(targets@[i as int].path@));
        } else {
            files.push(targets[i].path.clone());
            assert(texts(files@) =~= texts(before_files).push(targets@[i as int].path@));
        }
        i += 1;
    }
    assert(targets@.take(i as int) =~= targets@);
    WalkPlan { roots, files }
}

/// Puts the media list together: the listed files, then the path of every
/// entry that the walk visited, in the order of the walk.
pub fn assemble(files: Vec<String>, outcomes: &Vec<Option<String>>) -> (list: Vec<String>)
    ensures
        texts(list@) == media_list(texts(files@), outcomes@),
{
    let ghost listed = texts(files@);
    let mut list = files;
    let mut i: usize = 0;
    assert(outcomes@.take(0) =~= Seq::<Option<String>>::empty());
    assert(listed + Seq::<Seq<char>>::empty() =~= listed);
    while i < outcomes.len()
        invariant
            i <= outcomes.len(),
            texts(list@) == listed + visited(outcomes@.take(i as int)),
        decreases outcomes.len() - i,
    {
        proof {
            let longer = outcomes@.take(i + 1);
            assert(longer.drop_last() =~= outcomes@.take(i as int));
            assert(longer.last() == outcomes@[i as int]);
        }
        let ghost before = list@;
        match &outcomes[i] {
            Some(path) => {
                list.push(path.clone());
                assert(texts(list@) =~= texts(before).push(path@));
                assert(texts(list@) =~= listed + visited(outcomes@.take(i + 1)));
            },
            None => {},
        }
        i += 1;
    }
    assert(outcomes@.take(i as int) =~= outcomes@);
    list
}

/// Collects the media list for the arguments `args` of an invocation made in
/// the working directory `cwd`, walking with the gallery's settings.
pub fn collect(cwd: &str, args: &Vec<String>) -> (list: Vec<String>)
    ensures
        collected(cwd@, args@, texts(list@)),
{
    let targets = probe(cwd, args);
    let WalkPlan { roots, files } = plan(cwd, &targets);
    let settings = WalkSettings::permissive();
    let outcomes = walk(&roots, &settings);
    let list = assemble(files, &outcomes);
    proof {
        assert(texts(roots@).len() == roots@.len());
        assert(texts(list@) == media_list(planned_files(targets@), outcomes@));
    }
    list
}

/// The listed files open the media list, in their order, and what the walk
/// visited follows them, in the order of the walk.
pub proof fn listed_files_come_first(files: Seq<Seq<char>>, outcomes: Seq<Option<String>>)
    ensures
        media_list(files, outcomes).len() == files.len() + visited(outcomes).len(),
        media_list(files, outcomes).take(files.len() as int) == files,
        media_list(files, outcomes).skip(files.len() as int) == visited(outcomes),
{
    let list = media_list(files, outcomes);
    assert(list.take(files.len() as int) =~= files);
    assert(list.skip(files.len() as int) =~= visited(outcomes));
}

/// What a walk visited is what its first part visited followed by what the
/// rest visited: a failed entry neither stops the walk nor disturbs the order
/// of the entries around it.
pub proof fn visited_in_walk_order(first: Seq<Option<String>>, rest: Seq<Option<String>>)
    ensures
        visited(first + rest) == visited(first) + visited(rest),
    decreases rest.len(),
{
    if rest.len() == 0 {
        assert(first + rest =~= first);
        assert(visited(first) + visited(rest) =~= visited(first));
    } else {
        let all = first + rest;
        assert(all.drop_last() =~= first + rest.drop_last());
        assert(all.last() == rest.last());
        visited_in_walk_order(first, rest.drop_last());
        match rest.last() {
            Some(path) => {
                assert(visited(all) =~= visited(first) + visited(rest));
            },
            None => {},
        }
    }
}

/// A walk never lists more entries than it had outcomes, and it lists as
/// many exactly when none of them failed.
pub proof fn visited_drops_only_failures(outcomes: Seq<Option<String>>)
    ensures
        visited(outcomes).len() <= outcomes.len(),
        visited(outcomes).len() == outcomes.len() <==> forall|i: int|
            0 <= i < outcomes.len() ==> (#[trigger] outcomes[i]) is Some,
    decreases outcomes.len(),
{
    if outcomes.len() > 0 {
        let fewer = outcomes.drop_last();
        visited_drops_only_failures(fewer);
        if visited(outcomes).len() == outcomes.len() {
            assert forall|i: int| 0 <= i < outcomes.len() implies (#[trigger] outcomes[i]) is Some by {
                if i < fewer.len() {
                    assert(fewer[i] is Some);
                }
            }
        } else if outcomes.last() is Some {
            let i = choose|i: int| 0 <= i < fewer.len() && !((#[trigger] fewer[i]) is Some);
            assert(!(outcomes[i] is Some));
        }
    }
}

/// Every target is planned once: as a root of the walk or as a listed file.
pub proof fn plan_sorts_every_target(targets: Seq<Target>)
    ensures
        chosen(targets, true).len() + chosen(targets, false).len() == targets.len(),
    decreases targets.len(),
{
    if targets.len() > 0 {
        plan_sorts_every_target(targets.drop_last());
    }
}

} // verus!
