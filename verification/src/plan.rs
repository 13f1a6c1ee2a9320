//! Lifecycle plans and a small filesystem model. A plan is what one lifecycle
//! operation asks the world to do: remove directory trees, create directories,
//! then run external commands (short-circuiting on the first failure). The
//! model views a filesystem as the set of paths that exist, which is enough to
//! state what the directory actions of a plan leave behind.

use vstd::prelude::*;

use crate::runner::{CommandModel, CommandSpec};

verus! {

/// The actions of one lifecycle operation, in execution order: every tree in
/// `remove_dirs` is removed, every directory in `create_dirs` is created, then
/// the commands run one at a time until the first failure.
pub struct Plan {
    pub remove_dirs: Vec<String>,
    pub create_dirs: Vec<String>,
    pub commands: Vec<CommandSpec>,
}

/// The mathematical shape of a [`Plan`].
#[verifier::ext_equal]
pub ghost struct PlanModel {
    pub remove_dirs: Seq<Seq<char>>,
    pub create_dirs: Seq<Seq<char>>,
    pub commands: Seq<CommandModel>,
}

impl View for Plan {
    type V = PlanModel;

    open spec fn view(&self) -> PlanModel {
        PlanModel {
            remove_dirs: self.remove_dirs.deep_view(),
            create_dirs: self.create_dirs.deep_view(),
            commands: self.commands.deep_view(),
        }
    }
}

/// Whether path `q` lies in the tree rooted at `p`: it is `p` itself or a
/// descendant (an extension of `p` across a path separator).
pub open spec fn in_tree(q: Seq<char>, p: Seq<char>) -> bool {
    q == p || (p.is_prefix_of(q) && q.len() > p.len() && q[p.len() as int] == '/')
}

/// Recursive removal of the tree rooted at `p`: every path in it disappears.
pub open spec fn remove_tree(fs: Set<Seq<char>>, p: Seq<char>) -> Set<Seq<char>> {
    Set::new(|q: Seq<char>| fs.contains(q) && !in_tree(q, p))
}

/// Creation of the single directory `p`.
pub open spec fn create_dir(fs: Set<Seq<char>>, p: Seq<char>) -> Set<Seq<char>> {
    fs.insert(p)
}

pub open spec fn apply_removes(fs: Set<Seq<char>>, ps: Seq<Seq<char>>) -> Set<Seq<char>>
    decreases ps.len(),
{
    if ps.len() == 0 {
        fs
    } else {
        apply_removes(remove_tree(fs, ps[0]), ps.drop_first())
    }
}

pub open spec fn apply_creates(fs: Set<Seq<char>>, ps: Seq<Seq<char>>) -> Set<Seq<char>>
    decreases ps.len(),
{
    if ps.len() == 0 {
        fs
    } else {
        apply_creates(create_dir(fs, ps[0]), ps.drop_first())
    }
}

/// The filesystem after the directory actions of a plan: removals first, then
/// creations. Commands act on the world through their own programs and are not
/// part of the directory model.
pub open spec fn apply_plan(fs: Set<Seq<char>>, plan: PlanModel) -> Set<Seq<char>> {
    apply_creates(apply_removes(fs, plan.remove_dirs), plan.create_dirs)
}

/// The directory `p` exists and has no descendants.
pub open spec fn dir_is_empty(fs: Set<Seq<char>>, p: Seq<char>) -> bool {
    fs.contains(p) && (forall|q: Seq<char>| fs.contains(q) && in_tree(q, p) ==> q == p)
}

} // verus!
