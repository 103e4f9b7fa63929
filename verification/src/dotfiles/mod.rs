//! Working with a dotfiles repository.
use vstd::prelude::*;
use vstd::string::StringExecFns;

pub mod git;

verus! {

/// Starts the synchronization of the dotfiles at `dest` with the repository at
/// `src`.
///
/// With `force`, a destination that exists is overwritten: the repository is
/// cloned into `staging` first, and put in the place of `dest` once the clone
/// has succeeded. The staging directory is a place of its own: it is not the
/// destination.
pub fn clone(src: &str, dest: &str, force: bool, staging: &str) -> (sync: git::Sync)
    requires
        staging@ != dest@,
    ensures
        sync@ == git::begun(
            src@,
            dest@,
            force,
            git::ReplacementView::Staged { staging: staging@ },
        ),
        sync@.wf(),
{
    git::clone(src, dest, force, git::Replacement::Staged { staging: String::from_str(staging) })
}

} // verus!
