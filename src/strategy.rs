use vstd::prelude::*;

use git2::Oid;

use crate::args::Args;
use crate::kind::SearchKind;
use crate::policy::{DiffPolicy, StatusPolicy};
use crate::store::{
    commit_tree, delta_count, diff_index_to_workdir, diff_options, diff_tree_to_workdir,
    error_message, file_statuses, find_commit, head, is_unborn_branch, open_repository,
    repository_index, status_options, target, target_peel,
};

verus! {

/// A check that could not decide: the store reported a failure.
#[derive(Debug)]
pub struct CheckError {
    pub message: String,
}

/// The status bits of a file that is unchanged.
pub const STATUS_CURRENT: u32 = 0;

/// Whether some file's status is other than unchanged.
pub open spec fn shows_change(statuses: Seq<u32>) -> bool {
    exists|i: int| 0 <= i < statuses.len() && #[trigger] statuses[i] != STATUS_CURRENT
}

/// The commit a reference leads to: its peeled target where it has one,
/// else its direct target.
pub open spec fn target_of(peeled: Option<Oid>, direct: Option<Oid>) -> Option<Oid> {
    if peeled is Some {
        peeled
    } else {
        direct
    }
}

/// Whether a diff with `count` changed entries shows a modification.
pub fn has_deltas(count: usize) -> (r: bool)
    ensures
        r == (count > 0),
{
    count > 0
}

/// Whether a list of file status bits shows a modification.
pub fn any_changed(statuses: &Vec<u32>) -> (r: bool)
    ensures
        r == shows_change(statuses@),
{
    let mut i: usize = 0;
    while i < statuses.len()
        invariant
            i <= statuses@.len(),
            forall|j: int| 0 <= j < i ==> #[trigger] statuses@[j] == STATUS_CURRENT,
        decreases statuses@.len() - i,
    {
        if statuses[i] != STATUS_CURRENT {
            return true;
        }
        i = i + 1;
    }
    false
}

/// The commit that HEAD leads to, from its peeled and its direct target.
pub fn resolve_target(peeled: Option<Oid>, direct: Option<Oid>) -> (r: Option<Oid>)
    ensures
        r == target_of(peeled, direct),
{
    match peeled {
        Some(oid) => Some(oid),
        None => direct,
    }
}

/// The outcome of the tree strategy where HEAD could not be read: no
/// modification where the branch has no commit yet, else the failure.
pub fn unread_head(unborn: bool, message: String) -> (r: Result<bool, CheckError>)
    ensures
        unborn ==> r == Ok::<bool, CheckError>(false),
        !unborn ==> (r matches Err(e) && e.message@ == message@),
{
    if unborn {
        Ok(false)
    } else {
        Err(CheckError { message })
    }
}

fn failure(e: git2::Error) -> CheckError {
    CheckError { message: error_message(&e) }
}

/// Index strategy: whether the working directory differs from the index of the
/// repository whose metadata directory is `marker`.
pub fn mods_with_index(marker: &str) -> (r: Result<bool, CheckError>) {
    let repo = match open_repository(marker) {
        Ok(repo) => repo,
        Err(e) => return Err(failure(e)),
    };
    let index = match repository_index(&repo) {
        Ok(index) => index,
        Err(e) => return Err(failure(e)),
    };
    let mut opts = diff_options(&DiffPolicy::standard());
    let diff = match diff_index_to_workdir(&repo, &index, &mut opts) {
        Ok(diff) => diff,
        Err(e) => return Err(failure(e)),
    };
    Ok(has_deltas(delta_count(&diff)))
}

/// Status strategy: whether some tracked file of the repository whose metadata
/// directory is `marker` has a status other than unchanged.
pub fn mods_by_status(marker: &str) -> (r: Result<bool, CheckError>) {
    let repo = match open_repository(marker) {
        Ok(repo) => repo,
        Err(e) => return Err(failure(e)),
    };
    let mut opts = status_options(&StatusPolicy::standard());
    let statuses = match file_statuses(&repo, &mut opts) {
        Ok(statuses) => statuses,
        Err(e) => return Err(failure(e)),
    };
    Ok(any_changed(&statuses))
}

/// Tree strategy: whether the working directory differs from the tree of the
/// commit checked out in the repository whose metadata directory is `marker`.
/// A repository with no commit yet has no modification.
pub fn mods(marker: &str) -> (r: Result<bool, CheckError>) {
    let repo = match open_repository(marker) {
        Ok(repo) => repo,
        Err(e) => return Err(failure(e)),
    };
    let reference = match head(&repo) {
        Ok(reference) => reference,
        Err(e) => {
            let unborn = is_unborn_branch(&e);
            return unread_head(unborn, error_message(&e));
        },
    };
    match resolve_target(target_peel(&reference), target(&reference)) {
        Some(oid) => {
            let commit = match find_commit(&repo, oid) {
                Ok(commit) => commit,
                Err(e) => return Err(failure(e)),
            };
            let tree = match commit_tree(&commit) {
                Ok(tree) => tree,
                Err(e) => return Err(failure(e)),
            };
            let mut opts = diff_options(&DiffPolicy::standard());
            let diff = match diff_tree_to_workdir(&repo, &tree, &mut opts) {
                Ok(diff) => diff,
                Err(e) => return Err(failure(e)),
            };
            Ok(has_deltas(delta_count(&diff)))
        },
        None => Ok(false),
    }
}

/// Runs the strategy that `args` selects on the repository whose metadata
/// directory is `marker`.
pub fn has_modifications(args: &Args, marker: &str) -> (r: Result<bool, CheckError>) {
    match args.search_kind {
        SearchKind::Index => mods_with_index(marker),
        SearchKind::Status => mods_by_status(marker),
        SearchKind::Tree => mods(marker),
    }
}

} // verus!
