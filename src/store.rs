//! The version-control store as the strategies see it: git2's types, and one
//! trusted wrapper for each git2 function that the strategies call. What the
//! store reports depends on what is on disk, so the wrappers promise nothing
//! of the values they return.
use vstd::prelude::*;

use git2::{Commit, Diff, DiffOptions, Index, Oid, Reference, Repository, StatusOptions, Tree};

use crate::policy::{DiffPolicy, StatusPolicy};

verus! {

// git2's types, opaque to the proofs: values of them are only carried from
// one wrapper to the next.
#[verifier::external_type_specification]
#[verifier::external_body]
pub struct ExRepository(Repository);

#[verifier::external_type_specification]
#[verifier::external_body]
pub struct ExError(git2::Error);

#[verifier::external_type_specification]
#[verifier::external_body]
pub struct ExIndex(Index);

#[verifier::external_type_specification]
#[verifier::external_body]
pub struct ExDiff<'repo>(Diff<'repo>);

#[verifier::external_type_specification]
#[verifier::external_body]
pub struct ExDiffOptions(DiffOptions);

#[verifier::external_type_specification]
#[verifier::external_body]
pub struct ExStatusOptions(StatusOptions);

#[verifier::external_type_specification]
#[verifier::external_body]
pub struct ExReference<'repo>(Reference<'repo>);

#[verifier::external_type_specification]
#[verifier::external_body]
pub struct ExOid(Oid);

#[verifier::external_type_specification]
#[verifier::external_body]
pub struct ExCommit<'repo>(Commit<'repo>);

#[verifier::external_type_specification]
#[verifier::external_body]
pub struct ExTree<'repo>(Tree<'repo>);

/// Relies on git2::Repository::open: opens the repository at `path`, or
/// reports why it cannot.
#[verifier::external_body]
pub(crate) fn open_repository(path: &str) -> Result<Repository, git2::Error> {
    Repository::open(path)
}

/// Relies on git2::Repository::index: the repository's index.
#[verifier::external_body]
pub(crate) fn repository_index(repo: &Repository) -> Result<Index, git2::Error> {
    repo.index()
}

/// Relies on git2::DiffOptions's setters: options that carry `policy`'s three
/// settings, git2's defaults for the rest.
#[verifier::external_body]
pub(crate) fn diff_options(policy: &DiffPolicy) -> DiffOptions {
    let mut opts = DiffOptions::new();
    opts.ignore_submodules(policy.ignore_submodules)
        .include_ignored(policy.include_ignored)
        .include_typechange(policy.include_typechange);
    opts
}

/// Relies on git2::Repository::diff_index_to_workdir: the differences between
/// `index` and the working directory.
#[verifier::external_body]
pub(crate) fn diff_index_to_workdir<'repo>(
    repo: &'repo Repository,
    index: &Index,
    opts: &mut DiffOptions,
) -> Result<Diff<'repo>, git2::Error> {
    repo.diff_index_to_workdir(Some(index), Some(opts))
}

/// Relies on git2::Repository::diff_tree_to_workdir: the differences between
/// `tree` and the working directory, the index left aside.
#[verifier::external_body]
pub(crate) fn diff_tree_to_workdir<'repo>(
    repo: &'repo Repository,
    tree: &Tree<'repo>,
    opts: &mut DiffOptions,
) -> Result<Diff<'repo>, git2::Error> {
    repo.diff_tree_to_workdir(Some(tree), Some(opts))
}

/// Relies on git2::Diff::deltas: the number of changed entries in `diff`.
#[verifier::external_body]
pub(crate) fn delta_count(diff: &Diff) -> usize {
    diff.deltas().len()
}

/// Relies on git2::StatusOptions's setters: options that carry `policy`'s
/// three settings, git2's defaults for the rest.
#[verifier::external_body]
pub(crate) fn status_options(policy: &StatusPolicy) -> StatusOptions {
    let mut opts = StatusOptions::new();
    opts.include_ignored(policy.include_ignored)
        .include_unreadable(policy.include_unreadable)
        .include_untracked(policy.include_untracked);
    opts
}

/// Relies on git2::Repository::statuses: the status flags of each file that
/// the options admit, as git2::Status bits.
#[verifier::external_body]
pub(crate) fn file_statuses(repo: &Repository, opts: &mut StatusOptions) -> Result<
    Vec<u32>,
    git2::Error,
> {
    let statuses = repo.statuses(Some(opts))?;
    Ok(statuses.iter().map(|entry| entry.status().bits()).collect())
}

/// Relies on git2::Repository::head: the reference that HEAD resolves to.
#[verifier::external_body]
pub(crate) fn head(repo: &Repository) -> Result<Reference<'_>, git2::Error> {
    repo.head()
}

/// Relies on git2::Reference::target_peel: the object that an annotated tag
/// points to, where `r` names one.
#[verifier::external_body]
pub(crate) fn target_peel(r: &Reference) -> Option<Oid> {
    r.target_peel()
}

/// Relies on git2::Reference::target: the object that a direct reference
/// points to.
#[verifier::external_body]
pub(crate) fn target(r: &Reference) -> Option<Oid> {
    r.target()
}

/// Relies on git2::Repository::find_commit: the commit named `oid`.
#[verifier::external_body]
pub(crate) fn find_commit(repo: &Repository, oid: Oid) -> Result<Commit<'_>, git2::Error> {
    repo.find_commit(oid)
}

/// Relies on git2::Commit::tree: the tree that `commit` records.
#[verifier::external_body]
pub(crate) fn commit_tree<'repo>(commit: &Commit<'repo>) -> Result<Tree<'repo>, git2::Error> {
    commit.tree()
}

/// Relies on git2::Error::code: whether `e` reports a branch that has no
/// commit yet.
#[verifier::external_body]
pub(crate) fn is_unborn_branch(e: &git2::Error) -> bool {
    e.code() == git2::ErrorCode::UnbornBranch
}

/// Relies on git2::Error::message: the human-readable description of `e`.
#[verifier::external_body]
pub(crate) fn error_message(e: &git2::Error) -> String {
    e.message().to_string()
}

} // verus!
