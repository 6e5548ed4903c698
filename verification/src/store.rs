//! The trusted boundary to the object store.
//!
//! Every call into git2 goes through one of the wrappers here. A wrapper's
//! result depends on what is on disk (and, for commit creation, on the
//! clock), so no wrapper promises anything about the value it returns: the
//! verified logic in `engine` takes each result as an argument and is proved
//! for every value the store could hand back.

use vstd::prelude::*;

verus! {

#[verifier::external_type_specification]
#[verifier::external_body]
pub struct ExRepository(git2::Repository);

#[verifier::external_type_specification]
#[verifier::external_body]
pub struct ExOid(git2::Oid);

#[verifier::external_type_specification]
#[verifier::external_body]
pub struct ExGitError(git2::Error);

/// Relies on git2::Repository::discover: opens the repository that encloses
/// the given path.
#[verifier::external_body]
pub(crate) fn discover_repository(path: &str) -> (r: Result<git2::Repository, git2::Error>) {
    git2::Repository::discover(path)
}

/// Relies on git2::Repository::statuses, git2::StatusEntry::status and
/// git2::Status::bits: one flag word per tracked path, index and working
/// tree combined.
#[verifier::external_body]
pub(crate) fn read_status_flags(repo: &git2::Repository) -> (r: Result<Vec<u32>, git2::Error>) {
    match repo.statuses(None) {
        Ok(statuses) => Ok(statuses.iter().map(|entry| entry.status().bits()).collect()),
        Err(e) => Err(e),
    }
}

/// Relies on git2::Repository::refname_to_id: resolves a reference name to
/// the commit it points at.
#[verifier::external_body]
pub(crate) fn resolve_reference(repo: &git2::Repository, name: &str) -> (r: Result<
    git2::Oid,
    git2::Error,
>) {
    repo.refname_to_id(name)
}

/// Relies on git2::Repository::find_branch, git2::Branch::into_reference and
/// git2::Reference::target: the direct target of a local branch, or `None`
/// when the branch's reference is symbolic.
#[verifier::external_body]
pub(crate) fn local_branch_target(repo: &git2::Repository, name: &str) -> (r: Result<
    Option<git2::Oid>,
    git2::Error,
>) {
    match repo.find_branch(name, git2::BranchType::Local) {
        Ok(branch) => Ok(branch.into_reference().target()),
        Err(e) => Err(e),
    }
}

/// Relies on git2::Repository::merge_base: a most recent common ancestor of
/// the two commits.
#[verifier::external_body]
pub(crate) fn merge_base_of(repo: &git2::Repository, a: &git2::Oid, b: &git2::Oid) -> (r: Result<
    git2::Oid,
    git2::Error,
>) {
    repo.merge_base(*a, *b)
}

/// Relies on git2::Repository::revwalk and git2::Revwalk::push_range,
/// set_sorting and collect: the commits reachable from `head` but not from
/// `excluded`, newest first by commit time.
#[verifier::external_body]
pub(crate) fn walk_unique_commits(
    repo: &git2::Repository,
    head: &git2::Oid,
    excluded: &git2::Oid,
) -> (r: Result<Vec<git2::Oid>, git2::Error>) {
    let mut walk = repo.revwalk()?;
    walk.push_range(format!("{}..{}", excluded, head).as_str())?;
    walk.set_sorting(git2::Sort::TIME)?;
    walk.collect()
}

/// Relies on git2::Repository::find_commit and git2::Repository::reset with
/// the soft kind: moves the current branch and head to the given commit and
/// leaves index and working tree untouched.
#[verifier::external_body]
pub(crate) fn soft_reset_to(repo: &git2::Repository, target: &git2::Oid) -> (r: Result<
    (),
    git2::Error,
>) {
    let commit = repo.find_commit(*target)?;
    repo.reset(commit.as_object(), git2::ResetType::Soft, None)
}

/// Relies on git2::Repository::index and git2::Index::write_tree: writes the
/// current index contents as a tree object and returns its id.
#[verifier::external_body]
pub(crate) fn write_index_tree(repo: &git2::Repository) -> (r: Result<git2::Oid, git2::Error>) {
    let mut index = repo.index()?;
    index.write_tree()
}

/// Relies on git2::Repository::find_commit and git2::Commit::message: the
/// commit's message, or the store's error when it is not valid text.
#[verifier::external_body]
pub(crate) fn commit_message_of(repo: &git2::Repository, id: &git2::Oid) -> (r: Result<
    String,
    git2::Error,
>) {
    let commit = repo.find_commit(*id)?;
    let message = commit.message()?;
    Ok(message.to_owned())
}

/// Relies on git2::Repository::signature, find_commit, find_tree and commit:
/// creates a commit with the given sole parent, tree and message, under the
/// configured default signature, and advances the named reference to it.
#[verifier::external_body]
pub(crate) fn create_commit_on(
    repo: &git2::Repository,
    reference: &str,
    parent: &git2::Oid,
    tree: &git2::Oid,
    message: &str,
) -> (r: Result<git2::Oid, git2::Error>) {
    let signature = repo.signature()?;
    let parent_commit = repo.find_commit(*parent)?;
    let tree_object = repo.find_tree(*tree)?;
    repo.commit(Some(reference), &signature, &signature, message, &tree_object, &[&parent_commit])
}

} // verus!
