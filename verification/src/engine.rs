//! The squash engine: precondition checks, range classification, and the
//! two-step rewrite.
//!
//! The engine drives the trusted store layer through a fixed sequence of
//! reads, decides whether a rewrite is owed, and only then issues the
//! bounded sequence of writes. Every decision stands in a verified function
//! with an exact contract; any store failure aborts the run with the cause.

use vstd::prelude::*;

use crate::error::GitSquashError;
use crate::status::any_dirty;
use crate::status::is_dirty;
use crate::store::commit_message_of;
use crate::store::create_commit_on;
use crate::store::discover_repository;
use crate::store::local_branch_target;
use crate::store::merge_base_of;
use crate::store::read_status_flags;
use crate::store::resolve_reference;
use crate::store::soft_reset_to;
use crate::store::walk_unique_commits;
use crate::store::write_index_tree;

verus! {

/// How a successful run ended.
#[derive(Debug)]
pub enum SquashOutcome {
    /// No commits are unique to the current branch: nothing was touched.
    NothingToSquash,
    /// Exactly one commit is unique: nothing to collapse, nothing was
    /// touched.
    OnlyOneCommit,
    /// Two or more commits were collapsed into the commit named here.
    Squashed(git2::Oid),
}

/// How many commits the squash range holds.
pub enum RangeClass {
    /// No unique commits.
    Empty,
    /// Exactly one unique commit.
    Single,
    /// Two or more unique commits: a rewrite is owed.
    Multiple,
}

/// Fail with `DirtyRepo` exactly when some tracked path carries a dirty
/// flag; succeed exactly on a clean working state.
pub fn check_clean(status_flags: &Vec<u32>) -> (r: Result<(), GitSquashError>)
    ensures
        r is Ok <==> !any_dirty(status_flags@),
        r is Err ==> r->Err_0 is DirtyRepo,
{
    if is_dirty(status_flags) {
        Err(GitSquashError::DirtyRepo)
    } else {
        Ok(())
    }
}

/// A branch target may be used only when it is direct. A symbolic branch
/// reference is rejected under the branch's own name, never dereferenced.
pub fn require_direct_target(target: Option<git2::Oid>, branch_name: &str) -> (r: Result<
    git2::Oid,
    GitSquashError,
>)
    ensures
        r is Ok <==> target is Some,
        r is Ok ==> target == Some(r->Ok_0),
        r is Err ==> r->Err_0 is SymbolicRef && r->Err_0->SymbolicRef_0@ == branch_name@,
{
    match target {
        Some(id) => Ok(id),
        None => Err(GitSquashError::SymbolicRef(branch_name.to_owned())),
    }
}

/// Sort the squash range into the three cases that drive the run.
pub fn classify_range(commits: &Vec<git2::Oid>) -> (c: RangeClass)
    ensures
        c is Empty <==> commits@.len() == 0,
        c is Single <==> commits@.len() == 1,
        c is Multiple <==> commits@.len() >= 2,
{
    if commits.len() == 0 {
        RangeClass::Empty
    } else if commits.len() == 1 {
        RangeClass::Single
    } else {
        RangeClass::Multiple
    }
}

/// The oldest commit of a newest-first range: its last element. The rewrite
/// reuses this commit's message.
pub fn oldest_commit(commits: &Vec<git2::Oid>) -> (oldest: &git2::Oid)
    requires
        commits@.len() >= 1,
    ensures
        *oldest == commits@[commits@.len() - 1],
{
    &commits[commits.len() - 1]
}

/// Squash the commits unique to the current head, relative to the named
/// local branch, in the given repository.
///
/// The run reads first and writes only after every check has passed: a
/// dirty working state or a symbolic branch reference aborts it untouched,
/// and a range of zero or one commit ends it untouched. Only a range of two
/// or more commits is rewritten: a soft repoint to the merge base, then one
/// new commit from the kept index, under the oldest unique commit's message.
pub fn squash_repo(repo: &git2::Repository, branch_name: &str) -> (r: Result<
    SquashOutcome,
    GitSquashError,
>)
    ensures
        (r is Err && r->Err_0 is SymbolicRef) ==> r->Err_0->SymbolicRef_0@ == branch_name@,
{
    let status_flags = match read_status_flags(repo) {
        Ok(flags) => flags,
        Err(e) => return Err(GitSquashError::Git2(e)),
    };
    match check_clean(&status_flags) {
        Ok(()) => (),
        Err(e) => return Err(e),
    }

    let head = match resolve_reference(repo, "HEAD") {
        Ok(id) => id,
        Err(e) => return Err(GitSquashError::Git2(e)),
    };
    let target = match local_branch_target(repo, branch_name) {
        Ok(t) => t,
        Err(e) => return Err(GitSquashError::Git2(e)),
    };
    let branch_tip = match require_direct_target(target, branch_name) {
        Ok(id) => id,
        Err(e) => return Err(e),
    };

    let merge_base = match merge_base_of(repo, &branch_tip, &head) {
        Ok(id) => id,
        Err(e) => return Err(GitSquashError::Git2(e)),
    };
    let commits = match walk_unique_commits(repo, &head, &branch_tip) {
        Ok(c) => c,
        Err(e) => return Err(GitSquashError::Git2(e)),
    };

    match classify_range(&commits) {
        RangeClass::Empty => Ok(SquashOutcome::NothingToSquash),
        RangeClass::Single => Ok(SquashOutcome::OnlyOneCommit),
        RangeClass::Multiple => {
            match soft_reset_to(repo, &merge_base) {
                Ok(()) => (),
                Err(e) => return Err(GitSquashError::Git2(e)),
            }
            let tree = match write_index_tree(repo) {
                Ok(id) => id,
                Err(e) => return Err(GitSquashError::Git2(e)),
            };
            let message = match commit_message_of(repo, oldest_commit(&commits)) {
                Ok(m) => m,
                Err(e) => return Err(GitSquashError::Git2(e)),
            };
            let new_commit = match create_commit_on(
                repo,
                "HEAD",
                &merge_base,
                &tree,
                message.as_str(),
            ) {
                Ok(id) => id,
                Err(e) => return Err(GitSquashError::Git2(e)),
            };
            Ok(SquashOutcome::Squashed(new_commit))
        },
    }
}

/// Squash in the repository that encloses the current directory, as
/// `squash_repo` does.
pub fn squash(branch_name: &str) -> (r: Result<SquashOutcome, GitSquashError>)
    ensures
        (r is Err && r->Err_0 is SymbolicRef) ==> r->Err_0->SymbolicRef_0@ == branch_name@,
{
    let repo = match discover_repository(".") {
        Ok(repo) => repo,
        Err(e) => return Err(GitSquashError::Git2(e)),
    };
    squash_repo(&repo, branch_name)
}

} // verus!
