//! End-to-end squash runs against real repositories.

use git_squash::engine::{squash_repo, SquashOutcome};
use git_squash::error::GitSquashError;

fn open_repo(path: &str) -> git2::Repository {
    let repo = git2::Repository::init(path).unwrap();
    {
        let mut config = repo.config().unwrap();
        config.set_str("user.name", "tester").unwrap();
        config.set_str("user.email", "tester@example.com").unwrap();
    }
    repo
}

fn signature(time: i64) -> git2::Signature<'static> {
    git2::Signature::new("tester", "tester@example.com", &git2::Time::new(time, 0)).unwrap()
}

fn tree_with(repo: &git2::Repository, name: &str, content: &str) -> git2::Oid {
    let blob = repo.blob(content.as_bytes()).unwrap();
    let mut builder = repo.treebuilder(None).unwrap();
    builder.insert(name, blob, 0o100644).unwrap();
    builder.write().unwrap()
}

fn commit(
    repo: &git2::Repository,
    message: &str,
    tree: git2::Oid,
    parents: &[git2::Oid],
    time: i64,
) -> git2::Oid {
    let tree = repo.find_tree(tree).unwrap();
    let parent_commits: Vec<git2::Commit> =
        parents.iter().map(|p| repo.find_commit(*p).unwrap()).collect();
    let parent_refs: Vec<&git2::Commit> = parent_commits.iter().collect();
    let sig = signature(time);
    repo.commit(None, &sig, &sig, message, &tree, &parent_refs).unwrap()
}

fn set_branches_and_head(repo: &git2::Repository, master: git2::Oid, head: git2::Oid) {
    repo.reference("refs/heads/master", master, true, "test").unwrap();
    repo.reference("refs/heads/feature", head, true, "test").unwrap();
    repo.set_head("refs/heads/feature").unwrap();
    let mut checkout = git2::build::CheckoutBuilder::new();
    checkout.force().remove_untracked(true);
    repo.checkout_head(Some(&mut checkout)).unwrap();
}

/// History A -> B -> C shared; master at C.
fn base_chain(repo: &git2::Repository) -> git2::Oid {
    let a = commit(repo, "a", tree_with(repo, "f.txt", "a"), &[], 1);
    let b = commit(repo, "b", tree_with(repo, "f.txt", "b"), &[a], 2);
    commit(repo, "c", tree_with(repo, "f.txt", "c"), &[b], 3)
}

#[test]
fn zero_unique_commits_is_a_noop() {
    let repo = open_repo("/tmp/git_squash_zero_unique");
    let c = base_chain(&repo);
    set_branches_and_head(&repo, c, c);

    let outcome = squash_repo(&repo, "master").unwrap();
    assert!(matches!(outcome, SquashOutcome::NothingToSquash));
    assert_eq!(repo.refname_to_id("HEAD").unwrap(), c);
    assert_eq!(repo.refname_to_id("refs/heads/feature").unwrap(), c);
}

#[test]
fn one_unique_commit_is_a_noop() {
    let repo = open_repo("/tmp/git_squash_one_unique");
    let c = base_chain(&repo);
    let e = commit(&repo, "real change", tree_with(&repo, "f.txt", "e"), &[c], 4);
    set_branches_and_head(&repo, c, e);

    let outcome = squash_repo(&repo, "master").unwrap();
    assert!(matches!(outcome, SquashOutcome::OnlyOneCommit));
    assert_eq!(repo.refname_to_id("HEAD").unwrap(), e);
    assert_eq!(repo.refname_to_id("refs/heads/feature").unwrap(), e);
}

#[test]
fn squashes_unique_commits_into_one() {
    let repo = open_repo("/tmp/git_squash_many_unique");
    let c = base_chain(&repo);
    let e = commit(&repo, "real change", tree_with(&repo, "f.txt", "e"), &[c], 4);
    let f = commit(&repo, "fixup one", tree_with(&repo, "f.txt", "f"), &[e], 5);
    let g = commit(&repo, "fixup two", tree_with(&repo, "f.txt", "g"), &[f], 6);
    set_branches_and_head(&repo, c, g);

    let outcome = squash_repo(&repo, "master").unwrap();
    let new_id = match outcome {
        SquashOutcome::Squashed(id) => id,
        _ => panic!("expected a squash"),
    };

    let new_commit = repo.find_commit(new_id).unwrap();
    assert_eq!(new_commit.parent_count(), 1);
    assert_eq!(new_commit.parent_id(0).unwrap(), c);
    assert_eq!(new_commit.tree_id(), repo.find_commit(g).unwrap().tree_id());
    assert_eq!(new_commit.message().unwrap(), "real change");
    assert_eq!(repo.refname_to_id("HEAD").unwrap(), new_id);
    assert_eq!(repo.refname_to_id("refs/heads/feature").unwrap(), new_id);
    // The target branch is untouched.
    assert_eq!(repo.refname_to_id("refs/heads/master").unwrap(), c);
    // The working state stays clean: the old head's content was kept.
    let statuses = repo.statuses(None).unwrap();
    assert!(statuses.iter().all(|entry| entry.status().bits() == 0));
}

#[test]
fn rerun_after_squash_is_a_noop() {
    let repo = open_repo("/tmp/git_squash_rerun");
    let c = base_chain(&repo);
    let e = commit(&repo, "real change", tree_with(&repo, "f.txt", "e"), &[c], 4);
    let f = commit(&repo, "fixup one", tree_with(&repo, "f.txt", "f"), &[e], 5);
    set_branches_and_head(&repo, c, f);

    let first = squash_repo(&repo, "master").unwrap();
    assert!(matches!(first, SquashOutcome::Squashed(_)));
    let head_after_squash = repo.refname_to_id("HEAD").unwrap();

    let second = squash_repo(&repo, "master").unwrap();
    assert!(matches!(second, SquashOutcome::OnlyOneCommit));
    assert_eq!(repo.refname_to_id("HEAD").unwrap(), head_after_squash);

    let third = squash_repo(&repo, "master").unwrap();
    assert!(matches!(third, SquashOutcome::OnlyOneCommit));
    assert_eq!(repo.refname_to_id("HEAD").unwrap(), head_after_squash);
}

#[test]
fn dirty_repo_is_refused_untouched() {
    let repo = open_repo("/tmp/git_squash_dirty");
    let c = base_chain(&repo);
    let e = commit(&repo, "real change", tree_with(&repo, "f.txt", "e"), &[c], 4);
    let f = commit(&repo, "fixup one", tree_with(&repo, "f.txt", "f"), &[e], 5);
    set_branches_and_head(&repo, c, f);

    // Stage a new path, leaving the working tree alone.
    let entry = git2::IndexEntry {
        ctime: git2::IndexTime::new(0, 0),
        mtime: git2::IndexTime::new(0, 0),
        dev: 0,
        ino: 0,
        mode: 0o100644,
        uid: 0,
        gid: 0,
        file_size: 0,
        id: git2::Oid::from_str("0000000000000000000000000000000000000000").unwrap(),
        flags: 0,
        flags_extended: 0,
        path: b"staged.txt".to_vec(),
    };
    let mut index = repo.index().unwrap();
    index.add_frombuffer(&entry, b"staged content").unwrap();
    index.write().unwrap();

    let err = squash_repo(&repo, "master").unwrap_err();
    assert!(matches!(err, GitSquashError::DirtyRepo));
    assert_eq!(repo.refname_to_id("HEAD").unwrap(), f);
    assert_eq!(repo.refname_to_id("refs/heads/feature").unwrap(), f);
    assert_eq!(repo.refname_to_id("refs/heads/master").unwrap(), c);
}

#[test]
fn symbolic_branch_is_refused_untouched() {
    let repo = open_repo("/tmp/git_squash_symbolic");
    let c = base_chain(&repo);
    let e = commit(&repo, "real change", tree_with(&repo, "f.txt", "e"), &[c], 4);
    let f = commit(&repo, "fixup one", tree_with(&repo, "f.txt", "f"), &[e], 5);
    set_branches_and_head(&repo, c, f);
    repo.reference_symbolic("refs/heads/alias", "refs/heads/master", true, "test").unwrap();

    let err = squash_repo(&repo, "alias").unwrap_err();
    match err {
        GitSquashError::SymbolicRef(name) => assert_eq!(name, "alias"),
        _ => panic!("expected a symbolic-reference error"),
    }
    assert_eq!(repo.refname_to_id("HEAD").unwrap(), f);
    assert_eq!(repo.refname_to_id("refs/heads/feature").unwrap(), f);
}

#[test]
fn missing_branch_reports_the_store_error() {
    let repo = open_repo("/tmp/git_squash_missing_branch");
    let c = base_chain(&repo);
    set_branches_and_head(&repo, c, c);

    let err = squash_repo(&repo, "no-such-branch").unwrap_err();
    assert!(matches!(err, GitSquashError::Git2(_)));
    assert_eq!(repo.refname_to_id("HEAD").unwrap(), c);
}
