//! Why a squash run stops.

use vstd::prelude::*;

verus! {

/// A squash run stops for exactly one of these reasons. Every one is
/// terminal: the run never retries.
#[derive(Debug)]
pub enum GitSquashError {
    /// The backing object store reported a failure; the cause is kept for
    /// diagnostics.
    Git2(git2::Error),
    /// The working state has uncommitted changes, so nothing may be
    /// rewritten.
    DirtyRepo,
    /// The named branch is a symbolic reference, which the squash refuses to
    /// dereference.
    SymbolicRef(String),
}

impl From<git2::Error> for GitSquashError {
    fn from(err: git2::Error) -> (r: GitSquashError) {
        GitSquashError::Git2(err)
    }
}

impl vstd::std_specs::convert::FromSpecImpl<git2::Error> for GitSquashError {
    open spec fn obeys_from_spec() -> bool {
        true
    }

    open spec fn from_spec(err: git2::Error) -> GitSquashError {
        GitSquashError::Git2(err)
    }
}

} // verus!
