//! The working-state flags that decide whether a repository is clean enough
//! to squash.
//!
//! Each tracked path carries a bit set of per-path status flags, read from
//! the store as a plain `u32`. The repository is dirty exactly when some
//! path carries an addition, modification, deletion, rename, typechange or
//! conflict flag, in either the index or the working tree.

use vstd::prelude::*;

verus! {

/// A path was added to the index.
pub const INDEX_NEW: u32 = 0x0001;
/// A path was modified in the index.
pub const INDEX_MODIFIED: u32 = 0x0002;
/// A path was deleted from the index.
pub const INDEX_DELETED: u32 = 0x0004;
/// A path was renamed in the index.
pub const INDEX_RENAMED: u32 = 0x0008;
/// A path changed its kind in the index.
pub const INDEX_TYPECHANGE: u32 = 0x0010;
/// A path is new in the working tree.
pub const WT_NEW: u32 = 0x0080;
/// A path was modified in the working tree.
pub const WT_MODIFIED: u32 = 0x0100;
/// A path was deleted from the working tree.
pub const WT_DELETED: u32 = 0x0200;
/// A path changed its kind in the working tree.
pub const WT_TYPECHANGE: u32 = 0x0400;
/// A path was renamed in the working tree.
pub const WT_RENAMED: u32 = 0x0800;
/// A path carries an unresolved merge conflict.
pub const CONFLICTED: u32 = 0x8000;

/// All the flags that make the repository dirty. An ignored path does not.
pub const DIRTY_FLAGS: u32 = INDEX_NEW | INDEX_MODIFIED | INDEX_DELETED | INDEX_RENAMED
    | INDEX_TYPECHANGE | WT_NEW | WT_MODIFIED | WT_DELETED | WT_TYPECHANGE | WT_RENAMED
    | CONFLICTED;

/// One path's flags mark the repository dirty.
pub open spec fn dirty_status(flags: u32) -> bool {
    flags & DIRTY_FLAGS != 0
}

/// Some path in the status list marks the repository dirty.
pub open spec fn any_dirty(statuses: Seq<u32>) -> bool {
    exists|i: int| 0 <= i < statuses.len() && dirty_status(statuses[i])
}

/// Check if the index or working copy have changes: true exactly when some
/// entry carries one of the dirty flags.
pub fn is_dirty(statuses: &Vec<u32>) -> (dirty: bool)
    ensures
        dirty == any_dirty(statuses@),
{
    let mut i: usize = 0;
    while i < statuses.len()
        invariant
            0 <= i <= statuses@.len(),
            forall|j: int| 0 <= j < i ==> !dirty_status(statuses@[j]),
        decreases statuses@.len() - i,
    {
        if statuses[i] & DIRTY_FLAGS != 0 {
            return true;
        }
        i = i + 1;
    }
    false
}

} // verus!
