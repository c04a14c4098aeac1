//! Staging the vendored source tree into the build directory.
//!
//! The caller walks the vendored tree and reports what it found as a list
//! of entries, each a path relative to the tree's root together with the
//! kind of filesystem object there.  From that list the planner derives
//! the exact copy to perform: one directory to create or one file to copy
//! per entry, at the corresponding relative path under the destination.
//! An entry that is neither a regular file nor a directory fails the plan.

use vstd::prelude::*;

use crate::errors::BuildError;
use crate::paths::{join_under, path_under};

verus! {

/// The kind of filesystem object found at a walked path.
#[derive(Debug, Clone, Copy, PartialEq, Eq)]
pub enum EntryKind {
    /// A regular file.
    File,
    /// A directory.
    Dir,
    /// Anything else: a special file the copy cannot preserve.
    Other,
}

/// One entry of the walked source tree: its path relative to the tree's
/// root (empty for the root itself) and what stands there.
#[derive(Debug, Clone, PartialEq, Eq)]
pub struct Entry {
    pub rel_path: String,
    pub kind: EntryKind,
}

/// One step of the staging copy.
#[derive(Debug, Clone, PartialEq, Eq)]
pub enum StageAction {
    /// Create the directory `dst` (and any missing parents).
    MakeDir { dst: String },
    /// Copy the regular file `src` to `dst`.
    CopyFile { src: String, dst: String },
}

/// Whether `a` is the staging step for `e`, walked from `src_root` and
/// staged under `dst_root`: a directory becomes the corresponding
/// directory, a regular file a copy to the corresponding path.
pub open spec fn stages_entry(
    a: StageAction,
    e: Entry,
    src_root: Seq<char>,
    dst_root: Seq<char>,
) -> bool {
    match e.kind {
        EntryKind::Dir => a matches StageAction::MakeDir { dst } && dst@ == path_under(
            dst_root,
            e.rel_path@,
        ),
        EntryKind::File => a matches StageAction::CopyFile { src, dst } && src@ == path_under(
            src_root,
            e.rel_path@,
        ) && dst@ == path_under(dst_root, e.rel_path@),
        EntryKind::Other => false,
    }
}

/// Plans the staging copy.  On success the plan mirrors the walked tree
/// entry for entry: every directory and every regular file reappears at
/// its relative path under `dst_root`, in walk order, and nothing else is
/// planned.  The plan fails with `StagingError` naming the first entry
/// that is neither a regular file nor a directory.
pub fn stage_plan(entries: &Vec<Entry>, src_root: &str, dst_root: &str) -> (r: Result<
    Vec<StageAction>,
    BuildError,
>)
    ensures
        match r {
            Result::Ok(plan) => plan@.len() == entries@.len() && (forall|i: int|
                0 <= i < entries@.len() ==> stages_entry(
                    plan@[i],
                    entries@[i],
                    src_root@,
                    dst_root@,
                )),
            Result::Err(e) => exists|i: int|
                {
                    &&& 0 <= i < entries@.len()
                    &&& entries@[i].kind is Other
                    &&& (forall|j: int| 0 <= j < i ==> !(entries@[j].kind is Other))
                    &&& (e matches BuildError::StagingError { path } && path@ == path_under(
                        src_root@,
                        entries@[i].rel_path@,
                    ))
                },
        },
{
    let mut plan: Vec<StageAction> = Vec::new();
    let mut i: usize = 0;
    while i < entries.len()
        invariant
            0 <= i <= entries@.len(),
            plan@.len() == i,
            forall|k: int|
                0 <= k < i ==> stages_entry(plan@[k], entries@[k], src_root@, dst_root@),
        decreases entries@.len() - i,
    {
        let entry = &entries[i];
        match entry.kind {
            EntryKind::Dir => {
                plan.push(
                    StageAction::MakeDir { dst: join_under(dst_root, entry.rel_path.as_str()) },
                );
            },
            EntryKind::File => {
                plan.push(
                    StageAction::CopyFile {
                        src: join_under(src_root, entry.rel_path.as_str()),
                        dst: join_under(dst_root, entry.rel_path.as_str()),
                    },
                );
            },
            EntryKind::Other => {
                return Err(
                    BuildError::StagingError {
                        path: join_under(src_root, entry.rel_path.as_str()),
                    },
                );
            },
        }
        i = i + 1;
    }
    Ok(plan)
}

} // verus!
