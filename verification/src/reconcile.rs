//! The persist-and-reconcile engine.
//!
//! A freshly downloaded payload sits in a temp file next to its final
//! target. Relative to whatever was previously recorded for the same
//! logical asset, the engine decides whether the new file is even worth
//! persisting, whether the old file must first be archived aside or
//! deleted, and how the previously recorded file is to be classified so the
//! caller can update exactly one record. The hashing, canonicalization and
//! renames themselves happen outside; the engine works on the digests and
//! location facts it is handed.

use vstd::prelude::*;
use crate::paths::{spec_is_absolute, spec_move_aside, move_aside_name};

verus! {

/// The caller's declaration of what was previously recorded for an asset.
#[derive(Debug, Clone, PartialEq, Eq)]
pub enum OverwritePolicy {
    /// No prior file is recorded; just persist.
    Free,
    /// A prior file exists at `old_path` (an absolute path); its content
    /// decides whether the new download changes anything.
    Compare { old_path: String },
    /// Replace unconditionally; `old_path` is given only when the prior
    /// record's path may coincide with the new target.
    Overwrite { old_path: Option<String> },
}

/// What happened to the previously recorded file.
#[derive(Debug, Clone, PartialEq, Eq)]
pub enum Disposition {
    /// The old record is simply stale going forward; its file, if any, was
    /// left untouched.
    Stale,
    /// The file at the target path was removed and replaced.
    Overwritten,
    /// The old file was renamed aside to the carried path; the record that
    /// pointed at it should be repointed there.
    Moved(String),
}

/// The filesystem action the caller must perform before the atomic rename
/// of the temp file onto the target.
#[derive(Debug, Clone, PartialEq, Eq)]
pub enum FileOp {
    /// Nothing stands in the way.
    Nothing,
    /// Rename the old file from `from` to `to` to free the target while
    /// preserving the old content.
    MoveAside { from: String, to: String },
    /// Delete whatever sits at the target path; a missing file is not an
    /// error.
    DeleteTarget,
}

/// The engine's verdict for one downloaded payload.
#[derive(Debug, Clone, PartialEq, Eq)]
pub enum ReconcileDecision {
    /// The old file already holds these bytes: discard the temp file,
    /// perform no filesystem write, merely refresh the record's validity
    /// marker.
    Unchanged,
    /// Persist the temp file at the target after performing `op`; report
    /// the old record as `disposition`.
    Persist { op: FileOp, disposition: Disposition },
}

/// Decide the fate of a newly downloaded payload.
///
/// `old_digest` is the content digest of the file at the `Compare` policy's
/// `old_path` (the caller hashed it); `new_digest` is the digest of the
/// downloaded bytes. `old_is_target` says whether the prior file's path
/// canonicalizes to the same location as the intended final target.
///
/// Downloading identical bytes for an asset under `Compare` always comes
/// back `Unchanged`: equal digests decide it, so a repeat download never
/// reaches a filesystem write.
pub fn reconcile(
    policy: &OverwritePolicy,
    old_digest: &Option<Vec<u8>>,
    new_digest: &Vec<u8>,
    old_is_target: bool,
) -> (r: ReconcileDecision)
    requires
        policy matches OverwritePolicy::Compare { old_path } ==> old_digest is Some
            && spec_is_absolute(old_path@),
    ensures
        policy is Free ==> r == (ReconcileDecision::Persist {
            op: FileOp::Nothing,
            disposition: Disposition::Stale,
        }),
        policy matches OverwritePolicy::Compare { old_path } ==> old_digest matches Some(od) ==> {
            &&& od@ == new_digest@ ==> r == ReconcileDecision::Unchanged
            &&& od@ != new_digest@ && old_is_target ==> (r matches ReconcileDecision::Persist {
                op: FileOp::MoveAside { from, to },
                disposition: Disposition::Moved(moved),
            } && from@ == old_path@ && to@ == spec_move_aside(old_path@, od@) && moved@ == to@)
            &&& od@ != new_digest@ && !old_is_target ==> r == (ReconcileDecision::Persist {
                op: FileOp::Nothing,
                disposition: Disposition::Stale,
            })
        },
        policy matches OverwritePolicy::Overwrite { old_path: None } ==> r
            == (ReconcileDecision::Persist {
            op: FileOp::DeleteTarget,
            disposition: Disposition::Stale,
        }),
        policy matches OverwritePolicy::Overwrite { old_path: Some(_) } && old_is_target ==> r
            == (ReconcileDecision::Persist {
            op: FileOp::DeleteTarget,
            disposition: Disposition::Overwritten,
        }),
        policy matches OverwritePolicy::Overwrite { old_path: Some(_) } && !old_is_target ==> r
            == (ReconcileDecision::Persist {
            op: FileOp::Nothing,
            disposition: Disposition::Stale,
        }),
{
    match policy {
        OverwritePolicy::Free => ReconcileDecision::Persist {
            op: FileOp::Nothing,
            disposition: Disposition::Stale,
        },
        OverwritePolicy::Compare { old_path } => {
            let od = match old_digest {
                Some(od) => od,
                // the precondition supplies a digest with a Compare policy
                None => unreached(),
            };
            if digests_equal(od, new_digest) {
                ReconcileDecision::Unchanged
            } else if old_is_target {
                let to = move_aside_name(old_path.as_str(), od);
                let moved = to.clone();
                ReconcileDecision::Persist {
                    op: FileOp::MoveAside { from: old_path.clone(), to },
                    disposition: Disposition::Moved(moved),
                }
            } else {
                ReconcileDecision::Persist {
                    op: FileOp::Nothing,
                    disposition: Disposition::Stale,
                }
            }
        },
        OverwritePolicy::Overwrite { old_path: None } => ReconcileDecision::Persist {
            op: FileOp::DeleteTarget,
            disposition: Disposition::Stale,
        },
        OverwritePolicy::Overwrite { old_path: Some(_) } => {
            if old_is_target {
                ReconcileDecision::Persist {
                    op: FileOp::DeleteTarget,
                    disposition: Disposition::Overwritten,
                }
            } else {
                ReconcileDecision::Persist {
                    op: FileOp::Nothing,
                    disposition: Disposition::Stale,
                }
            }
        },
    }
}

fn digests_equal(a: &Vec<u8>, b: &Vec<u8>) -> (r: bool)
    ensures
        r == (a@ == b@),
{
    if a.len() != b.len() {
        proof {
            assert(a@ != b@);
        }
        return false;
    }
    let mut i: usize = 0;
    while i < a.len()
        invariant
            0 <= i <= a@.len(),
            a@.len() == b@.len(),
            forall|j: int| 0 <= j < i ==> a@[j] == b@[j],
        decreases a@.len() - i,
    {
        if a[i] != b[i] {
            return false;
        }
        i = i + 1;
    }
    proof {
        assert(a@ =~= b@);
    }
    true
}

/// The engine's report: either nothing was written, or the temp file now
/// sits at `final_path` and the store should record `encoded_path`.
#[derive(Debug, Clone, PartialEq, Eq)]
pub enum PersistOutcome {
    Unchanged { size: u64 },
    Written { final_path: String, encoded_path: String, size: u64, disposition: Disposition },
}

/// The persist step failed its defensive check.
#[derive(Debug, Clone, Copy, PartialEq, Eq, Structural)]
pub enum ReconcileError {
    /// Something still occupies the final target path right before the
    /// atomic rename: persisting would silently clobber unaccounted state.
    TargetCollision,
}

/// Final gate before the atomic rename: with anything still at the target
/// the persist is refused as a `TargetCollision`; otherwise the outcome to
/// report for a persisted download is assembled.
pub fn finish_persist(
    target_exists: bool,
    final_path: String,
    encoded_path: String,
    size: u64,
    disposition: Disposition,
) -> (r: Result<PersistOutcome, ReconcileError>)
    ensures
        target_exists ==> r == Err::<PersistOutcome, _>(ReconcileError::TargetCollision),
        !target_exists ==> (r matches Ok(o) && o == (PersistOutcome::Written {
            final_path,
            encoded_path,
            size,
            disposition,
        })),
{
    if target_exists {
        Err(ReconcileError::TargetCollision)
    } else {
        Ok(PersistOutcome::Written { final_path, encoded_path, size, disposition })
    }
}

/// The report for a download whose bytes matched the old file: the size is
/// carried through unchanged.
pub fn unchanged_outcome(size: u64) -> (r: PersistOutcome)
    ensures
        r == (PersistOutcome::Unchanged { size }),
{
    PersistOutcome::Unchanged { size }
}

} // verus!
