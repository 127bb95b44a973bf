//! Store-maintenance commands over downloaded files: existence checks and
//! bulk re-canonicalization of stored paths, planned here and executed by
//! the I/O layer.

use vstd::prelude::*;
use crate::util::{DatabasePathFormat, spec_encode_path, encode_written_path};
use crate::paths::{spec_join, path_join};

verus! {

/// The store-maintenance command.
#[derive(Debug, Clone)]
pub struct Database {
    pub cmd: DatabaseCmd,
}

/// What the store-maintenance command does.
#[derive(Debug, Clone)]
pub enum DatabaseCmd {
    /// Create or migrate the store.
    Setup,
    /// File management over the downloaded payloads.
    File(FileArgs),
}

/// File management: which operation, and the base directories the stored
/// relative paths are resolved against.
#[derive(Debug, Clone)]
pub struct FileArgs {
    pub cmd: FileCmd,
    pub base_dir: Option<String>,
    pub fanbox_base_dir: Option<String>,
}

/// The file-management operations.
#[derive(Debug, Clone)]
pub enum FileCmd {
    /// Check that every recorded file exists.
    Fsck(FileFsckArgs),
    /// Rewrite stored paths under a chosen encoding, moving files that are
    /// not where they ought to be.
    Canonicalize(FileCanonicalizeArgs),
    /// Move a whole download base directory.
    MvBase {
        to: Option<String>,
        fanbox_to: Option<String>,
        skip_db: bool,
        skip_file: bool,
        dry_run: bool,
    },
}

/// Which asset classes the existence check covers.
#[derive(Debug, Clone, Copy, PartialEq, Eq, Structural)]
pub struct FileFsckArgs {
    pub skip_pixiv: bool,
    pub skip_fanbox_images: bool,
    pub skip_fanbox_files: bool,
}

/// The re-canonicalization pass's parameters.
#[derive(Debug, Clone)]
pub struct FileCanonicalizeArgs {
    /// The encoding rewritten paths are stored under.
    pub format: DatabasePathFormat,
    pub skip_pixiv: bool,
    pub skip_fanbox_images: bool,
    pub skip_fanbox_files: bool,
    /// Do not rewrite the store.
    pub skip_db: bool,
    /// Do not move files.
    pub skip_file: bool,
    /// Check and log only; move nothing, rewrite nothing.
    pub dry_run: bool,
    /// Replace a file already sitting at a computed target.
    pub overwrite: bool,
    /// The base directory the stored paths were relative to, where it
    /// differs from the new one.
    pub base_dir_old: Option<String>,
    pub fanbox_base_dir_old: Option<String>,
}

/// Why one row's adjustment was refused.
#[derive(Debug, Clone, Copy, PartialEq, Eq, Structural)]
pub enum AdjustError {
    /// A different file already sits at the computed target and overwriting
    /// was not requested.
    TargetExists,
}

/// What one row's adjustment amounts to.
#[derive(Debug, Clone, PartialEq, Eq)]
pub struct AdjustPlan {
    /// Where the file ought to live: its filename inside the new base.
    pub target_path: String,
    /// Move the file from its current location to the target.
    pub do_move: bool,
    /// The path to record, under the active encoding.
    pub written_path: String,
}

impl FileCanonicalizeArgs {
    /// Plan one row's adjustment. `cur_canonical` is the resolved location
    /// of the file the row records; `target_abs` is the absolute form of
    /// the computed target; `target_exists` says whether something already
    /// sits there. A move is due when the file is not at its target, unless
    /// this is a dry run or moves are skipped; an occupied target is
    /// refused unless overwriting was requested.
    pub fn plan_adjust(
        &self,
        cur_canonical: &str,
        base_dir: &str,
        filename: &str,
        target_abs: &str,
        target_exists: bool,
    ) -> (r: Result<AdjustPlan, AdjustError>)
        ensures
            ({
                let target = spec_join(base_dir@, filename@);
                let mismatch = cur_canonical@ != target;
                let moving = mismatch && !self.dry_run && !self.skip_file;
                match r {
                    Ok(p) => {
                        &&& !(moving && target_exists && !self.overwrite)
                        &&& p.target_path@ == target
                        &&& p.do_move == moving
                        &&& p.written_path@ == spec_encode_path(
                            self.format,
                            filename@,
                            target,
                            target_abs@,
                        )
                    },
                    Err(e) => e == AdjustError::TargetExists && moving && target_exists
                        && !self.overwrite,
                }
            }),
    {
        let target_path = path_join(base_dir, filename);
        let mismatch = !crate::text::str_eq(cur_canonical, target_path.as_str());
        let moving = mismatch && !self.dry_run && !self.skip_file;
        if moving && target_exists && !self.overwrite {
            return Err(AdjustError::TargetExists);
        }
        let written_path = encode_written_path(
            self.format,
            filename,
            target_path.as_str(),
            target_abs,
        );
        Ok(AdjustPlan { target_path, do_move: moving, written_path })
    }
}

} // verus!
