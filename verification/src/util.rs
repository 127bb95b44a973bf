//! Persisted-path encoding policy and the shape a finished download
//! reports.

use vstd::prelude::*;
use crate::paths::{
    spec_is_absolute, spec_join, spec_resolve_stored, path_join, PathResolveError,
};

verus! {

/// How a persisted file's path is encoded for storage.
#[derive(Debug, Clone, Copy, PartialEq, Eq, Structural)]
pub enum DatabasePathFormat {
    /// Only store the bare filename; a configured base directory is assumed
    /// at read time. Easiest when the base directory moves with its files.
    Inline,
    /// Store the base-directory-joined path as-is, without resolving it.
    AsIs,
    /// Store the fully resolved absolute path; robust to later changes of
    /// the configured base directory.
    Absolute,
}

/// Paths reported by a finished download: the string recorded in the store
/// and the actual location on disk, plus the payload size.
#[derive(Debug, Clone, PartialEq, Eq)]
pub struct DownloadResult {
    pub written_path: String,
    pub final_path: String,
    pub size: u64,
}

/// When an incremental sync pass stops.
#[derive(Debug, Clone, Copy, PartialEq, Eq, Structural)]
pub enum TerminationCondition {
    /// Stop when an already-seen item is encountered.
    OnHit,
    /// Keep going until the feed is exhausted.
    UntilEnd,
}

/// The stored encoding of a persisted file under a path format: the bare
/// filename, the joined final path, or the resolved absolute path.
pub open spec fn spec_encode_path(
    fmt: DatabasePathFormat,
    filename: Seq<char>,
    final_path: Seq<char>,
    canonical: Seq<char>,
) -> Seq<char> {
    match fmt {
        DatabasePathFormat::Inline => filename,
        DatabasePathFormat::AsIs => final_path,
        DatabasePathFormat::Absolute => canonical,
    }
}

/// Encode the path to record in the store for a file persisted at
/// `final_path` (which is `filename` inside the base directory), given its
/// resolved absolute form `canonical`.
pub fn encode_written_path(
    fmt: DatabasePathFormat,
    filename: &str,
    final_path: &str,
    canonical: &str,
) -> (r: String)
    ensures
        r@ == spec_encode_path(fmt, filename@, final_path@, canonical@),
{
    match fmt {
        DatabasePathFormat::Inline => filename.to_owned(),
        DatabasePathFormat::AsIs => final_path.to_owned(),
        DatabasePathFormat::Absolute => canonical.to_owned(),
    }
}

/// Assemble what a finished download reports: the file landed at
/// `filename` inside `base_dir`, and the stored path follows `fmt`.
pub fn download_result(
    fmt: DatabasePathFormat,
    base_dir: &str,
    filename: &str,
    canonical: &str,
    size: u64,
) -> (r: DownloadResult)
    ensures
        r.final_path@ == spec_join(base_dir@, filename@),
        r.written_path@ == spec_encode_path(
            fmt,
            filename@,
            spec_join(base_dir@, filename@),
            canonical@,
        ),
        r.size == size,
{
    let final_path = path_join(base_dir, filename);
    let written_path = encode_written_path(fmt, filename, final_path.as_str(), canonical);
    DownloadResult { written_path, final_path, size }
}

/// Path-encoding round trip: for each of the three formats, encoding a
/// freshly persisted file's path and resolving the stored string against
/// the same base directory leads back to the file. `Inline` and `AsIs`
/// resolve to the final path itself; `Absolute` resolves to `canonical`,
/// the caller's resolved form of that same final path. `base` must be
/// absolute (an `AsIs` path stored under a relative base would be joined
/// onto the base a second time at read time) and `filename` a plain
/// name without separators.
pub proof fn lemma_path_encoding_round_trip(
    fmt: DatabasePathFormat,
    base: Seq<char>,
    filename: Seq<char>,
    canonical: Seq<char>,
)
    requires
        spec_is_absolute(base),
        filename.len() > 0,
        forall|i: int| 0 <= i < filename.len() ==> filename[i] != '/',
        spec_is_absolute(canonical),
    ensures
        ({
            let final_path = spec_join(base, filename);
            let stored = spec_encode_path(fmt, filename, final_path, canonical);
            spec_resolve_stored(stored, Some(base)) == Ok::<Seq<char>, PathResolveError>(
                match fmt {
                    DatabasePathFormat::Absolute => canonical,
                    _ => final_path,
                },
            )
        }),
{
    let final_path = spec_join(base, filename);
    assert(filename[0] != '/');
    assert(!spec_is_absolute(filename));
    assert(spec_is_absolute(final_path)) by {
        if base.last() == '/' {
            assert(final_path[0] == base[0]);
        } else {
            assert(final_path[0] == base[0]);
        }
    }
}

} // verus!
