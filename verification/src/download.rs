//! Decisions of the per-illustration download command: which payload kind
//! to fetch, which pages to skip, and the sanity checks on the filenames
//! the platform hands out.

use vstd::prelude::*;
use crate::pixiv::IllustType;
use crate::util::DatabasePathFormat;
use crate::text::{
    dec_of, u64_to_dec, spec_starts_with, spec_ends_with, str_starts_with, str_ends_with,
};
use vstd::string::*;

verus! {

/// Which payload kind to download.
#[derive(Debug, Clone, Copy, PartialEq, Eq, Structural)]
pub enum DownloadType {
    /// The animation-frame archive.
    Ugoira,
    /// Plain images (or manga pages).
    Image,
}

/// The download command's parameters.
#[derive(Debug, Clone)]
pub struct Download {
    /// The illustration ids to download.
    pub ids: Vec<u64>,
    /// Only fetch and print; write nothing.
    pub dry_run: bool,
    /// Create the base directory if missing.
    pub mkdir: bool,
    /// Where the payloads land.
    pub base_dir: String,
    /// How stored paths are encoded.
    pub database_path_format: DatabasePathFormat,
    /// Force a payload kind instead of the stored one.
    pub download_type: Option<DownloadType>,
    /// Show a progress bar.
    pub progress: bool,
    /// Download pages the store already has.
    pub force_redownload: bool,
}

/// The payload kind a stored work implies: animated works get the frame
/// archive, everything else plain images.
pub fn induced_download_type(t: IllustType) -> (r: DownloadType)
    ensures
        r == (if t == IllustType::Ugoira {
            DownloadType::Ugoira
        } else {
            DownloadType::Image
        }),
{
    match t {
        IllustType::Ugoira => DownloadType::Ugoira,
        _ => DownloadType::Image,
    }
}

impl Download {
    /// The payload kind to fetch: the forced one, or the stored work's.
    pub fn effective_download_type(&self, induced: DownloadType) -> (r: DownloadType)
        ensures
            r == (match self.download_type {
                Some(t) => t,
                None => induced,
            }),
    {
        match self.download_type {
            Some(t) => t,
            None => induced,
        }
    }
}

/// Whether a stored page index is skipped: it is already downloaded and no
/// redownload was forced.
pub fn should_skip_page(force_redownload: bool, existing: &Vec<usize>, idx: usize) -> (r: bool)
    ensures
        r == (!force_redownload && existing@.contains(idx)),
{
    if force_redownload {
        return false;
    }
    let mut i: usize = 0;
    while i < existing.len()
        invariant
            !force_redownload,
            0 <= i <= existing@.len(),
            forall|j: int| 0 <= j < i ==> existing@[j] != idx,
        decreases existing@.len() - i,
    {
        if existing[i] == idx {
            proof {
                assert(existing@[i as int] == idx);
            }
            return true;
        }
        i = i + 1;
    }
    proof {
        assert(!existing@.contains(idx));
    }
    false
}

/// The prefix a page's filename must carry: `<id>_p<page>.` for an image,
/// `<id>_ugoira<page>.` for an animation frame source.
pub fn page_filename_ok(filename: &str, id: u64, page: usize) -> (r: bool)
    ensures
        r == (spec_starts_with(
            filename@,
            dec_of(id as int) + "_p"@ + dec_of(page as int) + "."@,
        ) || spec_starts_with(
            filename@,
            dec_of(id as int) + "_ugoira"@ + dec_of(page as int) + "."@,
        )),
{
    let mut p1 = u64_to_dec(id);
    p1.append("_p");
    let pg = u64_to_dec(page as u64);
    p1.append(pg.as_str());
    p1.append(".");
    let mut p2 = u64_to_dec(id);
    p2.append("_ugoira");
    p2.append(pg.as_str());
    p2.append(".");
    let a = str_starts_with(filename, p1.as_str());
    let b = str_starts_with(filename, p2.as_str());
    a || b
}

/// The shape an animation archive's filename must have: it starts with
/// `<id>_ugoira` and ends in `.zip`.
pub fn ugoira_filename_ok(filename: &str, id: u64) -> (r: bool)
    ensures
        r == (spec_starts_with(filename@, dec_of(id as int) + "_ugoira"@) && spec_ends_with(
            filename@,
            ".zip"@,
        )),
{
    let mut p = u64_to_dec(id);
    p.append("_ugoira");
    let a = str_starts_with(filename, p.as_str());
    let b = str_ends_with(filename, ".zip");
    a && b
}

} // verus!
