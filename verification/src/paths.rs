//! A textual model of filesystem paths.
//!
//! Paths are character strings; an absolute path starts with `/`. Joining
//! follows the usual rule of inserting a separator only where needed. The
//! move-aside name inserts a content digest in front of a file's extension,
//! preserving extension ordering.

use vstd::prelude::*;
use vstd::string::*;
use crate::text::{
    last_index_of, lemma_last_index_of, find_last_char, hex_of, lemma_hex_len,
    lemma_hex_injective, bytes_to_hex,
};

verus! {

/// Whether `s` is an absolute path.
pub open spec fn spec_is_absolute(s: Seq<char>) -> bool {
    s.len() > 0 && s[0] == '/'
}

/// Executable absolute-path test.
pub fn path_is_absolute(s: &str) -> (r: bool)
    ensures
        r == spec_is_absolute(s@),
{
    if s.unicode_len() == 0 {
        false
    } else {
        s.get_char(0) == '/'
    }
}

/// Joining a relative path onto a base directory.
pub open spec fn spec_join(base: Seq<char>, rel: Seq<char>) -> Seq<char> {
    if base.len() == 0 {
        rel
    } else if base.last() == '/' {
        base + rel
    } else {
        base + seq!['/'] + rel
    }
}

/// Join `rel` onto `base`.
pub fn path_join(base: &str, rel: &str) -> (r: String)
    ensures
        r@ == spec_join(base@, rel@),
{
    let n = base.unicode_len();
    if n == 0 {
        return rel.to_owned();
    }
    let mut out = base.to_owned();
    if base.get_char(n - 1) != '/' {
        proof {
            reveal_strlit("/");
        }
        out.append("/");
        proof {
            assert(out@ =~= base@ + seq!['/']);
        }
    }
    out.append(rel);
    proof {
        if base@.last() == '/' {
            assert(out@ =~= base@ + rel@);
        } else {
            assert(out@ =~= base@ + seq!['/'] + rel@);
        }
    }
    out
}

/// Why a stored path could not be resolved.
#[derive(Debug, Clone, Copy, PartialEq, Eq, Structural)]
pub enum PathResolveError {
    /// The stored path is relative and no base directory is configured.
    MissingBaseDir,
}

/// What a stored path denotes given an optional base directory: an absolute
/// stored path denotes itself, a relative one is joined onto the base.
pub open spec fn spec_resolve_stored(stored: Seq<char>, base: Option<Seq<char>>) -> Result<
    Seq<char>,
    PathResolveError,
> {
    if spec_is_absolute(stored) {
        Ok(stored)
    } else {
        match base {
            Some(b) => Ok(spec_join(b, stored)),
            None => Err(PathResolveError::MissingBaseDir),
        }
    }
}

/// Resolve a path as it was stored (absolute or relative to a configured
/// base directory) into the path to check on disk.
pub fn resolve_stored(stored: &str, base: Option<&str>) -> (r: Result<String, PathResolveError>)
    ensures
        match r {
            Ok(p) => spec_resolve_stored(stored@, option_view(base)) == Ok::<_, PathResolveError>(
                p@,
            ),
            Err(e) => spec_resolve_stored(stored@, option_view(base)) == Err::<Seq<char>, _>(e),
        },
{
    if path_is_absolute(stored) {
        Ok(stored.to_owned())
    } else {
        match base {
            Some(b) => Ok(path_join(b, stored)),
            None => Err(PathResolveError::MissingBaseDir),
        }
    }
}

/// The view of an optional string slice.
pub open spec fn option_view(s: Option<&str>) -> Option<Seq<char>> {
    match s {
        Some(x) => Some(x@),
        None => None,
    }
}

/// Where the extension of the file named by `path` begins (the position of
/// the last dot after the last separator), or the path's length when the
/// filename has no extension.
pub open spec fn spec_ext_start(path: Seq<char>) -> int {
    let sep = last_index_of(path, '/');
    let dot = last_index_of(path, '.');
    if dot > sep {
        dot
    } else {
        path.len() as int
    }
}

/// The move-aside name: the digest rendered in hex, inserted with a dot in
/// front of the extension (or appended with a dot when there is none).
pub open spec fn spec_move_aside(path: Seq<char>, digest: Seq<u8>) -> Seq<char> {
    let cut = spec_ext_start(path);
    path.subrange(0, cut) + seq!['.'] + hex_of(digest) + path.subrange(cut, path.len() as int)
}

/// Compute the name a stale file is renamed to before the fresh download
/// takes its place: the old content's digest is spliced in front of the
/// extension, so the renamed file keeps its type while freeing the path.
pub fn move_aside_name(path: &str, digest: &Vec<u8>) -> (r: String)
    ensures
        r@ == spec_move_aside(path@, digest@),
{
    proof {
        lemma_last_index_of(path@, '/');
        lemma_last_index_of(path@, '.');
    }
    let n = path.unicode_len();
    let sep = find_last_char(path, '/');
    let dot = find_last_char(path, '.');
    let cut: usize = match (dot, sep) {
        (Some(d), Some(s)) => if d > s {
            d
        } else {
            n
        },
        (Some(d), None) => d,
        _ => n,
    };
    proof {
        assert(cut as int == spec_ext_start(path@));
    }
    let mut out = path.substring_char(0, cut).to_owned();
    proof {
        reveal_strlit(".");
    }
    out.append(".");
    let hex = bytes_to_hex(digest);
    out.append(hex.as_str());
    out.append(path.substring_char(cut, n));
    proof {
        assert(out@ =~= spec_move_aside(path@, digest@));
    }
    out
}

/// Move-aside names collide only on identical content: for one logical
/// path, two different old-content digests always give two different
/// moved-aside names, so consecutive content changes never overwrite an
/// archived file.
pub proof fn lemma_move_aside_distinct(path: Seq<char>, d1: Seq<u8>, d2: Seq<u8>)
    requires
        d1 != d2,
    ensures
        spec_move_aside(path, d1) != spec_move_aside(path, d2),
{
    lemma_hex_injective(d1, d2);
    lemma_hex_len(d1);
    lemma_hex_len(d2);
    lemma_last_index_of(path, '/');
    lemma_last_index_of(path, '.');
    let cut = spec_ext_start(path);
    assert(0 <= cut <= path.len());
    let h1 = hex_of(d1);
    let h2 = hex_of(d2);
    let n1 = spec_move_aside(path, d1);
    let n2 = spec_move_aside(path, d2);
    if h1.len() != h2.len() {
        assert(n1.len() != n2.len());
    } else {
        assert(exists|k: int| 0 <= k < h1.len() && h1[k] != h2[k]) by {
            if !(exists|k: int| 0 <= k < h1.len() && #[trigger] h1[k] != h2[k]) {
                assert(h1 =~= h2);
            }
        }
        let k = choose|k: int| 0 <= k < h1.len() && h1[k] != h2[k];
        assert(n1[cut + 1 + k] == h1[k]);
        assert(n2[cut + 1 + k] == h2[k]);
    }
}

/// The filename component of a URL or path: everything after the last
/// separator, or the whole string when it has none.
pub open spec fn spec_filename_of(url: Seq<char>) -> Seq<char> {
    let sep = last_index_of(url, '/');
    url.subrange(sep + 1, url.len() as int)
}

/// Extract the filename component of a URL.
pub fn filename_of_url(url: &str) -> (r: String)
    ensures
        r@ == spec_filename_of(url@),
{
    proof {
        lemma_last_index_of(url@, '/');
    }
    let n = url.unicode_len();
    match find_last_char(url, '/') {
        Some(i) => url.substring_char(i + 1, n).to_owned(),
        None => url.to_owned(),
    }
}

} // verus!
