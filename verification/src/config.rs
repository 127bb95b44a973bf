//! Session and credential material, parsed once at startup: the per-platform
//! cookie (whose leading segment carries the account id), an optional block
//! of raw request headers, and the configured base directories.

use vstd::prelude::*;
use vstd::string::*;
use crate::text::{
    first_index_of, lemma_first_index_of, find_first_char, is_dec_seq, dec_val, parse_u64,
    spec_trim, trim_ws, spec_split, split_char, spec_starts_with, str_starts_with,
    first_colon_space, lemma_first_colon_space, find_colon_space,
};

verus! {

/// Why session material was rejected.
#[derive(Debug, Clone, PartialEq, Eq)]
pub enum SessionError {
    /// The cookie's leading segment is not a decimal account id.
    InvalidUid,
    /// A header line has no `": "` separating name and value; the line is
    /// carried for the report.
    UnparsableHeader(String),
    /// The platform's session is required but was not configured.
    MissingSession,
}

/// A platform session: the account id and the full cookie it was read from.
#[derive(Debug, Clone)]
pub struct UIDSession {
    pub uid: u64,
    pub cookie: String,
}

/// The account id a cookie's leading segment denotes: the digits before the
/// first underscore (or the whole cookie without one).
pub open spec fn spec_uid_segment(s: Seq<char>) -> Seq<char> {
    let i = first_index_of(s, '_');
    if i == -1 {
        s
    } else {
        s.subrange(0, i)
    }
}

impl UIDSession {
    /// Parse a cookie whose leading underscore-separated segment is the
    /// account id. Succeeds exactly when that segment is a decimal number
    /// that fits.
    pub fn parse(value: &str) -> (r: Result<UIDSession, SessionError>)
        ensures
            match r {
                Ok(u) => is_dec_seq(spec_uid_segment(value@)) && u.uid == dec_val(
                    spec_uid_segment(value@),
                ) && u.cookie@ == value@,
                Err(e) => e == SessionError::InvalidUid && (!is_dec_seq(spec_uid_segment(value@))
                    || dec_val(spec_uid_segment(value@)) > u64::MAX),
            },
    {
        proof {
            lemma_first_index_of(value@, '_');
        }
        let n = value.unicode_len();
        let seg: &str = match find_first_char(value, '_') {
            Some(i) => value.substring_char(0, i),
            None => value,
        };
        proof {
            if first_index_of(value@, '_') == -1 {
                assert(seg@ == spec_uid_segment(value@));
            }
        }
        match parse_u64(seg) {
            Some(uid) => Ok(UIDSession { uid, cookie: value.to_owned() }),
            None => Err(SessionError::InvalidUid),
        }
    }
}

/// Whether a raw header line is dropped rather than forwarded: the request
/// line and the host header are not replayed.
pub open spec fn spec_line_skipped(l: Seq<char>) -> bool {
    spec_starts_with(l, "GET"@) || spec_starts_with(l, "Host: "@) || spec_starts_with(
        l,
        "host: "@,
    )
}

/// How one kept header line parses: split at its first `": "`.
pub open spec fn spec_header_pair(l: Seq<char>) -> Option<(Seq<char>, Seq<char>)> {
    let i = first_colon_space(l);
    if i == -1 {
        None
    } else {
        Some((l.subrange(0, i), l.subrange(i + 2, l.len() as int)))
    }
}

/// The parse of a header block's lines: skipped lines dropped, each kept
/// line split into name and value, and the first unsplittable line reported
/// as the error.
pub open spec fn spec_parse_headers(lines: Seq<Seq<char>>) -> Result<
    Seq<(Seq<char>, Seq<char>)>,
    Seq<char>,
>
    decreases lines.len(),
{
    if lines.len() == 0 {
        Ok(Seq::empty())
    } else if spec_line_skipped(lines[0]) {
        spec_parse_headers(lines.drop_first())
    } else {
        match spec_header_pair(lines[0]) {
            None => Err(lines[0]),
            Some(p) => match spec_parse_headers(lines.drop_first()) {
                Ok(t) => Ok(seq![p] + t),
                Err(e) => Err(e),
            },
        }
    }
}

/// The view of a parsed header list.
pub open spec fn header_views(h: Seq<(String, String)>) -> Seq<(Seq<char>, Seq<char>)> {
    h.map_values(|p: (String, String)| (p.0@, p.1@))
}

/// Parse a raw header block: trim it, split it into lines, drop the request
/// and host lines, and split every other line at its first `": "`.
pub fn parse_header_block(block: &str) -> (r: Result<Vec<(String, String)>, SessionError>)
    ensures
        match r {
            Ok(pairs) => spec_parse_headers(spec_split(spec_trim(block@), '\n')) == Ok::<
                _,
                Seq<char>,
            >(header_views(pairs@)),
            Err(e) => e matches SessionError::UnparsableHeader(l) && spec_parse_headers(
                spec_split(spec_trim(block@), '\n'),
            ) == Err::<Seq<(Seq<char>, Seq<char>)>, _>(l@),
        },
{
    let trimmed = trim_ws(block);
    let mut lines = split_char(trimmed.as_str(), '\n');
    let ghost all_lines = spec_split(spec_trim(block@), '\n');
    let mut out: Vec<(String, String)> = Vec::new();
    let mut k: usize = 0;
    let n = lines.len();
    proof {
        assert(all_lines.subrange(0, all_lines.len() as int) =~= all_lines);
        if spec_parse_headers(all_lines) is Ok {
            let t = spec_parse_headers(all_lines)->Ok_0;
            assert(header_views(out@) + t =~= t);
        }
    }
    while k < n
        invariant
            0 <= k <= n,
            n == lines@.len(),
            all_lines == spec_split(spec_trim(block@), '\n'),
            lines@.map_values(|x: String| x@) == all_lines,
            spec_parse_headers(all_lines) == (match spec_parse_headers(
                all_lines.subrange(k as int, all_lines.len() as int),
            ) {
                Ok(t) => Ok::<_, Seq<char>>(header_views(out@) + t),
                Err(e) => Err::<Seq<(Seq<char>, Seq<char>)>, _>(e),
            }),
        decreases n - k,
    {
        let ghost rest = all_lines.subrange(k as int, all_lines.len() as int);
        let ghost rest1 = all_lines.subrange(k as int + 1, all_lines.len() as int);
        proof {
            assert(rest.len() > 0);
            assert(rest[0] == all_lines[k as int]);
            assert(rest.drop_first() =~= rest1);
        }
        let line = &lines[k];
        proof {
            assert(line@ == all_lines[k as int]);
        }
        let skipped = {
            let a = str_starts_with(line.as_str(), "GET");
            let b = str_starts_with(line.as_str(), "Host: ");
            let c = str_starts_with(line.as_str(), "host: ");
            a || b || c
        };
        if skipped {
            proof {
                assert(spec_line_skipped(rest[0]));
                assert(spec_parse_headers(rest) == spec_parse_headers(rest1));
            }
        }
        if !skipped {
            proof {
                lemma_first_colon_space(line@);
            }
            match find_colon_space(line.as_str()) {
                Some(i) => {
                    proof {
                        lemma_first_colon_space(line@);
                        assert(i + 2 <= line@.len());
                    }
                    let ll = line.unicode_len();
                    let name = line.substring_char(0, i).to_owned();
                    let value = line.substring_char(i + 2, ll).to_owned();
                    let ghost pre_out = out@;
                    let ghost gname = name@;
                    let ghost gvalue = value@;
                    out.push((name, value));
                    proof {
                        assert(spec_header_pair(rest[0]) == Some((gname, gvalue)));
                        assert(out@ =~= pre_out.push(((out@.last()).0, (out@.last()).1)));
                        assert(header_views(out@) =~= header_views(pre_out) + seq![
                            (gname, gvalue),
                        ]);
                        assert(!spec_line_skipped(rest[0]));
                        if spec_parse_headers(rest1) is Ok {
                            let t1 = spec_parse_headers(rest1)->Ok_0;
                            assert(spec_parse_headers(rest) == Ok::<_, Seq<char>>(
                                seq![(gname, gvalue)] + t1,
                            ));
                            assert(header_views(pre_out) + (seq![(gname, gvalue)] + t1)
                                =~= header_views(out@) + t1);
                        } else {
                            let e1 = spec_parse_headers(rest1)->Err_0;
                            assert(spec_parse_headers(rest) == Err::<
                                Seq<(Seq<char>, Seq<char>)>,
                                _,
                            >(e1));
                        }
                    }
                },
                None => {
                    proof {
                        assert(!spec_line_skipped(rest[0]));
                        assert(spec_header_pair(rest[0]) is None);
                        assert(spec_parse_headers(rest) == Err::<Seq<(Seq<char>, Seq<char>)>, _>(
                            rest[0],
                        ));
                        assert(spec_parse_headers(all_lines) == Err::<
                            Seq<(Seq<char>, Seq<char>)>,
                            _,
                        >(rest[0]));
                    }
                    let reported = line.clone();
                    proof {
                        assert(reported@ == rest[0]);
                    }
                    return Err(SessionError::UnparsableHeader(reported));
                },
            }
        }
        proof {
            assert(spec_parse_headers(all_lines) == (match spec_parse_headers(rest1) {
                Ok(t) => Ok::<_, Seq<char>>(header_views(out@) + t),
                Err(e) => Err::<Seq<(Seq<char>, Seq<char>)>, _>(e),
            }));
        }
        k = k + 1;
    }
    proof {
        assert(all_lines.subrange(n as int, all_lines.len() as int) =~= Seq::<Seq<char>>::empty());
        assert(header_views(out@) + Seq::<(Seq<char>, Seq<char>)>::empty() =~= header_views(out@));
    }
    Ok(out)
}

/// Everything the tool knows about who it is acting as and where downloads
/// land.
#[derive(Debug, Clone)]
pub struct Session {
    /// The illustration platform's session, when its cookie was given.
    pub pixiv: Option<UIDSession>,
    /// The subscription platform's session, when its cookie was given.
    pub fanbox: Option<UIDSession>,
    /// A raw header block for the subscription platform, parsed into pairs,
    /// overriding the plain cookie when present.
    pub fanbox_header_full: Option<Vec<(String, String)>>,
    /// Where the illustration platform's downloads land.
    pub pixiv_base_dir: Option<String>,
    /// Where the subscription platform's downloads land.
    pub fanbox_base_dir: Option<String>,
}

impl Session {
    /// Assemble a session from the optional raw materials; each cookie and
    /// the header block must parse for the session to exist.
    pub fn new(
        pixiv_cookie: Option<String>,
        fanbox_cookie: Option<String>,
        fanbox_header_full: Option<String>,
        pixiv_base_dir: Option<String>,
        fanbox_base_dir: Option<String>,
    ) -> (r: Result<Session, SessionError>)
        ensures
            r matches Ok(s) ==> {
                &&& (match pixiv_cookie {
                    Some(c) => s.pixiv matches Some(u) && u.cookie@ == c@ && u.uid == dec_val(
                        spec_uid_segment(c@),
                    ),
                    None => s.pixiv is None,
                })
                &&& (match fanbox_cookie {
                    Some(c) => s.fanbox matches Some(u) && u.cookie@ == c@ && u.uid == dec_val(
                        spec_uid_segment(c@),
                    ),
                    None => s.fanbox is None,
                })
                &&& (match fanbox_header_full {
                    Some(b) => s.fanbox_header_full matches Some(h) && spec_parse_headers(
                        spec_split(spec_trim(b@), '\n'),
                    ) == Ok::<_, Seq<char>>(header_views(h@)),
                    None => s.fanbox_header_full is None,
                })
                &&& s.pixiv_base_dir == pixiv_base_dir
                &&& s.fanbox_base_dir == fanbox_base_dir
            },
    {
        let pixiv = match pixiv_cookie {
            Some(c) => Some(UIDSession::parse(c.as_str())?),
            None => None,
        };
        let fanbox = match fanbox_cookie {
            Some(c) => Some(UIDSession::parse(c.as_str())?),
            None => None,
        };
        let fanbox_header_full = match fanbox_header_full {
            Some(b) => Some(parse_header_block(b.as_str())?),
            None => None,
        };
        Ok(Session { pixiv, fanbox, fanbox_header_full, pixiv_base_dir, fanbox_base_dir })
    }

    /// The illustration platform's base directory, demanded.
    pub fn get_pixiv_base_dir(&self) -> (r: Result<&String, crate::paths::PathResolveError>)
        ensures
            match r {
                Ok(d) => self.pixiv_base_dir matches Some(b) && d == &b,
                Err(e) => self.pixiv_base_dir is None && e
                    == crate::paths::PathResolveError::MissingBaseDir,
            },
    {
        match &self.pixiv_base_dir {
            Some(d) => Ok(d),
            None => Err(crate::paths::PathResolveError::MissingBaseDir),
        }
    }

    /// The subscription platform's base directory, demanded.
    pub fn get_fanbox_base_dir(&self) -> (r: Result<&String, crate::paths::PathResolveError>)
        ensures
            match r {
                Ok(d) => self.fanbox_base_dir matches Some(b) && d == &b,
                Err(e) => self.fanbox_base_dir is None && e
                    == crate::paths::PathResolveError::MissingBaseDir,
            },
    {
        match &self.fanbox_base_dir {
            Some(d) => Ok(d),
            None => Err(crate::paths::PathResolveError::MissingBaseDir),
        }
    }
}

} // verus!
