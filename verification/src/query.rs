//! The archive's ad-hoc listing query, composed from optional filters into
//! one SQL statement over the illustration table.
//!
//! Values are embedded as SQL literals; strings pass through SQL quoting
//! (and tag lists additionally through JSON encoding, since the statement
//! hands them to a JSON table function), so a tag cannot break out of its
//! literal.

use vstd::prelude::*;
use vstd::string::*;
use crate::pixiv::IllustState;
use crate::text::{dec_of, u64_to_dec, hex_digit, hex_digit_str};

verus! {

/// Filter on how much of an illustration's pages the archive holds.
#[derive(Debug, Clone, Copy, PartialEq, Eq, Structural)]
pub enum QueryDownloadState {
    /// Only illustrations whose every page is downloaded.
    FullyDownloaded,
    /// Only illustrations with pages still missing.
    NotFullyDownloaded,
}

/// Listing order.
#[derive(Debug, Clone, Copy, PartialEq, Eq, Structural)]
pub enum QueryOrder {
    IdAsc,
    IdDesc,
    BookmarkIdAsc,
    BookmarkIdDesc,
}

/// Output shape of the listing.
#[derive(Debug, Clone, Copy, PartialEq, Eq, Structural)]
pub enum Format {
    /// Count only.
    Count,
    /// Ids only.
    ID,
    /// Full rows.
    JSON,
}

/// The listing query's filters and presentation.
#[derive(Debug, Clone)]
pub struct Query {
    pub id: Option<u64>,
    pub state: Option<IllustState>,
    pub download_state: Option<QueryDownloadState>,
    pub tag: Vec<String>,
    pub bookmark_tag: Vec<String>,
    pub order: QueryOrder,
    pub limit: Option<u64>,
    pub format: Format,
    pub print_sql: bool,
    pub dry_run: bool,
}

/// How one character is written inside a JSON string literal.
pub open spec fn spec_json_char(c: char) -> Seq<char> {
    if c == '"' {
        seq!['\\', '"']
    } else if c == '\\' {
        seq!['\\', '\\']
    } else if (c as u32) < 32 {
        seq!['\\', 'u', '0', '0', hex_digit(c as u32 as int / 16), hex_digit(c as u32 as int % 16)]
    } else {
        seq![c]
    }
}

/// The body of a JSON string literal.
pub open spec fn spec_json_body(s: Seq<char>) -> Seq<char>
    decreases s.len(),
{
    if s.len() == 0 {
        Seq::empty()
    } else {
        spec_json_body(s.drop_last()) + spec_json_char(s.last())
    }
}

/// A JSON string literal.
pub open spec fn spec_json_string(s: Seq<char>) -> Seq<char> {
    seq!['"'] + spec_json_body(s) + seq!['"']
}

/// The items of a JSON array of strings, without the brackets.
pub open spec fn spec_json_string_items(parts: Seq<Seq<char>>) -> Seq<char>
    decreases parts.len(),
{
    if parts.len() == 0 {
        Seq::empty()
    } else if parts.len() == 1 {
        spec_json_string(parts[0])
    } else {
        spec_json_string_items(parts.drop_last()) + seq![','] + spec_json_string(parts.last())
    }
}

/// A JSON array of strings.
pub open spec fn spec_json_string_array(parts: Seq<Seq<char>>) -> Seq<char> {
    seq!['['] + spec_json_string_items(parts) + seq![']']
}

fn append_json_body(out: &mut String, s: &str)
    ensures
        final(out)@ == old(out)@ + spec_json_body(s@),
{
    let n = s.unicode_len();
    let mut i: usize = 0;
    while i < n
        invariant
            0 <= i <= n,
            n == s@.len(),
            out@ == old(out)@ + spec_json_body(s@.subrange(0, i as int)),
        decreases n - i,
    {
        let c = s.get_char(i);
        proof {
            let prefix = s@.subrange(0, i as int);
            let next = s@.subrange(0, i as int + 1);
            assert(next.drop_last() =~= prefix);
            assert(next.last() == s@[i as int]);
        }
        if c == '"' {
            proof {
                reveal_strlit("\\\"");
                assert("\\\""@ =~= spec_json_char('"'));
            }
            out.append("\\\"");
        } else if c == '\\' {
            proof {
                reveal_strlit("\\\\");
                assert("\\\\"@ =~= spec_json_char('\\'));
            }
            out.append("\\\\");
        } else if (c as u32) < 32 {
            proof {
                reveal_strlit("\\u00");
            }
            out.append("\\u00");
            let b = c as u8;
            out.append(hex_digit_str(b / 16));
            out.append(hex_digit_str(b % 16));
            proof {
                assert(out@ =~= old(out)@ + spec_json_body(s@.subrange(0, i as int))
                    + spec_json_char(c));
            }
        } else {
            out.append(s.substring_char(i, i + 1));
            proof {
                assert(s@.subrange(i as int, i as int + 1) =~= spec_json_char(c));
            }
        }
        proof {
            assert(out@ =~= old(out)@ + spec_json_body(s@.subrange(0, i as int + 1)));
        }
        i = i + 1;
    }
    proof {
        assert(s@.subrange(0, n as int) =~= s@);
    }
}

/// Render a list of strings as a JSON array.
pub fn json_string_array(parts: &Vec<String>) -> (r: String)
    ensures
        r@ == spec_json_string_array(parts@.map_values(|s: String| s@)),
{
    proof {
        reveal_strlit("[");
        reveal_strlit("]");
        assert("["@ =~= seq!['[']);
        assert("]"@ =~= seq![']']);
    }
    let mut out = String::from_str("[");
    let mut i: usize = 0;
    while i < parts.len()
        invariant
            0 <= i <= parts@.len(),
            out@ == seq!['['] + spec_json_string_items(
                parts@.map_values(|s: String| s@).subrange(0, i as int),
            ),
        decreases parts@.len() - i,
    {
        proof {
            reveal_strlit(",");
            reveal_strlit("\"");
            assert(","@ =~= seq![',']);
            assert("\""@ =~= seq!['"']);
        }
        if i > 0 {
            out.append(",");
        }
        out.append("\"");
        append_json_body(&mut out, parts[i].as_str());
        out.append("\"");
        proof {
            let views = parts@.map_values(|s: String| s@);
            let prefix = views.subrange(0, i as int);
            let next = views.subrange(0, i as int + 1);
            assert(next.drop_last() =~= prefix);
            assert(next.last() == views[i as int]);
            if i == 0 {
                assert(spec_json_string_items(next) == spec_json_string(views[0]));
            } else {
                assert(spec_json_string_items(next) == spec_json_string_items(prefix) + seq![',']
                    + spec_json_string(views[i as int]));
            }
            assert(out@ =~= seq!['['] + spec_json_string_items(next));
        }
        i = i + 1;
    }
    out.append("]");
    proof {
        let views = parts@.map_values(|s: String| s@);
        assert(views.subrange(0, views.len() as int) =~= views);
        assert(out@ =~= spec_json_string_array(views));
    }
    out
}

/// How one character is written inside a SQL string literal: quotes are
/// doubled, everything else passes through.
pub open spec fn spec_sql_char(c: char) -> Seq<char> {
    if c == '\'' {
        seq!['\'', '\'']
    } else {
        seq![c]
    }
}

/// The body of a SQL string literal.
pub open spec fn spec_sql_body(s: Seq<char>) -> Seq<char>
    decreases s.len(),
{
    if s.len() == 0 {
        Seq::empty()
    } else {
        spec_sql_body(s.drop_last()) + spec_sql_char(s.last())
    }
}

/// A SQL string literal.
pub open spec fn spec_sql_string(s: Seq<char>) -> Seq<char> {
    seq!['\''] + spec_sql_body(s) + seq!['\'']
}

/// Render a string as a SQL literal, quoting it so its contents cannot
/// terminate the literal.
pub fn sql_quote(s: &str) -> (r: String)
    ensures
        r@ == spec_sql_string(s@),
{
    proof {
        reveal_strlit("'");
        assert("'"@ =~= seq!['\'']);
    }
    let mut out = String::from_str("'");
    let n = s.unicode_len();
    let mut i: usize = 0;
    while i < n
        invariant
            0 <= i <= n,
            n == s@.len(),
            out@ == seq!['\''] + spec_sql_body(s@.subrange(0, i as int)),
        decreases n - i,
    {
        let c = s.get_char(i);
        proof {
            let prefix = s@.subrange(0, i as int);
            let next = s@.subrange(0, i as int + 1);
            assert(next.drop_last() =~= prefix);
            assert(next.last() == s@[i as int]);
        }
        if c == '\'' {
            proof {
                reveal_strlit("''");
                assert("''"@ =~= spec_sql_char('\''));
            }
            out.append("''");
        } else {
            out.append(s.substring_char(i, i + 1));
            proof {
                assert(s@.subrange(i as int, i as int + 1) =~= spec_sql_char(c));
            }
        }
        proof {
            assert(out@ =~= seq!['\''] + spec_sql_body(s@.subrange(0, i as int + 1)));
        }
        i = i + 1;
    }
    out.append("'");
    proof {
        assert(s@.subrange(0, n as int) =~= s@);
        assert(out@ =~= spec_sql_string(s@));
    }
    out
}

/// Strings joined with a separator.
pub open spec fn spec_joined(parts: Seq<Seq<char>>, sep: Seq<char>) -> Seq<char>
    decreases parts.len(),
{
    if parts.len() == 0 {
        Seq::empty()
    } else if parts.len() == 1 {
        parts[0]
    } else {
        spec_joined(parts.drop_last(), sep) + sep + parts.last()
    }
}

/// Join strings with a separator.
pub fn join_all(parts: &Vec<String>, sep: &str) -> (r: String)
    ensures
        r@ == spec_joined(parts@.map_values(|s: String| s@), sep@),
{
    let mut out = String::new();
    let mut i: usize = 0;
    while i < parts.len()
        invariant
            0 <= i <= parts@.len(),
            out@ == spec_joined(parts@.map_values(|s: String| s@).subrange(0, i as int), sep@),
        decreases parts@.len() - i,
    {
        if i > 0 {
            out.append(sep);
        }
        out.append(parts[i].as_str());
        proof {
            let views = parts@.map_values(|s: String| s@);
            let prefix = views.subrange(0, i as int);
            let next = views.subrange(0, i as int + 1);
            assert(next.drop_last() =~= prefix);
            assert(next.last() == views[i as int]);
            let gi = i as int;
            if i == 0 {
                assert(spec_joined(next, sep@) == views[0]);
                assert(out@ =~= spec_joined(next, sep@));
            } else {
                assert(spec_joined(next, sep@) == spec_joined(prefix, sep@) + sep@ + views[gi]);
                assert(out@ =~= spec_joined(next, sep@));
            }
        }
        i = i + 1;
    }
    proof {
        let views = parts@.map_values(|s: String| s@);
        assert(views.subrange(0, views.len() as int) =~= views);
    }
    out
}

/// The store's code for a visibility state.
pub open spec fn spec_state_code(s: IllustState) -> int {
    match s {
        IllustState::Normal => 0,
        IllustState::Unlisted => 1,
        IllustState::Masked => 2,
    }
}

/// The selected columns under an output format.
pub open spec fn spec_select(f: Format) -> Seq<char> {
    match f {
        Format::Count => "COUNT(*) as count"@,
        Format::ID => "id"@,
        Format::JSON => "*"@,
    }
}

/// The ordering clause.
pub open spec fn spec_order(o: QueryOrder) -> Seq<char> {
    match o {
        QueryOrder::IdAsc => "id ASC"@,
        QueryOrder::IdDesc => "id DESC"@,
        QueryOrder::BookmarkIdAsc => "bookmark_id ASC"@,
        QueryOrder::BookmarkIdDesc => "bookmark_id DESC"@,
    }
}

impl Query {
    /// The predicates the query's optional filters induce, in order: the id
    /// filter, the state filter, the download-state comparison of the page
    /// count against the downloaded-page count, and per tag list a
    /// membership predicate plus a predicate demanding that every named tag
    /// exist.
    pub open spec fn spec_clauses(&self) -> Seq<Seq<char>> {
        let id_part: Seq<Seq<char>> = match self.id {
            Some(id) => seq!["id = "@ + dec_of(id as int)],
            None => Seq::empty(),
        };
        let state_part: Seq<Seq<char>> = match self.state {
            Some(st) => seq!["state = "@ + dec_of(spec_state_code(st))],
            None => Seq::empty(),
        };
        let dwn_part: Seq<Seq<char>> = match self.download_state {
            Some(ds) => seq![
                "page_count "@ + (match ds {
                    QueryDownloadState::FullyDownloaded => "="@,
                    QueryDownloadState::NotFullyDownloaded => "!="@,
                }) + " (SELECT COUNT(*) FROM images WHERE illust_id = illusts.id)"@,
            ],
            None => Seq::empty(),
        };
        let tags = self.tag@.map_values(|s: String| s@);
        let tag_part: Seq<Seq<char>> = if tags.len() > 0 {
            seq![
                spec_tag_membership_clause(tags, "illust_tags"@),
                spec_tag_exists_clause(tags),
            ]
        } else {
            Seq::empty()
        };
        let btags = self.bookmark_tag@.map_values(|s: String| s@);
        let btag_part: Seq<Seq<char>> = if btags.len() > 0 {
            seq![
                spec_tag_membership_clause(btags, "illust_bookmark_tags"@),
                spec_tag_exists_clause(btags),
            ]
        } else {
            Seq::empty()
        };
        id_part + state_part + dwn_part + tag_part + btag_part
    }

    /// The whole statement the query denotes.
    pub open spec fn spec_sql(&self) -> Seq<char> {
        let clauses = self.spec_clauses();
        let where_part: Seq<char> = if clauses.len() > 0 {
            " WHERE "@ + spec_joined(clauses, " AND "@)
        } else {
            Seq::empty()
        };
        let limit_part: Seq<char> = match self.limit {
            Some(l) => " LIMIT "@ + dec_of(l as int),
            None => Seq::empty(),
        };
        "SELECT "@ + spec_select(self.format) + " FROM illusts"@ + where_part + " ORDER BY "@
            + spec_order(self.order) + limit_part
    }

    /// The predicates of this query's filters, composed in order.
    fn where_clauses(&self) -> (r: Vec<String>)
        ensures
            r@.map_values(|s: String| s@) == self.spec_clauses(),
    {
        let mut wheres: Vec<String> = Vec::new();
        if let Some(id) = self.id {
            wheres.push(id_clause(id));
        }
        if let Some(st) = self.state {
            wheres.push(state_clause(st));
        }
        if let Some(ds) = self.download_state {
            wheres.push(download_state_clause(ds));
        }
        if self.tag.len() > 0 {
            wheres.push(tag_membership_clause(&self.tag, "illust_tags"));
            wheres.push(tag_exists_clause(&self.tag));
        }
        if self.bookmark_tag.len() > 0 {
            wheres.push(tag_membership_clause(&self.bookmark_tag, "illust_bookmark_tags"));
            wheres.push(tag_exists_clause(&self.bookmark_tag));
        }
        proof {
            assert(wheres@.map_values(|s: String| s@) =~= self.spec_clauses());
        }
        wheres
    }

    /// Compose the listing statement from the query's filters.
    pub fn build_sql(&self) -> (r: String)
        ensures
            r@ == self.spec_sql(),
    {
        let wheres = self.where_clauses();
        let mut sql = String::from_str("SELECT ");
        sql.append(select_str(self.format));
        sql.append(" FROM illusts");
        if wheres.len() > 0 {
            sql.append(" WHERE ");
            let joined = join_all(&wheres, " AND ");
            sql.append(joined.as_str());
        }
        sql.append(" ORDER BY ");
        sql.append(order_str(self.order));
        if let Some(l) = self.limit {
            sql.append(" LIMIT ");
            let n = u64_to_dec(l);
            sql.append(n.as_str());
        }
        proof {
            assert(sql@ =~= self.spec_sql());
        }
        sql
    }
}

fn select_str(f: Format) -> (r: &'static str)
    ensures
        r@ == spec_select(f),
{
    match f {
        Format::Count => "COUNT(*) as count",
        Format::ID => "id",
        Format::JSON => "*",
    }
}

fn order_str(o: QueryOrder) -> (r: &'static str)
    ensures
        r@ == spec_order(o),
{
    match o {
        QueryOrder::IdAsc => "id ASC",
        QueryOrder::IdDesc => "id DESC",
        QueryOrder::BookmarkIdAsc => "bookmark_id ASC",
        QueryOrder::BookmarkIdDesc => "bookmark_id DESC",
    }
}

fn id_clause(id: u64) -> (r: String)
    ensures
        r@ == "id = "@ + dec_of(id as int),
{
    let mut c = String::from_str("id = ");
    let n = u64_to_dec(id);
    c.append(n.as_str());
    c
}

fn state_clause(st: IllustState) -> (r: String)
    ensures
        r@ == "state = "@ + dec_of(spec_state_code(st)),
{
    let mut c = String::from_str("state = ");
    let code: u64 = match st {
        IllustState::Normal => 0,
        IllustState::Unlisted => 1,
        IllustState::Masked => 2,
    };
    let n = u64_to_dec(code);
    c.append(n.as_str());
    c
}

fn download_state_clause(ds: QueryDownloadState) -> (r: String)
    ensures
        r@ == "page_count "@ + (match ds {
            QueryDownloadState::FullyDownloaded => "="@,
            QueryDownloadState::NotFullyDownloaded => "!="@,
        }) + " (SELECT COUNT(*) FROM images WHERE illust_id = illusts.id)"@,
{
    let mut c = String::from_str("page_count ");
    match ds {
        QueryDownloadState::FullyDownloaded => c.append("="),
        QueryDownloadState::NotFullyDownloaded => c.append("!="),
    }
    c.append(" (SELECT COUNT(*) FROM images WHERE illust_id = illusts.id)");
    c
}

/// The predicate that an illustration carries every tag in `tags`, phrased
/// over the association table `assoc_table`: no named-and-existing tag may
/// be missing from the illustration's associations.
pub open spec fn spec_tag_membership_clause(tags: Seq<Seq<char>>, assoc_table: Seq<char>) -> Seq<
    char,
> {
    "NOT EXISTS (SELECT id FROM tags WHERE tag IN (SELECT json_each.value FROM json_each("@
        + spec_sql_string(spec_json_string_array(tags)) + ")) AND id NOT IN (SELECT tag_id FROM "@
        + assoc_table + " WHERE illust_id = illusts.id))"@
}

/// The predicate that every tag in `tags` exists in the tag table at all.
pub open spec fn spec_tag_exists_clause(tags: Seq<Seq<char>>) -> Seq<char> {
    "(SELECT COUNT(*) FROM tags WHERE tag IN (SELECT json_each.value FROM json_each("@
        + spec_sql_string(spec_json_string_array(tags)) + "))) = "@ + dec_of(tags.len() as int)
}

fn tag_membership_clause(tags: &Vec<String>, assoc_table: &str) -> (r: String)
    ensures
        r@ == spec_tag_membership_clause(tags@.map_values(|s: String| s@), assoc_table@),
{
    let mut c = String::from_str(
        "NOT EXISTS (SELECT id FROM tags WHERE tag IN (SELECT json_each.value FROM json_each(",
    );
    let arr = json_string_array(tags);
    let quoted = sql_quote(arr.as_str());
    c.append(quoted.as_str());
    c.append(")) AND id NOT IN (SELECT tag_id FROM ");
    c.append(assoc_table);
    c.append(" WHERE illust_id = illusts.id))");
    c
}

fn tag_exists_clause(tags: &Vec<String>) -> (r: String)
    ensures
        r@ == spec_tag_exists_clause(tags@.map_values(|s: String| s@)),
{
    let mut c = String::from_str(
        "(SELECT COUNT(*) FROM tags WHERE tag IN (SELECT json_each.value FROM json_each(",
    );
    let arr = json_string_array(tags);
    let quoted = sql_quote(arr.as_str());
    c.append(quoted.as_str());
    c.append("))) = ");
    let n = u64_to_dec(tags.len() as u64);
    c.append(n.as_str());
    proof {
        assert(tags@.map_values(|s: String| s@).len() == tags@.len());
    }
    c
}

} // verus!
