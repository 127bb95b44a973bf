//! The tool's commands: their parameters as plain data, and the fanbox
//! file-listing query they compose.

use vstd::prelude::*;
use vstd::string::*;
use crate::util::{DatabasePathFormat, TerminationCondition};
use crate::query::{spec_joined, spec_sql_string, sql_quote, join_all};
use crate::text::{dec_of, u64_to_dec};

verus! {

/// Parameters of the bookmark-feed sync.
#[derive(Debug, Clone)]
pub struct Bookmarks {
    /// Only bookmarks under this bookmark tag.
    pub tag: Option<String>,
    /// Where in the feed to start.
    pub offset: usize,
    /// Stop after this many processed items.
    pub max_cnt: Option<u64>,
    /// Read the private feed.
    pub private: bool,
    /// When the pass stops.
    pub termination: TerminationCondition,
}

/// Parameters of the single-illustration metadata sync.
#[derive(Debug, Clone)]
pub struct Illust {
    pub ids: Vec<u64>,
    /// Only fetch and print; write nothing.
    pub dry_run: bool,
    /// A failed item aborts the batch instead of being counted.
    pub abort_on_fail: bool,
}

/// Which kind of post attachment to download.
#[derive(Debug, Clone, Copy, PartialEq, Eq, Structural)]
pub enum FanboxDownloadType {
    File,
    Image,
}

/// Parameters of the post-feed sync.
#[derive(Debug, Clone)]
pub struct FanboxSyncArgs {
    /// The creator to sync; all supported creators when absent.
    pub creator: Option<String>,
    /// When the pass stops.
    pub termination: TerminationCondition,
    /// Feed pages to skip.
    pub skip_pages: Option<usize>,
    /// Skip failed posts instead of aborting.
    pub skip_failed: bool,
    /// How many retries one post fetch gets.
    pub retries: u64,
    /// The initial backoff wait, doubling per failure, when configured.
    pub retry_backoff: Option<u64>,
}

/// Parameters of the attachment download.
#[derive(Debug, Clone)]
pub struct FanboxDownloadArgs {
    pub download_type: FanboxDownloadType,
    pub ids: Vec<String>,
    pub abort_on_fail: bool,
    pub base_dir: String,
    pub mkdir: bool,
    pub database_path_format: DatabasePathFormat,
    pub progress: bool,
}

/// Parameters of the attachment listing.
#[derive(Debug, Clone)]
pub struct FanboxFileArgs {
    /// Only this attachment.
    pub id: Option<String>,
    /// Only attachments of this post.
    pub post: Option<u64>,
    /// Only attachments with (or without) a downloaded file.
    pub downloaded: Option<bool>,
    pub print_sql: bool,
    pub dry_run: bool,
}

impl FanboxFileArgs {
    /// The predicates the listing's optional filters induce, in order.
    pub open spec fn spec_clauses(&self) -> Seq<Seq<char>> {
        let id_part: Seq<Seq<char>> = match self.id {
            Some(id) => seq!["id = "@ + spec_sql_string(id@)],
            None => Seq::empty(),
        };
        let post_part: Seq<Seq<char>> = match self.post {
            Some(p) => seq!["post_id = "@ + dec_of(p as int)],
            None => Seq::empty(),
        };
        let dwn_part: Seq<Seq<char>> = match self.downloaded {
            Some(d) => seq![
                if d {
                    "path IS NOT NULL"@
                } else {
                    "path IS NULL"@
                },
            ],
            None => Seq::empty(),
        };
        id_part + post_part + dwn_part
    }

    /// The whole listing statement.
    pub open spec fn spec_sql(&self) -> Seq<char> {
        let clauses = self.spec_clauses();
        let where_part: Seq<char> = if clauses.len() > 0 {
            " WHERE "@ + spec_joined(clauses, " AND "@)
        } else {
            Seq::empty()
        };
        "SELECT id from fanbox_files"@ + where_part + " ORDER BY post_id ASC, idx ASC"@
    }

    /// Compose the listing statement from the filters.
    pub fn build_sql(&self) -> (r: String)
        ensures
            r@ == self.spec_sql(),
    {
        let mut wheres: Vec<String> = Vec::new();
        if let Some(id) = &self.id {
            let mut c = String::from_str("id = ");
            let q = sql_quote(id.as_str());
            c.append(q.as_str());
            wheres.push(c);
        }
        if let Some(p) = self.post {
            let mut c = String::from_str("post_id = ");
            let n = u64_to_dec(p);
            c.append(n.as_str());
            wheres.push(c);
        }
        if let Some(d) = self.downloaded {
            let c = if d {
                String::from_str("path IS NOT NULL")
            } else {
                String::from_str("path IS NULL")
            };
            wheres.push(c);
        }
        proof {
            assert(wheres@.map_values(|s: String| s@) =~= self.spec_clauses());
        }
        let mut sql = String::from_str("SELECT id from fanbox_files");
        if wheres.len() > 0 {
            sql.append(" WHERE ");
            let joined = join_all(&wheres, " AND ");
            sql.append(joined.as_str());
        }
        sql.append(" ORDER BY post_id ASC, idx ASC");
        proof {
            assert(sql@ =~= self.spec_sql());
        }
        sql
    }
}

/// The post-platform command.
#[derive(Debug, Clone)]
pub struct Fanbox {
    pub cmd: FanboxCmd,
}

/// What the post-platform command does.
#[derive(Debug, Clone)]
pub enum FanboxCmd {
    /// Synchronize a creator's posts.
    Sync(FanboxSyncArgs),
    /// Download a synced attachment.
    Download(FanboxDownloadArgs),
    /// List synced attachments.
    File(FanboxFileArgs),
}

/// The tool's top-level command.
#[derive(Debug, Clone)]
pub enum Command {
    /// Sync bookmarks into the store.
    Bookmarks(Bookmarks),
    /// Sync individual illustrations by id.
    Illust(Illust),
    /// Download an illustration's payloads by id.
    Download(crate::download::Download),
    /// Post-platform fetching.
    Fanbox(Fanbox),
    /// Query the local store.
    Query(crate::query::Query),
    /// Store management.
    Database(crate::database::Database),
}

} // verus!
