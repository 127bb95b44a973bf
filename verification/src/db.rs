//! Decision core of the store-reconciliation layer.
//!
//! The relational store itself is an outside collaborator; this module
//! computes, from the previously stored row and a freshly fetched entity,
//! which mutation the store should apply and how the outcome is classified.

use vstd::prelude::*;
use vstd::string::*;
use crate::pixiv::{
    IllustState, XRestrict, AIType, IllustType, Illust, IllustDataDetail, IllustBookmarkTags,
};
use crate::text::dec_of;

verus! {

/// Outcome of reconciling one fetched illustration against the store.
#[derive(Debug, Clone, Copy, PartialEq, Eq, Structural)]
pub enum IllustUpdateResult {
    /// No prior row existed; a new one is inserted.
    Inserted,
    /// A row existed and its bookmark ordering id differs from the fetched one.
    BookmarkIDChanged,
    /// A row existed and is updated in place.
    Updated,
    /// The visibility lattice rejected the transition; nothing is written.
    Skipped,
}

/// Outcome of reconciling one fetched post against the store.
#[derive(Debug, Clone, Copy, PartialEq, Eq, Structural)]
pub enum FanboxPostUpdateResult {
    Inserted,
    Updated,
    Skipped,
}

/// The visibility lattice: whether a stored state `prior` may be overwritten
/// by a fetched state `incoming`.
///
/// `Masked` accepts anything; `Unlisted` accepts everything but `Masked`;
/// `Normal` accepts only `Normal`. Once a work has been fully observed, a
/// later shallow observation must not erase the captured metadata, but a
/// fetch that restores full visibility always wins.
pub open spec fn update_allowed(prior: IllustState, incoming: IllustState) -> bool {
    match (prior, incoming) {
        (IllustState::Masked, _) => true,
        (IllustState::Unlisted, IllustState::Masked) => false,
        (IllustState::Unlisted, _) => true,
        (IllustState::Normal, IllustState::Normal) => true,
        (IllustState::Normal, _) => false,
    }
}

/// Executable form of the lattice test.
pub fn transition_allowed(prior: IllustState, incoming: IllustState) -> (r: bool)
    ensures
        r == update_allowed(prior, incoming),
{
    match (prior, incoming) {
        (IllustState::Masked, _) => true,
        (IllustState::Unlisted, IllustState::Masked) => false,
        (IllustState::Unlisted, _) => true,
        (IllustState::Normal, IllustState::Normal) => true,
        (IllustState::Normal, _) => false,
    }
}

/// Lattice monotonicity: for every pair of states the update is applied
/// exactly when the pair is not one of the three rejected transitions
/// (`Unlisted` to `Masked`, `Normal` to `Unlisted`, `Normal` to `Masked`).
pub proof fn lemma_lattice_monotonic(prior: IllustState, incoming: IllustState)
    ensures
        update_allowed(prior, incoming) <==> !((prior == IllustState::Unlisted
            && incoming == IllustState::Masked) || (prior == IllustState::Normal
            && incoming == IllustState::Unlisted) || (prior == IllustState::Normal
            && incoming == IllustState::Masked)),
{
}

/// What the store held for an illustration before the update.
#[derive(Debug, Clone, PartialEq, Eq, Structural)]
pub struct PriorIllustRow {
    /// The stored bookmark ordering id, if the row had one.
    pub bookmark_id: Option<u64>,
    /// The stored visibility state.
    pub state: IllustState,
}

/// Classify the mutation for one fetched illustration.
///
/// With no prior row the illustration is inserted. Otherwise the lattice
/// decides whether the incoming state may overwrite the stored one; a
/// rejected transition is `Skipped` and writes nothing. An accepted update
/// whose bookmark ordering id differs from the stored one is reported as
/// `BookmarkIDChanged`, the termination signal for incremental bookmark
/// sync; otherwise the update is a plain `Updated`.
pub fn decide_illust_update(
    prior: &Option<PriorIllustRow>,
    incoming_state: IllustState,
    incoming_bookmark_id: Option<u64>,
) -> (r: IllustUpdateResult)
    ensures
        prior is None ==> r == IllustUpdateResult::Inserted,
        prior matches Some(p) && !update_allowed(p.state, incoming_state) ==> r
            == IllustUpdateResult::Skipped,
        prior matches Some(p) && update_allowed(p.state, incoming_state) && p.bookmark_id
            != incoming_bookmark_id ==> r == IllustUpdateResult::BookmarkIDChanged,
        prior matches Some(p) && update_allowed(p.state, incoming_state) && p.bookmark_id
            == incoming_bookmark_id ==> r == IllustUpdateResult::Updated,
{
    match prior {
        None => IllustUpdateResult::Inserted,
        Some(p) => {
            if !transition_allowed(p.state, incoming_state) {
                IllustUpdateResult::Skipped
            } else if !bookmark_ids_equal(&p.bookmark_id, &incoming_bookmark_id) {
                IllustUpdateResult::BookmarkIDChanged
            } else {
                IllustUpdateResult::Updated
            }
        },
    }
}

fn bookmark_ids_equal(a: &Option<u64>, b: &Option<u64>) -> (r: bool)
    ensures
        r == (a == b),
{
    match (a, b) {
        (None, None) => true,
        (Some(x), Some(y)) => x == y,
        _ => false,
    }
}

/// The tag-association set after one sync pass for one illustration: every
/// fetched tag is inserted (inserting a present one changes nothing), then
/// every association whose tag is outside the fetched set is deleted.
pub open spec fn spec_tag_sync(assocs: Set<u64>, fetched: Set<u64>) -> Set<u64> {
    assocs.union(fetched).difference(assocs.union(fetched).difference(fetched))
}

/// One sync pass lands exactly on the fetched set, whatever was associated
/// before.
pub proof fn lemma_tag_sync_exact(assocs: Set<u64>, fetched: Set<u64>)
    ensures
        spec_tag_sync(assocs, fetched) == fetched,
{
    assert(spec_tag_sync(assocs, fetched) =~= fetched);
}

/// Tag-diff convergence: applying tag set `a` and then tag set `b` to the
/// same illustration leaves exactly the associations of `b`, regardless of
/// `a` and of what was associated at the start.
pub proof fn lemma_tag_sync_converges(assocs: Set<u64>, a: Set<u64>, b: Set<u64>)
    ensures
        spec_tag_sync(spec_tag_sync(assocs, a), b) == b,
{
    lemma_tag_sync_exact(assocs, a);
    lemma_tag_sync_exact(a, b);
}

/// The JSON list of the ids in `s`, without the brackets.
pub open spec fn spec_json_u64_items(s: Seq<u64>) -> Seq<char>
    decreases s.len(),
{
    if s.len() == 0 {
        Seq::empty()
    } else if s.len() == 1 {
        dec_of(s[0] as int)
    } else {
        spec_json_u64_items(s.drop_last()) + seq![','] + dec_of(s.last() as int)
    }
}

/// The JSON array of the ids in `s`.
pub open spec fn spec_json_u64_array(s: Seq<u64>) -> Seq<char> {
    seq!['['] + spec_json_u64_items(s) + seq![']']
}

/// Render a tag-id list as the JSON array the bulk delete's `NOT IN`
/// subquery is fed.
pub fn json_u64_array(ids: &Vec<u64>) -> (r: String)
    ensures
        r@ == spec_json_u64_array(ids@),
{
    proof {
        reveal_strlit("[");
        reveal_strlit("]");
        reveal_strlit(",");
        assert("["@ =~= seq!['[']);
        assert("]"@ =~= seq![']']);
        assert(","@ =~= seq![',']);
    }
    let mut out = String::from_str("[");
    let mut i: usize = 0;
    while i < ids.len()
        invariant
            0 <= i <= ids@.len(),
            out@ == seq!['['] + spec_json_u64_items(ids@.subrange(0, i as int)),
        decreases ids@.len() - i,
    {
        if i > 0 {
            out.append(",");
        }
        let n = crate::text::u64_to_dec(ids[i]);
        out.append(n.as_str());
        proof {
            reveal_strlit(",");
            let prefix = ids@.subrange(0, i as int);
            let next = ids@.subrange(0, i as int + 1);
            assert(next.drop_last() =~= prefix);
            assert(next.last() == ids@[i as int]);
            if i == 0 {
                assert(next[0] == ids@[0]);
                assert(spec_json_u64_items(next) == dec_of(ids@[0] as int));
            } else {
                assert(next.len() >= 2);
                assert(spec_json_u64_items(next) == spec_json_u64_items(prefix) + seq![',']
                    + dec_of(ids@[i as int] as int));
            }
            assert(out@ =~= seq!['['] + spec_json_u64_items(next));
        }
        i = i + 1;
    }
    out.append("]");
    proof {
        assert(ids@.subrange(0, ids@.len() as int) =~= ids@);
        assert(out@ =~= spec_json_u64_array(ids@));
    }
    out
}

/// The author-row upsert an update carries when content metadata was
/// fetched: the author row is written first so the illustration row's
/// foreign key holds.
#[derive(Debug, Clone)]
pub struct AuthorWrite {
    pub id: u64,
    pub name: String,
    /// Written only when the fetch carried an account handle.
    pub account: Option<String>,
}

/// The illustration-row fields one upsert writes. `None` fields are stored
/// as nulls: a shallow (unlisted or masked) fetch carries no metadata.
#[derive(Debug, Clone)]
pub struct IllustRowWrite {
    pub id: u64,
    pub title: Option<String>,
    pub author_id: Option<u64>,
    pub create_date: Option<i64>,
    pub update_date: Option<i64>,
    pub x_restrict: Option<XRestrict>,
    pub ai_type: Option<AIType>,
    pub state: IllustState,
    pub bookmark_id: Option<u64>,
    pub bookmark_private: Option<bool>,
    pub illust_type: Option<IllustType>,
    pub page_count: Option<u64>,
    /// Insert a fresh row rather than updating the existing one.
    pub insert: bool,
}

/// Everything one illustration upsert tells the store to do, computed
/// before any mutation is issued.
#[derive(Debug, Clone)]
pub struct IllustUpdatePlan {
    /// How the upsert is classified for the caller.
    pub result: IllustUpdateResult,
    /// Advance the attempted-fetch timestamp on the existing row. An insert
    /// carries its own; a skipped update still records the attempt.
    pub touch_last_fetch: bool,
    /// The author row to upsert first, when metadata was fetched.
    pub author: Option<AuthorWrite>,
    /// The row write, absent exactly when the lattice skipped the update.
    pub row: Option<IllustRowWrite>,
    /// Copy the attempted-fetch timestamp into the last-successful-fetch
    /// marker: only a fully visible fetch counts as success.
    pub advance_successful_fetch: bool,
    /// The detail fields to write, when the fetch carried them.
    pub detail: Option<IllustDataDetail>,
    /// Sync the content-tag associations to the fetched tag names.
    pub content_tags: Option<Vec<String>>,
    /// Sync the bookmark-tag associations to these known bookmark tags.
    pub bookmark_tags: Option<Vec<String>>,
}

/// Compute the whole store mutation for one fetched illustration against
/// the prior row, in one place. The store executes the plan inside one
/// transaction.
pub fn plan_illust_update(prior: &Option<PriorIllustRow>, illust: &Illust) -> (p: IllustUpdatePlan)
    ensures
        p.result == ({
            match prior {
                None => IllustUpdateResult::Inserted,
                Some(pr) => if !update_allowed(pr.state, illust.state) {
                    IllustUpdateResult::Skipped
                } else if pr.bookmark_id != spec_bookmark_id(*illust) {
                    IllustUpdateResult::BookmarkIDChanged
                } else {
                    IllustUpdateResult::Updated
                },
            }
        }),
        p.touch_last_fetch == (prior is Some),
        p.result == IllustUpdateResult::Skipped ==> p.row is None && p.author is None && p.detail
            is None && p.content_tags is None && p.bookmark_tags is None
            && !p.advance_successful_fetch,
        p.result != IllustUpdateResult::Skipped ==> {
            &&& (p.row matches Some(row) && row_matches(*illust, row, prior is None))
            &&& p.advance_successful_fetch == (illust.state == IllustState::Normal)
            &&& author_write_matches(*illust, p.author)
            &&& detail_matches(*illust, p.detail)
            &&& (match p.content_tags {
                Some(ts) => illust.data.spec_simple() matches Some(d) && ts@.map_values(
                    |s: String| s@,
                ) == d.tags.spec_names(),
                None => illust.data.spec_simple() is None,
            })
            &&& (match (p.bookmark_tags, spec_known_bookmark_tags(*illust)) {
                (Some(ts), Some(known)) => ts.deep_view() == known.deep_view(),
                (None, None) => true,
                _ => false,
            })
        },
{
    let result = decide_illust_update(
        prior,
        illust.state,
        match &illust.bookmark {
            Some(b) => Some(b.id),
            None => None,
        },
    );
    let touch_last_fetch = prior.is_some();
    if result == IllustUpdateResult::Skipped {
        return IllustUpdatePlan {
            result,
            touch_last_fetch,
            author: None,
            row: None,
            advance_successful_fetch: false,
            detail: None,
            content_tags: None,
            bookmark_tags: None,
        };
    }
    let simple = illust.data.as_simple();
    let author = match simple {
        Some(d) => Some(
            AuthorWrite { id: d.author.id, name: d.author.name.clone(), account: d.author.account.clone() },
        ),
        None => None,
    };
    let row = IllustRowWrite {
        id: illust.id,
        title: match simple {
            Some(d) => Some(d.title.clone()),
            None => None,
        },
        author_id: match simple {
            Some(d) => Some(d.author.id),
            None => None,
        },
        create_date: match simple {
            Some(d) => Some(d.create_date),
            None => None,
        },
        update_date: match simple {
            Some(d) => Some(d.update_date),
            None => None,
        },
        x_restrict: match simple {
            Some(d) => Some(d.x_restrict),
            None => None,
        },
        ai_type: match simple {
            Some(d) => Some(d.ai_type),
            None => None,
        },
        state: illust.state,
        bookmark_id: match &illust.bookmark {
            Some(b) => Some(b.id),
            None => None,
        },
        bookmark_private: match &illust.bookmark {
            Some(b) => Some(b.private),
            None => None,
        },
        illust_type: match simple {
            Some(d) => Some(d.illust_type),
            None => None,
        },
        page_count: match simple {
            Some(d) => Some(d.page_count),
            None => None,
        },
        insert: prior.is_none(),
    };
    let content_tags = match simple {
        Some(d) => Some(d.tags.tag_names()),
        None => None,
    };
    let detail = match illust.data.as_detail() {
        Some(e) => Some(
            IllustDataDetail {
                desc: e.desc.clone(),
                is_howto: e.is_howto,
                is_original: e.is_original,
            },
        ),
        None => None,
    };
    let bookmark_tags = match &illust.bookmark {
        Some(b) => match &b.tags {
            IllustBookmarkTags::Known(ts) => Some(ts.clone()),
            IllustBookmarkTags::Unknown => None,
        },
        None => None,
    };
    IllustUpdatePlan {
        result,
        touch_last_fetch,
        author,
        row: Some(row),
        advance_successful_fetch: matches!(illust.state, IllustState::Normal),
        detail,
        content_tags,
        bookmark_tags,
    }
}

/// The bookmark ordering id an illustration carries, if it is bookmarked.
pub open spec fn spec_bookmark_id(illust: Illust) -> Option<u64> {
    match illust.bookmark {
        Some(b) => Some(b.id),
        None => None,
    }
}

/// The bookmark tags an illustration carries, when they are known.
pub open spec fn spec_known_bookmark_tags(illust: Illust) -> Option<Vec<String>> {
    match illust.bookmark {
        Some(b) => match b.tags {
            IllustBookmarkTags::Known(ts) => Some(ts),
            IllustBookmarkTags::Unknown => None,
        },
        None => None,
    }
}

/// Classify the mutation for one fetched post against the stored row's
/// update timestamp.
///
/// With no prior row the post is inserted. An existing row is updated only
/// when the fetched update timestamp is strictly newer; an unchanged
/// timestamp, or one that went backwards, skips the write so the stored
/// data is never replaced by an equally old or older observation.
pub fn decide_fanbox_post_update(prior_updated: &Option<i64>, updated: i64) -> (r:
    FanboxPostUpdateResult)
    ensures
        prior_updated is None ==> r == FanboxPostUpdateResult::Inserted,
        prior_updated matches Some(p) && p >= updated ==> r == FanboxPostUpdateResult::Skipped,
        prior_updated matches Some(p) && p < updated ==> r == FanboxPostUpdateResult::Updated,
{
    match prior_updated {
        None => FanboxPostUpdateResult::Inserted,
        Some(p) => if *p >= updated {
            FanboxPostUpdateResult::Skipped
        } else {
            FanboxPostUpdateResult::Updated
        },
    }
}

/// What the store holds about a post's file, queried by its id, enough to
/// download it.
#[derive(Debug, Clone)]
pub struct FanboxFileDownloadSpec {
    pub url: String,
    pub name: String,
    pub post_id: String,
    pub ext: String,
    pub idx: i64,
}

/// What the store holds about a post's image, queried by its id, enough to
/// download it.
#[derive(Debug, Clone)]
pub struct FanboxImageDownloadSpec {
    pub url: String,
    pub post_id: String,
    pub ext: String,
    pub idx: i64,
}

/// Optional strings equal by contents.
pub open spec fn opt_string_eq(a: Option<String>, b: Option<String>) -> bool {
    match (a, b) {
        (Some(x), Some(y)) => x@ == y@,
        (None, None) => true,
        _ => false,
    }
}

/// Whether the plan's author write carries exactly the fetched author, and
/// is present exactly when metadata was fetched.
pub open spec fn author_write_matches(illust: Illust, a: Option<AuthorWrite>) -> bool {
    match illust.data.spec_simple() {
        Some(d) => a matches Some(aw) && aw.id == d.author.id && aw.name@ == d.author.name@
            && opt_string_eq(aw.account, d.author.account),
        None => a is None,
    }
}

/// Whether the plan's detail write carries exactly the fetched detail
/// fields, and is present exactly when the fetch carried them.
pub open spec fn detail_matches(illust: Illust, e: Option<IllustDataDetail>) -> bool {
    match illust.data.spec_detail() {
        Some(d) => e matches Some(x) && x.desc@ == d.desc@ && x.is_howto == d.is_howto
            && x.is_original == d.is_original,
        None => e is None,
    }
}

/// Whether a row write carries exactly the illustration's fields: fetched
/// metadata where it exists, nulls where the fetch was shallow.
pub open spec fn row_matches(illust: Illust, row: IllustRowWrite, insert: bool) -> bool {
    &&& row.id == illust.id
    &&& row.state == illust.state
    &&& row.insert == insert
    &&& row.bookmark_id == spec_bookmark_id(illust)
    &&& (match illust.bookmark {
        Some(b) => row.bookmark_private == Some(b.private),
        None => row.bookmark_private is None,
    })
    &&& (match illust.data.spec_simple() {
        Some(d) => {
            &&& opt_string_eq(row.title, Some(d.title))
            &&& row.author_id == Some(d.author.id)
            &&& row.create_date == Some(d.create_date)
            &&& row.update_date == Some(d.update_date)
            &&& row.x_restrict == Some(d.x_restrict)
            &&& row.ai_type == Some(d.ai_type)
            &&& row.illust_type == Some(d.illust_type)
            &&& row.page_count == Some(d.page_count)
        },
        None => {
            &&& row.title is None
            &&& row.author_id is None
            &&& row.create_date is None
            &&& row.update_date is None
            &&& row.x_restrict is None
            &&& row.ai_type is None
            &&& row.illust_type is None
            &&& row.page_count is None
        },
    })
}

} // verus!
