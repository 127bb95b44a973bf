//! Decisions of the incremental sync loops: when a feed item is processed,
//! skipped or ends the pass, how failed fetches are retried, and how the
//! bookmark feed paginates.

use vstd::prelude::*;
use crate::util::TerminationCondition;

verus! {

/// The retry ladder of one post fetch: how many attempts were already made
/// and the next backoff wait, if backoff is configured.
#[derive(Debug, Clone, Copy, PartialEq, Eq, Structural)]
pub struct RetryState {
    pub tries: u64,
    pub backoff_ms: Option<u64>,
}

impl RetryState {
    /// Where a retry ladder starts: no attempt made yet, the configured
    /// initial backoff.
    pub fn start(backoff_ms: Option<u64>) -> (r: RetryState)
        ensures
            r.tries == 0 && r.backoff_ms == backoff_ms,
    {
        RetryState { tries: 0, backoff_ms }
    }
}

/// What to do after one failed fetch.
#[derive(Debug, Clone, Copy, PartialEq, Eq, Structural)]
pub enum FetchFailureAction {
    /// Retries are exhausted and failures abort the whole pass.
    Abort,
    /// Retries are exhausted but failures only skip the item.
    SkipItem,
    /// Try again after waiting `wait_ms`, continuing at `next`.
    RetryAfter { wait_ms: u64, next: RetryState },
}

/// Decide what a failed fetch leads to: with attempts left, a retry after
/// the current backoff (none configured means an immediate retry), the
/// backoff doubling (saturating) for the next failure; with retries
/// exhausted, the item is skipped or the pass aborted per `skip_failed`.
pub fn on_fetch_failure(retries: u64, skip_failed: bool, st: &RetryState) -> (r:
    FetchFailureAction)
    ensures
        st.tries >= retries && skip_failed ==> r == FetchFailureAction::SkipItem,
        st.tries >= retries && !skip_failed ==> r == FetchFailureAction::Abort,
        st.tries < retries ==> (r matches FetchFailureAction::RetryAfter { wait_ms, next } && {
            &&& wait_ms == (match st.backoff_ms {
                Some(b) => b,
                None => 0u64,
            })
            &&& next.tries == st.tries + 1
            &&& next.backoff_ms == (match st.backoff_ms {
                Some(b) => Some(
                    if b <= u64::MAX / 2 {
                        (2 * b) as u64
                    } else {
                        u64::MAX
                    },
                ),
                None => None::<u64>,
            })
        }),
{
    if st.tries >= retries {
        if skip_failed {
            FetchFailureAction::SkipItem
        } else {
            FetchFailureAction::Abort
        }
    } else {
        let (wait_ms, next_backoff) = match st.backoff_ms {
            Some(b) => (
                b,
                Some(
                    if b <= u64::MAX / 2 {
                        2 * b
                    } else {
                        u64::MAX
                    },
                ),
            ),
            None => (0u64, None),
        };
        FetchFailureAction::RetryAfter {
            wait_ms,
            next: RetryState { tries: st.tries + 1, backoff_ms: next_backoff },
        }
    }
}

/// Whether a fetched post carries anything newer than the stored row.
pub fn post_needs_update(stored_updated: &Option<i64>, fetched_updated: i64) -> (r: bool)
    ensures
        r == (match stored_updated {
            None => true,
            Some(s) => s < fetched_updated,
        }),
{
    match stored_updated {
        None => true,
        Some(s) => *s < fetched_updated,
    }
}

/// How the sync pass treats one feed item.
#[derive(Debug, Clone, Copy, PartialEq, Eq, Structural)]
pub enum SyncItemDisposition {
    /// The item is new or newer: fetch and store it.
    Process,
    /// Already seen and unchanged: skip it, keep paginating.
    SkipContinue,
    /// Already seen and unchanged on a newest-first feed with on-hit
    /// termination: the rest of the feed was already seen, stop the pass.
    SkipTerminate,
}

/// Decide one feed item's fate from its stored and fetched update
/// timestamps and the pass's termination condition.
pub fn sync_item_disposition(
    termination: TerminationCondition,
    stored_updated: &Option<i64>,
    fetched_updated: i64,
) -> (r: SyncItemDisposition)
    ensures
        (match stored_updated {
            None => true,
            Some(s) => s < fetched_updated,
        }) ==> r == SyncItemDisposition::Process,
        (stored_updated matches Some(s) && s >= fetched_updated) ==> r == (
        if termination == TerminationCondition::OnHit {
            SyncItemDisposition::SkipTerminate
        } else {
            SyncItemDisposition::SkipContinue
        }),
{
    if post_needs_update(stored_updated, fetched_updated) {
        SyncItemDisposition::Process
    } else {
        match termination {
            TerminationCondition::OnHit => SyncItemDisposition::SkipTerminate,
            TerminationCondition::UntilEnd => SyncItemDisposition::SkipContinue,
        }
    }
}

/// One pagination step of the bookmark feed.
#[derive(Debug, Clone, Copy, PartialEq, Eq, Structural)]
pub struct PageStep {
    pub next_offset: usize,
    pub done: bool,
}

/// Advance the bookmark feed: the offset moves past the batch, and the pass
/// is done once the reported total is reached or a page came back empty.
pub fn bookmarks_page_step(offset: usize, total: usize, batch_size: usize) -> (r: PageStep)
    requires
        offset + batch_size <= usize::MAX,
    ensures
        r.next_offset == offset + batch_size,
        r.done == (offset + batch_size >= total || batch_size == 0),
{
    let next_offset = offset + batch_size;
    PageStep { next_offset, done: next_offset >= total || batch_size == 0 }
}

/// Whether the bookmark pass stops after one stored item: an unchanged
/// bookmark id (a plain update, or a skipped shallow observation) under
/// on-hit termination means the rest of the ordered feed was already seen;
/// a configured maximum of processed items also ends the pass.
pub fn bookmarks_should_stop(
    result: crate::db::IllustUpdateResult,
    termination: TerminationCondition,
    processed: u64,
    max_cnt: &Option<u64>,
) -> (r: bool)
    ensures
        r == ((termination == TerminationCondition::OnHit && (result
            == crate::db::IllustUpdateResult::Updated || result
            == crate::db::IllustUpdateResult::Skipped)) || (max_cnt matches Some(m) && processed
            >= *m)),
{
    let hit = termination == TerminationCondition::OnHit && (result
        == crate::db::IllustUpdateResult::Updated || result
        == crate::db::IllustUpdateResult::Skipped);
    let capped = match max_cnt {
        Some(m) => processed >= *m,
        None => false,
    };
    hit || capped
}

} // verus!
