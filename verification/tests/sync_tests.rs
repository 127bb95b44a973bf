//! The sync-loop decisions: retries, termination, pagination, and the
//! download command's checks.

use pixivdwn::sync::{
    RetryState, FetchFailureAction, on_fetch_failure, post_needs_update, sync_item_disposition,
    SyncItemDisposition, bookmarks_page_step, bookmarks_should_stop,
};
use pixivdwn::util::TerminationCondition;
use pixivdwn::db::IllustUpdateResult;
use pixivdwn::download::{
    Download, DownloadType, induced_download_type, should_skip_page, page_filename_ok,
    ugoira_filename_ok,
};
use pixivdwn::database::{FileCanonicalizeArgs, AdjustError};
use pixivdwn::pixiv::IllustType;
use pixivdwn::util::DatabasePathFormat;

#[test]
fn retry_ladder_doubles_backoff_and_exhausts() {
    let st = RetryState::start(Some(100));
    match on_fetch_failure(2, false, &st) {
        FetchFailureAction::RetryAfter { wait_ms, next } => {
            assert_eq!(wait_ms, 100);
            assert_eq!(next.tries, 1);
            assert_eq!(next.backoff_ms, Some(200));
            match on_fetch_failure(2, false, &next) {
                FetchFailureAction::RetryAfter { wait_ms, next } => {
                    assert_eq!(wait_ms, 200);
                    assert_eq!(next.tries, 2);
                    assert_eq!(next.backoff_ms, Some(400));
                    // retries exhausted: abort or skip per policy
                    assert_eq!(on_fetch_failure(2, false, &next), FetchFailureAction::Abort);
                    assert_eq!(on_fetch_failure(2, true, &next), FetchFailureAction::SkipItem);
                }
                other => panic!("expected a retry, got {:?}", other),
            }
        }
        other => panic!("expected a retry, got {:?}", other),
    }
}

#[test]
fn retry_without_backoff_is_immediate() {
    let st = RetryState::start(None);
    match on_fetch_failure(1, false, &st) {
        FetchFailureAction::RetryAfter { wait_ms, next } => {
            assert_eq!(wait_ms, 0);
            assert_eq!(next.backoff_ms, None);
        }
        other => panic!("expected a retry, got {:?}", other),
    }
}

#[test]
fn feed_item_dispositions() {
    assert!(post_needs_update(&None, 5));
    assert!(post_needs_update(&Some(4), 5));
    assert!(!post_needs_update(&Some(5), 5));
    assert_eq!(
        sync_item_disposition(TerminationCondition::OnHit, &None, 5),
        SyncItemDisposition::Process
    );
    assert_eq!(
        sync_item_disposition(TerminationCondition::OnHit, &Some(5), 5),
        SyncItemDisposition::SkipTerminate
    );
    assert_eq!(
        sync_item_disposition(TerminationCondition::UntilEnd, &Some(6), 5),
        SyncItemDisposition::SkipContinue
    );
}

#[test]
fn bookmark_feed_pagination() {
    let step = bookmarks_page_step(0, 100, 48);
    assert_eq!(step.next_offset, 48);
    assert!(!step.done);
    let step = bookmarks_page_step(96, 100, 48);
    assert_eq!(step.next_offset, 144);
    assert!(step.done);
    // an empty page ends the pass even before the total
    let step = bookmarks_page_step(10, 100, 0);
    assert!(step.done);
}

#[test]
fn bookmark_pass_termination() {
    let on_hit = TerminationCondition::OnHit;
    let until_end = TerminationCondition::UntilEnd;
    assert!(bookmarks_should_stop(IllustUpdateResult::Updated, on_hit, 1, &None));
    assert!(bookmarks_should_stop(IllustUpdateResult::Skipped, on_hit, 1, &None));
    assert!(!bookmarks_should_stop(IllustUpdateResult::Inserted, on_hit, 1, &None));
    assert!(!bookmarks_should_stop(IllustUpdateResult::BookmarkIDChanged, on_hit, 1, &None));
    assert!(!bookmarks_should_stop(IllustUpdateResult::Updated, until_end, 1, &None));
    assert!(bookmarks_should_stop(IllustUpdateResult::Inserted, until_end, 10, &Some(10)));
}

#[test]
fn download_type_induction_and_override() {
    assert_eq!(induced_download_type(IllustType::Ugoira), DownloadType::Ugoira);
    assert_eq!(induced_download_type(IllustType::Manga), DownloadType::Image);
    let d = Download {
        ids: vec![1],
        dry_run: false,
        mkdir: false,
        base_dir: "images".to_string(),
        database_path_format: DatabasePathFormat::Absolute,
        download_type: Some(DownloadType::Ugoira),
        progress: false,
        force_redownload: false,
    };
    assert_eq!(d.effective_download_type(DownloadType::Image), DownloadType::Ugoira);
}

#[test]
fn page_skipping() {
    let existing = vec![0usize, 2];
    assert!(should_skip_page(false, &existing, 0));
    assert!(!should_skip_page(false, &existing, 1));
    assert!(!should_skip_page(true, &existing, 0));
}

#[test]
fn filename_sanity_checks() {
    assert!(page_filename_ok("42_p0.png", 42, 0));
    assert!(page_filename_ok("42_ugoira1.jpg", 42, 1));
    assert!(!page_filename_ok("43_p0.png", 42, 0));
    assert!(!page_filename_ok("42_p1.png", 42, 0));
    assert!(ugoira_filename_ok("42_ugoira600x600.zip", 42));
    assert!(!ugoira_filename_ok("42_ugoira600x600.gif", 42));
    assert!(!ugoira_filename_ok("43_ugoira.zip", 42));
}

#[test]
fn canonicalize_adjustment_plans() {
    let args = FileCanonicalizeArgs {
        format: DatabasePathFormat::Inline,
        skip_pixiv: false,
        skip_fanbox_images: false,
        skip_fanbox_files: false,
        skip_db: false,
        skip_file: false,
        dry_run: false,
        overwrite: false,
        base_dir_old: None,
        fanbox_base_dir_old: None,
    };
    // the file already sits at its target: nothing to move
    let plan = args
        .plan_adjust("/new/img.png", "/new", "img.png", "/new/img.png", false)
        .unwrap();
    assert!(!plan.do_move);
    assert_eq!(plan.written_path, "img.png");
    // elsewhere: moved, unless something already sits at the target
    let plan = args
        .plan_adjust("/old/img.png", "/new", "img.png", "/new/img.png", false)
        .unwrap();
    assert!(plan.do_move);
    assert_eq!(plan.target_path, "/new/img.png");
    assert_eq!(
        args.plan_adjust("/old/img.png", "/new", "img.png", "/new/img.png", true),
        Err(AdjustError::TargetExists)
    );
    // a dry run checks but never moves
    let dry = FileCanonicalizeArgs { dry_run: true, ..args };
    let plan = dry
        .plan_adjust("/old/img.png", "/new", "img.png", "/new/img.png", true)
        .unwrap();
    assert!(!plan.do_move);
}
