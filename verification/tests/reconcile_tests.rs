//! The persist-and-reconcile engine on concrete downloads.

use pixivdwn::reconcile::{
    reconcile, finish_persist, unchanged_outcome, OverwritePolicy, Disposition, FileOp,
    ReconcileDecision, PersistOutcome, ReconcileError,
};

fn digest_a() -> Vec<u8> {
    vec![0xde, 0xad, 0xbe, 0xef]
}

fn digest_b() -> Vec<u8> {
    vec![0xca, 0xfe, 0xba, 0xbe]
}

#[test]
fn free_policy_just_persists() {
    let d = digest_a();
    let r = reconcile(&OverwritePolicy::Free, &None, &d, false);
    assert_eq!(
        r,
        ReconcileDecision::Persist { op: FileOp::Nothing, disposition: Disposition::Stale }
    );
}

#[test]
fn compare_identical_bytes_is_unchanged() {
    let old = Some(digest_a());
    let new = digest_a();
    let policy = OverwritePolicy::Compare { old_path: "/data/img/1_p0.png".to_string() };
    let r = reconcile(&policy, &old, &new, true);
    assert_eq!(r, ReconcileDecision::Unchanged);
    // the same download again: still no filesystem write, same report
    let r2 = reconcile(&policy, &old, &new, true);
    assert_eq!(r2, ReconcileDecision::Unchanged);
    let out = unchanged_outcome(12345);
    assert_eq!(out, PersistOutcome::Unchanged { size: 12345 });
}

#[test]
fn compare_changed_bytes_same_location_moves_aside() {
    let old = Some(digest_a());
    let new = digest_b();
    let policy = OverwritePolicy::Compare { old_path: "/data/img/1_p0.png".to_string() };
    let r = reconcile(&policy, &old, &new, true);
    match r {
        ReconcileDecision::Persist { op: FileOp::MoveAside { from, to }, disposition } => {
            assert_eq!(from, "/data/img/1_p0.png");
            assert_eq!(to, "/data/img/1_p0.deadbeef.png");
            assert_eq!(disposition, Disposition::Moved("/data/img/1_p0.deadbeef.png".to_string()));
        }
        other => panic!("expected a move-aside, got {:?}", other),
    }
}

#[test]
fn compare_changed_bytes_elsewhere_is_stale() {
    let old = Some(digest_a());
    let new = digest_b();
    let policy = OverwritePolicy::Compare { old_path: "/elsewhere/1_p0.png".to_string() };
    let r = reconcile(&policy, &old, &new, false);
    assert_eq!(
        r,
        ReconcileDecision::Persist { op: FileOp::Nothing, disposition: Disposition::Stale }
    );
}

#[test]
fn overwrite_without_old_deletes_target_as_stale() {
    let d = digest_a();
    let r = reconcile(&OverwritePolicy::Overwrite { old_path: None }, &None, &d, false);
    assert_eq!(
        r,
        ReconcileDecision::Persist { op: FileOp::DeleteTarget, disposition: Disposition::Stale }
    );
}

#[test]
fn overwrite_with_old_at_target_is_overwritten() {
    let d = digest_a();
    let policy = OverwritePolicy::Overwrite { old_path: Some("/data/img/1_p0.png".to_string()) };
    let r = reconcile(&policy, &None, &d, true);
    assert_eq!(
        r,
        ReconcileDecision::Persist {
            op: FileOp::DeleteTarget,
            disposition: Disposition::Overwritten
        }
    );
}

#[test]
fn overwrite_with_old_elsewhere_touches_nothing() {
    // the old path does not canonicalize to the target: no deletion, the
    // old file stays, the record is merely stale
    let d = digest_a();
    let policy = OverwritePolicy::Overwrite { old_path: Some("/other/place.png".to_string()) };
    let r = reconcile(&policy, &None, &d, false);
    assert_eq!(
        r,
        ReconcileDecision::Persist { op: FileOp::Nothing, disposition: Disposition::Stale }
    );
}

#[test]
fn occupied_target_is_a_collision() {
    let r = finish_persist(
        true,
        "/data/img/1_p0.png".to_string(),
        "1_p0.png".to_string(),
        7,
        Disposition::Stale,
    );
    assert_eq!(r, Err(ReconcileError::TargetCollision));
}

#[test]
fn free_target_is_written() {
    let r = finish_persist(
        false,
        "/data/img/1_p0.png".to_string(),
        "1_p0.png".to_string(),
        7,
        Disposition::Stale,
    );
    assert_eq!(
        r,
        Ok(PersistOutcome::Written {
            final_path: "/data/img/1_p0.png".to_string(),
            encoded_path: "1_p0.png".to_string(),
            size: 7,
            disposition: Disposition::Stale,
        })
    );
}

#[test]
fn consecutive_content_changes_get_distinct_aside_names() {
    // two content changes to the same logical path: the moved-aside names
    // carry the old contents' digests and differ
    let policy = OverwritePolicy::Compare { old_path: "/data/img/9.png".to_string() };
    let first = reconcile(&policy, &Some(digest_a()), &digest_b(), true);
    let second = reconcile(&policy, &Some(digest_b()), &digest_a(), true);
    let to1 = match first {
        ReconcileDecision::Persist { op: FileOp::MoveAside { to, .. }, .. } => to,
        other => panic!("expected a move-aside, got {:?}", other),
    };
    let to2 = match second {
        ReconcileDecision::Persist { op: FileOp::MoveAside { to, .. }, .. } => to,
        other => panic!("expected a move-aside, got {:?}", other),
    };
    assert_ne!(to1, to2);
    assert_eq!(to1, "/data/img/9.deadbeef.png");
    assert_eq!(to2, "/data/img/9.cafebabe.png");
}
