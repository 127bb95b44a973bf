//! The visibility lattice, the upsert classification, and the tag-sync
//! helpers on concrete values.

use pixivdwn::db::{
    transition_allowed, decide_illust_update, decide_fanbox_post_update, plan_illust_update,
    json_u64_array, IllustUpdateResult, FanboxPostUpdateResult, PriorIllustRow,
};
use pixivdwn::pixiv::{
    IllustState, IllustData, IllustDataSimple, IllustBookmarkState, IllustBookmarkTags, Illust,
    Illustrator, Tags, XRestrict, AIType, IllustType,
};

#[test]
fn lattice_all_nine_pairs() {
    // the rejected transitions are exactly (Unlisted, Masked),
    // (Normal, Unlisted) and (Normal, Masked)
    let cases = [
        (IllustState::Normal, IllustState::Normal, true),
        (IllustState::Normal, IllustState::Unlisted, false),
        (IllustState::Normal, IllustState::Masked, false),
        (IllustState::Unlisted, IllustState::Normal, true),
        (IllustState::Unlisted, IllustState::Unlisted, true),
        (IllustState::Unlisted, IllustState::Masked, false),
        (IllustState::Masked, IllustState::Normal, true),
        (IllustState::Masked, IllustState::Unlisted, true),
        (IllustState::Masked, IllustState::Masked, true),
    ];
    for (prior, incoming, allowed) in cases {
        assert_eq!(transition_allowed(prior, incoming), allowed, "{:?} -> {:?}", prior, incoming);
    }
}

fn normal_illust(id: u64, bookmark_id: u64, update_date: i64) -> Illust {
    Illust {
        id,
        data: IllustData::Simple(IllustDataSimple {
            title: "a work".to_string(),
            tags: Tags::Brief(vec!["scenery".to_string()]),
            author: Illustrator { id: 7, name: "someone".to_string(), account: None },
            create_date: 1_600_000_000_000,
            update_date,
            x_restrict: XRestrict::Public,
            ai_type: AIType::NonAI,
            illust_type: IllustType::Illustration,
            page_count: 1,
        }),
        state: IllustState::Normal,
        bookmark: Some(IllustBookmarkState {
            id: bookmark_id,
            private: false,
            tags: IllustBookmarkTags::Unknown,
        }),
    }
}

#[test]
fn upsert_scenario_insert_then_update() {
    // no prior row: inserted
    let r = decide_illust_update(&None, IllustState::Normal, Some(100));
    assert_eq!(r, IllustUpdateResult::Inserted);

    // re-run with a later update date and the same bookmark id: updated
    let prior = Some(PriorIllustRow { bookmark_id: Some(100), state: IllustState::Normal });
    let r = decide_illust_update(&prior, IllustState::Normal, Some(100));
    assert_eq!(r, IllustUpdateResult::Updated);

    // re-run with an unchanged update date: still reported as an update
    let r = decide_illust_update(&prior, IllustState::Normal, Some(100));
    assert_eq!(r, IllustUpdateResult::Updated);

    // a changed bookmark ordering id is the incremental-sync signal
    let r = decide_illust_update(&prior, IllustState::Normal, Some(101));
    assert_eq!(r, IllustUpdateResult::BookmarkIDChanged);

    // a masked observation of a fully seen work is skipped
    let r = decide_illust_update(&prior, IllustState::Masked, Some(100));
    assert_eq!(r, IllustUpdateResult::Skipped);
}

#[test]
fn plan_for_insert_carries_all_fetched_fields() {
    let illust = normal_illust(42, 100, 1_700_000_000_000);
    let plan = plan_illust_update(&None, &illust);
    assert_eq!(plan.result, IllustUpdateResult::Inserted);
    assert!(!plan.touch_last_fetch);
    assert!(plan.advance_successful_fetch);
    let row = plan.row.expect("an insert writes a row");
    assert!(row.insert);
    assert_eq!(row.id, 42);
    assert_eq!(row.title.as_deref(), Some("a work"));
    assert_eq!(row.author_id, Some(7));
    assert_eq!(row.bookmark_id, Some(100));
    assert_eq!(row.bookmark_private, Some(false));
    assert_eq!(row.page_count, Some(1));
    let author = plan.author.expect("fetched metadata writes the author");
    assert_eq!(author.id, 7);
    assert_eq!(author.name, "someone");
    assert_eq!(plan.content_tags, Some(vec!["scenery".to_string()]));
    assert_eq!(plan.bookmark_tags, None);
    assert!(plan.detail.is_none());
}

#[test]
fn plan_for_skipped_update_writes_nothing_but_the_attempt() {
    let mut illust = normal_illust(42, 100, 1_700_000_000_000);
    illust.state = IllustState::Masked;
    illust.data = IllustData::Unknown;
    let prior = Some(PriorIllustRow { bookmark_id: Some(100), state: IllustState::Normal });
    let plan = plan_illust_update(&prior, &illust);
    assert_eq!(plan.result, IllustUpdateResult::Skipped);
    assert!(plan.touch_last_fetch);
    assert!(plan.row.is_none());
    assert!(plan.author.is_none());
    assert!(plan.content_tags.is_none());
    assert!(!plan.advance_successful_fetch);
}

#[test]
fn masked_row_accepts_a_shallow_update_with_null_fields() {
    let illust = Illust {
        id: 9,
        data: IllustData::Unknown,
        state: IllustState::Unlisted,
        bookmark: Some(IllustBookmarkState {
            id: 5,
            private: true,
            tags: IllustBookmarkTags::Known(vec!["keep".to_string()]),
        }),
    };
    let prior = Some(PriorIllustRow { bookmark_id: Some(5), state: IllustState::Masked });
    let plan = plan_illust_update(&prior, &illust);
    assert_eq!(plan.result, IllustUpdateResult::Updated);
    let row = plan.row.expect("an allowed update writes a row");
    assert!(!row.insert);
    assert_eq!(row.title, None);
    assert_eq!(row.author_id, None);
    assert_eq!(row.page_count, None);
    assert!(!plan.advance_successful_fetch);
    assert_eq!(plan.bookmark_tags, Some(vec!["keep".to_string()]));
}

#[test]
fn fanbox_post_update_classification() {
    assert_eq!(decide_fanbox_post_update(&None, 10), FanboxPostUpdateResult::Inserted);
    assert_eq!(decide_fanbox_post_update(&Some(10), 10), FanboxPostUpdateResult::Skipped);
    // a timestamp that went backwards is also skipped
    assert_eq!(decide_fanbox_post_update(&Some(11), 10), FanboxPostUpdateResult::Skipped);
    assert_eq!(decide_fanbox_post_update(&Some(9), 10), FanboxPostUpdateResult::Updated);
}

#[test]
fn json_id_arrays() {
    assert_eq!(json_u64_array(&vec![]), "[]");
    assert_eq!(json_u64_array(&vec![7]), "[7]");
    assert_eq!(json_u64_array(&vec![1, 22, 333]), "[1,22,333]");
}

#[test]
fn tag_sync_lands_on_the_fetched_set() {
    // the verified model of the two tag-sync passes lands on exactly the
    // fetched set; exercise the classification it rests on with a concrete
    // diff: A = {1,2}, then B = {2,3} applied to the same illustration
    let a: Vec<u64> = vec![1, 2];
    let b: Vec<u64> = vec![2, 3];
    // after pass one the associations are exactly A, after pass two exactly B
    let after_a: std::collections::BTreeSet<u64> = a.iter().copied().collect();
    let mut assoc: std::collections::BTreeSet<u64> = [9u64, 2].into_iter().collect();
    // pass one: insert all of A, delete everything not in A
    for t in &a {
        assoc.insert(*t);
    }
    assoc.retain(|t| a.contains(t));
    assert_eq!(assoc, after_a);
    // pass two: insert all of B, delete everything not in B
    for t in &b {
        assoc.insert(*t);
    }
    assoc.retain(|t| b.contains(t));
    let after_b: std::collections::BTreeSet<u64> = b.iter().copied().collect();
    assert_eq!(assoc, after_b);
}
