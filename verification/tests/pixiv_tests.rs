//! The illustration data model: conversions, bookmark-tag attachment, the
//! response envelope, and the endpoint URLs.

use pixivdwn::pixiv::{
    IllustState, IllustData, IllustBookmarkTags, XRestrict, AIType, IllustType, Tags,
    BookmarkData, FetchWorkBrief, FetchWorkDetail, Bookmarks, Response, ApiError, illust_url,
    illust_pages_url, illust_ugoira_meta_url, bookmarks_url, bookmarks_query,
};

fn brief(id: u64, bookmark_id: u64, unlisted: bool, masked: bool) -> FetchWorkBrief {
    FetchWorkBrief {
        id,
        title: format!("work {}", id),
        tags: Tags::Brief(vec!["landscape".to_string(), "oc".to_string()]),
        x_restrict: XRestrict::Public,
        illust_type: IllustType::Illustration,
        page_count: 3,
        restrict: 0,
        user_id: 55,
        user_name: "artist".to_string(),
        user_account: Some("artist_account".to_string()),
        bookmark_data: BookmarkData { id: bookmark_id, private: false },
        create_date: 1_600_000_000_000,
        update_date: 1_650_000_000_000,
        width: 800,
        height: 600,
        is_unlisted: unlisted,
        is_masked: masked,
        ai_type: AIType::NonAI,
    }
}

#[test]
fn normal_work_converts_with_metadata() {
    let w = brief(42, 900, false, false);
    let illust = w.into_illust();
    assert_eq!(illust.id, 42);
    assert_eq!(illust.state, IllustState::Normal);
    match &illust.data {
        IllustData::Simple(d) => {
            assert_eq!(d.title, "work 42");
            assert_eq!(d.author.id, 55);
            assert_eq!(d.page_count, 3);
        }
        other => panic!("expected simple data, got {:?}", other),
    }
    let b = illust.bookmark.expect("a bookmarked work keeps its bookmark");
    assert_eq!(b.id, 900);
    assert!(matches!(b.tags, IllustBookmarkTags::Unknown));
}

#[test]
fn masked_work_converts_without_metadata() {
    let w = brief(43, 901, false, true);
    let illust = w.into_illust();
    assert_eq!(illust.state, IllustState::Masked);
    assert!(matches!(illust.data, IllustData::Unknown));
}

#[test]
fn detail_attaches_description() {
    let b = brief(44, 902, false, false);
    let detail = FetchWorkDetail {
        illust_id: 44,
        illust_title: "work 44".to_string(),
        illust_comment: "a description".to_string(),
        description: "a description".to_string(),
        brief: b,
        bookmark_count: 1,
        like_count: 2,
        comment_count: 3,
        view_count: 4,
        is_howto: false,
        is_original: true,
    };
    let illust = detail.into_illust();
    match &illust.data {
        IllustData::Detailed(d, e) => {
            assert_eq!(d.title, "work 44");
            assert_eq!(e.desc, "a description");
            assert!(e.is_original);
        }
        other => panic!("expected detailed data, got {:?}", other),
    }
}

#[test]
fn bookmark_tags_are_attached_per_bookmark_id() {
    let page = Bookmarks {
        total: 2,
        works: vec![brief(1, 10, false, false), brief(2, 20, true, false)],
        bookmark_tags: vec![(20, vec!["fav".to_string()]), (99, vec!["unused".to_string()])],
    };
    let illusts = page.into_illusts();
    assert_eq!(illusts.len(), 2);
    // the unlisted work still gets its bookmark tags
    match &illusts[1].bookmark.as_ref().unwrap().tags {
        IllustBookmarkTags::Known(ts) => assert_eq!(ts, &vec!["fav".to_string()]),
        IllustBookmarkTags::Unknown => panic!("tags must be known after the feed"),
    }
    // a work without an entry gets the empty tag list
    match &illusts[0].bookmark.as_ref().unwrap().tags {
        IllustBookmarkTags::Known(ts) => assert!(ts.is_empty()),
        IllustBookmarkTags::Unknown => panic!("tags must be known after the feed"),
    }
    assert_eq!(illusts[1].state, IllustState::Unlisted);
}

#[test]
fn tag_names_from_both_shapes() {
    let t = Tags::Brief(vec!["a".to_string(), "b".to_string()]);
    assert_eq!(t.tag_names(), vec!["a".to_string(), "b".to_string()]);
}

#[test]
fn pixiv_response_envelope() {
    let ok: Response<u64> = Response { error: false, message: String::new(), body: Some(5) };
    assert_eq!(ok.into_body(), Ok(5));
    let err: Response<u64> =
        Response { error: true, message: "nope".to_string(), body: Some(5) };
    assert_eq!(err.into_body(), Err(ApiError::Errored("nope".to_string())));
    let empty: Response<u64> = Response { error: false, message: String::new(), body: None };
    assert_eq!(empty.into_body(), Err(ApiError::MissingBody));
}

#[test]
fn pixiv_endpoint_urls() {
    assert_eq!(illust_url(42), "https://www.pixiv.net/ajax/illust/42");
    assert_eq!(illust_pages_url(42), "https://www.pixiv.net/ajax/illust/42/pages");
    assert_eq!(illust_ugoira_meta_url(7), "https://www.pixiv.net/ajax/illust/7/ugoira_meta");
    assert_eq!(bookmarks_url(1234), "https://www.pixiv.net/ajax/user/1234/illusts/bookmarks");
}

#[test]
fn bookmark_feed_query_parameters() {
    let q = bookmarks_query(Some("fav"), 96, 48, true);
    assert_eq!(q[0], ("tag".to_string(), "fav".to_string()));
    assert_eq!(q[1], ("offset".to_string(), "96".to_string()));
    assert_eq!(q[2], ("limit".to_string(), "48".to_string()));
    assert_eq!(q[3], ("rest".to_string(), "hide".to_string()));
    assert_eq!(q[4], ("lang".to_string(), "en".to_string()));
    let q = bookmarks_query(None, 0, 48, false);
    assert_eq!(q[0].1, "");
    assert_eq!(q[3].1, "show");
}
