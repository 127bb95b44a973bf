//! The listing-query builders on concrete filters.

use pixivdwn::query::{
    Query, QueryDownloadState, QueryOrder, Format, json_string_array, sql_quote, join_all,
};
use pixivdwn::cmd::FanboxFileArgs;
use pixivdwn::pixiv::IllustState;

fn empty_query() -> Query {
    Query {
        id: None,
        state: None,
        download_state: None,
        tag: vec![],
        bookmark_tag: vec![],
        order: QueryOrder::IdAsc,
        limit: None,
        format: Format::ID,
        print_sql: false,
        dry_run: false,
    }
}

#[test]
fn bare_query() {
    let q = empty_query();
    assert_eq!(q.build_sql(), "SELECT id FROM illusts ORDER BY id ASC");
}

#[test]
fn count_with_filters_and_limit() {
    let mut q = empty_query();
    q.format = Format::Count;
    q.id = Some(42);
    q.state = Some(IllustState::Unlisted);
    q.order = QueryOrder::BookmarkIdDesc;
    q.limit = Some(10);
    assert_eq!(
        q.build_sql(),
        "SELECT COUNT(*) as count FROM illusts WHERE id = 42 AND state = 1 \
         ORDER BY bookmark_id DESC LIMIT 10"
    );
}

#[test]
fn download_state_filter_compares_page_counts() {
    let mut q = empty_query();
    q.download_state = Some(QueryDownloadState::NotFullyDownloaded);
    assert_eq!(
        q.build_sql(),
        "SELECT id FROM illusts WHERE page_count != \
         (SELECT COUNT(*) FROM images WHERE illust_id = illusts.id) ORDER BY id ASC"
    );
}

#[test]
fn tag_filters_demand_membership_and_existence() {
    let mut q = empty_query();
    q.tag = vec!["scenery".to_string()];
    let sql = q.build_sql();
    assert!(sql.contains("json_each('[\"scenery\"]')"));
    assert!(sql.contains("illust_tags"));
    assert!(sql.contains(") = 1"));
}

#[test]
fn json_and_sql_quoting() {
    assert_eq!(json_string_array(&vec![]), "[]");
    assert_eq!(
        json_string_array(&vec!["a".to_string(), "b\"c\\".to_string()]),
        "[\"a\",\"b\\\"c\\\\\"]"
    );
    assert_eq!(json_string_array(&vec!["\u{1}".to_string()]), "[\"\\u0001\"]");
    assert_eq!(sql_quote("it's"), "'it''s'");
    assert_eq!(sql_quote(""), "''");
    // a quoting tag cannot break out of the statement's literal
    let mut q = empty_query();
    q.tag = vec!["a'); DROP TABLE illusts; --".to_string()];
    let sql = q.build_sql();
    assert!(sql.contains("json_each('[\"a''); DROP TABLE illusts; --\"]')"));
}

#[test]
fn joining() {
    let parts = vec!["a".to_string(), "b".to_string(), "c".to_string()];
    assert_eq!(join_all(&parts, " AND "), "a AND b AND c");
    assert_eq!(join_all(&vec![], ", "), "");
}

#[test]
fn fanbox_file_listing() {
    let mut args = FanboxFileArgs {
        id: None,
        post: None,
        downloaded: None,
        print_sql: false,
        dry_run: false,
    };
    assert_eq!(
        args.build_sql(),
        "SELECT id from fanbox_files ORDER BY post_id ASC, idx ASC"
    );
    args.id = Some("f-1".to_string());
    args.post = Some(9);
    args.downloaded = Some(false);
    assert_eq!(
        args.build_sql(),
        "SELECT id from fanbox_files WHERE id = 'f-1' AND post_id = 9 AND path IS NULL \
         ORDER BY post_id ASC, idx ASC"
    );
}
