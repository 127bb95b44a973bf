//! The post data model: rich-body reconciliation, body accessors, download
//! filenames, the response envelope, and the endpoint URLs.

use pixivdwn::fanbox::{
    FetchPostBlock, FetchPostImage, FetchPostFile, FetchPostUrlEmbed, FetchPostBodyRichRaw,
    FetchPostBodyRich, FetchPostBodyConversionError, FetchPostBodySimple, FetchPostBody, Response,
    post_info_url, paginate_creator_url, supporting_list_url, fanbox_file_filename,
    fanbox_image_filename,
};
use pixivdwn::db::{FanboxFileDownloadSpec, FanboxImageDownloadSpec};

fn image(id: &str) -> FetchPostImage {
    FetchPostImage {
        id: id.to_string(),
        extension: "png".to_string(),
        width: 100,
        height: 200,
        original_url: format!("https://files.example/{}.png", id),
        thumbnail_url: format!("https://files.example/{}_thumb.png", id),
    }
}

fn file(id: &str) -> FetchPostFile {
    FetchPostFile {
        id: id.to_string(),
        name: "bundle".to_string(),
        extension: "zip".to_string(),
        size: 9000,
        url: format!("https://files.example/{}.zip", id),
    }
}

#[test]
fn rich_body_reconciles_blocks_and_attachments() {
    let raw = FetchPostBodyRichRaw {
        blocks: vec![
            FetchPostBlock::Paragraph { text: "hello".to_string() },
            FetchPostBlock::Image { image_id: "imgA".to_string() },
            FetchPostBlock::File { file_id: "fileB".to_string() },
            FetchPostBlock::UrlEmbed { url_embed_id: "embC".to_string(), content: None },
        ],
        image_map: vec![("imgA".to_string(), image("imgA"))],
        file_map: vec![("fileB".to_string(), file("fileB"))],
        embed_map: vec![],
        url_embed_map: vec![(
            "embC".to_string(),
            FetchPostUrlEmbed {
                id: "embC".to_string(),
                kind: "html".to_string(),
                html: "<a/>".to_string(),
            },
        )],
    };
    let rich = FetchPostBodyRich::from_raw(raw).expect("a matching body reconciles");
    assert_eq!(rich.blocks.len(), 4);
    assert_eq!(rich.images.len(), 1);
    assert_eq!(rich.images[0].0, 1);
    assert_eq!(rich.images[0].1.id, "imgA");
    assert_eq!(rich.files.len(), 1);
    assert_eq!(rich.files[0].0, 2);
    assert_eq!(rich.files[0].1.id, "fileB");
    match &rich.blocks[3] {
        FetchPostBlock::UrlEmbed { content: Some(c), .. } => assert_eq!(c.html, "<a/>"),
        other => panic!("the embed must be inlined, got {:?}", other),
    }
}

#[test]
fn rich_body_with_missing_image_errors() {
    let raw = FetchPostBodyRichRaw {
        blocks: vec![FetchPostBlock::Image { image_id: "missing".to_string() }],
        image_map: vec![],
        file_map: vec![],
        embed_map: vec![],
        url_embed_map: vec![],
    };
    match FetchPostBodyRich::from_raw(raw) {
        Err(FetchPostBodyConversionError::UnmatchedImageId(s)) => assert_eq!(s, "missing"),
        other => panic!("expected an unmatched image id, got {:?}", other),
    }
}

#[test]
fn rich_body_with_leftover_entries_errors() {
    let raw = FetchPostBodyRichRaw {
        blocks: vec![FetchPostBlock::Header { text: "t".to_string() }],
        image_map: vec![("orphan".to_string(), image("orphan"))],
        file_map: vec![],
        embed_map: vec!["emb1".to_string()],
        url_embed_map: vec![],
    };
    match FetchPostBodyRich::from_raw(raw) {
        Err(FetchPostBodyConversionError::Extra { image, file, embed, url_embed }) => {
            assert!(image);
            assert!(!file);
            assert!(embed);
            assert!(!url_embed);
        }
        other => panic!("expected leftover entries, got {:?}", other),
    }
}

#[test]
fn simple_body_numbers_files_after_images() {
    let body = FetchPostBody::Simple(FetchPostBodySimple {
        text: "plain".to_string(),
        images: vec![image("i1"), image("i2")],
        files: vec![file("f1")],
    });
    assert!(!body.is_rich());
    let images = body.images();
    assert_eq!(images.len(), 2);
    assert_eq!(images[0].0, 0);
    assert_eq!(images[1].0, 1);
    let files = body.files();
    assert_eq!(files.len(), 1);
    assert_eq!(files[0].0, 2);
    assert_eq!(files[0].1.id, "f1");
}

#[test]
fn rich_body_accessors_keep_block_indices() {
    let body = FetchPostBody::Rich(FetchPostBodyRich {
        blocks: vec![],
        images: vec![(4, image("i9"))],
        files: vec![(7, file("f9"))],
    });
    assert!(body.is_rich());
    let images = body.images();
    assert_eq!(images[0].0, 4);
    assert_eq!(images[0].1.id, "i9");
    let files = body.files();
    assert_eq!(files[0].0, 7);
}

#[test]
fn fanbox_response_envelope() {
    let ok: Response<u64> = Response::Success { body: 3 };
    assert_eq!(ok.into_body(), Ok(3));
    let err: Response<u64> = Response::Errored { error: "bad".to_string() };
    assert_eq!(err.into_body(), Err("bad".to_string()));
}

#[test]
fn download_filenames() {
    let f = FanboxFileDownloadSpec {
        url: "u".to_string(),
        name: "notes".to_string(),
        post_id: "123".to_string(),
        ext: "zip".to_string(),
        idx: 2,
    };
    assert_eq!(fanbox_file_filename(&f, "abc"), "123_2_abc_notes.zip");
    let i = FanboxImageDownloadSpec {
        url: "u".to_string(),
        post_id: "123".to_string(),
        ext: "png".to_string(),
        idx: 0,
    };
    assert_eq!(fanbox_image_filename(&i, "xyz"), "123_0_xyz.png");
}

#[test]
fn fanbox_endpoint_urls() {
    assert_eq!(post_info_url(77), "https://api.fanbox.cc/post.info?postId=77");
    assert_eq!(
        paginate_creator_url("artist"),
        "https://api.fanbox.cc/post.paginateCreator?creatorId=artist&sort=newest"
    );
    assert_eq!(supporting_list_url(), "https://api.fanbox.cc/plan.listSupporting");
}
