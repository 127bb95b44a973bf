//! Data model for the fan-subscription platform: posts, their rich or
//! simple bodies, attached files and images, and the response envelope.
//!
//! Timestamps are carried as milliseconds since the Unix epoch; the I/O
//! layer converts at the boundary.

use vstd::prelude::*;
use vstd::string::*;
use crate::assoc::{assoc_first_str, assoc_take_str, distinct_keys};
use crate::text::dec_of;

verus! {

/// The linked account on the illustration platform, as listed for a
/// creator.
#[derive(Debug, Clone)]
pub struct LinkedPixivUser {
    pub user_id: u64,
    pub name: String,
}

/// A post's cover element.
#[derive(Debug, Clone)]
pub struct FetchPostCover {
    pub kind: String,
    pub url: String,
}

/// A post as the feed returns it.
#[derive(Debug, Clone)]
pub struct FetchPost {
    pub id: u64,
    pub title: String,
    pub fee_required: u64,
    pub published_datetime: i64,
    pub updated_datetime: i64,
    pub tags: Vec<String>,
    pub is_liked: bool,
    pub like_count: u64,
    pub is_commenting_restricted: bool,
    pub comment_count: u64,
    pub is_restricted: bool,
    pub user: Option<LinkedPixivUser>,
    pub creator_id: String,
    pub has_adult_content: bool,
    pub cover: Option<FetchPostCover>,
    pub excerpt: String,
    pub is_pinned: bool,
}

/// One block of a rich post body.
#[derive(Debug, Clone)]
pub enum FetchPostBlock {
    Paragraph { text: String },
    Header { text: String },
    File { file_id: String },
    Image { image_id: String },
    UrlEmbed { url_embed_id: String, content: Option<FetchPostUrlEmbed> },
}

/// An image attached to a post.
#[derive(Debug, Clone)]
pub struct FetchPostImage {
    pub id: String,
    pub extension: String,
    pub width: u64,
    pub height: u64,
    pub original_url: String,
    pub thumbnail_url: String,
}

/// A file attached to a post.
#[derive(Debug, Clone)]
pub struct FetchPostFile {
    pub id: String,
    pub name: String,
    pub extension: String,
    pub size: u64,
    pub url: String,
}

/// An embedded link of a rich post body.
#[derive(Debug, Clone)]
pub struct FetchPostUrlEmbed {
    pub id: String,
    pub kind: String,
    pub html: String,
}

/// A rich post body as the wire delivers it: blocks that reference their
/// attachments by id, and the attachments keyed by those ids. The embed map
/// is carried only to detect unconsumed entries.
#[derive(Debug, Clone)]
pub struct FetchPostBodyRichRaw {
    pub blocks: Vec<FetchPostBlock>,
    pub image_map: Vec<(String, FetchPostImage)>,
    pub file_map: Vec<(String, FetchPostFile)>,
    pub embed_map: Vec<String>,
    pub url_embed_map: Vec<(String, FetchPostUrlEmbed)>,
}

/// A rich post body after reconciliation: embeds inlined into their blocks,
/// images and files listed with the index of the block that references
/// them.
#[derive(Debug, Clone)]
pub struct FetchPostBodyRich {
    pub blocks: Vec<FetchPostBlock>,
    pub images: Vec<(usize, FetchPostImage)>,
    pub files: Vec<(usize, FetchPostFile)>,
}

/// Why a raw rich body could not be reconciled.
#[derive(Debug, Clone)]
pub enum FetchPostBodyConversionError {
    /// An image block references an id the image map does not hold.
    UnmatchedImageId(String),
    /// A file block references an id the file map does not hold.
    UnmatchedFileId(String),
    /// An embed block references an id the embed map does not hold.
    UnmatchedUrlEmbedId(String),
    /// Entries remained in the maps that no block references.
    Extra { image: bool, file: bool, embed: bool, url_embed: bool },
}

/// Whether `b` is an image block referencing `key`.
pub open spec fn is_image_ref(b: FetchPostBlock, key: Seq<char>) -> bool {
    b matches FetchPostBlock::Image { image_id } && image_id@ == key
}

/// Whether `b` is a file block referencing `key`.
pub open spec fn is_file_ref(b: FetchPostBlock, key: Seq<char>) -> bool {
    b matches FetchPostBlock::File { file_id } && file_id@ == key
}

/// Whether `b` is an embed block referencing `key`.
pub open spec fn is_embed_ref(b: FetchPostBlock, key: Seq<char>) -> bool {
    b matches FetchPostBlock::UrlEmbed { url_embed_id, content: _ } && url_embed_id@ == key
}

/// Whether some image block references `key`.
pub open spec fn references_image(blocks: Seq<FetchPostBlock>, key: Seq<char>) -> bool {
    exists|j: int| 0 <= j < blocks.len() && is_image_ref(#[trigger] blocks[j], key)
}

/// Whether some file block references `key`.
pub open spec fn references_file(blocks: Seq<FetchPostBlock>, key: Seq<char>) -> bool {
    exists|j: int| 0 <= j < blocks.len() && is_file_ref(#[trigger] blocks[j], key)
}

/// Whether some embed block references `key`.
pub open spec fn references_embed(blocks: Seq<FetchPostBlock>, key: Seq<char>) -> bool {
    exists|j: int| 0 <= j < blocks.len() && is_embed_ref(#[trigger] blocks[j], key)
}

/// The image blocks' ids are pairwise distinct, and likewise per other kind.
pub open spec fn blocks_ids_distinct(blocks: Seq<FetchPostBlock>) -> bool {
    forall|i: int, j: int|
        0 <= i < j < blocks.len() ==> match (#[trigger] blocks[i], #[trigger] blocks[j]) {
            (
                FetchPostBlock::Image { image_id: a },
                FetchPostBlock::Image { image_id: b },
            ) => a@ != b@,
            (FetchPostBlock::File { file_id: a }, FetchPostBlock::File { file_id: b }) => a@ != b@,
            (
                FetchPostBlock::UrlEmbed { url_embed_id: a, content: _ },
                FetchPostBlock::UrlEmbed { url_embed_id: b, content: _ },
            ) => a@ != b@,
            _ => true,
        }
}

/// A raw body whose block references and map keys are unambiguous: ids of
/// one kind are not repeated across blocks, nor keys within a map.
pub open spec fn wf_raw(raw: FetchPostBodyRichRaw) -> bool {
    &&& blocks_ids_distinct(raw.blocks@)
    &&& distinct_keys(raw.image_map@)
    &&& distinct_keys(raw.file_map@)
    &&& distinct_keys(raw.url_embed_map@)
}

/// The `(block index, id)` pairs of the image blocks, in order.
pub open spec fn spec_image_refs(blocks: Seq<FetchPostBlock>) -> Seq<(int, String)>
    decreases blocks.len(),
{
    if blocks.len() == 0 {
        Seq::empty()
    } else {
        let rest = spec_image_refs(blocks.drop_last());
        match blocks.last() {
            FetchPostBlock::Image { image_id } => rest.push((blocks.len() - 1, image_id)),
            _ => rest,
        }
    }
}

/// The `(block index, id)` pairs of the file blocks, in order.
pub open spec fn spec_file_refs(blocks: Seq<FetchPostBlock>) -> Seq<(int, String)>
    decreases blocks.len(),
{
    if blocks.len() == 0 {
        Seq::empty()
    } else {
        let rest = spec_file_refs(blocks.drop_last());
        match blocks.last() {
            FetchPostBlock::File { file_id } => rest.push((blocks.len() - 1, file_id)),
            _ => rest,
        }
    }
}

/// How one block comes out of the reconciliation: embed blocks get their
/// embed inlined, every other block passes through unchanged.
pub open spec fn block_converted(
    a: FetchPostBlock,
    b: FetchPostBlock,
    em: Seq<(String, FetchPostUrlEmbed)>,
) -> bool {
    match a {
        FetchPostBlock::UrlEmbed { url_embed_id, content: _ } => b
            matches FetchPostBlock::UrlEmbed { url_embed_id: id2, content: Some(c) } && id2
            == url_embed_id && assoc_first_str(em, url_embed_id@) == Some(c),
        _ => b == a,
    }
}

/// What a successful reconciliation returns: the blocks converted in place,
/// and the images and files listed in block order, each carrying its block
/// index and the map entry its block references.
pub open spec fn rich_ok(raw: FetchPostBodyRichRaw, rich: FetchPostBodyRich) -> bool {
    &&& rich.blocks@.len() == raw.blocks@.len()
    &&& (forall|j: int|
        0 <= j < raw.blocks@.len() ==> block_converted(
            raw.blocks@[j],
            #[trigger] rich.blocks@[j],
            raw.url_embed_map@,
        ))
    &&& rich.images@.len() == spec_image_refs(raw.blocks@).len()
    &&& (forall|m: int|
        0 <= m < rich.images@.len() ==> (#[trigger] rich.images@[m]).0 == spec_image_refs(
            raw.blocks@,
        )[m].0 && Some(rich.images@[m].1) == assoc_first_str(
            raw.image_map@,
            spec_image_refs(raw.blocks@)[m].1@,
        ))
    &&& rich.files@.len() == spec_file_refs(raw.blocks@).len()
    &&& (forall|m: int|
        0 <= m < rich.files@.len() ==> (#[trigger] rich.files@[m]).0 == spec_file_refs(
            raw.blocks@,
        )[m].0 && Some(rich.files@[m].1) == assoc_first_str(
            raw.file_map@,
            spec_file_refs(raw.blocks@)[m].1@,
        ))
}

/// What a failed reconciliation reports: an unmatched error names an id
/// some block references that its map does not hold; the leftover error
/// flags, per map, exactly whether an entry remains that no block
/// references, with every reference satisfied.
pub open spec fn err_ok(raw: FetchPostBodyRichRaw, e: FetchPostBodyConversionError) -> bool {
    match e {
        FetchPostBodyConversionError::UnmatchedImageId(s) => references_image(raw.blocks@, s@)
            && assoc_first_str(raw.image_map@, s@) is None,
        FetchPostBodyConversionError::UnmatchedFileId(s) => references_file(raw.blocks@, s@)
            && assoc_first_str(raw.file_map@, s@) is None,
        FetchPostBodyConversionError::UnmatchedUrlEmbedId(s) => references_embed(raw.blocks@, s@)
            && assoc_first_str(raw.url_embed_map@, s@) is None,
        FetchPostBodyConversionError::Extra { image, file, embed, url_embed } => {
            &&& embed == (raw.embed_map@.len() > 0)
            &&& image == (exists|k: Seq<char>|
                (#[trigger] assoc_first_str(raw.image_map@, k)) is Some && !references_image(
                    raw.blocks@,
                    k,
                ))
            &&& file == (exists|k: Seq<char>|
                (#[trigger] assoc_first_str(raw.file_map@, k)) is Some && !references_file(
                    raw.blocks@,
                    k,
                ))
            &&& url_embed == (exists|k: Seq<char>|
                (#[trigger] assoc_first_str(raw.url_embed_map@, k)) is Some && !references_embed(
                    raw.blocks@,
                    k,
                ))
            &&& (image || file || embed || url_embed)
        },
    }
}

proof fn lemma_image_unreferenced_before(blocks: Seq<FetchPostBlock>, k: int, key: Seq<char>)
    requires
        blocks_ids_distinct(blocks),
        0 <= k < blocks.len(),
        is_image_ref(blocks[k], key),
    ensures
        !references_image(blocks.subrange(0, k), key),
{
    let prefix = blocks.subrange(0, k);
    if references_image(prefix, key) {
        let j = choose|j: int| 0 <= j < prefix.len() && is_image_ref(#[trigger] prefix[j], key);
        assert(prefix[j] == blocks[j]);
    }
}

proof fn lemma_file_unreferenced_before(blocks: Seq<FetchPostBlock>, k: int, key: Seq<char>)
    requires
        blocks_ids_distinct(blocks),
        0 <= k < blocks.len(),
        is_file_ref(blocks[k], key),
    ensures
        !references_file(blocks.subrange(0, k), key),
{
    let prefix = blocks.subrange(0, k);
    if references_file(prefix, key) {
        let j = choose|j: int| 0 <= j < prefix.len() && is_file_ref(#[trigger] prefix[j], key);
        assert(prefix[j] == blocks[j]);
    }
}

proof fn lemma_embed_unreferenced_before(blocks: Seq<FetchPostBlock>, k: int, key: Seq<char>)
    requires
        blocks_ids_distinct(blocks),
        0 <= k < blocks.len(),
        is_embed_ref(blocks[k], key),
    ensures
        !references_embed(blocks.subrange(0, k), key),
{
    let prefix = blocks.subrange(0, k);
    if references_embed(prefix, key) {
        let j = choose|j: int| 0 <= j < prefix.len() && is_embed_ref(#[trigger] prefix[j], key);
        assert(prefix[j] == blocks[j]);
    }
}

impl FetchPostBodyRich {
    /// Reconcile a raw rich body: inline each embed block's entry, list
    /// each image and file block's entry under the block's index, and
    /// refuse bodies whose references and maps do not match up exactly.
    ///
    /// The contract speaks of raw bodies whose ids are unambiguous
    /// (`wf_raw`); the conversion itself never assumes it.
    pub fn from_raw(raw: FetchPostBodyRichRaw) -> (r: Result<
        FetchPostBodyRich,
        FetchPostBodyConversionError,
    >)
        ensures
            wf_raw(raw) ==> match r {
                Ok(rich) => rich_ok(raw, rich),
                Err(e) => err_ok(raw, e),
            },
    {
        let ghost graw = raw;
        let FetchPostBodyRichRaw {
            blocks: mut blocks,
            image_map: mut image_map,
            file_map: mut file_map,
            embed_map,
            url_embed_map: mut url_embed_map,
        } = raw;
        let ghost oblocks = graw.blocks@;
        let mut out_blocks: Vec<FetchPostBlock> = Vec::new();
        let mut images: Vec<(usize, FetchPostImage)> = Vec::new();
        let mut files: Vec<(usize, FetchPostFile)> = Vec::new();
        while blocks.len() > 0
            invariant
                graw == raw,
                oblocks == graw.blocks@,
                out_blocks@.len() + blocks@.len() == oblocks.len(),
                blocks@ =~= oblocks.subrange(out_blocks@.len() as int, oblocks.len() as int),
                embed_map@ == graw.embed_map@,
                wf_raw(graw) ==> distinct_keys(image_map@) && distinct_keys(file_map@)
                    && distinct_keys(url_embed_map@),
                wf_raw(graw) ==> (forall|j: int|
                    0 <= j < out_blocks@.len() ==> block_converted(
                        oblocks[j],
                        #[trigger] out_blocks@[j],
                        graw.url_embed_map@,
                    )),
                wf_raw(graw) ==> images@.len() == spec_image_refs(
                    oblocks.subrange(0, out_blocks@.len() as int),
                ).len(),
                wf_raw(graw) ==> (forall|m: int|
                    0 <= m < images@.len() ==> (#[trigger] images@[m]).0 == spec_image_refs(
                        oblocks.subrange(0, out_blocks@.len() as int),
                    )[m].0 && Some(images@[m].1) == assoc_first_str(
                        graw.image_map@,
                        spec_image_refs(oblocks.subrange(0, out_blocks@.len() as int))[m].1@,
                    )),
                wf_raw(graw) ==> files@.len() == spec_file_refs(
                    oblocks.subrange(0, out_blocks@.len() as int),
                ).len(),
                wf_raw(graw) ==> (forall|m: int|
                    0 <= m < files@.len() ==> (#[trigger] files@[m]).0 == spec_file_refs(
                        oblocks.subrange(0, out_blocks@.len() as int),
                    )[m].0 && Some(files@[m].1) == assoc_first_str(
                        graw.file_map@,
                        spec_file_refs(oblocks.subrange(0, out_blocks@.len() as int))[m].1@,
                    )),
                wf_raw(graw) ==> (forall|key: Seq<char>|
                    #![trigger assoc_first_str(image_map@, key)]
                    assoc_first_str(image_map@, key) == if references_image(
                        oblocks.subrange(0, out_blocks@.len() as int),
                        key,
                    ) {
                        None::<FetchPostImage>
                    } else {
                        assoc_first_str(graw.image_map@, key)
                    }),
                wf_raw(graw) ==> (forall|key: Seq<char>|
                    #![trigger assoc_first_str(file_map@, key)]
                    assoc_first_str(file_map@, key) == if references_file(
                        oblocks.subrange(0, out_blocks@.len() as int),
                        key,
                    ) {
                        None::<FetchPostFile>
                    } else {
                        assoc_first_str(graw.file_map@, key)
                    }),
                wf_raw(graw) ==> (forall|key: Seq<char>|
                    #![trigger assoc_first_str(url_embed_map@, key)]
                    assoc_first_str(url_embed_map@, key) == if references_embed(
                        oblocks.subrange(0, out_blocks@.len() as int),
                        key,
                    ) {
                        None::<FetchPostUrlEmbed>
                    } else {
                        assoc_first_str(graw.url_embed_map@, key)
                    }),
                wf_raw(graw) ==> (forall|key: Seq<char>|
                    references_image(oblocks.subrange(0, out_blocks@.len() as int), key) ==> (
                    #[trigger] assoc_first_str(graw.image_map@, key)) is Some),
                wf_raw(graw) ==> (forall|key: Seq<char>|
                    references_file(oblocks.subrange(0, out_blocks@.len() as int), key) ==> (
                    #[trigger] assoc_first_str(graw.file_map@, key)) is Some),
                wf_raw(graw) ==> (forall|key: Seq<char>|
                    references_embed(oblocks.subrange(0, out_blocks@.len() as int), key) ==> (
                    #[trigger] assoc_first_str(graw.url_embed_map@, key)) is Some),
            decreases blocks@.len(),
        {
            let ghost k = out_blocks@.len() as int;
            let ghost prefix = oblocks.subrange(0, k);
            let ghost next_prefix = oblocks.subrange(0, k + 1);
            proof {
                assert(next_prefix.drop_last() =~= prefix);
                assert(next_prefix.last() == oblocks[k]);
            }
            let b = blocks.remove(0);
            proof {
                assert(b == oblocks[k]);
                assert(blocks@ =~= oblocks.subrange(k + 1, oblocks.len() as int));
            }
            match b {
                FetchPostBlock::Image { image_id } => {
                    let taken = assoc_take_str(&mut image_map, image_id.as_str());
                    match taken {
                        Some(img) => {
                            proof {
                                if wf_raw(graw) {
                                    assert(is_image_ref(oblocks[k], image_id@));
                                    lemma_image_unreferenced_before(oblocks, k, image_id@);
                                    assert(spec_image_refs(next_prefix) == spec_image_refs(
                                        prefix,
                                    ).push((k, image_id)));
                                    assert forall|key: Seq<char>|
                                        references_image(next_prefix, key) == (references_image(
                                            prefix,
                                            key,
                                        ) || key == image_id@) by {
                                        if references_image(prefix, key) {
                                            let j = choose|j: int|
                                                0 <= j < prefix.len() && is_image_ref(
                                                    #[trigger] prefix[j],
                                                    key,
                                                );
                                            assert(next_prefix[j] == prefix[j]);
                                        }
                                        if key == image_id@ {
                                            assert(is_image_ref(next_prefix[k], key));
                                        }
                                        if references_image(next_prefix, key) {
                                            let j = choose|j: int|
                                                0 <= j < next_prefix.len() && is_image_ref(
                                                    #[trigger] next_prefix[j],
                                                    key,
                                                );
                                            if j < k {
                                                assert(prefix[j] == next_prefix[j]);
                                            }
                                        }
                                    }
                                }
                            }
                            images.push((out_blocks.len(), img));
                            out_blocks.push(FetchPostBlock::Image { image_id });
                        },
                        None => {
                            proof {
                                if wf_raw(graw) {
                                    assert(is_image_ref(oblocks[k], image_id@));
                                    lemma_image_unreferenced_before(oblocks, k, image_id@);
                                    assert(references_image(oblocks, image_id@));
                                    assert(assoc_first_str(image_map@, image_id@) is None);
                                    assert(assoc_first_str(graw.image_map@, image_id@) is None);
                                }
                            }
                            return Err(FetchPostBodyConversionError::UnmatchedImageId(image_id));
                        },
                    }
                },
                FetchPostBlock::File { file_id } => {
                    let taken = assoc_take_str(&mut file_map, file_id.as_str());
                    match taken {
                        Some(f) => {
                            proof {
                                if wf_raw(graw) {
                                    assert(is_file_ref(oblocks[k], file_id@));
                                    lemma_file_unreferenced_before(oblocks, k, file_id@);
                                    assert(spec_file_refs(next_prefix) == spec_file_refs(
                                        prefix,
                                    ).push((k, file_id)));
                                    assert forall|key: Seq<char>|
                                        references_file(next_prefix, key) == (references_file(
                                            prefix,
                                            key,
                                        ) || key == file_id@) by {
                                        if references_file(prefix, key) {
                                            let j = choose|j: int|
                                                0 <= j < prefix.len() && is_file_ref(
                                                    #[trigger] prefix[j],
                                                    key,
                                                );
                                            assert(next_prefix[j] == prefix[j]);
                                        }
                                        if key == file_id@ {
                                            assert(is_file_ref(next_prefix[k], key));
                                        }
                                        if references_file(next_prefix, key) {
                                            let j = choose|j: int|
                                                0 <= j < next_prefix.len() && is_file_ref(
                                                    #[trigger] next_prefix[j],
                                                    key,
                                                );
                                            if j < k {
                                                assert(prefix[j] == next_prefix[j]);
                                            }
                                        }
                                    }
                                }
                            }
                            files.push((out_blocks.len(), f));
                            out_blocks.push(FetchPostBlock::File { file_id });
                        },
                        None => {
                            proof {
                                if wf_raw(graw) {
                                    assert(is_file_ref(oblocks[k], file_id@));
                                    lemma_file_unreferenced_before(oblocks, k, file_id@);
                                    assert(references_file(oblocks, file_id@));
                                    assert(assoc_first_str(file_map@, file_id@) is None);
                                    assert(assoc_first_str(graw.file_map@, file_id@) is None);
                                }
                            }
                            return Err(FetchPostBodyConversionError::UnmatchedFileId(file_id));
                        },
                    }
                },
                FetchPostBlock::UrlEmbed { url_embed_id, content: _ } => {
                    let taken = assoc_take_str(&mut url_embed_map, url_embed_id.as_str());
                    match taken {
                        Some(c) => {
                            proof {
                                if wf_raw(graw) {
                                    assert(is_embed_ref(oblocks[k], url_embed_id@));
                                    lemma_embed_unreferenced_before(oblocks, k, url_embed_id@);
                                    assert forall|key: Seq<char>|
                                        references_embed(next_prefix, key) == (references_embed(
                                            prefix,
                                            key,
                                        ) || key == url_embed_id@) by {
                                        if references_embed(prefix, key) {
                                            let j = choose|j: int|
                                                0 <= j < prefix.len() && is_embed_ref(
                                                    #[trigger] prefix[j],
                                                    key,
                                                );
                                            assert(next_prefix[j] == prefix[j]);
                                        }
                                        if key == url_embed_id@ {
                                            assert(is_embed_ref(next_prefix[k], key));
                                        }
                                        if references_embed(next_prefix, key) {
                                            let j = choose|j: int|
                                                0 <= j < next_prefix.len() && is_embed_ref(
                                                    #[trigger] next_prefix[j],
                                                    key,
                                                );
                                            if j < k {
                                                assert(prefix[j] == next_prefix[j]);
                                            }
                                        }
                                    }
                                    assert(spec_image_refs(next_prefix) == spec_image_refs(
                                        prefix,
                                    ));
                                    assert(spec_file_refs(next_prefix) == spec_file_refs(prefix));
                                }
                            }
                            out_blocks.push(
                                FetchPostBlock::UrlEmbed { url_embed_id, content: Some(c) },
                            );
                        },
                        None => {
                            proof {
                                if wf_raw(graw) {
                                    assert(is_embed_ref(oblocks[k], url_embed_id@));
                                    lemma_embed_unreferenced_before(oblocks, k, url_embed_id@);
                                    assert(references_embed(oblocks, url_embed_id@));
                                    assert(assoc_first_str(url_embed_map@, url_embed_id@) is None);
                                    assert(assoc_first_str(graw.url_embed_map@, url_embed_id@) is None);
                                }
                            }
                            return Err(
                                FetchPostBodyConversionError::UnmatchedUrlEmbedId(url_embed_id),
                            );
                        },
                    }
                },
                other => {
                    proof {
                        if wf_raw(graw) {
                            assert(spec_image_refs(next_prefix) == spec_image_refs(prefix));
                            assert(spec_file_refs(next_prefix) == spec_file_refs(prefix));
                            assert forall|key: Seq<char>|
                                references_image(next_prefix, key) == references_image(
                                    prefix,
                                    key,
                                ) by {
                                if references_image(next_prefix, key) {
                                    let j = choose|j: int|
                                        0 <= j < next_prefix.len() && is_image_ref(
                                            #[trigger] next_prefix[j],
                                            key,
                                        );
                                    assert(j < k);
                                    assert(prefix[j] == next_prefix[j]);
                                }
                                if references_image(prefix, key) {
                                    let j = choose|j: int|
                                        0 <= j < prefix.len() && is_image_ref(
                                            #[trigger] prefix[j],
                                            key,
                                        );
                                    assert(next_prefix[j] == prefix[j]);
                                }
                            }
                            assert forall|key: Seq<char>|
                                references_file(next_prefix, key) == references_file(
                                    prefix,
                                    key,
                                ) by {
                                if references_file(next_prefix, key) {
                                    let j = choose|j: int|
                                        0 <= j < next_prefix.len() && is_file_ref(
                                            #[trigger] next_prefix[j],
                                            key,
                                        );
                                    assert(j < k);
                                    assert(prefix[j] == next_prefix[j]);
                                }
                                if references_file(prefix, key) {
                                    let j = choose|j: int|
                                        0 <= j < prefix.len() && is_file_ref(
                                            #[trigger] prefix[j],
                                            key,
                                        );
                                    assert(next_prefix[j] == prefix[j]);
                                }
                            }
                            assert forall|key: Seq<char>|
                                references_embed(next_prefix, key) == references_embed(
                                    prefix,
                                    key,
                                ) by {
                                if references_embed(next_prefix, key) {
                                    let j = choose|j: int|
                                        0 <= j < next_prefix.len() && is_embed_ref(
                                            #[trigger] next_prefix[j],
                                            key,
                                        );
                                    assert(j < k);
                                    assert(prefix[j] == next_prefix[j]);
                                }
                                if references_embed(prefix, key) {
                                    let j = choose|j: int|
                                        0 <= j < prefix.len() && is_embed_ref(
                                            #[trigger] prefix[j],
                                            key,
                                        );
                                    assert(next_prefix[j] == prefix[j]);
                                }
                            }
                        }
                    }
                    out_blocks.push(other);
                },
            }
        }
        proof {
            assert(oblocks.subrange(0, oblocks.len() as int) =~= oblocks);
        }
        let image_extra = image_map.len() > 0;
        let file_extra = file_map.len() > 0;
        let embed_extra = embed_map.len() > 0;
        let url_embed_extra = url_embed_map.len() > 0;
        if image_extra || file_extra || embed_extra || url_embed_extra {
            proof {
                if wf_raw(graw) {
                    if image_map@.len() > 0 {
                        let k0 = image_map@[0].0@;
                        assert(assoc_first_str(image_map@, k0) is Some);
                    } else {
                        assert forall|k: Seq<char>|
                            !((#[trigger] assoc_first_str(graw.image_map@, k)) is Some
                                && !references_image(oblocks, k)) by {
                            assert(assoc_first_str(image_map@, k) is None);
                        }
                    }
                    if file_map@.len() > 0 {
                        let k0 = file_map@[0].0@;
                        assert(assoc_first_str(file_map@, k0) is Some);
                    } else {
                        assert forall|k: Seq<char>|
                            !((#[trigger] assoc_first_str(graw.file_map@, k)) is Some
                                && !references_file(oblocks, k)) by {
                            assert(assoc_first_str(file_map@, k) is None);
                        }
                    }
                    if url_embed_map@.len() > 0 {
                        let k0 = url_embed_map@[0].0@;
                        assert(assoc_first_str(url_embed_map@, k0) is Some);
                    } else {
                        assert forall|k: Seq<char>|
                            !((#[trigger] assoc_first_str(graw.url_embed_map@, k)) is Some
                                && !references_embed(oblocks, k)) by {
                            assert(assoc_first_str(url_embed_map@, k) is None);
                        }
                    }
                }
            }
            return Err(
                FetchPostBodyConversionError::Extra {
                    image: image_extra,
                    file: file_extra,
                    embed: embed_extra,
                    url_embed: url_embed_extra,
                },
            );
        }
        Ok(FetchPostBodyRich { blocks: out_blocks, images, files })
    }
}

/// A simple-text post body.
#[derive(Debug, Clone)]
pub struct FetchPostBodySimple {
    pub text: String,
    pub images: Vec<FetchPostImage>,
    pub files: Vec<FetchPostFile>,
}

/// A post body: rich (block-structured) or simple text.
#[derive(Debug, Clone)]
pub enum FetchPostBody {
    Rich(FetchPostBodyRich),
    Simple(FetchPostBodySimple),
}

/// Two image records equal by contents.
pub open spec fn image_matches(a: FetchPostImage, b: FetchPostImage) -> bool {
    a.id@ == b.id@ && a.extension@ == b.extension@ && a.width == b.width && a.height == b.height
        && a.original_url@ == b.original_url@ && a.thumbnail_url@ == b.thumbnail_url@
}

/// Two file records equal by contents.
pub open spec fn file_matches(a: FetchPostFile, b: FetchPostFile) -> bool {
    a.id@ == b.id@ && a.name@ == b.name@ && a.extension@ == b.extension@ && a.size == b.size
        && a.url@ == b.url@
}

fn clone_image(x: &FetchPostImage) -> (r: FetchPostImage)
    ensures
        image_matches(*x, r),
{
    FetchPostImage {
        id: x.id.clone(),
        extension: x.extension.clone(),
        width: x.width,
        height: x.height,
        original_url: x.original_url.clone(),
        thumbnail_url: x.thumbnail_url.clone(),
    }
}

fn clone_file(x: &FetchPostFile) -> (r: FetchPostFile)
    ensures
        file_matches(*x, r),
{
    FetchPostFile {
        id: x.id.clone(),
        name: x.name.clone(),
        extension: x.extension.clone(),
        size: x.size,
        url: x.url.clone(),
    }
}

impl FetchPostBody {
    /// The body's images, each with its position index: a rich body's
    /// images keep their block index, a simple body's images are numbered
    /// in order.
    pub fn images(&self) -> (r: Vec<(usize, FetchPostImage)>)
        ensures
            match self {
                FetchPostBody::Rich(rich) => r@.len() == rich.images@.len() && (forall|j: int|
                    0 <= j < r@.len() ==> (#[trigger] r@[j]).0 == rich.images@[j].0
                        && image_matches(rich.images@[j].1, r@[j].1)),
                FetchPostBody::Simple(simple) => r@.len() == simple.images@.len() && (forall|
                    j: int,
                |
                    0 <= j < r@.len() ==> (#[trigger] r@[j]).0 == j && image_matches(
                        simple.images@[j],
                        r@[j].1,
                    )),
            },
    {
        match self {
            FetchPostBody::Rich(rich) => {
                let mut out: Vec<(usize, FetchPostImage)> = Vec::new();
                let mut i: usize = 0;
                while i < rich.images.len()
                    invariant
                        0 <= i <= rich.images@.len(),
                        out@.len() == i,
                        forall|j: int|
                            0 <= j < i ==> (#[trigger] out@[j]).0 == rich.images@[j].0
                                && image_matches(rich.images@[j].1, out@[j].1),
                    decreases rich.images@.len() - i,
                {
                    out.push((rich.images[i].0, clone_image(&rich.images[i].1)));
                    i = i + 1;
                }
                out
            },
            FetchPostBody::Simple(simple) => {
                let mut out: Vec<(usize, FetchPostImage)> = Vec::new();
                let mut i: usize = 0;
                while i < simple.images.len()
                    invariant
                        0 <= i <= simple.images@.len(),
                        out@.len() == i,
                        forall|j: int|
                            0 <= j < i ==> (#[trigger] out@[j]).0 == j && image_matches(
                                simple.images@[j],
                                out@[j].1,
                            ),
                    decreases simple.images@.len() - i,
                {
                    out.push((i, clone_image(&simple.images[i])));
                    i = i + 1;
                }
                out
            },
        }
    }

    /// The body's files, each with its position index: a rich body's files
    /// keep their block index, a simple body's files are numbered after its
    /// images.
    pub fn files(&self) -> (r: Vec<(usize, FetchPostFile)>)
        requires
            self matches FetchPostBody::Simple(simple) ==> simple.images@.len()
                + simple.files@.len() <= usize::MAX,
        ensures
            match self {
                FetchPostBody::Rich(rich) => r@.len() == rich.files@.len() && (forall|j: int|
                    0 <= j < r@.len() ==> (#[trigger] r@[j]).0 == rich.files@[j].0 && file_matches(
                        rich.files@[j].1,
                        r@[j].1,
                    )),
                FetchPostBody::Simple(simple) => r@.len() == simple.files@.len() && (forall|
                    j: int,
                |
                    0 <= j < r@.len() ==> (#[trigger] r@[j]).0 == j + simple.images@.len()
                        && file_matches(simple.files@[j], r@[j].1)),
            },
    {
        match self {
            FetchPostBody::Rich(rich) => {
                let mut out: Vec<(usize, FetchPostFile)> = Vec::new();
                let mut i: usize = 0;
                while i < rich.files.len()
                    invariant
                        0 <= i <= rich.files@.len(),
                        out@.len() == i,
                        forall|j: int|
                            0 <= j < i ==> (#[trigger] out@[j]).0 == rich.files@[j].0
                                && file_matches(rich.files@[j].1, out@[j].1),
                    decreases rich.files@.len() - i,
                {
                    out.push((rich.files[i].0, clone_file(&rich.files[i].1)));
                    i = i + 1;
                }
                out
            },
            FetchPostBody::Simple(simple) => {
                let offset = simple.images.len();
                let mut out: Vec<(usize, FetchPostFile)> = Vec::new();
                let mut i: usize = 0;
                while i < simple.files.len()
                    invariant
                        0 <= i <= simple.files@.len(),
                        offset == simple.images@.len(),
                        offset + simple.files@.len() <= usize::MAX,
                        out@.len() == i,
                        forall|j: int|
                            0 <= j < i ==> (#[trigger] out@[j]).0 == j + offset && file_matches(
                                simple.files@[j],
                                out@[j].1,
                            ),
                    decreases simple.files@.len() - i,
                {
                    out.push((offset + i, clone_file(&simple.files[i])));
                    i = i + 1;
                }
                out
            },
        }
    }

    /// Whether the body is block-structured.
    pub fn is_rich(&self) -> (r: bool)
        ensures
            r == (self is Rich),
    {
        matches!(self, FetchPostBody::Rich(_))
    }
}

/// A post with its body, as the single-post endpoint returns it.
#[derive(Debug, Clone)]
pub struct FetchPostDetail {
    pub post: FetchPost,
    pub body: Option<FetchPostBody>,
}

/// The platform's response envelope: either an error string or a body.
#[derive(Debug, Clone)]
pub enum Response<T> {
    Errored { error: String },
    Success { body: T },
}

impl<T> Response<T> {
    /// Unwrap the envelope.
    pub fn into_body(self) -> (r: Result<T, String>)
        ensures
            self matches Response::Errored { error } ==> r == Err::<T, String>(error),
            self matches Response::Success { body } ==> r == Ok::<T, String>(body),
    {
        match self {
            Response::Errored { error } => Err(error),
            Response::Success { body } => Ok(body),
        }
    }
}

/// A creator the account supports, with the supported plan.
#[derive(Debug, Clone)]
pub struct SupportedCreator {
    pub id: u64,
    pub creator_id: String,
    pub user: Option<LinkedPixivUser>,
    pub has_adult_content: bool,
    pub fee: u64,
    pub title: String,
    pub description: String,
}

/// The filename a post's file is saved under: post id, position index, the
/// file's platform id, its original name, and its extension.
pub fn fanbox_file_filename(spec: &crate::db::FanboxFileDownloadSpec, id: &str) -> (r: String)
    ensures
        r@ == spec.post_id@ + "_"@ + crate::text::dec_of_i64(spec.idx as int) + "_"@ + id@ + "_"@
            + spec.name@ + "."@ + spec.ext@,
{
    let mut s = spec.post_id.clone();
    s.append("_");
    let idx = crate::text::i64_to_dec(spec.idx);
    s.append(idx.as_str());
    s.append("_");
    s.append(id);
    s.append("_");
    s.append(spec.name.as_str());
    s.append(".");
    s.append(spec.ext.as_str());
    s
}

/// The filename a post's image is saved under: post id, position index, the
/// image's platform id, and its extension.
pub fn fanbox_image_filename(spec: &crate::db::FanboxImageDownloadSpec, id: &str) -> (r: String)
    ensures
        r@ == spec.post_id@ + "_"@ + crate::text::dec_of_i64(spec.idx as int) + "_"@ + id@ + "."@
            + spec.ext@,
{
    let mut s = spec.post_id.clone();
    s.append("_");
    let idx = crate::text::i64_to_dec(spec.idx);
    s.append(idx.as_str());
    s.append("_");
    s.append(id);
    s.append(".");
    s.append(spec.ext.as_str());
    s
}

/// The request decorator of the subscription platform: attaches either the
/// configured raw header block or the session cookie, plus the site's
/// origin and referer.
pub struct FanboxRequest<'a>(pub &'a crate::config::Session);

impl FanboxRequest<'_> {
    /// The headers to attach: the raw header block when one was configured
    /// (overriding the plain cookie), else the session cookie; in either
    /// case the site's origin and referer follow. Demands one of the two.
    pub fn argument(&self) -> (r: Result<Vec<(String, String)>, crate::config::SessionError>)
        ensures
            match r {
                Ok(h) => h@.len() >= 2 && {
                    &&& h@[h@.len() - 2].0@ == "Origin"@
                    &&& h@[h@.len() - 2].1@ == "https://www.fanbox.cc"@
                    &&& h@[h@.len() - 1].0@ == "Referer"@
                    &&& h@[h@.len() - 1].1@ == "https://www.fanbox.cc/"@
                    &&& (match self.0.fanbox_header_full {
                        Some(pairs) => h@.len() == pairs@.len() + 2 && (forall|j: int|
                            0 <= j < pairs@.len() ==> (#[trigger] h@[j]).0@ == pairs@[j].0@ && h@[
                            j].1@ == pairs@[j].1@),
                        None => self.0.fanbox matches Some(u) && h@.len() == 3 && h@[0].0@
                            == "Cookie"@ && h@[0].1@ == "FANBOXSESSID="@ + u.cookie@ + ";"@,
                    })
                },
                Err(e) => e == crate::config::SessionError::MissingSession
                    && self.0.fanbox_header_full is None && self.0.fanbox is None,
            },
    {
        let mut out: Vec<(String, String)> = Vec::new();
        match &self.0.fanbox_header_full {
            Some(pairs) => {
                let mut j: usize = 0;
                while j < pairs.len()
                    invariant
                        0 <= j <= pairs@.len(),
                        out@.len() == j,
                        forall|m: int|
                            0 <= m < j ==> (#[trigger] out@[m]).0@ == pairs@[m].0@ && out@[m].1@
                                == pairs@[m].1@,
                    decreases pairs@.len() - j,
                {
                    out.push((pairs[j].0.clone(), pairs[j].1.clone()));
                    j = j + 1;
                }
            },
            None => {
                match &self.0.fanbox {
                    Some(u) => {
                        let mut cookie = String::from_str("FANBOXSESSID=");
                        cookie.append(u.cookie.as_str());
                        cookie.append(";");
                        out.push((String::from_str("Cookie"), cookie));
                    },
                    None => {
                        return Err(crate::config::SessionError::MissingSession);
                    },
                }
            },
        }
        out.push((String::from_str("Origin"), String::from_str("https://www.fanbox.cc")));
        out.push((String::from_str("Referer"), String::from_str("https://www.fanbox.cc/")));
        Ok(out)
    }
}

/// The single-post endpoint.
pub fn post_info_url(post_id: u64) -> (r: String)
    ensures
        r@ == "https://api.fanbox.cc/post.info?postId="@ + dec_of(post_id as int),
{
    let mut s = String::from_str("https://api.fanbox.cc/post.info?postId=");
    let id = crate::text::u64_to_dec(post_id);
    s.append(id.as_str());
    s
}

/// The endpoint listing a creator's feed pages, newest first.
pub fn paginate_creator_url(creator_id: &str) -> (r: String)
    ensures
        r@ == "https://api.fanbox.cc/post.paginateCreator?creatorId="@ + creator_id@
            + "&sort=newest"@,
{
    let mut s = String::from_str("https://api.fanbox.cc/post.paginateCreator?creatorId=");
    s.append(creator_id);
    s.append("&sort=newest");
    s
}

/// The endpoint listing the creators the account supports.
pub fn supporting_list_url() -> (r: String)
    ensures
        r@ == "https://api.fanbox.cc/plan.listSupporting"@,
{
    String::from_str("https://api.fanbox.cc/plan.listSupporting")
}

} // verus!
