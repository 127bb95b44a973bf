//! Data model for the illustration platform: visibility states, fetched
//! work metadata, and the parsed illustration entity.
//!
//! Timestamps are carried as milliseconds since the Unix epoch; the I/O
//! layer converts to and from its calendar types at the boundary.

use vstd::prelude::*;

verus! {

/// Visibility of an illustration as observed by a fetch.
///
/// `Normal` is a fully visible work with metadata; `Unlisted` is reachable
/// but delisted; `Masked` is hidden and carries no usable metadata.
#[derive(Debug, Clone, Copy, PartialEq, Eq, Structural)]
pub enum IllustState {
    Normal,
    Unlisted,
    Masked,
}

/// Content rating of a work.
#[derive(Debug, Clone, Copy, PartialEq, Eq, Structural)]
pub enum XRestrict {
    Public,
    R18,
    R18G,
}

/// Whether a work is flagged as AI-generated.
#[derive(Debug, Clone, Copy, PartialEq, Eq, Structural)]
pub enum AIType {
    Unspecified,
    NonAI,
    AI,
}

/// Kind of a work's binary payload.
#[derive(Debug, Clone, Copy, PartialEq, Eq, Structural)]
pub enum IllustType {
    Illustration,
    Manga,
    Ugoira,
}

/// A bookmark as it appears on a fetched work: its ordering id and privacy.
#[derive(Debug, Clone, Copy, PartialEq, Eq, Structural)]
pub struct BookmarkData {
    pub id: u64,
    pub private: bool,
}

/// One tag with the detail the tag-listing API attaches to it.
#[derive(Debug, Clone)]
pub struct DetailedTag {
    pub tag: String,
    pub locked: bool,
    pub deletable: bool,
    pub user_id: u64,
    pub user_name: String,
    pub romaji: Option<String>,
    pub translation: Vec<(String, String)>,
}

/// The tag list of a fetched work: either bare names or detailed entries.
#[derive(Debug, Clone)]
pub enum Tags {
    Brief(Vec<String>),
    Detailed { author_id: u64, is_locked: bool, writable: bool, tags: Vec<DetailedTag> },
}

impl Tags {
    /// The tag names, in order, regardless of which shape carries them.
    pub open spec fn spec_names(&self) -> Seq<Seq<char>> {
        match self {
            Tags::Brief(v) => v@.map_values(|s: String| s@),
            Tags::Detailed { tags, .. } => tags@.map_values(|t: DetailedTag| t.tag@),
        }
    }

    /// Extract the tag names.
    pub fn tag_names(&self) -> (r: Vec<String>)
        ensures
            r@.map_values(|s: String| s@) == self.spec_names(),
    {
        match self {
            Tags::Brief(v) => {
                let mut out: Vec<String> = Vec::new();
                let mut i: usize = 0;
                while i < v.len()
                    invariant
                        0 <= i <= v@.len(),
                        out@.len() == i,
                        forall|j: int| 0 <= j < i ==> out@[j]@ == v@[j]@,
                    decreases v@.len() - i,
                {
                    out.push(v[i].clone());
                    i = i + 1;
                }
                proof {
                    assert(out@.map_values(|s: String| s@) =~= self.spec_names());
                }
                out
            },
            Tags::Detailed { tags, .. } => {
                let mut out: Vec<String> = Vec::new();
                let mut i: usize = 0;
                while i < tags.len()
                    invariant
                        0 <= i <= tags@.len(),
                        out@.len() == i,
                        forall|j: int| 0 <= j < i ==> out@[j]@ == tags@[j].tag@,
                    decreases tags@.len() - i,
                {
                    out.push(tags[i].tag.clone());
                    i = i + 1;
                }
                proof {
                    assert(out@.map_values(|s: String| s@) =~= self.spec_names());
                }
                out
            },
        }
    }
}

/// The author of a work.
#[derive(Debug, Clone)]
pub struct Illustrator {
    pub id: u64,
    pub name: String,
    pub account: Option<String>,
}

/// Metadata a fully visible fetch carries.
#[derive(Debug, Clone)]
pub struct IllustDataSimple {
    pub title: String,
    pub tags: Tags,
    pub author: Illustrator,
    pub create_date: i64,
    pub update_date: i64,
    pub x_restrict: XRestrict,
    pub ai_type: AIType,
    pub illust_type: IllustType,
    pub page_count: u64,
}

/// Extra fields only the single-work detail endpoint returns.
#[derive(Debug, Clone)]
pub struct IllustDataDetail {
    pub desc: String,
    pub is_howto: bool,
    pub is_original: bool,
}

/// What is known about a work's content: nothing (unlisted or masked),
/// the listing-level metadata, or that plus the detail fields.
#[derive(Debug, Clone)]
pub enum IllustData {
    Unknown,
    Simple(IllustDataSimple),
    Detailed(IllustDataSimple, IllustDataDetail),
}

impl IllustData {
    /// The listing-level metadata, if any is known.
    pub open spec fn spec_simple(&self) -> Option<IllustDataSimple> {
        match self {
            IllustData::Unknown => None,
            IllustData::Simple(d) => Some(*d),
            IllustData::Detailed(d, _) => Some(*d),
        }
    }

    /// The detail fields, when the data came from the detail endpoint.
    pub open spec fn spec_detail(&self) -> Option<IllustDataDetail> {
        match self {
            IllustData::Detailed(_, e) => Some(*e),
            _ => None,
        }
    }

    pub fn as_simple(&self) -> (r: Option<&IllustDataSimple>)
        ensures
            match r {
                Some(d) => self.spec_simple() == Some(*d),
                None => self.spec_simple() is None,
            },
    {
        match self {
            IllustData::Unknown => None,
            IllustData::Simple(d) => Some(d),
            IllustData::Detailed(d, _) => Some(d),
        }
    }

    pub fn as_detail(&self) -> (r: Option<&IllustDataDetail>)
        ensures
            match r {
                Some(e) => self.spec_detail() == Some(*e),
                None => self.spec_detail() is None,
            },
    {
        match self {
            IllustData::Detailed(_, e) => Some(e),
            _ => None,
        }
    }

    /// The title to show: the fetched one, or a placeholder when the work's
    /// content is unknown.
    pub fn display_title(&self) -> (r: &str)
        ensures
            match self.spec_simple() {
                Some(d) => r@ == d.title@,
                None => r@ == "(unknown)"@,
            },
    {
        match self {
            IllustData::Unknown => "(unknown)",
            IllustData::Simple(d) => d.title.as_str(),
            IllustData::Detailed(d, _) => d.title.as_str(),
        }
    }
}

/// Which bookmark tags are known for a bookmarked work.
#[derive(Debug, Clone)]
pub enum IllustBookmarkTags {
    Known(Vec<String>),
    Unknown,
}

/// The bookmark a fetched work carries: its ordering id, privacy, and the
/// bookmark tags where the feed supplied them.
#[derive(Debug, Clone)]
pub struct IllustBookmarkState {
    pub id: u64,
    pub private: bool,
    pub tags: IllustBookmarkTags,
}

/// A parsed illustration as the store-reconciliation layer consumes it.
#[derive(Debug, Clone)]
pub struct Illust {
    pub id: u64,
    pub data: IllustData,
    pub state: IllustState,
    pub bookmark: Option<IllustBookmarkState>,
}

impl Illust {
    /// Content metadata is carried exactly for fully visible works.
    pub open spec fn wf(&self) -> bool {
        (self.state == IllustState::Normal) <==> !(self.data is Unknown)
    }
}

/// A work as the bookmark-listing API returns it.
#[derive(Debug, Clone)]
pub struct FetchWorkBrief {
    pub id: u64,
    pub title: String,
    pub tags: Tags,
    pub x_restrict: XRestrict,
    pub illust_type: IllustType,
    pub page_count: u64,
    pub restrict: u8,
    pub user_id: u64,
    pub user_name: String,
    pub user_account: Option<String>,
    pub bookmark_data: BookmarkData,
    pub create_date: i64,
    pub update_date: i64,
    pub width: u64,
    pub height: u64,
    pub is_unlisted: bool,
    pub is_masked: bool,
    pub ai_type: AIType,
}

impl FetchWorkBrief {
    /// The visibility state the flags denote.
    pub open spec fn spec_state(&self) -> IllustState {
        if self.is_unlisted {
            IllustState::Unlisted
        } else if self.is_masked {
            IllustState::Masked
        } else {
            IllustState::Normal
        }
    }

    /// The conversion's field equalities between a brief record and the
    /// illustration built from it, leaving the bookmark-tag shape open.
    pub open spec fn converts_core(&self, r: Illust) -> bool {
        &&& r.id == self.id
        &&& r.state == self.spec_state()
        &&& r.wf()
        &&& (r.state == IllustState::Normal ==> (r.data matches IllustData::Simple(d) && d.title
            == self.title && d.tags == self.tags && d.author.id == self.user_id && d.author.name
            == self.user_name && d.author.account == self.user_account && d.create_date
            == self.create_date && d.update_date == self.update_date && d.x_restrict
            == self.x_restrict && d.ai_type == self.ai_type && d.illust_type == self.illust_type
            && d.page_count == self.page_count))
        &&& (r.bookmark matches Some(b) && b.id == self.bookmark_data.id && b.private
            == self.bookmark_data.private)
    }

    /// Whether the conversion's ensured field equalities hold between a
    /// brief record and the illustration built from it.
    pub open spec fn converts_to(&self, r: Illust) -> bool {
        &&& self.converts_core(r)
        &&& (r.bookmark matches Some(b) && b.tags is Unknown)
    }

    /// Turn one fetched record into the illustration entity. A record
    /// cannot be both unlisted and masked.
    pub fn into_illust(self) -> (r: Illust)
        requires
            !(self.is_unlisted && self.is_masked),
        ensures
            self.converts_to(r),
    {
        let state = if self.is_unlisted {
            IllustState::Unlisted
        } else if self.is_masked {
            IllustState::Masked
        } else {
            IllustState::Normal
        };
        let data = if self.is_unlisted || self.is_masked {
            IllustData::Unknown
        } else {
            IllustData::Simple(
                IllustDataSimple {
                    title: self.title,
                    tags: self.tags,
                    author: Illustrator {
                        id: self.user_id,
                        name: self.user_name,
                        account: self.user_account,
                    },
                    create_date: self.create_date,
                    update_date: self.update_date,
                    x_restrict: self.x_restrict,
                    ai_type: self.ai_type,
                    illust_type: self.illust_type,
                    page_count: self.page_count,
                },
            )
        };
        Illust {
            id: self.id,
            data,
            state,
            bookmark: Some(
                IllustBookmarkState {
                    id: self.bookmark_data.id,
                    private: self.bookmark_data.private,
                    tags: IllustBookmarkTags::Unknown,
                },
            ),
        }
    }
}

/// One page of the bookmark feed.
#[derive(Debug, Clone)]
pub struct Bookmarks {
    /// The feed's total number of bookmarked works.
    pub total: usize,
    /// The works on this page.
    pub works: Vec<FetchWorkBrief>,
    /// The bookmark tags of this page's works, keyed by bookmark id.
    pub bookmark_tags: Vec<(u64, Vec<String>)>,
}

impl Bookmarks {
    /// Whether the page's works carry pairwise distinct bookmark ids.
    pub open spec fn distinct_bookmark_ids(works: Seq<FetchWorkBrief>) -> bool {
        forall|i: int, j: int|
            0 <= i < j < works.len() ==> (#[trigger] works[i]).bookmark_data.id != (
            #[trigger] works[j]).bookmark_data.id
    }

    /// Turn the page into illustration entities, attaching each work's
    /// bookmark tags (an absent entry means the work has none). Bookmark
    /// tags are attached even to unlisted or masked works.
    pub fn into_illusts(self) -> (r: Vec<Illust>)
        requires
            forall|i: int|
                0 <= i < self.works@.len() ==> !((#[trigger] self.works@[i]).is_unlisted
                    && self.works@[i].is_masked),
        ensures
            r@.len() == self.works@.len(),
            forall|i: int|
                0 <= i < r@.len() ==> self.works@[i].converts_core(#[trigger] r@[i]) && (r@[
                i].bookmark matches Some(b) && b.tags is Known),
            Self::distinct_bookmark_ids(self.works@) ==> forall|i: int|
                0 <= i < r@.len() ==> ((#[trigger] r@[i]).bookmark matches Some(b)
                    && b.tags matches IllustBookmarkTags::Known(ts) && (
                match crate::assoc::assoc_first_u64(
                    self.bookmark_tags@,
                    self.works@[i].bookmark_data.id,
                ) {
                    Some(v) => ts == v,
                    None => ts@.len() == 0,
                })),
    {
        let ghost orig_works = self.works@;
        let ghost orig_map = self.bookmark_tags@;
        let Bookmarks { works: mut works, bookmark_tags: mut tags_map, .. } = self;
        let mut out: Vec<Illust> = Vec::new();
        while works.len() > 0
            invariant
                out@.len() + works@.len() == orig_works.len(),
                works@ =~= orig_works.subrange(out@.len() as int, orig_works.len() as int),
                forall|i: int|
                    0 <= i < orig_works.len() ==> !((#[trigger] orig_works[i]).is_unlisted
                        && orig_works[i].is_masked),
                forall|i: int|
                    0 <= i < out@.len() ==> orig_works[i].converts_core(#[trigger] out@[i]) && (
                    out@[i].bookmark matches Some(b) && b.tags is Known),
                Self::distinct_bookmark_ids(orig_works) ==> {
                    &&& (forall|j: int|
                        out@.len() <= j < orig_works.len()
                            ==> crate::assoc::assoc_first_u64(
                            tags_map@,
                            (#[trigger] orig_works[j]).bookmark_data.id,
                        ) == crate::assoc::assoc_first_u64(
                            orig_map,
                            orig_works[j].bookmark_data.id,
                        ))
                    &&& (forall|i: int|
                        0 <= i < out@.len() ==> ((#[trigger] out@[i]).bookmark matches Some(b)
                            && b.tags matches IllustBookmarkTags::Known(ts) && (
                        match crate::assoc::assoc_first_u64(
                            orig_map,
                            orig_works[i].bookmark_data.id,
                        ) {
                            Some(v) => ts == v,
                            None => ts@.len() == 0,
                        })))
                },
            decreases works@.len(),
        {
            let ghost k = out@.len() as int;
            let w = works.remove(0);
            proof {
                assert(w == orig_works[k]);
                assert(works@ =~= orig_works.subrange(k + 1, orig_works.len() as int));
            }
            let taken = crate::assoc::assoc_take_u64(&mut tags_map, w.bookmark_data.id);
            let ts: Vec<String> = match taken {
                Some(v) => v,
                None => Vec::new(),
            };
            let mut illust = w.into_illust();
            match &mut illust.bookmark {
                Some(b) => {
                    b.tags = IllustBookmarkTags::Known(ts);
                },
                None => {},
            }
            out.push(illust);
        }
        out
    }
}

/// A work as the single-work detail API returns it.
#[derive(Debug, Clone)]
pub struct FetchWorkDetail {
    pub illust_id: u64,
    pub illust_title: String,
    pub illust_comment: String,
    pub description: String,
    pub brief: FetchWorkBrief,
    pub bookmark_count: u64,
    pub like_count: u64,
    pub comment_count: u64,
    pub view_count: u64,
    pub is_howto: bool,
    pub is_original: bool,
}

impl FetchWorkDetail {
    /// Turn a detail record into the illustration entity, attaching the
    /// detail fields when the work is fully visible. The record's repeated
    /// fields must agree with the embedded brief record.
    pub fn into_illust(self) -> (r: Illust)
        requires
            !(self.brief.is_unlisted && self.brief.is_masked),
            self.brief.spec_state() == IllustState::Normal ==> self.illust_comment@
                == self.description@ && self.illust_id == self.brief.id && self.illust_title@
                == self.brief.title@,
        ensures
            r.id == self.brief.id,
            r.state == self.brief.spec_state(),
            r.wf(),
            r.state == IllustState::Normal ==> (r.data matches IllustData::Detailed(d, e)
                && d.title == self.brief.title && d.tags == self.brief.tags && d.author.id
                == self.brief.user_id && d.page_count == self.brief.page_count && e.desc
                == self.description && e.is_howto == self.is_howto && e.is_original
                == self.is_original),
            r.state != IllustState::Normal ==> r.data is Unknown,
            r.bookmark matches Some(b) && b.id == self.brief.bookmark_data.id && b.private
                == self.brief.bookmark_data.private && b.tags is Unknown,
    {
        let FetchWorkDetail { description, is_howto, is_original, brief, .. } = self;
        let mut illust = brief.into_illust();
        let data = illust.data;
        illust.data = match data {
            IllustData::Unknown => IllustData::Unknown,
            IllustData::Simple(d) => IllustData::Detailed(
                d,
                IllustDataDetail { desc: description, is_howto, is_original },
            ),
            IllustData::Detailed(d, e) => IllustData::Detailed(d, e),
        };
        illust
    }
}

/// The URLs at which one page is served.
#[derive(Debug, Clone)]
pub struct PageUrls {
    pub mini: String,
    pub thumb: Option<String>,
    pub small: String,
    pub regular: String,
    pub original: String,
}

/// One page of a work: its URLs and pixel dimensions.
#[derive(Debug, Clone)]
pub struct Page {
    pub urls: PageUrls,
    pub width: u64,
    pub height: u64,
}

/// One frame of an animated work: the frame's filename inside the payload
/// archive and its display duration in milliseconds.
#[derive(Debug, Clone, PartialEq, Eq)]
pub struct UgoiraFrame {
    pub file: String,
    pub delay: u64,
}

/// The animation metadata of an animated work.
#[derive(Debug, Clone)]
pub struct UgoiraMeta {
    pub src: String,
    pub original_src: String,
    pub mime_type: String,
    pub frames: Vec<UgoiraFrame>,
}

/// Why an API response carried no usable body.
#[derive(Debug, Clone, PartialEq, Eq)]
pub enum ApiError {
    /// The API reported an error with this message.
    Errored(String),
    /// The API reported success but sent no body.
    MissingBody,
}

/// The platform's response envelope.
#[derive(Debug, Clone)]
pub struct Response<T> {
    pub error: bool,
    pub message: String,
    pub body: Option<T>,
}

impl<T> Response<T> {
    /// Unwrap the envelope: the body on success, the reported message on an
    /// API error, and a missing-body error when success carries nothing.
    pub fn into_body(self) -> (r: Result<T, ApiError>)
        ensures
            self.error ==> (r matches Err(e) && e == ApiError::Errored(self.message)),
            !self.error ==> match self.body {
                Some(b) => r == Ok::<T, ApiError>(b),
                None => r == Err::<T, ApiError>(ApiError::MissingBody),
            },
    {
        if self.error {
            Err(ApiError::Errored(self.message))
        } else {
            match self.body {
                Some(b) => Ok(b),
                None => Err(ApiError::MissingBody),
            }
        }
    }
}

/// The request decorator of the illustration platform: attaches the session
/// cookie and the browser identity to an outgoing request.
pub struct PixivRequest<'a>(pub &'a crate::config::Session);

impl PixivRequest<'_> {
    /// The headers to attach: the session cookie and a browser user agent.
    /// Demands a configured session.
    pub fn argument(&self) -> (r: Result<Vec<(String, String)>, crate::config::SessionError>)
        ensures
            match r {
                Ok(h) => self.0.pixiv matches Some(u) && h@.len() == 2 && h@[0].0@ == "Cookie"@
                    && h@[0].1@ == "PHPSESSID="@ + u.cookie@ + ";"@ && h@[1].0@ == "User-Agent"@
                    && h@[1].1@ == spec_user_agent(),
                Err(e) => e == crate::config::SessionError::MissingSession && self.0.pixiv is None,
            },
    {
        let session = match &self.0.pixiv {
            Some(u) => u,
            None => {
                return Err(crate::config::SessionError::MissingSession);
            },
        };
        let mut cookie = String::from_str("PHPSESSID=");
        cookie.append(session.cookie.as_str());
        cookie.append(";");
        let mut out: Vec<(String, String)> = Vec::new();
        out.push((String::from_str("Cookie"), cookie));
        out.push((String::from_str("User-Agent"), browser_user_agent().to_owned()));
        Ok(out)
    }
}

/// The browser identity outgoing requests claim.
pub open spec fn spec_user_agent() -> Seq<char> {
    "Mozilla/5.0 (Windows NT 10.0; Win64; x64) AppleWebKit/537.36 (KHTML, like Gecko) Chrome/58.0.3029.110 Safari/537.36"@
}

/// The browser identity outgoing requests claim.
pub fn browser_user_agent() -> (r: &'static str)
    ensures
        r@ == spec_user_agent(),
{
    "Mozilla/5.0 (Windows NT 10.0; Win64; x64) AppleWebKit/537.36 (KHTML, like Gecko) Chrome/58.0.3029.110 Safari/537.36"
}

/// The single-work endpoint.
pub fn illust_url(illust_id: u64) -> (r: String)
    ensures
        r@ == "https://www.pixiv.net/ajax/illust/"@ + crate::text::dec_of(illust_id as int),
{
    let mut s = String::from_str("https://www.pixiv.net/ajax/illust/");
    let id = crate::text::u64_to_dec(illust_id);
    s.append(id.as_str());
    s
}

/// The work-pages endpoint.
pub fn illust_pages_url(illust_id: u64) -> (r: String)
    ensures
        r@ == "https://www.pixiv.net/ajax/illust/"@ + crate::text::dec_of(illust_id as int)
            + "/pages"@,
{
    let mut s = illust_url(illust_id);
    s.append("/pages");
    s
}

/// The animation-metadata endpoint.
pub fn illust_ugoira_meta_url(illust_id: u64) -> (r: String)
    ensures
        r@ == "https://www.pixiv.net/ajax/illust/"@ + crate::text::dec_of(illust_id as int)
            + "/ugoira_meta"@,
{
    let mut s = illust_url(illust_id);
    s.append("/ugoira_meta");
    s
}

/// The bookmark-feed endpoint of one user.
pub fn bookmarks_url(uid: u64) -> (r: String)
    ensures
        r@ == "https://www.pixiv.net/ajax/user/"@ + crate::text::dec_of(uid as int)
            + "/illusts/bookmarks"@,
{
    let mut s = String::from_str("https://www.pixiv.net/ajax/user/");
    let id = crate::text::u64_to_dec(uid);
    s.append(id.as_str());
    s.append("/illusts/bookmarks");
    s
}

/// The query parameters of one bookmark-feed page: the filtering tag (empty
/// for all), the page's offset and size, whether the private or the public
/// feed is read, and the response language.
pub fn bookmarks_query(tag: Option<&str>, offset: usize, limit: usize, hidden: bool) -> (r: Vec<
    (String, String),
>)
    ensures
        r@.len() == 5,
        r@[0].0@ == "tag"@ && r@[0].1@ == (match tag {
            Some(t) => t@,
            None => ""@,
        }),
        r@[1].0@ == "offset"@ && r@[1].1@ == crate::text::dec_of(offset as int),
        r@[2].0@ == "limit"@ && r@[2].1@ == crate::text::dec_of(limit as int),
        r@[3].0@ == "rest"@ && r@[3].1@ == (if hidden {
            "hide"@
        } else {
            "show"@
        }),
        r@[4].0@ == "lang"@ && r@[4].1@ == "en"@,
{
    let mut out: Vec<(String, String)> = Vec::new();
    let tag_value = match tag {
        Some(t) => t.to_owned(),
        None => String::from_str(""),
    };
    out.push((String::from_str("tag"), tag_value));
    out.push((String::from_str("offset"), crate::text::u64_to_dec(offset as u64)));
    out.push((String::from_str("limit"), crate::text::u64_to_dec(limit as u64)));
    let rest = if hidden {
        String::from_str("hide")
    } else {
        String::from_str("show")
    };
    out.push((String::from_str("rest"), rest));
    out.push((String::from_str("lang"), String::from_str("en")));
    out
}

} // verus!
