//! Extraction of media posts from home-timeline items.
//!
//! | `embed.$type`            | handling                                   |
//! |--------------------------|--------------------------------------------|
//! | `images#view`            | taken (the first four images)              |
//! | `video#view`             | taken                                      |
//! | `recordWithMedia#view`   | its `media` part only                      |
//! | `external#view`          | left out unless `include_external`         |
//! | `record#view` / no embed | left out                                   |
//!
//! A post without any media yields `None` (it is not stored).

use crate::clock::{parse_ts, rfc3339_seconds};
use crate::json::{field, get_field, i64_of, non_empty, opt_ref, str_field, str_of, JsonValue};
use crate::models::{decode_author, Author, AuthorView, FeedSpec, FeedViewPost, PostView};
use crate::text::{owned, str_eq};
use vstd::prelude::*;

verus! {

pub const KIND_IMAGE: &'static str = "image";
pub const KIND_VIDEO: &'static str = "video";

pub const REASON_REPOST: &'static str = "app.bsky.feed.defs#reasonRepost";
pub const EMBED_IMAGES: &'static str = "app.bsky.embed.images#view";
pub const EMBED_VIDEO: &'static str = "app.bsky.embed.video#view";
pub const EMBED_RECORD_WITH_MEDIA: &'static str = "app.bsky.embed.recordWithMedia#view";
pub const EMBED_EXTERNAL: &'static str = "app.bsky.embed.external#view";

/// The most images taken from one post.
pub const MAX_IMAGES: usize = 4;

/// An `actors` row.
pub struct ActorRow {
    pub did: String,
    pub handle: String,
    pub display_name: Option<String>,
    pub avatar_url: Option<String>,
}

impl View for ActorRow {
    type V = AuthorView;

    open spec fn view(&self) -> AuthorView {
        AuthorView {
            did: self.did@,
            handle: self.handle@,
            display_name: self.display_name.deep_view(),
            avatar: self.avatar_url.deep_view(),
        }
    }
}

impl ActorRow {
    /// The row of an author.
    pub fn from_author(a: Author) -> (r: ActorRow)
        ensures
            r@ == a@,
    {
        ActorRow {
            did: a.did,
            handle: a.handle,
            display_name: a.display_name,
            avatar_url: a.avatar,
        }
    }
}

/// A `media` row.
pub struct ExtractedMedia {
    pub idx: i64,
    pub kind: &'static str,
    pub thumb_url: String,
    pub fullsize_url: Option<String>,
    pub playlist_url: Option<String>,
    pub alt: Option<String>,
    pub aspect_w: Option<i64>,
    pub aspect_h: Option<i64>,
}

/// The plain-value view of an [`ExtractedMedia`].
pub struct MediaView {
    pub idx: i64,
    pub kind: Seq<char>,
    pub thumb_url: Seq<char>,
    pub fullsize_url: Option<Seq<char>>,
    pub playlist_url: Option<Seq<char>>,
    pub alt: Option<Seq<char>>,
    pub aspect_w: Option<i64>,
    pub aspect_h: Option<i64>,
}

impl View for ExtractedMedia {
    type V = MediaView;

    open spec fn view(&self) -> MediaView {
        MediaView {
            idx: self.idx,
            kind: self.kind@,
            thumb_url: self.thumb_url@,
            fullsize_url: self.fullsize_url.deep_view(),
            playlist_url: self.playlist_url.deep_view(),
            alt: self.alt.deep_view(),
            aspect_w: self.aspect_w,
            aspect_h: self.aspect_h,
        }
    }
}

/// A post with its media, ready for the `actors` / `posts` / `media` tables.
/// `labels` is the post's label array (kept as JSON, stored as its JSON text).
pub struct ExtractedPost {
    pub uri: String,
    pub cid: String,
    pub author: ActorRow,
    pub reposter: Option<ActorRow>,
    pub created_at: i64,
    pub indexed_at: i64,
    pub text: Option<String>,
    pub labels: Option<JsonValue>,
    pub media: Vec<ExtractedMedia>,
}

/// The plain-value view of an [`ExtractedPost`].
pub struct PostExtract {
    pub uri: Seq<char>,
    pub cid: Seq<char>,
    pub author: AuthorView,
    pub reposter: Option<AuthorView>,
    pub created_at: i64,
    pub indexed_at: i64,
    pub text: Option<Seq<char>>,
    pub labels: Option<JsonValue>,
    pub media: Seq<MediaView>,
}

/// The views of a sequence of media rows.
pub open spec fn media_views(ms: Seq<ExtractedMedia>) -> Seq<MediaView> {
    ms.map_values(|m: ExtractedMedia| m@)
}

/// The view of an optional actor row.
pub open spec fn opt_actor_view(a: Option<ActorRow>) -> Option<AuthorView> {
    match a {
        Some(x) => Some(x@),
        None => None,
    }
}

impl View for ExtractedPost {
    type V = PostExtract;

    open spec fn view(&self) -> PostExtract {
        PostExtract {
            uri: self.uri@,
            cid: self.cid@,
            author: self.author@,
            reposter: opt_actor_view(self.reposter),
            created_at: self.created_at,
            indexed_at: self.indexed_at,
            text: self.text.deep_view(),
            labels: self.labels,
            media: media_views(self.media@),
        }
    }
}

// --- specification of the extraction ---

/// `aspectRatio.width` / `aspectRatio.height` of an embed or image.
pub open spec fn aspect_of(v: JsonValue) -> (Option<i64>, Option<i64>) {
    let ar = v.member("aspectRatio"@);
    (i64_of(field(ar, "width"@)), i64_of(field(ar, "height"@)))
}

/// A non-empty `alt` text.
pub open spec fn alt_of(v: JsonValue) -> Option<Seq<char>> {
    non_empty(str_of(v.member("alt"@)))
}

/// The media row of image number `i`, when it has a `thumb`.
pub open spec fn image_entry(img: JsonValue, i: i64) -> Option<MediaView> {
    match str_of(img.member("thumb"@)) {
        Some(t) => Some(
            MediaView {
                idx: i,
                kind: KIND_IMAGE@,
                thumb_url: t,
                fullsize_url: str_of(img.member("fullsize"@)),
                playlist_url: None,
                alt: alt_of(img),
                aspect_w: aspect_of(img).0,
                aspect_h: aspect_of(img).1,
            },
        ),
        None => None,
    }
}

/// The media rows of the first `n` images.
pub open spec fn images_upto(imgs: Seq<JsonValue>, n: int) -> Seq<MediaView>
    decreases n,
{
    if n <= 0 {
        Seq::empty()
    } else {
        let rest = images_upto(imgs, n - 1);
        match image_entry(imgs[n - 1], (n - 1) as i64) {
            Some(m) => rest.push(m),
            None => rest,
        }
    }
}

/// The media rows of an `images#view` embed (at most four).
pub open spec fn images_of(embed: JsonValue) -> Seq<MediaView> {
    match embed.member("images"@) {
        Some(JsonValue::Array(a)) => images_upto(
            a@,
            if a@.len() < 4 {
                a@.len() as int
            } else {
                4
            },
        ),
        _ => Seq::empty(),
    }
}

/// The media row of a `video#view` embed, when it has a `playlist`.
pub open spec fn video_of(embed: JsonValue) -> Seq<MediaView> {
    match str_of(embed.member("playlist"@)) {
        Some(p) => seq![
            MediaView {
                idx: 0,
                kind: KIND_VIDEO@,
                thumb_url: match str_of(embed.member("thumbnail"@)) {
                    Some(t) => t,
                    None => Seq::empty(),
                },
                fullsize_url: None,
                playlist_url: Some(p),
                alt: alt_of(embed),
                aspect_w: aspect_of(embed).0,
                aspect_h: aspect_of(embed).1,
            },
        ],
        None => Seq::empty(),
    }
}

/// The media row of an `external#view` embed: its link-card thumbnail as an image.
pub open spec fn external_of(embed: JsonValue) -> Seq<MediaView> {
    match embed.member("external"@) {
        Some(ext) => match str_of(ext.member("thumb"@)) {
            Some(t) => seq![
                MediaView {
                    idx: 0,
                    kind: KIND_IMAGE@,
                    thumb_url: t,
                    fullsize_url: Some(t),
                    playlist_url: None,
                    alt: non_empty(str_of(ext.member("title"@))),
                    aspect_w: None,
                    aspect_h: None,
                },
            ],
            None => Seq::empty(),
        },
        None => Seq::empty(),
    }
}

/// The media rows of an embed, by its `$type`.
pub open spec fn embed_media(embed: JsonValue, include_external: bool) -> Seq<MediaView>
    decreases embed,
{
    let t = str_of(embed.member("$type"@));
    if t == Some(EMBED_IMAGES@) {
        images_of(embed)
    } else if t == Some(EMBED_VIDEO@) {
        video_of(embed)
    } else if t == Some(EMBED_RECORD_WITH_MEDIA@) {
        match embed.member("media"@) {
            Some(m) => {
                proof {
                    embed.lemma_member_decreases("media"@);
                }
                embed_media(m, include_external)
            },
            None => Seq::empty(),
        }
    } else if t == Some(EMBED_EXTERNAL@) && include_external {
        external_of(embed)
    } else {
        Seq::empty()
    }
}

/// The media rows of an optional embed.
pub open spec fn media_of(embed: Option<JsonValue>, include_external: bool) -> Seq<MediaView> {
    match embed {
        Some(e) => embed_media(e, include_external),
        None => Seq::empty(),
    }
}

/// The reposter and the repost time of a `reasonRepost` reason.
pub open spec fn reason_of(reason: Option<JsonValue>) -> (Option<AuthorView>, Option<i64>) {
    match reason {
        Some(r) => if str_of(r.member("$type"@)) == Some(REASON_REPOST@) {
            (
                match r.member("by"@) {
                    Some(by) => decode_author(by),
                    None => None,
                },
                match str_of(r.member("indexedAt"@)) {
                    Some(s) => rfc3339_seconds(s),
                    None => None,
                },
            )
        } else {
            (None, None)
        },
        None => (None, None),
    }
}

/// The post's label array, when it is a non-empty array.
pub open spec fn labels_of(labels: Option<JsonValue>) -> Option<JsonValue> {
    match labels {
        Some(JsonValue::Array(a)) => if a@.len() > 0 {
            labels
        } else {
            None
        },
        _ => None,
    }
}

/// The ordering time of an item: the repost time for a repost, else the
/// post's `indexedAt` (0 when unreadable).
pub open spec fn timeline_time(post_indexed: Option<i64>, repost: Option<i64>) -> i64 {
    match repost {
        Some(t) => t,
        None => match post_indexed {
            Some(t) => t,
            None => 0,
        },
    }
}

/// The creation time of an item: the record's `createdAt`, else its ordering time.
pub open spec fn creation_time(indexed_at: i64, created: Option<i64>) -> i64 {
    match created {
        Some(t) => t,
        None => indexed_at,
    }
}

/// What extraction yields for a timeline item.
pub open spec fn extract_spec(item: FeedSpec, include_external: bool) -> Option<PostExtract> {
    let post = item.post;
    let media = media_of(post.embed, include_external);
    if media.len() == 0 {
        None
    } else {
        let (reposter, repost_ts) = reason_of(item.reason);
        let indexed_at = timeline_time(rfc3339_seconds(post.indexed_at), repost_ts);
        let created = match str_of(field(post.record, "createdAt"@)) {
            Some(s) => rfc3339_seconds(s),
            None => None,
        };
        Some(
            PostExtract {
                uri: post.uri,
                cid: post.cid,
                author: post.author,
                reposter,
                created_at: creation_time(indexed_at, created),
                indexed_at,
                text: non_empty(str_of(field(post.record, "text"@))),
                labels: labels_of(post.labels),
                media,
            },
        )
    }
}

// --- implementation ---

/// The ordering and creation times of an item, from its parsed timestamps:
/// the repost time wins over the post's `indexedAt` (0 when neither reads),
/// and the record's `createdAt` falls back to the ordering time.
pub fn order_times(post_indexed: Option<i64>, repost: Option<i64>, created: Option<i64>) -> (r: (
    i64,
    i64,
))
    ensures
        r.0 == timeline_time(post_indexed, repost),
        r.1 == creation_time(r.0, created),
{
    let indexed_at = match repost {
        Some(t) => t,
        None => match post_indexed {
            Some(t) => t,
            None => 0,
        },
    };
    let created_at = match created {
        Some(t) => t,
        None => indexed_at,
    };
    (indexed_at, created_at)
}

fn aspect(v: &JsonValue) -> (r: (Option<i64>, Option<i64>))
    ensures
        r == aspect_of(*v),
{
    let ar = v.get("aspectRatio");
    let w = match get_field(ar, "width") {
        Some(x) => x.as_i64(),
        None => None,
    };
    let h = match get_field(ar, "height") {
        Some(x) => x.as_i64(),
        None => None,
    };
    (w, h)
}

fn non_empty_string(s: Option<&str>) -> (r: Option<String>)
    ensures
        r.deep_view() == non_empty(match s {
            Some(t) => Some(t@),
            None => None,
        }),
{
    match s {
        Some(t) => if t.is_empty() {
            None
        } else {
            Some(owned(t))
        },
        None => None,
    }
}

fn alt_text(v: &JsonValue) -> (r: Option<String>)
    ensures
        r.deep_view() == alt_of(*v),
{
    non_empty_string(str_field(v.get("alt")))
}

fn opt_string(s: Option<&str>) -> (r: Option<String>)
    ensures
        r.deep_view() == match s {
            Some(t) => Some(t@),
            None => None::<Seq<char>>,
        },
{
    match s {
        Some(t) => Some(owned(t)),
        None => None,
    }
}

/// `images#view` → up to four image rows; `idx` is the image's position.
fn build_images(embed: &JsonValue) -> (r: Vec<ExtractedMedia>)
    ensures
        media_views(r@) == images_of(*embed),
{
    let images = match embed.get("images") {
        Some(x) => x.as_array(),
        None => None,
    };
    let images = match images {
        Some(a) => a,
        None => return Vec::new(),
    };
    let n = if images.len() < MAX_IMAGES {
        images.len()
    } else {
        MAX_IMAGES
    };
    let mut out: Vec<ExtractedMedia> = Vec::new();
    let mut i: usize = 0;
    while i < n
        invariant
            n <= images@.len(),
            n <= 4,
            i <= n,
            media_views(out@) == images_upto(images@, i as int),
        decreases n - i,
    {
        let img = &images[i];
        let thumb = str_field(img.get("thumb"));
        if let Some(t) = thumb {
            let (aw, ah) = aspect(img);
            let m = ExtractedMedia {
                idx: i as i64,
                kind: KIND_IMAGE,
                thumb_url: owned(t),
                fullsize_url: opt_string(str_field(img.get("fullsize"))),
                playlist_url: None,
                alt: alt_text(img),
                aspect_w: aw,
                aspect_h: ah,
            };
            out.push(m);
            assert(media_views(out@) =~= images_upto(images@, i as int).push(m@));
        }
        i += 1;
    }
    out
}

/// `video#view` → one row: `thumbnail` for the tile, `playlist` (HLS) for playback.
fn build_video(embed: &JsonValue) -> (r: Vec<ExtractedMedia>)
    ensures
        media_views(r@) == video_of(*embed),
{
    let playlist = match str_field(embed.get("playlist")) {
        Some(p) => p,
        None => return Vec::new(),
    };
    let (aw, ah) = aspect(embed);
    let thumb = match str_field(embed.get("thumbnail")) {
        Some(t) => owned(t),
        None => String::new(),
    };
    let m = ExtractedMedia {
        idx: 0,
        kind: KIND_VIDEO,
        thumb_url: thumb,
        fullsize_url: None,
        playlist_url: Some(owned(playlist)),
        alt: alt_text(embed),
        aspect_w: aw,
        aspect_h: ah,
    };
    let mut out: Vec<ExtractedMedia> = Vec::new();
    out.push(m);
    assert(media_views(out@) =~= video_of(*embed));
    out
}

/// `external#view` → its link-card thumbnail as one image row.
fn build_external(embed: &JsonValue) -> (r: Vec<ExtractedMedia>)
    ensures
        media_views(r@) == external_of(*embed),
{
    let ext = match embed.get("external") {
        Some(e) => e,
        None => return Vec::new(),
    };
    let thumb = match str_field(ext.get("thumb")) {
        Some(t) => t,
        None => return Vec::new(),
    };
    let m = ExtractedMedia {
        idx: 0,
        kind: KIND_IMAGE,
        thumb_url: owned(thumb),
        fullsize_url: Some(owned(thumb)),
        playlist_url: None,
        alt: non_empty_string(str_field(ext.get("title"))),
        aspect_w: None,
        aspect_h: None,
    };
    let mut out: Vec<ExtractedMedia> = Vec::new();
    out.push(m);
    assert(media_views(out@) =~= external_of(*embed));
    out
}

/// The media rows of an optional embed (see the table at the top of this module).
pub fn extract_media(embed: Option<&JsonValue>, include_external: bool) -> (r: Vec<ExtractedMedia>)
    ensures
        media_views(r@) == media_of(opt_ref(embed), include_external),
{
    match embed {
        Some(e) => embed_rows(e, include_external),
        None => Vec::new(),
    }
}

/// The media rows of an embed, by its `$type`.
fn embed_rows(embed: &JsonValue, include_external: bool) -> (r: Vec<ExtractedMedia>)
    ensures
        media_views(r@) == embed_media(*embed, include_external),
    decreases *embed,
{
    let t = str_field(embed.get("$type"));
    let is = |s: &str| -> (b: bool)
        ensures
            b == (t matches Some(x) && x@ == s@),
        {
            match t {
                Some(x) => str_eq(x, s),
                None => false,
            }
        };
    if is(EMBED_IMAGES) {
        build_images(embed)
    } else if is(EMBED_VIDEO) {
        build_video(embed)
    } else if is(EMBED_RECORD_WITH_MEDIA) {
        match embed.get("media") {
            Some(m) => {
                proof {
                    embed.lemma_member_decreases("media"@);
                }
                embed_rows(m, include_external)
            },
            None => Vec::new(),
        }
    } else if is(EMBED_EXTERNAL) && include_external {
        build_external(embed)
    } else {
        Vec::new()
    }
}

/// The reposter and repost time of a `reasonRepost` reason; `(None, None)` otherwise.
pub fn parse_reason(reason: Option<&JsonValue>) -> (r: (Option<ActorRow>, Option<i64>))
    ensures
        opt_actor_view(r.0) == reason_of(opt_ref(reason)).0,
        r.1 == reason_of(opt_ref(reason)).1,
{
    let reason = match reason {
        Some(x) => x,
        None => return (None, None),
    };
    let is_repost = match str_field(reason.get("$type")) {
        Some(t) => str_eq(t, REASON_REPOST),
        None => false,
    };
    if !is_repost {
        return (None, None);
    }
    let actor = match reason.get("by") {
        Some(by) => match Author::from_json(by) {
            Some(a) => Some(ActorRow::from_author(a)),
            None => None,
        },
        None => None,
    };
    let ts = match str_field(reason.get("indexedAt")) {
        Some(s) => parse_ts(s),
        None => None,
    };
    (actor, ts)
}

/// Extracts the media post of a timeline item; `None` when it has no media.
pub fn extract(item: FeedViewPost, include_external: bool) -> (r: Option<ExtractedPost>)
    ensures
        r is Some <==> extract_spec(item@, include_external) is Some,
        r matches Some(p) ==> extract_spec(item@, include_external) == Some(p@),
{
    let ghost spec_item = item@;
    let FeedViewPost { post, reason } = item;
    let PostView { uri, cid, author, record, embed, labels, indexed_at } = post;
    let media = extract_media(embed.as_ref(), include_external);
    if media.len() == 0 {
        return None;
    }
    let post_indexed = parse_ts(indexed_at.as_str());
    let (reposter, repost_ts) = parse_reason(reason.as_ref());
    let created = match str_field(get_field(record.as_ref(), "createdAt")) {
        Some(s) => parse_ts(s),
        None => None,
    };
    let (indexed_at, created_at) = order_times(post_indexed, repost_ts, created);
    let text = non_empty_string(str_field(get_field(record.as_ref(), "text")));
    let labels = match labels {
        Some(JsonValue::Array(a)) => if a.len() > 0 {
            Some(JsonValue::Array(a))
        } else {
            None
        },
        _ => None,
    };
    Some(
        ExtractedPost {
            uri,
            cid,
            author: ActorRow::from_author(author),
            reposter,
            created_at,
            indexed_at,
            text,
            labels,
            media,
        },
    )
}

// --- laws ---

/// The first `n` images give at most `n` rows.
proof fn lemma_images_upto_len(imgs: Seq<JsonValue>, n: int)
    requires
        n >= 0,
    ensures
        images_upto(imgs, n).len() <= n,
    decreases n,
{
    if n > 0 {
        lemma_images_upto_len(imgs, n - 1);
    }
}

/// An embed gives at most four media rows.
proof fn lemma_embed_media_len(embed: JsonValue, include_external: bool)
    ensures
        embed_media(embed, include_external).len() <= MAX_IMAGES,
    decreases embed,
{
    if let Some(JsonValue::Array(a)) = embed.member("images"@) {
        lemma_images_upto_len(a@, if a@.len() < 4 { a@.len() as int } else { 4 });
    }
    if let Some(m) = embed.member("media"@) {
        embed.lemma_member_decreases("media"@);
        lemma_embed_media_len(m, include_external);
    }
}

/// A stored post has between one and four media: a post without media is
/// not stored, and an image post keeps at most its first four images.
pub proof fn law_media_per_post(item: FeedSpec, include_external: bool)
    ensures
        extract_spec(item, include_external) matches Some(p) ==> 1 <= p.media.len() <= MAX_IMAGES,
{
    if let Some(e) = item.post.embed {
        lemma_embed_media_len(e, include_external);
    }
}

/// A post without an embed, or whose embed is a quote of a record alone,
/// is not stored; a link card is stored only when link cards are taken.
pub proof fn law_excluded_embeds(item: FeedSpec, include_external: bool)
    ensures
        item.post.embed is None ==> extract_spec(item, include_external) is None,
        (item.post.embed matches Some(e) && str_of(e.member("$type"@)) == Some(
            "app.bsky.embed.record#view"@,
        )) ==> extract_spec(item, include_external) is None,
        (item.post.embed matches Some(e) && str_of(e.member("$type"@)) == Some(EMBED_EXTERNAL@))
            ==> extract_spec(item, false) is None,
{
    reveal_strlit("app.bsky.embed.record#view");
    reveal_strlit("app.bsky.embed.images#view");
    reveal_strlit("app.bsky.embed.video#view");
    reveal_strlit("app.bsky.embed.recordWithMedia#view");
    reveal_strlit("app.bsky.embed.external#view");
    if let Some(e) = item.post.embed {
        let t = str_of(e.member("$type"@));
        if t == Some("app.bsky.embed.record#view"@) {
            assert("app.bsky.embed.record#view"@[15] != EMBED_IMAGES@[15]);
            assert("app.bsky.embed.record#view"@.len() != EMBED_VIDEO@.len());
            assert("app.bsky.embed.record#view"@.len() != EMBED_RECORD_WITH_MEDIA@.len());
            assert("app.bsky.embed.record#view"@[15] != EMBED_EXTERNAL@[15]);
        }
        if t == Some(EMBED_EXTERNAL@) {
            assert(EMBED_EXTERNAL@.len() != EMBED_IMAGES@.len());
            assert(EMBED_EXTERNAL@.len() != EMBED_VIDEO@.len());
            assert(EMBED_EXTERNAL@.len() != EMBED_RECORD_WITH_MEDIA@.len());
        }
    }
}

/// A repost is ordered by the time it was reposted (not the post's own
/// time), records who reposted it, and keeps the post's creation time.
pub proof fn law_repost_ordering(item: FeedSpec, include_external: bool)
    ensures
        extract_spec(item, include_external) matches Some(p) ==> p.reposter == reason_of(item.reason).0,
        extract_spec(item, include_external) matches Some(p) ==> p.indexed_at == timeline_time(
            rfc3339_seconds(item.post.indexed_at),
            reason_of(item.reason).1,
        ),
        extract_spec(item, include_external) matches Some(p) ==> (reason_of(item.reason).1 matches Some(
            t,
        ) ==> p.indexed_at == t),
        extract_spec(item, include_external) matches Some(p) ==> (str_of(
            field(item.post.record, "createdAt"@),
        ) matches Some(c) ==> p.created_at == creation_time(p.indexed_at, rfc3339_seconds(c))),
{
}

/// The rows of the first `n` images: each is the image at its `idx`, with
/// that image's `thumb` and `fullsize` texts; every one of those images with
/// a `thumb` has a row.
#[verifier::rlimit(40)]
proof fn lemma_image_rows(imgs: Seq<JsonValue>, n: int)
    requires
        0 <= n <= imgs.len(),
        n <= 4,
    ensures
        forall|j: int|
            0 <= j < images_upto(imgs, n).len() ==> {
                let m = #[trigger] images_upto(imgs, n)[j];
                &&& 0 <= m.idx < n
                &&& m.kind == KIND_IMAGE@
                &&& str_of(imgs[m.idx as int].member("thumb"@)) == Some(m.thumb_url)
                &&& m.fullsize_url == str_of(imgs[m.idx as int].member("fullsize"@))
                &&& m.playlist_url is None
                &&& m.alt == non_empty(str_of(imgs[m.idx as int].member("alt"@)))
                &&& m.aspect_w == i64_of(field(imgs[m.idx as int].member("aspectRatio"@), "width"@))
                &&& m.aspect_h == i64_of(field(imgs[m.idx as int].member("aspectRatio"@), "height"@))
            },
        forall|i: int|
            0 <= i < n && (#[trigger] str_of(imgs[i].member("thumb"@))) is Some ==> exists|j: int|
                0 <= j < images_upto(imgs, n).len() && images_upto(imgs, n)[j].idx == i,
    decreases n,
{
    if n > 0 {
        lemma_image_rows(imgs, n - 1);
        let rest = images_upto(imgs, n - 1);
        let all = images_upto(imgs, n);
        match image_entry(imgs[n - 1], (n - 1) as i64) {
            Some(m) => {
                assert(all == rest.push(m));
                assert(m.idx == n - 1);
                assert forall|j: int| 0 <= j < all.len() implies {
                    let r = #[trigger] all[j];
                    &&& 0 <= r.idx < n
                    &&& r.kind == KIND_IMAGE@
                    &&& str_of(imgs[r.idx as int].member("thumb"@)) == Some(r.thumb_url)
                    &&& r.fullsize_url == str_of(imgs[r.idx as int].member("fullsize"@))
                    &&& r.playlist_url is None
                    &&& r.alt == non_empty(str_of(imgs[r.idx as int].member("alt"@)))
                    &&& r.aspect_w == i64_of(field(imgs[r.idx as int].member("aspectRatio"@), "width"@))
                    &&& r.aspect_h == i64_of(field(imgs[r.idx as int].member("aspectRatio"@), "height"@))
                } by {
                    if j < rest.len() {
                        assert(all[j] == rest[j]);
                    }
                }
                assert forall|i: int|
                    0 <= i < n && (#[trigger] str_of(imgs[i].member("thumb"@))) is Some implies exists|j: int|
                        0 <= j < all.len() && all[j].idx == i by {
                    if i == n - 1 {
                        assert(all[rest.len() as int].idx == i);
                    } else {
                        let j = choose|j: int| 0 <= j < rest.len() && rest[j].idx == i;
                        assert(all[j] == rest[j]);
                    }
                }
            },
            None => {
                assert(all == rest);
            },
        }
    }
}

/// The rows of an image embed carry each image's own data: every row is the
/// image at its position among the first four, with that image's `thumb` as
/// thumbnail, its `fullsize` string (absent only when the image has none) as
/// the full-size URL, no playlist, its non-empty `alt` and its
/// `aspectRatio`; and every one of the first four images that has a `thumb`
/// gives a row.
pub proof fn law_image_rows_carry_their_urls(
    item: FeedSpec,
    include_external: bool,
    e: JsonValue,
    images: Vec<JsonValue>,
)
    requires
        item.post.embed == Some(e),
        str_of(e.member("$type"@)) == Some("app.bsky.embed.images#view"@),
        e.member("images"@) == Some(JsonValue::Array(images)),
    ensures
        extract_spec(item, include_external) matches Some(p) ==> forall|j: int|
            0 <= j < p.media.len() ==> {
                let m = #[trigger] p.media[j];
                &&& 0 <= m.idx < 4
                &&& m.idx < images@.len()
                &&& m.kind == "image"@
                &&& str_of(images@[m.idx as int].member("thumb"@)) == Some(m.thumb_url)
                &&& m.fullsize_url == str_of(images@[m.idx as int].member("fullsize"@))
                &&& m.playlist_url is None
                &&& m.alt == non_empty(str_of(images@[m.idx as int].member("alt"@)))
                &&& m.aspect_w == i64_of(field(images@[m.idx as int].member("aspectRatio"@), "width"@))
                &&& m.aspect_h == i64_of(field(images@[m.idx as int].member("aspectRatio"@), "height"@))
            },
        forall|i: int|
            0 <= i < 4 && i < images@.len() && (#[trigger] str_of(images@[i].member("thumb"@))) is Some
                ==> (extract_spec(item, include_external) matches Some(p) && exists|j: int|
                0 <= j < p.media.len() && p.media[j].idx == i),
{
    let a = images@;
    let n: int = if a.len() < 4 {
        a.len() as int
    } else {
        4
    };
    assert(media_of(item.post.embed, include_external) == images_upto(a, n));
    lemma_image_rows(a, n);
}

/// A video post is stored as one video row: its `playlist` (the stream the
/// viewer plays), its `thumbnail` as thumbnail (empty when missing), no
/// full-size URL, its non-empty `alt` and its `aspectRatio`; a video embed
/// without a playlist gives no row.
pub proof fn law_video_row(item: FeedSpec, include_external: bool, e: JsonValue)
    requires
        item.post.embed == Some(e),
        str_of(e.member("$type"@)) == Some("app.bsky.embed.video#view"@),
    ensures
        str_of(e.member("playlist"@)) is None ==> extract_spec(item, include_external) is None,
        str_of(e.member("playlist"@)) matches Some(pl) ==> (extract_spec(item, include_external) matches Some(
            p,
        ) && p.media.len() == 1 && p.media[0].idx == 0 && p.media[0].kind == "video"@
            && p.media[0].playlist_url == Some(pl) && p.media[0].fullsize_url is None
            && p.media[0].thumb_url == (match str_of(e.member("thumbnail"@)) {
            Some(t) => t,
            None => Seq::empty(),
        }) && p.media[0].alt == non_empty(str_of(e.member("alt"@))) && p.media[0].aspect_w == i64_of(
            field(e.member("aspectRatio"@), "width"@),
        ) && p.media[0].aspect_h == i64_of(field(e.member("aspectRatio"@), "height"@))),
{
    reveal_strlit("app.bsky.embed.images#view");
    reveal_strlit("app.bsky.embed.video#view");
    assert(EMBED_VIDEO@.len() != EMBED_IMAGES@.len());
}

} // verus!
