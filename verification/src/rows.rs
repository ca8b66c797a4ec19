//! Decoding of result rows into the records the frontend receives.
//!
//! A cell decodes as the column's declared kind: an integer column must hold
//! an integer, a text column a text, and an optional column may also hold
//! `NULL`.  A row that does not decode (a missing column or a cell of another
//! kind) is reported as `None`; the shell turns that into a database error.

use crate::queries::{SqlParam, SqlValue};
use crate::text::owned;
use vstd::prelude::*;

verus! {

/// Cell `i` of a row, if the row has one.
pub open spec fn cell(row: Seq<SqlValue>, i: int) -> Option<SqlParam> {
    if 0 <= i < row.len() {
        Some(row[i]@)
    } else {
        None
    }
}

/// Cell `i` as an integer.
pub open spec fn int_cell(row: Seq<SqlValue>, i: int) -> Option<i64> {
    match cell(row, i) {
        Some(SqlParam::Integer(x)) => Some(x),
        _ => None,
    }
}

/// Cell `i` as a text.
pub open spec fn text_cell(row: Seq<SqlValue>, i: int) -> Option<Seq<char>> {
    match cell(row, i) {
        Some(SqlParam::Text(t)) => Some(t),
        _ => None,
    }
}

/// Cell `i` as an optional integer (`Some(None)` for `NULL`).
pub open spec fn opt_int_cell(row: Seq<SqlValue>, i: int) -> Option<Option<i64>> {
    match cell(row, i) {
        Some(SqlParam::Null) => Some(None),
        Some(SqlParam::Integer(x)) => Some(Some(x)),
        _ => None,
    }
}

/// Cell `i` as an optional text (`Some(None)` for `NULL`).
pub open spec fn opt_text_cell(row: Seq<SqlValue>, i: int) -> Option<Option<Seq<char>>> {
    match cell(row, i) {
        Some(SqlParam::Null) => Some(None),
        Some(SqlParam::Text(t)) => Some(Some(t)),
        _ => None,
    }
}

/// Reads an integer cell.
pub fn int_at(row: &Vec<SqlValue>, i: usize) -> (r: Option<i64>)
    ensures
        r == int_cell(row@, i as int),
{
    if i < row.len() {
        match &row[i] {
            SqlValue::Integer(x) => Some(*x),
            _ => None,
        }
    } else {
        None
    }
}

/// Reads a text cell.
pub fn text_at(row: &Vec<SqlValue>, i: usize) -> (r: Option<String>)
    ensures
        r.deep_view() == text_cell(row@, i as int),
{
    if i < row.len() {
        match &row[i] {
            SqlValue::Text(t) => Some(owned(t.as_str())),
            _ => None,
        }
    } else {
        None
    }
}

/// Reads an optional integer cell.
pub fn opt_int_at(row: &Vec<SqlValue>, i: usize) -> (r: Option<Option<i64>>)
    ensures
        r == opt_int_cell(row@, i as int),
{
    if i < row.len() {
        match &row[i] {
            SqlValue::Null => Some(None),
            SqlValue::Integer(x) => Some(Some(*x)),
            _ => None,
        }
    } else {
        None
    }
}

/// Reads an optional text cell.
pub fn opt_text_at(row: &Vec<SqlValue>, i: usize) -> (r: Option<Option<String>>)
    ensures
        r.deep_view() == opt_text_cell(row@, i as int),
{
    if i < row.len() {
        match &row[i] {
            SqlValue::Null => Some(None),
            SqlValue::Text(t) => Some(Some(owned(t.as_str()))),
            _ => None,
        }
    } else {
        None
    }
}

/// One grid tile (one post): its representative media (lowest `idx`; of the
/// filtered kind when the kind is filtered) and what the tile shows.
pub struct MediaTile {
    pub post_uri: String,
    /// The representative media's id (the key of the thumbnail request).
    pub media_id: i64,
    pub kind: String,
    pub thumb_url: String,
    pub aspect_w: Option<i64>,
    pub aspect_h: Option<i64>,
    pub alt: Option<String>,
    /// How many media the post has (a count badge above 1).
    pub media_count: i64,
    /// Whether the post has a video (a video badge).
    pub has_video: bool,
    pub author_did: String,
    pub author_handle: String,
    pub author_display_name: Option<String>,
    pub author_avatar: Option<String>,
    /// The reposter's handle, for a repost.
    pub reposter_handle: Option<String>,
    pub indexed_at: i64,
    pub created_at: i64,
    pub text: Option<String>,
    pub labels_json: Option<String>,
}

/// Whether a [`MediaTile`] is what row `row` decodes to (in the column order
/// of [`crate::queries::QUERY_MEDIA_HEAD`]).
pub open spec fn tile_of_row(t: MediaTile, row: Seq<SqlValue>) -> bool {
    &&& text_cell(row, 0) == Some(t.post_uri@)
    &&& int_cell(row, 1) == Some(t.media_id)
    &&& text_cell(row, 2) == Some(t.kind@)
    &&& text_cell(row, 3) == Some(t.thumb_url@)
    &&& opt_int_cell(row, 4) == Some(t.aspect_w)
    &&& opt_int_cell(row, 5) == Some(t.aspect_h)
    &&& opt_text_cell(row, 6) == Some(t.alt.deep_view())
    &&& int_cell(row, 7) == Some(t.media_count)
    &&& int_cell(row, 8) is Some && t.has_video == (int_cell(row, 8)->0 != 0)
    &&& text_cell(row, 9) == Some(t.author_did@)
    &&& text_cell(row, 10) == Some(t.author_handle@)
    &&& opt_text_cell(row, 11) == Some(t.author_display_name.deep_view())
    &&& opt_text_cell(row, 12) == Some(t.author_avatar.deep_view())
    &&& opt_text_cell(row, 13) == Some(t.reposter_handle.deep_view())
    &&& int_cell(row, 14) == Some(t.indexed_at)
    &&& int_cell(row, 15) == Some(t.created_at)
    &&& opt_text_cell(row, 16) == Some(t.text.deep_view())
    &&& opt_text_cell(row, 17) == Some(t.labels_json.deep_view())
}

/// Whether row `row` decodes as a tile.
pub open spec fn tile_row_ok(row: Seq<SqlValue>) -> bool {
    &&& text_cell(row, 0) is Some
    &&& int_cell(row, 1) is Some
    &&& text_cell(row, 2) is Some
    &&& text_cell(row, 3) is Some
    &&& opt_int_cell(row, 4) is Some
    &&& opt_int_cell(row, 5) is Some
    &&& opt_text_cell(row, 6) is Some
    &&& int_cell(row, 7) is Some
    &&& int_cell(row, 8) is Some
    &&& text_cell(row, 9) is Some
    &&& text_cell(row, 10) is Some
    &&& opt_text_cell(row, 11) is Some
    &&& opt_text_cell(row, 12) is Some
    &&& opt_text_cell(row, 13) is Some
    &&& int_cell(row, 14) is Some
    &&& int_cell(row, 15) is Some
    &&& opt_text_cell(row, 16) is Some
    &&& opt_text_cell(row, 17) is Some
}

impl MediaTile {
    /// Decodes a tile row.
    pub fn from_row(row: &Vec<SqlValue>) -> (r: Option<MediaTile>)
        ensures
            r is Some <==> tile_row_ok(row@),
            r matches Some(t) ==> tile_of_row(t, row@),
    {
        let post_uri = text_at(row, 0);
        let media_id = int_at(row, 1);
        let kind = text_at(row, 2);
        let thumb_url = text_at(row, 3);
        let aspect_w = opt_int_at(row, 4);
        let aspect_h = opt_int_at(row, 5);
        let alt = opt_text_at(row, 6);
        let media_count = int_at(row, 7);
        let has_video = int_at(row, 8);
        let author_did = text_at(row, 9);
        let author_handle = text_at(row, 10);
        let author_display_name = opt_text_at(row, 11);
        let author_avatar = opt_text_at(row, 12);
        let reposter_handle = opt_text_at(row, 13);
        let indexed_at = int_at(row, 14);
        let created_at = int_at(row, 15);
        let text = opt_text_at(row, 16);
        let labels_json = opt_text_at(row, 17);
        if post_uri.is_none() || media_id.is_none() || kind.is_none() || thumb_url.is_none()
            || aspect_w.is_none() || aspect_h.is_none() || alt.is_none() || media_count.is_none()
            || has_video.is_none() || author_did.is_none() || author_handle.is_none()
            || author_display_name.is_none() || author_avatar.is_none()
            || reposter_handle.is_none() || indexed_at.is_none() || created_at.is_none()
            || text.is_none() || labels_json.is_none() {
            return None;
        }
        Some(
            MediaTile {
                post_uri: post_uri.unwrap(),
                media_id: media_id.unwrap(),
                kind: kind.unwrap(),
                thumb_url: thumb_url.unwrap(),
                aspect_w: aspect_w.unwrap(),
                aspect_h: aspect_h.unwrap(),
                alt: alt.unwrap(),
                media_count: media_count.unwrap(),
                has_video: has_video.unwrap() != 0,
                author_did: author_did.unwrap(),
                author_handle: author_handle.unwrap(),
                author_display_name: author_display_name.unwrap(),
                author_avatar: author_avatar.unwrap(),
                reposter_handle: reposter_handle.unwrap(),
                indexed_at: indexed_at.unwrap(),
                created_at: created_at.unwrap(),
                text: text.unwrap(),
                labels_json: labels_json.unwrap(),
            },
        )
    }
}

/// One author of the sidebar list (authors with media posts, with a count).
pub struct ActorSummary {
    pub did: String,
    pub handle: String,
    pub display_name: Option<String>,
    pub avatar_url: Option<String>,
    pub count: i64,
}

impl ActorSummary {
    /// Decodes an author row (did, handle, display name, avatar, count).
    pub fn from_row(row: &Vec<SqlValue>) -> (r: Option<ActorSummary>)
        ensures
            r is Some <==> (text_cell(row@, 0) is Some && text_cell(row@, 1) is Some
                && opt_text_cell(row@, 2) is Some && opt_text_cell(row@, 3) is Some && int_cell(
                row@,
                4,
            ) is Some),
            r matches Some(a) ==> (text_cell(row@, 0) == Some(a.did@) && text_cell(row@, 1) == Some(
                a.handle@,
            ) && opt_text_cell(row@, 2) == Some(a.display_name.deep_view()) && opt_text_cell(
                row@,
                3,
            ) == Some(a.avatar_url.deep_view()) && int_cell(row@, 4) == Some(a.count)),
    {
        let did = text_at(row, 0);
        let handle = text_at(row, 1);
        let display_name = opt_text_at(row, 2);
        let avatar_url = opt_text_at(row, 3);
        let count = int_at(row, 4);
        match (did, handle, display_name, avatar_url, count) {
            (Some(did), Some(handle), Some(display_name), Some(avatar_url), Some(count)) => Some(
                ActorSummary { did, handle, display_name, avatar_url, count },
            ),
            _ => None,
        }
    }
}

/// One media of a post, for the viewer.
pub struct PostMediaItem {
    pub media_id: i64,
    pub idx: i64,
    pub kind: String,
    pub thumb_url: String,
    pub fullsize_url: Option<String>,
    pub playlist_url: Option<String>,
    pub alt: Option<String>,
    pub aspect_w: Option<i64>,
    pub aspect_h: Option<i64>,
}

/// Whether a [`PostMediaItem`] is what row `row` decodes to.
pub open spec fn item_of_row(m: PostMediaItem, row: Seq<SqlValue>) -> bool {
    &&& int_cell(row, 0) == Some(m.media_id)
    &&& int_cell(row, 1) == Some(m.idx)
    &&& text_cell(row, 2) == Some(m.kind@)
    &&& text_cell(row, 3) == Some(m.thumb_url@)
    &&& opt_text_cell(row, 4) == Some(m.fullsize_url.deep_view())
    &&& opt_text_cell(row, 5) == Some(m.playlist_url.deep_view())
    &&& opt_text_cell(row, 6) == Some(m.alt.deep_view())
    &&& opt_int_cell(row, 7) == Some(m.aspect_w)
    &&& opt_int_cell(row, 8) == Some(m.aspect_h)
}

impl PostMediaItem {
    /// Decodes a media row of the viewer query.
    pub fn from_row(row: &Vec<SqlValue>) -> (r: Option<PostMediaItem>)
        ensures
            r is Some <==> (int_cell(row@, 0) is Some && int_cell(row@, 1) is Some && text_cell(
                row@,
                2,
            ) is Some && text_cell(row@, 3) is Some && opt_text_cell(row@, 4) is Some
                && opt_text_cell(row@, 5) is Some && opt_text_cell(row@, 6) is Some && opt_int_cell(
                row@,
                7,
            ) is Some && opt_int_cell(row@, 8) is Some),
            r matches Some(m) ==> item_of_row(m, row@),
    {
        let media_id = int_at(row, 0);
        let idx = int_at(row, 1);
        let kind = text_at(row, 2);
        let thumb_url = text_at(row, 3);
        let fullsize_url = opt_text_at(row, 4);
        let playlist_url = opt_text_at(row, 5);
        let alt = opt_text_at(row, 6);
        let aspect_w = opt_int_at(row, 7);
        let aspect_h = opt_int_at(row, 8);
        if media_id.is_none() || idx.is_none() || kind.is_none() || thumb_url.is_none()
            || fullsize_url.is_none() || playlist_url.is_none() || alt.is_none()
            || aspect_w.is_none() || aspect_h.is_none() {
            return None;
        }
        Some(
            PostMediaItem {
                media_id: media_id.unwrap(),
                idx: idx.unwrap(),
                kind: kind.unwrap(),
                thumb_url: thumb_url.unwrap(),
                fullsize_url: fullsize_url.unwrap(),
                playlist_url: playlist_url.unwrap(),
                alt: alt.unwrap(),
                aspect_w: aspect_w.unwrap(),
                aspect_h: aspect_h.unwrap(),
            },
        )
    }
}

/// The first row's first cell of a single-value query, if there is a row:
/// as an optional text (`Some(None)`: no row or `NULL`; `None`: not a text).
pub fn first_opt_text(rows: &Vec<Vec<SqlValue>>) -> (r: Option<Option<String>>)
    ensures
        rows@.len() == 0 ==> r == Some(None::<String>),
        rows@.len() > 0 ==> r.deep_view() == opt_text_cell(rows@[0]@, 0),
{
    if rows.len() == 0 {
        Some(None)
    } else {
        opt_text_at(&rows[0], 0)
    }
}

/// The first row's first cell of a single-value query, if there is a row:
/// as an optional integer (`Some(None)`: no row or `NULL`; `None`: not an integer).
pub fn first_opt_int(rows: &Vec<Vec<SqlValue>>) -> (r: Option<Option<i64>>)
    ensures
        rows@.len() == 0 ==> r == Some(None::<i64>),
        rows@.len() > 0 ==> r == opt_int_cell(rows@[0]@, 0),
{
    if rows.len() == 0 {
        Some(None)
    } else {
        opt_int_at(&rows[0], 0)
    }
}

/// The first row's first cell as an integer (a count): `None` when there is
/// no row or it is not an integer.
pub fn first_int(rows: &Vec<Vec<SqlValue>>) -> (r: Option<i64>)
    ensures
        rows@.len() == 0 ==> r is None,
        rows@.len() > 0 ==> r == int_cell(rows@[0]@, 0),
{
    if rows.len() == 0 {
        None
    } else {
        int_at(&rows[0], 0)
    }
}

} // verus!
