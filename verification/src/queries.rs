//! The SQL of the local store and the values bound to it.
//!
//! The shell owns the SQLite connection: it runs the statements built here
//! with their parameters and hands result rows back as [`SqlValue`] cells,
//! which [`crate::rows`] decodes.  Every filter of the grid is an SQL
//! condition built here; all conditions are joined with `AND`.

use crate::extractor::{ActorRow, ExtractedMedia, ExtractedPost, opt_actor_view};
use crate::models::AuthorView;
use crate::text::{
    concat2, escape_quotes, escape_quotes_exec, join, join_strings, owned, placeholder_list,
    placeholders, str_eq, trim, trimmed,
};
use vstd::prelude::*;

verus! {

/// A value bound to, or read from, an SQL statement.
pub enum SqlValue {
    Null,
    Integer(i64),
    Text(String),
}

/// The plain-value view of a [`SqlValue`].
pub enum SqlParam {
    Null,
    Integer(i64),
    Text(Seq<char>),
}

impl View for SqlValue {
    type V = SqlParam;

    open spec fn view(&self) -> SqlParam {
        match self {
            SqlValue::Null => SqlParam::Null,
            SqlValue::Integer(i) => SqlParam::Integer(*i),
            SqlValue::Text(s) => SqlParam::Text(s@),
        }
    }
}

/// The views of a sequence of values.
pub open spec fn params_view(ps: Seq<SqlValue>) -> Seq<SqlParam> {
    ps.map_values(|p: SqlValue| p@)
}

/// The views of a sequence of texts.
pub open spec fn texts_view(ts: Seq<String>) -> Seq<Seq<char>> {
    ts.map_values(|t: String| t@)
}

/// An optional text as a value (`NULL` when absent).
pub open spec fn opt_text(t: Option<Seq<char>>) -> SqlParam {
    match t {
        Some(x) => SqlParam::Text(x),
        None => SqlParam::Null,
    }
}

/// An optional integer as a value (`NULL` when absent).
pub open spec fn opt_int(i: Option<i64>) -> SqlParam {
    match i {
        Some(x) => SqlParam::Integer(x),
        None => SqlParam::Null,
    }
}

fn text_value(s: &str) -> (r: SqlValue)
    ensures
        r@ == SqlParam::Text(s@),
{
    SqlValue::Text(owned(s))
}

fn opt_text_value(s: &Option<String>) -> (r: SqlValue)
    ensures
        r@ == opt_text(s.deep_view()),
{
    match s {
        Some(t) => SqlValue::Text(owned(t.as_str())),
        None => SqlValue::Null,
    }
}

fn opt_int_value(i: Option<i64>) -> (r: SqlValue)
    ensures
        r@ == opt_int(i),
{
    match i {
        Some(x) => SqlValue::Integer(x),
        None => SqlValue::Null,
    }
}

// --- grid filters ---

/// The grid's filter (all conditions are combined with AND).
pub struct MediaFilter {
    /// `"image"` or `"video"`; anything else (or none) means every kind.
    pub media_type: Option<String>,
    /// `indexed_at >= since_ts`.
    pub since_ts: Option<i64>,
    /// `indexed_at < until_ts`.
    pub until_ts: Option<i64>,
    /// `Some(false)` leaves reposts out; otherwise they are included.
    pub include_reposts: Option<bool>,
    /// Authors to show (any of them); empty or none means every author.
    pub actor_dids: Option<Vec<String>>,
    /// Search text over ALT text and post body (trimmed; three characters or
    /// more use the full-text index, shorter ones a substring match).
    pub query: Option<String>,
}

/// The plain-value view of a [`MediaFilter`].
pub struct FilterView {
    pub media_type: Option<Seq<char>>,
    pub since_ts: Option<i64>,
    pub until_ts: Option<i64>,
    pub include_reposts: Option<bool>,
    pub actor_dids: Option<Seq<Seq<char>>>,
    pub query: Option<Seq<char>>,
}

impl View for MediaFilter {
    type V = FilterView;

    open spec fn view(&self) -> FilterView {
        FilterView {
            media_type: self.media_type.deep_view(),
            since_ts: self.since_ts,
            until_ts: self.until_ts,
            include_reposts: self.include_reposts,
            actor_dids: match self.actor_dids {
                Some(v) => Some(texts_view(v@)),
                None => None,
            },
            query: self.query.deep_view(),
        }
    }
}

impl MediaFilter {
    /// No filter: every visible media post.
    pub fn all() -> (r: MediaFilter)
        ensures
            r@ == (FilterView {
                media_type: None,
                since_ts: None,
                until_ts: None,
                include_reposts: None,
                actor_dids: None,
                query: None,
            }),
    {
        MediaFilter {
            media_type: None,
            since_ts: None,
            until_ts: None,
            include_reposts: None,
            actor_dids: None,
            query: None,
        }
    }
}

pub const COND_VISIBLE: &'static str = "p.is_hidden = 0";
pub const COND_KIND: &'static str = "m.kind = ?";
pub const COND_SINCE: &'static str = "p.indexed_at >= ?";
pub const COND_UNTIL: &'static str = "p.indexed_at < ?";
pub const COND_NO_REPOSTS: &'static str = "p.reposter_did IS NULL";
pub const COND_AUTHOR_OPEN: &'static str = "p.author_did IN (";
pub const COND_AUTHOR_CLOSE: &'static str = ")";
pub const COND_FTS: &'static str = "p.uri IN (SELECT m2.post_uri FROM media m2 JOIN media_fts ON media_fts.rowid = m2.id WHERE media_fts MATCH ?)";
pub const COND_LIKE: &'static str = "(p.text LIKE ? OR EXISTS(SELECT 1 FROM media ml WHERE ml.post_uri = p.uri AND ml.alt LIKE ?))";

/// Search text of three characters or more goes through the trigram index.
pub const FTS_MIN_CHARS: usize = 3;

/// A part of a WHERE clause: conditions and the values they bind.
pub type Clause = (Seq<Seq<char>>, Seq<SqlParam>);

pub open spec fn no_clause() -> Clause {
    (Seq::empty(), Seq::empty())
}

/// The media-kind condition.
pub open spec fn kind_clause(f: FilterView) -> Clause {
    match f.media_type {
        Some(t) => if t == "image"@ || t == "video"@ {
            (seq![COND_KIND@], seq![SqlParam::Text(t)])
        } else {
            no_clause()
        },
        None => no_clause(),
    }
}

/// The period conditions.
pub open spec fn period_clause(f: FilterView) -> Clause {
    let since: Clause = match f.since_ts {
        Some(s) => (seq![COND_SINCE@], seq![SqlParam::Integer(s)]),
        None => no_clause(),
    };
    let until: Clause = match f.until_ts {
        Some(u) => (seq![COND_UNTIL@], seq![SqlParam::Integer(u)]),
        None => no_clause(),
    };
    (since.0 + until.0, since.1 + until.1)
}

/// The repost condition.
pub open spec fn repost_clause(f: FilterView) -> Clause {
    if f.include_reposts == Some(false) {
        (seq![COND_NO_REPOSTS@], Seq::empty())
    } else {
        no_clause()
    }
}

/// The author condition.
pub open spec fn author_clause(f: FilterView) -> Clause {
    match f.actor_dids {
        Some(ds) => if ds.len() > 0 {
            (
                seq![COND_AUTHOR_OPEN@ + placeholders(ds.len()) + COND_AUTHOR_CLOSE@],
                ds.map_values(|d: Seq<char>| SqlParam::Text(d)),
            )
        } else {
            no_clause()
        },
        None => no_clause(),
    }
}

/// The search condition: the trimmed text as an FTS phrase (quotes doubled)
/// from three characters on, else a substring match on body and ALT text.
pub open spec fn search_clause(f: FilterView) -> Clause {
    match f.query {
        Some(q0) => {
            let q = trimmed(q0);
            if q.len() == 0 {
                no_clause()
            } else if q.len() >= 3 {
                (seq![COND_FTS@], seq![SqlParam::Text(seq!['"'] + escape_quotes(q) + seq!['"'])])
            } else {
                let like = seq!['%'] + q + seq!['%'];
                (seq![COND_LIKE@], seq![SqlParam::Text(like), SqlParam::Text(like)])
            }
        },
        None => no_clause(),
    }
}

/// The WHERE conditions of a filter and their values, in order.
pub open spec fn conditions(f: FilterView) -> Clause {
    let k = kind_clause(f);
    let p = period_clause(f);
    let r = repost_clause(f);
    let a = author_clause(f);
    let s = search_clause(f);
    (
        seq![COND_VISIBLE@] + k.0 + p.0 + r.0 + a.0 + s.0,
        k.1 + p.1 + r.1 + a.1 + s.1,
    )
}

fn push_cond(conds: &mut Vec<String>, c: &str)
    ensures
        texts_view(final(conds)@) == texts_view(old(conds)@).push(c@),
{
    conds.push(owned(c));
    assert(texts_view(conds@) =~= texts_view(old(conds)@).push(c@));
}

fn push_param(params: &mut Vec<SqlValue>, p: SqlValue)
    ensures
        params_view(final(params)@) == params_view(old(params)@).push(p@),
{
    params.push(p);
    assert(params_view(params@) =~= params_view(old(params)@).push(p@));
}

/// Conditions and values grow by exactly a clause.
pub open spec fn grew_by(
    old_conds: Seq<String>,
    new_conds: Seq<String>,
    old_params: Seq<SqlValue>,
    new_params: Seq<SqlValue>,
    c: Clause,
) -> bool {
    &&& texts_view(new_conds) == texts_view(old_conds) + c.0
    &&& params_view(new_params) == params_view(old_params) + c.1
}

fn push_kind(filter: &MediaFilter, conds: &mut Vec<String>, params: &mut Vec<SqlValue>)
    ensures
        grew_by(old(conds)@, final(conds)@, old(params)@, final(params)@, kind_clause(filter@)),
{
    if let Some(t) = &filter.media_type {
        if str_eq(t.as_str(), "image") || str_eq(t.as_str(), "video") {
            push_cond(conds, COND_KIND);
            push_param(params, text_value(t.as_str()));
            assert(texts_view(conds@) =~= texts_view(old(conds)@) + kind_clause(filter@).0);
            assert(params_view(params@) =~= params_view(old(params)@) + kind_clause(filter@).1);
            return;
        }
    }
    assert(texts_view(conds@) =~= texts_view(old(conds)@) + kind_clause(filter@).0);
    assert(params_view(params@) =~= params_view(old(params)@) + kind_clause(filter@).1);
}

fn push_period(filter: &MediaFilter, conds: &mut Vec<String>, params: &mut Vec<SqlValue>)
    ensures
        grew_by(old(conds)@, final(conds)@, old(params)@, final(params)@, period_clause(filter@)),
{
    if let Some(since) = filter.since_ts {
        push_cond(conds, COND_SINCE);
        push_param(params, SqlValue::Integer(since));
    }
    if let Some(until) = filter.until_ts {
        push_cond(conds, COND_UNTIL);
        push_param(params, SqlValue::Integer(until));
    }
    assert(texts_view(conds@) =~= texts_view(old(conds)@) + period_clause(filter@).0);
    assert(params_view(params@) =~= params_view(old(params)@) + period_clause(filter@).1);
}

fn push_reposts(filter: &MediaFilter, conds: &mut Vec<String>, params: &mut Vec<SqlValue>)
    ensures
        grew_by(old(conds)@, final(conds)@, old(params)@, final(params)@, repost_clause(filter@)),
{
    if filter.include_reposts == Some(false) {
        push_cond(conds, COND_NO_REPOSTS);
    }
    assert(texts_view(conds@) =~= texts_view(old(conds)@) + repost_clause(filter@).0);
    assert(params_view(params@) =~= params_view(old(params)@) + repost_clause(filter@).1);
}

/// Appends every text of `items` as a value.
fn push_texts(items: &Vec<String>, params: &mut Vec<SqlValue>)
    ensures
        params_view(final(params)@) == params_view(old(params)@) + texts_view(items@).map_values(
            |d: Seq<char>| SqlParam::Text(d),
        ),
{
    let ghost start = params_view(params@);
    let ghost all = texts_view(items@).map_values(|d: Seq<char>| SqlParam::Text(d));
    let mut i: usize = 0;
    while i < items.len()
        invariant
            i <= items@.len(),
            all == texts_view(items@).map_values(|d: Seq<char>| SqlParam::Text(d)),
            params_view(params@) == start + all.take(i as int),
        decreases items@.len() - i,
    {
        push_param(params, text_value(items[i].as_str()));
        assert(all.take(i + 1) =~= all.take(i as int).push(SqlParam::Text(items@[i as int]@)));
        assert(params_view(params@) =~= start + all.take(i + 1));
        i += 1;
    }
    assert(all.take(items@.len() as int) =~= all);
}

fn push_authors(filter: &MediaFilter, conds: &mut Vec<String>, params: &mut Vec<SqlValue>)
    ensures
        grew_by(old(conds)@, final(conds)@, old(params)@, final(params)@, author_clause(filter@)),
{
    if let Some(dids) = &filter.actor_dids {
        if dids.len() > 0 {
            let ph = placeholder_list(dids.len());
            let head = concat2(COND_AUTHOR_OPEN, ph.as_str());
            let cond = concat2(head.as_str(), COND_AUTHOR_CLOSE);
            push_cond(conds, cond.as_str());
            push_texts(dids, params);
            assert(texts_view(conds@) =~= texts_view(old(conds)@) + author_clause(filter@).0);
            assert(params_view(params@) =~= params_view(old(params)@) + author_clause(filter@).1);
            return;
        }
    }
    assert(texts_view(conds@) =~= texts_view(old(conds)@) + author_clause(filter@).0);
    assert(params_view(params@) =~= params_view(old(params)@) + author_clause(filter@).1);
}

fn push_search(filter: &MediaFilter, conds: &mut Vec<String>, params: &mut Vec<SqlValue>)
    ensures
        grew_by(old(conds)@, final(conds)@, old(params)@, final(params)@, search_clause(filter@)),
{
    if let Some(q0) = &filter.query {
        let q = trim(q0.as_str());
        if !q.is_empty() {
            if q.unicode_len() >= FTS_MIN_CHARS {
                proof {
                    reveal_strlit("\"");
                }
                push_cond(conds, COND_FTS);
                let esc = escape_quotes_exec(q);
                let head = concat2("\"", esc.as_str());
                let phrase = concat2(head.as_str(), "\"");
                assert(phrase@ =~= seq!['"'] + escape_quotes(q@) + seq!['"']);
                push_param(params, SqlValue::Text(phrase));
            } else {
                proof {
                    reveal_strlit("%");
                }
                push_cond(conds, COND_LIKE);
                let head = concat2("%", q);
                let like = concat2(head.as_str(), "%");
                assert(like@ =~= seq!['%'] + q@ + seq!['%']);
                push_param(params, text_value(like.as_str()));
                push_param(params, SqlValue::Text(like));
            }
            assert(texts_view(conds@) =~= texts_view(old(conds)@) + search_clause(filter@).0);
            assert(params_view(params@) =~= params_view(old(params)@) + search_clause(filter@).1);
            return;
        }
    }
    assert(texts_view(conds@) =~= texts_view(old(conds)@) + search_clause(filter@).0);
    assert(params_view(params@) =~= params_view(old(params)@) + search_clause(filter@).1);
}

/// Builds the WHERE conditions of a filter and the values they bind.
pub fn build_conditions(filter: &MediaFilter) -> (r: (Vec<String>, Vec<SqlValue>))
    ensures
        texts_view(r.0@) == conditions(filter@).0,
        params_view(r.1@) == conditions(filter@).1,
{
    let mut conds: Vec<String> = Vec::new();
    let mut params: Vec<SqlValue> = Vec::new();
    push_cond(&mut conds, COND_VISIBLE);
    assert(texts_view(conds@) =~= seq![COND_VISIBLE@]);
    assert(params_view(params@) =~= Seq::<SqlParam>::empty());
    push_kind(filter, &mut conds, &mut params);
    push_period(filter, &mut conds, &mut params);
    push_reposts(filter, &mut conds, &mut params);
    push_authors(filter, &mut conds, &mut params);
    push_search(filter, &mut conds, &mut params);
    let ghost f = filter@;
    assert(texts_view(conds@) =~= conditions(f).0);
    assert(params_view(params@) =~= conditions(f).1);
    (conds, params)
}

/// Hidden posts (of muted or blocked accounts) never reach the grid: every
/// filter's first condition is `p.is_hidden = 0`, and conditions are only
/// ever added (combined with AND).
pub proof fn law_hidden_never_shown(f: FilterView)
    ensures
        conditions(f).0.len() >= 1,
        conditions(f).0[0] == COND_VISIBLE@,
{
}

/// Search text is trimmed; empty text adds no condition, text of three
/// characters or more is a full-text phrase (quotes doubled), shorter text a
/// substring match on the post body or an ALT text.
pub proof fn law_search_mode(f: FilterView)
    ensures
        f.query matches Some(q) ==> (trimmed(q).len() == 0 ==> search_clause(f) == no_clause()),
        f.query matches Some(q) ==> (trimmed(q).len() >= 3 ==> search_clause(f) == (
            seq![COND_FTS@],
            seq![SqlParam::Text(seq!['"'] + escape_quotes(trimmed(q)) + seq!['"'])],
        )),
        f.query matches Some(q) ==> (1 <= trimmed(q).len() < 3 ==> search_clause(f).0 == seq![
            COND_LIKE@,
        ] && search_clause(f).1.len() == 2),
        f.query is None ==> search_clause(f) == no_clause(),
{
}

/// The period filter keeps what it says: with `since_ts = s`, the condition
/// after the visibility (and kind) conditions is `p.indexed_at >= ?` bound to
/// `s` (rows at or after `s` pass); with `until_ts = u`, the next one is
/// `p.indexed_at < ?` bound to `u` (rows before `u` pass).  Each `?` binds
/// the value at the position of the `?`s before it.
pub proof fn law_period_bounds(f: FilterView)
    ensures
        ({
            let k: int = if f.media_type == Some("image"@) || f.media_type == Some("video"@) {
                1
            } else {
                0
            };
            let si: int = if f.since_ts is Some {
                1
            } else {
                0
            };
            &&& f.since_ts matches Some(s) ==> {
                &&& conditions(f).0.len() > 1 + k
                &&& conditions(f).0[1 + k] == "p.indexed_at >= ?"@
                &&& conditions(f).1.len() > k
                &&& conditions(f).1[k] == SqlParam::Integer(s)
            }
            &&& f.until_ts matches Some(u) ==> {
                &&& conditions(f).0.len() > 1 + k + si
                &&& conditions(f).0[1 + k + si] == "p.indexed_at < ?"@
                &&& conditions(f).1.len() > k + si
                &&& conditions(f).1[k + si] == SqlParam::Integer(u)
            }
            &&& f.since_ts is None && f.until_ts is None ==> period_clause(f) == no_clause()
        }),
{
    let kc = kind_clause(f);
    let p = period_clause(f);
    assert(kc.0.len() == kc.1.len());
    assert(kc.0.len() == if f.media_type == Some("image"@) || f.media_type == Some("video"@) {
        1int
    } else {
        0int
    });
    let c = conditions(f);
    assert(c.0 == seq![COND_VISIBLE@] + kc.0 + p.0 + repost_clause(f).0 + author_clause(f).0
        + search_clause(f).0);
}

/// Without any filter, the grid shows every visible media post.
pub proof fn law_unfiltered(f: FilterView)
    requires
        f.media_type is None,
        f.since_ts is None,
        f.until_ts is None,
        f.include_reposts is None,
        f.actor_dids is None,
        f.query is None,
    ensures
        conditions(f) == (seq![COND_VISIBLE@], Seq::<SqlParam>::empty()),
{
    assert(conditions(f).0 =~= seq![COND_VISIBLE@]);
    assert(conditions(f).1 =~= Seq::<SqlParam>::empty());
}

pub const QUERY_MEDIA_HEAD: &'static str = "SELECT p.uri, m.id, m.kind, m.thumb_url, m.aspect_w, m.aspect_h, m.alt, (SELECT count(*) FROM media mc WHERE mc.post_uri = p.uri) AS media_count, EXISTS(SELECT 1 FROM media mv WHERE mv.post_uri = p.uri AND mv.kind = 'video') AS has_video, p.author_did, a.handle, a.display_name, a.avatar_url, ra.handle AS reposter_handle, p.indexed_at, p.created_at, p.text, p.labels_json, min(m.idx) AS rep_idx FROM posts p JOIN actors a ON a.did = p.author_did LEFT JOIN actors ra ON ra.did = p.reposter_did JOIN media m ON m.post_uri = p.uri WHERE ";
pub const QUERY_MEDIA_TAIL: &'static str = " GROUP BY p.uri ORDER BY p.indexed_at DESC, p.uri DESC LIMIT ? OFFSET ?";
pub const MEDIA_COUNT_HEAD: &'static str = "SELECT COUNT(DISTINCT p.uri) FROM posts p JOIN media m ON m.post_uri = p.uri WHERE ";

/// A statement and the values bound to its placeholders.
pub struct Statement {
    pub sql: String,
    pub params: Vec<SqlValue>,
}

/// The tiles of a filter, newest first, one per post (the representative
/// media is the lowest `idx`), a page of `limit` from `offset`.
pub fn query_media_statement(filter: &MediaFilter, offset: i64, limit: i64) -> (r: Statement)
    ensures
        r.sql@ == QUERY_MEDIA_HEAD@ + join(conditions(filter@).0, " AND "@) + QUERY_MEDIA_TAIL@,
        params_view(r.params@) == conditions(filter@).1 + seq![
            SqlParam::Integer(limit),
            SqlParam::Integer(offset),
        ],
{
    let (conds, mut params) = build_conditions(filter);
    let where_sql = join_strings(&conds, " AND ");
    let head = concat2(QUERY_MEDIA_HEAD, where_sql.as_str());
    let sql = concat2(head.as_str(), QUERY_MEDIA_TAIL);
    push_param(&mut params, SqlValue::Integer(limit));
    push_param(&mut params, SqlValue::Integer(offset));
    assert(params_view(params@) =~= conditions(filter@).1 + seq![
        SqlParam::Integer(limit),
        SqlParam::Integer(offset),
    ]);
    Statement { sql, params }
}

/// The number of tiles (posts) of a filter.
pub fn media_count_statement(filter: &MediaFilter) -> (r: Statement)
    ensures
        r.sql@ == MEDIA_COUNT_HEAD@ + join(conditions(filter@).0, " AND "@),
        params_view(r.params@) == conditions(filter@).1,
{
    let (conds, params) = build_conditions(filter);
    let where_sql = join_strings(&conds, " AND ");
    let sql = concat2(MEDIA_COUNT_HEAD, where_sql.as_str());
    Statement { sql, params }
}

// --- fixed statements ---

pub const UPSERT_ACTOR_SQL: &'static str = "INSERT INTO actors (did, handle, display_name, avatar_url, updated_at) VALUES (?1, ?2, ?3, ?4, ?5) ON CONFLICT(did) DO UPDATE SET handle = excluded.handle, display_name = excluded.display_name, avatar_url = excluded.avatar_url, updated_at = excluded.updated_at";
pub const IS_POST_KNOWN_SQL: &'static str = "SELECT 1 FROM posts WHERE uri = ?1";
pub const INSERT_POST_SQL: &'static str = "INSERT INTO posts (uri, cid, author_did, reposter_did, created_at, indexed_at, text, labels_json, is_hidden) VALUES (?1, ?2, ?3, ?4, ?5, ?6, ?7, ?8, 0) ON CONFLICT(uri) DO NOTHING";
pub const INSERT_MEDIA_SQL: &'static str = "INSERT INTO media (post_uri, idx, kind, thumb_url, fullsize_url, playlist_url, alt, aspect_w, aspect_h) VALUES (?1, ?2, ?3, ?4, ?5, ?6, ?7, ?8, ?9) ON CONFLICT(post_uri, idx) DO NOTHING";
pub const INSERT_FTS_SQL: &'static str = "INSERT INTO media_fts (rowid, alt, text) VALUES (?1, ?2, ?3)";
pub const MEDIA_TOTAL_SQL: &'static str = "SELECT count(*) FROM media";
pub const POST_TOTAL_SQL: &'static str = "SELECT count(*) FROM posts";
pub const ACTOR_TOTAL_SQL: &'static str = "SELECT count(*) FROM actors";
pub const LIST_ACTORS_SQL: &'static str = "SELECT p.author_did, a.handle, a.display_name, a.avatar_url, COUNT(DISTINCT p.uri) AS cnt FROM posts p JOIN actors a ON a.did = p.author_did JOIN media m ON m.post_uri = p.uri WHERE p.is_hidden = 0 GROUP BY p.author_did ORDER BY cnt DESC, a.handle ASC";
pub const THUMB_URL_SQL: &'static str = "SELECT thumb_url FROM media WHERE id = ?1";
pub const FULLSIZE_URL_SQL: &'static str = "SELECT fullsize_url FROM media WHERE id = ?1";
pub const POST_MEDIA_SQL: &'static str = "SELECT id, idx, kind, thumb_url, fullsize_url, playlist_url, alt, aspect_w, aspect_h FROM media WHERE post_uri = ?1 ORDER BY idx";
pub const SET_SYNC_STATE_SQL: &'static str = "INSERT INTO sync_state (key, cursor, last_run_at, oldest_seen) VALUES (?1, ?2, ?3, ?4) ON CONFLICT(key) DO UPDATE SET cursor = excluded.cursor, last_run_at = excluded.last_run_at, oldest_seen = COALESCE(excluded.oldest_seen, sync_state.oldest_seen)";
pub const TOUCH_SYNC_STATE_SQL: &'static str = "INSERT INTO sync_state (key, cursor, last_run_at, oldest_seen) VALUES (?1, NULL, ?2, ?3) ON CONFLICT(key) DO UPDATE SET last_run_at = excluded.last_run_at, oldest_seen = COALESCE(excluded.oldest_seen, sync_state.oldest_seen)";
pub const GET_SYNC_CURSOR_SQL: &'static str = "SELECT cursor FROM sync_state WHERE key = ?1";
pub const GET_OLDEST_SEEN_SQL: &'static str = "SELECT oldest_seen FROM sync_state WHERE key = ?1";
pub const GET_LAST_RUN_AT_SQL: &'static str = "SELECT last_run_at FROM sync_state WHERE key = ?1";
pub const UNHIDE_ALL_SQL: &'static str = "UPDATE posts SET is_hidden = 0 WHERE is_hidden = 1";
pub const HIDE_BY_DIDS_HEAD: &'static str = "UPDATE posts SET is_hidden = 1 WHERE author_did IN (";
pub const HIDE_BY_DIDS_MID: &'static str = ") OR reposter_did IN (";
pub const HIDE_BY_DIDS_TAIL: &'static str = ")";
pub const TOUCH_MEDIA_USED_SQL: &'static str = "UPDATE media SET last_used_at = ?2 WHERE id = ?1";
pub const MARK_FULLSIZE_CACHED_SQL: &'static str = "UPDATE media SET local_path = ?2, bytes = ?3, last_used_at = ?4 WHERE id = ?1";
pub const CLEAR_FULLSIZE_CACHE_SQL: &'static str = "UPDATE media SET local_path = NULL, bytes = NULL WHERE id = ?1";
pub const CLEAR_ALL_FULLSIZE_CACHE_SQL: &'static str = "UPDATE media SET local_path = NULL, bytes = NULL WHERE local_path IS NOT NULL";

/// The values of the actor upsert: did, handle, display name, avatar, `now`.
pub fn actor_params(actor: &ActorRow, now: i64) -> (r: Vec<SqlValue>)
    ensures
        params_view(r@) == seq![
            SqlParam::Text(actor@.did),
            SqlParam::Text(actor@.handle),
            opt_text(actor@.display_name),
            opt_text(actor@.avatar),
            SqlParam::Integer(now),
        ],
{
    let mut v: Vec<SqlValue> = Vec::new();
    push_param(&mut v, text_value(actor.did.as_str()));
    push_param(&mut v, text_value(actor.handle.as_str()));
    push_param(&mut v, opt_text_value(&actor.display_name));
    push_param(&mut v, opt_text_value(&actor.avatar_url));
    push_param(&mut v, SqlValue::Integer(now));
    v
}

/// The values of the post insert: uri, cid, author, reposter (or `NULL`),
/// creation and ordering times, body text, label JSON text.
pub fn post_params(post: &ExtractedPost, labels_json: &Option<String>) -> (r: Vec<SqlValue>)
    ensures
        params_view(r@) == seq![
            SqlParam::Text(post@.uri),
            SqlParam::Text(post@.cid),
            SqlParam::Text(post@.author.did),
            opt_text(
                match post@.reposter {
                    Some(a) => Some(a.did),
                    None => None,
                },
            ),
            SqlParam::Integer(post.created_at),
            SqlParam::Integer(post.indexed_at),
            opt_text(post@.text),
            opt_text(labels_json.deep_view()),
        ],
{
    let mut v: Vec<SqlValue> = Vec::new();
    push_param(&mut v, text_value(post.uri.as_str()));
    push_param(&mut v, text_value(post.cid.as_str()));
    push_param(&mut v, text_value(post.author.did.as_str()));
    let reposter = match &post.reposter {
        Some(r) => SqlValue::Text(owned(r.did.as_str())),
        None => SqlValue::Null,
    };
    push_param(&mut v, reposter);
    push_param(&mut v, SqlValue::Integer(post.created_at));
    push_param(&mut v, SqlValue::Integer(post.indexed_at));
    push_param(&mut v, opt_text_value(&post.text));
    push_param(&mut v, opt_text_value(labels_json));
    v
}

/// The values of a media insert.
pub fn media_params(post_uri: &str, m: &ExtractedMedia) -> (r: Vec<SqlValue>)
    ensures
        params_view(r@) == seq![
            SqlParam::Text(post_uri@),
            SqlParam::Integer(m.idx),
            SqlParam::Text(m@.kind),
            SqlParam::Text(m@.thumb_url),
            opt_text(m@.fullsize_url),
            opt_text(m@.playlist_url),
            opt_text(m@.alt),
            opt_int(m.aspect_w),
            opt_int(m.aspect_h),
        ],
{
    let mut v: Vec<SqlValue> = Vec::new();
    push_param(&mut v, text_value(post_uri));
    push_param(&mut v, SqlValue::Integer(m.idx));
    push_param(&mut v, text_value(m.kind));
    push_param(&mut v, text_value(m.thumb_url.as_str()));
    push_param(&mut v, opt_text_value(&m.fullsize_url));
    push_param(&mut v, opt_text_value(&m.playlist_url));
    push_param(&mut v, opt_text_value(&m.alt));
    push_param(&mut v, opt_int_value(m.aspect_w));
    push_param(&mut v, opt_int_value(m.aspect_h));
    v
}

/// The text, or the empty text when absent.
pub open spec fn or_empty(t: Option<Seq<char>>) -> Seq<char> {
    match t {
        Some(x) => x,
        None => Seq::empty(),
    }
}

/// Whether a media insert added a row (it indexes only what it added).
pub fn media_row_added(changed: usize) -> (r: bool)
    ensures
        r == (changed == 1),
{
    changed == 1
}

/// The values of the full-text index row of a new media row: its id, its
/// ALT text and the post's body (empty when absent).
pub fn fts_params(media_id: i64, m: &ExtractedMedia, post_text: &Option<String>) -> (r: Vec<
    SqlValue,
>)
    ensures
        params_view(r@) == seq![
            SqlParam::Integer(media_id),
            SqlParam::Text(or_empty(m@.alt)),
            SqlParam::Text(or_empty(post_text.deep_view())),
        ],
{
    let mut v: Vec<SqlValue> = Vec::new();
    push_param(&mut v, SqlValue::Integer(media_id));
    let alt = match &m.alt {
        Some(a) => owned(a.as_str()),
        None => String::new(),
    };
    push_param(&mut v, SqlValue::Text(alt));
    let text = match post_text {
        Some(t) => owned(t.as_str()),
        None => String::new(),
    };
    push_param(&mut v, SqlValue::Text(text));
    v
}

/// A single text value.
pub fn key_params(key: &str) -> (r: Vec<SqlValue>)
    ensures
        params_view(r@) == seq![SqlParam::Text(key@)],
{
    let mut v: Vec<SqlValue> = Vec::new();
    push_param(&mut v, text_value(key));
    v
}

/// A single integer value.
pub fn id_params(id: i64) -> (r: Vec<SqlValue>)
    ensures
        params_view(r@) == seq![SqlParam::Integer(id)],
{
    let mut v: Vec<SqlValue> = Vec::new();
    push_param(&mut v, SqlValue::Integer(id));
    v
}

/// The values of the initial-sync `sync_state` upsert (the cursor is
/// replaced; a missing `oldest_seen` keeps the stored one).
pub fn set_sync_state_params(
    key: &str,
    cursor: &Option<String>,
    last_run_at: i64,
    oldest_seen: Option<i64>,
) -> (r: Vec<SqlValue>)
    ensures
        params_view(r@) == seq![
            SqlParam::Text(key@),
            opt_text(cursor.deep_view()),
            SqlParam::Integer(last_run_at),
            opt_int(oldest_seen),
        ],
{
    let mut v: Vec<SqlValue> = Vec::new();
    push_param(&mut v, text_value(key));
    push_param(&mut v, opt_text_value(cursor));
    push_param(&mut v, SqlValue::Integer(last_run_at));
    push_param(&mut v, opt_int_value(oldest_seen));
    v
}

/// The values of the differential-sync `sync_state` upsert (the cursor is
/// not among them: it is never written).
pub fn touch_sync_state_params(key: &str, last_run_at: i64, oldest_seen: Option<i64>) -> (r: Vec<
    SqlValue,
>)
    ensures
        params_view(r@) == seq![
            SqlParam::Text(key@),
            SqlParam::Integer(last_run_at),
            opt_int(oldest_seen),
        ],
{
    let mut v: Vec<SqlValue> = Vec::new();
    push_param(&mut v, text_value(key));
    push_param(&mut v, SqlValue::Integer(last_run_at));
    push_param(&mut v, opt_int_value(oldest_seen));
    v
}

/// The values of the cached-fullsize record: id, path, size, time.
pub fn mark_fullsize_params(media_id: i64, path: &str, bytes: i64, now: i64) -> (r: Vec<SqlValue>)
    ensures
        params_view(r@) == seq![
            SqlParam::Integer(media_id),
            SqlParam::Text(path@),
            SqlParam::Integer(bytes),
            SqlParam::Integer(now),
        ],
{
    let mut v: Vec<SqlValue> = Vec::new();
    push_param(&mut v, SqlValue::Integer(media_id));
    push_param(&mut v, text_value(path));
    push_param(&mut v, SqlValue::Integer(bytes));
    push_param(&mut v, SqlValue::Integer(now));
    v
}

/// The values of a media-use record: id, time.
pub fn touch_media_params(media_id: i64, now: i64) -> (r: Vec<SqlValue>)
    ensures
        params_view(r@) == seq![SqlParam::Integer(media_id), SqlParam::Integer(now)],
{
    let mut v: Vec<SqlValue> = Vec::new();
    push_param(&mut v, SqlValue::Integer(media_id));
    push_param(&mut v, SqlValue::Integer(now));
    v
}

/// Hiding the posts of muted or blocked accounts: `None` when there is no
/// account to hide (only the reset runs); else the statement that hides every
/// post whose author or reposter is one of `dids`.
pub fn hide_statement(dids: &Vec<String>) -> (r: Option<Statement>)
    ensures
        dids@.len() == 0 ==> r is None,
        dids@.len() > 0 ==> (r matches Some(st) && st.sql@ == HIDE_BY_DIDS_HEAD@ + placeholders(
            dids@.len(),
        ) + HIDE_BY_DIDS_MID@ + placeholders(dids@.len()) + HIDE_BY_DIDS_TAIL@ && params_view(
            st.params@,
        ) == texts_view(dids@).map_values(|d: Seq<char>| SqlParam::Text(d)) + texts_view(
            dids@,
        ).map_values(|d: Seq<char>| SqlParam::Text(d))),
{
    if dids.len() == 0 {
        return None;
    }
    let ph = placeholder_list(dids.len());
    let a = concat2(HIDE_BY_DIDS_HEAD, ph.as_str());
    let b = concat2(a.as_str(), HIDE_BY_DIDS_MID);
    let c = concat2(b.as_str(), ph.as_str());
    let sql = concat2(c.as_str(), HIDE_BY_DIDS_TAIL);
    let mut params: Vec<SqlValue> = Vec::new();
    push_texts(dids, &mut params);
    push_texts(dids, &mut params);
    assert(params_view(params@) =~= texts_view(dids@).map_values(|d: Seq<char>| SqlParam::Text(d))
        + texts_view(dids@).map_values(|d: Seq<char>| SqlParam::Text(d)));
    Some(Statement { sql, params })
}

} // verus!
