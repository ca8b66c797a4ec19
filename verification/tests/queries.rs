use hanaikada::extractor::{ActorRow, ExtractedMedia, ExtractedPost};
use hanaikada::migrations::{self, plan, SCHEMA_VERSION};
use hanaikada::queries::{
    actor_params, build_conditions, fts_params, key_params, media_count_statement, media_params,
    media_row_added, post_params, query_media_statement, set_sync_state_params,
    touch_sync_state_params, MediaFilter, SqlValue, GET_OLDEST_SEEN_SQL, GET_SYNC_CURSOR_SQL,
    INSERT_FTS_SQL, INSERT_MEDIA_SQL, INSERT_POST_SQL, LIST_ACTORS_SQL, SET_SYNC_STATE_SQL,
    TOUCH_SYNC_STATE_SQL, UPSERT_ACTOR_SQL,
};
use hanaikada::rows::{first_opt_int, first_opt_text, ActorSummary, MediaTile};
use rusqlite::Connection;

const KEY: &str = "timeline";

fn to_sql(v: &SqlValue) -> rusqlite::types::Value {
    match v {
        SqlValue::Null => rusqlite::types::Value::Null,
        SqlValue::Integer(i) => rusqlite::types::Value::Integer(*i),
        SqlValue::Text(s) => rusqlite::types::Value::Text(s.clone()),
    }
}

fn exec(c: &Connection, sql: &str, params: &[SqlValue]) -> usize {
    c.execute(sql, rusqlite::params_from_iter(params.iter().map(to_sql))).unwrap()
}

fn rows(c: &Connection, sql: &str, params: &[SqlValue]) -> Vec<Vec<SqlValue>> {
    let mut stmt = c.prepare(sql).unwrap();
    let n = stmt.column_count();
    let mut out = Vec::new();
    let mut rs = stmt.query(rusqlite::params_from_iter(params.iter().map(to_sql))).unwrap();
    while let Some(r) = rs.next().unwrap() {
        let mut row = Vec::new();
        for i in 0..n {
            row.push(match r.get_ref(i).unwrap() {
                rusqlite::types::ValueRef::Null => SqlValue::Null,
                rusqlite::types::ValueRef::Integer(x) => SqlValue::Integer(x),
                rusqlite::types::ValueRef::Text(t) => {
                    SqlValue::Text(String::from_utf8(t.to_vec()).unwrap())
                }
                _ => panic!("unexpected column type"),
            });
        }
        out.push(row);
    }
    out
}

fn conn() -> Connection {
    let c = Connection::open_in_memory().unwrap();
    let current: i64 = c.query_row(migrations::GET_USER_VERSION_SQL, [], |r| r.get(0)).unwrap();
    let p = plan(current);
    if p.apply_v1 {
        c.execute_batch(migrations::V1).unwrap();
    }
    if p.apply_v2 {
        c.execute_batch(migrations::V2).unwrap();
    }
    if p.set_version {
        c.execute_batch(migrations::SET_USER_VERSION_SQL).unwrap();
    }
    c
}

fn set_sync_state(c: &Connection, key: &str, cursor: Option<&str>, last: i64, oldest: Option<i64>) {
    let cursor = cursor.map(str::to_string);
    exec(c, SET_SYNC_STATE_SQL, &set_sync_state_params(key, &cursor, last, oldest));
}

fn touch_sync_state(c: &Connection, key: &str, last: i64, oldest: Option<i64>) {
    exec(c, TOUCH_SYNC_STATE_SQL, &touch_sync_state_params(key, last, oldest));
}

fn get_sync_cursor(c: &Connection, key: &str) -> Option<String> {
    first_opt_text(&rows(c, GET_SYNC_CURSOR_SQL, &key_params(key))).unwrap()
}

fn get_oldest_seen(c: &Connection, key: &str) -> Option<i64> {
    first_opt_int(&rows(c, GET_OLDEST_SEEN_SQL, &key_params(key))).unwrap()
}

fn insert_post_with_media(c: &Connection, post: &ExtractedPost, now: i64) -> usize {
    exec(c, UPSERT_ACTOR_SQL, &actor_params(&post.author, now));
    if let Some(r) = &post.reposter {
        exec(c, UPSERT_ACTOR_SQL, &actor_params(r, now));
    }
    exec(c, INSERT_POST_SQL, &post_params(post, &None));
    let mut inserted = 0;
    for m in &post.media {
        let n = exec(c, INSERT_MEDIA_SQL, &media_params(&post.uri, m));
        if media_row_added(n) {
            let id = c.last_insert_rowid();
            exec(c, INSERT_FTS_SQL, &fts_params(id, m, &post.text));
        }
        inserted += n;
    }
    inserted
}

fn query_media(c: &Connection, f: &MediaFilter, offset: i64, limit: i64) -> Vec<MediaTile> {
    let st = query_media_statement(f, offset, limit);
    rows(c, &st.sql, &st.params).iter().map(|r| MediaTile::from_row(r).unwrap()).collect()
}

fn media_count(c: &Connection, f: &MediaFilter) -> i64 {
    let st = media_count_statement(f);
    hanaikada::rows::first_int(&rows(c, &st.sql, &st.params)).unwrap()
}

fn list_actors(c: &Connection) -> Vec<ActorSummary> {
    rows(c, LIST_ACTORS_SQL, &[]).iter().map(|r| ActorSummary::from_row(r).unwrap()).collect()
}

fn actor(did: &str, handle: &str) -> ActorRow {
    ActorRow { did: did.into(), handle: handle.into(), display_name: None, avatar_url: None }
}

fn img(idx: i64, alt: Option<&str>) -> ExtractedMedia {
    ExtractedMedia {
        idx,
        kind: "image",
        thumb_url: format!("https://cdn/thumb{idx}"),
        fullsize_url: Some(format!("https://cdn/full{idx}")),
        playlist_url: None,
        alt: alt.map(str::to_string),
        aspect_w: Some(4),
        aspect_h: Some(3),
    }
}

fn video(idx: i64) -> ExtractedMedia {
    ExtractedMedia {
        idx,
        kind: "video",
        thumb_url: format!("https://cdn/vthumb{idx}"),
        fullsize_url: None,
        playlist_url: Some("https://cdn/playlist.m3u8".into()),
        alt: None,
        aspect_w: Some(9),
        aspect_h: Some(16),
    }
}

fn post(
    uri: &str,
    author: ActorRow,
    reposter: Option<ActorRow>,
    indexed_at: i64,
    text: Option<&str>,
    media: Vec<ExtractedMedia>,
) -> ExtractedPost {
    ExtractedPost {
        uri: uri.into(),
        cid: "cid".into(),
        author,
        reposter,
        created_at: indexed_at,
        indexed_at,
        text: text.map(str::to_string),
        labels: None,
        media,
    }
}

fn seed(c: &Connection) {
    let alice = || actor("did:alice", "alice.test");
    let bob = actor("did:bob", "bob.test");
    let carol = actor("did:carol", "carol.test");

    insert_post_with_media(
        c,
        &post(
            "at://alice/1",
            alice(),
            None,
            1000,
            Some("四枚組の投稿"),
            vec![img(0, Some("a cat photo")), img(1, None), img(2, None), img(3, None)],
        ),
        9999,
    );
    insert_post_with_media(
        c,
        &post("at://bob/1", bob, None, 2000, Some("動画です"), vec![video(0)]),
        9999,
    );
    insert_post_with_media(
        c,
        &post(
            "at://alice/2",
            alice(),
            Some(carol),
            3000,
            Some("硝子細工の写真"),
            vec![img(0, Some("硝子のグラス"))],
        ),
        9999,
    );
}

fn filter() -> MediaFilter {
    MediaFilter::all()
}

#[test]
fn migrates_to_latest_version() {
    let c = conn();
    let v: i64 = c.query_row("PRAGMA user_version", [], |r| r.get(0)).unwrap();
    assert_eq!(v, SCHEMA_VERSION);
    let count: i64 = c
        .query_row(
            "SELECT count(*) FROM sqlite_master WHERE type='table' AND name IN ('actors','posts','media','sync_state')",
            [],
            |r| r.get(0),
        )
        .unwrap();
    assert_eq!(count, 4);
}

#[test]
fn touch_sync_state_preserves_backfill_cursor() {
    let c = conn();
    set_sync_state(&c, KEY, Some("CUR_DEEP"), 100, Some(5000));
    assert_eq!(get_sync_cursor(&c, KEY).as_deref(), Some("CUR_DEEP"));
    assert_eq!(get_oldest_seen(&c, KEY), Some(5000));

    touch_sync_state(&c, KEY, 200, Some(4000));
    assert_eq!(
        get_sync_cursor(&c, KEY).as_deref(),
        Some("CUR_DEEP"),
        "差分同期はバックフィル cursor を保持する"
    );
    assert_eq!(get_oldest_seen(&c, KEY), Some(4000));

    touch_sync_state(&c, KEY, 300, None);
    assert_eq!(get_oldest_seen(&c, KEY), Some(4000), "None の oldest_seen は既存値を維持する");
    assert_eq!(get_sync_cursor(&c, KEY).as_deref(), Some("CUR_DEEP"));
}

#[test]
fn touch_sync_state_inserts_when_absent() {
    let c = conn();
    touch_sync_state(&c, KEY, 100, Some(9000));
    assert_eq!(get_sync_cursor(&c, KEY), None);
    assert_eq!(get_oldest_seen(&c, KEY), Some(9000));
}

#[test]
fn set_sync_state_updates_cursor_on_resume() {
    let c = conn();
    set_sync_state(&c, KEY, Some("CUR_1"), 100, Some(5000));
    set_sync_state(&c, KEY, Some("CUR_2"), 200, Some(3000));
    assert_eq!(get_sync_cursor(&c, KEY).as_deref(), Some("CUR_2"));
    assert_eq!(get_oldest_seen(&c, KEY), Some(3000));
}

#[test]
fn query_media_groups_by_post_newest_first() {
    let c = conn();
    seed(&c);
    let tiles = query_media(&c, &filter(), 0, 100);
    assert_eq!(tiles.len(), 3, "投稿単位で 3 タイル");
    assert_eq!(tiles[0].post_uri, "at://alice/2");
    assert_eq!(tiles[1].post_uri, "at://bob/1");
    assert_eq!(tiles[2].post_uri, "at://alice/1");

    let four = &tiles[2];
    assert_eq!(four.media_count, 4, "4 枚組は media_count=4");
    assert_eq!(four.kind, "image");
    assert!(!four.has_video);
    assert_eq!(four.alt.as_deref(), Some("a cat photo"));

    assert_eq!(tiles[0].reposter_handle.as_deref(), Some("carol.test"));
    assert!(tiles[1].has_video);
    assert_eq!(tiles[1].kind, "video");
}

#[test]
fn query_media_filters_by_kind() {
    let c = conn();
    seed(&c);
    let f = MediaFilter { media_type: Some("video".into()), ..filter() };
    let tiles = query_media(&c, &f, 0, 100);
    assert_eq!(tiles.len(), 1);
    assert_eq!(tiles[0].post_uri, "at://bob/1");
}

#[test]
fn query_media_excludes_reposts_when_disabled() {
    let c = conn();
    seed(&c);
    let f = MediaFilter { include_reposts: Some(false), ..filter() };
    let tiles = query_media(&c, &f, 0, 100);
    assert!(tiles.iter().all(|t| t.reposter_handle.is_none()));
    assert_eq!(tiles.len(), 2, "リポスト 1 件を除外");
}

#[test]
fn query_media_filters_by_actor() {
    let c = conn();
    seed(&c);
    let f = MediaFilter { actor_dids: Some(vec!["did:alice".into()]), ..filter() };
    let tiles = query_media(&c, &f, 0, 100);
    assert_eq!(tiles.len(), 2);
    assert!(tiles.iter().all(|t| t.author_did == "did:alice"));
}

#[test]
fn query_media_search_fts_and_like_fallback() {
    let c = conn();
    seed(&c);

    let f = MediaFilter { query: Some("cat".into()), ..filter() };
    let tiles = query_media(&c, &f, 0, 100);
    assert_eq!(tiles.len(), 1);
    assert_eq!(tiles[0].post_uri, "at://alice/1");

    let f = MediaFilter { query: Some("硝子細".into()), ..filter() };
    let tiles = query_media(&c, &f, 0, 100);
    assert_eq!(tiles.len(), 1);
    assert_eq!(tiles[0].post_uri, "at://alice/2");

    let f = MediaFilter { query: Some("硝子".into()), ..filter() };
    let tiles = query_media(&c, &f, 0, 100);
    assert_eq!(tiles.len(), 1);
    assert_eq!(tiles[0].post_uri, "at://alice/2");
}

#[test]
fn media_count_and_list_actors() {
    let c = conn();
    seed(&c);
    assert_eq!(media_count(&c, &filter()), 3);

    let f = MediaFilter { media_type: Some("image".into()), ..filter() };
    assert_eq!(media_count(&c, &f), 2, "画像投稿は 2 件");

    let actors = list_actors(&c);
    assert_eq!(actors[0].did, "did:alice");
    assert_eq!(actors[0].count, 2);
    assert!(actors.iter().any(|a| a.did == "did:bob" && a.count == 1));
}

// --- further cases ---

#[test]
fn reinserting_a_post_adds_nothing() {
    let c = conn();
    let p = post("at://x/1", actor("did:x", "x.test"), None, 10, None, vec![img(0, None), img(1, None)]);
    assert_eq!(insert_post_with_media(&c, &p, 1), 2);
    assert_eq!(insert_post_with_media(&c, &p, 2), 0);
}

#[test]
fn conditions_of_a_full_filter() {
    let f = MediaFilter {
        media_type: Some("image".into()),
        since_ts: Some(10),
        until_ts: Some(20),
        include_reposts: Some(false),
        actor_dids: Some(vec!["did:a".into(), "did:b".into()]),
        query: Some(" say \"hi\" ".into()),
    };
    let (conds, params) = build_conditions(&f);
    assert_eq!(conds.len(), 7);
    assert_eq!(conds[0], "p.is_hidden = 0");
    assert_eq!(conds[1], "m.kind = ?");
    assert_eq!(conds[5], "p.author_did IN (?, ?)");
    assert_eq!(params.len(), 6);
    assert!(matches!(&params[5], SqlValue::Text(t) if t == "\"say \"\"hi\"\"\""));
}

#[test]
fn unknown_media_type_adds_no_condition() {
    let f = MediaFilter { media_type: Some("all".into()), ..filter() };
    let (conds, params) = build_conditions(&f);
    assert_eq!(conds, vec!["p.is_hidden = 0".to_string()]);
    assert!(params.is_empty());
}

#[test]
fn short_search_is_a_like_on_both_columns() {
    let f = MediaFilter { query: Some("ab".into()), ..filter() };
    let (_, params) = build_conditions(&f);
    assert_eq!(params.len(), 2);
    assert!(matches!(&params[0], SqlValue::Text(t) if t == "%ab%"));
}
