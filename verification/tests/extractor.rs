use hanaikada::extractor::{extract, ExtractedPost, KIND_IMAGE, KIND_VIDEO};
use hanaikada::json::{JsonMember, JsonValue};
use hanaikada::models::FeedViewPost;

fn to_json(v: &serde_json::Value) -> JsonValue {
    match v {
        serde_json::Value::Null => JsonValue::Null,
        serde_json::Value::Bool(b) => JsonValue::Bool(*b),
        serde_json::Value::Number(n) => JsonValue::Number(n.as_i64(), n.to_string()),
        serde_json::Value::String(s) => JsonValue::Str(s.clone()),
        serde_json::Value::Array(a) => JsonValue::Array(a.iter().map(to_json).collect()),
        serde_json::Value::Object(m) => JsonValue::Object(
            m.iter()
                .map(|(k, v)| JsonMember { key: k.clone(), value: to_json(v) })
                .collect(),
        ),
    }
}

fn parse(json: &str) -> FeedViewPost {
    let v: serde_json::Value = serde_json::from_str(json).expect("valid json");
    FeedViewPost::from_json(to_json(&v)).expect("valid feedViewPost json")
}

fn parse_ts(s: &str) -> Option<i64> {
    chrono::DateTime::parse_from_rfc3339(s).ok().map(|dt| dt.timestamp())
}

fn base_post(embed: &str, reason: &str) -> String {
    format!(
        r#"{{
          {reason}
          "post": {{
            "uri": "at://did:plc:alice/app.bsky.feed.post/1",
            "cid": "bafycid",
            "author": {{ "did": "did:plc:alice", "handle": "alice.bsky.social", "displayName": "Alice" }},
            "record": {{ "$type": "app.bsky.feed.post", "text": "hello", "createdAt": "2026-08-20T10:00:00Z" }},
            "indexedAt": "2026-08-20T10:00:05Z"
            {embed}
          }}
        }}"#
    )
}

fn extract_one(json: &str, include_external: bool) -> Option<ExtractedPost> {
    extract(parse(json), include_external)
}

#[test]
fn extracts_four_images_with_aspect() {
    let embed = r#", "embed": {
      "$type": "app.bsky.embed.images#view",
      "images": [
        {"thumb":"t0","fullsize":"f0","alt":"a0","aspectRatio":{"width":16,"height":9}},
        {"thumb":"t1","fullsize":"f1","alt":"","aspectRatio":{"width":1,"height":1}},
        {"thumb":"t2","fullsize":"f2"},
        {"thumb":"t3","fullsize":"f3","aspectRatio":{"width":4,"height":3}}
      ]
    }"#;
    let ex = extract_one(&base_post(embed, ""), false).expect("has media");
    assert_eq!(ex.media.len(), 4);
    assert_eq!(ex.media[0].kind, KIND_IMAGE);
    assert_eq!(ex.media[0].aspect_w, Some(16));
    assert_eq!(ex.media[0].aspect_h, Some(9));
    assert_eq!(ex.media[0].alt.as_deref(), Some("a0"));
    assert_eq!(ex.media[1].alt, None);
    assert_eq!(ex.media[2].aspect_w, None);
    assert_eq!(ex.media[3].idx, 3);
    assert_eq!(ex.text.as_deref(), Some("hello"));
}

#[test]
fn caps_images_at_four() {
    let embed = r#", "embed": {
      "$type": "app.bsky.embed.images#view",
      "images": [
        {"thumb":"t0","fullsize":"f0"},{"thumb":"t1","fullsize":"f1"},
        {"thumb":"t2","fullsize":"f2"},{"thumb":"t3","fullsize":"f3"},
        {"thumb":"t4","fullsize":"f4"}
      ]
    }"#;
    let ex = extract_one(&base_post(embed, ""), false).unwrap();
    assert_eq!(ex.media.len(), 4);
}

#[test]
fn extracts_video_playlist() {
    let embed = r#", "embed": {
      "$type": "app.bsky.embed.video#view",
      "playlist": "https://v/playlist.m3u8",
      "thumbnail": "https://v/thumb.jpg",
      "aspectRatio": {"width":9,"height":16}
    }"#;
    let ex = extract_one(&base_post(embed, ""), false).unwrap();
    assert_eq!(ex.media.len(), 1);
    assert_eq!(ex.media[0].kind, KIND_VIDEO);
    assert_eq!(ex.media[0].playlist_url.as_deref(), Some("https://v/playlist.m3u8"));
    assert_eq!(ex.media[0].thumb_url, "https://v/thumb.jpg");
    assert_eq!(ex.media[0].aspect_h, Some(16));
}

#[test]
fn extracts_record_with_media() {
    let embed = r#", "embed": {
      "$type": "app.bsky.embed.recordWithMedia#view",
      "record": { "record": { "uri": "at://did:plc:bob/app.bsky.feed.post/9" } },
      "media": {
        "$type": "app.bsky.embed.images#view",
        "images": [ {"thumb":"t","fullsize":"f","aspectRatio":{"width":2,"height":1}} ]
      }
    }"#;
    let ex = extract_one(&base_post(embed, ""), false).unwrap();
    assert_eq!(ex.media.len(), 1);
    assert_eq!(ex.media[0].aspect_w, Some(2));
}

#[test]
fn excludes_record_only_quote() {
    let embed = r#", "embed": {
      "$type": "app.bsky.embed.record#view",
      "record": { "uri": "at://did:plc:bob/app.bsky.feed.post/9" }
    }"#;
    assert!(extract_one(&base_post(embed, ""), false).is_none());
}

#[test]
fn excludes_external_by_default_but_includes_when_enabled() {
    let embed = r#", "embed": {
      "$type": "app.bsky.embed.external#view",
      "external": { "uri":"https://ex", "title":"T", "description":"D", "thumb":"https://ex/thumb.jpg" }
    }"#;
    let json = base_post(embed, "");
    assert!(extract_one(&json, false).is_none());
    let ex = extract_one(&json, true).expect("included when enabled");
    assert_eq!(ex.media.len(), 1);
    assert_eq!(ex.media[0].thumb_url, "https://ex/thumb.jpg");
}

#[test]
fn excludes_post_without_embed() {
    assert!(extract_one(&base_post("", ""), false).is_none());
}

#[test]
fn records_reposter_and_uses_repost_time_for_ordering() {
    let embed = r#", "embed": {
      "$type": "app.bsky.embed.images#view",
      "images": [ {"thumb":"t","fullsize":"f"} ]
    }"#;
    let reason = r#""reason": {
      "$type": "app.bsky.feed.defs#reasonRepost",
      "by": { "did": "did:plc:carol", "handle": "carol.bsky.social" },
      "indexedAt": "2026-08-29T12:00:00Z"
    },"#;
    let ex = extract_one(&base_post(embed, reason), false).unwrap();

    let reposter = ex.reposter.expect("reposter recorded");
    assert_eq!(reposter.did, "did:plc:carol");
    assert_eq!(reposter.handle, "carol.bsky.social");

    let repost_ts = parse_ts("2026-08-29T12:00:00Z").unwrap();
    let created_ts = parse_ts("2026-08-20T10:00:00Z").unwrap();
    assert_eq!(ex.indexed_at, repost_ts, "並び順はリポスト時刻");
    assert_eq!(ex.created_at, created_ts, "created_at は原投稿の作成日");
}

#[test]
fn no_reposter_for_non_repost_reason() {
    let embed = r#", "embed": {
      "$type": "app.bsky.embed.images#view",
      "images": [ {"thumb":"t","fullsize":"f"} ]
    }"#;
    let ex = extract_one(&base_post(embed, ""), false).unwrap();
    assert!(ex.reposter.is_none());
}

// --- further cases ---

#[test]
fn skips_image_without_thumb_keeping_positions() {
    let embed = r#", "embed": {
      "$type": "app.bsky.embed.images#view",
      "images": [ {"fullsize":"f0"}, {"thumb":"t1"} ]
    }"#;
    let ex = extract_one(&base_post(embed, ""), false).unwrap();
    assert_eq!(ex.media.len(), 1);
    assert_eq!(ex.media[0].idx, 1);
    assert_eq!(ex.media[0].fullsize_url, None);
}

#[test]
fn post_time_orders_a_plain_post() {
    let embed = r#", "embed": {
      "$type": "app.bsky.embed.images#view",
      "images": [ {"thumb":"t"} ]
    }"#;
    let ex = extract_one(&base_post(embed, ""), false).unwrap();
    assert_eq!(ex.indexed_at, parse_ts("2026-08-20T10:00:05Z").unwrap());
    assert_eq!(ex.created_at, parse_ts("2026-08-20T10:00:00Z").unwrap());
    assert_eq!(ex.uri, "at://did:plc:alice/app.bsky.feed.post/1");
    assert_eq!(ex.author.display_name.as_deref(), Some("Alice"));
}

#[test]
fn keeps_non_empty_labels_only() {
    let with_labels = r#", "labels": [{"val":"porn"}], "embed": {
      "$type": "app.bsky.embed.images#view",
      "images": [ {"thumb":"t"} ]
    }"#;
    let ex = extract_one(&base_post(with_labels, ""), false).unwrap();
    assert!(matches!(ex.labels, Some(JsonValue::Array(ref a)) if a.len() == 1));
    let empty_labels = r#", "labels": [], "embed": {
      "$type": "app.bsky.embed.images#view",
      "images": [ {"thumb":"t"} ]
    }"#;
    let ex = extract_one(&base_post(empty_labels, ""), false).unwrap();
    assert!(ex.labels.is_none());
}

#[test]
fn video_without_thumbnail_has_empty_thumb() {
    let embed = r#", "embed": {
      "$type": "app.bsky.embed.video#view",
      "playlist": "https://v/p.m3u8",
      "alt": "clip"
    }"#;
    let ex = extract_one(&base_post(embed, ""), false).unwrap();
    assert_eq!(ex.media[0].thumb_url, "");
    assert_eq!(ex.media[0].alt.as_deref(), Some("clip"));
    assert_eq!(ex.media[0].fullsize_url, None);
}

#[test]
fn unreadable_post_does_not_decode() {
    let v: serde_json::Value = serde_json::from_str(r#"{"post": {"uri": 5}}"#).unwrap();
    assert!(FeedViewPost::from_json(to_json(&v)).is_none());
}
