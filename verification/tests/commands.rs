use hanaikada::commands::{parse_prefs, CacheUsage};
use hanaikada::json::{JsonMember, JsonValue};
use hanaikada::migrations::plan;
use hanaikada::text::{parse_i64, parse_u64, trim};
use hanaikada::moderation::{graph_page, hidden_dids, next_graph_cursor, retry_after_refresh, weekly_due, WEEK_SECS};
use hanaikada::error::AppError;

fn to_json(v: &serde_json::Value) -> JsonValue {
    match v {
        serde_json::Value::Null => JsonValue::Null,
        serde_json::Value::Bool(b) => JsonValue::Bool(*b),
        serde_json::Value::Number(n) => JsonValue::Number(n.as_i64(), n.to_string()),
        serde_json::Value::String(s) => JsonValue::Str(s.clone()),
        serde_json::Value::Array(a) => JsonValue::Array(a.iter().map(to_json).collect()),
        serde_json::Value::Object(m) => JsonValue::Object(
            m.iter().map(|(k, v)| JsonMember { key: k.clone(), value: to_json(v) }).collect(),
        ),
    }
}

#[test]
fn reads_moderation_preferences() {
    let v: serde_json::Value = serde_json::from_str(
        r#"{"preferences":[
            {"$type":"app.bsky.actor.defs#adultContentPref","enabled":true},
            {"$type":"app.bsky.actor.defs#contentLabelPref","label":"nudity","visibility":"warn"},
            {"$type":"app.bsky.actor.defs#contentLabelPref","label":"gore"},
            {"$type":"app.bsky.actor.defs#savedFeedsPref"},
            {"$type":"app.bsky.actor.defs#contentLabelPref","label":"porn","visibility":"hide"}
        ]}"#,
    )
    .unwrap();
    let p = parse_prefs(&to_json(&v));
    assert!(p.adult_content_enabled);
    assert_eq!(p.label_prefs.len(), 2);
    assert_eq!(p.label_prefs[0].label, "nudity");
    assert_eq!(p.label_prefs[1].visibility, "hide");
}

#[test]
fn missing_preferences_mean_defaults() {
    let p = parse_prefs(&JsonValue::Object(vec![]));
    assert!(!p.adult_content_enabled);
    assert!(p.label_prefs.is_empty());
    let v: serde_json::Value = serde_json::from_str(
        r#"{"preferences":[{"$type":"app.bsky.actor.defs#adultContentPref","enabled":true},
                            {"$type":"app.bsky.actor.defs#adultContentPref"}]}"#,
    )
    .unwrap();
    assert!(!parse_prefs(&to_json(&v)).adult_content_enabled);
}

#[test]
fn cache_usage_totals() {
    let u = CacheUsage::new(3, 4, 10);
    assert_eq!((u.thumbs_bytes, u.fullsize_bytes, u.total_bytes, u.limit_bytes), (3, 4, 7, 10));
}

#[test]
fn weekly_reconciliation() {
    assert!(weekly_due(None, 0));
    assert!(!weekly_due(Some(1000), 1000 + WEEK_SECS - 1));
    assert!(weekly_due(Some(1000), 1000 + WEEK_SECS));
    assert_eq!(hidden_dids(vec!["a".into()], vec!["b".into(), "a".into()]), vec!["a", "b", "a"]);
    assert!(retry_after_refresh(&AppError::Unauthorized, false));
    assert!(!retry_after_refresh(&AppError::Unauthorized, true));
    assert!(!retry_after_refresh(&AppError::NotLoggedIn, false));
}

#[test]
fn migration_plans() {
    let p = plan(0);
    assert!(p.apply_v1 && p.apply_v2 && p.set_version);
    let p = plan(1);
    assert!(!p.apply_v1 && p.apply_v2 && p.set_version);
    let p = plan(2);
    assert!(!p.apply_v1 && !p.apply_v2 && !p.set_version);
}

#[test]
fn reads_mute_and_block_pages() {
    let v = serde_json::from_str::<serde_json::Value>(
        r#"{"cursor":"next","mutes":[{"did":"did:a","handle":"a"},{"handle":"no-did"},{"did":"did:b"}]}"#,
    )
    .unwrap();
    let page = graph_page(&to_json(&v), "mutes");
    assert_eq!(page.dids, vec!["did:a", "did:b"]);
    assert_eq!(page.cursor.as_deref(), Some("next"));

    // the other list name finds nothing; an empty cursor ends the list
    let v = serde_json::from_str::<serde_json::Value>(r#"{"cursor":"","blocks":[{"did":"did:c"}]}"#).unwrap();
    let page = graph_page(&to_json(&v), "mutes");
    assert!(page.dids.is_empty());
    assert_eq!(page.cursor, None);
    let page = graph_page(&to_json(&v), "blocks");
    assert_eq!(page.dids, vec!["did:c"]);
}

#[test]
fn decimal_parsing_matches_std() {
    let cases = [
        "", "+", "-", "+-1", "-+1", "0", "-0", "+7", "007", "42", "-42", " 42", "42 ", "4_2", "1e3",
        "9223372036854775807", "9223372036854775808", "-9223372036854775808", "-9223372036854775809",
        "18446744073709551615", "18446744073709551616", "99999999999999999999999", "٣", "１",
    ];
    for s in cases {
        assert_eq!(parse_i64(s), s.parse::<i64>().ok(), "i64 {s:?}");
        assert_eq!(parse_u64(s), s.parse::<u64>().ok(), "u64 {s:?}");
    }
}

#[test]
fn trimming_matches_std() {
    let cases = ["", "  ", "a", " a ", "\t\n a b \r", "\u{3000}硝子\u{3000}", "\u{200b}x\u{200b}", "\u{85}x\u{a0}", "x\u{2029}"];
    for s in cases {
        assert_eq!(trim(s), s.trim(), "{s:?}");
    }
}

#[test]
fn repeated_member_names_read_the_last() {
    let obj = JsonValue::Object(vec![
        JsonMember { key: "k".into(), value: JsonValue::Str("first".into()) },
        JsonMember { key: "k".into(), value: JsonValue::Str("last".into()) },
    ]);
    assert_eq!(obj.get("k").and_then(|v| v.as_str()), Some("last"));
    assert!(obj.get("other").is_none());
}

#[test]
fn graph_lists_stop_without_a_new_cursor() {
    assert_eq!(next_graph_cursor(&None, Some("a".into())), Some("a".to_string()));
    assert_eq!(next_graph_cursor(&Some("a".into()), Some("b".into())), Some("b".to_string()));
    assert_eq!(next_graph_cursor(&Some("a".into()), Some("a".into())), None);
    assert_eq!(next_graph_cursor(&Some("a".into()), None), None);
}

#[test]
fn numbers_keep_their_text() {
    let v: serde_json::Value = serde_json::from_str(r#"[1.5, 18446744073709551615, -3]"#).unwrap();
    match to_json(&v) {
        JsonValue::Array(a) => {
            assert!(matches!(&a[0], JsonValue::Number(None, t) if t == "1.5"));
            assert!(matches!(&a[1], JsonValue::Number(None, t) if t == "18446744073709551615"));
            assert!(matches!(&a[2], JsonValue::Number(Some(-3), t) if t == "-3"));
            assert_eq!(a[2].as_i64(), Some(-3));
            assert_eq!(a[0].as_i64(), None);
        }
        _ => panic!("an array"),
    }
}
