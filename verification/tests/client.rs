use hanaikada::client::{error_name, map_error, refresh_error, session_error, timeline_error, xrpc_url, DEFAULT_SERVICE};
use hanaikada::error::AppError;
use hanaikada::json::{JsonMember, JsonValue};
use hanaikada::models::{GetSessionResponse, SessionResponse};

fn to_json(v: &serde_json::Value) -> JsonValue {
    match v {
        serde_json::Value::Null => JsonValue::Null,
        serde_json::Value::Bool(b) => JsonValue::Bool(*b),
        serde_json::Value::Number(n) => JsonValue::Number(n.as_i64(), n.to_string()),
        serde_json::Value::String(s) => JsonValue::Str(s.clone()),
        serde_json::Value::Array(a) => JsonValue::Array(a.iter().map(to_json).collect()),
        serde_json::Value::Object(m) => JsonValue::Object(
            m.iter().map(|(k, v)| JsonMember { key: k.clone(), value: to_json(v) }).collect(),
        ),
    }
}

fn body(s: &str) -> Option<JsonValue> {
    serde_json::from_str::<serde_json::Value>(s).ok().map(|v| to_json(&v))
}

#[test]
fn builds_xrpc_urls() {
    assert_eq!(
        xrpc_url(DEFAULT_SERVICE, "com.atproto.server.getSession"),
        "https://bsky.social/xrpc/com.atproto.server.getSession"
    );
}

#[test]
fn classifies_error_responses() {
    assert!(matches!(map_error(401, None), AppError::Unauthorized));
    let b = body(r#"{"error":"ExpiredToken","message":"expired"}"#);
    assert!(matches!(map_error(400, b.as_ref()), AppError::Unauthorized));
    let b = body(r#"{"error":"InvalidRequest"}"#);
    assert!(matches!(map_error(400, b.as_ref()), AppError::Xrpc { status: 400, ref error } if error == "InvalidRequest"));
    assert!(matches!(map_error(429, None), AppError::Xrpc { status: 429, ref error } if error == "RateLimitExceeded"));
    assert!(matches!(map_error(500, body("not json").as_ref()), AppError::Xrpc { status: 500, ref error } if error == "Internal Server Error"));
    assert!(matches!(map_error(599, None), AppError::Xrpc { status: 599, ref error } if error == "UnknownError"));
}

#[test]
fn error_name_needs_a_string_error() {
    assert_eq!(error_name(body(r#"{"error":5}"#).as_ref()), "");
    assert_eq!(error_name(body(r#"{"message":"m"}"#).as_ref()), "");
    assert_eq!(error_name(body(r#"{"error":"X"}"#).as_ref()), "X");
}

#[test]
fn timeline_rate_limit_keeps_retry_after() {
    assert!(matches!(timeline_error(429, None, Some(30)), AppError::RateLimited { retry_after_secs: Some(30) }));
    assert!(matches!(timeline_error(401, None, Some(30)), AppError::Unauthorized));
}

#[test]
fn login_and_refresh_failures() {
    assert!(matches!(session_error(AppError::Unauthorized, true), AppError::InvalidCredentials));
    assert!(matches!(session_error(AppError::Unauthorized, false), AppError::Unauthorized));
    assert!(matches!(refresh_error(AppError::Unauthorized), AppError::RefreshFailed));
    assert!(matches!(refresh_error(AppError::InvalidCredentials), AppError::RefreshFailed));
    assert!(matches!(refresh_error(AppError::NotLoggedIn), AppError::NotLoggedIn));
}

#[test]
fn decodes_session_answers() {
    let v = body(r#"{"did":"d","handle":"h","accessJwt":"a","refreshJwt":"r"}"#).unwrap();
    let s = SessionResponse::from_json(&v).unwrap();
    assert_eq!(s.access_jwt, "a");
    assert_eq!(s.active, None);
    let v = body(r#"{"did":"d","handle":"h","accessJwt":"a"}"#).unwrap();
    assert!(SessionResponse::from_json(&v).is_none());
    let v = body(r#"{"did":"d","handle":"h","active":false}"#).unwrap();
    assert_eq!(GetSessionResponse::from_json(&v).unwrap().active, Some(false));
}

#[test]
fn error_messages() {
    assert_eq!(AppError::NotLoggedIn.message(), "未ログインです");
    assert_eq!(AppError::Xrpc { status: 400, error: "X".into() }.message(), "Bluesky API エラー: X");
    assert_eq!(AppError::Network("down".into()).message(), "ネットワークエラー: down");
}

fn member(k: &str, v: JsonValue) -> JsonMember {
    JsonMember { key: k.into(), value: v }
}

#[test]
fn error_bodies_as_arrays_and_repeated_names() {
    // a record may be written as the array of its fields
    let b = body(r#"["ExpiredToken"]"#);
    assert!(matches!(map_error(400, b.as_ref()), AppError::Unauthorized));
    assert_eq!(error_name(body(r#"["X", "msg"]"#).as_ref()), "X");
    assert_eq!(error_name(body(r#"[]"#).as_ref()), "");
    assert_eq!(error_name(body(r#"["X", "m", 3]"#).as_ref()), "");
    assert_eq!(error_name(body(r#"[null]"#).as_ref()), "");
    // an object naming a field twice is not an error body
    let twice = JsonValue::Object(vec![
        member("error", JsonValue::Str("ExpiredToken".into())),
        member("error", JsonValue::Str("ExpiredToken".into())),
    ]);
    assert_eq!(error_name(Some(&twice)), "");
    assert!(matches!(map_error(400, Some(&twice)), AppError::Xrpc { status: 400, .. }));
}

#[test]
fn session_answers_as_arrays_and_repeated_names() {
    let a = body(r#"["did:x", "x.test", "acc", "ref"]"#).unwrap();
    let s = SessionResponse::from_json(&a).unwrap();
    assert_eq!((s.did.as_str(), s.refresh_jwt.as_str(), s.active), ("did:x", "ref", None));
    assert!(SessionResponse::from_json(&body(r#"["did:x", "x.test", "acc"]"#).unwrap()).is_none());
    assert!(SessionResponse::from_json(&body(r#"["d", "h", "a", "r", true, 1]"#).unwrap()).is_none());
    let g = GetSessionResponse::from_json(&body(r#"["did:x", "x.test", false]"#).unwrap()).unwrap();
    assert_eq!(g.active, Some(false));
    let twice = JsonValue::Object(vec![
        member("did", JsonValue::Str("a".into())),
        member("handle", JsonValue::Str("h".into())),
        member("did", JsonValue::Str("b".into())),
    ]);
    assert!(GetSessionResponse::from_json(&twice).is_none());
}
