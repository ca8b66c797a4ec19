use hanaikada::auth::{check_login_input, Session, SessionMeta, SessionState};
use hanaikada::error::AppError;
use hanaikada::models::SessionResponse;

fn session(did: &str, handle: &str, access: &str, refresh: &str) -> Session {
    Session { did: did.into(), handle: handle.into(), access_jwt: access.into(), refresh_jwt: refresh.into() }
}

#[test]
fn login_is_remembered() {
    let mut st = SessionState::new();
    assert!(st.current().is_none());
    let info = st.install(session("did:plc:a", "a.test", "ACC", "REF"), 1234);
    assert_eq!(info.did, "did:plc:a");
    assert_eq!(info.last_auth_at, 1234);
    let cur = st.current().unwrap();
    assert_eq!(cur.handle, "a.test");
    assert_eq!(cur.last_auth_at, 1234);
    assert_eq!(st.snapshot_access().as_deref(), Some("ACC"));
    assert_eq!(st.snapshot_refresh().as_deref(), Some("REF"));
}

#[test]
fn logout_forgets_everything() {
    let mut st = SessionState::new();
    st.install(session("d", "h", "a", "r"), 1);
    st.logout();
    assert!(st.current().is_none());
    assert!(st.snapshot_access().is_none());
    assert!(matches!(st.refresh_token(), Err(AppError::NotLoggedIn)));
}

#[test]
fn restore_needs_both_halves() {
    let mut st = SessionState::new();
    let meta = SessionMeta { did: "did:x".into(), handle: "x.test".into(), last_auth_at: 77 };
    let a = st.restore(Some(meta), Some("REF".into()));
    assert_eq!(a.info.as_ref().unwrap().handle, "x.test");
    assert!(!a.clear_meta && !a.delete_refresh);
    assert!(st.snapshot_access().is_none(), "access token is fetched lazily");
    assert_eq!(st.refresh_token().ok().as_deref(), Some("REF"));

    let mut st = SessionState::new();
    let meta = SessionMeta { did: "did:x".into(), handle: "x.test".into(), last_auth_at: 77 };
    let a = st.restore(Some(meta), None);
    assert!(a.info.is_none() && a.clear_meta && !a.delete_refresh);
    assert!(st.current().is_none());

    let a = st.restore(None, Some("REF".into()));
    assert!(a.info.is_none() && !a.clear_meta && a.delete_refresh);
}

#[test]
fn validation_updates_handle_and_keeps_auth_time() {
    let mut st = SessionState::new();
    st.install(session("d1", "old.test", "a", "r"), 50);
    let info = st.apply_validated("d1".into(), "new.test".into());
    assert_eq!(info.handle, "new.test");
    assert_eq!(info.last_auth_at, 50);
    assert_eq!(st.current().unwrap().handle, "new.test");
    assert_eq!(st.snapshot_access().as_deref(), Some("a"));

    let mut empty = SessionState::new();
    let info = empty.apply_validated("d".into(), "h".into());
    assert_eq!(info.last_auth_at, 0);
    assert!(empty.current().is_none());
}

#[test]
fn login_input_is_trimmed_and_required() {
    assert!(matches!(check_login_input("  ", "pw"), Err(AppError::InvalidCredentials)));
    assert!(matches!(check_login_input("alice", " \t"), Err(AppError::InvalidCredentials)));
    let (i, p) = check_login_input("  alice.bsky.social ", " abcd-efgh ").ok().unwrap();
    assert_eq!(i, "alice.bsky.social");
    assert_eq!(p, "abcd-efgh");
}

#[test]
fn session_from_response() {
    let r = SessionResponse {
        did: "d".into(),
        handle: "h".into(),
        access_jwt: "a".into(),
        refresh_jwt: "r".into(),
        active: Some(true),
    };
    let s = Session::from(r);
    assert_eq!(s.refresh_jwt, "r");
    let meta = SessionMeta::of_session(&s, 9);
    assert_eq!(meta.did, "d");
    assert_eq!(meta.last_auth_at, 9);
}
