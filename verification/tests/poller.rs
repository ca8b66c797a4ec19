use hanaikada::error::AppError;
use hanaikada::poller::{
    backoff, backoff_with_jitter, PageEnd, PollState, PollStep, RetryAction, RetryState,
    StateWrite, BACKOFF_BASE_SECS, BACKOFF_MAX_SECS,
};
use hanaikada::sync::{SyncMode, SyncOutcome};
use std::time::Duration;

#[test]
fn backoff_is_exponential_and_capped() {
    let base = BACKOFF_BASE_SECS;
    for attempt in 0..3 {
        let d = Duration::from_millis(backoff(attempt));
        let expected = base * (1u64 << attempt);
        let lo = Duration::from_secs(expected);
        let hi = Duration::from_secs(expected) + Duration::from_millis(1000);
        assert!(d >= lo && d < hi, "attempt {attempt}: {d:?} は [{lo:?}, {hi:?}) の範囲外");
    }
}

#[test]
fn backoff_saturates_at_max() {
    let d = Duration::from_millis(backoff(20));
    let lo = Duration::from_secs(BACKOFF_MAX_SECS);
    let hi = Duration::from_secs(BACKOFF_MAX_SECS) + Duration::from_millis(1000);
    assert!(d >= lo && d < hi, "{d:?} は上限 300 秒に頭打ちされるべき");
}

#[test]
fn backoff_with_jitter_exact_values() {
    assert_eq!(backoff_with_jitter(0, 0), 5_000);
    assert_eq!(backoff_with_jitter(3, 123_456_789), 40_123);
    assert_eq!(backoff_with_jitter(5, 999_999_999), 160_999);
    assert_eq!(backoff_with_jitter(6, 0), 300_000);
}

#[test]
fn differential_stops_at_known_post_and_never_saves_cursor() {
    let mode = SyncMode::Differential { max_pages: 5 };
    let mut st = PollState::new(mode, Some("SAVED".into()));
    match st.next_step(false) {
        PollStep::Fetch(c) => assert_eq!(c, None),
        _ => panic!("should fetch"),
    }
    st.begin_page();
    assert!(st.checks_known());
    st.record_insert(500, 2);
    assert_eq!(
        st.outcome_so_far(),
        SyncOutcome { pages: 1, media_added: 2, oldest_indexed: Some(500), cancelled: false }
    );
    st.record_known();
    match st.state_write(Some("NEXT")) {
        StateWrite::Touch { oldest_seen } => assert_eq!(oldest_seen, Some(500)),
        _ => panic!("differential sync must not write the cursor"),
    }
    match st.end_page(Some("NEXT".into()), false, None) {
        PageEnd::Stop(o) => {
            assert_eq!(o, SyncOutcome { pages: 1, media_added: 2, oldest_indexed: Some(500), cancelled: false })
        }
        _ => panic!("should stop at a known post"),
    }
}

#[test]
fn initial_resumes_and_stops_past_cutoff() {
    let mode = SyncMode::Initial { cutoff_ts: 1000, max_pages: 10 };
    assert_eq!(PollState::initial_skip(mode, Some(900)), Some(SyncOutcome { pages: 0, media_added: 0, oldest_indexed: Some(900), cancelled: false }));
    assert_eq!(PollState::initial_skip(mode, Some(1100)), None);
    let mut st = PollState::new(mode, Some("SAVED".into()));
    match st.next_step(false) {
        PollStep::Fetch(c) => assert_eq!(c.as_deref(), Some("SAVED")),
        _ => panic!("should fetch"),
    }
    st.begin_page();
    assert!(!st.checks_known());
    st.record_insert(2000, 1);
    match st.end_page(Some("C2".into()), false, Some(5)) {
        PageEnd::Continue { pause_secs } => assert_eq!(pause_secs, 2),
        _ => panic!("should continue"),
    }
    match st.state_write(Some("C3")) {
        StateWrite::SaveCursor { cursor, oldest_seen } => {
            assert_eq!(cursor.as_deref(), Some("C3"));
            assert_eq!(oldest_seen, Some(2000));
        }
        _ => panic!("initial sync saves the cursor"),
    }
    st.begin_page();
    st.record_insert(999, 1);
    match st.end_page(Some("C3".into()), false, None) {
        PageEnd::Stop(o) => assert_eq!(o.oldest_indexed, Some(999)),
        _ => panic!("should stop past the cut-off"),
    }
}

#[test]
fn loop_stops_at_page_limit_and_on_cancel() {
    let mode = SyncMode::Differential { max_pages: 1 };
    let mut st = PollState::new(mode, None);
    st.begin_page();
    let _ = st.end_page(Some("c".into()), false, None);
    assert!(matches!(st.next_step(false), PollStep::Done(SyncOutcome { pages: 1, cancelled: false, .. })));
    assert!(matches!(st.next_step(true), PollStep::Done(SyncOutcome { cancelled: true, .. })));
}

#[test]
fn timeline_end_stops_the_loop() {
    let mut st = PollState::new(SyncMode::Differential { max_pages: 5 }, None);
    st.begin_page();
    assert!(matches!(st.end_page(None, false, None), PageEnd::Stop(_)));
    let mut st = PollState::new(SyncMode::Differential { max_pages: 5 }, None);
    st.begin_page();
    assert!(matches!(st.end_page(Some("c".into()), true, None), PageEnd::Stop(_)));
}

#[test]
fn retry_policy() {
    let mut r = RetryState::new();
    assert!(matches!(r.on_error(AppError::Unauthorized), RetryAction::Refresh));
    assert!(matches!(r.on_error(AppError::Unauthorized), RetryAction::Fail(AppError::Unauthorized)));

    let mut r = RetryState::new();
    for _ in 0..6 {
        assert!(matches!(
            r.on_error_with_backoff(AppError::RateLimited { retry_after_secs: Some(7) }, 1),
            RetryAction::Wait { millis: 7000, throttled: true }
        ));
    }
    assert!(matches!(
        r.on_error_with_backoff(AppError::RateLimited { retry_after_secs: None }, 1),
        RetryAction::Fail(AppError::RateLimited { .. })
    ));

    let mut r = RetryState::new();
    for _ in 0..3 {
        assert!(matches!(
            r.on_error(AppError::Network("x".into())),
            RetryAction::Wait { millis: 2000, throttled: false }
        ));
    }
    assert!(matches!(r.on_error(AppError::Network("x".into())), RetryAction::Fail(AppError::Network(_))));
    assert!(matches!(RetryState::new().on_error(AppError::NotLoggedIn), RetryAction::Fail(AppError::NotLoggedIn)));
}

#[test]
fn rate_limit_without_hint_uses_backoff() {
    let mut r = RetryState::new();
    match r.on_error(AppError::RateLimited { retry_after_secs: None }) {
        RetryAction::Wait { millis, throttled } => {
            assert!(throttled);
            assert!((5000..6000).contains(&millis));
        }
        _ => panic!("should wait"),
    }
}

#[test]
fn repeated_rate_limit_without_hint_ends_after_seven_tries() {
    let mut r = RetryState::new();
    for attempt in 0..6u32 {
        match r.on_error(AppError::RateLimited { retry_after_secs: None }) {
            RetryAction::Wait { millis, throttled: true } => {
                let secs = (BACKOFF_BASE_SECS << attempt).min(BACKOFF_MAX_SECS);
                assert!(millis >= secs * 1000 && millis < secs * 1000 + 1000);
            }
            _ => panic!("retry {attempt} should wait"),
        }
    }
    assert!(matches!(
        r.on_error(AppError::RateLimited { retry_after_secs: None }),
        RetryAction::Fail(AppError::RateLimited { retry_after_secs: None })
    ));
}
