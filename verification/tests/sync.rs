use hanaikada::error::AppError;
use hanaikada::sync::{
    differential_mode, initial_mode, mode_phase, start_run, SyncEvent, SyncMode, SyncOutcome,
    SyncPhase, SyncRuntime, SyncStatus, DAY_SECS, INITIAL_MAX_PAGES,
};

#[test]
fn single_run_gate() {
    let mut rt = SyncRuntime::new();
    assert!(matches!(start_run(false, &mut rt, differential_mode()), Err(AppError::NotLoggedIn)));
    assert!(matches!(start_run(true, &mut rt, differential_mode()), Ok(true)));
    assert!(rt.snapshot().running);
    assert_eq!(rt.snapshot().phase, SyncPhase::Diff);
    assert!(matches!(start_run(true, &mut rt, differential_mode()), Ok(false)));
    rt.request_cancel();
    assert!(rt.is_cancelled());
    let ev = rt.complete(Err(AppError::Cancelled), 77);
    assert!(matches!(ev, SyncEvent::Completed));
    let s = rt.snapshot();
    assert!(!s.running && s.cancelled && s.last_run_at == Some(77));
    assert_eq!(s.phase, SyncPhase::Idle);
    assert!(matches!(start_run(true, &mut rt, differential_mode()), Ok(true)));
    assert!(!rt.is_cancelled(), "a new run clears the cancel flag");
    assert_eq!(rt.snapshot().last_run_at, Some(77), "the last run time is kept");
    assert!(!rt.snapshot().cancelled);
}

#[test]
fn completion_records_outcome_or_error() {
    let mut rt = SyncRuntime::new();
    rt.try_start(SyncPhase::Initial);
    rt.record_progress(3, 9, Some(100));
    rt.set_throttled(Some(500));
    let ev = rt.complete(Ok(SyncOutcome { pages: 4, media_added: 10, oldest_indexed: None, cancelled: false }), 1);
    assert!(matches!(ev, SyncEvent::Completed));
    let s = rt.snapshot();
    assert_eq!((s.page, s.media_added, s.last_run_at, s.throttled_until), (4, 10, Some(1), None));

    rt.try_start(SyncPhase::Diff);
    match rt.complete(Err(AppError::NotLoggedIn), 2) {
        SyncEvent::Error(m) => assert_eq!(m, "未ログインです"),
        _ => panic!("error event expected"),
    }
    assert_eq!(rt.snapshot().last_error.as_deref(), Some("未ログインです"));
}

#[test]
fn update_applies_a_function() {
    let mut rt = SyncRuntime::new();
    rt.update(|mut s: SyncStatus| {
        s.page = 5;
        s
    });
    assert_eq!(rt.snapshot().page, 5);
    rt.begin(SyncPhase::Initial);
    assert_eq!(rt.snapshot().phase, SyncPhase::Initial);
    let d = SyncStatus::default();
    assert!(!d.running && d.page == 0 && d.last_error.is_none());
}

#[test]
fn modes() {
    assert_eq!(differential_mode(), SyncMode::Differential { max_pages: 5 });
    assert_eq!(initial_mode(100 * DAY_SECS, 30), SyncMode::Initial { cutoff_ts: 70 * DAY_SECS, max_pages: INITIAL_MAX_PAGES });
    assert_eq!(mode_phase(initial_mode(0, 1)), SyncPhase::Initial);
    assert_eq!(differential_mode().max_pages(), 5);
}

#[test]
fn cancel_flag_follows_the_last_admitted_start() {
    let mut rt = SyncRuntime::new();
    assert!(!rt.is_cancelled());
    rt.request_cancel();
    assert!(rt.is_cancelled(), "asked before any start");
    assert!(rt.try_start(SyncPhase::Diff));
    assert!(!rt.is_cancelled(), "an admitted start clears it");
    rt.request_cancel();
    assert!(!rt.try_start(SyncPhase::Initial), "a refused start");
    assert!(rt.is_cancelled(), "a refused start keeps it");
    rt.finish();
    assert!(rt.is_cancelled(), "the end of a run keeps it");
}

#[test]
fn an_admitted_run_starts_from_a_clean_status() {
    let mut rt = SyncRuntime::new();
    assert!(matches!(start_run(true, &mut rt, differential_mode()), Ok(true)));
    rt.record_progress(3, 9, Some(5));
    rt.set_throttled(Some(100));
    let _ = rt.complete(Err(AppError::Network("down".into())), 40);
    rt.update(|mut s| {
        s.last_run_at = Some(40);
        s
    });
    assert!(matches!(start_run(true, &mut rt, initial_mode(100 * DAY_SECS, 1)), Ok(true)));
    let s = rt.snapshot();
    assert!(s.running && !s.cancelled);
    assert_eq!(s.phase, SyncPhase::Initial);
    assert_eq!((s.page, s.media_added, s.oldest_indexed_at, s.throttled_until), (0, 0, None, None));
    assert_eq!(s.last_error, None);
    assert_eq!(s.last_run_at, Some(40));
}
