//! Sync engine state: the status that the frontend sees, the single-run guard,
//! cancellation, and what a finished run leaves behind.
//!
//! - `sync_now`: differential sync (from the newest page; stops at a known
//!   post or after [`DIFF_MAX_PAGES`] pages);
//! - `start_initial_sync`: initial sync (back to a cut-off, resumable).
//!
//! The shell keeps one [`SyncRuntime`] behind a lock, runs the page loop
//! (see [`crate::poller`]) and emits `sync:progress`, `sync:completed`,
//! `sync:error` and `ratelimit:throttled` events.

use crate::error::{message_of, AppError};
use crate::text::owned;
use vstd::prelude::*;

verus! {

/// Pages fetched at most by a differential sync.
pub const DIFF_MAX_PAGES: u32 = 5;

/// Pages fetched at most by one initial-sync run (a safety valve: the run is
/// resumable from the saved cursor).
pub const INITIAL_MAX_PAGES: u32 = 2000;

/// Days an initial sync reaches back by default.
pub const DEFAULT_INITIAL_DAYS: u32 = 30;

/// Seconds in a day.
pub const DAY_SECS: i64 = 86400;

#[derive(Clone, Copy, Debug, PartialEq, Eq, Structural)]
pub enum SyncPhase {
    Idle,
    Diff,
    Initial,
}

/// What a sync run does.
#[derive(Clone, Copy, Debug, PartialEq, Eq, Structural)]
pub enum SyncMode {
    /// Differential: at most `max_pages`, stopping at a known post.
    Differential { max_pages: u32 },
    /// Initial: back until items older than `cutoff_ts` (Unix seconds), or `max_pages`.
    Initial { cutoff_ts: i64, max_pages: u32 },
}

impl SyncMode {
    pub open spec fn spec_max_pages(&self) -> u32 {
        match *self {
            SyncMode::Differential { max_pages } => max_pages,
            SyncMode::Initial { max_pages, .. } => max_pages,
        }
    }

    pub open spec fn spec_phase(&self) -> SyncPhase {
        match *self {
            SyncMode::Differential { .. } => SyncPhase::Diff,
            SyncMode::Initial { .. } => SyncPhase::Initial,
        }
    }

    /// The page limit of the run.
    #[verifier::when_used_as_spec(spec_max_pages)]
    pub fn max_pages(&self) -> (r: u32)
        ensures
            r == self.spec_max_pages(),
    {
        match self {
            SyncMode::Differential { max_pages } => *max_pages,
            SyncMode::Initial { max_pages, .. } => *max_pages,
        }
    }

    /// The phase the run reports.
    #[verifier::when_used_as_spec(spec_phase)]
    pub fn phase(&self) -> (r: SyncPhase)
        ensures
            r == self.spec_phase(),
    {
        match self {
            SyncMode::Differential { .. } => SyncPhase::Diff,
            SyncMode::Initial { .. } => SyncPhase::Initial,
        }
    }
}

/// The phase of a mode.
pub fn mode_phase(mode: SyncMode) -> (r: SyncPhase)
    ensures
        r == mode.spec_phase(),
{
    mode.phase()
}

/// The differential sync.
pub fn differential_mode() -> (r: SyncMode)
    ensures
        r == (SyncMode::Differential { max_pages: DIFF_MAX_PAGES }),
{
    SyncMode::Differential { max_pages: DIFF_MAX_PAGES }
}

/// The initial sync reaching back `days` days from `now`.
pub fn initial_mode(now: i64, days: u32) -> (r: SyncMode)
    requires
        now - days * DAY_SECS >= i64::MIN,
    ensures
        r == (SyncMode::Initial { cutoff_ts: (now - days * DAY_SECS) as i64, max_pages: INITIAL_MAX_PAGES }),
{
    let back: i64 = (days as i64) * DAY_SECS;
    SyncMode::Initial { cutoff_ts: now - back, max_pages: INITIAL_MAX_PAGES }
}

/// The result of one sync run.
#[derive(Clone, Copy, Debug, PartialEq, Eq, Structural)]
pub struct SyncOutcome {
    pub pages: u32,
    pub media_added: u32,
    /// How far back (timeline time) the run reached.
    pub oldest_indexed: Option<i64>,
    pub cancelled: bool,
}

/// The sync status that the frontend reads and the events carry.
pub struct SyncStatus {
    pub running: bool,
    pub phase: SyncPhase,
    pub page: u32,
    pub media_added: u32,
    pub last_run_at: Option<i64>,
    pub last_error: Option<String>,
    pub oldest_indexed_at: Option<i64>,
    pub throttled_until: Option<i64>,
    pub cancelled: bool,
}

/// The idle status with nothing recorded.
pub open spec fn idle_status(s: SyncStatus) -> bool {
    &&& !s.running
    &&& s.phase == SyncPhase::Idle
    &&& s.page == 0
    &&& s.media_added == 0
    &&& s.last_run_at is None
    &&& s.last_error is None
    &&& s.oldest_indexed_at is None
    &&& s.throttled_until is None
    &&& !s.cancelled
}

impl Default for SyncStatus {
    fn default() -> (r: SyncStatus)
        ensures
            idle_status(r),
    {
        SyncStatus {
            running: false,
            phase: SyncPhase::Idle,
            page: 0,
            media_added: 0,
            last_run_at: None,
            last_error: None,
            oldest_indexed_at: None,
            throttled_until: None,
            cancelled: false,
        }
    }
}

impl SyncStatus {
    /// A copy of the status.
    pub fn copy(&self) -> (r: SyncStatus)
        ensures
            r == *self,
    {
        SyncStatus {
            running: self.running,
            phase: self.phase,
            page: self.page,
            media_added: self.media_added,
            last_run_at: self.last_run_at,
            last_error: match &self.last_error {
                Some(e) => Some(e.clone()),
                None => None,
            },
            oldest_indexed_at: self.oldest_indexed_at,
            throttled_until: self.throttled_until,
            cancelled: self.cancelled,
        }
    }
}

/// The status of a run that just started in `phase`: running, nothing
/// counted, no error, not throttled, not cancelled; only the last run time
/// is kept.
pub open spec fn started_status(phase: SyncPhase, last_run_at: Option<i64>) -> SyncStatus {
    SyncStatus {
        running: true,
        phase,
        page: 0,
        media_added: 0,
        last_run_at,
        last_error: None,
        oldest_indexed_at: None,
        throttled_until: None,
        cancelled: false,
    }
}

/// What the shell emits when a run ends.
pub enum SyncEvent {
    /// `sync:completed` with the status snapshot.
    Completed,
    /// `sync:error` with this message.
    Error(String),
}

/// A call on a [`SyncRuntime`], as far as its running and cancel flags go.
pub enum RuntimeCall {
    /// `try_start`.
    TryStart,
    /// `finish` or `complete`: the run is over.
    Finish,
    /// `request_cancel`.
    RequestCancel,
    /// Any call that only touches the status.
    Other,
}

/// The running and cancel flags after one call: a start is admitted only
/// when no run is going, and then clears the cancel flag; the end of a run
/// clears the running flag; a cancel request sets the cancel flag.
pub open spec fn flag_step(running: bool, cancel: bool, call: RuntimeCall) -> (bool, bool) {
    match call {
        RuntimeCall::TryStart => if running {
            (running, cancel)
        } else {
            (true, false)
        },
        RuntimeCall::Finish => (false, cancel),
        RuntimeCall::RequestCancel => (running, true),
        RuntimeCall::Other => (running, cancel),
    }
}

/// The flags after a sequence of calls on a new runtime.
pub open spec fn flags_after(calls: Seq<RuntimeCall>) -> (bool, bool)
    decreases calls.len(),
{
    if calls.len() == 0 {
        (false, false)
    } else {
        let (running, cancel) = flags_after(calls.drop_last());
        flag_step(running, cancel, calls.last())
    }
}

/// Whether a cancel was asked for since the last start that was admitted
/// (or since the runtime was made, when none was).
pub open spec fn cancel_asked_since_start(calls: Seq<RuntimeCall>) -> bool
    decreases calls.len(),
{
    if calls.len() == 0 {
        false
    } else if calls.last() is RequestCancel {
        true
    } else if calls.last() is TryStart && !flags_after(calls.drop_last()).0 {
        false
    } else {
        cancel_asked_since_start(calls.drop_last())
    }
}

/// The cancel flag that `is_cancelled` reports is true exactly when a cancel
/// was asked for since the last admitted start (a new runtime reports false).
pub proof fn law_cancel_since_start(calls: Seq<RuntimeCall>)
    ensures
        flags_after(calls).1 == cancel_asked_since_start(calls),
    decreases calls.len(),
{
    if calls.len() > 0 {
        law_cancel_since_start(calls.drop_last());
    }
}

/// The running flag, the cancel flag and the status.
pub struct SyncRuntime {
    running: bool,
    cancel: bool,
    status: SyncStatus,
}

impl SyncRuntime {
    pub closed spec fn is_running(&self) -> bool {
        self.running
    }

    pub closed spec fn cancel_requested(&self) -> bool {
        self.cancel
    }

    pub closed spec fn status(&self) -> SyncStatus {
        self.status
    }

    /// Idle, nothing recorded.
    pub fn new() -> (r: SyncRuntime)
        ensures
            (r.is_running(), r.cancel_requested()) == flags_after(Seq::empty()),
            !r.is_running(),
            !r.cancel_requested(),
            idle_status(r.status()),
    {
        SyncRuntime { running: false, cancel: false, status: SyncStatus::default() }
    }

    /// The single-run guard: `false` (and nothing changes) while a run is
    /// going; else the run starts: the cancel flag is cleared and the status
    /// is reset to a running `phase`, keeping only the last run time.
    pub fn try_start(&mut self, phase: SyncPhase) -> (r: bool)
        ensures
            (final(self).is_running(), final(self).cancel_requested()) == flag_step(
                old(self).is_running(),
                old(self).cancel_requested(),
                RuntimeCall::TryStart,
            ),
            r == !old(self).is_running(),
            !r ==> *final(self) == *old(self),
            r ==> {
                &&& final(self).is_running()
                &&& !final(self).cancel_requested()
                &&& final(self).status() == started_status(phase, old(self).status().last_run_at)
            },
    {
        if self.running {
            return false;
        }
        self.running = true;
        self.cancel = false;
        let last_run_at = self.status.last_run_at;
        self.status = SyncStatus {
            running: true,
            phase,
            page: 0,
            media_added: 0,
            last_run_at,
            last_error: None,
            oldest_indexed_at: None,
            throttled_until: None,
            cancelled: false,
        };
        true
    }

    /// The run ended: the running flag is cleared; the status is idle and not throttled.
    pub fn finish(&mut self)
        ensures
            (final(self).is_running(), final(self).cancel_requested()) == flag_step(
                old(self).is_running(),
                old(self).cancel_requested(),
                RuntimeCall::Finish,
            ),
            !final(self).is_running(),
            final(self).cancel_requested() == old(self).cancel_requested(),
            final(self).status() == (SyncStatus {
                running: false,
                phase: SyncPhase::Idle,
                throttled_until: None,
                ..old(self).status()
            }),
    {
        self.running = false;
        self.status.running = false;
        self.status.phase = SyncPhase::Idle;
        self.status.throttled_until = None;
    }

    /// Records the phase a run is in.
    pub fn begin(&mut self, phase: SyncPhase)
        ensures
            (final(self).is_running(), final(self).cancel_requested()) == flag_step(
                old(self).is_running(),
                old(self).cancel_requested(),
                RuntimeCall::Other,
            ),
            final(self).is_running() == old(self).is_running(),
            final(self).cancel_requested() == old(self).cancel_requested(),
            final(self).status() == (SyncStatus { phase, ..old(self).status() }),
    {
        self.status.phase = phase;
    }

    /// Asks the running sync to stop at its next check.
    pub fn request_cancel(&mut self)
        ensures
            (final(self).is_running(), final(self).cancel_requested()) == flag_step(
                old(self).is_running(),
                old(self).cancel_requested(),
                RuntimeCall::RequestCancel,
            ),
            final(self).cancel_requested(),
            final(self).is_running() == old(self).is_running(),
            final(self).status() == old(self).status(),
    {
        self.cancel = true;
    }

    /// Whether a stop was asked for.
    pub fn is_cancelled(&self) -> (r: bool)
        ensures
            r == self.cancel_requested(),
    {
        self.cancel
    }

    /// Replaces the status by `f` of it.
    pub fn update<F: FnOnce(SyncStatus) -> SyncStatus>(&mut self, f: F)
        requires
            f.requires((old(self).status(),)),
        ensures
            (final(self).is_running(), final(self).cancel_requested()) == flag_step(
                old(self).is_running(),
                old(self).cancel_requested(),
                RuntimeCall::Other,
            ),
            f.ensures((old(self).status(),), final(self).status()),
            final(self).is_running() == old(self).is_running(),
            final(self).cancel_requested() == old(self).cancel_requested(),
    {
        let mut s = SyncStatus::default();
        std::mem::swap(&mut s, &mut self.status);
        self.status = f(s);
    }

    /// A copy of the status.
    pub fn snapshot(&self) -> (r: SyncStatus)
        ensures
            r == self.status(),
    {
        self.status.copy()
    }

    /// Records the progress of the running page loop.
    pub fn record_progress(&mut self, pages: u32, media_added: u32, oldest_indexed: Option<i64>)
        ensures
            (final(self).is_running(), final(self).cancel_requested()) == flag_step(
                old(self).is_running(),
                old(self).cancel_requested(),
                RuntimeCall::Other,
            ),
            final(self).is_running() == old(self).is_running(),
            final(self).cancel_requested() == old(self).cancel_requested(),
            final(self).status() == (SyncStatus {
                page: pages,
                media_added,
                oldest_indexed_at: oldest_indexed,
                ..old(self).status()
            }),
    {
        self.status.page = pages;
        self.status.media_added = media_added;
        self.status.oldest_indexed_at = oldest_indexed;
    }

    /// Records a rate-limit pause until `until` (Unix seconds); `None` ends it.
    pub fn set_throttled(&mut self, until: Option<i64>)
        ensures
            (final(self).is_running(), final(self).cancel_requested()) == flag_step(
                old(self).is_running(),
                old(self).cancel_requested(),
                RuntimeCall::Other,
            ),
            final(self).is_running() == old(self).is_running(),
            final(self).cancel_requested() == old(self).cancel_requested(),
            final(self).status() == (SyncStatus { throttled_until: until, ..old(self).status() }),
    {
        self.status.throttled_until = until;
    }

    /// Closes a run at time `now` with its result: the running flag is cleared, and a
    /// success records the run's counts, a cancellation records that it was
    /// cancelled, an error records its message.
    pub fn complete(&mut self, result: Result<SyncOutcome, AppError>, now: i64) -> (r: SyncEvent)
        ensures
            (final(self).is_running(), final(self).cancel_requested()) == flag_step(
                old(self).is_running(),
                old(self).cancel_requested(),
                RuntimeCall::Finish,
            ),
            !final(self).is_running(),
            final(self).cancel_requested() == old(self).cancel_requested(),
            ({
                let base = SyncStatus {
                    running: false,
                    phase: SyncPhase::Idle,
                    throttled_until: None,
                    ..old(self).status()
                };
                match result {
                    Ok(o) => r is Completed && final(self).status() == (SyncStatus {
                        last_run_at: Some(now),
                        cancelled: o.cancelled,
                        page: o.pages,
                        media_added: o.media_added,
                        ..base
                    }),
                    Err(AppError::Cancelled) => r is Completed && final(self).status() == (
                    SyncStatus { cancelled: true, last_run_at: Some(now), ..base }),
                    Err(e) => (r matches SyncEvent::Error(m) && m@ == message_of(e)
                        && final(self).status().last_error.deep_view() == Some(message_of(e))
                        && final(self).status() == (SyncStatus {
                        last_error: final(self).status().last_error,
                        ..base
                    })),
                }
            }),
    {
        self.finish();
        match result {
            Ok(o) => {
                self.status.last_run_at = Some(now);
                self.status.cancelled = o.cancelled;
                self.status.page = o.pages;
                self.status.media_added = o.media_added;
                SyncEvent::Completed
            },
            Err(AppError::Cancelled) => {
                self.status.cancelled = true;
                self.status.last_run_at = Some(now);
                SyncEvent::Completed
            },
            Err(e) => {
                let msg = e.message();
                self.status.last_error = Some(owned(msg.as_str()));
                SyncEvent::Error(msg)
            },
        }
    }
}

/// Starting a run: refused with `NotLoggedIn` without an account; `Ok(false)`
/// (nothing started) while another run is going; `Ok(true)` when this run
/// was admitted and the caller must spawn the page loop.
pub fn start_run(logged_in: bool, runtime: &mut SyncRuntime, mode: SyncMode) -> (r: Result<
    bool,
    AppError,
>)
    ensures
        !logged_in ==> (r matches Err(AppError::NotLoggedIn) && *final(runtime) == *old(runtime)),
        logged_in && old(runtime).is_running() ==> (r matches Ok(false) && *final(runtime) == *old(
            runtime,
        )),
        logged_in && !old(runtime).is_running() ==> (r matches Ok(true) && final(runtime).is_running()
            && !final(runtime).cancel_requested() && final(runtime).status() == started_status(
            mode.spec_phase(),
            old(runtime).status().last_run_at,
        )),
{
    if !logged_in {
        return Err(AppError::NotLoggedIn);
    }
    let started = runtime.try_start(mode.phase());
    Ok(started)
}

} // verus!
