//! The page loop of a sync run and its retry policy, as state machines.
//!
//! The shell drives them: it asks [`PollState::next_step`] what to do,
//! fetches a page, feeds each item's outcome back, writes the `sync_state`
//! row that [`PollState::state_write`] names, and asks
//! [`PollState::end_page`] whether to go on.  A failed fetch goes through
//! [`RetryState::on_error`], which says whether to refresh the token, wait
//! and retry, or give up.
//!
//! - differential sync: from the newest page; stops at a known post or after
//!   `max_pages` pages, and never moves the back-fill cursor;
//! - initial sync: follows the saved cursor back until items are older than
//!   the cut-off, or `max_pages` pages;
//! - 429: `Retry-After` when given, else exponential back-off with jitter;
//! - 401: one token refresh, then retry;
//! - network errors: a few retries.

use crate::clock::now_subsec_nanos;
use crate::error::{AppError, ErrorView};
use crate::json::JsonValue;
use crate::models::{decode_feed_item, FeedSpec, FeedViewPost, decode_opt_str};
use crate::sync::{SyncMode, SyncOutcome};
use crate::text::owned;
use vstd::prelude::*;

verus! {

/// The `sync_state` key of the home timeline.
pub const TIMELINE_KEY: &'static str = "timeline";
/// Items per timeline page.
pub const PAGE_LIMIT: u32 = 100;
/// Whether link-card thumbnails are taken (off by default).
pub const INCLUDE_EXTERNAL: bool = false;
/// Below this many remaining requests, the loop pauses between pages.
pub const RATE_LOW_THRESHOLD: i64 = 20;
/// Seconds paused between pages when the rate budget runs low.
pub const LOW_RATE_PAUSE_SECS: u64 = 2;
/// 429 retries at most.
pub const MAX_RATELIMIT_RETRIES: u32 = 6;
/// Network-error retries at most.
pub const MAX_NETWORK_RETRIES: u32 = 3;
/// Milliseconds waited before a network-error retry.
pub const NETWORK_RETRY_MILLIS: u64 = 2000;
/// Back-off floor and ceiling (seconds).
pub const BACKOFF_BASE_SECS: u64 = 5;
pub const BACKOFF_MAX_SECS: u64 = 300;

/// The smaller of two optional timestamps (a missing one does not count).
pub open spec fn min_opt(a: Option<i64>, b: i64) -> i64 {
    match a {
        Some(x) => if x < b {
            x
        } else {
            b
        },
        None => b,
    }
}

/// What the loop does next.
pub enum PollStep {
    /// Fetch the page after this cursor (`None`: the newest page).
    Fetch(Option<String>),
    /// The run is over.
    Done(SyncOutcome),
}

/// What a page asks of the `sync_state` row.
pub enum StateWrite {
    /// Initial sync: store the cursor (where to resume), the run time and the
    /// oldest item seen.
    SaveCursor { cursor: Option<String>, oldest_seen: Option<i64> },
    /// Differential sync: the run time and the oldest item seen only; the
    /// back-fill cursor is left as it is.
    Touch { oldest_seen: Option<i64> },
}

/// What happens after a page.
pub enum PageEnd {
    /// Go on, pausing first when `pause_secs` is not zero.
    Continue { pause_secs: u64 },
    /// The run is over.
    Stop(SyncOutcome),
}

/// Why a page ended the run.
pub open spec fn page_stops(
    mode: SyncMode,
    hit_known: bool,
    next_cursor: Option<Seq<char>>,
    feed_empty: bool,
    oldest: Option<i64>,
) -> bool {
    ||| hit_known
    ||| next_cursor is None
    ||| feed_empty
    ||| (mode matches SyncMode::Initial { cutoff_ts, .. } && oldest matches Some(o) && o < cutoff_ts)
}

/// The state of a sync run's page loop.
pub struct PollState {
    mode: SyncMode,
    pages: u32,
    media_added: u32,
    oldest_indexed: Option<i64>,
    cursor: Option<String>,
    hit_known: bool,
}

impl PollState {
    pub closed spec fn mode(&self) -> SyncMode {
        self.mode
    }

    pub closed spec fn pages(&self) -> u32 {
        self.pages
    }

    pub closed spec fn media_added(&self) -> u32 {
        self.media_added
    }

    pub closed spec fn oldest_indexed(&self) -> Option<i64> {
        self.oldest_indexed
    }

    pub closed spec fn cursor(&self) -> Option<Seq<char>> {
        self.cursor.deep_view()
    }

    pub closed spec fn hit_known(&self) -> bool {
        self.hit_known
    }

    /// The loop's invariant: never more pages than the mode allows.
    pub open spec fn wf(&self) -> bool {
        self.pages() <= self.mode().spec_max_pages()
    }

    /// An initial sync that has already reached its cut-off does nothing:
    /// `Some` outcome (no pages) when the oldest item seen so far is at or
    /// before the cut-off; `None` otherwise (and always for a differential sync).
    pub fn initial_skip(mode: SyncMode, oldest_seen: Option<i64>) -> (r: Option<SyncOutcome>)
        ensures
            (mode matches SyncMode::Initial { cutoff_ts, .. } && oldest_seen matches Some(o) && o
                <= cutoff_ts) ==> r == Some(
                SyncOutcome { pages: 0, media_added: 0, oldest_indexed: oldest_seen, cancelled: false },
            ),
            !(mode matches SyncMode::Initial { cutoff_ts, .. } && oldest_seen matches Some(o) && o
                <= cutoff_ts) ==> r is None,
    {
        match mode {
            SyncMode::Initial { cutoff_ts, .. } => match oldest_seen {
                Some(o) => if o <= cutoff_ts {
                    Some(
                        SyncOutcome {
                            pages: 0,
                            media_added: 0,
                            oldest_indexed: oldest_seen,
                            cancelled: false,
                        },
                    )
                } else {
                    None
                },
                None => None,
            },
            SyncMode::Differential { .. } => None,
        }
    }

    /// A run's loop before its first page.  An initial sync resumes from the
    /// saved cursor; a differential sync always starts at the newest page.
    pub fn new(mode: SyncMode, saved_cursor: Option<String>) -> (r: PollState)
        ensures
            r.wf(),
            r.mode() == mode,
            r.pages() == 0,
            r.media_added() == 0,
            r.oldest_indexed() is None,
            !r.hit_known(),
            mode is Initial ==> r.cursor() == saved_cursor.deep_view(),
            mode is Differential ==> r.cursor() is None,
    {
        let cursor = match mode {
            SyncMode::Initial { .. } => saved_cursor,
            SyncMode::Differential { .. } => None,
        };
        PollState { mode, pages: 0, media_added: 0, oldest_indexed: None, cursor, hit_known: false }
    }

    /// The outcome so far.
    pub open spec fn outcome(&self, cancelled: bool) -> SyncOutcome {
        SyncOutcome {
            pages: self.pages(),
            media_added: self.media_added(),
            oldest_indexed: self.oldest_indexed(),
            cancelled,
        }
    }

    /// The counts so far, as a not-cancelled outcome (what the progress
    /// events report).
    pub fn outcome_so_far(&self) -> (r: SyncOutcome)
        ensures
            r == self.outcome(false),
    {
        SyncOutcome {
            pages: self.pages,
            media_added: self.media_added,
            oldest_indexed: self.oldest_indexed,
            cancelled: false,
        }
    }

    /// At the top of the loop: a cancelled run stops (marked cancelled); a
    /// run that used up its pages stops; else the page at the cursor is fetched.
    pub fn next_step(&self, cancelled: bool) -> (r: PollStep)
        ensures
            cancelled ==> r == PollStep::Done(self.outcome(true)),
            !cancelled && self.pages() >= self.mode().spec_max_pages() ==> r == PollStep::Done(
                self.outcome(false),
            ),
            !cancelled && self.pages() < self.mode().spec_max_pages() ==> (r matches PollStep::Fetch(
                c,
            ) && c.deep_view() == self.cursor()),
    {
        if cancelled {
            return PollStep::Done(
                SyncOutcome {
                    pages: self.pages,
                    media_added: self.media_added,
                    oldest_indexed: self.oldest_indexed,
                    cancelled: true,
                },
            );
        }
        if self.pages >= self.mode.max_pages() {
            return PollStep::Done(
                SyncOutcome {
                    pages: self.pages,
                    media_added: self.media_added,
                    oldest_indexed: self.oldest_indexed,
                    cancelled: false,
                },
            );
        }
        let c = match &self.cursor {
            Some(c) => Some(owned(c.as_str())),
            None => None,
        };
        PollStep::Fetch(c)
    }

    /// A page arrived: it is counted.
    pub fn begin_page(&mut self)
        requires
            old(self).wf(),
            old(self).pages() < old(self).mode().spec_max_pages(),
        ensures
            final(self).wf(),
            final(self).pages() == old(self).pages() + 1,
            final(self).mode() == old(self).mode(),
            final(self).media_added() == old(self).media_added(),
            final(self).oldest_indexed() == old(self).oldest_indexed(),
            final(self).cursor() == old(self).cursor(),
            !final(self).hit_known(),
    {
        self.pages = self.pages + 1;
        self.hit_known = false;
    }

    /// Whether an item must be checked against the database first (only a
    /// differential sync stops at a known post).
    pub fn checks_known(&self) -> (r: bool)
        ensures
            r == self.mode() is Differential,
    {
        match self.mode {
            SyncMode::Differential { .. } => true,
            SyncMode::Initial { .. } => false,
        }
    }

    /// The item is a known post: the rest of the page is skipped and the run
    /// ends after this page.
    pub fn record_known(&mut self)
        ensures
            final(self).hit_known(),
            final(self).wf() == old(self).wf(),
            final(self).mode() == old(self).mode(),
            final(self).pages() == old(self).pages(),
            final(self).media_added() == old(self).media_added(),
            final(self).oldest_indexed() == old(self).oldest_indexed(),
            final(self).cursor() == old(self).cursor(),
    {
        self.hit_known = true;
    }

    /// A media post was stored: `inserted` new media rows, ordering time
    /// `indexed_at`.  The oldest time seen keeps the minimum.
    pub fn record_insert(&mut self, indexed_at: i64, inserted: u32)
        requires
            old(self).media_added() + inserted <= u32::MAX,
        ensures
            final(self).media_added() == old(self).media_added() + inserted,
            final(self).oldest_indexed() == Some(min_opt(old(self).oldest_indexed(), indexed_at)),
            final(self).wf() == old(self).wf(),
            final(self).mode() == old(self).mode(),
            final(self).pages() == old(self).pages(),
            final(self).cursor() == old(self).cursor(),
            final(self).hit_known() == old(self).hit_known(),
    {
        self.media_added = self.media_added + inserted;
        self.oldest_indexed = Some(
            match self.oldest_indexed {
                Some(prev) => if prev < indexed_at {
                    prev
                } else {
                    indexed_at
                },
                None => indexed_at,
            },
        );
    }

    /// The `sync_state` write after a page: an initial sync stores the next
    /// cursor; a differential sync never touches the cursor.
    pub fn state_write(&self, next_cursor: Option<&str>) -> (r: StateWrite)
        ensures
            self.mode() is Initial ==> (r matches StateWrite::SaveCursor { cursor, oldest_seen }
                && cursor.deep_view() == (match next_cursor {
                Some(c) => Some(c@),
                None => None,
            }) && oldest_seen == self.oldest_indexed()),
            self.mode() is Differential ==> r == (StateWrite::Touch {
                oldest_seen: self.oldest_indexed(),
            }),
    {
        match self.mode {
            SyncMode::Initial { .. } => StateWrite::SaveCursor {
                cursor: match next_cursor {
                    Some(c) => Some(owned(c)),
                    None => None,
                },
                oldest_seen: self.oldest_indexed,
            },
            SyncMode::Differential { .. } => StateWrite::Touch { oldest_seen: self.oldest_indexed },
        }
    }

    /// After a page: the run stops at a known post, at the end of the
    /// timeline (no next cursor, or an empty page), or — for an initial sync
    /// — once items older than the cut-off were seen.  Otherwise the loop
    /// goes on from the next cursor, pausing when the rate budget is low.
    pub fn end_page(&mut self, next_cursor: Option<String>, feed_empty: bool, rate_remaining: Option<
        i64,
    >) -> (r: PageEnd)
        ensures
            final(self).wf() == old(self).wf(),
            final(self).mode() == old(self).mode(),
            final(self).pages() == old(self).pages(),
            final(self).media_added() == old(self).media_added(),
            final(self).oldest_indexed() == old(self).oldest_indexed(),
            page_stops(
                old(self).mode(),
                old(self).hit_known(),
                next_cursor.deep_view(),
                feed_empty,
                old(self).oldest_indexed(),
            ) ==> r == PageEnd::Stop(old(self).outcome(false)),
            !page_stops(
                old(self).mode(),
                old(self).hit_known(),
                next_cursor.deep_view(),
                feed_empty,
                old(self).oldest_indexed(),
            ) ==> {
                &&& final(self).cursor() == next_cursor.deep_view()
                &&& r == (PageEnd::Continue {
                    pause_secs: if rate_remaining matches Some(rem) && rem < RATE_LOW_THRESHOLD {
                        LOW_RATE_PAUSE_SECS
                    } else {
                        0
                    },
                })
            },
    {
        let outcome = SyncOutcome {
            pages: self.pages,
            media_added: self.media_added,
            oldest_indexed: self.oldest_indexed,
            cancelled: false,
        };
        if self.hit_known {
            return PageEnd::Stop(outcome);
        }
        if next_cursor.is_none() || feed_empty {
            return PageEnd::Stop(outcome);
        }
        if let SyncMode::Initial { cutoff_ts, .. } = self.mode {
            if let Some(oi) = self.oldest_indexed {
                if oi < cutoff_ts {
                    return PageEnd::Stop(outcome);
                }
            }
        }
        self.cursor = next_cursor;
        let pause_secs = match rate_remaining {
            Some(rem) => if rem < RATE_LOW_THRESHOLD {
                LOW_RATE_PAUSE_SECS
            } else {
                0
            },
            None => 0,
        };
        PageEnd::Continue { pause_secs }
    }
}

/// The back-off, in whole seconds, before retry number `attempt`:
/// `5 · 2^min(attempt, 6)` seconds, at most 300.
pub open spec fn backoff_secs(attempt: u32) -> u64 {
    let e: u32 = if attempt < 6 {
        attempt
    } else {
        6
    };
    let exp = BACKOFF_BASE_SECS * vstd::arithmetic::power2::pow2(e as nat);
    if exp < BACKOFF_MAX_SECS {
        exp as u64
    } else {
        BACKOFF_MAX_SECS
    }
}

/// The back-off in milliseconds, with the jitter taken from the sub-second
/// nanoseconds of the clock: the whole seconds of [`backoff_secs`] plus
/// `(nanos / 1_000_000) % 1000` milliseconds.
pub fn backoff_with_jitter(attempt: u32, subsec_nanos: u32) -> (r: u64)
    ensures
        r == backoff_secs(attempt) * 1000 + ((subsec_nanos / 1_000_000) % 1000) as u64,
{
    let e: u32 = if attempt < 6 {
        attempt
    } else {
        6
    };
    let mut exp: u64 = BACKOFF_BASE_SECS;
    let mut k: u32 = 0;
    proof {
        vstd::arithmetic::power2::lemma2_to64();
    }
    while k < e
        invariant
            e <= 6,
            k <= e,
            exp == BACKOFF_BASE_SECS * vstd::arithmetic::power2::pow2(k as nat),
        decreases e - k,
    {
        proof {
            vstd::arithmetic::power2::lemma_pow2_unfold((k + 1) as nat);
            vstd::arithmetic::power2::lemma_pow2_strictly_increases(k as nat, 6);
            vstd::arithmetic::power2::lemma2_to64();
        }
        exp = exp * 2;
        k += 1;
    }
    let capped = if exp < BACKOFF_MAX_SECS {
        exp
    } else {
        BACKOFF_MAX_SECS
    };
    let jitter_ms: u64 = ((subsec_nanos / 1_000_000) % 1000) as u64;
    capped * 1000 + jitter_ms
}

/// The back-off in milliseconds before 429 retry number `attempt`, with a
/// clock-drawn jitter below one second.
pub fn backoff(attempt: u32) -> (r: u64)
    ensures
        backoff_secs(attempt) * 1000 <= r < backoff_secs(attempt) * 1000 + 1000,
{
    let nanos = now_subsec_nanos();
    backoff_with_jitter(attempt, nanos)
}

/// The back-off doubles from five seconds with each retry and stops growing
/// at 300 seconds (from the seventh retry on, and never above it).
pub proof fn law_backoff_exponential_capped(attempt: u32)
    ensures
        attempt <= 5 ==> backoff_secs(attempt) == BACKOFF_BASE_SECS * vstd::arithmetic::power2::pow2(
            attempt as nat,
        ),
        attempt >= 6 ==> backoff_secs(attempt) == BACKOFF_MAX_SECS,
        backoff_secs(attempt) <= BACKOFF_MAX_SECS,
        backoff_secs(attempt) >= BACKOFF_BASE_SECS,
        attempt < u32::MAX ==> backoff_secs(attempt) <= backoff_secs((attempt + 1) as u32),
{
    vstd::arithmetic::power2::lemma2_to64();
}

/// What to do after a failed page request.
pub enum RetryAction {
    /// Refresh the access token, then retry.
    Refresh,
    /// Wait this many milliseconds, then retry; `throttled` when it is a
    /// rate-limit wait (the shell reports it to the frontend).
    Wait { millis: u64, throttled: bool },
    /// Give up with this error.
    Fail(AppError),
}

/// The retry bookkeeping of one page request.
pub struct RetryState {
    rl_attempt: u32,
    net_attempt: u32,
    unauth_retried: bool,
}

/// The plain-value view of a [`RetryState`]: the rate-limit retries made,
/// the network retries made, and whether the token was already refreshed.
pub struct RetryView {
    pub rl_attempt: u32,
    pub net_attempt: u32,
    pub unauth_retried: bool,
}

impl View for RetryState {
    type V = RetryView;

    closed spec fn view(&self) -> RetryView {
        RetryView {
            rl_attempt: self.rl_attempt,
            net_attempt: self.net_attempt,
            unauth_retried: self.unauth_retried,
        }
    }
}

/// No retry made yet.
pub open spec fn fresh_retry() -> RetryView {
    RetryView { rl_attempt: 0, net_attempt: 0, unauth_retried: false }
}

/// The wait after a 429: `Retry-After` seconds (in milliseconds, saturating)
/// when the server gave it, else the back-off.
pub open spec fn rate_limit_wait(retry_after_secs: Option<u64>, backoff_ms: u64) -> u64 {
    match retry_after_secs {
        Some(s) => if s <= u64::MAX / 1000 {
            (s * 1000) as u64
        } else {
            u64::MAX
        },
        None => backoff_ms,
    }
}

/// The retry policy: the answer to a failed request and the bookkeeping
/// after it, given the back-off for this attempt.
/// - `Unauthorized`, the first time: refresh and retry (the refresh is
///   recorded); again: give up with it;
/// - `RateLimited`: after six retries give up with it, else wait
///   [`rate_limit_wait`] and count the retry;
/// - a network error: wait two seconds and count the retry, at most three
///   times, then give up with it;
/// - anything else: give up with it.
/// Giving up leaves the bookkeeping as it was.
pub open spec fn retry_next(s: RetryView, err: AppError, backoff_ms: u64) -> (RetryAction, RetryView) {
    match err {
        AppError::Unauthorized => if !s.unauth_retried {
            (RetryAction::Refresh, RetryView { unauth_retried: true, ..s })
        } else {
            (RetryAction::Fail(err), s)
        },
        AppError::RateLimited { retry_after_secs } => if s.rl_attempt >= MAX_RATELIMIT_RETRIES {
            (RetryAction::Fail(err), s)
        } else {
            (
                RetryAction::Wait {
                    millis: rate_limit_wait(retry_after_secs, backoff_ms),
                    throttled: true,
                },
                RetryView { rl_attempt: (s.rl_attempt + 1) as u32, ..s },
            )
        },
        AppError::Network(_) => if s.net_attempt < MAX_NETWORK_RETRIES {
            (
                RetryAction::Wait { millis: NETWORK_RETRY_MILLIS, throttled: false },
                RetryView { net_attempt: (s.net_attempt + 1) as u32, ..s },
            )
        } else {
            (RetryAction::Fail(err), s)
        },
        _ => (RetryAction::Fail(err), s),
    }
}

/// The bookkeeping stays within its limits.
pub open spec fn retry_wf(s: RetryView) -> bool {
    s.rl_attempt <= MAX_RATELIMIT_RETRIES && s.net_attempt <= MAX_NETWORK_RETRIES
}

/// The same error met again and again, with back-off `backoffs[i]` on the
/// `i`-th failure: the answers in order and the final bookkeeping.
pub open spec fn repeat_error(s: RetryView, err: AppError, backoffs: Seq<u64>) -> (
    Seq<RetryAction>,
    RetryView,
)
    decreases backoffs.len(),
{
    if backoffs.len() == 0 {
        (Seq::empty(), s)
    } else {
        let step = retry_next(s, err, backoffs[0]);
        let rest = repeat_error(step.1, err, backoffs.drop_first());
        (seq![step.0] + rest.0, rest.1)
    }
}

impl RetryState {
    /// The counters stay within their limits.
    pub open spec fn wf(&self) -> bool {
        retry_wf(self@)
    }

    /// No retry made yet.
    pub fn new() -> (r: RetryState)
        ensures
            r.wf(),
            r@ == fresh_retry(),
    {
        RetryState { rl_attempt: 0, net_attempt: 0, unauth_retried: false }
    }

    /// The policy [`retry_next`], with the back-off for this attempt given.
    pub fn on_error_with_backoff(&mut self, err: AppError, backoff_ms: u64) -> (r: RetryAction)
        requires
            old(self).wf(),
        ensures
            final(self).wf(),
            (r, final(self)@) == retry_next(old(self)@, err, backoff_ms),
    {
        match err {
            AppError::Unauthorized => {
                if !self.unauth_retried {
                    self.unauth_retried = true;
                    RetryAction::Refresh
                } else {
                    RetryAction::Fail(AppError::Unauthorized)
                }
            },
            AppError::RateLimited { retry_after_secs } => {
                if self.rl_attempt >= MAX_RATELIMIT_RETRIES {
                    return RetryAction::Fail(AppError::RateLimited { retry_after_secs });
                }
                let millis = match retry_after_secs {
                    Some(s) => if s <= u64::MAX / 1000 {
                        s * 1000
                    } else {
                        u64::MAX
                    },
                    None => backoff_ms,
                };
                self.rl_attempt = self.rl_attempt + 1;
                RetryAction::Wait { millis, throttled: true }
            },
            AppError::Network(m) => {
                if self.net_attempt < MAX_NETWORK_RETRIES {
                    self.net_attempt = self.net_attempt + 1;
                    RetryAction::Wait { millis: NETWORK_RETRY_MILLIS, throttled: false }
                } else {
                    RetryAction::Fail(AppError::Network(m))
                }
            },
            e => RetryAction::Fail(e),
        }
    }

    /// The policy [`retry_next`], drawing the back-off for a rate limit
    /// without `Retry-After` from the clock: the answer and bookkeeping are
    /// those of `retry_next` with some back-off `b` in
    /// `[backoff_secs(attempt) · 1000, backoff_secs(attempt) · 1000 + 1000)`.
    pub fn on_error(&mut self, err: AppError) -> (r: RetryAction)
        requires
            old(self).wf(),
        ensures
            final(self).wf(),
            exists|b: u64|
                #![trigger retry_next(old(self)@, err, b)]
                backoff_secs(old(self)@.rl_attempt) * 1000 <= b < backoff_secs(old(self)@.rl_attempt)
                    * 1000 + 1000 && (r, final(self)@) == retry_next(old(self)@, err, b),
    {
        let backoff_ms = backoff(self.rl_attempt);
        self.on_error_with_backoff(err, backoff_ms)
    }
}

/// A refused access token is refreshed once: met again after the refresh,
/// the request ends with `Unauthorized` (two tries, one refresh).
pub proof fn law_retry_refreshes_once(backoffs: Seq<u64>)
    requires
        backoffs.len() == 2,
    ensures
        repeat_error(fresh_retry(), AppError::Unauthorized, backoffs).0 == seq![
            RetryAction::Refresh,
            RetryAction::Fail(AppError::Unauthorized),
        ],
{
    reveal_with_fuel(repeat_error, 3);
}

/// A rate limit met again and again is waited out six times (the
/// `Retry-After` time when given, else the back-off) and the seventh 429
/// ends the request with that same error.
pub proof fn law_retry_rate_limit_gives_up(retry_after_secs: Option<u64>, backoffs: Seq<u64>)
    requires
        backoffs.len() == 7,
    ensures
        ({
            let acts = repeat_error(
                fresh_retry(),
                AppError::RateLimited { retry_after_secs },
                backoffs,
            ).0;
            &&& acts.len() == 7
            &&& forall|i: int|
                0 <= i < 6 ==> acts[i] == (RetryAction::Wait {
                    millis: rate_limit_wait(retry_after_secs, #[trigger] backoffs[i]),
                    throttled: true,
                })
            &&& acts[6] == RetryAction::Fail(AppError::RateLimited { retry_after_secs })
        }),
{
    reveal_with_fuel(repeat_error, 8);
}

/// A network error met again and again is retried three times, two
/// seconds apart, and the fourth ends the request with that error.
pub proof fn law_retry_network_gives_up(m: String, backoffs: Seq<u64>)
    requires
        backoffs.len() == 4,
    ensures
        repeat_error(fresh_retry(), AppError::Network(m), backoffs).0 == seq![
            RetryAction::Wait { millis: NETWORK_RETRY_MILLIS, throttled: false },
            RetryAction::Wait { millis: NETWORK_RETRY_MILLIS, throttled: false },
            RetryAction::Wait { millis: NETWORK_RETRY_MILLIS, throttled: false },
            RetryAction::Fail(AppError::Network(m)),
        ],
{
    reveal_with_fuel(repeat_error, 5);
}

/// Any other error ends the request at once, unchanged, and leaves the
/// bookkeeping as it was.
pub proof fn law_retry_other_errors_unchanged(s: RetryView, err: AppError, backoff_ms: u64)
    requires
        !(err is Unauthorized || err is RateLimited || err is Network),
    ensures
        retry_next(s, err, backoff_ms) == (RetryAction::Fail(err), s),
{
}

/// A decoded timeline page goes on from the answer's own `cursor`: the
/// page's cursor is `c` when the `cursor` member is the string `c`, and is
/// absent only when the member is absent or `null`; any other kind of
/// `cursor` makes the answer undecodable.
pub proof fn law_timeline_cursor(v: JsonValue)
    ensures
        decode_timeline(v) matches Some(page) ==> match v.member("cursor"@) {
            Some(JsonValue::Str(c)) => page.0 == Some(c@),
            None => page.0 is None,
            Some(JsonValue::Null) => page.0 is None,
            Some(_) => false,
        },
        v.member("feed"@) matches Some(JsonValue::Array(a)) ==> (decode_items(a@) is Some ==> (
        v.member("cursor"@) matches Some(JsonValue::Str(c)) ==> decode_timeline(v) == Some(
            (Some(c@), decode_items(a@)->0),
        ))),
{
}

/// One page of the home timeline: the next cursor and the items.
pub struct TimelineResponse {
    pub cursor: Option<String>,
    pub feed: Vec<FeedViewPost>,
}

/// Decodes every item of an array (`None` when one does not decode).
pub open spec fn decode_items(items: Seq<JsonValue>) -> Option<Seq<FeedSpec>>
    decreases items.len(),
{
    if items.len() == 0 {
        Some(Seq::empty())
    } else {
        match (decode_items(items.drop_last()), decode_feed_item(items.last())) {
            (Some(rest), Some(x)) => Some(rest.push(x)),
            _ => None,
        }
    }
}

/// The timeline page a JSON object decodes to: `(cursor, feed)`; `feed` is
/// required and every item must decode.
pub open spec fn decode_timeline(v: JsonValue) -> Option<(Option<Seq<char>>, Seq<FeedSpec>)> {
    let cursor = decode_opt_str(v.member("cursor"@));
    let feed = match v.member("feed"@) {
        Some(JsonValue::Array(a)) => decode_items(a@),
        _ => None,
    };
    if cursor is Some && feed is Some {
        Some((cursor->0, feed->0))
    } else {
        None
    }
}

/// Items stop decoding as soon as one of a prefix does not.
proof fn lemma_decode_prefix_fails(s: Seq<JsonValue>, n: int)
    requires
        0 <= n <= s.len(),
        decode_items(s.take(n)) is None,
    ensures
        decode_items(s) is None,
    decreases s.len() - n,
{
    if n == s.len() {
        assert(s.take(n) =~= s);
    } else {
        assert(s.take(n + 1).drop_last() =~= s.take(n));
        lemma_decode_prefix_fails(s, n + 1);
    }
}

impl TimelineResponse {
    /// Decodes a `getTimeline` answer, taking its JSON members.
    pub fn from_json(v: JsonValue) -> (r: Option<TimelineResponse>)
        ensures
            r is Some <==> decode_timeline(v) is Some,
            r matches Some(t) ==> decode_timeline(v) == Some(
                (t.cursor.deep_view(), t.feed@.map_values(|f: FeedViewPost| f@)),
            ),
    {
        let ghost v0 = v;
        let names: [&str; 2] = ["cursor", "feed"];
        let ns: &[&str] = &names;
        proof {
            reveal_strlit("cursor");
            reveal_strlit("feed");
            assert(ns@[0]@ == "cursor"@ && ns@[1]@ == "feed"@);
            assert(ns@[0]@.len() == 6 && ns@[1]@.len() == 4);
        }
        let mut slots = match crate::json::take_members(v, ns) {
            Some(s) => s,
            None => return None,
        };
        let feed = slots.pop().unwrap();
        let cursor = slots.pop().unwrap();
        let cursor = crate::models::opt_string_of(cursor.as_ref());
        let items = match feed {
            Some(JsonValue::Array(a)) => a,
            _ => return None,
        };
        let cursor = match cursor {
            Some(c) => c,
            None => return None,
        };
        let ghost all = items@;
        assert(decode_timeline(v0) == if decode_items(all) is Some {
            Some((cursor.deep_view(), decode_items(all)->0))
        } else {
            None
        });
        let mut items = items;
        let mut rev: Vec<JsonValue> = Vec::new();
        while items.len() > 0
            invariant
                items@.len() + rev@.len() == all.len(),
                items@ == all.take(items@.len() as int),
                forall|i: int| 0 <= i < rev@.len() ==> rev@[i] == all[all.len() - 1 - i],
            decreases items@.len(),
        {
            let x = items.pop().unwrap();
            rev.push(x);
        }
        let mut feed: Vec<FeedViewPost> = Vec::new();
        while rev.len() > 0
            invariant
                rev@.len() + feed@.len() == all.len(),
                forall|i: int| 0 <= i < rev@.len() ==> rev@[i] == all[all.len() - 1 - i],
                decode_items(all.take(feed@.len() as int)) == Some(feed@.map_values(|f: FeedViewPost| f@)),
                v0 == v,
                decode_timeline(v0) == if decode_items(all) is Some {
                    Some((cursor.deep_view(), decode_items(all)->0))
                } else {
                    None
                },
            decreases rev@.len(),
        {
            let ghost k = feed@.len() as int;
            let x = rev.pop().unwrap();
            assert(x == all[k]);
            assert(all.take(k + 1).drop_last() =~= all.take(k));
            assert(all.take(k + 1).last() == all[k]);
            let ghost before = feed@.map_values(|f: FeedViewPost| f@);
            match FeedViewPost::from_json(x) {
                Some(f) => {
                    feed.push(f);
                    assert(feed@.map_values(|f: FeedViewPost| f@) =~= before.push(f@));
                },
                None => {
                    proof {
                        lemma_decode_prefix_fails(all, k + 1);
                    }
                    return None;
                },
            }
        }
        assert(all.take(all.len() as int) =~= all);
        Some(TimelineResponse { cursor, feed })
    }
}

} // verus!
