//! Session state: what the app holds in memory about the logged-in account.
//!
//! - the access token lives in memory only;
//! - the refresh token lives in the OS keychain (the shell stores it);
//! - did / handle / last authentication time live in `config.json` (the shell
//!   stores them) so that a restart shows the account without network access.
//!
//! [`SessionState`] is the in-memory part; the shell performs the keychain,
//! file and network work around each transition.

use crate::error::AppError;
use crate::models::SessionResponse;
use crate::text::{owned, trim, trimmed};
use vstd::prelude::*;
use vstd::std_specs::convert::FromSpecImpl;

verus! {

/// What the frontend is told about the session (nothing secret).
pub struct SessionInfo {
    pub did: String,
    pub handle: String,
    pub last_auth_at: i64,
}

/// The plain-value view of a [`SessionInfo`].
pub struct InfoView {
    pub did: Seq<char>,
    pub handle: Seq<char>,
    pub last_auth_at: i64,
}

impl View for SessionInfo {
    type V = InfoView;

    open spec fn view(&self) -> InfoView {
        InfoView { did: self.did@, handle: self.handle@, last_auth_at: self.last_auth_at }
    }
}

/// The view of an optional session info.
pub open spec fn opt_info_view(i: Option<SessionInfo>) -> Option<InfoView> {
    match i {
        Some(x) => Some(x@),
        None => None,
    }
}

/// A session obtained by logging in or refreshing.
pub struct Session {
    pub did: String,
    pub handle: String,
    pub access_jwt: String,
    pub refresh_jwt: String,
}

impl From<SessionResponse> for Session {
    fn from(r: SessionResponse) -> (s: Session) {
        Session { did: r.did, handle: r.handle, access_jwt: r.access_jwt, refresh_jwt: r.refresh_jwt }
    }
}

impl FromSpecImpl<SessionResponse> for Session {
    open spec fn obeys_from_spec() -> bool {
        true
    }

    open spec fn from_spec(r: SessionResponse) -> Session {
        Session { did: r.did, handle: r.handle, access_jwt: r.access_jwt, refresh_jwt: r.refresh_jwt }
    }
}

/// The non-secret session metadata kept in `config.json`.
pub struct SessionMeta {
    pub did: String,
    pub handle: String,
    /// Last authentication time (Unix seconds).
    pub last_auth_at: i64,
}

impl SessionMeta {
    /// The metadata to store for a session authenticated at `now`.
    pub fn of_session(session: &Session, now: i64) -> (r: SessionMeta)
        ensures
            r.did@ == session.did@,
            r.handle@ == session.handle@,
            r.last_auth_at == now,
    {
        SessionMeta {
            did: owned(session.did.as_str()),
            handle: owned(session.handle.as_str()),
            last_auth_at: now,
        }
    }
}

/// The in-memory record of the logged-in account.
struct Current {
    did: String,
    handle: String,
    refresh_jwt: String,
    /// `None` until first needed after a restore.
    access_jwt: Option<String>,
    last_auth_at: i64,
}

/// The plain-value view of the logged-in account.
pub struct CurrentView {
    pub did: Seq<char>,
    pub handle: Seq<char>,
    pub refresh_jwt: Seq<char>,
    pub access_jwt: Option<Seq<char>>,
    pub last_auth_at: i64,
}

/// The in-memory session state: the logged-in account, if any.
pub struct SessionState {
    current: Option<Current>,
}

/// What a restore found and what the shell must clean up.
pub struct RestoreAction {
    /// The restored session, when both halves were found.
    pub info: Option<SessionInfo>,
    /// `config.json` is a leftover without a refresh token: remove it.
    pub clear_meta: bool,
    /// The keychain entry is a leftover without metadata: delete it.
    pub delete_refresh: bool,
}

/// The account a freshly obtained session becomes, authenticated at `now`.
pub open spec fn installed(session: Session, now: i64) -> CurrentView {
    CurrentView {
        did: session.did@,
        handle: session.handle@,
        refresh_jwt: session.refresh_jwt@,
        access_jwt: Some(session.access_jwt@),
        last_auth_at: now,
    }
}

/// What [`SessionState::current`] reports of an account.
pub open spec fn current_info(c: Option<CurrentView>) -> Option<InfoView> {
    match c {
        Some(v) => Some(info_of(v)),
        None => None,
    }
}

/// The info of an account view.
pub open spec fn info_of(c: CurrentView) -> InfoView {
    InfoView { did: c.did, handle: c.handle, last_auth_at: c.last_auth_at }
}

impl SessionState {
    /// The logged-in account, as plain values.
    pub closed spec fn view_current(&self) -> Option<CurrentView> {
        match self.current {
            Some(c) => Some(
                CurrentView {
                    did: c.did@,
                    handle: c.handle@,
                    refresh_jwt: c.refresh_jwt@,
                    access_jwt: c.access_jwt.deep_view(),
                    last_auth_at: c.last_auth_at,
                },
            ),
            None => None,
        }
    }

    /// No account.
    pub fn new() -> (r: SessionState)
        ensures
            r.view_current() is None,
    {
        SessionState { current: None }
    }

    /// Startup restore from the stored metadata and keychain token.  Both
    /// present: the account is restored with no access token yet (it is
    /// fetched by a refresh when first needed).  Otherwise nothing is
    /// restored and whichever half was found is a leftover to clean up.
    pub fn restore(&mut self, meta: Option<SessionMeta>, refresh: Option<String>) -> (r:
        RestoreAction)
        ensures
            (meta is Some && refresh is Some) ==> {
                &&& final(self).view_current() == Some(
                    CurrentView {
                        did: meta->0.did@,
                        handle: meta->0.handle@,
                        refresh_jwt: refresh->0@,
                        access_jwt: None,
                        last_auth_at: meta->0.last_auth_at,
                    },
                )
                &&& opt_info_view(r.info) == Some(info_of(final(self).view_current()->0))
                &&& !r.clear_meta && !r.delete_refresh
            },
            !(meta is Some && refresh is Some) ==> {
                &&& final(self).view_current() == old(self).view_current()
                &&& r.info is None
                &&& r.clear_meta == meta is Some
                &&& r.delete_refresh == refresh is Some
            },
    {
        match (meta, refresh) {
            (Some(meta), Some(refresh_jwt)) => {
                let info = SessionInfo {
                    did: owned(meta.did.as_str()),
                    handle: owned(meta.handle.as_str()),
                    last_auth_at: meta.last_auth_at,
                };
                self.current = Some(
                    Current {
                        did: meta.did,
                        handle: meta.handle,
                        refresh_jwt,
                        access_jwt: None,
                        last_auth_at: meta.last_auth_at,
                    },
                );
                RestoreAction { info: Some(info), clear_meta: false, delete_refresh: false }
            },
            (meta, refresh) => RestoreAction {
                info: None,
                clear_meta: meta.is_some(),
                delete_refresh: refresh.is_some(),
            },
        }
    }

    /// Takes a freshly obtained session (after the shell stored its refresh
    /// token and metadata): it becomes the account, authenticated at `now`.
    pub fn install(&mut self, session: Session, now: i64) -> (r: SessionInfo)
        ensures
            final(self).view_current() == Some(installed(session, now)),
            r@ == info_of(final(self).view_current()->0),
    {
        let info = SessionInfo {
            did: owned(session.did.as_str()),
            handle: owned(session.handle.as_str()),
            last_auth_at: now,
        };
        self.current = Some(
            Current {
                did: session.did,
                handle: session.handle,
                refresh_jwt: session.refresh_jwt,
                access_jwt: Some(session.access_jwt),
                last_auth_at: now,
            },
        );
        info
    }

    /// Forgets the account (the shell also clears the keychain and `config.json`).
    pub fn logout(&mut self)
        ensures
            final(self).view_current() is None,
    {
        self.current = None;
    }

    /// The session info of the account; `None` when logged out.
    pub fn current(&self) -> (r: Option<SessionInfo>)
        ensures
            opt_info_view(r) == current_info(self.view_current()),
    {
        match &self.current {
            Some(c) => Some(
                SessionInfo {
                    did: owned(c.did.as_str()),
                    handle: owned(c.handle.as_str()),
                    last_auth_at: c.last_auth_at,
                },
            ),
            None => None,
        }
    }

    /// The access token in memory, if any.
    pub fn snapshot_access(&self) -> (r: Option<String>)
        ensures
            r.deep_view() == match self.view_current() {
                Some(c) => c.access_jwt,
                None => None,
            },
    {
        match &self.current {
            Some(c) => match &c.access_jwt {
                Some(a) => Some(owned(a.as_str())),
                None => None,
            },
            None => None,
        }
    }

    /// The refresh token of the account, if any.
    pub fn snapshot_refresh(&self) -> (r: Option<String>)
        ensures
            r.deep_view() == match self.view_current() {
                Some(c) => Some(c.refresh_jwt),
                None => None,
            },
    {
        match &self.current {
            Some(c) => Some(owned(c.refresh_jwt.as_str())),
            None => None,
        }
    }

    /// The refresh token to refresh with: `NotLoggedIn` without an account.
    pub fn refresh_token(&self) -> (r: Result<String, AppError>)
        ensures
            self.view_current() is None ==> r matches Err(AppError::NotLoggedIn),
            self.view_current() matches Some(c) ==> (r matches Ok(t) && t@ == c.refresh_jwt),
    {
        match self.snapshot_refresh() {
            Some(t) => Ok(t),
            None => Err(AppError::NotLoggedIn),
        }
    }

    /// Records what `getSession` reported (the handle may have changed) and
    /// returns the session info; the authentication time is kept (0 when no
    /// account is held).
    pub fn apply_validated(&mut self, did: String, handle: String) -> (r: SessionInfo)
        ensures
            old(self).view_current() is None ==> final(self).view_current() is None,
            old(self).view_current() matches Some(c) ==> final(self).view_current() == Some(
                CurrentView { did: did@, handle: handle@, ..c },
            ),
            r@ == (InfoView {
                did: did@,
                handle: handle@,
                last_auth_at: match old(self).view_current() {
                    Some(c) => c.last_auth_at,
                    None => 0,
                },
            }),
    {
        let last = match &self.current {
            Some(c) => c.last_auth_at,
            None => 0,
        };
        let info = SessionInfo {
            did: owned(did.as_str()),
            handle: owned(handle.as_str()),
            last_auth_at: last,
        };
        match self.current.take() {
            Some(c) => {
                self.current = Some(Current { did, handle, ..c });
            },
            None => {},
        }
        info
    }
}

/// A login or refresh is remembered: the session info then reported is the
/// session's did and handle with the time of authentication, the access
/// token is the new one, and the refresh token is the one the shell stored.
pub proof fn law_session_remembered(session: Session, now: i64)
    ensures
        current_info(Some(installed(session, now))) == Some(
            InfoView { did: session.did@, handle: session.handle@, last_auth_at: now },
        ),
        installed(session, now).access_jwt == Some(session.access_jwt@),
        installed(session, now).refresh_jwt == session.refresh_jwt@,
{
}

/// A restore brings back the stored account without an access token (one is
/// fetched by a refresh when first needed), and reports what was stored.
pub proof fn law_restore_reports_stored(meta: SessionMeta, refresh: String)
    ensures
        current_info(
            Some(
                CurrentView {
                    did: meta.did@,
                    handle: meta.handle@,
                    refresh_jwt: refresh@,
                    access_jwt: None,
                    last_auth_at: meta.last_auth_at,
                },
            ),
        ) == Some(InfoView { did: meta.did@, handle: meta.handle@, last_auth_at: meta.last_auth_at }),
{
}

/// Login input check on already-trimmed input: both parts must be non-empty.
pub fn check_trimmed<'a>(identifier: &'a str, app_password: &'a str) -> (r: Result<
    (&'a str, &'a str),
    AppError,
>)
    ensures
        (identifier@.len() == 0 || app_password@.len() == 0) ==> r matches Err(
            AppError::InvalidCredentials,
        ),
        !(identifier@.len() == 0 || app_password@.len() == 0) ==> (r matches Ok((i, p)) && i@
            == identifier@ && p@ == app_password@),
{
    if identifier.is_empty() || app_password.is_empty() {
        Err(AppError::InvalidCredentials)
    } else {
        Ok((identifier, app_password))
    }
}

/// Login input check: the handle and App Password are trimmed, and either
/// being empty is `InvalidCredentials` (no request is made).
pub fn check_login_input<'a>(identifier: &'a str, app_password: &'a str) -> (r: Result<
    (&'a str, &'a str),
    AppError,
>)
    ensures
        (trimmed(identifier@).len() == 0 || trimmed(app_password@).len() == 0) ==> r matches Err(
            AppError::InvalidCredentials,
        ),
        !(trimmed(identifier@).len() == 0 || trimmed(app_password@).len() == 0) ==> (r matches Ok(
            (i, p),
        ) && i@ == trimmed(identifier@) && p@ == trimmed(app_password@)),
{
    check_trimmed(trim(identifier), trim(app_password))
}

} // verus!
