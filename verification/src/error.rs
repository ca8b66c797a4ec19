//! The application-wide error type.
//!
//! No variant carries a token or a password: messages are shown to the user.

use crate::text::{concat2, owned};
use vstd::prelude::*;

verus! {

pub enum AppError {
    /// The identifier or App Password was refused.
    InvalidCredentials,
    /// The access token expired; the caller refreshes and retries.
    Unauthorized,
    /// The refresh token can no longer be used; the user must log in again.
    RefreshFailed,
    NotLoggedIn,
    /// Bluesky answered with an XRPC error; `error` is the error's name.
    Xrpc { status: u16, error: String },
    Network(String),
    Db(String),
    Keychain(String),
    Io(String),
    Internal(String),
    /// HTTP 429 from the timeline; `retry_after_secs` is the server's hint.
    RateLimited { retry_after_secs: Option<u64> },
    /// The running sync was cancelled.
    Cancelled,
}

/// The text shown to the user for an error.
pub open spec fn message_of(e: AppError) -> Seq<char> {
    match e {
        AppError::InvalidCredentials => "認証情報が正しくありません"@,
        AppError::Unauthorized => "認証が必要です"@,
        AppError::RefreshFailed => "セッションの更新に失敗しました。再ログインしてください"@,
        AppError::NotLoggedIn => "未ログインです"@,
        AppError::Xrpc { status: _, error } => "Bluesky API エラー: "@ + error@,
        AppError::Network(m) => "ネットワークエラー: "@ + m@,
        AppError::Db(m) => "データベースエラー: "@ + m@,
        AppError::Keychain(m) => "キーチェーンエラー: "@ + m@,
        AppError::Io(m) => "入出力エラー: "@ + m@,
        AppError::Internal(m) => "内部エラー: "@ + m@,
        AppError::RateLimited { .. } => "レート制限に達しました"@,
        AppError::Cancelled => "同期を中断しました"@,
    }
}

impl AppError {
    /// The text shown to the user for this error.
    pub fn message(&self) -> (r: String)
        ensures
            r@ == message_of(*self),
    {
        match self {
            AppError::InvalidCredentials => owned("認証情報が正しくありません"),
            AppError::Unauthorized => owned("認証が必要です"),
            AppError::RefreshFailed => owned("セッションの更新に失敗しました。再ログインしてください"),
            AppError::NotLoggedIn => owned("未ログインです"),
            AppError::Xrpc { status: _, error } => concat2("Bluesky API エラー: ", error.as_str()),
            AppError::Network(m) => concat2("ネットワークエラー: ", m.as_str()),
            AppError::Db(m) => concat2("データベースエラー: ", m.as_str()),
            AppError::Keychain(m) => concat2("キーチェーンエラー: ", m.as_str()),
            AppError::Io(m) => concat2("入出力エラー: ", m.as_str()),
            AppError::Internal(m) => concat2("内部エラー: ", m.as_str()),
            AppError::RateLimited { .. } => owned("レート制限に達しました"),
            AppError::Cancelled => owned("同期を中断しました"),
        }
    }
}

/// The plain-value view of an [`AppError`].
pub enum ErrorView {
    InvalidCredentials,
    Unauthorized,
    RefreshFailed,
    NotLoggedIn,
    Xrpc { status: u16, error: Seq<char> },
    Network(Seq<char>),
    Db(Seq<char>),
    Keychain(Seq<char>),
    Io(Seq<char>),
    Internal(Seq<char>),
    RateLimited { retry_after_secs: Option<u64> },
    Cancelled,
}

impl View for AppError {
    type V = ErrorView;

    open spec fn view(&self) -> ErrorView {
        match self {
            AppError::InvalidCredentials => ErrorView::InvalidCredentials,
            AppError::Unauthorized => ErrorView::Unauthorized,
            AppError::RefreshFailed => ErrorView::RefreshFailed,
            AppError::NotLoggedIn => ErrorView::NotLoggedIn,
            AppError::Xrpc { status, error } => ErrorView::Xrpc { status: *status, error: error@ },
            AppError::Network(m) => ErrorView::Network(m@),
            AppError::Db(m) => ErrorView::Db(m@),
            AppError::Keychain(m) => ErrorView::Keychain(m@),
            AppError::Io(m) => ErrorView::Io(m@),
            AppError::Internal(m) => ErrorView::Internal(m@),
            AppError::RateLimited { retry_after_secs } => ErrorView::RateLimited {
                retry_after_secs: *retry_after_secs,
            },
            AppError::Cancelled => ErrorView::Cancelled,
        }
    }
}

} // verus!
