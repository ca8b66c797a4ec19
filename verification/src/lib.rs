//! Hanaikada core: the verified logic of a read-only Bluesky media-grid client.
//!
//! The library holds what the desktop shell decides and computes: decoding of
//! Bluesky timeline items into media rows, the error classification of XRPC
//! responses, the in-memory session state, the sync engine's state machines,
//! the SQL that the grid queries send, moderation preferences, and the disk
//! cache accounting.  Network, keychain, SQLite and file access stay in the
//! application shell, which hands the library plain values.

pub mod auth;
pub mod client;
pub mod clock;
pub mod commands;
pub mod error;
pub mod extractor;
pub mod json;
pub mod media;
pub mod migrations;
pub mod models;
pub mod moderation;
pub mod poller;
pub mod queries;
pub mod rows;
pub mod sync;
pub mod text;

pub use json::JsonValue;
