//! The SQLite schema and its migrations.
//!
//! The schema version is kept in `PRAGMA user_version`; migrations only add,
//! and each one runs when the stored version is below it.

use vstd::prelude::*;

verus! {

/// The current schema version (bump it with every migration added).
pub const SCHEMA_VERSION: i64 = 2;

/// v1: the initial schema (actors / posts / media / sync_state).
pub const V1: &'static str = "
CREATE TABLE actors (
  did          TEXT PRIMARY KEY,
  handle       TEXT NOT NULL,
  display_name TEXT,
  avatar_url   TEXT,
  updated_at   INTEGER NOT NULL
);

CREATE TABLE posts (
  uri          TEXT PRIMARY KEY,
  cid          TEXT NOT NULL,
  author_did   TEXT NOT NULL REFERENCES actors(did),
  reposter_did TEXT REFERENCES actors(did),
  created_at   INTEGER NOT NULL,
  indexed_at   INTEGER NOT NULL,
  text         TEXT,
  labels_json  TEXT,
  is_hidden    INTEGER NOT NULL DEFAULT 0
);

CREATE TABLE media (
  id           INTEGER PRIMARY KEY,
  post_uri     TEXT NOT NULL REFERENCES posts(uri) ON DELETE CASCADE,
  idx          INTEGER NOT NULL,
  kind         TEXT NOT NULL,
  thumb_url    TEXT NOT NULL,
  fullsize_url TEXT,
  playlist_url TEXT,
  alt          TEXT,
  aspect_w     INTEGER,
  aspect_h     INTEGER,
  local_path   TEXT,
  bytes        INTEGER,
  last_used_at INTEGER,
  UNIQUE(post_uri, idx)
);

CREATE TABLE sync_state (
  key         TEXT PRIMARY KEY,
  cursor      TEXT,
  last_run_at INTEGER,
  oldest_seen INTEGER
);

CREATE INDEX idx_posts_indexed_at ON posts(indexed_at DESC);
CREATE INDEX idx_posts_author     ON posts(author_did, indexed_at DESC);
CREATE INDEX idx_media_kind       ON media(kind);
";

/// v2: full-text search over ALT text and post body.  The `trigram`
/// tokenizer matches Japanese substrings (three characters or more; shorter
/// searches fall back to LIKE).  `rowid` is `media.id`; existing media are
/// indexed.
pub const V2: &'static str = "
CREATE VIRTUAL TABLE media_fts USING fts5(
  alt, text,
  tokenize = 'trigram'
);

INSERT INTO media_fts(rowid, alt, text)
  SELECT m.id, COALESCE(m.alt, ''), COALESCE(p.text, '')
  FROM media m JOIN posts p ON p.uri = m.post_uri;
";

/// Records the current schema version.
pub const SET_USER_VERSION_SQL: &'static str = "PRAGMA user_version = 2;";

/// Reads the schema version.
pub const GET_USER_VERSION_SQL: &'static str = "PRAGMA user_version";

/// The settings of every connection.
pub const CONFIGURE_SQL: &'static str = "PRAGMA journal_mode = WAL;
         PRAGMA synchronous = NORMAL;
         PRAGMA foreign_keys = ON;
         PRAGMA busy_timeout = 5000;";

/// What a migration run does, given the stored version.
pub struct MigrationPlan {
    pub apply_v1: bool,
    pub apply_v2: bool,
    /// Whether the version is then recorded as [`SCHEMA_VERSION`].
    pub set_version: bool,
}

/// Every migration above the stored version runs, in order; the version is
/// recorded when it is not already the current one.
pub fn plan(current: i64) -> (r: MigrationPlan)
    ensures
        r.apply_v1 == (current < 1),
        r.apply_v2 == (current < 2),
        r.set_version == (current != SCHEMA_VERSION),
{
    MigrationPlan { apply_v1: current < 1, apply_v2: current < 2, set_version: current != SCHEMA_VERSION }
}

} // verus!
