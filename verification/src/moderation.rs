//! Mute / block reconciliation.
//!
//! The server already leaves muted and blocked accounts out of the timeline,
//! but posts collected earlier stay in the local store.  Once a week the app
//! fetches the mute and block lists and marks the posts of those accounts
//! (as author or reposter) hidden; accounts no longer listed are shown again.

use crate::error::AppError;
use crate::json::{non_empty, str_field, str_of, JsonValue};
use crate::text::{owned, str_eq};
use vstd::prelude::*;

verus! {

/// The `sync_state` key recording the last reconciliation.
pub const MODERATION_KEY: &'static str = "moderation";

/// A week in seconds.
pub const WEEK_SECS: i64 = 604800;

/// Whether the weekly reconciliation is due at `now`: when it never ran (or
/// its last run cannot be read), or at least a week has passed.
pub fn weekly_due(last_run_at: Option<i64>, now: i64) -> (r: bool)
    requires
        last_run_at matches Some(l) ==> i64::MIN <= now - l <= i64::MAX,
    ensures
        r == match last_run_at {
            Some(l) => now - l >= WEEK_SECS,
            None => true,
        },
{
    match last_run_at {
        Some(last) => now - last >= WEEK_SECS,
        None => true,
    }
}

/// The accounts to hide: the muted ones followed by the blocked ones
/// (duplicates are harmless).
pub fn hidden_dids(mutes: Vec<String>, blocks: Vec<String>) -> (r: Vec<String>)
    ensures
        r@ == mutes@ + blocks@,
{
    let mut dids = mutes;
    let mut blocks = blocks;
    dids.append(&mut blocks);
    dids
}

/// Whether a failed request is retried once after a token refresh: only an
/// expired access token is.
pub fn retry_after_refresh(err: &AppError, already_retried: bool) -> (r: bool)
    ensures
        r == (*err is Unauthorized && !already_retried),
{
    matches!(err, AppError::Unauthorized) && !already_retried
}

/// The account ids listed in a page of `getMutes` / `getBlocks` items: the
/// `did` of each item that has one, in order.
pub open spec fn dids_of(items: Seq<JsonValue>) -> Seq<Seq<char>>
    decreases items.len(),
{
    if items.len() == 0 {
        Seq::empty()
    } else {
        let rest = dids_of(items.drop_last());
        match str_of(items.last().member("did"@)) {
            Some(d) => rest.push(d),
            None => rest,
        }
    }
}

/// A page of a mute or block list: the ids of the array member `list`
/// (none when it is missing) and the cursor of the next page (none when
/// missing or empty: the list is over).
pub open spec fn graph_page_of(v: JsonValue, list: Seq<char>) -> (Seq<Seq<char>>, Option<Seq<char>>) {
    (
        match v.member(list) {
            Some(JsonValue::Array(a)) => dids_of(a@),
            _ => Seq::empty(),
        },
        non_empty(str_of(v.member("cursor"@))),
    )
}

/// One page of a mute or block list.
pub struct GraphPage {
    pub dids: Vec<String>,
    pub cursor: Option<String>,
}

/// Reads a page of `getMutes` (`list` = `mutes`) or `getBlocks` (`blocks`).
pub fn graph_page(v: &JsonValue, list: &str) -> (r: GraphPage)
    ensures
        r.dids@.map_values(|s: String| s@) == graph_page_of(*v, list@).0,
        r.cursor.deep_view() == graph_page_of(*v, list@).1,
{
    let mut dids: Vec<String> = Vec::new();
    if let Some(JsonValue::Array(items)) = v.get(list) {
        let mut i: usize = 0;
        while i < items.len()
            invariant
                i <= items@.len(),
                dids@.map_values(|s: String| s@) == dids_of(items@.take(i as int)),
            decreases items@.len() - i,
        {
            assert(items@.take(i + 1).drop_last() =~= items@.take(i as int));
            assert(items@.take(i + 1).last() == items@[i as int]);
            if let Some(d) = str_field(items[i].get("did")) {
                let ghost before = dids@.map_values(|s: String| s@);
                dids.push(owned(d));
                assert(dids@.map_values(|s: String| s@) =~= before.push(d@));
            }
            i += 1;
        }
        assert(items@.take(items@.len() as int) =~= items@);
    } else {
        assert(dids@.map_values(|s: String| s@) =~= Seq::<Seq<char>>::empty());
    }
    let cursor = match str_field(v.get("cursor")) {
        Some(c) => if c.is_empty() {
            None
        } else {
            Some(owned(c))
        },
        None => None,
    };
    GraphPage { dids, cursor }
}

/// Where a mute or block list goes on after a page: `None` (the list is
/// over) when the page gave no cursor or gave back the one it was asked
/// with; else the page's cursor.
pub fn next_graph_cursor(asked: &Option<String>, page_cursor: Option<String>) -> (r: Option<String>)
    ensures
        match page_cursor {
            None => r is None,
            Some(c) => if asked.deep_view() == Some(c@) {
                r is None
            } else {
                r.deep_view() == Some(c@)
            },
        },
{
    match page_cursor {
        None => None,
        Some(c) => {
            let same = match asked {
                Some(a) => str_eq(a.as_str(), c.as_str()),
                None => false,
            };
            if same {
                None
            } else {
                Some(c)
            }
        },
    }
}

} // verus!
