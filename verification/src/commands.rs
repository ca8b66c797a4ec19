//! The records that the frontend commands return, and the reading of the
//! account's moderation preferences.

use crate::json::{bool_of, str_field, str_of, JsonValue};
use crate::text::{owned, str_eq};
use vstd::prelude::*;

verus! {

/// Row counts of the store (status bar).
pub struct DbStats {
    pub media: i64,
    pub posts: i64,
    pub actors: i64,
}

/// A label and how the user wants it shown: `ignore`, `show`, `warn` or `hide`.
pub struct LabelPref {
    pub label: String,
    pub visibility: String,
}

/// The plain-value view of a [`LabelPref`].
pub struct LabelPrefView {
    pub label: Seq<char>,
    pub visibility: Seq<char>,
}

impl View for LabelPref {
    type V = LabelPrefView;

    open spec fn view(&self) -> LabelPrefView {
        LabelPrefView { label: self.label@, visibility: self.visibility@ }
    }
}

/// The moderation settings the grid applies.
pub struct ModerationPrefs {
    pub adult_content_enabled: bool,
    pub label_prefs: Vec<LabelPref>,
}

pub const ADULT_CONTENT_PREF: &'static str = "app.bsky.actor.defs#adultContentPref";
pub const CONTENT_LABEL_PREF: &'static str = "app.bsky.actor.defs#contentLabelPref";

/// The settings after one more preference item: an adult-content item sets
/// the flag to its `enabled` (false when unreadable); a content-label item
/// with a `label` and a `visibility` adds a label setting; others are skipped.
pub open spec fn prefs_step(acc: (bool, Seq<LabelPrefView>), item: JsonValue) -> (
    bool,
    Seq<LabelPrefView>,
) {
    let t = str_of(item.member("$type"@));
    if t == Some(ADULT_CONTENT_PREF@) {
        (
            match bool_of(item.member("enabled"@)) {
                Some(b) => b,
                None => false,
            },
            acc.1,
        )
    } else if t == Some(CONTENT_LABEL_PREF@) {
        match (str_of(item.member("label"@)), str_of(item.member("visibility"@))) {
            (Some(l), Some(v)) => (acc.0, acc.1.push(LabelPrefView { label: l, visibility: v })),
            _ => acc,
        }
    } else {
        acc
    }
}

/// The settings read from a list of preference items, in order.
pub open spec fn prefs_fold(items: Seq<JsonValue>) -> (bool, Seq<LabelPrefView>)
    decreases items.len(),
{
    if items.len() == 0 {
        (false, Seq::empty())
    } else {
        prefs_step(prefs_fold(items.drop_last()), items.last())
    }
}

/// The settings of a `getPreferences` answer (nothing set without a
/// `preferences` array).
pub open spec fn prefs_of(v: JsonValue) -> (bool, Seq<LabelPrefView>) {
    match v.member("preferences"@) {
        Some(JsonValue::Array(a)) => prefs_fold(a@),
        _ => (false, Seq::empty()),
    }
}

/// Reads the adult-content switch and the label settings of a
/// `getPreferences` answer.
pub fn parse_prefs(value: &JsonValue) -> (r: ModerationPrefs)
    ensures
        r.adult_content_enabled == prefs_of(*value).0,
        r.label_prefs@.map_values(|p: LabelPref| p@) == prefs_of(*value).1,
{
    let mut adult_content_enabled = false;
    let mut label_prefs: Vec<LabelPref> = Vec::new();
    let arr = match value.get("preferences") {
        Some(v) => v.as_array(),
        None => None,
    };
    if let Some(arr) = arr {
        let mut i: usize = 0;
        while i < arr.len()
            invariant
                i <= arr@.len(),
                prefs_fold(arr@.take(i as int)) == (
                    adult_content_enabled,
                    label_prefs@.map_values(|p: LabelPref| p@),
                ),
            decreases arr@.len() - i,
        {
            assert(arr@.take(i + 1).drop_last() =~= arr@.take(i as int));
            assert(arr@.take(i + 1).last() == arr@[i as int]);
            let item = &arr[i];
            let t = str_field(item.get("$type"));
            let is_adult = match t {
                Some(x) => str_eq(x, ADULT_CONTENT_PREF),
                None => false,
            };
            let is_label = match t {
                Some(x) => str_eq(x, CONTENT_LABEL_PREF),
                None => false,
            };
            if is_adult {
                adult_content_enabled = match item.get("enabled") {
                    Some(e) => match e.as_bool() {
                        Some(b) => b,
                        None => false,
                    },
                    None => false,
                };
            } else if is_label {
                let label = str_field(item.get("label"));
                let vis = str_field(item.get("visibility"));
                if let (Some(l), Some(v)) = (label, vis) {
                    let ghost before = label_prefs@.map_values(|p: LabelPref| p@);
                    let p = LabelPref { label: owned(l), visibility: owned(v) };
                    label_prefs.push(p);
                    assert(label_prefs@.map_values(|p: LabelPref| p@) =~= before.push(p@));
                }
            }
            i += 1;
        }
        assert(arr@.take(arr@.len() as int) =~= arr@);
    } else {
        assert(label_prefs@.map_values(|p: LabelPref| p@) =~= Seq::<LabelPrefView>::empty());
    }
    ModerationPrefs { adult_content_enabled, label_prefs }
}

/// Each label setting the account has is kept as it is: one more
/// `contentLabelPref` item with a string `label` and a string `visibility`
/// adds exactly that setting, whatever the visibility (`ignore`, `show`,
/// `warn`, `hide` or another), and leaves the adult-content switch alone.
/// An adult-content item sets the switch to its `enabled` (false when not a
/// boolean) and adds no setting; any other item changes nothing.
pub proof fn law_preference_items(items: Seq<JsonValue>, item: JsonValue)
    ensures
        str_of(item.member("$type"@)) == Some("app.bsky.actor.defs#contentLabelPref"@) ==> (str_of(
            item.member("label"@),
        ) matches Some(l) ==> (str_of(item.member("visibility"@)) matches Some(vis) ==> prefs_fold(
            items.push(item),
        ) == (prefs_fold(items).0, prefs_fold(items).1.push(LabelPrefView { label: l, visibility: vis })))),
        str_of(item.member("$type"@)) == Some("app.bsky.actor.defs#adultContentPref"@) ==> prefs_fold(
            items.push(item),
        ) == (
            match bool_of(item.member("enabled"@)) {
                Some(b) => b,
                None => false,
            },
            prefs_fold(items).1,
        ),
        (str_of(item.member("$type"@)) != Some("app.bsky.actor.defs#contentLabelPref"@) && str_of(
            item.member("$type"@),
        ) != Some("app.bsky.actor.defs#adultContentPref"@)) ==> prefs_fold(items.push(item))
            == prefs_fold(items),
{
    assert(items.push(item).drop_last() =~= items);
    reveal_strlit("app.bsky.actor.defs#contentLabelPref");
    reveal_strlit("app.bsky.actor.defs#adultContentPref");
    assert("app.bsky.actor.defs#contentLabelPref"@[20] != "app.bsky.actor.defs#adultContentPref"@[20]);
}

/// The disk-cache usage shown in the settings.
pub struct CacheUsage {
    pub thumbs_bytes: u64,
    pub fullsize_bytes: u64,
    pub total_bytes: u64,
    pub limit_bytes: u64,
}

impl CacheUsage {
    /// The usage of the two cache directories against the limit.
    pub fn new(thumbs_bytes: u64, fullsize_bytes: u64, limit_bytes: u64) -> (r: CacheUsage)
        requires
            thumbs_bytes + fullsize_bytes <= u64::MAX,
        ensures
            r.thumbs_bytes == thumbs_bytes,
            r.fullsize_bytes == fullsize_bytes,
            r.total_bytes == thumbs_bytes + fullsize_bytes,
            r.limit_bytes == limit_bytes,
    {
        CacheUsage {
            thumbs_bytes,
            fullsize_bytes,
            total_bytes: thumbs_bytes + fullsize_bytes,
            limit_bytes,
        }
    }
}

} // verus!
