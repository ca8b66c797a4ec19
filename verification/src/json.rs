//! A JSON document model holding the values that the decoders read.
//!
//! The shell parses a response body with `serde_json` into a [`JsonValue`],
//! keeping an object's members in document order, repeated names included;
//! the library's decoders read this model.  A number is held as the signed
//! 64-bit integer it denotes, when it denotes one.

use crate::text::str_eq;
use vstd::prelude::*;

verus! {

/// A JSON value.
pub enum JsonValue {
    Null,
    Bool(bool),
    /// A number: `Some(n)` when it is an integer that fits an `i64`, and
    /// the number's text as `serde_json` writes it.
    Number(Option<i64>, String),
    Str(String),
    Array(Vec<JsonValue>),
    /// The members of an object, in document order.
    Object(Vec<JsonMember>),
}

/// One `key: value` member of a JSON object.
pub struct JsonMember {
    pub key: String,
    pub value: JsonValue,
}

/// The value of the last member named `key`, if any (of a repeated name,
/// the later member wins, as in a `serde_json` object).
pub open spec fn members_lookup(ms: Seq<JsonMember>, key: Seq<char>) -> Option<JsonValue>
    decreases ms.len(),
{
    if ms.len() == 0 {
        None
    } else {
        match members_lookup(ms.drop_first(), key) {
            Some(v) => Some(v),
            None => if ms[0].key@ == key {
                Some(ms[0].value)
            } else {
                None
            },
        }
    }
}

/// A member found in a suffix is the one found in the whole (later members win).
pub proof fn lemma_lookup_suffix(ms: Seq<JsonMember>, key: Seq<char>, j: int)
    requires
        0 <= j <= ms.len(),
        members_lookup(ms.skip(j), key) is Some,
    ensures
        members_lookup(ms, key) == members_lookup(ms.skip(j), key),
    decreases j,
{
    if j > 0 {
        assert(ms.skip(1).skip(j - 1) =~= ms.skip(j));
        assert(ms.drop_first() =~= ms.skip(1));
        lemma_lookup_suffix(ms.drop_first(), key, j - 1);
    } else {
        assert(ms.skip(0) =~= ms);
    }
}

/// A found member is one of the members.
pub proof fn lemma_lookup_found(ms: Seq<JsonMember>, key: Seq<char>)
    requires
        members_lookup(ms, key) is Some,
    ensures
        exists|i: int| 0 <= i < ms.len() && ms[i].value == members_lookup(ms, key)->0,
    decreases ms.len(),
{
    if members_lookup(ms.drop_first(), key) is None {
        assert(ms[0].value == members_lookup(ms, key)->0);
    } else {
        lemma_lookup_found(ms.drop_first(), key);
        let i = choose|i: int|
            0 <= i < ms.drop_first().len() && ms.drop_first()[i].value == members_lookup(
                ms.drop_first(),
                key,
            )->0;
        assert(ms[i + 1].value == members_lookup(ms, key)->0);
    }
}

/// The text of a value that is a string.
pub open spec fn str_of(v: Option<JsonValue>) -> Option<Seq<char>> {
    match v {
        Some(JsonValue::Str(s)) => Some(s@),
        _ => None,
    }
}

/// The integer of a value that is an integral number fitting an `i64`.
pub open spec fn i64_of(v: Option<JsonValue>) -> Option<i64> {
    match v {
        Some(JsonValue::Number(n, _)) => n,
        _ => None,
    }
}

/// The boolean of a value that is a boolean.
pub open spec fn bool_of(v: Option<JsonValue>) -> Option<bool> {
    match v {
        Some(JsonValue::Bool(b)) => Some(b),
        _ => None,
    }
}

/// The member `key` of an optional value (absent when the value is absent or not an object).
pub open spec fn field(v: Option<JsonValue>, key: Seq<char>) -> Option<JsonValue> {
    match v {
        Some(x) => x.member(key),
        None => None,
    }
}

/// `Some(s)` when `s` is present and not empty.
pub open spec fn non_empty(s: Option<Seq<char>>) -> Option<Seq<char>> {
    match s {
        Some(t) => if t.len() > 0 {
            Some(t)
        } else {
            None
        },
        None => None,
    }
}

impl JsonValue {
    /// The value of member `key` when `self` is an object that has one.
    pub open spec fn member(self, key: Seq<char>) -> Option<JsonValue> {
        match self {
            JsonValue::Object(ms) => members_lookup(ms@, key),
            _ => None,
        }
    }

    /// A member's value is structurally smaller than the object that holds it.
    pub proof fn lemma_member_decreases(self, key: Seq<char>)
        requires
            self.member(key) is Some,
        ensures
            decreases_to!(self => self.member(key)->0),
    {
        if let JsonValue::Object(ms) = self {
            lemma_lookup_found(ms@, key);
            let i = choose|i: int|
                0 <= i < ms@.len() && ms@[i].value == members_lookup(ms@, key)->0;
            assert(decreases_to!(self => ms));
            assert(decreases_to!(ms => ms@));
            assert(decreases_to!(ms@ => ms@[i]));
            assert(decreases_to!(ms@[i] => ms@[i].value));
        }
    }

    /// Looks up member `key` (the last one of that name).
    pub fn get(&self, key: &str) -> (r: Option<&JsonValue>)
        ensures
            r is Some <==> self.member(key@) is Some,
            r matches Some(v) ==> self.member(key@) == Some(*v),
    {
        match self {
            JsonValue::Object(ms) => {
                let mut i: usize = ms.len();
                assert(ms@.skip(ms@.len() as int).len() == 0);
                while i > 0
                    invariant
                        0 <= i <= ms.len(),
                        members_lookup(ms@.skip(i as int), key@) is None,
                        *self == JsonValue::Object(*ms),
                    decreases i,
                {
                    assert(ms@.skip(i - 1).drop_first() =~= ms@.skip(i as int));
                    assert(ms@.skip(i - 1)[0] == ms@[i - 1]);
                    if str_eq(ms[i - 1].key.as_str(), key) {
                        proof {
                            lemma_lookup_suffix(ms@, key@, i - 1);
                        }
                        return Some(&ms[i - 1].value);
                    }
                    i -= 1;
                }
                assert(ms@.skip(0) =~= ms@);
                None
            },
            _ => None,
        }
    }

    /// The text of a string value.
    pub fn as_str(&self) -> (r: Option<&str>)
        ensures
            r is Some <==> str_of(Some(*self)) is Some,
            r matches Some(s) ==> str_of(Some(*self)) == Some(s@),
    {
        match self {
            JsonValue::Str(s) => Some(s.as_str()),
            _ => None,
        }
    }

    /// The elements of an array value.
    pub fn as_array(&self) -> (r: Option<&Vec<JsonValue>>)
        ensures
            r is Some <==> self is Array,
            r matches Some(a) ==> self == JsonValue::Array(*a),
    {
        match self {
            JsonValue::Array(a) => Some(a),
            _ => None,
        }
    }

    /// The integer of an integral number fitting an `i64`.
    pub fn as_i64(&self) -> (r: Option<i64>)
        ensures
            r == i64_of(Some(*self)),
    {
        match self {
            JsonValue::Number(n, _) => *n,
            _ => None,
        }
    }

    /// The boolean of a boolean value.
    pub fn as_bool(&self) -> (r: Option<bool>)
        ensures
            r == bool_of(Some(*self)),
    {
        match self {
            JsonValue::Bool(b) => Some(*b),
            _ => None,
        }
    }
}

/// Member `key` of an optional value.
pub fn get_field<'a>(v: Option<&'a JsonValue>, key: &str) -> (r: Option<&'a JsonValue>)
    ensures
        r is Some <==> field(opt_ref(v), key@) is Some,
        r matches Some(x) ==> field(opt_ref(v), key@) == Some(*x),
{
    match v {
        Some(x) => x.get(key),
        None => None,
    }
}

/// The text of an optional string value.
pub fn str_field<'a>(v: Option<&'a JsonValue>) -> (r: Option<&'a str>)
    ensures
        r is Some <==> str_of(opt_ref(v)) is Some,
        r matches Some(s) ==> str_of(opt_ref(v)) == Some(s@),
{
    match v {
        Some(x) => x.as_str(),
        None => None,
    }
}

/// An optional reference seen as an optional value.
pub open spec fn opt_ref(v: Option<&JsonValue>) -> Option<JsonValue> {
    match v {
        Some(x) => Some(*x),
        None => None,
    }
}

/// No two of `names` have the same text.
pub open spec fn distinct_names(names: Seq<&str>) -> bool {
    forall|i: int, j: int| 0 <= i < j < names.len() ==> names[i]@ != names[j]@
}

/// Takes an object apart into the values of the members named `names`
/// (the last member of each name).
/// `None` when `v` is not an object.
pub fn take_members(v: JsonValue, names: &[&str]) -> (r: Option<Vec<Option<JsonValue>>>)
    requires
        distinct_names(names@),
    ensures
        r is Some <==> v is Object,
        r matches Some(slots) ==> {
            &&& slots@.len() == names@.len()
            &&& forall|k: int| 0 <= k < names@.len() ==> slots@[k] == v.member(#[trigger] names@[k]@)
        },
{
    match v {
        JsonValue::Object(ms) => {
            let ghost orig = ms@;
            let mut ms = ms;
            let mut slots: Vec<Option<JsonValue>> = Vec::new();
            let mut k: usize = 0;
            while k < names.len()
                invariant
                    k <= names@.len(),
                    slots@.len() == k,
                    forall|q: int| 0 <= q < k ==> slots@[q] is None,
                decreases names@.len() - k,
            {
                slots.push(None);
                k += 1;
            }
            assert(orig.skip(orig.len() as int).len() == 0);
            assert(orig.take(orig.len() as int) =~= orig);
            while ms.len() > 0
                invariant
                    ms@.len() <= orig.len(),
                    ms@ == orig.take(ms@.len() as int),
                    slots@.len() == names@.len(),
                    distinct_names(names@),
                    forall|q: int|
                        0 <= q < names@.len() ==> slots@[q] == members_lookup(
                            orig.skip(ms@.len() as int),
                            #[trigger] names@[q]@,
                        ),
                decreases ms@.len(),
            {
                let ghost j = ms@.len() as int;
                let m = ms.pop().unwrap();
                assert(m == orig[j - 1]);
                assert(orig.skip(j - 1).drop_first() =~= orig.skip(j));
                assert(orig.skip(j - 1)[0] == orig[j - 1]);
                assert(orig.take(j).take(j - 1) =~= orig.take(j - 1));
                let JsonMember { key, value } = m;
                let mut q: usize = 0;
                let mut found: Option<usize> = None;
                while q < names.len()
                    invariant
                        q <= names@.len(),
                        found matches Some(f) ==> f < names@.len() && names@[f as int]@ == key@,
                        found is None ==> forall|p: int| 0 <= p < q ==> names@[p]@ != key@,
                    decreases names@.len() - q,
                {
                    if found.is_none() && str_eq(names[q], key.as_str()) {
                        found = Some(q);
                    }
                    q += 1;
                }
                if let Some(f) = found {
                    if slots[f].is_none() {
                        slots.set(f, Some(value));
                    }
                }
                assert forall|p: int| 0 <= p < names@.len() implies slots@[p] == members_lookup(
                    orig.skip(j - 1),
                    #[trigger] names@[p]@,
                ) by {
                    if names@[p]@ == key@ {
                        assert(found is Some);
                    }
                }
            }
            assert(orig.skip(0) =~= orig);
            Some(slots)
        },
        _ => None,
    }
}

/// How many members of `ms` are named `key`.
pub open spec fn key_count(ms: Seq<JsonMember>, key: Seq<char>) -> nat
    decreases ms.len(),
{
    if ms.len() == 0 {
        0
    } else {
        key_count(ms.drop_last(), key) + if ms.last().key@ == key {
            1nat
        } else {
            0nat
        }
    }
}

/// `key` is not named twice in `v` (always so of a value that is not an object).
pub open spec fn unique_member(v: JsonValue, key: Seq<char>) -> bool {
    match v {
        JsonValue::Object(ms) => key_count(ms@, key) <= 1,
        _ => true,
    }
}

/// Whether `key` is named at most once in `v`.
pub fn has_unique_member(v: &JsonValue, key: &str) -> (r: bool)
    ensures
        r == unique_member(*v, key@),
{
    match v {
        JsonValue::Object(ms) => {
            let mut n: usize = 0;
            let mut i: usize = 0;
            while i < ms.len()
                invariant
                    i <= ms@.len(),
                    n == key_count(ms@.take(i as int), key@),
                    n <= 1,
                    *v == JsonValue::Object(*ms),
                decreases ms@.len() - i,
            {
                assert(ms@.take(i + 1).drop_last() =~= ms@.take(i as int));
                assert(ms@.take(i + 1).last() == ms@[i as int]);
                if str_eq(ms[i].key.as_str(), key) {
                    if n == 1 {
                        assert(key_count(ms@.take(i + 1), key@) == 2);
                        proof {
                            lemma_key_count_prefix(ms@, key@, i + 1);
                        }
                        return false;
                    }
                    n = n + 1;
                }
                i += 1;
            }
            assert(ms@.take(ms@.len() as int) =~= ms@);
            true
        },
        _ => true,
    }
}

/// A prefix names `key` no more often than the whole.
proof fn lemma_key_count_prefix(ms: Seq<JsonMember>, key: Seq<char>, n: int)
    requires
        0 <= n <= ms.len(),
    ensures
        key_count(ms.take(n), key) <= key_count(ms, key),
    decreases ms.len() - n,
{
    if n < ms.len() {
        assert(ms.take(n + 1).drop_last() =~= ms.take(n));
        lemma_key_count_prefix(ms, key, n + 1);
    } else {
        assert(ms.take(n) =~= ms);
    }
}

/// A field of a record written in JSON: member `name` of an object, or
/// element `pos` of an array (a record may also be written as the array of
/// its fields, in declaration order).
pub open spec fn record_field(v: JsonValue, name: Seq<char>, pos: int) -> Option<JsonValue> {
    match v {
        JsonValue::Object(_) => v.member(name),
        JsonValue::Array(a) => if 0 <= pos < a@.len() {
            Some(a@[pos])
        } else {
            None
        },
        _ => None,
    }
}

/// The value can be read as a record with fields `names`: an object that
/// names none of them twice, or an array with no more elements than fields.
pub open spec fn record_shape(v: JsonValue, names: Seq<Seq<char>>) -> bool {
    match v {
        JsonValue::Object(_) => forall|i: int| 0 <= i < names.len() ==> #[trigger] unique_member(v, names[i]),
        JsonValue::Array(a) => a@.len() <= names.len(),
        _ => false,
    }
}

/// Reads field `name` (at position `pos`) of a record.
pub fn get_record_field<'a>(v: &'a JsonValue, name: &str, pos: usize) -> (r: Option<&'a JsonValue>)
    ensures
        r is Some <==> record_field(*v, name@, pos as int) is Some,
        r matches Some(x) ==> record_field(*v, name@, pos as int) == Some(*x),
{
    match v {
        JsonValue::Object(_) => v.get(name),
        JsonValue::Array(a) => if pos < a.len() {
            Some(&a[pos])
        } else {
            None
        },
        _ => None,
    }
}

/// Whether the value can be read as a record with fields `names`.
pub fn check_record_shape(v: &JsonValue, names: &[&str]) -> (r: bool)
    ensures
        r == record_shape(*v, names@.map_values(|s: &str| s@)),
{
    let ghost ns = names@.map_values(|s: &str| s@);
    match v {
        JsonValue::Object(_) => {
            let mut i: usize = 0;
            while i < names.len()
                invariant
                    i <= names@.len(),
                    ns == names@.map_values(|s: &str| s@),
                    forall|k: int| 0 <= k < i ==> #[trigger] unique_member(*v, ns[k]),
                decreases names@.len() - i,
            {
                if !has_unique_member(v, names[i]) {
                    assert(!unique_member(*v, ns[i as int]));
                    return false;
                }
                i += 1;
            }
            true
        },
        JsonValue::Array(a) => a.len() <= names.len(),
        _ => false,
    }
}

} // verus!
