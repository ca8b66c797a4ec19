//! Bluesky XRPC request and response records, and their decoders.
//!
//! Each decoder reads a [`JsonValue`] the way the records' field declarations
//! read a response object: a required text field must be present and a
//! string; an optional field may be absent or `null`; unknown members are
//! ignored; a field of the wrong kind makes the whole record undecodable.
//! The session and error records also read the array of their field values
//! (in declaration order) and refuse an object that names a field twice;
//! the timeline records read objects only, taking the last of a repeated
//! member (as a `serde_json` object keeps it).

use crate::json::{
    check_record_shape, distinct_names, get_record_field, opt_ref, record_field, record_shape, str_field,
    str_of, take_members, JsonValue,
};
use crate::text::owned;
use vstd::prelude::*;

verus! {

/// Decoding of an optional text field: `None` when the field has the wrong
/// kind, `Some(None)` when it is absent or `null`, `Some(Some(s))` for a string.
pub open spec fn decode_opt_str(x: Option<JsonValue>) -> Option<Option<Seq<char>>> {
    match x {
        None => Some(None),
        Some(JsonValue::Null) => Some(None),
        Some(JsonValue::Str(s)) => Some(Some(s@)),
        _ => None,
    }
}

/// Decoding of an optional boolean field.
pub open spec fn decode_opt_bool(x: Option<JsonValue>) -> Option<Option<bool>> {
    match x {
        None => Some(None),
        Some(JsonValue::Null) => Some(None),
        Some(JsonValue::Bool(b)) => Some(Some(b)),
        _ => None,
    }
}

/// Decoding of an optional field that keeps any JSON value (`null` reads as absent).
pub open spec fn decode_opt_value(x: Option<JsonValue>) -> Option<JsonValue> {
    match x {
        Some(JsonValue::Null) => None,
        other => other,
    }
}

/// The text of a string value, copied.
pub fn string_of(v: Option<&JsonValue>) -> (r: Option<String>)
    ensures
        r.deep_view() == str_of(opt_ref(v)),
{
    match str_field(v) {
        Some(s) => Some(owned(s)),
        None => None,
    }
}

/// Decodes an optional text field.
pub fn opt_string_of(v: Option<&JsonValue>) -> (r: Option<Option<String>>)
    ensures
        r.deep_view() == decode_opt_str(opt_ref(v)),
{
    match v {
        None => Some(None),
        Some(JsonValue::Null) => Some(None),
        Some(JsonValue::Str(s)) => Some(Some(owned(s.as_str()))),
        _ => None,
    }
}

/// Decodes an optional boolean field.
pub fn opt_bool_of(v: Option<&JsonValue>) -> (r: Option<Option<bool>>)
    ensures
        r == decode_opt_bool(opt_ref(v)),
{
    match v {
        None => Some(None),
        Some(JsonValue::Null) => Some(None),
        Some(JsonValue::Bool(b)) => Some(Some(*b)),
        _ => None,
    }
}

/// Decodes an optional field that keeps any JSON value.
pub fn opt_value_of(v: Option<JsonValue>) -> (r: Option<JsonValue>)
    ensures
        r == decode_opt_value(v),
{
    match v {
        Some(JsonValue::Null) => None,
        other => other,
    }
}

/// The profile of an account as a timeline item carries it.
pub struct Author {
    pub did: String,
    pub handle: String,
    pub display_name: Option<String>,
    pub avatar: Option<String>,
}

/// The plain-value view of an [`Author`].
pub struct AuthorView {
    pub did: Seq<char>,
    pub handle: Seq<char>,
    pub display_name: Option<Seq<char>>,
    pub avatar: Option<Seq<char>>,
}

impl View for Author {
    type V = AuthorView;

    open spec fn view(&self) -> AuthorView {
        AuthorView {
            did: self.did@,
            handle: self.handle@,
            display_name: self.display_name.deep_view(),
            avatar: self.avatar.deep_view(),
        }
    }
}

/// The author a JSON object decodes to (`did`, `handle`, `displayName`, `avatar`).
pub open spec fn decode_author(v: JsonValue) -> Option<AuthorView> {
    let did = str_of(v.member("did"@));
    let handle = str_of(v.member("handle"@));
    let dn = decode_opt_str(v.member("displayName"@));
    let av = decode_opt_str(v.member("avatar"@));
    if did is Some && handle is Some && dn is Some && av is Some {
        Some(AuthorView { did: did->0, handle: handle->0, display_name: dn->0, avatar: av->0 })
    } else {
        None
    }
}

impl Author {
    /// Decodes an author object.
    pub fn from_json(v: &JsonValue) -> (r: Option<Author>)
        ensures
            r is Some <==> decode_author(*v) is Some,
            r matches Some(a) ==> decode_author(*v) == Some(a@),
    {
        let did = string_of(v.get("did"));
        let handle = string_of(v.get("handle"));
        let dn = opt_string_of(v.get("displayName"));
        let av = opt_string_of(v.get("avatar"));
        match (did, handle, dn, av) {
            (Some(did), Some(handle), Some(display_name), Some(avatar)) => Some(
                Author { did, handle, display_name, avatar },
            ),
            _ => None,
        }
    }
}

/// A post as a timeline item carries it.  `record`, `embed` and `labels` are
/// kept as JSON: the extractor reads them.
pub struct PostView {
    pub uri: String,
    pub cid: String,
    pub author: Author,
    pub record: Option<JsonValue>,
    pub embed: Option<JsonValue>,
    pub labels: Option<JsonValue>,
    pub indexed_at: String,
}

/// The plain-value view of a [`PostView`].
pub struct PostSpec {
    pub uri: Seq<char>,
    pub cid: Seq<char>,
    pub author: AuthorView,
    pub record: Option<JsonValue>,
    pub embed: Option<JsonValue>,
    pub labels: Option<JsonValue>,
    pub indexed_at: Seq<char>,
}

impl View for PostView {
    type V = PostSpec;

    open spec fn view(&self) -> PostSpec {
        PostSpec {
            uri: self.uri@,
            cid: self.cid@,
            author: self.author@,
            record: self.record,
            embed: self.embed,
            labels: self.labels,
            indexed_at: self.indexed_at@,
        }
    }
}

/// The post a JSON object decodes to.
pub open spec fn decode_post(v: JsonValue) -> Option<PostSpec> {
    let uri = str_of(v.member("uri"@));
    let cid = str_of(v.member("cid"@));
    let author = match v.member("author"@) {
        Some(a) => decode_author(a),
        None => None,
    };
    let indexed = str_of(v.member("indexedAt"@));
    if uri is Some && cid is Some && author is Some && indexed is Some {
        Some(
            PostSpec {
                uri: uri->0,
                cid: cid->0,
                author: author->0,
                record: decode_opt_value(v.member("record"@)),
                embed: decode_opt_value(v.member("embed"@)),
                labels: decode_opt_value(v.member("labels"@)),
                indexed_at: indexed->0,
            },
        )
    } else {
        None
    }
}

/// The member names of a post are pairwise distinct.
proof fn lemma_post_names_distinct(ns: Seq<&str>)
    requires
        ns.len() == 7,
        ns[0]@ == "uri"@,
        ns[1]@ == "cid"@,
        ns[2]@ == "author"@,
        ns[3]@ == "record"@,
        ns[4]@ == "embed"@,
        ns[5]@ == "labels"@,
        ns[6]@ == "indexedAt"@,
    ensures
        distinct_names(ns),
{
    reveal_strlit("uri");
    reveal_strlit("cid");
    reveal_strlit("author");
    reveal_strlit("record");
    reveal_strlit("embed");
    reveal_strlit("labels");
    reveal_strlit("indexedAt");
    assert(ns[0]@[0] != ns[1]@[0]);
    assert(ns[2]@[0] != ns[3]@[0]);
    assert(ns[2]@[0] != ns[5]@[0]);
    assert(ns[3]@[0] != ns[5]@[0]);
    assert(ns[0]@.len() == 3 && ns[1]@.len() == 3 && ns[2]@.len() == 6 && ns[3]@.len() == 6);
    assert(ns[4]@.len() == 5 && ns[5]@.len() == 6 && ns[6]@.len() == 9);
    assert(ns[0]@ != ns[1]@);
    assert(ns[0]@ != ns[2]@);
    assert(ns[0]@ != ns[3]@);
    assert(ns[0]@ != ns[4]@);
    assert(ns[0]@ != ns[5]@);
    assert(ns[0]@ != ns[6]@);
    assert(ns[1]@ != ns[2]@);
    assert(ns[1]@ != ns[3]@);
    assert(ns[1]@ != ns[4]@);
    assert(ns[1]@ != ns[5]@);
    assert(ns[1]@ != ns[6]@);
    assert(ns[2]@ != ns[3]@);
    assert(ns[2]@ != ns[4]@);
    assert(ns[2]@ != ns[5]@);
    assert(ns[2]@ != ns[6]@);
    assert(ns[3]@ != ns[4]@);
    assert(ns[3]@ != ns[5]@);
    assert(ns[3]@ != ns[6]@);
    assert(ns[4]@ != ns[5]@);
    assert(ns[4]@ != ns[6]@);
    assert(ns[5]@ != ns[6]@);
    assert forall|i: int, j: int| 0 <= i < j < ns.len() implies ns[i]@ != ns[j]@ by {
        if i == 0 {
            assert(j == 1 || j == 2 || j == 3 || j == 4 || j == 5 || j == 6);
        } else if i == 1 {
            assert(j == 2 || j == 3 || j == 4 || j == 5 || j == 6);
        } else if i == 2 {
            assert(j == 3 || j == 4 || j == 5 || j == 6);
        } else if i == 3 {
            assert(j == 4 || j == 5 || j == 6);
        } else if i == 4 {
            assert(j == 5 || j == 6);
        } else {
            assert(i == 5 && j == 6);
        }
    }
}

impl PostView {
    /// Decodes a post object, taking its JSON members.
    pub fn from_json(v: JsonValue) -> (r: Option<PostView>)
        ensures
            r is Some <==> decode_post(v) is Some,
            r matches Some(p) ==> decode_post(v) == Some(p@),
    {
        let ghost v0 = v;
        let names: [&str; 7] = ["uri", "cid", "author", "record", "embed", "labels", "indexedAt"];
        let ns: &[&str] = &names;
        proof {
            reveal_strlit("uri");
            reveal_strlit("cid");
            reveal_strlit("author");
            reveal_strlit("record");
            reveal_strlit("embed");
            reveal_strlit("labels");
            reveal_strlit("indexedAt");
            assert(ns@[0]@ == "uri"@ && ns@[1]@ == "cid"@ && ns@[2]@ == "author"@);
            assert(ns@[3]@ == "record"@ && ns@[4]@ == "embed"@ && ns@[5]@ == "labels"@);
            assert(ns@[6]@ == "indexedAt"@);
            lemma_post_names_distinct(ns@);
        }
        let slots = take_members(v, ns);
        let mut slots = match slots {
            Some(s) => s,
            None => return None,
        };
        let indexed = slots.pop().unwrap();
        let labels = slots.pop().unwrap();
        let embed = slots.pop().unwrap();
        let record = slots.pop().unwrap();
        let author = slots.pop().unwrap();
        let cid = slots.pop().unwrap();
        let uri = slots.pop().unwrap();
        let uri = string_of(uri.as_ref());
        let cid = string_of(cid.as_ref());
        let indexed_at = string_of(indexed.as_ref());
        let author = match author.as_ref() {
            Some(a) => Author::from_json(a),
            None => None,
        };
        match (uri, cid, author, indexed_at) {
            (Some(uri), Some(cid), Some(author), Some(indexed_at)) => Some(
                PostView {
                    uri,
                    cid,
                    author,
                    record: opt_value_of(record),
                    embed: opt_value_of(embed),
                    labels: opt_value_of(labels),
                    indexed_at,
                },
            ),
            _ => None,
        }
    }
}

/// One item of the home timeline: a post, and why it is there.
pub struct FeedViewPost {
    pub post: PostView,
    pub reason: Option<JsonValue>,
}

/// The plain-value view of a [`FeedViewPost`].
pub struct FeedSpec {
    pub post: PostSpec,
    pub reason: Option<JsonValue>,
}

impl View for FeedViewPost {
    type V = FeedSpec;

    open spec fn view(&self) -> FeedSpec {
        FeedSpec { post: self.post@, reason: self.reason }
    }
}

/// The timeline item a JSON object decodes to.
pub open spec fn decode_feed_item(v: JsonValue) -> Option<FeedSpec> {
    match v.member("post"@) {
        Some(p) => match decode_post(p) {
            Some(post) => Some(FeedSpec { post, reason: decode_opt_value(v.member("reason"@)) }),
            None => None,
        },
        None => None,
    }
}

impl FeedViewPost {
    /// Decodes a timeline item object, taking its JSON members.
    pub fn from_json(v: JsonValue) -> (r: Option<FeedViewPost>)
        ensures
            r is Some <==> decode_feed_item(v) is Some,
            r matches Some(f) ==> decode_feed_item(v) == Some(f@),
    {
        let names: [&str; 2] = ["post", "reason"];
        let ns: &[&str] = &names;
        proof {
            reveal_strlit("post");
            reveal_strlit("reason");
            assert(ns@[0]@ == "post"@ && ns@[1]@ == "reason"@);
            assert(ns@[0]@.len() == 4 && ns@[1]@.len() == 6);
            assert forall|i: int, j: int| 0 <= i < j < ns@.len() implies ns@[i]@ != ns@[j]@ by {
                assert(i == 0 && j == 1);
            }
        }
        let mut slots = match take_members(v, ns) {
            Some(s) => s,
            None => return None,
        };
        let reason = slots.pop().unwrap();
        let post = slots.pop().unwrap();
        match post {
            Some(p) => match PostView::from_json(p) {
                Some(post) => Some(FeedViewPost { post, reason: opt_value_of(reason) }),
                None => None,
            },
            None => None,
        }
    }
}

/// The body of `com.atproto.server.createSession`.
pub struct CreateSessionRequest<'a> {
    pub identifier: &'a str,
    pub password: &'a str,
}

/// The answer of `createSession` / `refreshSession` (the fields the app reads).
pub struct SessionResponse {
    pub did: String,
    pub handle: String,
    pub access_jwt: String,
    pub refresh_jwt: String,
    /// Present when the account is deactivated or similar.
    pub active: Option<bool>,
}

/// The plain-value view of a [`SessionResponse`].
pub struct SessionResponseView {
    pub did: Seq<char>,
    pub handle: Seq<char>,
    pub access_jwt: Seq<char>,
    pub refresh_jwt: Seq<char>,
    pub active: Option<bool>,
}

impl View for SessionResponse {
    type V = SessionResponseView;

    open spec fn view(&self) -> SessionResponseView {
        SessionResponseView {
            did: self.did@,
            handle: self.handle@,
            access_jwt: self.access_jwt@,
            refresh_jwt: self.refresh_jwt@,
            active: self.active,
        }
    }
}

/// The session answer a JSON value decodes to (fields `did`, `handle`,
/// `accessJwt`, `refreshJwt`, and `active`, which may be missing or `null`):
/// an object naming none of them twice, or the array of their values.
pub open spec fn decode_session_response(v: JsonValue) -> Option<SessionResponseView> {
    let did = str_of(record_field(v, "did"@, 0));
    let handle = str_of(record_field(v, "handle"@, 1));
    let access = str_of(record_field(v, "accessJwt"@, 2));
    let refresh = str_of(record_field(v, "refreshJwt"@, 3));
    let active = decode_opt_bool(record_field(v, "active"@, 4));
    if record_shape(v, seq!["did"@, "handle"@, "accessJwt"@, "refreshJwt"@, "active"@]) && did is Some
        && handle is Some && access is Some && refresh is Some && active is Some {
        Some(
            SessionResponseView {
                did: did->0,
                handle: handle->0,
                access_jwt: access->0,
                refresh_jwt: refresh->0,
                active: active->0,
            },
        )
    } else {
        None
    }
}

impl SessionResponse {
    /// Decodes a session answer.
    pub fn from_json(v: &JsonValue) -> (r: Option<SessionResponse>)
        ensures
            r is Some <==> decode_session_response(*v) is Some,
            r matches Some(x) ==> decode_session_response(*v) == Some(x@),
    {
        let names: [&str; 5] = ["did", "handle", "accessJwt", "refreshJwt", "active"];
        let ns: &[&str] = &names;
        assert(ns@.map_values(|s: &str| s@) =~= seq!["did"@, "handle"@, "accessJwt"@, "refreshJwt"@, "active"@]);
        if !check_record_shape(v, ns) {
            return None;
        }
        let did = string_of(get_record_field(v, "did", 0));
        let handle = string_of(get_record_field(v, "handle", 1));
        let access = string_of(get_record_field(v, "accessJwt", 2));
        let refresh = string_of(get_record_field(v, "refreshJwt", 3));
        let active = opt_bool_of(get_record_field(v, "active", 4));
        match (did, handle, access, refresh, active) {
            (Some(did), Some(handle), Some(access_jwt), Some(refresh_jwt), Some(active)) => Some(
                SessionResponse { did, handle, access_jwt, refresh_jwt, active },
            ),
            _ => None,
        }
    }
}

/// The answer of `com.atproto.server.getSession`.
pub struct GetSessionResponse {
    pub did: String,
    pub handle: String,
    pub active: Option<bool>,
}

/// The `getSession` answer a JSON value decodes to: `(did, handle,
/// active)`, from an object naming none of them twice or the array of their
/// values (`active` may be missing or `null`).
pub open spec fn decode_get_session(v: JsonValue) -> Option<(Seq<char>, Seq<char>, Option<bool>)> {
    let did = str_of(record_field(v, "did"@, 0));
    let handle = str_of(record_field(v, "handle"@, 1));
    let active = decode_opt_bool(record_field(v, "active"@, 2));
    if record_shape(v, seq!["did"@, "handle"@, "active"@]) && did is Some && handle is Some
        && active is Some {
        Some((did->0, handle->0, active->0))
    } else {
        None
    }
}

impl GetSessionResponse {
    /// Decodes a `getSession` answer.
    pub fn from_json(v: &JsonValue) -> (r: Option<GetSessionResponse>)
        ensures
            r is Some <==> decode_get_session(*v) is Some,
            r matches Some(x) ==> decode_get_session(*v) == Some((x.did@, x.handle@, x.active)),
    {
        let names: [&str; 3] = ["did", "handle", "active"];
        let ns: &[&str] = &names;
        assert(ns@.map_values(|s: &str| s@) =~= seq!["did"@, "handle"@, "active"@]);
        if !check_record_shape(v, ns) {
            return None;
        }
        let did = string_of(get_record_field(v, "did", 0));
        let handle = string_of(get_record_field(v, "handle", 1));
        let active = opt_bool_of(get_record_field(v, "active", 2));
        match (did, handle, active) {
            (Some(did), Some(handle), Some(active)) => Some(GetSessionResponse { did, handle, active }),
            _ => None,
        }
    }
}

/// An XRPC error body: `error` is the machine-readable name (`ExpiredToken`, ...).
pub struct XrpcErrorBody {
    pub error: String,
    pub message: Option<String>,
}

/// Decoding of a text field that defaults to the empty text when absent.
pub open spec fn decode_default_str(x: Option<JsonValue>) -> Option<Seq<char>> {
    match x {
        None => Some(Seq::empty()),
        Some(JsonValue::Str(s)) => Some(s@),
        _ => None,
    }
}

/// The error body a JSON value decodes to: `(error, message)`, from an
/// object naming neither twice or the array of their values; a missing
/// `error` is the empty text, a missing or `null` `message` is absent.
pub open spec fn decode_xrpc_error(v: JsonValue) -> Option<(Seq<char>, Option<Seq<char>>)> {
    let error = decode_default_str(record_field(v, "error"@, 0));
    let message = decode_opt_str(record_field(v, "message"@, 1));
    if record_shape(v, seq!["error"@, "message"@]) && error is Some && message is Some {
        Some((error->0, message->0))
    } else {
        None
    }
}

impl XrpcErrorBody {
    /// Decodes an XRPC error body.
    pub fn from_json(v: &JsonValue) -> (r: Option<XrpcErrorBody>)
        ensures
            r is Some <==> decode_xrpc_error(*v) is Some,
            r matches Some(x) ==> decode_xrpc_error(*v) == Some((x.error@, x.message.deep_view())),
    {
        let names: [&str; 2] = ["error", "message"];
        let ns: &[&str] = &names;
        assert(ns@.map_values(|s: &str| s@) =~= seq!["error"@, "message"@]);
        if !check_record_shape(v, ns) {
            return None;
        }
        let error = match get_record_field(v, "error", 0) {
            None => Some(String::new()),
            Some(JsonValue::Str(s)) => Some(owned(s.as_str())),
            _ => None,
        };
        let message = opt_string_of(get_record_field(v, "message", 1));
        match (error, message) {
            (Some(error), Some(message)) => Some(XrpcErrorBody { error, message }),
            _ => None,
        }
    }
}

} // verus!
