//! The media disk cache: request routing, content types, usage accounting
//! and LRU eviction.
//!
//! - `thumb://…/<media_id>`: thumbnails (every grid tile);
//! - `full://…/<media_id>`: full-size images (only those opened in the viewer).
//!
//! A disk hit is served at once; a miss is downloaded from the Bluesky CDN,
//! saved and served.  When the usage passes the limit (2 GiB by default), the
//! files with the oldest modification time are removed until the usage is
//! back under 90% of the limit; a removed full-size file has its
//! `media.local_path` cleared (the metadata stays and the file can be
//! fetched again).  The shell does the file and network work.

use crate::text::{decimal_i64, owned, parse_i64};
use vstd::prelude::*;
use vstd::string::{StrSliceExecFns, StringSliceAdditionalSpecFns};

verus! {

pub const THUMB_SCHEME: &'static str = "thumb";
pub const FULL_SCHEME: &'static str = "full";

/// The default disk-cache limit: 2 GiB.
pub const DEFAULT_LIMIT: u64 = 2147483648;
/// Eviction goes down to this percentage of the limit.
pub const EVICT_TARGET_RATIO: u64 = 90;

// --- content types ---

/// Whether `b` starts with `p`.
pub open spec fn starts_with(b: Seq<u8>, p: Seq<u8>) -> bool {
    p.len() <= b.len() && b.take(p.len() as int) == p
}

/// The content type guessed from the first bytes of a file.
pub open spec fn content_type_of(b: Seq<u8>) -> Seq<char> {
    if starts_with(b, seq![0x89u8, 0x50u8, 0x4Eu8, 0x47u8]) {
        "image/png"@
    } else if starts_with(b, seq![0xFFu8, 0xD8u8, 0xFFu8]) {
        "image/jpeg"@
    } else if starts_with(b, seq![0x47u8, 0x49u8, 0x46u8, 0x38u8]) {
        "image/gif"@
    } else if b.len() > 12 && b.subrange(0, 4) == seq![0x52u8, 0x49u8, 0x46u8, 0x46u8]
        && b.subrange(8, 12) == seq![0x57u8, 0x45u8, 0x42u8, 0x50u8] {
        "image/webp"@
    } else {
        "application/octet-stream"@
    }
}

/// Guesses the content type from the first bytes: PNG, JPEG, GIF, WebP, or
/// `application/octet-stream`.
pub fn content_type(bytes: &[u8]) -> (r: &'static str)
    ensures
        r@ == content_type_of(bytes@),
{
    let n = bytes.len();
    if n >= 4 && bytes[0] == 0x89 && bytes[1] == 0x50 && bytes[2] == 0x4E && bytes[3] == 0x47 {
        assert(bytes@.take(4) =~= seq![0x89u8, 0x50u8, 0x4Eu8, 0x47u8]);
        return "image/png";
    }
    assert(!starts_with(bytes@, seq![0x89u8, 0x50u8, 0x4Eu8, 0x47u8])) by {
        if n >= 4 {
            assert(bytes@.take(4)[0] == bytes@[0]);
            assert(bytes@.take(4)[1] == bytes@[1]);
            assert(bytes@.take(4)[2] == bytes@[2]);
            assert(bytes@.take(4)[3] == bytes@[3]);
        }
    }
    if n >= 3 && bytes[0] == 0xFF && bytes[1] == 0xD8 && bytes[2] == 0xFF {
        assert(bytes@.take(3) =~= seq![0xFFu8, 0xD8u8, 0xFFu8]);
        return "image/jpeg";
    }
    assert(!starts_with(bytes@, seq![0xFFu8, 0xD8u8, 0xFFu8])) by {
        if n >= 3 {
            assert(bytes@.take(3)[0] == bytes@[0]);
            assert(bytes@.take(3)[1] == bytes@[1]);
            assert(bytes@.take(3)[2] == bytes@[2]);
        }
    }
    if n >= 4 && bytes[0] == 0x47 && bytes[1] == 0x49 && bytes[2] == 0x46 && bytes[3] == 0x38 {
        assert(bytes@.take(4) =~= seq![0x47u8, 0x49u8, 0x46u8, 0x38u8]);
        return "image/gif";
    }
    assert(!starts_with(bytes@, seq![0x47u8, 0x49u8, 0x46u8, 0x38u8])) by {
        if n >= 4 {
            assert(bytes@.take(4)[0] == bytes@[0]);
            assert(bytes@.take(4)[1] == bytes@[1]);
            assert(bytes@.take(4)[2] == bytes@[2]);
            assert(bytes@.take(4)[3] == bytes@[3]);
        }
    }
    if n > 12 && bytes[0] == 0x52 && bytes[1] == 0x49 && bytes[2] == 0x46 && bytes[3] == 0x46
        && bytes[8] == 0x57 && bytes[9] == 0x45 && bytes[10] == 0x42 && bytes[11] == 0x50 {
        assert(bytes@.subrange(0, 4) =~= seq![0x52u8, 0x49u8, 0x46u8, 0x46u8]);
        assert(bytes@.subrange(8, 12) =~= seq![0x57u8, 0x45u8, 0x42u8, 0x50u8]);
        return "image/webp";
    }
    assert(!(n > 12 && bytes@.subrange(0, 4) == seq![0x52u8, 0x49u8, 0x46u8, 0x46u8]
        && bytes@.subrange(8, 12) == seq![0x57u8, 0x45u8, 0x42u8, 0x50u8])) by {
        if n > 12 {
            assert(bytes@.subrange(0, 4)[0] == bytes@[0]);
            assert(bytes@.subrange(0, 4)[1] == bytes@[1]);
            assert(bytes@.subrange(0, 4)[2] == bytes@[2]);
            assert(bytes@.subrange(0, 4)[3] == bytes@[3]);
            assert(bytes@.subrange(8, 12)[0] == bytes@[8]);
            assert(bytes@.subrange(8, 12)[1] == bytes@[9]);
            assert(bytes@.subrange(8, 12)[2] == bytes@[10]);
            assert(bytes@.subrange(8, 12)[3] == bytes@[11]);
        }
    }
    "application/octet-stream"
}

// --- request paths ---

/// The text without its leading `/`s.
pub open spec fn strip_leading(s: Seq<char>) -> Seq<char>
    decreases s.len(),
{
    if s.len() > 0 && s[0] == '/' {
        strip_leading(s.drop_first())
    } else {
        s
    }
}

/// The text without its trailing `/`s.
pub open spec fn strip_trailing(s: Seq<char>) -> Seq<char>
    decreases s.len(),
{
    if s.len() > 0 && s.last() == '/' {
        strip_trailing(s.drop_last())
    } else {
        s
    }
}

/// What follows the last `/` (the whole text when there is none).
pub open spec fn last_segment(s: Seq<char>) -> Seq<char>
    decreases s.len(),
{
    if s.len() == 0 {
        s
    } else if s.last() == '/' {
        Seq::empty()
    } else {
        last_segment(s.drop_last()).push(s.last())
    }
}

/// The id segment of a request path: the last segment once the leading and
/// trailing `/`s are gone.
pub open spec fn id_segment(path: Seq<char>) -> Seq<char> {
    last_segment(strip_trailing(strip_leading(path)))
}

/// The last segment of a request path (leading and trailing `/`s ignored).
pub fn media_id_segment(path: &str) -> (r: &str)
    ensures
        r@ == id_segment(path@),
{
    let n = path.unicode_len();
    let ghost s = path@;
    let mut lo: usize = 0;
    assert(s.subrange(0, n as int) =~= s);
    while lo < n && path.get_char(lo) == '/'
        invariant
            n == s.len(),
            s == path@,
            lo <= n,
            strip_leading(s) == strip_leading(s.subrange(lo as int, n as int)),
        decreases n - lo,
    {
        assert(s.subrange(lo as int, n as int).drop_first() =~= s.subrange(lo + 1, n as int));
        lo += 1;
    }
    let mut hi: usize = n;
    while hi > lo && path.get_char(hi - 1) == '/'
        invariant
            n == s.len(),
            s == path@,
            lo <= hi <= n,
            strip_trailing(strip_leading(s)) == strip_trailing(s.subrange(lo as int, hi as int)),
        decreases hi - lo,
    {
        assert(s.subrange(lo as int, hi as int).drop_last() =~= s.subrange(lo as int, hi - 1));
        hi -= 1;
    }
    assert(strip_trailing(strip_leading(s)) == s.subrange(lo as int, hi as int));
    let mut k: usize = hi;
    assert(s.subrange(hi as int, hi as int) =~= Seq::<char>::empty());
    assert(s.subrange(lo as int, hi as int) + Seq::<char>::empty() =~= s.subrange(lo as int, hi as int));
    while k > lo && path.get_char(k - 1) != '/'
        invariant
            n == s.len(),
            s == path@,
            lo <= k <= hi <= n,
            last_segment(s.subrange(lo as int, hi as int)) == last_segment(
                s.subrange(lo as int, k as int),
            ) + s.subrange(k as int, hi as int),
        decreases k - lo,
    {
        let ghost t = s.subrange(lo as int, k as int);
        assert(t.drop_last() =~= s.subrange(lo as int, k - 1));
        assert(t.last() == s[k - 1]);
        assert(s.subrange(k - 1, hi as int) =~= seq![s[k - 1]] + s.subrange(k as int, hi as int));
        assert(last_segment(t) == last_segment(t.drop_last()).push(t.last()));
        assert(last_segment(t.drop_last()).push(t.last()) + s.subrange(k as int, hi as int)
            =~= last_segment(t.drop_last()) + s.subrange(k - 1, hi as int));
        k -= 1;
    }
    assert(last_segment(s.subrange(lo as int, k as int)) =~= Seq::<char>::empty());
    assert(Seq::<char>::empty() + s.subrange(k as int, hi as int) =~= s.subrange(k as int, hi as int));
    path.substring_char(k, hi)
}

/// The media id of a `thumb://` / `full://` request path.
pub fn parse_media_id(path: &str) -> (r: Option<i64>)
    ensures
        r == decimal_i64(id_segment(path@)),
{
    parse_i64(media_id_segment(path))
}

// --- serving ---

/// Which cache a request is for.
#[derive(Clone, Copy, PartialEq, Eq, Structural)]
pub enum CacheKind {
    Thumb,
    Full,
}

/// An answer to a `thumb://` / `full://` request.
pub struct Response {
    pub status: u16,
    pub content_type: &'static str,
    pub body: Vec<u8>,
}

/// 200 with the file's bytes and their content type.
pub fn serve_bytes(bytes: Vec<u8>) -> (r: Response)
    ensures
        r.status == 200,
        r.content_type@ == content_type_of(bytes@),
        r.body@ == bytes@,
{
    let ct = content_type(bytes.as_slice());
    Response { status: 200, content_type: ct, body: bytes }
}

fn text_response(status: u16, msg: &str) -> (r: Response)
    ensures
        r.status == status,
        r.content_type@ == "text/plain"@,
        r.body@ == msg.spec_bytes(),
{
    let mut body: Vec<u8> = Vec::new();
    let b = msg.as_bytes();
    let mut i: usize = 0;
    while i < b.len()
        invariant
            i <= b@.len(),
            b@ == msg.spec_bytes(),
            body@ == b@.take(i as int),
        decreases b@.len() - i,
    {
        body.push(b[i]);
        assert(b@.take(i + 1) =~= b@.take(i as int).push(b@[i as int]));
        i += 1;
    }
    assert(b@.take(b@.len() as int) =~= b@);
    Response { status, content_type: "text/plain", body }
}

/// 400: the path holds no media id.
pub fn bad_media_id() -> (r: Response)
    ensures
        r.status == 400,
        r.body@ == "bad media id".spec_bytes(),
{
    text_response(400, "bad media id")
}

/// 404: no such media, or no URL of this kind.
pub fn not_found() -> (r: Response)
    ensures
        r.status == 404,
        r.body@ == "not found".spec_bytes(),
{
    text_response(404, "not found")
}

/// 502: the CDN answered but the body could not be read.
pub fn download_error() -> (r: Response)
    ensures
        r.status == 502,
        r.body@ == "download error".spec_bytes(),
{
    text_response(502, "download error")
}

/// 502: the CDN request failed or did not succeed.
pub fn fetch_failed() -> (r: Response)
    ensures
        r.status == 502,
        r.body@ == "fetch failed".spec_bytes(),
{
    text_response(502, "fetch failed")
}

/// A served full-size file counts as used (its last use is recorded);
/// thumbnails are not tracked in the database.
pub fn records_use(kind: CacheKind) -> (r: bool)
    ensures
        r == (kind == CacheKind::Full),
{
    match kind {
        CacheKind::Full => true,
        CacheKind::Thumb => false,
    }
}

// --- usage accounting ---

/// The running usage estimate, the limit, and the eviction flag.
pub struct CacheAccount {
    usage: u64,
    limit: u64,
    evicting: bool,
}

impl CacheAccount {
    pub closed spec fn usage(&self) -> u64 {
        self.usage
    }

    pub closed spec fn spec_limit(&self) -> u64 {
        self.limit
    }

    pub closed spec fn evicting(&self) -> bool {
        self.evicting
    }

    /// Empty, with the default limit.
    pub fn new() -> (r: CacheAccount)
        ensures
            r.usage() == 0,
            r.spec_limit() == DEFAULT_LIMIT,
            !r.evicting(),
    {
        CacheAccount { usage: 0, limit: DEFAULT_LIMIT, evicting: false }
    }

    /// The limit in bytes.
    pub fn limit(&self) -> (r: u64)
        ensures
            r == self.spec_limit(),
    {
        self.limit
    }

    /// The usage estimate in bytes.
    pub fn usage_bytes(&self) -> (r: u64)
        ensures
            r == self.usage(),
    {
        self.usage
    }

    /// Sets the usage from a scan of the files.
    pub fn set_usage(&mut self, usage: u64)
        ensures
            final(self).usage() == usage,
            final(self).spec_limit() == old(self).spec_limit(),
            final(self).evicting() == old(self).evicting(),
    {
        self.usage = usage;
    }

    /// A file of `size` bytes was saved: the usage grows by it, and an
    /// eviction is due when the usage passes the limit and none is running.
    pub fn record_cached(&mut self, size: u64) -> (r: bool)
        requires
            old(self).usage() + size <= u64::MAX,
        ensures
            final(self).usage() == old(self).usage() + size,
            final(self).spec_limit() == old(self).spec_limit(),
            final(self).evicting() == old(self).evicting(),
            r == (final(self).usage() > final(self).spec_limit() && !old(self).evicting()),
    {
        self.usage = self.usage + size;
        self.usage > self.limit && !self.evicting
    }

    /// Claims the eviction: `false` (nothing changes) when one is running.
    pub fn begin_eviction(&mut self) -> (r: bool)
        ensures
            r == !old(self).evicting(),
            final(self).evicting(),
            final(self).usage() == old(self).usage(),
            final(self).spec_limit() == old(self).spec_limit(),
    {
        if self.evicting {
            false
        } else {
            self.evicting = true;
            true
        }
    }

    /// The eviction is over with `usage` bytes left.
    pub fn end_eviction(&mut self, usage: u64)
        ensures
            !final(self).evicting(),
            final(self).usage() == usage,
            final(self).spec_limit() == old(self).spec_limit(),
    {
        self.usage = usage;
        self.evicting = false;
    }
}

// --- eviction ---

/// A cached file as the eviction sees it (the shell keeps the path).
#[derive(Clone, Copy, PartialEq, Eq, Structural)]
pub struct EvictEntry {
    pub size: u64,
    /// Modification time (Unix seconds; 0 when unknown).
    pub mtime: u64,
    /// Whether it is a full-size file (its database record is then cleared).
    pub is_full: bool,
    pub media_id: i64,
}

/// The total size of the entries.
pub open spec fn total_of(es: Seq<EvictEntry>) -> int
    decreases es.len(),
{
    if es.len() == 0 {
        0
    } else {
        total_of(es.drop_last()) + es.last().size
    }
}

/// The total size of the files.
pub fn total_size(entries: &Vec<EvictEntry>) -> (r: u64)
    requires
        total_of(entries@) <= u64::MAX,
    ensures
        r == total_of(entries@),
{
    let mut t: u64 = 0;
    let mut i: usize = 0;
    while i < entries.len()
        invariant
            i <= entries@.len(),
            total_of(entries@) <= u64::MAX,
            t == total_of(entries@.take(i as int)),
        decreases entries@.len() - i,
    {
        assert(entries@.take(i + 1).drop_last() =~= entries@.take(i as int));
        proof {
            lemma_total_prefix_le(entries@, i + 1);
        }
        t = t + entries[i].size;
        i += 1;
    }
    assert(entries@.take(entries@.len() as int) =~= entries@);
    t
}

/// A prefix weighs no more than the whole.
proof fn lemma_total_prefix_le(es: Seq<EvictEntry>, n: int)
    requires
        0 <= n <= es.len(),
    ensures
        total_of(es.take(n)) <= total_of(es),
    decreases es.len() - n,
{
    if n < es.len() {
        assert(es.take(n + 1).drop_last() =~= es.take(n));
        lemma_total_prefix_le(es, n + 1);
    } else {
        assert(es.take(n) =~= es);
    }
}

/// The size eviction goes down to: 90% of the limit.
pub open spec fn target_of(limit: u64) -> u64 {
    (limit / 100 * EVICT_TARGET_RATIO) as u64
}

/// Entry `a` comes before entry `b` in eviction order: older first, and by
/// position among equally old ones (a stable sort by modification time).
pub open spec fn before(es: Seq<EvictEntry>, a: usize, b: usize) -> bool {
    es[a as int].mtime < es[b as int].mtime || (es[a as int].mtime == es[b as int].mtime && a < b)
}

/// `order` lists distinct positions of `es`, each entry before the next.
pub open spec fn sorted_order(es: Seq<EvictEntry>, order: Seq<usize>) -> bool {
    &&& forall|i: int| 0 <= i < order.len() ==> order[i] < es.len()
    &&& forall|i: int, j: int| 0 <= i < j < order.len() ==> before(es, order[i], order[j])
}

/// The eviction order of the files: every position once, oldest first
/// (stable among equal modification times).
pub fn eviction_order(entries: &Vec<EvictEntry>) -> (r: Vec<usize>)
    ensures
        r@.len() == entries@.len(),
        sorted_order(entries@, r@),
        forall|k: usize| k < entries@.len() ==> #[trigger] r@.contains(k),
{
    let mut order: Vec<usize> = Vec::new();
    let mut i: usize = 0;
    while i < entries.len()
        invariant
            i <= entries@.len(),
            order@.len() == i,
            forall|q: int| 0 <= q < order@.len() ==> order@[q] < i,
            sorted_order(entries@, order@),
            forall|k: usize| k < i ==> #[trigger] order@.contains(k),
        decreases entries@.len() - i,
    {
        let m = entries[i].mtime;
        let mut p: usize = order.len();
        while p > 0 && entries[order[p - 1]].mtime > m
            invariant
                p <= order@.len(),
                order@.len() == i,
                i < entries@.len(),
                m == entries@[i as int].mtime,
                forall|q: int| 0 <= q < order@.len() ==> order@[q] < i,
                forall|q: int| p <= q < order@.len() ==> entries@[order@[q] as int].mtime > m,
            decreases p,
        {
            p -= 1;
        }
        let ghost old_order = order@;
        order.insert(p, i);
        assert(order@ == old_order.insert(p as int, i));
        assert forall|a: int, b: int| 0 <= a < b < order@.len() implies before(
            entries@,
            order@[a],
            order@[b],
        ) by {
            if b < p {
            } else if b == p {
                assert(order@[a] == old_order[a]);
                if p > 0 {
                    assert(entries@[old_order[p - 1] as int].mtime <= m);
                    if a < p - 1 {
                        assert(before(entries@, old_order[a], old_order[p - 1]));
                    }
                }
            } else if a < p {
                assert(order@[b] == old_order[b - 1]);
            } else if a == p {
                assert(order@[b] == old_order[b - 1]);
            } else {
                assert(order@[a] == old_order[a - 1]);
                assert(order@[b] == old_order[b - 1]);
            }
        }
        assert forall|k: usize| k < i + 1 implies #[trigger] order@.contains(k) by {
            if k == i {
                assert(order@[p as int] == i);
            } else {
                assert(old_order.contains(k));
                let w = choose|w: int| 0 <= w < old_order.len() && old_order[w] == k;
                if w < p {
                    assert(order@[w] == k);
                } else {
                    assert(order@[w + 1] == k);
                }
            }
        }
        i += 1;
    }
    order
}

/// A running eviction: the files in eviction order, how far it got, the
/// usage left, the target, and the full-size files removed so far.
pub struct Eviction {
    order: Vec<usize>,
    pos: usize,
    total: u64,
    target: u64,
    cleared_full: Vec<i64>,
}

impl Eviction {
    pub closed spec fn order(&self) -> Seq<usize> {
        self.order@
    }

    pub closed spec fn pos(&self) -> int {
        self.pos as int
    }

    pub closed spec fn total(&self) -> u64 {
        self.total
    }

    pub closed spec fn target(&self) -> u64 {
        self.target
    }

    pub closed spec fn cleared_full(&self) -> Seq<i64> {
        self.cleared_full@
    }

    pub open spec fn wf(&self, es: Seq<EvictEntry>) -> bool {
        &&& self.order().len() == es.len()
        &&& 0 <= self.pos() <= self.order().len()
        &&& forall|i: int| 0 <= i < self.order().len() ==> self.order()[i] < es.len()
    }

    /// Starts an eviction over files totalling `total` bytes: `None` when the
    /// total is within the limit (nothing to remove); else the files in
    /// eviction order with the target of 90% of the limit.
    pub fn start(entries: &Vec<EvictEntry>, total: u64, limit: u64) -> (r: Option<Eviction>)
        ensures
            total <= limit ==> r is None,
            total > limit ==> (r matches Some(e) && e.wf(entries@) && e.pos() == 0 && e.total()
                == total && e.target() == target_of(limit) && sorted_order(entries@, e.order())
                && e.cleared_full().len() == 0),
    {
        if total <= limit {
            return None;
        }
        let order = eviction_order(entries);
        let target = limit / 100 * EVICT_TARGET_RATIO;
        Some(Eviction { order, pos: 0, total, target, cleared_full: Vec::new() })
    }

    /// The next file to remove: `None` once the usage is at or below the
    /// target, or every file was tried.
    pub fn next_victim(&self, entries: &Vec<EvictEntry>) -> (r: Option<usize>)
        requires
            self.wf(entries@),
        ensures
            (self.total() <= self.target() || self.pos() >= self.order().len()) ==> r is None,
            !(self.total() <= self.target() || self.pos() >= self.order().len()) ==> r == Some(
                self.order()[self.pos()],
            ),
    {
        if self.total <= self.target || self.pos >= self.order.len() {
            None
        } else {
            Some(self.order[self.pos])
        }
    }

    /// The file proposed by [`Eviction::next_victim`] was removed (`removed`)
    /// or could not be: the usage drops by its size only when removed, and a
    /// removed full-size file is listed for its database record to be cleared.
    pub fn record(&mut self, entries: &Vec<EvictEntry>, removed: bool)
        requires
            old(self).wf(entries@),
            old(self).pos() < old(self).order().len(),
            old(self).total() > old(self).target(),
            removed ==> entries@[old(self).order()[old(self).pos()] as int].size <= old(self).total(),
        ensures
            final(self).wf(entries@),
            final(self).order() == old(self).order(),
            final(self).target() == old(self).target(),
            final(self).pos() == old(self).pos() + 1,
            ({
                let e = entries@[old(self).order()[old(self).pos()] as int];
                &&& removed ==> final(self).total() == old(self).total() - e.size
                &&& !removed ==> final(self).total() == old(self).total()
                &&& (removed && e.is_full) ==> final(self).cleared_full() == old(
                    self,
                ).cleared_full().push(e.media_id)
                &&& !(removed && e.is_full) ==> final(self).cleared_full() == old(self).cleared_full()
            }),
    {
        let len = self.order.len();
        let idx = self.order[self.pos];
        let e = entries[idx];
        if removed {
            self.total = self.total - e.size;
            if e.is_full {
                self.cleared_full.push(e.media_id);
            }
        }
        self.pos = self.pos + 1;
    }

    /// The usage left.
    pub fn remaining(&self) -> (r: u64)
        ensures
            r == self.total(),
    {
        self.total
    }

    /// The full-size files removed, for their database records to be cleared.
    pub fn into_cleared(self) -> (r: Vec<i64>)
        ensures
            r@ == self.cleared_full(),
    {
        self.cleared_full
    }
}

/// Eviction removes the oldest files first and stops below the limit: the
/// files are offered in non-decreasing modification time, and the size it
/// goes down to is at most the limit.
pub proof fn law_eviction_oldest_first(es: Seq<EvictEntry>, order: Seq<usize>, limit: u64, i: int, j: int)
    requires
        sorted_order(es, order),
        0 <= i < j < order.len(),
    ensures
        es[order[i] as int].mtime <= es[order[j] as int].mtime,
        target_of(limit) <= limit,
{
    assert(before(es, order[i], order[j]));
}

/// Eviction goes down to 90% of the limit: the target is the limit divided
/// by 100, times 90, which lies within the 90 bytes below exactly 90% of it.
pub proof fn law_eviction_target_ninety_percent(limit: u64)
    ensures
        target_of(limit) == limit / 100 * 90,
        target_of(limit) * 100 <= limit * 90,
        limit * 90 < (target_of(limit) + 90) * 100,
{
    let q = limit / 100;
    let r = limit % 100;
    assert(limit == 100 * q + r && 0 <= r < 100) by (nonlinear_arith)
        requires
            q == limit / 100,
            r == limit % 100,
    ;
    assert(q * 90 <= limit) by (nonlinear_arith)
        requires
            limit == 100 * q + r,
            0 <= r,
            0 <= q,
    ;
    assert(target_of(limit) == q * 90);
    assert(q * 90 * 100 <= limit * 90 && limit * 90 < (q * 90 + 90) * 100) by (nonlinear_arith)
        requires
            limit == 100 * q + r,
            0 <= r < 100,
    ;
}

} // verus!
