//! Time: reading RFC 3339 timestamps (`chrono`) and the sub-second part
//! of the current time (`std::time`).

use vstd::prelude::*;

verus! {

/// The Unix time, in whole seconds, that an RFC 3339 date-time text denotes,
/// or `None` when the text is not an RFC 3339 date-time.
pub uninterp spec fn rfc3339_seconds(s: Seq<char>) -> Option<i64>;

/// Parses an RFC 3339 date-time into Unix seconds.
///
/// Calls `chrono::DateTime::parse_from_rfc3339` and reads `timestamp()` of
/// the result.  Trusted: the result is `rfc3339_seconds` of the text, a pure
/// function of it.
#[verifier::external_body]
pub(crate) fn parse_ts(s: &str) -> (r: Option<i64>)
    ensures
        r == rfc3339_seconds(s@),
{
    match chrono::DateTime::parse_from_rfc3339(s) {
        Ok(dt) => Some(dt.timestamp()),
        Err(_) => None,
    }
}

#[verifier::external_type_specification]
#[verifier::external_body]
pub struct ExSystemTime(std::time::SystemTime);

/// Calls `std::time::SystemTime::now`.  Nothing is stated of the result:
/// it is the clock's reading.
#[verifier::external_body]
fn system_now() -> std::time::SystemTime {
    std::time::SystemTime::now()
}

/// Calls `SystemTime::duration_since(UNIX_EPOCH)`; its error (the clock
/// reads before 1970) becomes `None`.  Nothing is stated of the result: it
/// depends on the clock's reading.
#[verifier::external_body]
fn since_unix_epoch(t: &std::time::SystemTime) -> Option<std::time::Duration> {
    t.duration_since(std::time::UNIX_EPOCH).ok()
}

/// Calls `Duration::subsec_nanos`.  Trusted: the fractional part of a
/// second, below one billion, as std documents.
#[verifier::external_body]
fn subsec_nanos_of(d: &std::time::Duration) -> (r: u32)
    ensures
        r < 1_000_000_000,
{
    d.subsec_nanos()
}

/// The sub-second part, in nanoseconds, of the current time (0 when the
/// clock reads before the Unix epoch).
pub(crate) fn now_subsec_nanos() -> (r: u32)
    ensures
        r < 1_000_000_000,
{
    let now = system_now();
    match since_unix_epoch(&now) {
        Some(d) => subsec_nanos_of(&d),
        None => 0,
    }
}

} // verus!
