//! Instants as microseconds since the Unix epoch, and the time window's cutoff.
use vstd::prelude::*;

verus! {

/// Microseconds in one minute.
pub const MICROS_PER_MINUTE: i64 = 60_000_000;

/// The instant, in microseconds since the Unix epoch, that an RFC 3339 text
/// denotes, or `None` where the text is not such a timestamp.
pub uninterp spec fn rfc3339_micros(text: Seq<char>) -> Option<i64>;

/// Relies on `chrono::DateTime::parse_from_rfc3339` and
/// `DateTime::timestamp_micros`: the instant depends on the text alone.
#[verifier::external_body]
pub(crate) fn parse_rfc3339(text: &str) -> (r: Option<i64>)
    ensures
        r == rfc3339_micros(text@),
{
    chrono::DateTime::parse_from_rfc3339(text).ok().map(|t| t.timestamp_micros())
}

/// Relies on `std::time::SystemTime::duration_since` and
/// `chrono::DateTime::from_timestamp`: the current instant, of which nothing is
/// known beforehand; `None` where the clock reads before the Unix epoch or
/// beyond what chrono represents.
#[verifier::external_body]
pub(crate) fn now_micros() -> (r: Option<i64>) {
    std::time::SystemTime::now().duration_since(std::time::UNIX_EPOCH).ok().and_then(
        |d| chrono::DateTime::from_timestamp(i64::try_from(d.as_secs()).ok()?, d.subsec_nanos()),
    ).map(|t| t.timestamp_micros())
}

/// The cutoff of a window of `minutes` minutes that ends at `now`, bounded below
/// by the earliest representable instant.
pub open spec fn cutoff_of(now: i64, minutes: u32) -> int {
    let c = now as int - minutes as int * MICROS_PER_MINUTE as int;
    if c < i64::MIN as int {
        i64::MIN as int
    } else {
        c
    }
}

/// The earliest instant that a window of `minutes` minutes ending at `now` admits.
pub fn cutoff_instant(now: i64, minutes: u32) -> (r: i64)
    ensures
        r as int == cutoff_of(now, minutes),
{
    let span: i64 = minutes as i64 * MICROS_PER_MINUTE;
    if now < i64::MIN + span {
        i64::MIN
    } else {
        now - span
    }
}

} // verus!
