//! The wall clock, and calendar text for a point in time.

use std::fmt::Write;
use vstd::prelude::*;

verus! {

/// The calendar text that `pattern` gives for the instant `secs` seconds after
/// the Unix epoch, in UTC; `None` where the instant is outside the calendar's
/// range or the pattern is not a valid one.
pub uninterp spec fn utc_text(secs: int, pattern: Seq<char>) -> Option<Seq<char>>;

/// Seconds since the Unix epoch, read from the system clock.
///
/// Trusted: calls `chrono::Utc::now` and `chrono::DateTime::timestamp`.
/// Nothing is claimed of the value: two calls may differ. `Utc::now` gives
/// up on a machine whose clock stands before 1970.
#[verifier::external_body]
pub(crate) fn unix_now() -> (secs: i64) {
    chrono::Utc::now().timestamp()
}

/// Renders an instant with a `strftime` pattern, in UTC.
///
/// Trusted: calls `chrono::DateTime::from_timestamp`, which gives `None` for
/// an instant out of range, and `chrono::DateTime::format`, whose output
/// depends on the instant and the pattern alone; an invalid pattern makes
/// the formatter report an error, which comes back as `None`.
#[verifier::external_body]
pub(crate) fn utc_stamp(secs: i64, pattern: &str) -> (r: Option<String>)
    ensures
        r.deep_view() == utc_text(secs as int, pattern@),
{
    let instant = chrono::DateTime::from_timestamp(secs, 0)?;
    let mut out = String::new();
    match write!(out, "{}", instant.format(pattern)) {
        Ok(()) => Some(out),
        Err(_) => None,
    }
}

} // verus!
