//! Timestamp parsing and duration computation.
//!
//! RFC 3339 parsing is delegated to chrono; the value of a parsed timestamp
//! is named by an uninterpreted function of the characters, and everything
//! derived from timestamps (durations, speed) is verified in terms of that
//! name.

use vstd::prelude::*;

verus! {

/// The instant an RFC 3339 string denotes, in milliseconds since the Unix
/// epoch, or nothing where the string is not a valid RFC 3339 date-and-time.
/// Both the success of parsing and the instant depend on the characters
/// alone.
pub uninterp spec fn rfc3339_millis(s: Seq<char>) -> Option<i64>;

/// Relies on chrono's `DateTime::parse_from_rfc3339` and
/// `DateTime::timestamp_millis`: parsing a timestamp string either fails or
/// yields one instant, and both outcomes are functions of the characters
/// alone; neither call panics.
#[verifier::external_body]
pub(crate) fn parse_timestamp_millis(s: &str) -> (r: Option<i64>)
    ensures
        r == rfc3339_millis(s@),
{
    match chrono::DateTime::parse_from_rfc3339(s) {
        Ok(dt) => Some(dt.timestamp_millis()),
        Err(_) => None,
    }
}

/// The milliseconds from `earlier` to `later` where both parse and the
/// duration is positive; `None` where either fails to parse or the duration
/// is zero or negative.
pub open spec fn elapsed_millis_spec(earlier: Seq<char>, later: Seq<char>) -> Option<int> {
    match (rfc3339_millis(earlier), rfc3339_millis(later)) {
        (Some(a), Some(b)) => if a < b {
            Some(b - a)
        } else {
            None
        },
        _ => None,
    }
}

/// The positive duration between two timestamps, in milliseconds, or `None`
/// where either fails to parse or the duration is zero or negative.
pub fn elapsed_millis(earlier: &str, later: &str) -> (r: Option<u64>)
    ensures
        r is Some <==> elapsed_millis_spec(earlier@, later@) is Some,
        r matches Some(ms) ==> ms == elapsed_millis_spec(earlier@, later@)->0,
{
    let a = parse_timestamp_millis(earlier);
    let b = parse_timestamp_millis(later);
    match (a, b) {
        (Some(a), Some(b)) => {
            if a < b {
                Some((b as i128 - a as i128) as u64)
            } else {
                None
            }
        },
        _ => None,
    }
}

} // verus!
