//! What the library takes from the machine it runs on: fresh identifiers
//! and the current time.

use crate::models::Timestamp;
use std::fmt::Write;
use vstd::prelude::*;

verus! {

/// `uuid::Uuid::new_v4`: a random identifier, as its 128 bits. Which one
/// comes back is left open.
#[verifier::external_body]
pub(crate) fn fresh_id() -> u128 {
    uuid::Uuid::new_v4().as_u128()
}

/// `std::time::SystemTime::now` and `chrono::DateTime::from_timestamp`: the
/// current instant in universal time, as the seconds since the Unix epoch
/// and the nanoseconds past that second. Nothing comes back on a machine
/// whose clock stands before the epoch or beyond what the calendar holds.
/// Nothing is promised of the instant.
#[verifier::external_body]
pub(crate) fn current_time() -> Option<Timestamp> {
    let since = std::time::SystemTime::now().duration_since(std::time::UNIX_EPOCH).ok()?;
    let seconds = i64::try_from(since.as_secs()).ok()?;
    let now = chrono::DateTime::from_timestamp(seconds, since.subsec_nanos())?;
    Some(Timestamp { seconds: now.timestamp(), nanos: now.timestamp_subsec_nanos() })
}

/// The pattern `format` written out for the instant that lies `seconds`
/// seconds and `nanos` nanoseconds after the Unix epoch, in universal time;
/// nothing where the instant lies outside what the calendar holds or the
/// pattern cannot be written out for it.
pub uninterp spec fn formatted_time(format: Seq<char>, seconds: i64, nanos: u32) -> Option<
    Seq<char>,
>;

/// `chrono::DateTime::from_timestamp` and `DateTime::format`: the instant
/// `at`, in universal time, written after the pattern `format`. The text
/// depends on the pattern and the instant alone. Nothing comes back where
/// the instant lies outside what the calendar holds, or where the pattern
/// cannot be written out.
#[verifier::external_body]
pub(crate) fn format_instant(format: &str, at: Timestamp) -> (r: Option<String>)
    ensures
        r is Some <==> formatted_time(format@, at.seconds, at.nanos) is Some,
        r is Some ==> r.unwrap()@ == formatted_time(format@, at.seconds, at.nanos).unwrap(),
{
    let instant = chrono::DateTime::from_timestamp(at.seconds, at.nanos)?;
    let mut text = String::new();
    match write!(text, "{}", instant.format(format)) {
        Ok(()) => Some(text),
        Err(_) => None,
    }
}

} // verus!
