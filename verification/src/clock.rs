//! The machine's clock, read as Unix seconds, and the RFC 3339 text of an
//! instant.
use std::time::{Duration, SystemTime, SystemTimeError};
use vstd::prelude::*;

verus! {

/// `std::time::SystemTime`, carried through as it is.
#[verifier::external_type_specification]
#[verifier::external_body]
pub struct ExSystemTime(SystemTime);

/// `std::time::SystemTimeError`, carried through as it is.
#[verifier::external_type_specification]
#[verifier::external_body]
pub struct ExSystemTimeError(SystemTimeError);

/// Calls `SystemTime::now()`. Nothing is claimed of the instant: it is
/// whatever the machine's clock reads.
#[verifier::external_body]
fn system_now() -> SystemTime {
    SystemTime::now()
}

/// Calls `duration_since(UNIX_EPOCH)` on an instant: the time elapsed since
/// the Unix epoch, or an error for an instant before it. Nothing is claimed
/// of the values, which this library does not inspect.
#[verifier::external_body]
fn elapsed_since_epoch(t: &SystemTime) -> Result<Duration, SystemTimeError> {
    t.duration_since(std::time::UNIX_EPOCH)
}

/// Calls `Duration::as_secs`: the whole seconds of a duration. Nothing is
/// claimed of the value, since a duration's content is not modelled here.
#[verifier::external_body]
fn whole_seconds(d: &Duration) -> u64 {
    d.as_secs()
}

/// The whole seconds elapsed since the Unix epoch on the machine's clock, or
/// 0 for a clock set before the epoch.
pub fn unix_time_now() -> u64 {
    let now = system_now();
    match elapsed_since_epoch(&now) {
        Ok(d) => whole_seconds(&d),
        Err(_) => 0,
    }
}

/// The last instant that RFC 3339 can write, 9999-12-31T23:59:59 UTC, in
/// seconds after the Unix epoch.
pub const LAST_RFC3339_SECS: u64 = 253_402_300_799;

/// What `chrono::DateTime::<Utc>::from_timestamp(secs, 0)` renders with
/// `to_rfc3339()`: the RFC 3339 text (such as `2015-05-15T00:00:00+00:00`)
/// of the instant `secs` seconds after the Unix epoch, in UTC.
pub uninterp spec fn rfc3339_of_unix_secs(secs: int) -> Seq<char>;

/// Calls `chrono::DateTime::from_timestamp(secs, 0)` and renders the instant
/// with `to_rfc3339()`. `from_timestamp` gives `None` only for a day count
/// outside `i32` or a date outside chrono's years (beyond ±262 000): every
/// instant from the epoch to the end of year 9999 is rendered.
#[verifier::external_body]
fn rfc3339_from_unix_secs(secs: i64) -> (s: Option<String>)
    ensures
        0 <= secs <= LAST_RFC3339_SECS ==> s is Some,
        s matches Some(t) ==> t@ == rfc3339_of_unix_secs(secs as int),
{
    match chrono::DateTime::from_timestamp(secs, 0) {
        Some(instant) => Some(instant.to_rfc3339()),
        None => None,
    }
}

/// The instant `secs` seconds after the Unix epoch, capped at the last
/// instant RFC 3339 can write.
pub open spec fn capped_secs(secs: int) -> int {
    if secs > LAST_RFC3339_SECS { LAST_RFC3339_SECS as int } else { secs }
}

/// The RFC 3339 text of the instant `secs` seconds after the Unix epoch, to
/// the second; an instant after year 9999 is written as the last second of
/// that year.
pub fn rfc3339_text_at(secs: u64) -> (t: String)
    ensures
        t@ == rfc3339_of_unix_secs(capped_secs(secs as int)),
{
    let capped: u64 = if secs > LAST_RFC3339_SECS { LAST_RFC3339_SECS } else { secs };
    match rfc3339_from_unix_secs(capped as i64) {
        Some(text) => text,
        None => String::new(),
    }
}

/// The present time of the machine's clock as RFC 3339 text, to the second.
/// A clock set before the Unix epoch reads as the epoch.
pub fn now_rfc3339() -> (t: String)
    ensures
        exists|secs: u64| t@ == #[trigger] rfc3339_of_unix_secs(capped_secs(secs as int)),
{
    let secs = unix_time_now();
    let t = rfc3339_text_at(secs);
    assert(t@ == rfc3339_of_unix_secs(capped_secs(secs as int)));
    t
}

} // verus!
