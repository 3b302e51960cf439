//! The wall clock, as far as the core reads it.

use std::time::{Duration, SystemTime, SystemTimeError, UNIX_EPOCH};
use vstd::prelude::*;

verus! {

/// A reading of the system clock, carried through unopened.
#[verifier::external_type_specification]
#[verifier::external_body]
pub struct ExSystemTime(SystemTime);

/// The error of a clock reading that lies before the reference point.
#[verifier::external_type_specification]
#[verifier::external_body]
pub struct ExSystemTimeError(SystemTimeError);

/// The RFC 3339 text of the instant `seconds` and `nanos` after the Unix
/// epoch in UTC, as `chrono` renders it; `None` for an instant that `chrono`
/// cannot hold.
pub uninterp spec fn rfc3339_text(seconds: i64, nanos: u32) -> Option<Seq<char>>;

/// Calls `SystemTime::now`. Nothing is claimed of the reading.
#[verifier::external_body]
fn system_now() -> (now: SystemTime) {
    SystemTime::now()
}

/// Calls `SystemTime::duration_since` with the Unix epoch. Nothing is
/// claimed of the result: the clock may stand before the epoch.
#[verifier::external_body]
fn since_unix_epoch(now: &SystemTime) -> (elapsed: Result<Duration, SystemTimeError>) {
    now.duration_since(UNIX_EPOCH)
}

/// Calls `Duration::as_secs`. Nothing is claimed of the number.
#[verifier::external_body]
fn whole_seconds(elapsed: &Duration) -> (seconds: u64) {
    elapsed.as_secs()
}

/// Calls `Duration::subsec_nanos`. Nothing is claimed of the number.
#[verifier::external_body]
fn subsec_nanos(elapsed: &Duration) -> (nanos: u32) {
    elapsed.subsec_nanos()
}

/// Calls `chrono::DateTime::from_timestamp` and renders the instant with
/// `to_rfc3339`.
///
/// Trusted: the text is a function of the two numbers. An instant out of
/// range gives `None`; the call reads no clock.
#[verifier::external_body]
fn rfc3339(seconds: i64, nanos: u32) -> (text: Option<String>)
    ensures
        text matches Some(t) ==> rfc3339_text(seconds, nanos) == Some(t@),
        text is None ==> rfc3339_text(seconds, nanos) is None,
{
    match chrono::DateTime::from_timestamp(seconds, nanos) {
        Some(instant) => Some(instant.to_rfc3339()),
        None => None,
    }
}

/// The RFC 3339 text of an instant after the Unix epoch, where it has one.
pub open spec fn rendered(seconds: u64, nanos: u32) -> Option<Seq<char>> {
    if seconds <= i64::MAX {
        rfc3339_text(seconds as i64, nanos)
    } else {
        None
    }
}

/// Renders an instant after the Unix epoch as RFC 3339 text in UTC.
pub fn render(seconds: u64, nanos: u32) -> (text: Option<String>)
    ensures
        text matches Some(t) ==> rendered(seconds, nanos) == Some(t@),
        text is None ==> rendered(seconds, nanos) is None,
{
    if seconds <= i64::MAX as u64 {
        rfc3339(seconds as i64, nanos)
    } else {
        None
    }
}

/// Reads a comparison of the clock with the Unix epoch: the whole seconds
/// and the nanoseconds beyond them that have passed, where the clock stands
/// at or after the epoch, and no time where it stands before.
pub fn epoch_time(reading: Result<Duration, SystemTimeError>) -> (time: Option<(u64, u32)>)
    ensures
        time is Some <==> reading is Ok,
{
    match reading {
        Ok(elapsed) => Some((whole_seconds(&elapsed), subsec_nanos(&elapsed))),
        Err(_) => None,
    }
}

/// Whole seconds and nanoseconds since the Unix epoch, or `None` where the
/// clock stands before it.
pub(crate) fn unix_time() -> (time: Option<(u64, u32)>) {
    let now = system_now();
    epoch_time(since_unix_epoch(&now))
}

/// Whole seconds since the Unix epoch, or `None` where the clock stands
/// before it.
pub(crate) fn unix_seconds() -> (seconds: Option<u64>) {
    match unix_time() {
        Some((seconds, _)) => Some(seconds),
        None => None,
    }
}

/// Reads a comparison of the clock with the Unix epoch: the whole seconds
/// that have passed, where the clock stands at or after the epoch, and no
/// time where it stands before.
pub fn epoch_seconds(reading: Result<Duration, SystemTimeError>) -> (seconds: Option<u64>)
    ensures
        seconds is Some <==> reading is Ok,
{
    match epoch_time(reading) {
        Some((seconds, _)) => Some(seconds),
        None => None,
    }
}

/// The time that a clock reading stands for in a decision: the reading
/// itself, and the epoch for a clock that stands before the epoch.
pub open spec fn time_of(reading: Option<u64>) -> u64 {
    match reading {
        Some(seconds) => seconds,
        None => 0,
    }
}

/// The time that a clock reading stands for in a decision.
pub fn decision_time(reading: Option<u64>) -> (now: u64)
    ensures
        now == time_of(reading),
{
    match reading {
        Some(seconds) => seconds,
        None => 0,
    }
}

/// The instant that a clock reading stands for: the reading itself, and the
/// epoch for a clock that stands before the epoch.
pub open spec fn instant_of(reading: Option<(u64, u32)>) -> (u64, u32) {
    match reading {
        Some(time) => time,
        None => (0, 0),
    }
}

/// The instant that a clock reading stands for.
pub fn decision_instant(reading: Option<(u64, u32)>) -> (instant: (u64, u32))
    ensures
        instant == instant_of(reading),
{
    match reading {
        Some(time) => time,
        None => (0, 0),
    }
}

} // verus!
