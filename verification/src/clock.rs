//! Wall-clock readings in milliseconds since the Unix epoch.
use vstd::prelude::*;

use chrono::{DateTime, Utc};
use std::time::{Duration, SystemTime, SystemTimeError, UNIX_EPOCH};

verus! {

#[verifier::external_type_specification]
#[verifier::external_body]
pub struct ExSystemTime(SystemTime);

#[verifier::external_type_specification]
#[verifier::external_body]
pub struct ExSystemTimeError(SystemTimeError);

/// Calls `std::time::SystemTime::now`. The reading is the machine's clock:
/// nothing is claimed of it.
#[verifier::external_body]
fn system_time_now() -> SystemTime {
    SystemTime::now()
}

/// Calls `SystemTime::duration_since` with `UNIX_EPOCH`: the time elapsed since
/// the epoch, or an error where the clock reads an earlier instant. Nothing is
/// claimed of which of the two comes back.
#[verifier::external_body]
fn elapsed_since_unix_epoch(t: &SystemTime) -> Result<Duration, SystemTimeError> {
    t.duration_since(UNIX_EPOCH)
}

/// Calls `Duration::as_secs`: the whole seconds in `d`. A `Duration` is
/// opaque here, so nothing is claimed of the number.
#[verifier::external_body]
fn whole_secs(d: &Duration) -> u64 {
    d.as_secs()
}

/// Calls `Duration::subsec_nanos`: the nanoseconds of `d` past its whole
/// seconds, which std documents as always less than one billion.
#[verifier::external_body]
fn subsec_nanos(d: &Duration) -> (n: u32)
    ensures
        n < 1_000_000_000,
{
    d.subsec_nanos()
}

/// Calls chrono's `DateTime::<Utc>::from_timestamp(secs, nanos)` and reads the
/// instant back with `DateTime::timestamp_millis`; the `DateTime` in between
/// never leaves this body. chrono documents that `from_timestamp`
/// round-trips with the timestamp and its sub-second nanoseconds, and gives
/// `None` only on an invalid nanosecond count or a number of seconds out of
/// range (its source: dates within the years -262143..=262142, so any
/// `0 <= secs <= 8_000_000_000_000` is in range). For nanoseconds below one
/// billion the milliseconds are then `secs * 1000 + nanos / 1_000_000`.
/// Nothing is claimed for a larger nanosecond count (a leap second).
#[verifier::external_body]
fn utc_timestamp_millis(secs: i64, nanos: u32) -> (r: Option<i64>)
    ensures
        nanos < 1_000_000_000 && r is Some ==> r.unwrap() == secs * 1000 + nanos / 1_000_000,
        nanos < 1_000_000_000 && 0 <= secs <= 8_000_000_000_000 ==> r is Some,
{
    DateTime::<Utc>::from_timestamp(secs, nanos).map(|t| t.timestamp_millis())
}

/// The timestamp that a millisecond count since the epoch gives: the count cut
/// to its low 64 bits, and 0 where the clock could not be read against the
/// epoch.
pub open spec fn spec_timestamp_from_millis(millis: Option<u128>) -> u64 {
    match millis {
        Some(m) => m as u64,
        None => 0,
    }
}

/// Turns an optional millisecond count into a timestamp, cutting it to 64 bits.
pub fn timestamp_from_millis(millis: Option<u128>) -> (t: u64)
    ensures
        t == spec_timestamp_from_millis(millis),
{
    match millis {
        Some(m) => m as u64,
        None => 0,
    }
}

/// Reinterprets a signed millisecond count as unsigned, as `as u64` does
/// (a negative count wraps around).
pub fn millis_as_unsigned(ms: i64) -> (t: u64)
    ensures
        t == ms as u64,
{
    ms as u64
}

/// The whole seconds and sub-second nanoseconds of a reading of the time
/// elapsed since the epoch; `None` where the clock read an earlier instant.
pub fn elapsed_parts(r: Result<Duration, SystemTimeError>) -> (parts: Option<(u64, u32)>)
    ensures
        r is Err ==> parts is None,
        r is Ok ==> parts is Some && parts.unwrap().1 < 1_000_000_000,
{
    match r {
        Ok(d) => Some((whole_secs(&d), subsec_nanos(&d))),
        Err(_) => None,
    }
}

/// The whole milliseconds in `secs` seconds and `nanos` nanoseconds.
pub open spec fn spec_millis_of(secs: u64, nanos: u32) -> int {
    secs * 1000 + nanos / 1_000_000
}

/// The whole milliseconds in `secs` seconds and `nanos` nanoseconds (what
/// `Duration::as_millis` gives for a duration with these parts).
pub fn millis_of(secs: u64, nanos: u32) -> (m: u128)
    ensures
        m == spec_millis_of(secs, nanos),
{
    secs as u128 * 1000 + (nanos / 1_000_000) as u128
}

/// The system-clock timestamp of a reading split into seconds and
/// nanoseconds since the epoch: its whole milliseconds cut to 64 bits, and 0
/// where there is no reading.
pub open spec fn spec_timestamp_of(parts: Option<(u64, u32)>) -> u64 {
    match parts {
        Some((secs, nanos)) => spec_timestamp_from_millis(Some(spec_millis_of(secs, nanos) as u128)),
        None => 0,
    }
}

/// The system-clock timestamp of a reading split into seconds and
/// nanoseconds since the epoch.
pub fn timestamp_of(parts: Option<(u64, u32)>) -> (t: u64)
    ensures
        t == spec_timestamp_of(parts),
{
    let millis = match parts {
        Some((secs, nanos)) => Some(millis_of(secs, nanos)),
        None => None,
    };
    timestamp_from_millis(millis)
}

/// Milliseconds since the Unix epoch by the system clock, cut to 64 bits; 0
/// where the clock reads before the epoch.
pub fn get_time() -> u64 {
    let clock = system_time_now();
    timestamp_of(elapsed_parts(elapsed_since_unix_epoch(&clock)))
}

/// Milliseconds since the Unix epoch, by chrono's count, of the instant
/// `secs` seconds and `nanos` nanoseconds after the epoch; 0 where chrono has
/// no instant for it (which is never so within about 250,000 years).
pub fn utc_millis(secs: u64, nanos: u32) -> (t: u64)
    ensures
        nanos < 1_000_000_000 ==> t == 0 || t == secs * 1000 + nanos / 1_000_000,
        nanos < 1_000_000_000 ==> t <= i64::MAX,
        nanos < 1_000_000_000 && secs <= 8_000_000_000_000 ==> t == secs * 1000 + nanos
            / 1_000_000,
        nanos < 1_000_000_000 && secs <= 8_000_000_000_000 ==> t == spec_timestamp_of(
            Some((secs, nanos)),
        ),
{
    if secs > 0x7fff_ffff_ffff_ffffu64 {
        return 0;
    }
    match utc_timestamp_millis(secs as i64, nanos) {
        Some(ms) => millis_as_unsigned(ms),
        None => 0,
    }
}

/// The chrono count of a reading split into seconds and nanoseconds since
/// the epoch; 0 where there is no reading. Within chrono's range it is the
/// system-clock timestamp of the same reading.
pub fn utc_timestamp_of(parts: Option<(u64, u32)>) -> (t: u64)
    ensures
        parts is None ==> t == 0,
        parts is Some && parts.unwrap().1 < 1_000_000_000 ==> t <= i64::MAX && (t == 0 || t
            == spec_millis_of(parts.unwrap().0, parts.unwrap().1)),
        parts is Some && parts.unwrap().1 < 1_000_000_000 && parts.unwrap().0
            <= 8_000_000_000_000 ==> t == spec_timestamp_of(parts),
{
    match parts {
        Some((secs, nanos)) => utc_millis(secs, nanos),
        None => 0,
    }
}

/// Milliseconds since the Unix epoch by chrono's UTC count of the system
/// clock: a count that fits in an `i64`; 0 where the clock reads before the
/// epoch or beyond the instants chrono can hold.
pub fn now() -> (t: u64)
    ensures
        t <= i64::MAX,
{
    let clock = system_time_now();
    utc_timestamp_of(elapsed_parts(elapsed_since_unix_epoch(&clock)))
}

} // verus!
