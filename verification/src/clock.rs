//! Time as the library reads it from std: wall-clock milliseconds, monotonic
//! instants and durations.

use vstd::prelude::*;
use std::time::{Duration, Instant, SystemTime, SystemTimeError, UNIX_EPOCH};

verus! {

#[verifier::external_type_specification]
#[verifier::external_body]
pub struct ExInstant(std::time::Instant);

/// `Duration::clone`: `Duration` is `Copy`, and its clone is the same
/// value.
pub assume_specification[ <std::time::Duration as Clone>::clone ](d: &Duration) -> (r: Duration)
    ensures
        r == *d,
;

/// Length of a `Duration` in nanoseconds, as `Duration::as_nanos` returns it.
pub uninterp spec fn duration_nanos(d: Duration) -> nat;

#[verifier::external_type_specification]
#[verifier::external_body]
pub struct ExSystemTime(std::time::SystemTime);

#[verifier::external_type_specification]
#[verifier::external_body]
pub struct ExSystemTimeError(std::time::SystemTimeError);

/// The present time of the system clock.
///
/// Calls `SystemTime::now`; nothing is promised of the value.
#[verifier::external_body]
fn system_now() -> (r: SystemTime) {
    SystemTime::now()
}

/// How long after the Unix epoch `t` lies, or an error when `t` lies
/// before it.
///
/// Calls `SystemTime::duration_since(UNIX_EPOCH)`. The clock's reading is
/// opaque here, so nothing is stated of which of the two comes back.
#[verifier::external_body]
fn since_unix_epoch(t: &SystemTime) -> (r: Result<Duration, SystemTimeError>) {
    t.duration_since(UNIX_EPOCH)
}

/// Milliseconds since the Unix epoch, read from the system clock, cut to
/// `u64`; a clock set before the epoch reads as 0. The value depends on the
/// time of the call: nothing is promised of it.
pub(crate) fn unix_time_millis() -> (r: u64) {
    match since_unix_epoch(&system_now()) {
        Ok(d) => {
            let ms = duration_as_millis(&d);
            #[verifier::truncate]
            (ms as u64)
        },
        Err(_) => 0,
    }
}

/// Seconds since the Unix epoch, read from the system clock; a clock set
/// before the epoch reads as 0. Nothing is promised of the value.
pub(crate) fn unix_time_secs() -> (r: u64) {
    match since_unix_epoch(&system_now()) {
        Ok(d) => duration_as_secs(&d),
        Err(_) => 0,
    }
}

/// The whole seconds of `d`.
///
/// Calls `Duration::as_secs`, documented as the number of whole seconds the
/// duration contains.
#[verifier::external_body]
pub(crate) fn duration_as_secs(d: &Duration) -> (r: u64)
    ensures
        r as nat == duration_nanos(*d) / 1_000_000_000,
{
    d.as_secs()
}

/// A `Duration` of `ms` milliseconds.
///
/// Calls `Duration::from_millis`; its documentation defines the result as
/// exactly that many milliseconds, which the contract states in nanoseconds.
#[verifier::external_body]
pub(crate) fn duration_from_millis(ms: u64) -> (d: Duration)
    ensures
        duration_nanos(d) == ms as nat * 1_000_000,
{
    Duration::from_millis(ms)
}

/// A `Duration` of `secs` seconds.
///
/// Calls `Duration::from_secs`; the contract states the length in
/// nanoseconds.
#[verifier::external_body]
pub(crate) fn duration_from_secs(secs: u64) -> (d: Duration)
    ensures
        duration_nanos(d) == secs as nat * 1_000_000_000,
{
    Duration::from_secs(secs)
}

/// The total length of `d` in nanoseconds.
///
/// Calls `Duration::as_nanos`; the result is the name `duration_nanos`.
#[verifier::external_body]
pub(crate) fn duration_as_nanos(d: &Duration) -> (r: u128)
    ensures
        r as nat == duration_nanos(*d),
{
    d.as_nanos()
}

/// The total whole milliseconds of `d`.
///
/// Calls `Duration::as_millis`, documented as the total number of whole
/// milliseconds the duration contains.
#[verifier::external_body]
pub(crate) fn duration_as_millis(d: &Duration) -> (r: u128)
    ensures
        r as nat == duration_nanos(*d) / 1_000_000,
{
    d.as_millis()
}

/// The current monotonic instant.
///
/// Calls `Instant::now`; nothing is promised of the value.
#[verifier::external_body]
pub(crate) fn instant_now() -> (r: Instant) {
    Instant::now()
}

/// The time elapsed since `since`.
///
/// Calls `Instant::elapsed`; it depends on the time of the call, so nothing
/// is promised of it.
#[verifier::external_body]
pub(crate) fn instant_elapsed(since: &Instant) -> (r: Duration) {
    since.elapsed()
}

/// Whether `a` is at least as long as `b`, compared as `Duration`s compare.
pub fn duration_at_least(a: &Duration, b: &Duration) -> (r: bool)
    ensures
        r == (duration_nanos(*a) >= duration_nanos(*b)),
{
    duration_as_nanos(a) >= duration_as_nanos(b)
}

} // verus!
