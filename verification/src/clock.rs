//! The wall clock in milliseconds since the Unix epoch, and expiry against it.

use std::time::{Duration, SystemTime, UNIX_EPOCH};
use vstd::prelude::*;

verus! {

/// A point on the system's wall clock, as `std` hands it out. Nothing of its inside is
/// visible to the verifier.
#[verifier::external_type_specification]
#[verifier::external_body]
pub struct ExSystemTime(SystemTime);

/// Reads the wall clock with `SystemTime::now`. Two readings may differ, so nothing is
/// claimed of the result.
#[verifier::external_body]
fn wall_clock() -> SystemTime {
    SystemTime::now()
}

/// The time that has passed from the Unix epoch up to `at`, by `SystemTime::duration_since`;
/// `None` where `at` lies before the epoch. Nothing is claimed of the duration.
#[verifier::external_body]
fn since_unix_epoch(at: &SystemTime) -> Option<Duration> {
    at.duration_since(UNIX_EPOCH).ok()
}

/// The whole seconds of a duration, by `Duration::as_secs`.
#[verifier::external_body]
fn whole_seconds(span: &Duration) -> u64 {
    span.as_secs()
}

/// The milliseconds of a duration beyond its whole seconds, by `Duration::subsec_millis`.
#[verifier::external_body]
fn millis_past_second(span: &Duration) -> u32 {
    span.subsec_millis()
}

/// No reading of the clock, in milliseconds since the Unix epoch, lies above this bound.
pub open spec fn clock_limit() -> int {
    u64::MAX * 1000 + u32::MAX
}

/// Whether a token whose expiry is `timestamp` has expired when the clock reads `now`.
/// Both are milliseconds since the Unix epoch. A token is good strictly before its
/// expiry and expired from that instant on.
pub open spec fn expired_at(timestamp: u128, now: u128) -> bool {
    timestamp <= now
}

/// The reading of a clock that stands `seconds` whole seconds and `millis` further
/// milliseconds after the Unix epoch, in milliseconds.
pub open spec fn timestamp_of(seconds: u64, millis: u32) -> u128 {
    (seconds * 1000 + millis) as u128
}

/// Puts a reading together from its whole seconds and the milliseconds beyond them.
pub fn timestamp_from(seconds: u64, millis: u32) -> (now: u128)
    ensures
        now == timestamp_of(seconds, millis),
        now <= clock_limit(),
{
    (seconds as u128) * 1000 + (millis as u128)
}

/// The reading of a clock from the time that has passed since the Unix epoch, given as
/// whole seconds and the milliseconds beyond them. A clock that stands before the
/// epoch, for which no such time exists, reads as the epoch itself.
pub open spec fn reading_of(elapsed: Option<(u64, u32)>) -> u128 {
    match elapsed {
        Some((seconds, millis)) => timestamp_of(seconds, millis),
        None => 0,
    }
}

/// Turns the time that has passed since the Unix epoch, if the clock stands after it,
/// into the reading of the clock.
pub fn reading_from(elapsed: Option<(u64, u32)>) -> (now: u128)
    ensures
        now == reading_of(elapsed),
        now <= clock_limit(),
{
    match elapsed {
        Some((seconds, millis)) => timestamp_from(seconds, millis),
        None => 0,
    }
}

/// The current time in milliseconds since the Unix epoch: the reading that
/// [`reading_from`] gives for what the wall clock shows during the call. Of the clock
/// itself nothing is known but that no reading lies above its limit.
pub fn get_timestamp_ms() -> (now: u128)
    ensures
        now <= clock_limit(),
{
    let current = wall_clock();
    let elapsed = match since_unix_epoch(&current) {
        Some(span) => Some((whole_seconds(&span), millis_past_second(&span))),
        None => None,
    };
    reading_from(elapsed)
}

/// Decides expiry against a given reading of the clock.
pub fn is_expired_at(timestamp: u128, now: u128) -> (expired: bool)
    ensures
        expired == expired_at(timestamp, now),
{
    timestamp <= now
}

/// Decides expiry against the wall clock: the answer is that of [`is_expired_at`] for
/// the reading taken during the call.
pub fn is_expired(timestamp: u128) -> (expired: bool)
    ensures
        exists|now: u128| now <= clock_limit() && expired == #[trigger] expired_at(timestamp, now),
{
    let now: u128 = get_timestamp_ms();
    is_expired_at(timestamp, now)
}

} // verus!
