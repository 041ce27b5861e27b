//! The wall clock, as microseconds since the epoch.

use vstd::prelude::*;
use std::time::{Duration, SystemTime, SystemTimeError, UNIX_EPOCH};
use crate::error::ErrorKind;

verus! {

#[verifier::external_type_specification]
#[verifier::external_body]
pub struct ExSystemTime(SystemTime);

#[verifier::external_type_specification]
#[verifier::external_body]
pub struct ExSystemTimeError(SystemTimeError);

/// `SystemTime::now`: the present moment. Nothing is known of it.
#[verifier::external_body]
fn system_now() -> (now: SystemTime) {
    SystemTime::now()
}

/// `SystemTime::duration_since` the epoch: how long after the epoch `t`
/// lies, or an error if it lies before. Nothing is known of either.
#[verifier::external_body]
fn since_epoch(t: &SystemTime) -> (elapsed: Result<Duration, SystemTimeError>) {
    t.duration_since(UNIX_EPOCH)
}

/// `Duration::as_secs`: the whole seconds of a duration.
pub assume_specification[ Duration::as_secs ](d: &Duration) -> (seconds: u64)
;

/// `Duration::subsec_micros`: the part of a duration below one second, in
/// whole microseconds; always less than a million.
pub assume_specification[ Duration::subsec_micros ](d: &Duration) -> (micros: u32)
    ensures
        micros < 1_000_000,
;

/// Microseconds in `seconds` whole seconds and `micros` microseconds.
pub open spec fn micros_of(seconds: u64, micros: u32) -> int {
    seconds * 1_000_000 + micros
}

/// The time mark for a moment `seconds` seconds and `micros` microseconds
/// after the epoch. Fails with `ConfigError` exactly when it does not fit
/// in 64 bits.
pub fn timestamp_of(seconds: u64, micros: u32) -> (r: Result<u64, ErrorKind>)
    ensures
        micros_of(seconds, micros) <= u64::MAX ==> r is Ok && r->Ok_0 == micros_of(
            seconds,
            micros,
        ),
        micros_of(seconds, micros) > u64::MAX ==> r == Err::<u64, ErrorKind>(
            ErrorKind::ConfigError,
        ),
{
    let total: u128 = (seconds as u128) * 1_000_000 + (micros as u128);
    if total <= 0xffff_ffff_ffff_ffff {
        Ok(total as u64)
    } else {
        Err(ErrorKind::ConfigError)
    }
}

/// The present moment as microseconds since the epoch. Fails with
/// `ConfigError` when the clock stands before the epoch or too far after
/// it to count.
pub fn get_current_timestamp() -> (r: Result<u64, ErrorKind>)
    ensures
        r is Err ==> r->Err_0 == ErrorKind::ConfigError,
{
    let now = system_now();
    match since_epoch(&now) {
        Ok(elapsed) => timestamp_of(elapsed.as_secs(), elapsed.subsec_micros()),
        Err(_) => Err(ErrorKind::ConfigError),
    }
}

} // verus!
