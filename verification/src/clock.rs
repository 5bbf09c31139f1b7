//! The one place where the crate reads the time.

use vstd::prelude::*;
use std::time::{Duration, SystemTime, UNIX_EPOCH};

verus! {

#[verifier::external_type_specification]
#[verifier::external_body]
pub struct ExSystemTime(SystemTime);

/// The present reading of the system clock.
///
/// Trusted: `SystemTime::now` returns; nothing is claimed of its value.
#[verifier::external_body]
fn system_now() -> SystemTime {
    SystemTime::now()
}

/// The time from the Unix epoch to `t`, or `None` where `t` lies before it.
///
/// Trusted: `SystemTime::duration_since` returns; nothing is claimed of its
/// value.
#[verifier::external_body]
fn since_epoch(t: &SystemTime) -> Option<Duration> {
    t.duration_since(UNIX_EPOCH).ok()
}

/// The whole milliseconds of a duration.
///
/// Trusted: `Duration::as_millis` returns; nothing is claimed of its value.
#[verifier::external_body]
fn whole_millis(d: &Duration) -> u128 {
    d.as_millis()
}

/// The whole seconds of a duration.
///
/// Trusted: `Duration::as_secs` returns; nothing is claimed of its value.
#[verifier::external_body]
fn whole_secs(d: &Duration) -> u64 {
    d.as_secs()
}

/// Milliseconds since the Unix epoch; zero for a clock set before it, and
/// the largest `u64` where the count no longer fits.
pub fn unix_millis() -> u64 {
    match since_epoch(&system_now()) {
        Some(d) => {
            let ms = whole_millis(&d);
            if ms > 0xffff_ffff_ffff_ffffu128 {
                0xffff_ffff_ffff_ffffu64
            } else {
                ms as u64
            }
        },
        None => 0,
    }
}

/// Seconds since the Unix epoch; zero for a clock set before it.
pub fn unix_secs() -> u64 {
    match since_epoch(&system_now()) {
        Some(d) => whole_secs(&d),
        None => 0,
    }
}

} // verus!
