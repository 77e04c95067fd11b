//! Initial send sequence numbers taken from the wall clock.
use std::time::{Duration, SystemTime, SystemTimeError};
use vstd::prelude::*;

verus! {

/// The wall clock's time type, carried through opaquely.
#[verifier::external_type_specification]
#[verifier::external_body]
pub struct ExSystemTime(SystemTime);

/// The error of a clock that reads earlier than the reference time.
#[verifier::external_type_specification]
#[verifier::external_body]
pub struct ExSystemTimeError(SystemTimeError);

/// Calls `SystemTime::now`. Nothing is claimed of the time read: it depends
/// on the machine's clock.
#[verifier::external_body]
fn system_time_now() -> SystemTime {
    SystemTime::now()
}

/// Calls `SystemTime::duration_since` with `UNIX_EPOCH` as reference.
/// Nothing is claimed of the outcome: it depends on the clock reading that
/// `t` holds.
#[verifier::external_body]
fn duration_since_unix_epoch(t: &SystemTime) -> Result<Duration, SystemTimeError> {
    t.duration_since(std::time::UNIX_EPOCH)
}

/// Calls `Duration::as_micros`. Nothing is claimed of the count: the
/// duration it reads is opaque here.
#[verifier::external_body]
fn duration_as_micros(d: &Duration) -> u128 {
    d.as_micros()
}

/// The initial sequence number made of a clock reading in microseconds since
/// the Unix epoch, `None` when the clock reads before the epoch: the reading
/// truncated to its low 32 bits, or 0.
pub fn isn_from_micros(micros: Option<u128>) -> (isn: u32)
    ensures
        isn == (match micros {
            Some(m) => (m % 0x1_0000_0000) as u32,
            None => 0u32,
        }),
{
    match micros {
        Some(m) => {
            let low: u128 = m % 0x1_0000_0000;
            low as u32
        },
        None => 0,
    }
}

/// An initial send sequence number from the current time: the microseconds
/// elapsed since the Unix epoch, truncated to 32 bits, or 0 when the clock
/// reads before the epoch. Any `u32` may come back: it depends on the clock.
pub fn generate_isn() -> u32 {
    let now = system_time_now();
    let micros: Option<u128> = match duration_since_unix_epoch(&now) {
        Ok(d) => Some(duration_as_micros(&d)),
        Err(_) => None,
    };
    isn_from_micros(micros)
}

} // verus!
