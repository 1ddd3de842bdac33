//! The clock: the current Unix time and the seed for shuffling.

use vstd::prelude::*;

use std::time::{Duration, SystemTime, SystemTimeError};

verus! {

#[verifier::external_type_specification]
#[verifier::external_body]
pub struct DisSistemZamani(SystemTime);

#[verifier::external_type_specification]
#[verifier::external_body]
pub struct DisSistemZamaniHatasi(SystemTimeError);

/// `SystemTime::now`: the system clock's current reading. Nothing is
/// promised of it.
#[verifier::external_body]
fn saat() -> SystemTime {
    SystemTime::now()
}

/// `SystemTime::duration_since(UNIX_EPOCH)`: the time elapsed since the
/// Unix epoch, or an error when the clock stands before it. Nothing is
/// promised of the value.
#[verifier::external_body]
fn epoktan_beri(t: &SystemTime) -> Result<Duration, SystemTimeError> {
    t.duration_since(std::time::UNIX_EPOCH)
}

/// `Duration::as_nanos`: the whole duration in nanoseconds. The durations
/// given to it are readings of the clock, so nothing is stated of the
/// value.
#[verifier::external_body]
fn nanosaniye(d: &Duration) -> u128 {
    d.as_nanos()
}

/// `Duration::as_secs`: the whole seconds of the duration. The durations
/// given to it are readings of the clock, so nothing is stated of the
/// value.
#[verifier::external_body]
fn saniye(d: &Duration) -> u64 {
    d.as_secs()
}

/// The Unix time from the whole seconds since the epoch (`None` when the
/// clock reads before it): the seconds as an `i64`, or 0.
pub fn unix_saniyesi(fark: Option<u64>) -> (r: i64)
    ensures
        r == match fark {
            Some(s) => s as i64,
            None => 0i64,
        },
{
    match fark {
        Some(s) => s as i64,
        None => 0,
    }
}

/// The seed used when the clock reads before the epoch.
pub const YEDEK_TOHUM: u64 = 0x2dd4bf;

/// A shuffle seed from the nanoseconds since the epoch (`None` when the
/// clock reads before it): their low 64 bits, or [`YEDEK_TOHUM`].
pub fn tohum_degeri(fark: Option<u128>) -> (r: u64)
    ensures
        r == match fark {
            Some(n) => n as u64,
            None => YEDEK_TOHUM,
        },
{
    match fark {
        Some(n) => n as u64,
        None => YEDEK_TOHUM,
    }
}

/// The current Unix time in seconds; 0 when the clock reads before the
/// epoch. The value is a reading of the clock: every `i64` is a possible
/// outcome, so no clause states it; [`unix_saniyesi`] does the rest.
pub fn simdi() -> (r: i64) {
    let fark = match epoktan_beri(&saat()) {
        Ok(d) => Some(saniye(&d)),
        Err(_) => None,
    };
    unix_saniyesi(fark)
}

/// A shuffle seed: the low 64 bits of the nanoseconds since the Unix epoch,
/// or [`YEDEK_TOHUM`] when the clock reads before the epoch. The value is a
/// reading of the clock: every `u64` is a possible outcome, so no clause
/// states it; [`tohum_degeri`] does the rest.
pub fn tohum() -> (r: u64) {
    let fark = match epoktan_beri(&saat()) {
        Ok(d) => Some(nanosaniye(&d)),
        Err(_) => None,
    };
    tohum_degeri(fark)
}

} // verus!
