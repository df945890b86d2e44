//! The two clocks the reboot check reads: the wall clock and the system uptime.
use std::time::{Duration, SystemTime, SystemTimeError, UNIX_EPOCH};
use vstd::prelude::*;

verus! {

/// Declares `std::time::SystemTime` as an opaque type.
#[verifier::external_type_specification]
#[verifier::external_body]
pub struct ExSystemTime(SystemTime);

/// Declares `std::time::SystemTimeError` as an opaque type.
#[verifier::external_type_specification]
#[verifier::external_body]
pub struct ExSystemTimeError(SystemTimeError);

/// Calls `std::time::SystemTime::now`. The reading depends on the clock,
/// so nothing is claimed of it.
#[verifier::external_body]
fn system_time_now() -> SystemTime {
    SystemTime::now()
}

/// Calls `SystemTime::duration_since` with `UNIX_EPOCH` as the earlier
/// instant. Whether it fails depends on the opaque reading, so nothing is
/// claimed of the result.
#[verifier::external_body]
fn duration_since_unix_epoch(t: &SystemTime) -> Result<Duration, SystemTimeError> {
    t.duration_since(UNIX_EPOCH)
}

/// Calls `Duration::as_secs`. A `Duration` is opaque here, so nothing is
/// claimed of the whole seconds it holds.
#[verifier::external_body]
fn duration_whole_secs(d: &Duration) -> u64 {
    d.as_secs()
}

/// Calls `sysinfo::System::uptime`, the seconds since the machine booted
/// as the operating system reports them; nothing is claimed of the number.
#[verifier::external_body]
fn sysinfo_uptime() -> u64 {
    sysinfo::System::uptime()
}

/// Whole seconds since the Unix epoch, or `None` when the clock stands
/// before it.
pub fn unix_seconds_now() -> (r: Option<u64>) {
    let t = system_time_now();
    match duration_since_unix_epoch(&t) {
        Ok(d) => Some(duration_whole_secs(&d)),
        Err(_) => None,
    }
}

/// The system uptime in seconds. Reading it never fails.
pub fn get_system_uptime() -> (r: Result<u64, String>)
    ensures
        r is Ok,
{
    Ok(sysinfo_uptime())
}

} // verus!
