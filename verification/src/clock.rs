//! Time, as the host gives it.
use vstd::prelude::*;

verus! {

#[verifier::external_type_specification]
#[verifier::external_body]
pub struct ExInstant(std::time::Instant);

/// `std::time::Instant::now`: the current instant of the monotonic clock.
/// Nothing is claimed of the value.
#[verifier::external_body]
pub(crate) fn instant_now() -> (r: std::time::Instant) {
    std::time::Instant::now()
}

/// `Instant::elapsed`, in whole milliseconds (saturating at `u64::MAX`).
/// The value depends on the clock; nothing is claimed of it.
#[verifier::external_body]
pub(crate) fn elapsed_millis(since: &std::time::Instant) -> (r: u64) {
    u64::try_from(since.elapsed().as_millis()).unwrap_or(u64::MAX)
}

/// `SystemTime::now().duration_since(UNIX_EPOCH)` in whole seconds; zero
/// when the clock reads before the epoch. The value depends on the clock;
/// nothing is claimed of it.
#[verifier::external_body]
pub(crate) fn unix_time_secs() -> (r: u64) {
    match std::time::SystemTime::now().duration_since(std::time::UNIX_EPOCH) {
        Ok(d) => d.as_secs(),
        Err(_) => 0,
    }
}

/// Seconds between the NTP epoch (1900) and the Unix epoch (1970).
pub const NTP_UNIX_OFFSET: u32 = 2_208_988_800;

/// The NTP-era timestamp of `unix_secs`: the seconds, truncated to 32 bits,
/// plus the epoch offset, wrapping.
pub open spec fn spec_ntp_from_unix(unix_secs: u64, offset: u32) -> u32 {
    (unix_secs as u32).wrapping_add(offset)
}

/// NTP-era timestamp of a Unix time, as PFCP Recovery Time Stamps carry it.
pub fn ntp_from_unix(unix_secs: u64, offset: u32) -> (r: u32)
    ensures
        r == spec_ntp_from_unix(unix_secs, offset),
{
    #[verifier::truncate]
    let s = unix_secs as u32;
    s.wrapping_add(offset)
}

} // verus!
