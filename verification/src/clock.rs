//! Reading the system clock.
use vstd::prelude::*;

verus! {

/// A point in time read from the system clock.
#[verifier::external_type_specification]
#[verifier::external_body]
pub struct ExSystemTime(std::time::SystemTime);

/// A clock reading earlier than the Unix epoch.
#[verifier::external_type_specification]
#[verifier::external_body]
pub struct ExSystemTimeError(std::time::SystemTimeError);

/// The current time: `SystemTime::now`. Nothing is claimed of it.
#[verifier::external_body]
pub(crate) fn system_time_now() -> std::time::SystemTime {
    std::time::SystemTime::now()
}

/// Whole seconds from the Unix epoch to `t`:
/// `t.duration_since(UNIX_EPOCH)` then `Duration::as_secs`; an error when `t`
/// is earlier than the epoch. Nothing is claimed of the value.
#[verifier::external_body]
pub(crate) fn unix_seconds(t: std::time::SystemTime) -> Result<u64, std::time::SystemTimeError> {
    t.duration_since(std::time::UNIX_EPOCH).map(|d| d.as_secs())
}

} // verus!
