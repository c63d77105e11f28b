//! Readings of the system clock and points in time built from milliseconds.
use vstd::prelude::*;
use std::time::{Duration, SystemTime};

verus! {

/// `std::time::SystemTime`, carried through as an opaque value.
#[verifier::external_type_specification]
#[verifier::external_body]
pub struct ExSystemTime(SystemTime);

/// `<SystemTime as Clone>::clone`: `SystemTime` is `Copy`, and its clone is
/// the same point in time.
pub assume_specification[ <SystemTime as Clone>::clone ](t: &SystemTime) -> (r: SystemTime)
    ensures
        r == *t,
;

/// What `Duration::from_millis(ms)` returns.
pub uninterp spec fn millis_duration(ms: u64) -> Duration;

/// What `UNIX_EPOCH.checked_add(d)` returns.
pub uninterp spec fn unix_epoch_plus(d: Duration) -> Option<SystemTime>;

/// What `d.as_millis()` returns.
pub uninterp spec fn whole_millis(d: Duration) -> u128;

/// `ms` is a reading of the system clock: the whole milliseconds of some
/// duration since the epoch, truncated to `i64`.
pub open spec fn clock_millis(ms: i64) -> bool {
    exists|d: Duration| ms == #[trigger] whole_millis(d) as i64
}

/// The point in time `ms` milliseconds after the Unix epoch, `None` where
/// the platform's `SystemTime` cannot represent it.
pub open spec fn time_at_millis(ms: u64) -> Option<SystemTime> {
    unix_epoch_plus(millis_duration(ms))
}

/// `std::time::Duration::from_millis`. The contract names the result: the
/// same number of milliseconds gives the same duration.
#[verifier::external_body]
fn duration_from_millis(ms: u64) -> (d: Duration)
    ensures
        d == millis_duration(ms),
{
    Duration::from_millis(ms)
}

/// `UNIX_EPOCH.checked_add(d)` (`SystemTime::checked_add`): the point in
/// time `d` after the epoch, or `None` where it cannot be represented. The
/// contract names the result; which durations give `None` is left to the
/// platform and not stated.
#[verifier::external_body]
fn unix_epoch_after(d: Duration) -> (t: Option<SystemTime>)
    ensures
        t == unix_epoch_plus(d),
{
    std::time::UNIX_EPOCH.checked_add(d)
}

/// `UNIX_EPOCH.elapsed()` (`SystemTime::elapsed`) with its error dropped:
/// the time since the epoch on the system clock, or `None` when the clock
/// reads earlier than the epoch. It depends on the clock, so nothing is
/// stated of it.
#[verifier::external_body]
fn elapsed_since_unix_epoch() -> (r: Option<Duration>) {
    std::time::UNIX_EPOCH.elapsed().ok()
}

/// `Duration::as_millis`: the whole milliseconds of `d`, named.
#[verifier::external_body]
fn duration_as_millis(d: &Duration) -> (r: u128)
    ensures
        r == whole_millis(*d),
{
    d.as_millis()
}

/// `std::hint::spin_loop`: a hint to the processor inside a busy-wait loop.
#[verifier::external_body]
pub(crate) fn spin_loop_hint() {
    std::hint::spin_loop()
}

/// The point in time `ms` milliseconds after the Unix epoch, `None` where
/// the platform cannot represent it.
pub fn system_time_from_millis(ms: u64) -> (t: Option<SystemTime>)
    ensures
        t == time_at_millis(ms),
{
    let d = duration_from_millis(ms);
    unix_epoch_after(d)
}

/// Milliseconds since the Unix epoch on the system clock, truncated to `i64`;
/// `None` when the clock reads earlier than the epoch.
pub fn current_time_millis() -> (r: Option<i64>)
    ensures
        r matches Some(ms) ==> clock_millis(ms),
{
    match elapsed_since_unix_epoch() {
        Some(d) => {
            let ms = duration_as_millis(&d);
            Some(ms as i64)
        },
        None => None,
    }
}

} // verus!
