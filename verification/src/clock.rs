//! The wall clock, read when a record completes. Only the calls into the
//! standard library's clock are trusted; nothing is assumed about the instant
//! they report beyond it being a nonnegative count of milliseconds.

use vstd::prelude::*;

verus! {

#[verifier::external_type_specification]
#[verifier::external_body]
pub struct ExSystemTime(std::time::SystemTime);

/// Relies on std::time::SystemTime::now: the system clock's current instant.
/// The clock may be adjusted between calls, so nothing is stated about the
/// value.
#[verifier::external_body]
fn system_time_now() -> std::time::SystemTime {
    std::time::SystemTime::now()
}

/// Relies on std::time::SystemTime::duration_since: the time from the Unix
/// epoch to `t`, converted to whole milliseconds. The conversion yields zero
/// when `t` lies before the epoch and saturates when the count does not fit,
/// so the result is nonnegative whatever the clock reported.
#[verifier::external_body]
fn millis_since_epoch(t: &std::time::SystemTime) -> (r: i64)
    ensures
        0 <= r,
{
    match t.duration_since(std::time::UNIX_EPOCH) {
        Ok(d) => i64::try_from(d.as_millis()).unwrap_or(i64::MAX),
        Err(_) => 0,
    }
}

/// The current wall-clock instant, in whole milliseconds since the Unix
/// epoch, clamped to the nonnegative range of `i64`.
pub(crate) fn current_millis() -> (r: i64)
    ensures
        0 <= r,
{
    let t = system_time_now();
    millis_since_epoch(&t)
}

} // verus!
