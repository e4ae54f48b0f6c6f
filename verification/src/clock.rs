//! Clock reconciliation: bridges the wall clock, which survives restarts but
//! may be adjusted, and the monotonic clock, which never runs backward but is
//! meaningless across restarts.

use vstd::prelude::*;

verus! {

/// The system clock was set before the Unix epoch, so no wall-clock
/// checkpoint can be taken.
#[derive(Clone, Copy, Debug, PartialEq, Eq, Structural)]
pub struct ClockError;

#[verifier::external_type_specification]
#[verifier::external_body]
pub struct ExInstant(std::time::Instant);

pub assume_specification[ std::time::Instant::now ]() -> (r: std::time::Instant);

/// Relies on `std::time::Instant::elapsed`: whole seconds of monotonic time
/// since `start`; the monotonic clock never runs backward.
#[verifier::external_body]
pub(crate) fn elapsed_secs(start: &std::time::Instant) -> u64 {
    start.elapsed().as_secs()
}

/// Relies on `std::time::Instant::checked_sub`: the instant `secs` seconds
/// before `now`, saturating to `now` itself (via `unwrap_or`) when the
/// monotonic clock cannot represent an instant that far in the past, so that
/// elapsed time never appears negative.
#[verifier::external_body]
pub(crate) fn instant_back_by(now: std::time::Instant, secs: u64) -> std::time::Instant {
    now.checked_sub(std::time::Duration::from_secs(secs)).unwrap_or(now)
}

/// Relies on `std::time::SystemTime::duration_since` against `UNIX_EPOCH`:
/// `Some` of the current wall-clock time in whole seconds since the Unix
/// epoch, `None` exactly when the system clock is set before the epoch.
#[verifier::external_body]
fn epoch_seconds() -> Option<u64> {
    match std::time::SystemTime::now().duration_since(std::time::UNIX_EPOCH) {
        Ok(d) => Some(d.as_secs()),
        Err(_) => None,
    }
}

/// Current wall-clock time as epoch seconds.
///
/// Fails with [`ClockError`] only if the system clock is set before the Unix
/// epoch; such a clock must be surfaced, never silently defaulted.
pub fn epoch_now() -> Result<u64, ClockError> {
    match epoch_seconds() {
        Some(secs) => Ok(secs),
        None => Err(ClockError),
    }
}

/// Wall-clock seconds elapsed since the checkpoint `last_modified`, as seen
/// at wall-clock time `now`, clamped to zero when the checkpoint lies in the
/// future.
pub open spec fn spec_wall_elapsed(now: u64, last_modified: u64) -> u64 {
    if last_modified <= now {
        (now - last_modified) as u64
    } else {
        0
    }
}

/// Computes `now - last_modified`, clamped to zero if `last_modified` is in
/// the future relative to `now`.
///
/// The clamp defends against clock skew or a hand-edited checkpoint: time
/// moving backward must never be read as "more time remaining".
pub fn wall_elapsed(now: u64, last_modified: u64) -> (r: u64)
    ensures
        r == spec_wall_elapsed(now, last_modified),
{
    if last_modified <= now {
        now - last_modified
    } else {
        0
    }
}

/// For every checkpoint in the future relative to `now`, the reconciled
/// elapsed time is zero — it is never negative.
pub proof fn lemma_wall_elapsed_future_is_zero(now: u64, last_modified: u64)
    requires
        last_modified >= now,
    ensures
        spec_wall_elapsed(now, last_modified) == 0,
{
}

} // verus!
