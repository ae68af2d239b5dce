//! A timer that can be polled for expiry, and used as a context.
use vstd::prelude::*;
use std::time::Duration;
use std::time::Instant;
use crate::context::ContractContext;

verus! {

/// A point in time read from the monotonic clock; opaque to proofs.
#[verifier::external_type_specification]
#[verifier::external_body]
pub struct ExInstant(Instant);

/// Relies on `Instant::now`: the current time. Nothing is known of its value.
pub assume_specification[ Instant::now ]() -> Instant;

/// Relies on `Instant::duration_since`: the time elapsed from `earlier` to
/// `i`, zero when `earlier` is later. Nothing is known of its value.
pub assume_specification[ Instant::duration_since ](i: &Instant, earlier: Instant) -> Duration;

/// Relies on `Duration::as_nanos`: the whole nanoseconds of a duration.
pub assume_specification[ Duration::as_nanos ](d: &Duration) -> u128;

/// Whether `elapsed` nanoseconds strictly exceed a limit of `limit`.
pub fn outlasts(elapsed: u128, limit: u128) -> (r: bool)
    ensures
        r == (elapsed > limit),
{
    elapsed > limit
}

/// A timer started at its creation, which expires once `duration` has passed.
pub struct Timer {
    creation: Instant,
    pub duration: Duration,
}

impl Timer {
    /// How long the timer runs.
    pub closed spec fn allowed(&self) -> Duration {
        self.duration
    }

    /// A timer of `duration`, started now.
    pub fn new(duration: Duration) -> (r: Self)
        ensures
            r.allowed() == duration,
    {
        Timer { creation: Instant::now(), duration }
    }

    /// Whether more than `duration` has passed since the timer was created:
    /// the verdict of `outlasts` on the nanoseconds elapsed and allowed.
    pub fn expired(&self) -> bool {
        let elapsed = Instant::now().duration_since(self.creation);
        outlasts(elapsed.as_nanos(), self.duration.as_nanos())
    }
}

impl ContractContext for Timer {
    /// Reports whether the timer has expired.
    fn poll_valid(&self) -> bool {
        self.expired()
    }
}

} // verus!
