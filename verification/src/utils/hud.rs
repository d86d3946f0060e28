//! A frame timer: how long the current frame has been running.

use vstd::prelude::*;

verus! {

/// Declares `std::time::Instant` to the verifier; a value of it is opaque
/// here and only the trusted wrappers below touch it.
#[verifier::external_type_specification]
#[verifier::external_body]
pub struct ExInstant(std::time::Instant);

/// Relies on `std::time::Instant::now`: a reading of the monotonic clock.
/// Nothing can be promised of the reading itself.
#[verifier::external_body]
fn instant_now() -> std::time::Instant {
    std::time::Instant::now()
}

/// Relies on `std::time::Instant::duration_since`: the time elapsed from
/// `earlier` to `later`, or zero if `earlier` is the later one.
#[verifier::external_body]
fn duration_between(earlier: &std::time::Instant, later: std::time::Instant) -> std::time::Duration {
    later.duration_since(*earlier)
}

/// A frame timer holding the instant the current frame started.
pub struct HUD {
    frame_start: std::time::Instant,
}

impl HUD {
    /// A timer whose frame starts now.
    pub fn new() -> HUD {
        HUD { frame_start: instant_now() }
    }

    /// Restart the frame timer at the current instant.
    pub fn start_frame_timer(&mut self) {
        self.frame_start = instant_now();
    }

    /// How long the current frame has been running; the timer itself is
    /// left untouched.
    pub fn stop_frame_timer(&mut self) -> (elapsed: std::time::Duration)
        ensures
            *final(self) == *old(self),
    {
        duration_between(&self.frame_start, instant_now())
    }
}

} // verus!
