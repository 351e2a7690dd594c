//! The pace at which the runner asks for frames.

use std::time::Duration;
use vstd::prelude::*;

verus! {

/// The time that the runner waits between two frames.
pub struct RunnerTargetFPS(Duration);

impl RunnerTargetFPS {
    /// The time between two frames.
    pub closed spec fn view(&self) -> Duration {
        self.0
    }

    /// A pace of one frame every `duration`.
    pub fn new(duration: Duration) -> (r: Self)
        ensures
            r@ == duration,
    {
        Self(duration)
    }

    /// Sets the time between two frames.
    pub fn update_target(&mut self, duration: Duration)
        ensures
            final(self)@ == duration,
    {
        self.0 = duration;
    }

    /// The time between two frames.
    pub fn target(&self) -> (r: Duration)
        ensures
            r == self@,
    {
        self.0
    }
}

} // verus!
