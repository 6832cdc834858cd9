//! Sampler Loop lifecycle decisions. The surrounding application owns the
//! actual timer and background task; this state machine decides — and makes
//! idempotent — whether a start or stop request must really launch or halt
//! the loop. A tick that overruns the interval simply delays the next tick:
//! the application performs ticks strictly one after another.

use vstd::prelude::*;

verus! {

/// The lifecycle state of the background sampler.
pub struct SamplerControl {
    running: bool,
    interval_ticks: u64,
}

impl SamplerControl {
    /// Whether the loop is (to be) running.
    pub closed spec fn is_running(self) -> bool {
        self.running
    }

    /// The sampling interval the loop was started with.
    pub closed spec fn interval(self) -> u64 {
        self.interval_ticks
    }

    /// A stopped sampler with the given default interval.
    pub fn new(default_interval_ticks: u64) -> (r: SamplerControl)
        ensures
            !r.is_running(),
            r.interval() == default_interval_ticks,
    {
        SamplerControl { running: false, interval_ticks: default_interval_ticks }
    }

    /// Decides a start request: launch only when not already running, so
    /// starting twice is a no-op and never spawns a second loop.
    pub fn request_start(&mut self, interval_ticks: u64) -> (launch: bool)
        ensures
            final(self).is_running(),
            launch == !old(self).is_running(),
            launch ==> final(self).interval() == interval_ticks,
            !launch ==> final(self).interval() == old(self).interval(),
    {
        if self.running {
            false
        } else {
            self.running = true;
            self.interval_ticks = interval_ticks;
            true
        }
    }

    /// Decides a stop request: halt only when running, so stopping an
    /// unstarted loop is a no-op.
    pub fn request_stop(&mut self) -> (halt: bool)
        ensures
            !final(self).is_running(),
            halt == old(self).is_running(),
            final(self).interval() == old(self).interval(),
    {
        let was = self.running;
        self.running = false;
        was
    }
}

} // verus!
