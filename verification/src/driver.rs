//! The animation driver: one tick per scheduler call, strictly sequential,
//! halting for good once the stop flag is seen.
//!
//! The host's frame scheduler calls `on_frame` once per refresh with the
//! current stop flag. When it returns true, the host runs the per-tick
//! callback and requests the next frame; when it returns false, the driver
//! has stopped and the host releases everything it retained for the loop.

use vstd::prelude::*;

verus! {

/// The scheduling states of the loop: a frame has been requested, or the
/// loop has ended for good.
pub enum DriverState {
    Scheduled,
    Stopped,
}

/// Drives repeated execution of a per-tick callback, counting the ticks it
/// has released and stopping permanently once the stop flag reads true.
pub struct Driver {
    pub state: DriverState,
    pub ticks: u64,
}

/// What one scheduler call does to the driver, and whether the tick runs:
/// a stopped driver, or a raised stop flag, ends the loop with nothing run;
/// otherwise exactly one tick runs and the next frame is due.
pub open spec fn frame_spec(d: Driver, stop_flag: bool) -> (Driver, bool) {
    if d.state is Stopped || stop_flag {
        (Driver { state: DriverState::Stopped, ticks: d.ticks }, false)
    } else {
        (Driver { state: DriverState::Scheduled, ticks: (d.ticks + 1) as u64 }, true)
    }
}

/// The driver after a whole sequence of scheduler calls, one stop-flag
/// reading per call.
pub open spec fn run_frames(d: Driver, flags: Seq<bool>) -> Driver
    decreases flags.len(),
{
    if flags.len() == 0 {
        d
    } else {
        run_frames(frame_spec(d, flags[0]).0, flags.drop_first())
    }
}

impl Driver {
    pub open spec fn is_stopped(self) -> bool {
        self.state is Stopped
    }

    /// A new loop starts scheduled, with no tick run yet.
    pub fn new() -> (d: Driver)
        ensures
            d == (Driver { state: DriverState::Scheduled, ticks: 0 }),
            !d.is_stopped(),
    {
        Driver { state: DriverState::Scheduled, ticks: 0 }
    }

    pub fn stopped(&self) -> (b: bool)
        ensures
            b == self.is_stopped(),
    {
        match self.state {
            DriverState::Stopped => true,
            DriverState::Scheduled => false,
        }
    }

    /// One scheduler call. Returns whether the host should run the tick
    /// callback and request the next frame; false means the loop has ended
    /// and the host must release its retained handle. The tick count moves
    /// by exactly one per call that runs, and is frozen once stopped.
    pub fn on_frame(&mut self, stop_flag: bool) -> (run: bool)
        requires
            old(self).ticks < u64::MAX,
        ensures
            (*final(self), run) == frame_spec(*old(self), stop_flag),
            run == (!old(self).is_stopped() && !stop_flag),
            final(self).is_stopped() == (old(self).is_stopped() || stop_flag),
            run ==> final(self).ticks == old(self).ticks + 1,
            !run ==> final(self).ticks == old(self).ticks,
    {
        match self.state {
            DriverState::Stopped => false,
            DriverState::Scheduled => {
                if stop_flag {
                    self.state = DriverState::Stopped;
                    false
                } else {
                    self.ticks = self.ticks + 1;
                    true
                }
            },
        }
    }
}

/// Stopping is terminal: a stopped driver runs no tick and does not change,
/// whatever stop-flag reading the scheduler call delivers.
pub proof fn lemma_stopped_frame(d: Driver, stop_flag: bool)
    requires
        d.is_stopped(),
    ensures
        frame_spec(d, stop_flag) == (d, false),
{
}

/// Once stopped, the driver outlasts any number of further scheduler calls
/// unchanged: no tick ever runs again and the tick count stays frozen.
pub proof fn lemma_stopped_run(d: Driver, flags: Seq<bool>)
    requires
        d.is_stopped(),
    ensures
        run_frames(d, flags) == d,
    decreases flags.len(),
{
    if flags.len() > 0 {
        lemma_stopped_frame(d, flags[0]);
        lemma_stopped_run(frame_spec(d, flags[0]).0, flags.drop_first());
    }
}

} // verus!
