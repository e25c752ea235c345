use vstd::prelude::*;

verus! {

/// The exact counters behind the runtime diagnostics overlay: physics steps
/// run and dropped since start-up, and frames seen in the current reporting
/// interval.
pub struct RuntimeDiagnosticsCounters {
    total_physics_steps: usize,
    total_dropped_steps: usize,
    interval_frame_count: usize,
}

impl RuntimeDiagnosticsCounters {
    /// Physics steps run since start-up.
    pub closed spec fn physics_total(self) -> nat {
        self.total_physics_steps as nat
    }

    /// Physics steps dropped since start-up.
    pub closed spec fn dropped_total(self) -> nat {
        self.total_dropped_steps as nat
    }

    /// Frames counted in the current interval.
    pub closed spec fn interval_frames(self) -> nat {
        self.interval_frame_count as nat
    }

    /// All counters at zero.
    pub fn new() -> (counters: RuntimeDiagnosticsCounters)
        ensures
            counters.physics_total() == 0,
            counters.dropped_total() == 0,
            counters.interval_frames() == 0,
    {
        RuntimeDiagnosticsCounters { total_physics_steps: 0, total_dropped_steps: 0, interval_frame_count: 0 }
    }

    /// Adds one frame's run and dropped physics steps to the totals.
    pub fn record_steps(&mut self, physics_steps_this_frame: usize, dropped_steps_this_frame: usize)
        requires
            old(self).physics_total() + physics_steps_this_frame <= usize::MAX,
            old(self).dropped_total() + dropped_steps_this_frame <= usize::MAX,
        ensures
            final(self).physics_total() == old(self).physics_total() + physics_steps_this_frame,
            final(self).dropped_total() == old(self).dropped_total() + dropped_steps_this_frame,
            final(self).interval_frames() == old(self).interval_frames(),
    {
        self.total_physics_steps = self.total_physics_steps + physics_steps_this_frame;
        self.total_dropped_steps = self.total_dropped_steps + dropped_steps_this_frame;
    }

    /// Counts one more frame in the current interval.
    pub fn count_interval_frame(&mut self)
        requires
            old(self).interval_frames() < usize::MAX,
        ensures
            final(self).interval_frames() == old(self).interval_frames() + 1,
            final(self).physics_total() == old(self).physics_total(),
            final(self).dropped_total() == old(self).dropped_total(),
    {
        self.interval_frame_count = self.interval_frame_count + 1;
    }

    /// Starts a new reporting interval.
    pub fn reset_interval(&mut self)
        ensures
            final(self).interval_frames() == 0,
            final(self).physics_total() == old(self).physics_total(),
            final(self).dropped_total() == old(self).dropped_total(),
    {
        self.interval_frame_count = 0;
    }

    /// Physics steps run since start-up.
    pub fn total_physics_steps(&self) -> (total: usize)
        ensures
            total == self.physics_total(),
    {
        self.total_physics_steps
    }

    /// Physics steps dropped since start-up.
    pub fn total_dropped_steps(&self) -> (total: usize)
        ensures
            total == self.dropped_total(),
    {
        self.total_dropped_steps
    }

    /// Frames counted in the current interval.
    pub fn interval_frame_count(&self) -> (count: usize)
        ensures
            count == self.interval_frames(),
    {
        self.interval_frame_count
    }
}

} // verus!
