use vstd::prelude::*;

verus! {

/// How many fixed physics steps one rendered frame runs, and how many
/// overdue steps it drops to stay responsive.
#[derive(Clone, Copy, Debug, PartialEq, Eq, Structural)]
pub struct FramePhysicsSchedule {
    pub steps_to_run: usize,
    pub dropped_steps: usize,
}

impl FramePhysicsSchedule {
    /// The schedule of a frame that runs no physics (the first frame, which
    /// only starts the clock).
    pub fn idle() -> (schedule: FramePhysicsSchedule)
        ensures
            schedule.steps_to_run == 0,
            schedule.dropped_steps == 0,
    {
        FramePhysicsSchedule { steps_to_run: 0, dropped_steps: 0 }
    }

    /// Splits the `due_steps` that the accumulated simulation time calls for
    /// into the steps this frame runs (at most `max_steps_per_frame`) and the
    /// steps it drops.
    pub fn from_due_steps(due_steps: usize, max_steps_per_frame: usize) -> (schedule: FramePhysicsSchedule)
        ensures
            schedule.steps_to_run == if due_steps < max_steps_per_frame { due_steps } else { max_steps_per_frame },
            schedule.steps_to_run + schedule.dropped_steps == due_steps,
            schedule.steps_to_run <= max_steps_per_frame,
            schedule.dropped_steps > 0 ==> schedule.steps_to_run == max_steps_per_frame,
    {
        let steps_to_run = if due_steps < max_steps_per_frame { due_steps } else { max_steps_per_frame };
        FramePhysicsSchedule { steps_to_run, dropped_steps: due_steps - steps_to_run }
    }
}

} // verus!
