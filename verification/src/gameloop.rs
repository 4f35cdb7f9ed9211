//! The frame driver: windowing, event pumping and rendering live outside
//! the verified core, and hand each frame's elapsed time to the physics
//! world; the loop object itself only schedules fixed sub-steps.

use vstd::prelude::*;
use crate::fx::pos_part;

verus! {

pub struct GameLoop {
}

/// Number of fixed sub-steps of length `h` a frame of `dt` elapsed time
/// runs: time is consumed one whole sub-step at a time until none remains.
pub open spec fn substeps_s(dt: int, h: int) -> int
    decreases pos_part(dt),
{
    if dt <= 0 || h <= 0 {
        0
    } else {
        1 + substeps_s(dt - h, h)
    }
}

/// A frame never runs more sub-steps than it has time units.
pub proof fn lemma_substeps_bounded(dt: int, h: int)
    requires
        h >= 1,
    ensures
        0 <= substeps_s(dt, h) <= pos_part(dt),
    decreases pos_part(dt),
{
    if dt <= 0 {
    } else {
        lemma_substeps_bounded(dt - h, h);
    }
}

impl GameLoop {
    pub fn new() -> (r: GameLoop)
        ensures
            r == (GameLoop {  }),
    {
        GameLoop {  }
    }

    /// Counts the sub-steps a frame of `dt` elapsed time schedules with
    /// sub-step length `h`; the world's update runs exactly this many.
    pub fn substeps(&self, dt: i64, h: i64) -> (r: u64)
        requires
            0 < h,
        ensures
            r as int == substeps_s(dt as int, h as int),
    {
        proof {
            lemma_substeps_bounded(dt as int, h as int);
        }
        let mut remaining = dt;
        let mut count: u64 = 0;
        while remaining > 0
            invariant
                0 < h,
                count as int + substeps_s(remaining as int, h as int) == substeps_s(
                    dt as int,
                    h as int,
                ),
                count as int <= substeps_s(dt as int, h as int),
                substeps_s(dt as int, h as int) <= pos_part(dt as int),
            decreases pos_part(remaining as int),
        {
            proof {
                lemma_substeps_bounded(remaining as int - h as int, h as int);
            }
            count = count + 1;
            remaining = remaining - h;
        }
        count
    }
}

} // verus!
