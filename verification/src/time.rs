//! Frame clock: smooths the per-frame elapsed time over the last ten
//! frames and counts frames per second.  Reading the wall clock stays
//! outside the verified core; each frame hands in its elapsed time as a
//! fixed-point number of seconds.

use vstd::prelude::*;
use crate::fx::FX_MAX;
use crate::fx::SCALE;
use crate::fx::clip;
use crate::fx::clip128;
use crate::fx::fx_add_s;
use crate::fx::fx_ok;
use crate::fx::tdiv;
use crate::fx::tdiv128;

verus! {

/// Number of frames the smoothed delta time averages over.
pub const HISTORY_LEN: usize = 10;

pub struct Time {
    pub total_time: i64,
    pub delta_time: i64,
    pub smoothed_delta_time: i64,
    pub fps: i64,
    pub frame_count: u64,
    pub delta_time_history: Vec<i64>,
    pub history_index: usize,
}

/// Mathematical model of the clock, with the history as a sequence.
#[verifier::ext_equal]
pub struct TimeView {
    pub total_time: i64,
    pub delta_time: i64,
    pub smoothed_delta_time: i64,
    pub fps: i64,
    pub frame_count: u64,
    pub delta_time_history: Seq<i64>,
    pub history_index: usize,
}

impl View for Time {
    type V = TimeView;

    open spec fn view(&self) -> TimeView {
        TimeView {
            total_time: self.total_time,
            delta_time: self.delta_time,
            smoothed_delta_time: self.smoothed_delta_time,
            fps: self.fps,
            frame_count: self.frame_count,
            delta_time_history: self.delta_time_history@,
            history_index: self.history_index,
        }
    }
}

/// Well-formedness: ten nonnegative in-band history slots and a valid
/// rotation index.
pub open spec fn time_ok(t: TimeView) -> bool {
    &&& t.delta_time_history.len() == HISTORY_LEN
    &&& forall|i: int|
        0 <= i < t.delta_time_history.len() ==> 0 <= #[trigger] t.delta_time_history[i]
            <= FX_MAX
    &&& t.history_index < HISTORY_LEN
    &&& 0 <= t.total_time
    &&& fx_ok(t.total_time as int)
}

/// Raw sum of the history slots.
pub open spec fn history_sum_s(s: Seq<i64>) -> int
    decreases s.len(),
{
    if s.len() == 0 {
        0
    } else {
        history_sum_s(s.drop_last()) + s.last()
    }
}

/// One frame tick: record the elapsed time in the rotating history, take
/// the smoothed delta as the history mean, accumulate the total, and once
/// a whole second has accumulated publish the frame count as the frame
/// rate and start the next second.
pub open spec fn tick_s(t: TimeView, elapsed: i64) -> TimeView {
    let history = t.delta_time_history.update(t.history_index as int, elapsed);
    let smoothed = clip(tdiv(history_sum_s(history), HISTORY_LEN as int)) as i64;
    let total = fx_add_s(t.total_time as int, elapsed as int) as i64;
    let count = if t.frame_count < u64::MAX {
        (t.frame_count + 1) as u64
    } else {
        t.frame_count
    };
    let next_index = ((t.history_index + 1) % (HISTORY_LEN as int)) as usize;
    if total >= SCALE {
        TimeView {
            total_time: 0,
            delta_time: elapsed,
            smoothed_delta_time: smoothed,
            fps: clip(count as int) as i64,
            frame_count: 0,
            delta_time_history: history,
            history_index: next_index,
        }
    } else {
        TimeView {
            total_time: total,
            delta_time: elapsed,
            smoothed_delta_time: smoothed,
            fps: t.fps,
            frame_count: count,
            delta_time_history: history,
            history_index: next_index,
        }
    }
}

impl Time {
    pub fn new() -> (r: Time)
        ensures
            r@.total_time == 0,
            r@.delta_time == 0,
            r@.smoothed_delta_time == 0,
            r@.fps == 0,
            r@.frame_count == 0,
            r@.delta_time_history == Seq::new(HISTORY_LEN as nat, |i: int| 0i64),
            r@.history_index == 0,
            time_ok(r@),
    {
        let mut history: Vec<i64> = Vec::new();
        let mut i: usize = 0;
        while i < HISTORY_LEN
            invariant
                i <= HISTORY_LEN,
                history@.len() == i,
                forall|k: int| 0 <= k < i ==> #[trigger] history@[k] == 0,
            decreases HISTORY_LEN - i,
        {
            history.push(0);
            i += 1;
        }
        let r = Time {
            total_time: 0,
            delta_time: 0,
            smoothed_delta_time: 0,
            fps: 0,
            frame_count: 0,
            delta_time_history: history,
            history_index: 0,
        };
        proof {
            assert(r@.delta_time_history =~= Seq::new(HISTORY_LEN as nat, |i: int| 0i64));
        }
        r
    }

    /// Records one frame of `elapsed` fixed-point seconds.
    pub fn update(&mut self, elapsed: i64)
        requires
            time_ok(old(self)@),
            0 <= elapsed <= FX_MAX,
        ensures
            final(self)@ == tick_s(old(self)@, elapsed),
            time_ok(final(self)@),
    {
        self.delta_time = elapsed;
        self.delta_time_history[self.history_index] = elapsed;
        self.history_index = (self.history_index + 1) % HISTORY_LEN;

        let ghost history = self.delta_time_history@;
        let mut sum: i128 = 0;
        let mut i: usize = 0;
        while i < self.delta_time_history.len()
            invariant
                i <= history.len(),
                history.len() == HISTORY_LEN,
                self.delta_time_history@ == history,
                forall|k: int| 0 <= k < history.len() ==> 0 <= #[trigger] history[k] <= FX_MAX,
                sum as int == history_sum_s(history.subrange(0, i as int)),
                0 <= sum as int <= (i as int) * (FX_MAX as int),
            decreases history.len() - i,
        {
            proof {
                assert(history.subrange(0, i as int + 1).drop_last() =~= history.subrange(
                    0,
                    i as int,
                ));
                assert((i as int + 1) * (FX_MAX as int) == (i as int) * (FX_MAX as int)
                    + FX_MAX as int) by (nonlinear_arith);
            }
            sum = sum + self.delta_time_history[i] as i128;
            i += 1;
        }
        proof {
            assert(history.subrange(0, history.len() as int) =~= history);
            assert((history.len() as int) * (FX_MAX as int) == 10 * (FX_MAX as int))
                by (nonlinear_arith)
                requires history.len() == 10;
        }
        self.smoothed_delta_time = clip128(tdiv128(sum, HISTORY_LEN as i128));

        self.total_time = crate::fx::fx_add(self.total_time, elapsed);
        if self.frame_count < u64::MAX {
            self.frame_count = self.frame_count + 1;
        }
        if self.total_time >= SCALE {
            self.fps = clip128(self.frame_count as i128);
            self.frame_count = 0;
            self.total_time = 0;
        }
        proof {
            assert(self@ =~= tick_s(old(self)@, elapsed));
        }
    }

    /// The elapsed time between frames, averaged over the last ten frames
    /// to reduce fluctuation.
    pub fn delta_time(&self) -> (r: i64)
        ensures
            r == self@.smoothed_delta_time,
    {
        self.smoothed_delta_time
    }

    /// Frames rendered in the last whole second of accumulated time.
    pub fn fps(&self) -> (r: i64)
        ensures
            r == self@.fps,
    {
        self.fps
    }

    /// Time accumulated toward the current frame-rate second.
    pub fn total_time(&self) -> (r: i64)
        ensures
            r == self@.total_time,
    {
        self.total_time
    }
}

} // verus!
