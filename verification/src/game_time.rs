use vstd::prelude::*;

use crate::units::MS;

verus! {

/// Fixed-step period: one fixed tick is consumed per this many milliseconds
/// of accumulated frame time.
pub const MS_PER_UPDATE: MS = 1000;

/// Per-frame timing state. Time is measured in whole milliseconds and comes
/// from a monotonic clock owned by the frame loop; every method here takes
/// the current reading as a plain value.
pub struct GameTime {
    pub start_time: MS,
    pub elapsed_time: MS,
    pub start_frame_time: MS,
    pub previous_frame_time: MS,
    pub delta_time: MS,
    pub fixed_time: MS,
    pub ticks: MS,
    pub fixed_ticks: MS,
    pub fps: i32,
}

impl GameTime {
    /// Fresh timing state, taken at clock reading `now`.
    pub fn new(now: MS) -> (r: GameTime)
        requires
            0 <= now,
        ensures
            r == (GameTime {
                start_time: now,
                elapsed_time: 0,
                start_frame_time: 0,
                previous_frame_time: now,
                delta_time: 0,
                fixed_time: 0,
                ticks: 0,
                fixed_ticks: 0,
                fps: 0,
            }),
    {
        GameTime {
            start_time: now,
            elapsed_time: 0,
            start_frame_time: 0,
            previous_frame_time: now,
            delta_time: 0,
            fixed_time: 0,
            ticks: 0,
            fixed_ticks: 0,
            fps: 0,
        }
    }

    /// Advance the per-frame time data at the start of a frame whose clock
    /// reading is `now`: record the frame boundary, derive the elapsed delta,
    /// feed the fixed-step accumulator, and count the tick.
    pub fn begin_frame(&mut self, now: MS)
        requires
            0 <= old(self).start_frame_time <= now,
            0 <= old(self).fixed_time,
            old(self).fixed_time + (now - old(self).start_frame_time) <= i32::MAX,
            old(self).ticks < i32::MAX,
        ensures
            final(self).previous_frame_time == old(self).start_frame_time,
            final(self).start_frame_time == now,
            final(self).elapsed_time == now - old(self).start_frame_time,
            final(self).delta_time == final(self).elapsed_time,
            final(self).fixed_time == old(self).fixed_time + final(self).elapsed_time,
            final(self).ticks == old(self).ticks + 1,
            final(self).start_time == old(self).start_time,
            final(self).fixed_ticks == old(self).fixed_ticks,
            final(self).fps == old(self).fps,
    {
        self.previous_frame_time = self.start_frame_time;
        self.start_frame_time = now;
        self.elapsed_time = self.start_frame_time - self.previous_frame_time;
        self.delta_time = self.elapsed_time;
        self.fixed_time = self.fixed_time + self.delta_time;
        self.ticks = self.ticks + 1;
    }

    /// Drain the fixed-step accumulator: consume one fixed tick per full
    /// `MS_PER_UPDATE` of accumulated time. The fixed-step body itself is a
    /// hook for deterministic logic and is empty here.
    pub fn run_fixed_updates(&mut self)
        requires
            0 <= old(self).fixed_time,
            0 <= old(self).fixed_ticks,
            old(self).fixed_ticks + old(self).fixed_time as int / MS_PER_UPDATE as int <= i32::MAX,
        ensures
            final(self).fixed_time == old(self).fixed_time as int % (MS_PER_UPDATE as int),
            final(self).fixed_ticks == old(self).fixed_ticks + old(self).fixed_time as int
                / MS_PER_UPDATE as int,
            final(self).start_time == old(self).start_time,
            final(self).elapsed_time == old(self).elapsed_time,
            final(self).start_frame_time == old(self).start_frame_time,
            final(self).previous_frame_time == old(self).previous_frame_time,
            final(self).delta_time == old(self).delta_time,
            final(self).ticks == old(self).ticks,
            final(self).fps == old(self).fps,
    {
        while self.fixed_time >= MS_PER_UPDATE
            invariant
                0 <= self.fixed_time,
                0 <= self.fixed_ticks,
                self.fixed_ticks + self.fixed_time as int / MS_PER_UPDATE as int == old(
                    self,
                ).fixed_ticks + old(self).fixed_time as int / MS_PER_UPDATE as int,
                old(self).fixed_ticks + old(self).fixed_time as int / MS_PER_UPDATE as int
                    <= i32::MAX,
                self.fixed_time as int % (MS_PER_UPDATE as int) == old(self).fixed_time as int % (
                MS_PER_UPDATE as int),
                self.start_time == old(self).start_time,
                self.elapsed_time == old(self).elapsed_time,
                self.start_frame_time == old(self).start_frame_time,
                self.previous_frame_time == old(self).previous_frame_time,
                self.delta_time == old(self).delta_time,
                self.ticks == old(self).ticks,
                self.fps == old(self).fps,
            decreases self.fixed_time,
        {
            proof {
                vstd::arithmetic::div_mod::lemma_div_plus_one(
                    self.fixed_time - MS_PER_UPDATE,
                    MS_PER_UPDATE as int,
                );
                vstd::arithmetic::div_mod::lemma_mod_multiples_vanish(
                    1,
                    self.fixed_time - MS_PER_UPDATE,
                    MS_PER_UPDATE as int,
                );
            }
            self.fixed_ticks = self.fixed_ticks + 1;
            self.fixed_time = self.fixed_time - MS_PER_UPDATE;
        }
        proof {
            vstd::arithmetic::div_mod::lemma_basic_div(
                self.fixed_time as int,
                MS_PER_UPDATE as int,
            );
            vstd::arithmetic::div_mod::lemma_small_mod(
                self.fixed_time as nat,
                MS_PER_UPDATE as nat,
            );
        }
    }

    /// Recompute the frames-per-second estimate from the elapsed frame time,
    /// in whole frames per second. A zero elapsed time leaves the previous
    /// estimate unchanged, so the division can never be by zero.
    pub fn update_fps(&mut self)
        requires
            0 <= old(self).elapsed_time,
        ensures
            old(self).elapsed_time != 0 ==> final(self).fps == 1000int / (old(
                self,
            ).elapsed_time as int),
            old(self).elapsed_time == 0 ==> final(self).fps == old(self).fps,
            final(self).start_time == old(self).start_time,
            final(self).elapsed_time == old(self).elapsed_time,
            final(self).start_frame_time == old(self).start_frame_time,
            final(self).previous_frame_time == old(self).previous_frame_time,
            final(self).delta_time == old(self).delta_time,
            final(self).fixed_time == old(self).fixed_time,
            final(self).ticks == old(self).ticks,
            final(self).fixed_ticks == old(self).fixed_ticks,
    {
        if self.elapsed_time != 0 {
            self.fps = 1000 / self.elapsed_time;
        }
    }
}

} // verus!
