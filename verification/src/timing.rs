//! Fixed-timestep tick scheduler.
//!
//! A frame hands the scheduler the elapsed time; the scheduler answers how
//! many simulation ticks to run, at most three per frame, from an
//! accumulator of unspent time. Time is measured in microseconds.

use vstd::prelude::*;

verus! {

/// One second, in the scheduler's microsecond time unit.
pub const MICROS_PER_SECOND: u32 = 1_000_000;

/// Hard cap on ticks per frame, bounding latency spikes.
pub const MAX_TICKS_PER_FRAME: u32 = 3;

/// Slowest accepted tick rate, in ticks per second.
pub const MIN_TICK_RATE: u32 = 1;

/// Fastest accepted tick rate, in ticks per second.
pub const MAX_TICK_RATE: u32 = 60;

/// The microseconds between ticks at a given rate.
pub open spec fn spec_tick_interval(rate: u32) -> int {
    MICROS_PER_SECOND as int / rate as int
}

/// Frame-timing state: pause flag, single-step flag, tick rate, and the
/// accumulator of time not yet spent on ticks.
#[derive(Debug, Clone, Copy, PartialEq, Eq, Structural)]
pub struct FrameTiming {
    pub frame_count: u64,
    pub last_dt: u32,
    pub tick_accumulator: u32,
    pub tick_rate: u32,
    pub paused: bool,
    pub single_step: bool,
}

impl FrameTiming {
    /// The tick rate is in range and the accumulator never holds more than
    /// the largest interval of unspent time. A rate change can leave the
    /// accumulator above the new, smaller interval; the catch-up rule of
    /// `ticks_due` absorbs that on the next frame.
    pub open spec fn wf(self) -> bool {
        &&& MIN_TICK_RATE <= self.tick_rate <= MAX_TICK_RATE
        &&& self.tick_accumulator <= MICROS_PER_SECOND
    }

    pub fn new() -> (r: Self)
        ensures
            r.wf(),
            r == (FrameTiming {
                frame_count: 0u64,
                last_dt: 0u32,
                tick_accumulator: 0u32,
                tick_rate: 10u32,
                paused: false,
                single_step: false,
            }),
    {
        FrameTiming {
            frame_count: 0,
            last_dt: 0,
            tick_accumulator: 0,
            tick_rate: 10,
            paused: false,
            single_step: false,
        }
    }

    /// Record one frame and the time it took.
    pub fn update(&mut self, dt: u32)
        requires
            old(self).frame_count < u64::MAX,
        ensures
            *final(self) == (FrameTiming {
                frame_count: (old(self).frame_count + 1) as u64,
                last_dt: dt,
                ..*old(self)
            }),
    {
        self.frame_count = self.frame_count + 1;
        self.last_dt = dt;
    }

    /// How many simulation ticks to run this frame.
    ///
    /// Paused without a pending single step: none. A pending single step:
    /// exactly one, and the flag is consumed. Otherwise the frame time joins
    /// the accumulator; when the accumulator has fallen more than three
    /// intervals behind it resets to zero and three ticks run (catching up
    /// further would spiral), else one tick runs per full interval
    /// accumulated, at most three.
    pub fn ticks_due(&mut self, dt: u32) -> (r: u32)
        requires
            old(self).wf(),
            dt <= 0xf000_0000,
        ensures
            final(self).wf(),
            r <= MAX_TICKS_PER_FRAME,
            final(self).tick_rate == old(self).tick_rate,
            final(self).paused == old(self).paused,
            final(self).frame_count == old(self).frame_count,
            final(self).last_dt == old(self).last_dt,
            old(self).paused && !old(self).single_step ==> {
                &&& r == 0
                &&& *final(self) == *old(self)
            },
            old(self).single_step ==> {
                &&& r == 1
                &&& *final(self) == (FrameTiming { single_step: false, ..*old(self) })
            },
            !old(self).paused && !old(self).single_step ==> {
                let acc = old(self).tick_accumulator as int + dt as int;
                let interval = spec_tick_interval(old(self).tick_rate);
                &&& final(self).single_step == false
                &&& (acc > 3 * interval ==> r == 3 && final(self).tick_accumulator == 0)
                &&& (acc <= 3 * interval ==> {
                    &&& r == acc / interval
                    &&& final(self).tick_accumulator == acc % interval
                })
            },
    {
        if self.paused && !self.single_step {
            return 0;
        }

        if self.single_step {
            self.single_step = false;
            return 1;
        }

        let interval: u32 = MICROS_PER_SECOND / self.tick_rate;
        proof {
            assert(interval as int == spec_tick_interval(self.tick_rate));
            assert(interval >= MICROS_PER_SECOND / MAX_TICK_RATE) by (nonlinear_arith)
                requires
                    interval == MICROS_PER_SECOND / self.tick_rate,
                    MIN_TICK_RATE <= self.tick_rate <= MAX_TICK_RATE;
        }
        let mut acc: u32 = self.tick_accumulator + dt;
        let ghost acc0 = acc as int;

        if acc > interval * 3 {
            self.tick_accumulator = 0;
            return 3;
        }

        let mut ticks: u32 = 0;
        while acc >= interval && ticks < 3
            invariant
                0 < interval,
                ticks <= 3,
                acc0 == acc as int + ticks as int * interval as int,
                acc0 <= 3 * interval as int,
            decreases acc,
        {
            proof {
                assert((ticks as int + 1) * interval as int
                    == ticks as int * interval as int + interval as int) by (nonlinear_arith);
            }
            acc = acc - interval;
            ticks = ticks + 1;
        }
        proof {
            if ticks < 3 {
                vstd::arithmetic::div_mod::lemma_fundamental_div_mod_converse(
                    acc0, interval as int, ticks as int, acc as int);
            } else {
                assert(acc as int == acc0 - 3 * interval as int);
                assert(acc0 == 3 * interval as int);
                vstd::arithmetic::div_mod::lemma_fundamental_div_mod_converse(
                    acc0, interval as int, 3, 0);
            }
        }
        self.tick_accumulator = acc;
        ticks
    }

    pub fn toggle_pause(&mut self)
        ensures
            *final(self) == (FrameTiming { paused: !old(self).paused, ..*old(self) }),
    {
        self.paused = !self.paused;
    }

    pub fn set_paused(&mut self, paused: bool)
        ensures
            *final(self) == (FrameTiming { paused, ..*old(self) }),
    {
        self.paused = paused;
    }

    /// Ask for exactly one tick on the next frame, even while paused.
    pub fn request_single_step(&mut self)
        ensures
            *final(self) == (FrameTiming { single_step: true, ..*old(self) }),
    {
        self.single_step = true;
    }

    /// Set the tick rate, clamped to the accepted range. Nothing else
    /// changes; in particular the accumulated unspent time is kept.
    pub fn set_tick_rate(&mut self, rate: u32)
        requires
            old(self).wf(),
        ensures
            final(self).wf(),
            *final(self) == (FrameTiming { tick_rate: spec_clamp_rate(rate), ..*old(self) }),
    {
        let clamped = if rate < MIN_TICK_RATE {
            MIN_TICK_RATE
        } else if rate > MAX_TICK_RATE {
            MAX_TICK_RATE
        } else {
            rate
        };
        self.tick_rate = clamped;
    }
}

/// A tick rate clamped to the accepted range.
pub open spec fn spec_clamp_rate(rate: u32) -> u32 {
    if rate < MIN_TICK_RATE { MIN_TICK_RATE }
    else if rate > MAX_TICK_RATE { MAX_TICK_RATE }
    else { rate }
}

} // verus!
