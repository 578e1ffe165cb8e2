//! Step execution state machine (stepper).
//!
//! The stepper owns at most one block at a time. A periodic timing source
//! drives `step_interrupt_handler`, which advances the step counter once
//! per tick, selects the current profile phase from the counter, derives
//! the instantaneous step rate for the tick, converts it into the delay
//! until the next tick, and reports completion so the owning context can
//! retire the block from the motion queue.

use vstd::prelude::*;

verus! {

use crate::commandbuffer::Block;
use vstd::arithmetic::div_mod::lemma_div_by_multiple;
use vstd::arithmetic::div_mod::lemma_div_is_ordered;
use vstd::arithmetic::div_mod::lemma_div_pos_is_pos;

/// Microseconds in one second: instantaneous rates convert to tick delays
/// through this constant.
pub const MICROS_PER_SECOND: u64 = 1_000_000;

/// The delay until the next timing tick for a given instantaneous step
/// rate; a rate of zero falls back to a full one-second tick.
pub open spec fn delay_us_spec(rate: int) -> int {
    if rate <= 0 {
        MICROS_PER_SECOND as int
    } else {
        MICROS_PER_SECOND as int / rate
    }
}

impl Block {
    /// The instantaneous step rate at step index `c` of this block:
    /// linear interpolation from the entry rate to the nominal rate over
    /// the accelerating leg, the nominal rate across the plateau, and
    /// linear interpolation down to the exit rate over the decelerating
    /// leg, reaching the exit rate exactly on the final step. A
    /// zero-length move has rate zero.
    pub open spec fn step_rate_spec(self, c: int) -> int {
        let sec = self.steps.step_event_count as int;
        let nom = self.nominal_rate as int;
        let entry = self.entry_rate as int;
        let exit = self.exit_rate as int;
        let au = self.accel_until as int;
        let da = self.decel_after as int;
        if sec <= 0 {
            0
        } else if c < au {
            entry + (nom - entry) * c / au
        } else if c < da {
            nom
        } else {
            nom - (nom - exit) * (c + 1 - da) / (sec - da)
        }
    }

    /// Computes the instantaneous step rate for step index `c`.
    pub fn step_rate(&self, c: i32) -> (r: u64)
        requires
            self.wf(),
            0 <= c,
            c < self.steps.step_event_count || c == 0,
        ensures
            r as int == self.step_rate_spec(c as int),
            r <= self.nominal_rate,
    {
        let sec: i32 = self.steps.step_event_count;
        if sec <= 0 {
            return 0;
        }
        let au: i32 = self.accel_until;
        let da: i32 = self.decel_after;
        if c < au {
            // Accelerating: entry_rate toward nominal_rate, linear in the
            // step count. Here c < au, so au >= 1.
            let diff: u64 = self.nominal_rate - self.entry_rate;
            proof {
                assert((diff as int * c as int) < 0x1_0000_0000_0000_0000_0000_0000)
                    by (nonlinear_arith)
                    requires
                        0 <= diff as int,
                        (diff as int) < 0x1_0000_0000_0000_0000,
                        0 <= c as int,
                        (c as int) < 0x1_0000_0000,
                ;
            }
            let q: u128 = (diff as u128) * (c as u128) / (au as u128);
            proof {
                assert(0 <= diff as int * c as int && diff as int * c as int
                    <= diff as int * au as int) by (nonlinear_arith)
                    requires
                        0 <= diff as int,
                        0 <= c as int,
                        c as int <= au as int,
                ;
                lemma_div_is_ordered(
                    diff as int * c as int,
                    diff as int * au as int,
                    au as int,
                );
                lemma_div_by_multiple(diff as int, au as int);
                lemma_div_pos_is_pos(diff as int * c as int, au as int);
            }
            self.entry_rate + (q as u64)
        } else if c < da {
            // Plateau: constant nominal rate.
            self.nominal_rate
        } else {
            // Decelerating: nominal_rate toward exit_rate, reaching it on
            // the final step. Here da <= c < sec, so the span is positive.
            let span: i32 = sec - da;
            let taken: i32 = c + 1 - da;
            let diff: u64 = self.nominal_rate - self.exit_rate;
            proof {
                assert((diff as int * taken as int) < 0x1_0000_0000_0000_0000_0000_0000)
                    by (nonlinear_arith)
                    requires
                        0 <= diff as int,
                        (diff as int) < 0x1_0000_0000_0000_0000,
                        0 <= taken as int,
                        (taken as int) < 0x1_0000_0000,
                ;
            }
            let q: u128 = (diff as u128) * (taken as u128) / (span as u128);
            proof {
                assert(0 <= diff as int * taken as int && diff as int * taken as int
                    <= diff as int * span as int) by (nonlinear_arith)
                    requires
                        0 <= diff as int,
                        0 <= taken as int,
                        taken as int <= span as int,
                ;
                lemma_div_is_ordered(
                    diff as int * taken as int,
                    diff as int * span as int,
                    span as int,
                );
                lemma_div_by_multiple(diff as int, span as int);
                lemma_div_pos_is_pos(diff as int * taken as int, span as int);
            }
            self.nominal_rate - (q as u64)
        }
    }
}

/// What one timing tick observed: nothing to do, or one step executed at a
/// given instantaneous rate, with the delay until the next tick and a flag
/// reporting that the block just completed.
#[derive(Clone, Copy, PartialEq, Eq, Structural, Debug)]
pub enum StepResult {
    /// No block is active.
    Idle,
    /// One step was executed.
    Stepped {
        /// The instantaneous step rate of this tick, steps/s.
        rate: u64,
        /// The delay until the next tick, microseconds.
        delay_us: u64,
        /// The active block completed on this step; the owner should
        /// advance the motion queue's tail.
        done: bool,
    },
}

/// The step execution state machine: idle, or executing one block with a
/// step counter.
pub struct Stepper {
    /// The active block, if any.
    pub current_block: Option<Block>,
    /// Steps taken of the active block.
    pub step_count: i32,
    /// Reserved accumulator for time spent accelerating; kept at zero.
    pub acceleration_time: i32,
    /// Reserved accumulator for time spent decelerating; kept at zero.
    pub deceleration_time: i32,
}

impl Stepper {
    /// While a block is active the counter stays within it, so the next
    /// tick neither overflows nor runs past the block.
    pub open spec fn wf(self) -> bool {
        match self.current_block {
            Some(b) => b.wf() && 0 <= self.step_count && (self.step_count
                < b.steps.step_event_count || self.step_count == 0),
            None => true,
        }
    }

    /// Starts idle.
    pub fn new() -> (s: Stepper)
        ensures
            s.wf(),
            s.current_block is None,
            s.step_count == 0,
            s.acceleration_time == 0,
            s.deceleration_time == 0,
    {
        Stepper { current_block: None, step_count: 0, acceleration_time: 0, deceleration_time: 0 }
    }

    /// Takes ownership of a block and resets the step counter: the
    /// hand-off point between the motion queue and the timing context. The
    /// caller retires the same block from the queue's tail.
    pub fn execute_block(&mut self, block: Block)
        requires
            block.wf(),
        ensures
            final(self).wf(),
            final(self).current_block == Some(block),
            final(self).step_count == 0,
            final(self).acceleration_time == old(self).acceleration_time,
            final(self).deceleration_time == old(self).deceleration_time,
    {
        self.current_block = Some(block);
        self.step_count = 0;
    }

    /// One invocation per periodic timing tick. With an active block it
    /// executes one step: it derives the instantaneous rate of this step
    /// from the profile phase, converts it to the delay until the next
    /// tick, increments the step counter, and, once the counter reaches
    /// the block's step event count, completes the block and returns to
    /// idle, reporting the completion.
    pub fn step_interrupt_handler(&mut self) -> (r: StepResult)
        requires
            old(self).wf(),
        ensures
            final(self).wf(),
            old(self).current_block is None ==> r == StepResult::Idle && *final(self)
                == *old(self),
            old(self).current_block matches Some(b) ==> {
                let rate = b.step_rate_spec(old(self).step_count as int);
                let done = old(self).step_count + 1 >= b.steps.step_event_count;
                &&& final(self).step_count == old(self).step_count + 1
                &&& r == (StepResult::Stepped {
                    rate: rate as u64,
                    delay_us: delay_us_spec(rate) as u64,
                    done,
                })
                &&& (done <==> final(self).current_block is None)
                &&& (!done ==> final(self).current_block == Some(b))
                &&& final(self).acceleration_time == old(self).acceleration_time
                &&& final(self).deceleration_time == old(self).deceleration_time
            },
    {
        match self.current_block {
            None => StepResult::Idle,
            Some(block) => {
                let rate: u64 = block.step_rate(self.step_count);
                let delay_us: u64 = if rate == 0 {
                    MICROS_PER_SECOND
                } else {
                    MICROS_PER_SECOND / rate
                };
                self.step_count = self.step_count + 1;
                let done: bool = self.step_count >= block.steps.step_event_count;
                if done {
                    self.current_block = None;
                }
                StepResult::Stepped { rate, delay_us, done }
            },
        }
    }
}

} // verus!