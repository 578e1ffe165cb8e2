//! Kinematic block model: a requested displacement, its step-domain
//! representation, and the trapezoidal velocity profile derived from it.

use vstd::prelude::*;

verus! {

use vstd::arithmetic::div_mod::lemma_div_by_multiple;
use vstd::arithmetic::div_mod::lemma_div_is_ordered_by_denominator;
use vstd::arithmetic::div_mod::lemma_div_is_ordered;
use vstd::arithmetic::div_mod::lemma_div_nonincreasing;
use vstd::arithmetic::div_mod::lemma_div_pos_is_pos;
use vstd::math::max;
use vstd::math::min;

/// Default acceleration applied to every new block, in units/s^2.
pub const DEFAULT_ACCELERATION: u32 = 1200;
/// Default deceleration applied to every new block, in units/s^2.
/// Kept alongside the acceleration although the current profile uses a
/// single acceleration value for both legs.
pub const DEFAULT_DECELERATION: u32 = 1200;

/// The magnitude of a step count.
pub open spec fn mag(v: int) -> int {
    if v < 0 { -v } else { v }
}

/// A requested displacement expressed in step units per axis.
#[derive(Clone, Copy, PartialEq, Eq, Structural, Debug)]
pub struct Target {
    pub x: i32,
    pub y: i32,
    pub z: i32,
    pub e: i32,
}

impl Target {
    /// Every axis value must have a representable magnitude: the most
    /// negative `i32` has no absolute value of its own type.
    pub open spec fn wf(self) -> bool {
        self.x > i32::MIN && self.y > i32::MIN && self.z > i32::MIN && self.e > i32::MIN
    }
}

/// Per-axis step counts plus the number of step events the block will emit.
#[derive(Clone, Copy, PartialEq, Eq, Structural, Debug)]
pub struct Steps {
    pub x: i32,
    pub y: i32,
    pub z: i32,
    pub e: i32,
    /// The number of step events of the move: the maximum magnitude among
    /// the X, Y and Z axis counts. The extruder axis does not participate.
    pub step_event_count: i32,
}

impl Steps {
    /// The step event count a target demands: `max(|x|, |y|, |z|)`.
    pub open spec fn event_count_spec(t: Target) -> int {
        max(max(mag(t.x as int), mag(t.y as int)), mag(t.z as int))
    }

    /// The value `Steps::new` derives from a target.
    pub open spec fn new_spec(t: Target) -> Steps {
        Steps {
            x: t.x,
            y: t.y,
            z: t.z,
            e: t.e,
            step_event_count: Steps::event_count_spec(t) as i32,
        }
    }

    /// Well-formedness: magnitudes are representable and the stored event
    /// count is exactly the dominant X/Y/Z magnitude.
    pub open spec fn wf(self) -> bool {
        &&& self.x > i32::MIN
        &&& self.y > i32::MIN
        &&& self.z > i32::MIN
        &&& self.e > i32::MIN
        &&& self.step_event_count as int == max(
            max(mag(self.x as int), mag(self.y as int)),
            mag(self.z as int),
        )
    }

    /// The dominant step magnitude over all four axes, used to convert
    /// unit-space rates into step-space rates.
    pub open spec fn dominant(self) -> int {
        max(max(mag(self.x as int), mag(self.y as int)), max(mag(self.z as int), mag(self.e as int)))
    }

    /// The divisor used for rate conversions: the step event count floored
    /// at one, so a degenerate zero-length move divides by one instead of
    /// by zero.
    pub open spec fn rate_divisor(self) -> int {
        max(self.step_event_count as int, 1)
    }

    /// Derives the step-domain representation of a target displacement;
    /// the step event count is the maximum magnitude among X, Y and Z.
    pub fn new(target: Target) -> (s: Steps)
        requires
            target.wf(),
        ensures
            s == Steps::new_spec(target),
            s.wf(),
            s.step_event_count as int == Steps::event_count_spec(target),
    {
        let ax: i32 = if target.x >= 0 { target.x } else { -target.x };
        let ay: i32 = if target.y >= 0 { target.y } else { -target.y };
        let az: i32 = if target.z >= 0 { target.z } else { -target.z };
        let mxy: i32 = if ax >= ay { ax } else { ay };
        let step_event_count: i32 = if mxy >= az { mxy } else { az };
        Steps { x: target.x, y: target.y, z: target.z, e: target.e, step_event_count }
    }
}

impl Default for Steps {
    /// All axis counts zero: the empty move, whose event count is zero.
    fn default() -> (s: Steps)
        ensures
            s == (Steps { x: 0, y: 0, z: 0, e: 0, step_event_count: 0 }),
            s.wf(),
    {
        Steps { x: 0, y: 0, z: 0, e: 0, step_event_count: 0 }
    }
}

/// One planned move: its step counts plus the kinematic fields of its
/// trapezoidal velocity profile. Rates are in steps per second.
#[derive(Clone, Copy, PartialEq, Eq, Structural, Debug)]
pub struct Block {
    pub steps: Steps,
    /// The requested feed rate, in linear units per minute.
    pub feed_rate: u32,
    /// Acceleration in units/s^2.
    pub acceleration: u32,
    /// Deceleration in units/s^2; carried but unused by the current profile.
    pub deceleration: u32,
    /// Step rate at the plateau, steps/s.
    pub nominal_rate: u64,
    /// Step rate at the first step, steps/s.
    pub entry_rate: u64,
    /// Step rate at the final step, steps/s.
    pub exit_rate: u64,
    /// Step index where acceleration ends.
    pub accel_until: i32,
    /// Step index where deceleration begins.
    pub decel_after: i32,
}

impl Block {
    /// The block `Block::new` builds: the derived steps, the requested feed
    /// rate, the default acceleration constants, and placeholder profile
    /// fields that `calculate_trapezoid` overwrites.
    pub open spec fn new_spec(target: Target, feed_rate: u32) -> Block {
        Block {
            steps: Steps::new_spec(target),
            feed_rate,
            acceleration: DEFAULT_ACCELERATION,
            deceleration: DEFAULT_DECELERATION,
            nominal_rate: 300,
            entry_rate: 300,
            exit_rate: 300,
            accel_until: 128,
            decel_after: 128,
        }
    }

    /// Builds a block from a target and a requested feed rate. The profile
    /// fields hold placeholders until the planner recomputes them; the
    /// extruder index is accepted for interface compatibility and does not
    /// influence the block.
    pub fn new(target: Target, feed_rate: u32, extruder: u8) -> (b: Block)
        requires
            target.wf(),
        ensures
            b == Block::new_spec(target, feed_rate),
            b.steps.wf(),
    {
        let _ = extruder;
        let steps: Steps = Steps::new(target);
        Block {
            steps,
            feed_rate,
            acceleration: DEFAULT_ACCELERATION,
            deceleration: DEFAULT_DECELERATION,
            nominal_rate: 300,
            entry_rate: 300,
            exit_rate: 300,
            accel_until: 128,
            decel_after: 128,
        }
    }
}

impl Default for Block {
    /// The empty slot value used to fill a fresh queue.
    fn default() -> (b: Block)
        ensures
            b.steps == (Steps { x: 0, y: 0, z: 0, e: 0, step_event_count: 0 }),
            b.feed_rate == 0 && b.acceleration == 0 && b.deceleration == 0,
            b.nominal_rate == 0 && b.entry_rate == 0 && b.exit_rate == 0,
            b.accel_until == 0 && b.decel_after == 0,
            b.steps.wf(),
    {
        Block {
            steps: Steps::default(),
            feed_rate: 0,
            acceleration: 0,
            deceleration: 0,
            nominal_rate: 0,
            entry_rate: 0,
            exit_rate: 0,
            accel_until: 0,
            decel_after: 0,
        }
    }
}

/// Ceiling division for a nonnegative numerator and positive denominator.
pub open spec fn ceil_div(n: int, d: int) -> int {
    (n + d - 1) / d
}

impl Block {
    /// The plateau step rate this block aims for: the requested feed rate
    /// (units per minute) converted to steps per second along the dominant
    /// axis, `feed_rate * dominant / (60 * max(step_event_count, 1))`.
    pub open spec fn nominal_rate_spec(self) -> int {
        self.feed_rate as int * self.steps.dominant() / (60 * self.steps.rate_divisor())
    }

    /// The block's acceleration converted to step-domain units, steps/s^2.
    pub open spec fn accel_per_s2_spec(self) -> int {
        self.acceleration as int * self.steps.dominant() / self.steps.rate_divisor()
    }

    /// The planned rate at the first step: a move may start neither faster
    /// than the previous move's planned exit rate nor faster than its own
    /// target rate.
    pub open spec fn entry_rate_spec(self, prev_exit_rate: int) -> int {
        min(prev_exit_rate, self.nominal_rate_spec())
    }

    /// Whole steps of the accelerating leg: the constant-acceleration
    /// distance `(v^2 - v0^2) / (2 a)` rounded up, and zero for a
    /// degenerate move whose step-domain acceleration is zero.
    pub open spec fn accel_steps_spec(self, prev_exit_rate: int) -> int {
        let nom = self.nominal_rate_spec();
        let entry = self.entry_rate_spec(prev_exit_rate);
        let acc = self.accel_per_s2_spec();
        if acc <= 0 {
            0
        } else {
            ceil_div(nom * nom - entry * entry, 2 * acc)
        }
    }

    /// Whole steps of the decelerating leg, computed against the planned
    /// exit rate of zero: every block currently plans a full stop.
    pub open spec fn decel_steps_spec(self) -> int {
        let nom = self.nominal_rate_spec();
        let acc = self.accel_per_s2_spec();
        if acc <= 0 {
            0
        } else {
            ceil_div(nom * nom, 2 * acc)
        }
    }

    /// Whether the two legs overlap: no plateau fits, and the profile
    /// degenerates to a triangle.
    pub open spec fn is_triangle(self, prev_exit_rate: int) -> bool {
        self.accel_steps_spec(prev_exit_rate) + self.decel_steps_spec()
            > self.steps.step_event_count as int
    }

    /// Step index where acceleration ends. For a triangle the accelerating
    /// leg is rescaled in proportion, `sec * accel / (accel + decel)`, so
    /// that the two legs meet in the middle and sum to the event count.
    pub open spec fn accel_until_spec(self, prev_exit_rate: int) -> int {
        let a = self.accel_steps_spec(prev_exit_rate);
        let d = self.decel_steps_spec();
        let sec = self.steps.step_event_count as int;
        if a + d > sec {
            sec * a / (a + d)
        } else {
            a
        }
    }

    /// Step index where deceleration begins: the event count minus the
    /// (possibly rescaled) decelerating leg.
    pub open spec fn decel_after_spec(self, prev_exit_rate: int) -> int {
        let a = self.accel_steps_spec(prev_exit_rate);
        let d = self.decel_steps_spec();
        let sec = self.steps.step_event_count as int;
        if a + d > sec {
            sec * a / (a + d)
        } else {
            sec - d
        }
    }

    /// The block as `calculate_trapezoid` leaves it: the same move with its
    /// velocity profile recomputed against the previous block's exit rate.
    pub open spec fn with_trapezoid(self, prev_exit_rate: int) -> Block {
        Block {
            nominal_rate: self.nominal_rate_spec() as u64,
            entry_rate: self.entry_rate_spec(prev_exit_rate) as u64,
            exit_rate: 0,
            accel_until: self.accel_until_spec(prev_exit_rate) as i32,
            decel_after: self.decel_after_spec(prev_exit_rate) as i32,
            ..self
        }
    }

    /// Well-formedness of a computed profile: the phase boundaries are
    /// ordered within the move and no boundary rate exceeds the plateau.
    pub open spec fn profile_wf(self) -> bool {
        &&& 0 <= self.accel_until <= self.decel_after
        &&& self.decel_after <= self.steps.step_event_count
        &&& self.entry_rate <= self.nominal_rate
        &&& self.exit_rate <= self.nominal_rate
    }

    /// A fully well-formed block: consistent step counts and profile.
    pub open spec fn wf(self) -> bool {
        self.steps.wf() && self.profile_wf()
    }
}

/// Law: for every block with consistent step counts and every nonnegative
/// previous exit rate, the recomputed profile satisfies
/// `0 <= accel_until <= decel_after <= step_event_count`, its entry and
/// exit rates never exceed the nominal rate, and when the unclipped legs
/// overlap the stored boundaries reflect a proportional rescale whose legs
/// sum exactly to the step event count.
pub proof fn lemma_trapezoid_bounds(b: Block, prev_exit_rate: int)
    requires
        b.steps.wf(),
        0 <= prev_exit_rate,
    ensures
        0 <= b.nominal_rate_spec() < 0x8000_0000_0000_0000,
        0 <= b.feed_rate as int * b.steps.dominant() < 0x8000_0000_0000_0000,
        0 <= b.acceleration as int * b.steps.dominant() < 0x8000_0000_0000_0000,
        0 <= b.accel_per_s2_spec() < 0x8000_0000_0000_0000,
        0 <= b.entry_rate_spec(prev_exit_rate) <= b.nominal_rate_spec(),
        b.decel_steps_spec() < 0x4000_0000_0000_0000_0000_0000_0000_0000,
        0 <= b.accel_steps_spec(prev_exit_rate) <= b.decel_steps_spec(),
        0 <= b.accel_until_spec(prev_exit_rate) <= b.decel_after_spec(prev_exit_rate),
        b.decel_after_spec(prev_exit_rate) <= b.steps.step_event_count as int,
        b.with_trapezoid(prev_exit_rate).wf(),
        b.is_triangle(prev_exit_rate) ==> b.accel_until_spec(prev_exit_rate)
            + (b.steps.step_event_count as int - b.decel_after_spec(prev_exit_rate))
            == b.steps.step_event_count as int,
{
    let sec = b.steps.step_event_count as int;
    let dom = b.steps.dominant();
    let divi = b.steps.rate_divisor();
    let nom = b.nominal_rate_spec();
    let entry = b.entry_rate_spec(prev_exit_rate);
    let acc = b.accel_per_s2_spec();
    let a = b.accel_steps_spec(prev_exit_rate);
    let d = b.decel_steps_spec();

    assert(0 <= sec && sec <= dom && 1 <= divi);

    // The nominal rate is nonnegative and fits well below 2^63.
    assert(0 <= b.feed_rate as int * dom && b.feed_rate as int * dom < 0x8000_0000_0000_0000)
        by (nonlinear_arith)
        requires
            0 <= b.feed_rate as int,
            (b.feed_rate as int) < 0x1_0000_0000,
            0 <= dom,
            dom < 0x8000_0000,
    ;
    lemma_div_pos_is_pos(b.feed_rate as int * dom, 60 * divi);
    lemma_div_nonincreasing(b.feed_rate as int * dom, 60 * divi);
    assert(0 <= nom < 0x8000_0000_0000_0000);

    // The step-domain acceleration is nonnegative.
    assert(0 <= b.acceleration as int * dom && b.acceleration as int * dom
        < 0x8000_0000_0000_0000) by (nonlinear_arith)
        requires
            0 <= b.acceleration as int,
            (b.acceleration as int) < 0x1_0000_0000,
            0 <= dom,
            dom < 0x8000_0000,
    ;
    lemma_div_pos_is_pos(b.acceleration as int * dom, divi);
    lemma_div_nonincreasing(b.acceleration as int * dom, divi);
    assert(0 <= acc < 0x8000_0000_0000_0000);

    assert(0 <= entry <= nom);

    if acc <= 0 {
        assert(a == 0 && d == 0);
    } else {
        // Each leg is a nonnegative ceiling quotient, and the accelerating
        // leg never exceeds the decelerating one because the entry rate
        // only shrinks its numerator.
        assert(0 <= entry * entry <= nom * nom) by (nonlinear_arith)
            requires
                0 <= entry <= nom,
        ;
        lemma_div_pos_is_pos(nom * nom - entry * entry + 2 * acc - 1, 2 * acc);
        lemma_div_is_ordered(
            nom * nom - entry * entry + 2 * acc - 1,
            nom * nom + 2 * acc - 1,
            2 * acc,
        );
        assert(0 <= a <= d);
        // Each leg stays below 2^126: the ceiling numerator is below
        // 2^126 + 2^64 and the denominator is at least 2.
        assert(nom * nom < 0x4000_0000_0000_0000_0000_0000_0000_0000) by (nonlinear_arith)
            requires
                0 <= nom,
                nom < 0x8000_0000_0000_0000,
        ;
        lemma_div_is_ordered_by_denominator(nom * nom + 2 * acc - 1, 2, 2 * acc);
        assert(d <= (nom * nom + 2 * acc - 1) / 2);
        assert(d < 0x4000_0000_0000_0000_0000_0000_0000_0000);
    }

    if a + d > sec {
        // Triangle: both boundaries land on sec * a / (a + d), which lies
        // inside [0, sec] because a <= a + d.
        let s = a + d;
        assert(1 <= s);
        lemma_div_pos_is_pos(sec * a, s);
        assert(sec * a <= sec * s) by (nonlinear_arith)
            requires
                0 <= sec,
                0 <= a <= s,
        ;
        lemma_div_is_ordered(sec * a, sec * s, s);
        lemma_div_by_multiple(sec, s);
        assert(sec * s / s == sec);
        assert(0 <= sec * a / s <= sec);
    } else {
        assert(0 <= a && a <= sec - d && sec - d <= sec);
    }
    assert(0 <= b.accel_until_spec(prev_exit_rate));
    assert(b.accel_until_spec(prev_exit_rate) <= b.decel_after_spec(prev_exit_rate));
    assert(b.decel_after_spec(prev_exit_rate) <= sec);
}

impl Block {
    /// Recomputes this block's full velocity profile: the nominal step
    /// rate from the requested feed rate, the entry rate from the previous
    /// block's exit rate, a planned exit rate of zero, and the two phase
    /// boundaries from the constant-acceleration distance equation, with
    /// overlapping legs rescaled in proportion so they meet in the middle.
    pub fn calculate_trapezoid(&mut self, prev_exit_rate: u64)
        requires
            old(self).steps.wf(),
        ensures
            *final(self) == old(self).with_trapezoid(prev_exit_rate as int),
            final(self).steps == old(self).steps,
            final(self).wf(),
            final(self).exit_rate == 0,
            final(self).entry_rate as int
                == min(prev_exit_rate as int, final(self).nominal_rate as int),
            old(self).is_triangle(prev_exit_rate as int)
                ==> final(self).accel_until == final(self).decel_after,
    {
        proof {
            lemma_trapezoid_bounds(*self, prev_exit_rate as int);
        }
        let sec_i: i32 = self.steps.step_event_count;

        // Dominant magnitude over all four axes.
        let ax: i32 = if self.steps.x >= 0 { self.steps.x } else { -self.steps.x };
        let ay: i32 = if self.steps.y >= 0 { self.steps.y } else { -self.steps.y };
        let az: i32 = if self.steps.z >= 0 { self.steps.z } else { -self.steps.z };
        let ae: i32 = if self.steps.e >= 0 { self.steps.e } else { -self.steps.e };
        let mxy: i32 = if ax >= ay { ax } else { ay };
        let mze: i32 = if az >= ae { az } else { ae };
        let dom_i: i32 = if mxy >= mze { mxy } else { mze };
        let dom: u128 = dom_i as u128;
        let divisor: u128 = if sec_i >= 1 { sec_i as u128 } else { 1 };
        proof {
            assert(dom as int == old(self).steps.dominant());
            assert(divisor as int == old(self).steps.rate_divisor());
        }

        // 1. Requested feed rate (units/min) into a step rate (steps/s)
        //    along the dominant axis.
        let nominal128: u128 = (self.feed_rate as u128) * dom / (60 * divisor);
        let nominal: u64 = nominal128 as u64;
        proof {
            assert(nominal as int == old(self).nominal_rate_spec());
        }

        // 2. Acceleration (units/s^2) into step-domain acceleration.
        let acc128: u128 = (self.acceleration as u128) * dom / divisor;
        proof {
            assert(acc128 as int == old(self).accel_per_s2_spec());
        }

        // 3. The entry rate respects the previous move's planned exit rate;
        //    the planned exit rate is a full stop.
        let entry: u64 = if prev_exit_rate < nominal { prev_exit_rate } else { nominal };

        // 4. Whole steps of each leg from v^2 = v0^2 + 2 a d, rounded up.
        let nom_sq: u128;
        let ent_sq: u128;
        proof {
            assert((nominal128 as int * nominal128 as int)
                < 0x4000_0000_0000_0000_0000_0000_0000_0000
                && (entry as int * entry as int) <= nominal128 as int * nominal128 as int)
                by (nonlinear_arith)
                requires
                    0 <= entry as int && entry as int <= nominal128 as int,
                    nominal128 < 0x8000_0000_0000_0000u128,
            ;
        }
        nom_sq = nominal128 * nominal128;
        ent_sq = (entry as u128) * (entry as u128);

        let accel_steps: u128;
        let decel_steps: u128;
        if acc128 == 0 {
            accel_steps = 0;
            decel_steps = 0;
        } else {
            let den: u128 = 2 * acc128;
            accel_steps = (nom_sq - ent_sq + den - 1) / den;
            decel_steps = (nom_sq + den - 1) / den;
        }
        proof {
            assert(accel_steps as int
                == old(self).accel_steps_spec(prev_exit_rate as int));
            assert(decel_steps as int == old(self).decel_steps_spec());
        }

        // 5. If the legs overlap there is no plateau: rescale them in
        //    proportion so they sum exactly to the step event count.
        let au_i: i32;
        let da_i: i32;
        let legs: u128 = accel_steps + decel_steps;
        if legs > sec_i as u128 {
            let au_u: u64 = crate::muldiv::mul_div_floor(sec_i as u32, accel_steps, legs);
            au_i = au_u as i32;
            da_i = au_i;
        } else {
            au_i = accel_steps as i32;
            da_i = sec_i - (decel_steps as i32);
        }
        proof {
            assert(au_i as int == old(self).accel_until_spec(prev_exit_rate as int));
            assert(da_i as int == old(self).decel_after_spec(prev_exit_rate as int));
        }

        // 6. Store the profile.
        self.nominal_rate = nominal;
        self.entry_rate = entry;
        self.exit_rate = 0;
        self.accel_until = au_i;
        self.decel_after = da_i;
    }

    /// Decides whether this block is well formed: its step counts are
    /// consistent and its profile satisfies the phase-boundary bounds.
    /// Unverified callers test this before handing a block to the stepper.
    pub fn is_well_formed(&self) -> (r: bool)
        ensures
            r == self.wf(),
    {
        let s: Steps = self.steps;
        let ax: i32 = if s.x > i32::MIN && s.x < 0 { -s.x } else { s.x };
        let ay: i32 = if s.y > i32::MIN && s.y < 0 { -s.y } else { s.y };
        let az: i32 = if s.z > i32::MIN && s.z < 0 { -s.z } else { s.z };
        let mxy: i32 = if ax >= ay { ax } else { ay };
        let mxyz: i32 = if mxy >= az { mxy } else { az };
        s.x > i32::MIN && s.y > i32::MIN && s.z > i32::MIN && s.e > i32::MIN
            && s.step_event_count == mxyz && 0 <= self.accel_until
            && self.accel_until <= self.decel_after && self.decel_after <= s.step_event_count
            && self.entry_rate <= self.nominal_rate && self.exit_rate <= self.nominal_rate
    }
}

} // verus!
