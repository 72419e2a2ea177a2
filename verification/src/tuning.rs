//! The constants of the player controller and the arithmetic of rates.
//!
//! A rate is a whole number of distance units per second and a frame time is
//! a whole number of nanoseconds, so the distance covered in a frame is
//! `rate * dt / NANOS_PER_SECOND`, rounded down to a whole unit. The constants
//! are in pixels and pixels per second; a caller whose unit is a fraction of a
//! pixel scales them.

use vstd::prelude::*;

verus! {

pub const NANOS_PER_SECOND: u64 = 1_000_000_000;

/// The side of the player's sprite, in pixels.
pub const PLAYER_SIZE: u32 = 64;

/// The player's horizontal speed, in pixels per second.
pub const PLAYER_SPEED: u32 = 500;

/// The speed that gravity settles a falling body at, in pixels per second.
pub const FALL_SPEED: u32 = 1080;

/// The height of a jump, in pixels.
pub const JUMP_FORCE: u32 = 500;

/// The multiple of the fall speed at which a jump rises: twice.
pub const JUMP_FACTOR_NUMERATOR: u16 = 2;

pub const JUMP_FACTOR_DENOMINATOR: u16 = 1;

/// The period of the animation timer, a tenth of a second.
pub const ANIMATION_FRAME_TIME: u64 = 100_000_000;

/// The distance covered in `dt` nanoseconds at `rate` units per second,
/// rounded down.
pub open spec fn travel(rate: int, dt: int) -> int {
    rate * dt / (NANOS_PER_SECOND as int)
}

/// What the player controller is configured with.
#[derive(Clone, Copy, Debug, PartialEq, Eq, Structural)]
pub struct Tuning {
    /// Horizontal speed, in units per second.
    pub speed: u32,
    /// The height that one jump rises by.
    pub jump_force: u32,
    /// The fall speed, in units per second; a jump rises at a multiple of it.
    pub fall_speed: u32,
    /// The multiple of the fall speed at which a jump rises, as a fraction.
    pub jump_factor_numerator: u16,
    pub jump_factor_denominator: u16,
}

impl Tuning {
    /// The jump factor is a fraction: its denominator is not zero.
    pub open spec fn wf(self) -> bool {
        self.jump_factor_denominator > 0
    }

    /// The most that a jump can rise in a frame of length `dt`: the frame
    /// time times the fall speed times the jump factor, rounded down.
    pub open spec fn rise_limit(self, dt: int) -> int {
        dt * self.fall_speed * self.jump_factor_numerator / (NANOS_PER_SECOND
            * self.jump_factor_denominator)
    }

    /// The rise of a jump with `remaining` height left, in a frame of length
    /// `dt`: the frame's limit, or what is left if that is less.
    pub open spec fn jump_step(self, remaining: int, dt: int) -> int {
        if remaining <= self.rise_limit(dt) {
            remaining
        } else {
            self.rise_limit(dt)
        }
    }

    /// What is left of a jump that had `remaining` left, after frames of the
    /// lengths `dts`, in their order.
    pub open spec fn remaining_after(self, remaining: int, dts: Seq<u64>) -> int
        decreases dts.len(),
    {
        if dts.len() == 0 {
            remaining
        } else {
            let before = self.remaining_after(remaining, dts.drop_last());
            before - self.jump_step(before, dts.last() as int)
        }
    }

    /// The height that a jump with `remaining` left gains over frames of the
    /// lengths `dts`: the sum of the frames' steps.
    pub open spec fn rise_over(self, remaining: int, dts: Seq<u64>) -> int
        decreases dts.len(),
    {
        if dts.len() == 0 {
            0
        } else {
            self.rise_over(remaining, dts.drop_last()) + self.jump_step(
                self.remaining_after(remaining, dts.drop_last()),
                dts.last() as int,
            )
        }
    }

    /// The sum of the limits of frames of the lengths `dts`.
    pub open spec fn limit_over(self, dts: Seq<u64>) -> int
        decreases dts.len(),
    {
        if dts.len() == 0 {
            0
        } else {
            self.limit_over(dts.drop_last()) + self.rise_limit(dts.last() as int)
        }
    }

    /// Computes `jump_step`.
    pub fn step_of_jump(&self, remaining: u32, dt: u64) -> (step: u32)
        requires
            self.wf(),
        ensures
            step == self.jump_step(remaining as int, dt as int),
            step <= remaining,
    {
        assert(dt * self.fall_speed <= 0xffff_ffff_ffff_ffff * 0xffff_ffff) by (nonlinear_arith)
            requires
                0 <= dt <= 0xffff_ffff_ffff_ffff,
                0 <= self.fall_speed <= 0xffff_ffff,
        ;
        let paced: u128 = dt as u128 * self.fall_speed as u128;
        assert(paced * self.jump_factor_numerator <= 0xffff_ffff_ffff_ffff * 0xffff_ffff * 0xffff)
            by (nonlinear_arith)
            requires
                0 <= paced <= 0xffff_ffff_ffff_ffff * 0xffff_ffff,
                0 <= self.jump_factor_numerator <= 0xffff,
        ;
        let scaled: u128 = paced * self.jump_factor_numerator as u128;
        assert(0 < NANOS_PER_SECOND * self.jump_factor_denominator <= 1_000_000_000 * 0xffff)
            by (nonlinear_arith)
            requires
                NANOS_PER_SECOND == 1_000_000_000,
                0 < self.jump_factor_denominator <= 0xffff,
        ;
        let divisor: u128 = NANOS_PER_SECOND as u128 * self.jump_factor_denominator as u128;
        let limit: u128 = scaled / divisor;
        if remaining as u128 <= limit {
            remaining
        } else {
            limit as u32
        }
    }
}

/// Computes `travel`.
pub fn distance_covered(rate: u32, dt: u64) -> (distance: u128)
    ensures
        distance == travel(rate as int, dt as int),
{
    assert(rate * dt <= 0xffff_ffff * 0xffff_ffff_ffff_ffff) by (nonlinear_arith)
        requires
            0 <= rate <= 0xffff_ffff,
            0 <= dt <= 0xffff_ffff_ffff_ffff,
    ;
    rate as u128 * dt as u128 / NANOS_PER_SECOND as u128
}

/// No frame lets a jump rise by less than nothing.
pub proof fn lemma_rise_limit_is_not_negative(tuning: Tuning, dt: u64)
    requires
        tuning.wf(),
    ensures
        tuning.rise_limit(dt as int) >= 0,
{
    let product = dt * tuning.fall_speed * tuning.jump_factor_numerator;
    let divisor = NANOS_PER_SECOND * tuning.jump_factor_denominator;
    assert(product >= 0) by (nonlinear_arith)
        requires
            product == dt * tuning.fall_speed * tuning.jump_factor_numerator,
    ;
    assert(divisor > 0) by (nonlinear_arith)
        requires
            divisor == NANOS_PER_SECOND * tuning.jump_factor_denominator,
            NANOS_PER_SECOND == 1_000_000_000,
            tuning.jump_factor_denominator > 0,
    ;
    vstd::arithmetic::div_mod::lemma_div_pos_is_pos(product, divisor);
}

/// A jump rises by its force, exactly, and never by more.
///
/// Over any frames, whatever their lengths, what the jump has gained and what
/// it has left add up to what it started with. The gain is the sum of the
/// frames' limits until that sum reaches the jump's force, and the force from
/// then on: so the jump is over once the limits add up to its force, and a
/// jump that is over has risen by exactly its force.
pub proof fn lemma_jump_rises_by_its_force(tuning: Tuning, force: u32, dts: Seq<u64>)
    requires
        tuning.wf(),
    ensures
        tuning.rise_over(force as int, dts) + tuning.remaining_after(force as int, dts) == force,
        tuning.rise_over(force as int, dts) == if force <= tuning.limit_over(dts) {
            force as int
        } else {
            tuning.limit_over(dts)
        },
        0 <= tuning.rise_over(force as int, dts) <= force,
        0 <= tuning.remaining_after(force as int, dts) <= force,
        0 <= tuning.limit_over(dts),
        tuning.remaining_after(force as int, dts) == 0 <==> force <= tuning.limit_over(dts),
    decreases dts.len(),
{
    if dts.len() > 0 {
        lemma_jump_rises_by_its_force(tuning, force, dts.drop_last());
        lemma_rise_limit_is_not_negative(tuning, dts.last());
    }
}

} // verus!
