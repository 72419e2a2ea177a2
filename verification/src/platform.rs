//! The platform patrol oscillator.
//!
//! A platform with a patrol range walks one fixed step per frame in its current
//! direction and turns round when, after the move, it has reached or passed an
//! end of the range. The turn is decided after the move, so a platform may
//! overshoot an end by up to one step before it heads back.

use vstd::prelude::*;
use crate::geometry::Point;

verus! {

/// The distance that a patrolling platform covers in a frame, in pixels.
pub const PATROL_STEP: u32 = 1;

/// A platform: a kinematic body with fixed collision half-extents that may
/// patrol horizontally between `min_x` and `max_x`. A platform whose range is
/// empty (`min_x == max_x`) stands still.
#[derive(Clone, Copy, Debug, PartialEq, Eq, Structural)]
pub struct MovingPlatform {
    pub position: Point,
    pub half_width: u32,
    pub half_height: u32,
    /// `1` while heading towards `max_x`, `-1` while heading towards `min_x`.
    pub direction: i32,
    pub min_x: i64,
    pub max_x: i64,
}

/// The patrol of one platform over the mathematical integers.
pub ghost struct Patrol {
    pub x: int,
    pub direction: int,
    pub min_x: int,
    pub max_x: int,
}

impl Patrol {
    /// The direction is one of the two headings and the range is not inverted.
    pub open spec fn wf(self) -> bool {
        &&& self.direction == 1 || self.direction == -1
        &&& self.min_x <= self.max_x
    }

    /// The range has room to move in.
    pub open spec fn patrols(self) -> bool {
        self.min_x < self.max_x
    }

    /// Where one step in the current direction leads.
    pub open spec fn moved(self, step: int) -> int {
        if self.direction == 1 {
            self.x + step
        } else {
            self.x - step
        }
    }

    /// The heading that a platform standing at `x` after its move takes up.
    pub open spec fn facing(self, x: int) -> int {
        if x >= self.max_x {
            -1
        } else if x <= self.min_x {
            1
        } else {
            self.direction
        }
    }

    /// The patrol one frame later.
    pub open spec fn advance(self, step: int) -> Patrol {
        if self.patrols() {
            Patrol { x: self.moved(step), direction: self.facing(self.moved(step)), ..self }
        } else {
            self
        }
    }

    /// The patrol `frames` frames later.
    pub open spec fn advance_by(self, step: int, frames: nat) -> Patrol
        decreases frames,
    {
        if frames == 0 {
            self
        } else {
            self.advance_by(step, (frames - 1) as nat).advance(step)
        }
    }

    /// The platform is within one step of its range and is not heading
    /// further out of it: right of `max_x` it heads left, left of `min_x` it
    /// heads right. A platform that stands still only has to be within one
    /// step of its range.
    pub open spec fn settled(self, step: int) -> bool {
        if !self.patrols() {
            self.min_x - step <= self.x <= self.max_x + step
        } else if self.direction == 1 {
            self.min_x - step <= self.x <= self.max_x
        } else {
            self.min_x <= self.x <= self.max_x + step
        }
    }

    /// How far a patrolling platform is from being settled: nothing for a
    /// settled one, else the distance that it has yet to cover, counting the
    /// step that a platform heading away takes before it turns.
    pub open spec fn astray(self, step: int) -> int {
        if self.settled(step) {
            0
        } else if self.direction == 1 {
            if self.x > self.max_x {
                self.x - self.max_x + step + 1
            } else {
                self.min_x - self.x
            }
        } else {
            if self.x > self.max_x + step {
                self.x - self.max_x
            } else {
                self.min_x - self.x + step + 1
            }
        }
    }
}

impl View for MovingPlatform {
    type V = Patrol;

    open spec fn view(&self) -> Patrol {
        Patrol {
            x: self.position.x as int,
            direction: self.direction as int,
            min_x: self.min_x as int,
            max_x: self.max_x as int,
        }
    }
}

impl MovingPlatform {
    /// The direction is one of the two headings and the range is not inverted.
    pub open spec fn wf(self) -> bool {
        self@.wf()
    }

    /// The next position fits the coordinate type.
    pub open spec fn can_advance(self, step: u32) -> bool {
        self@.patrols() ==> i64::MIN <= self@.moved(step as int) <= i64::MAX
    }

    /// Moves the platform by one frame: one step in its direction, then the
    /// turn at the ends of its range. Only the horizontal position and the
    /// direction change.
    pub fn advance(&mut self, step: u32)
        requires
            old(self).can_advance(step),
        ensures
            final(self)@ == old(self)@.advance(step as int),
            final(self).position.y == old(self).position.y,
            final(self).half_width == old(self).half_width,
            final(self).half_height == old(self).half_height,
    {
        if self.min_x < self.max_x {
            if self.direction == 1 {
                self.position.x = self.position.x + step as i64;
            } else {
                self.position.x = self.position.x - step as i64;
            }
            if self.position.x >= self.max_x {
                self.direction = -1;
            } else if self.position.x <= self.min_x {
                self.direction = 1;
            }
        }
    }
}

/// Moves every platform by one frame, each on its own: no platform's move
/// depends on another's.
pub fn modify_body_translation(platforms: &mut Vec<MovingPlatform>, step: u32)
    requires
        forall|i: int| 0 <= i < old(platforms).len() ==> (#[trigger] old(platforms)[i]).can_advance(step),
    ensures
        final(platforms).len() == old(platforms).len(),
        forall|i: int|
            0 <= i < old(platforms).len() ==> {
                &&& (#[trigger] final(platforms)[i])@ == old(platforms)[i]@.advance(step as int)
                &&& final(platforms)[i].position.y == old(platforms)[i].position.y
                &&& final(platforms)[i].half_width == old(platforms)[i].half_width
                &&& final(platforms)[i].half_height == old(platforms)[i].half_height
            },
{
    let n = platforms.len();
    let mut i: usize = 0;
    while i < n
        invariant
            i <= n,
            platforms.len() == n,
            n == old(platforms).len(),
            forall|j: int| i <= j < n ==> platforms[j] == old(platforms)[j],
            forall|j: int| i <= j < n ==> (#[trigger] old(platforms)[j]).can_advance(step),
            forall|j: int|
                0 <= j < i ==> {
                    &&& (#[trigger] platforms[j])@ == old(platforms)[j]@.advance(step as int)
                    &&& platforms[j].position.y == old(platforms)[j].position.y
                    &&& platforms[j].half_width == old(platforms)[j].half_width
                    &&& platforms[j].half_height == old(platforms)[j].half_height
                },
        decreases n - i,
    {
        let mut platform = platforms[i];
        platform.advance(step);
        platforms[i] = platform;
        i += 1;
    }
}

/// A settled platform stays settled: after any number of frames it is still
/// within one step of its range, `min_x - step <= x <= max_x + step`, and its
/// range is what it was.
pub proof fn lemma_patrol_stays_in_band(p: Patrol, step: int, frames: nat)
    requires
        step >= 0,
        p.settled(step),
    ensures
        p.advance_by(step, frames).settled(step),
        p.min_x - step <= p.advance_by(step, frames).x <= p.max_x + step,
        p.advance_by(step, frames).min_x == p.min_x,
        p.advance_by(step, frames).max_x == p.max_x,
    decreases frames,
{
    if frames > 0 {
        lemma_patrol_stays_in_band(p, step, (frames - 1) as nat);
    }
}

/// Moving a platform by one frame and then by `frames` more is moving it by
/// `frames + 1`.
pub proof fn lemma_advance_by_unfolds_at_the_front(p: Patrol, step: int, frames: nat)
    ensures
        p.advance(step).advance_by(step, frames) == p.advance_by(step, frames + 1),
    decreases frames,
{
    if frames > 0 {
        lemma_advance_by_unfolds_at_the_front(p, step, (frames - 1) as nat);
    } else {
        assert(p.advance_by(step, 1) == p.advance_by(step, 0).advance(step));
    }
}

/// Every patrolling platform settles. Wherever it starts and whichever way
/// it heads, a platform that moves at all is settled after the number of
/// frames that this gives, and by then has covered no more than it was
/// astray; from then on it stays within one step of its range.
pub proof fn lemma_patrol_settles(p: Patrol, step: int) -> (frames: nat)
    requires
        step > 0,
        p.patrols(),
    ensures
        p.advance_by(step, frames).settled(step),
        frames <= p.astray(step),
    decreases p.astray(step),
{
    if p.settled(step) {
        0
    } else {
        let later = lemma_patrol_settles(p.advance(step), step);
        lemma_advance_by_unfolds_at_the_front(p, step, later);
        later + 1
    }
}

/// A platform turns only at the ends of its range. The frame on which it
/// reaches or passes `max_x` leaves it heading left, the frame on which it
/// reaches or passes `min_x` leaves it heading right, and on every other
/// frame it keeps the heading it had.
pub proof fn lemma_turns_only_at_ends(p: Patrol, step: int)
    requires
        p.patrols(),
    ensures
        p.advance(step).x >= p.max_x ==> p.advance(step).direction == -1,
        p.advance(step).x <= p.min_x ==> p.advance(step).direction == 1,
        p.min_x < p.advance(step).x < p.max_x ==> p.advance(step).direction == p.direction,
{
}

/// Heading left is kept until `min_x` is reached: a platform that heads left
/// moves one step left per frame, still heading left, on every frame that
/// leaves it right of `min_x`.
pub proof fn lemma_heads_left_until_min(p: Patrol, step: int, frames: nat)
    requires
        step >= 0,
        p.patrols(),
        p.direction == -1,
        p.x - frames * step > p.min_x,
    ensures
        p.advance_by(step, frames).x == p.x - frames * step,
        p.advance_by(step, frames).direction == -1,
        p.advance_by(step, frames).min_x == p.min_x,
        p.advance_by(step, frames).max_x == p.max_x,
    decreases frames,
{
    if frames > 0 {
        let before = (frames - 1) as nat;
        assert(before * step + step == frames * step) by (nonlinear_arith)
            requires
                before + 1 == frames,
        ;
        lemma_heads_left_until_min(p, step, before);
    } else {
        assert(frames * step == 0) by (nonlinear_arith)
            requires
                frames == 0,
        ;
    }
}

/// Heading right is kept until `max_x` is reached: a platform that heads
/// right moves one step right per frame, still heading right, on every frame
/// that leaves it left of `max_x`.
pub proof fn lemma_heads_right_until_max(p: Patrol, step: int, frames: nat)
    requires
        step >= 0,
        p.patrols(),
        p.direction == 1,
        p.x + frames * step < p.max_x,
    ensures
        p.advance_by(step, frames).x == p.x + frames * step,
        p.advance_by(step, frames).direction == 1,
        p.advance_by(step, frames).min_x == p.min_x,
        p.advance_by(step, frames).max_x == p.max_x,
    decreases frames,
{
    if frames > 0 {
        let before = (frames - 1) as nat;
        assert(before * step + step == frames * step) by (nonlinear_arith)
            requires
                before + 1 == frames,
        ;
        lemma_heads_right_until_max(p, step, before);
    } else {
        assert(frames * step == 0) by (nonlinear_arith)
            requires
                frames == 0,
        ;
    }
}

/// A settled platform whose range, widened by one step, fits the coordinate
/// type can always be moved.
pub proof fn lemma_settled_can_advance(platform: MovingPlatform, step: u32)
    requires
        platform@.settled(step as int),
        i64::MIN <= platform.min_x - step,
        platform.max_x + step <= i64::MAX,
    ensures
        platform.can_advance(step),
{
}

} // verus!
