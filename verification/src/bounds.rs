//! The bounds confiner: keeps the player inside the world.
//!
//! The player may come within a margin of the left, right and bottom edges,
//! and may climb up to the top edge itself, which a level sets far above
//! anything the player can reach.

use vstd::prelude::*;
use crate::geometry::Point;

verus! {

/// How far the edge of the player's sprite is drawn in from its size, in
/// pixels.
pub const SPRITE_INSET: u32 = 50;

/// The extents of the world.
#[derive(Clone, Copy, Debug, PartialEq, Eq, Structural)]
pub struct Bounds {
    pub left: i64,
    pub right: i64,
    pub bottom: i64,
    pub top: i64,
}

/// The margin that the player keeps from an edge: half the size of the
/// sprite (rounded down), less the inset.
pub open spec fn margin(player_size: u32, inset: u32) -> int {
    player_size / 2 - inset
}

/// `value`, moved up to `low` if it is below, else down to `high` if it is
/// above.
pub open spec fn clamped(value: int, low: int, high: int) -> int {
    if value < low {
        low
    } else if value > high {
        high
    } else {
        value
    }
}

impl Bounds {
    /// The least `x` that the player may have.
    pub open spec fn x_min(self, margin: int) -> int {
        self.left + margin
    }

    /// The greatest `x` that the player may have.
    pub open spec fn x_max(self, margin: int) -> int {
        self.right - margin
    }

    /// The least `y` that the player may have.
    pub open spec fn y_min(self, margin: int) -> int {
        self.bottom + margin
    }

    /// The greatest `y` that the player may have.
    pub open spec fn y_max(self) -> int {
        self.top as int
    }

    /// The bounds leave room: neither range is empty.
    pub open spec fn wf(self, margin: int) -> bool {
        &&& self.x_min(margin) <= self.x_max(margin)
        &&& self.y_min(margin) <= self.y_max()
    }

    /// The limits fit the coordinate type.
    pub open spec fn fits(self, margin: int) -> bool {
        &&& i64::MIN <= self.x_min(margin) <= i64::MAX
        &&& i64::MIN <= self.x_max(margin) <= i64::MAX
        &&& i64::MIN <= self.y_min(margin) <= i64::MAX
    }

    /// The position lies within the limits.
    pub open spec fn admits(self, margin: int, position: Point) -> bool {
        &&& self.x_min(margin) <= position.x <= self.x_max(margin)
        &&& self.y_min(margin) <= position.y <= self.y_max()
    }

    /// The position, confined: each coordinate clamped to its limits.
    pub open spec fn confined(self, margin: int, position: Point) -> Point {
        Point {
            x: clamped(position.x as int, self.x_min(margin), self.x_max(margin)) as i64,
            y: clamped(position.y as int, self.y_min(margin), self.y_max()) as i64,
        }
    }
}

/// Confines the player's position, after the physics layer has moved the
/// player, to the bounds of the world. A position within the limits is
/// returned as it is; within bounds that leave room, the result always lies
/// within the limits.
pub fn confine_player_movement(position: Point, bounds: &Bounds, player_size: u32, inset: u32) -> (confined:
    Point)
    requires
        bounds.fits(margin(player_size, inset)),
    ensures
        confined == bounds.confined(margin(player_size, inset), position),
        confined.x == clamped(
            position.x as int,
            bounds.x_min(margin(player_size, inset)),
            bounds.x_max(margin(player_size, inset)),
        ),
        confined.y == clamped(
            position.y as int,
            bounds.y_min(margin(player_size, inset)),
            bounds.y_max(),
        ),
        bounds.admits(margin(player_size, inset), position) ==> confined == position,
        bounds.wf(margin(player_size, inset)) ==> bounds.admits(margin(player_size, inset), confined),
{
    let margin: i64 = (player_size / 2) as i64 - inset as i64;
    let x_min = bounds.left + margin;
    let x_max = bounds.right - margin;
    let y_min = bounds.bottom + margin;
    let y_max = bounds.top;
    let mut confined = position;
    if confined.x < x_min {
        confined.x = x_min;
    } else if confined.x > x_max {
        confined.x = x_max;
    }
    if confined.y < y_min {
        confined.y = y_min;
    } else if confined.y > y_max {
        confined.y = y_max;
    }
    confined
}

/// Confining is idempotent: within bounds that leave room, confining a
/// confined position changes nothing.
pub proof fn lemma_confine_is_idempotent(bounds: Bounds, margin: int, position: Point)
    requires
        bounds.wf(margin),
        bounds.fits(margin),
    ensures
        bounds.confined(margin, bounds.confined(margin, position)) == bounds.confined(
            margin,
            position,
        ),
        bounds.admits(margin, bounds.confined(margin, position)),
{
}

} // verus!
