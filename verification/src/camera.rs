//! The camera follow rule: the camera snaps to the player on every frame.

use vstd::prelude::*;
use crate::geometry::Point;

verus! {

/// How far above the player the camera looks, in pixels, so that the player
/// sits low in the frame and the platforms above stay in view.
pub const FOLLOW_OFFSET: i64 = 150;

/// The camera.
#[derive(Clone, Copy, Debug, PartialEq, Eq, Structural)]
pub struct Camera {
    pub position: Point,
}

impl Camera {
    /// Where the camera belongs for a player at `player`: level with the
    /// player horizontally, `follow_offset` above the player vertically.
    pub open spec fn following(player: Point, follow_offset: i64) -> Point {
        Point { x: player.x, y: (player.y + follow_offset) as i64 }
    }
}

/// Puts the camera where it belongs for the player's position, with no
/// smoothing; where the camera was before does not matter.
pub fn camera_follow(camera: &mut Camera, player: Point, follow_offset: i64)
    requires
        i64::MIN <= player.y + follow_offset <= i64::MAX,
    ensures
        final(camera).position == Camera::following(player, follow_offset),
        final(camera).position.x == player.x,
        final(camera).position.y == player.y + follow_offset,
{
    camera.position.x = player.x;
    camera.position.y = player.y + follow_offset;
}

} // verus!
