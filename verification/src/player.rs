//! The player controller.
//!
//! Each frame the controller turns the input of the frame into a desired
//! horizontal translation and a label for the player's animation, keeps the
//! animation timer, starts a jump when the jump key was pressed and no jump is
//! under way, and lets a jump under way rise by the frame's share of its
//! height. The desired translation is a request to the physics layer; the rise
//! of a jump is added to the player's position at once.

use vstd::prelude::*;
use crate::geometry::Point;
use crate::timer::AnimationTimer;
use crate::tuning::{distance_covered, travel, Tuning, ANIMATION_FRAME_TIME};

verus! {

/// The state of the keys on one frame.
#[derive(Clone, Copy, Debug, PartialEq, Eq, Structural)]
pub struct InputSnapshot {
    /// The key for moving left is held.
    pub left: bool,
    /// The key for moving right is held.
    pub right: bool,
    /// The key for jumping went down on this frame.
    pub jump_just_pressed: bool,
}

/// The label of the player's animation.
#[derive(Clone, Copy, Debug, PartialEq, Eq, Structural)]
pub enum PlayerState {
    Idle,
    Left,
    Right,
    Jump,
}

/// A jump under way: the height that it has yet to rise.
#[derive(Clone, Copy, Debug, PartialEq, Eq, Structural)]
pub struct Jump(pub u32);

/// The picture that shows the player.
#[derive(Clone, Copy, Debug, PartialEq, Eq, Structural)]
pub enum Sprite {
    Idle,
    Walk1,
    Walk2,
    Climb,
}

/// The player. A jump is under way exactly while `jump` holds a value.
#[derive(Clone, Copy, Debug, PartialEq, Eq, Structural)]
pub struct Player {
    pub position: Point,
    pub state: PlayerState,
    /// Which of the two walking pictures is due; flips whenever the timer
    /// completes a period.
    pub animation_frame: bool,
    pub jump: Option<Jump>,
    pub timer: AnimationTimer,
}

/// What the controller asks for on one frame.
#[derive(Clone, Copy, Debug, PartialEq, Eq, Structural)]
pub struct Movement {
    /// The translation to request of the physics layer.
    pub translation: Point,
    /// The picture to switch to, if the picture changes.
    pub sprite: Option<Sprite>,
}

/// What a jump did on one frame.
#[derive(Clone, Copy, Debug, PartialEq, Eq, Structural)]
pub struct Rise {
    /// The height gained on this frame.
    pub height: u32,
    /// The picture to switch to, if the picture changes.
    pub sprite: Option<Sprite>,
}

impl InputSnapshot {
    /// The label that the movement keys alone give: left wins over right, and
    /// with neither held the player idles.
    pub open spec fn heading(self) -> PlayerState {
        if self.left {
            PlayerState::Left
        } else if self.right {
            PlayerState::Right
        } else {
            PlayerState::Idle
        }
    }

    /// The jump key starts a jump only if none is under way.
    pub open spec fn starts_jump(self, jump_under_way: bool) -> bool {
        self.jump_just_pressed && !jump_under_way
    }

    /// The label of a frame: `Jump` on the frame that starts a jump, the
    /// heading of the movement keys on every other frame.
    pub open spec fn label(self, jump_under_way: bool) -> PlayerState {
        if self.starts_jump(jump_under_way) {
            PlayerState::Jump
        } else {
            self.heading()
        }
    }

    /// The desired horizontal translation of a frame of length `dt` at the
    /// given speed: the distance covered, to the left or to the right, or
    /// nothing with neither key held.
    pub open spec fn desired_delta(self, speed: int, dt: int) -> int {
        if self.left {
            -travel(speed, dt)
        } else if self.right {
            travel(speed, dt)
        } else {
            0
        }
    }

    /// The picture that a frame switches to. The frame that starts a jump
    /// shows the climb. Otherwise a walking player changes step when the
    /// timer completes a period, to the picture that `animation_frame` (as it
    /// is after the frame) selects, and an idle player shows the idle picture.
    pub open spec fn sprite(
        self,
        jump_under_way: bool,
        timer_completed: bool,
        animation_frame: bool,
    ) -> Option<Sprite> {
        if self.starts_jump(jump_under_way) {
            Some(Sprite::Climb)
        } else if self.left || self.right {
            if timer_completed {
                Some(
                    if animation_frame {
                        Sprite::Walk1
                    } else {
                        Sprite::Walk2
                    },
                )
            } else {
                None
            }
        } else {
            Some(Sprite::Idle)
        }
    }

    /// Computes `heading`.
    pub fn heading_of(&self) -> (state: PlayerState)
        ensures
            state == self.heading(),
    {
        if self.left {
            PlayerState::Left
        } else if self.right {
            PlayerState::Right
        } else {
            PlayerState::Idle
        }
    }
}

impl Player {
    /// A player at rest at `position`: idle, no jump under way, and a fresh
    /// animation timer of the given period.
    pub fn new(position: Point, timer_period: u64) -> (player: Player)
        requires
            timer_period > 0,
        ensures
            player == (Player {
                position,
                state: PlayerState::Idle,
                animation_frame: false,
                jump: None,
                timer: AnimationTimer { elapsed: 0, period: timer_period },
            }),
    {
        Player {
            position,
            state: PlayerState::Idle,
            animation_frame: false,
            jump: None,
            timer: AnimationTimer::new(timer_period),
        }
    }

    /// A jump is under way.
    pub open spec fn jumping(self) -> bool {
        self.jump is Some
    }
}

impl Default for PlayerState {
    fn default() -> (state: PlayerState)
        ensures
            state == PlayerState::Idle,
    {
        PlayerState::Idle
    }
}

impl Default for Player {
    /// A player at rest at the origin, with the animation timer at its usual
    /// period.
    fn default() -> (player: Player)
        ensures
            player == (Player {
                position: Point { x: 0, y: 0 },
                state: PlayerState::Idle,
                animation_frame: false,
                jump: None,
                timer: AnimationTimer { elapsed: 0, period: ANIMATION_FRAME_TIME },
            }),
    {
        Player::new(Point { x: 0, y: 0 }, ANIMATION_FRAME_TIME)
    }
}

/// The first part of the player's frame: reads the input, keeps the animation
/// timer, labels the player and starts a jump.
///
/// The timer accumulates `dt`, and `animation_frame` flips if that completes
/// a period. The label is `input.label(..)`: the heading of the movement keys,
/// or `Jump` on the frame that starts a jump. A jump starts, with the whole
/// `jump_force` left to rise, if the jump key was pressed and no jump is under
/// way; a jump under way is left as it is. The position is not touched: the
/// result holds the translation to request.
pub fn move_player(player: &mut Player, input: &InputSnapshot, dt: u64, tuning: &Tuning) -> (movement:
    Movement)
    requires
        old(player).timer.period > 0,
        input.left || input.right ==> travel(tuning.speed as int, dt as int) <= i64::MAX,
    ensures
        final(player).position == old(player).position,
        final(player).timer == old(player).timer.ticked(dt),
        final(player).animation_frame == (old(player).animation_frame != old(player).timer.completes(
            dt,
        )),
        final(player).state == input.label(old(player).jumping()),
        final(player).jump == if input.starts_jump(old(player).jumping()) {
            Some(Jump(tuning.jump_force))
        } else {
            old(player).jump
        },
        movement.translation.x == input.desired_delta(tuning.speed as int, dt as int),
        movement.translation.y == 0,
        movement.sprite == input.sprite(
            old(player).jumping(),
            old(player).timer.completes(dt),
            final(player).animation_frame,
        ),
{
    let finished = player.timer.tick(dt);
    if finished {
        player.animation_frame = !player.animation_frame;
    }
    let mut delta: i64 = 0;
    let mut sprite: Option<Sprite> = Some(Sprite::Idle);
    if input.left || input.right {
        let distance = distance_covered(tuning.speed, dt) as i64;
        if input.left {
            delta = -distance;
        } else {
            delta = distance;
        }
        sprite = if finished {
            Some(
                if player.animation_frame {
                    Sprite::Walk1
                } else {
                    Sprite::Walk2
                },
            )
        } else {
            None
        };
    }
    player.state = input.heading_of();
    if input.jump_just_pressed && player.jump.is_none() {
        player.jump = Some(Jump(tuning.jump_force));
        player.state = PlayerState::Jump;
        sprite = Some(Sprite::Climb);
    }
    Movement { translation: Point { x: delta, y: 0 }, sprite }
}

/// The second part of the player's frame: lets a jump under way rise.
///
/// With no jump under way nothing changes. Otherwise the player rises by
/// `tuning.jump_step(..)`, the frame's limit or what is left of the jump if
/// that is less, and that much is taken off the jump. When nothing is left the
/// jump ends: the label goes back to the heading of the movement keys and the
/// picture to the idle one.
pub fn apply_jump_force(player: &mut Player, input: &InputSnapshot, dt: u64, tuning: &Tuning) -> (rise:
    Rise)
    requires
        tuning.wf(),
        old(player).jump matches Some(jump) ==> old(player).position.y + tuning.jump_step(
            jump.0 as int,
            dt as int,
        ) <= i64::MAX,
    ensures
        final(player).position.x == old(player).position.x,
        final(player).timer == old(player).timer,
        final(player).animation_frame == old(player).animation_frame,
        match old(player).jump {
            None => *final(player) == *old(player) && rise == (Rise { height: 0, sprite: None }),
            Some(jump) => {
                let step = tuning.jump_step(jump.0 as int, dt as int);
                &&& rise.height == step
                &&& final(player).position.y == old(player).position.y + step
                &&& if step < jump.0 {
                    &&& final(player).jump == Some(Jump((jump.0 - step) as u32))
                    &&& final(player).state == old(player).state
                    &&& rise.sprite is None
                } else {
                    &&& final(player).jump is None
                    &&& final(player).state == input.heading()
                    &&& rise.sprite == Some(Sprite::Idle)
                }
            },
        },
{
    match player.jump {
        None => Rise { height: 0, sprite: None },
        Some(jump) => {
            let step = tuning.step_of_jump(jump.0, dt);
            player.position.y = player.position.y + step as i64;
            if step < jump.0 {
                player.jump = Some(Jump(jump.0 - step));
                Rise { height: step, sprite: None }
            } else {
                player.jump = None;
                player.state = input.heading_of();
                Rise { height: step, sprite: Some(Sprite::Idle) }
            }
        },
    }
}

/// While a jump is under way the jump key changes nothing about the label:
/// the label of a frame is the heading of its movement keys, never `Jump`.
pub proof fn lemma_jump_under_way_keeps_heading(input: InputSnapshot)
    ensures
        input.label(true) == input.heading(),
        input.label(true) != PlayerState::Jump,
        !input.starts_jump(true),
{
}

} // verus!
