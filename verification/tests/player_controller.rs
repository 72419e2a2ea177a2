use mega_jump_game::geometry::Point;
use mega_jump_game::player::{
    apply_jump_force, move_player, InputSnapshot, Jump, Movement, Player, PlayerState, Rise, Sprite,
};
use mega_jump_game::timer::AnimationTimer;
use mega_jump_game::tuning::{
    distance_covered, Tuning, ANIMATION_FRAME_TIME, FALL_SPEED, JUMP_FACTOR_DENOMINATOR,
    JUMP_FACTOR_NUMERATOR, JUMP_FORCE, PLAYER_SPEED,
};

/// A sixtieth of a second, to the nearest nanosecond.
const SIXTIETH: u64 = 16_666_667;

fn tuning() -> Tuning {
    Tuning {
        speed: PLAYER_SPEED,
        jump_force: JUMP_FORCE,
        fall_speed: FALL_SPEED,
        jump_factor_numerator: JUMP_FACTOR_NUMERATOR,
        jump_factor_denominator: JUMP_FACTOR_DENOMINATOR,
    }
}

fn keys(left: bool, right: bool, jump_just_pressed: bool) -> InputSnapshot {
    InputSnapshot { left, right, jump_just_pressed }
}

fn at_rest() -> Player {
    Player::new(Point::new(640, 670), ANIMATION_FRAME_TIME)
}

#[test]
fn constants_are_the_configured_ones() {
    assert_eq!(
        tuning(),
        Tuning {
            speed: 500,
            jump_force: 500,
            fall_speed: 1080,
            jump_factor_numerator: 2,
            jump_factor_denominator: 1,
        }
    );
    assert_eq!(ANIMATION_FRAME_TIME, 100_000_000);
}

#[test]
fn first_frame_of_a_jump_rises_thirty_six_and_leaves_four_hundred_sixty_four() {
    let mut player = at_rest();
    let input = keys(false, false, true);
    let movement = move_player(&mut player, &input, SIXTIETH, &tuning());
    assert_eq!(movement.translation, Point::new(0, 0));
    assert_eq!(player.jump, Some(Jump(500)));
    assert_eq!(player.state, PlayerState::Jump);
    let rise = apply_jump_force(&mut player, &input, SIXTIETH, &tuning());
    assert_eq!(rise, Rise { height: 36, sprite: None });
    assert_eq!(player.jump, Some(Jump(464)));
    assert_eq!(player.position, Point::new(640, 706));
    assert_eq!(player.state, PlayerState::Jump);
}

#[test]
fn a_jump_rises_by_exactly_its_force() {
    let mut player = at_rest();
    let press = keys(false, false, true);
    move_player(&mut player, &press, SIXTIETH, &tuning());
    let idle = keys(false, false, false);
    let mut total: u32 = 0;
    let mut frames = 0;
    while player.jump.is_some() {
        let before = player.jump.unwrap().0;
        let rise = apply_jump_force(&mut player, &idle, SIXTIETH, &tuning());
        assert_eq!(rise.height, before.min(36));
        total += rise.height;
        frames += 1;
        assert!(total <= 500);
        assert_eq!(total + player.jump.map_or(0, |jump| jump.0), 500);
    }
    assert_eq!(frames, 14);
    assert_eq!(total, 500);
    assert_eq!(player.position, Point::new(640, 1170));
}

#[test]
fn a_jump_rises_by_its_force_whatever_the_frame_times() {
    let dts: [u64; 10] = [1, 2_000_000, 33_333_333, 7, 100_000_000, 463_000, 16_666_667, 50_000_000, 1_000_000_000, 400_000_000];
    for factor in [(2u16, 1u16), (3, 2), (1, 3)] {
        let tuning = Tuning {
            speed: 500,
            jump_force: 500,
            fall_speed: 1080,
            jump_factor_numerator: factor.0,
            jump_factor_denominator: factor.1,
        };
        let mut player = at_rest();
        move_player(&mut player, &keys(false, false, true), 0, &tuning);
        let mut total: u32 = 0;
        for dt in dts {
            total += apply_jump_force(&mut player, &keys(false, false, false), dt, &tuning).height;
            assert!(total <= 500);
        }
        assert_eq!(player.jump, None);
        assert_eq!(total, 500);
        assert_eq!(player.position.y, 670 + 500);
    }
}

#[test]
fn the_last_frame_of_a_jump_ends_it() {
    let mut player = at_rest();
    player.jump = Some(Jump(32));
    player.state = PlayerState::Jump;
    let rise = apply_jump_force(&mut player, &keys(false, true, false), SIXTIETH, &tuning());
    assert_eq!(rise, Rise { height: 32, sprite: Some(Sprite::Idle) });
    assert_eq!(player.jump, None);
    assert_eq!(player.position, Point::new(640, 702));
    assert_eq!(player.state, PlayerState::Right);
}

#[test]
fn a_jump_that_is_used_up_exactly_ends() {
    let mut player = at_rest();
    player.jump = Some(Jump(36));
    let rise = apply_jump_force(&mut player, &keys(false, false, false), SIXTIETH, &tuning());
    assert_eq!(rise, Rise { height: 36, sprite: Some(Sprite::Idle) });
    assert_eq!(player.jump, None);
    assert_eq!(player.state, PlayerState::Idle);
}

#[test]
fn a_long_frame_cannot_overshoot_a_jump() {
    let mut player = at_rest();
    player.jump = Some(Jump(500));
    let rise = apply_jump_force(&mut player, &keys(true, false, false), u64::MAX, &tuning());
    assert_eq!(rise.height, 500);
    assert_eq!(player.jump, None);
    assert_eq!(player.position, Point::new(640, 1170));
    assert_eq!(player.state, PlayerState::Left);
}

#[test]
fn a_frame_too_short_to_rise_leaves_the_jump_as_it_is() {
    let mut player = at_rest();
    player.jump = Some(Jump(500));
    player.state = PlayerState::Jump;
    let before = player;
    // 462962 ns * 1080 * 2 is just short of one unit.
    let rise = apply_jump_force(&mut player, &keys(false, false, false), 462_962, &tuning());
    assert_eq!(rise, Rise { height: 0, sprite: None });
    assert_eq!(player, before);
    let rise = apply_jump_force(&mut player, &keys(false, false, false), 462_963, &tuning());
    assert_eq!(rise.height, 1);
    assert_eq!(player.jump, Some(Jump(499)));
}

#[test]
fn the_jump_factor_is_a_fraction() {
    let tuning = Tuning {
        speed: 500,
        jump_force: 500,
        fall_speed: 1080,
        jump_factor_numerator: 3,
        jump_factor_denominator: 2,
    };
    assert_eq!(tuning.step_of_jump(500, SIXTIETH), 27);
    assert_eq!(tuning.step_of_jump(20, SIXTIETH), 20);
    assert_eq!(tuning.step_of_jump(500, 0), 0);
    assert_eq!(tuning.step_of_jump(0, SIXTIETH), 0);
}

#[test]
fn without_a_jump_nothing_rises() {
    let mut player = at_rest();
    player.state = PlayerState::Left;
    let before = player;
    let rise = apply_jump_force(&mut player, &keys(false, false, false), SIXTIETH, &tuning());
    assert_eq!(rise, Rise { height: 0, sprite: None });
    assert_eq!(player, before);
}

#[test]
fn a_jump_under_way_does_not_change_the_label_of_a_walking_player() {
    let mut player = at_rest();
    player.jump = Some(Jump(300));
    for pressed in [false, true] {
        let input = keys(true, false, pressed);
        let movement = move_player(&mut player, &input, SIXTIETH, &tuning());
        assert_eq!(player.state, PlayerState::Left);
        assert_eq!(movement.translation, Point::new(-8, 0));
        let before = player.jump.unwrap().0;
        let y = player.position.y;
        let rise = apply_jump_force(&mut player, &input, SIXTIETH, &tuning());
        assert_eq!(rise.height, 36);
        assert_eq!(player.jump, Some(Jump(before - 36)));
        assert_eq!(player.position.y, y + 36);
        assert_eq!(player.state, PlayerState::Left);
    }
}

#[test]
fn the_label_follows_the_keys() {
    let cases = [
        (keys(false, false, false), false, PlayerState::Idle),
        (keys(true, false, false), false, PlayerState::Left),
        (keys(false, true, false), false, PlayerState::Right),
        (keys(true, true, false), false, PlayerState::Left),
        (keys(false, false, true), false, PlayerState::Jump),
        (keys(true, false, true), false, PlayerState::Jump),
        (keys(false, true, true), false, PlayerState::Jump),
        (keys(false, false, false), true, PlayerState::Idle),
        (keys(false, false, true), true, PlayerState::Idle),
        (keys(true, false, true), true, PlayerState::Left),
        (keys(false, true, true), true, PlayerState::Right),
        (keys(true, true, true), true, PlayerState::Left),
    ];
    for (input, jumping, label) in cases {
        for previous in [PlayerState::Idle, PlayerState::Left, PlayerState::Right, PlayerState::Jump] {
            let mut player = at_rest();
            player.state = previous;
            player.jump = if jumping { Some(Jump(123)) } else { None };
            move_player(&mut player, &input, SIXTIETH, &tuning());
            assert_eq!(player.state, label);
            assert_eq!(input.heading_of(), if input.left {
                PlayerState::Left
            } else if input.right {
                PlayerState::Right
            } else {
                PlayerState::Idle
            });
        }
    }
}

#[test]
fn the_jump_key_does_not_restart_a_jump_under_way() {
    let mut player = at_rest();
    player.jump = Some(Jump(123));
    let movement = move_player(&mut player, &keys(false, false, true), SIXTIETH, &tuning());
    assert_eq!(player.jump, Some(Jump(123)));
    assert_eq!(player.state, PlayerState::Idle);
    assert_eq!(movement.sprite, Some(Sprite::Idle));
}

#[test]
fn a_new_jump_may_start_as_soon_as_the_last_one_ended() {
    let mut player = at_rest();
    let press = keys(false, false, true);
    move_player(&mut player, &press, SIXTIETH, &tuning());
    apply_jump_force(&mut player, &press, 1_000_000_000, &tuning());
    assert_eq!(player.jump, None);
    assert_eq!(player.position.y, 1170);
    move_player(&mut player, &press, SIXTIETH, &tuning());
    assert_eq!(player.jump, Some(Jump(500)));
    assert_eq!(player.state, PlayerState::Jump);
}

#[test]
fn a_jump_that_starts_and_ends_on_one_frame_leaves_the_heading() {
    let mut player = at_rest();
    let input = keys(false, true, true);
    move_player(&mut player, &input, 1_000_000_000, &tuning());
    assert_eq!(player.state, PlayerState::Jump);
    let rise = apply_jump_force(&mut player, &input, 1_000_000_000, &tuning());
    assert_eq!(rise, Rise { height: 500, sprite: Some(Sprite::Idle) });
    assert_eq!(player.state, PlayerState::Right);
    assert_eq!(player.jump, None);
}

#[test]
fn the_desired_translation_is_speed_times_frame_time() {
    assert_eq!(distance_covered(500, SIXTIETH), 8);
    assert_eq!(distance_covered(500, 1_000_000_000), 500);
    assert_eq!(distance_covered(500, 1_999_999), 0);
    assert_eq!(distance_covered(500, 2_000_000), 1);
    assert_eq!(distance_covered(0, u64::MAX), 0);
    assert_eq!(distance_covered(u32::MAX, u64::MAX), 79_228_162_495_817_593_515);
    let cases = [
        (keys(true, false, false), 1_000_000_000, -500),
        (keys(false, true, false), 1_000_000_000, 500),
        (keys(true, true, false), 1_000_000_000, -500),
        (keys(false, false, false), 1_000_000_000, 0),
        (keys(true, false, false), SIXTIETH, -8),
        (keys(false, true, false), SIXTIETH, 8),
        (keys(false, true, false), 0, 0),
        (keys(false, true, true), 250_000_000, 125),
    ];
    for (input, dt, dx) in cases {
        let mut player = at_rest();
        let movement = move_player(&mut player, &input, dt, &tuning());
        assert_eq!(movement.translation, Point::new(dx, 0));
        assert_eq!(player.position, Point::new(640, 670));
    }
}

#[test]
fn the_animation_flag_flips_when_the_timer_completes_a_period() {
    let mut player = at_rest();
    let input = keys(false, false, false);
    for _ in 0..5 {
        move_player(&mut player, &input, SIXTIETH, &tuning());
        assert!(!player.animation_frame);
    }
    assert_eq!(player.timer, AnimationTimer { elapsed: 83_333_335, period: 100_000_000 });
    move_player(&mut player, &input, SIXTIETH, &tuning());
    assert!(player.animation_frame);
    assert_eq!(player.timer, AnimationTimer { elapsed: 2, period: 100_000_000 });
    move_player(&mut player, &input, 99_999_998, &tuning());
    assert!(!player.animation_frame);
    assert_eq!(player.timer.elapsed, 0);
}

#[test]
fn the_animation_flag_flips_once_on_a_frame_of_several_periods() {
    let mut player = at_rest();
    move_player(&mut player, &keys(false, true, false), 250_000_000, &tuning());
    assert!(player.animation_frame);
    assert_eq!(player.timer, AnimationTimer { elapsed: 50_000_000, period: 100_000_000 });
}

#[test]
fn the_picture_follows_the_frame() {
    let mut player = at_rest();
    // idle
    let m = move_player(&mut player, &keys(false, false, false), SIXTIETH, &tuning());
    assert_eq!(m, Movement { translation: Point::new(0, 0), sprite: Some(Sprite::Idle) });
    // walking, timer not yet complete
    let m = move_player(&mut player, &keys(true, false, false), SIXTIETH, &tuning());
    assert_eq!(m.sprite, None);
    // walking, timer completes: the flag flips to true
    let m = move_player(&mut player, &keys(true, false, false), 100_000_000, &tuning());
    assert!(player.animation_frame);
    assert_eq!(m.sprite, Some(Sprite::Walk1));
    // and to false on the next completion
    let m = move_player(&mut player, &keys(false, true, false), 100_000_000, &tuning());
    assert!(!player.animation_frame);
    assert_eq!(m.sprite, Some(Sprite::Walk2));
    // starting a jump shows the climb
    let m = move_player(&mut player, &keys(false, true, true), 100_000_000, &tuning());
    assert_eq!(m.sprite, Some(Sprite::Climb));
    // with the jump under way the jump key shows nothing new
    let m = move_player(&mut player, &keys(false, true, true), 1, &tuning());
    assert_eq!(m.sprite, None);
}

#[test]
fn a_new_player_is_at_rest() {
    let player = Player::new(Point::new(3, 4), 5);
    assert_eq!(
        player,
        Player {
            position: Point::new(3, 4),
            state: PlayerState::Idle,
            animation_frame: false,
            jump: None,
            timer: AnimationTimer { elapsed: 0, period: 5 },
        }
    );
    assert_eq!(
        Player::default(),
        Player {
            position: Point::new(0, 0),
            state: PlayerState::Idle,
            animation_frame: false,
            jump: None,
            timer: AnimationTimer { elapsed: 0, period: 100_000_000 },
        }
    );
    assert_eq!(PlayerState::default(), PlayerState::Idle);
}
