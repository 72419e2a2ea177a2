use mega_jump_game::geometry::Point;
use mega_jump_game::level::{spawn_map, LevelError, PlatformRecord};
use mega_jump_game::platform::MovingPlatform;

fn record(patrol_min: i64, patrol_max: i64, initial_direction: i32) -> PlatformRecord {
    PlatformRecord {
        width: 20,
        height: 30,
        position: Point { x: 640, y: 12360 },
        patrol_min,
        patrol_max,
        initial_direction,
    }
}

#[test]
fn spawn_map_builds_one_platform_per_record_in_order() {
    let records = vec![
        PlatformRecord {
            width: 300,
            height: 30,
            position: Point { x: 640, y: 360 },
            patrol_min: 640,
            patrol_max: 640,
            initial_direction: 1,
        },
        record(100, 150, -1),
        PlatformRecord {
            width: 181,
            height: 11,
            position: Point { x: 490, y: 1240 },
            patrol_min: 5,
            patrol_max: 100,
            initial_direction: 1,
        },
    ];
    let platforms = spawn_map(&records).unwrap();
    assert_eq!(
        platforms,
        vec![
            MovingPlatform {
                position: Point { x: 640, y: 360 },
                half_width: 150,
                half_height: 15,
                direction: 1,
                min_x: 640,
                max_x: 640,
            },
            MovingPlatform {
                position: Point { x: 640, y: 12360 },
                half_width: 10,
                half_height: 15,
                direction: -1,
                min_x: 100,
                max_x: 150,
            },
            MovingPlatform {
                position: Point { x: 490, y: 1240 },
                half_width: 90,
                half_height: 5,
                direction: 1,
                min_x: 5,
                max_x: 100,
            },
        ]
    );
}

#[test]
fn spawn_map_accepts_an_empty_level() {
    assert_eq!(spawn_map(&Vec::new()), Ok(Vec::new()));
}

#[test]
fn spawn_map_rejects_an_inverted_patrol_range() {
    let records = vec![record(100, 150, 1), record(151, 150, 1)];
    assert_eq!(spawn_map(&records), Err(LevelError::InvertedPatrolRange { index: 1 }));
}

#[test]
fn spawn_map_rejects_a_direction_other_than_one_or_minus_one() {
    for direction in [0, 2, -2, i32::MAX, i32::MIN] {
        let records = vec![record(100, 150, direction)];
        assert_eq!(spawn_map(&records), Err(LevelError::InvalidDirection { index: 0 }));
    }
}

#[test]
fn spawn_map_reports_the_first_faulty_record() {
    let records = vec![record(100, 150, 1), record(100, 150, 3), record(200, 100, 1)];
    assert_eq!(spawn_map(&records), Err(LevelError::InvalidDirection { index: 1 }));
}

#[test]
fn spawn_map_reports_an_inverted_range_before_a_bad_direction() {
    let records = vec![record(200, 100, 0)];
    assert_eq!(spawn_map(&records), Err(LevelError::InvertedPatrolRange { index: 0 }));
}

#[test]
fn build_checks_one_record() {
    assert_eq!(
        record(50, 300, -1).build(7),
        Ok(MovingPlatform {
            position: Point { x: 640, y: 12360 },
            half_width: 10,
            half_height: 15,
            direction: -1,
            min_x: 50,
            max_x: 300,
        })
    );
    assert_eq!(record(301, 300, -1).build(7), Err(LevelError::InvertedPatrolRange { index: 7 }));
    assert_eq!(record(300, 300, 5).build(9), Err(LevelError::InvalidDirection { index: 9 }));
}
