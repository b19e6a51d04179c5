use backend::array::Array;
use backend::ecs::Resources;
use backend::geometry::Point;
use backend::player::jump::update_jumping_state;
use backend::player::moving::{Intermediate, Moving, MovingIntermediates};
use backend::player::{Player, PlayerContext, PlayerEntity};
use backend::player::timeout::{
    next_moving_lifecycle_with_axis, next_timeout_lifecycle, ChangeAxis, Lifecycle,
    MovingLifecycle, Timeout,
};

#[test]
fn timeout_starts_from_zero() {
    assert_eq!(
        next_timeout_lifecycle(Timeout::default(), 5),
        Lifecycle::Started(Timeout {
            current: 0,
            total: 0,
            started: true
        })
    );
    let stale = Timeout {
        current: 3,
        total: 9,
        started: false,
    };
    assert_eq!(
        next_timeout_lifecycle(stale, 5),
        Lifecycle::Started(Timeout {
            current: 0,
            total: 0,
            started: true
        })
    );
}

#[test]
fn timeout_counts_then_ends() {
    let mut timeout = Timeout::default();
    let mut started = 0;
    let mut updated = 0;
    let mut ended = 0;
    for _ in 0..7 {
        match next_timeout_lifecycle(timeout, 5) {
            Lifecycle::Started(next) => {
                started += 1;
                timeout = next;
            }
            Lifecycle::Updated(next) => {
                updated += 1;
                assert_eq!(next.current, timeout.current + 1);
                assert_eq!(next.total, timeout.total + 1);
                timeout = next;
            }
            Lifecycle::Ended => {
                ended += 1;
                timeout = Timeout::default();
            }
        }
    }
    assert_eq!((started, updated, ended), (1, 5, 1));
}

#[test]
fn timeout_ends_at_and_past_the_deadline() {
    let at = Timeout {
        current: 5,
        total: 5,
        started: true,
    };
    let past = Timeout {
        current: 6,
        total: 5,
        started: true,
    };
    assert_eq!(next_timeout_lifecycle(at, 5), Lifecycle::Ended);
    assert_eq!(next_timeout_lifecycle(past, 5), Lifecycle::Ended);
    assert_eq!(
        next_timeout_lifecycle(
            Timeout {
                current: 0,
                total: 0,
                started: true
            },
            0
        ),
        Lifecycle::Ended
    );
}

#[test]
fn timeout_total_stops_at_the_largest_number() {
    let timeout = Timeout {
        current: 1,
        total: u32::MAX,
        started: true,
    };
    assert_eq!(
        next_timeout_lifecycle(timeout, 5),
        Lifecycle::Updated(Timeout {
            current: 2,
            total: u32::MAX,
            started: true
        })
    );
}

#[test]
fn moving_lifecycle_takes_the_position_in() {
    let moving = Moving::new(Point::new(1, 1), Point::new(9, 9), true, None);
    match next_moving_lifecycle_with_axis(moving, Point::new(2, 3), 30, ChangeAxis::Both) {
        MovingLifecycle::Started(next) => {
            assert_eq!(next.pos, Point::new(2, 3));
            assert_eq!(next.dest, Point::new(9, 9));
            assert!(next.exact);
            assert!(next.timeout.started);
            assert_eq!(next.timeout.current, 0);
        }
        _ => panic!("not started"),
    }
}

#[test]
fn moving_lifecycle_counts_one_tick_whatever_the_position() {
    let moving = Moving::new(Point::new(1, 1), Point::new(9, 9), false, None)
        .timeout(Timeout {
            current: 10,
            total: 12,
            started: true,
        });
    let cases = [
        (ChangeAxis::Horizontal, Point::new(2, 1), 11),
        (ChangeAxis::Horizontal, Point::new(1, 2), 11),
        (ChangeAxis::Vertical, Point::new(2, 1), 11),
        (ChangeAxis::Vertical, Point::new(1, 2), 11),
        (ChangeAxis::Both, Point::new(2, 1), 11),
        (ChangeAxis::Both, Point::new(1, 2), 11),
        (ChangeAxis::Both, Point::new(1, 1), 11),
    ];
    for (axis, pos, current) in cases {
        match next_moving_lifecycle_with_axis(moving, pos, 30, axis) {
            MovingLifecycle::Updated(next) => {
                assert_eq!(next.timeout.current, current);
                assert_eq!(next.timeout.total, 13);
                assert_eq!(next.pos, pos);
            }
            _ => panic!("not updated"),
        }
    }
}

#[test]
fn moving_lifecycle_ends_whatever_the_position() {
    let moving = Moving::new(Point::new(1, 1), Point::new(9, 9), false, None)
        .completed(true)
        .timeout(Timeout {
            current: 30,
            total: 40,
            started: true,
        });
    match next_moving_lifecycle_with_axis(moving, Point::new(5, 5), 30, ChangeAxis::Both) {
        MovingLifecycle::Ended(next) => {
            assert_eq!(next.pos, Point::new(5, 5));
            assert_eq!(next.timeout.current, 30);
            assert!(next.completed);
        }
        _ => panic!("not ended"),
    }
}

#[test]
fn moving_distances_and_directions() {
    let moving = Moving::new(Point::new(0, 0), Point::new(10, -4), false, None);
    assert_eq!(
        moving.x_distance_direction_from(true, Point::new(3, 0)),
        (7, 7)
    );
    assert_eq!(
        moving.x_distance_direction_from(true, Point::new(13, 0)),
        (3, -3)
    );
    assert_eq!(
        moving.y_distance_direction_from(true, Point::new(3, 6)),
        (10, -10)
    );
    assert_eq!(
        moving.y_distance_direction_from(false, Point::new(3, -9)),
        (5, 5)
    );
    assert_eq!(
        moving.x_distance_direction_from(true, Point::new(10, 0)),
        (0, 0)
    );
    let far = Moving::new(
        Point::new(0, 0),
        Point::new(1_000_000_000, -1_000_000_000),
        false,
        None,
    );
    assert!(far.is_in_range());
    assert_eq!(
        far.x_distance_direction_from(true, Point::new(-1_000_000_000, 0)),
        (2_000_000_000, 2_000_000_000)
    );
    assert!(!Moving::new(Point::new(0, 0), Point::new(1_000_000_001, 0), false, None).is_in_range());
}

#[test]
fn moving_intermediates_give_the_last_destination() {
    let points = Array::from_slice(&[
        Intermediate {
            point: Point::new(5, 5),
            exact: false,
        },
        Intermediate {
            point: Point::new(8, 2),
            exact: true,
        },
        Intermediate {
            point: Point::new(20, 30),
            exact: true,
        },
    ]);
    let mut intermediates = MovingIntermediates::new(points);
    assert!(intermediates.has_next());
    assert_eq!(
        intermediates.next(),
        Some(Intermediate {
            point: Point::new(5, 5),
            exact: false
        })
    );
    assert_eq!(intermediates.current, 1);

    let moving = Moving::new(
        Point::new(0, 0),
        Point::new(5, 5),
        false,
        Some(intermediates),
    );
    assert!(moving.is_destination_intermediate());
    assert_eq!(moving.last_destination(), Point::new(20, 30));
    assert_eq!(
        moving.x_distance_direction_from(false, Point::new(0, 0)),
        (20, 20)
    );
    assert_eq!(
        moving.x_distance_direction_from(true, Point::new(0, 0)),
        (5, 5)
    );

    intermediates.next();
    intermediates.next();
    assert!(!intermediates.has_next());
    assert_eq!(intermediates.next(), None);
    assert_eq!(intermediates.current, 3);
    let moving = Moving::new(
        Point::new(0, 0),
        Point::new(20, 30),
        true,
        Some(intermediates),
    );
    assert!(!moving.is_destination_intermediate());
    assert_eq!(moving.last_destination(), Point::new(20, 30));
}

#[test]
fn moving_builders_change_one_field() {
    let moving = Moving::new(Point::new(1, 2), Point::new(3, 4), true, None);
    assert!(!moving.completed);
    assert_eq!(moving.timeout, Timeout::default());
    assert!(moving.completed(true).completed);
    assert_eq!(moving.pos(Point::new(7, 7)).pos, Point::new(7, 7));
    assert_eq!(moving.pos(Point::new(7, 7)).dest, Point::new(3, 4));
    let timed = moving.timeout_current(4).timeout_started(true);
    assert_eq!(
        timed.timeout,
        Timeout {
            current: 4,
            total: 0,
            started: true
        }
    );
    assert_eq!(timed.timeout_started(false).timeout.current, 4);
}

#[test]
fn a_started_jump_counts_one_tick_at_a_new_height() {
    let mut player = PlayerEntity {
        state: Player::Idle,
        context: PlayerContext::default(),
    };
    player.context.last_known_pos = Some(Point::new(0, 1));
    let moving = Moving::new(Point::new(0, 0), Point::new(0, 9), false, None).timeout(Timeout {
        current: 5,
        total: 5,
        started: true,
    });
    let mut resources = Resources::new(None, None);

    update_jumping_state(&mut resources, &mut player, moving);

    match player.state {
        Player::Jumping(next) => {
            assert_eq!(next.pos, Point::new(0, 1));
            assert_eq!(
                next.timeout,
                Timeout {
                    current: 6,
                    total: 6,
                    started: true
                }
            );
        }
        _ => panic!("state is not jumping"),
    }
}
