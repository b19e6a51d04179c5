use backend::bridge::{Input, InputEvent, KeyKind};
use backend::ecs::Resources;
use backend::geometry::{Point, Rect};
use backend::minimap::{Minimap, MinimapIdle};
use backend::player::grapple::{
    stopping_threshold, update_grappling_state, Grappling, INITIAL_TIMEOUT, STOPPING_TIMEOUT,
};
use backend::player::{
    LastMovement, Moving, PingPong, PingPongDirection, Player, PlayerAction, PlayerContext,
    PlayerEntity, StallingBuffered, Timeout,
};
use backend::rng::Rng;

const POS: Point = Point { x: 100, y: 100 };

fn mock_player_entity_with_grapple(pos: Point) -> PlayerEntity {
    let mut context = PlayerContext::default();
    context.last_known_pos = Some(pos);
    context.config.grappling_key = Some(KeyKind::F);
    context.config.jump_key = KeyKind::Space;

    PlayerEntity {
        state: Player::Idle,
        context,
    }
}

fn mock_moving(pos: Point) -> Moving {
    Moving::new(pos, pos, false, None)
}

#[test]
fn update_grappling_state_started() {
    let moving = mock_moving(POS);
    let mut player = mock_player_entity_with_grapple(POS);
    player.state = Player::Grappling(Grappling::new(moving));

    let mut resources = Resources::new(Some(Input::new()), None);

    update_grappling_state(&mut resources, &mut player, Minimap::Detecting);

    assert_eq!(resources.input.flush(), vec![InputEvent::Key(KeyKind::F)]);
    assert!(matches!(
        player.state,
        Player::Grappling(Grappling {
            moving: Moving {
                timeout: Timeout { started: true, .. },
                ..
            },
            did_y_changed: false
        })
    ));
    assert_eq!(player.context.last_movement, Some(LastMovement::Grappling));
}

#[test]
fn update_grappling_state_updated_auto_complete_on_stopping_threshold() {
    let mut moving = mock_moving(POS);
    moving.timeout.started = true;
    moving.timeout.current = STOPPING_TIMEOUT;
    let mut player = mock_player_entity_with_grapple(moving.pos);
    player.state = Player::Grappling(Grappling::new(moving));

    let mut resources = Resources::new(Some(Input::new()), None);

    update_grappling_state(&mut resources, &mut player, Minimap::Detecting);
    assert_eq!(resources.input.flush(), vec![InputEvent::Key(KeyKind::F)]);
    assert!(matches!(
        player.state,
        Player::Grappling(Grappling {
            moving: Moving {
                completed: true,
                ..
            },
            ..
        })
    ));
}

#[test]
fn update_grappling_state_sets_did_y_changed() {
    let mut resources = Resources::new(None, None);
    let mut moving = mock_moving(POS);
    moving.timeout.started = true;
    moving.dest = Point {
        y: POS.y + 100,
        x: POS.x,
    };
    let grappling = Grappling::new(moving);
    let mut player = mock_player_entity_with_grapple(moving.pos);
    player.state = Player::Grappling(grappling);

    update_grappling_state(&mut resources, &mut player, Minimap::Detecting);
    assert!(matches!(
        player.state,
        Player::Grappling(Grappling {
            did_y_changed: false,
            ..
        })
    ));

    player.context.last_known_pos = Some(Point { x: 100, y: 150 });
    update_grappling_state(&mut resources, &mut player, Minimap::Detecting);
    assert!(matches!(
        player.state,
        Player::Grappling(Grappling {
            did_y_changed: true,
            ..
        })
    ));
    assert!(resources.input.flush().is_empty());
}

#[test]
fn stopping_threshold_rounds_to_nearest() {
    assert_eq!(stopping_threshold(0), 3);
    assert_eq!(stopping_threshold(1000), 4);
    assert_eq!(stopping_threshold(2000), 4);
    assert_eq!(stopping_threshold(2143), 5);
    assert_eq!(stopping_threshold(714), 3);
    assert_eq!(stopping_threshold(715), 4);
    assert_eq!(stopping_threshold(-5000), -1);
    assert_eq!(stopping_threshold(-10000), -4);
    assert_eq!(stopping_threshold(i32::MAX), 1503242);
    assert_eq!(stopping_threshold(i32::MIN), -1503236);
}

#[test]
fn stopping_threshold_agrees_with_the_rounded_product() {
    let mut velocity = -9000;
    while velocity <= 9000 {
        let expected = (3.0_f64 + 0.7 * (velocity as f64 / 1000.0)).round() as i32;
        // Skip the values whose product cannot be written exactly in binary
        // and lies on a half.
        if (7 * velocity as i64 + 30000).rem_euclid(10000) != 5000 {
            assert_eq!(stopping_threshold(velocity), expected, "at {}", velocity);
        }
        velocity += 1;
    }
}

#[test]
fn grappling_lets_go_within_the_stopping_threshold() {
    let mut moving = mock_moving(POS);
    moving.timeout.started = true;
    moving.dest = Point { x: 100, y: 104 };
    let mut player = mock_player_entity_with_grapple(POS);
    player.state = Player::Grappling(Grappling::new(moving));
    let mut resources = Resources::new(None, None);

    // At rest the threshold is three: four away the climb goes on.
    update_grappling_state(&mut resources, &mut player, Minimap::Detecting);
    assert!(resources.input.flush().is_empty());

    // Rising fast the threshold grows to four.
    player.context.velocity = (0, 1000);
    update_grappling_state(&mut resources, &mut player, Minimap::Detecting);
    assert_eq!(resources.input.flush(), vec![InputEvent::Key(KeyKind::F)]);
    assert!(matches!(
        player.state,
        Player::Grappling(Grappling {
            moving: Moving {
                completed: true,
                ..
            },
            ..
        })
    ));

    // A completed climb does not press the key again.
    update_grappling_state(&mut resources, &mut player, Minimap::Detecting);
    assert!(resources.input.flush().is_empty());
}

#[test]
fn grappling_deadline_shortens_once_the_height_changed() {
    let mut moving = mock_moving(POS);
    moving.timeout.started = true;
    moving.timeout.current = STOPPING_TIMEOUT;
    moving.dest = Point { x: 100, y: 140 };
    let mut player = mock_player_entity_with_grapple(POS);
    let mut grappling = Grappling::new(moving);
    grappling.did_y_changed = true;
    player.state = Player::Grappling(grappling);
    let mut resources = Resources::new(None, None);

    update_grappling_state(&mut resources, &mut player, Minimap::Detecting);
    assert!(matches!(player.state, Player::Moving(_, _, _)));

    let mut moving = mock_moving(POS);
    moving.timeout.started = true;
    moving.timeout.current = INITIAL_TIMEOUT - 1;
    moving.dest = Point { x: 100, y: 140 };
    player.state = Player::Grappling(Grappling::new(moving));
    update_grappling_state(&mut resources, &mut player, Minimap::Detecting);
    assert!(matches!(
        player.state,
        Player::Grappling(Grappling {
            moving: Moving {
                timeout: Timeout { current: 240, .. },
                ..
            },
            ..
        })
    ));
    update_grappling_state(&mut resources, &mut player, Minimap::Detecting);
    assert!(matches!(player.state, Player::Moving(_, _, _)));
}

#[test]
fn grappling_started_gives_up_interruptible_buffered_stall() {
    let mut player = mock_player_entity_with_grapple(POS);
    player.context.stalling_buffered = StallingBuffered {
        timeout: Some(Timeout::default()),
        interruptible: true,
        held_key: Some(KeyKind::Z),
    };
    player.state = Player::Grappling(Grappling::new(mock_moving(POS)));
    let mut resources = Resources::new(None, None);

    update_grappling_state(&mut resources, &mut player, Minimap::Detecting);

    assert_eq!(resources.input.flush(), vec![InputEvent::KeyUp(KeyKind::Z)]);
    assert_eq!(player.context.last_movement, None);
    assert!(matches!(
        player.state,
        Player::Grappling(Grappling {
            moving: Moving {
                timeout: Timeout { started: false, .. },
                ..
            },
            ..
        })
    ));

    update_grappling_state(&mut resources, &mut player, Minimap::Detecting);
    assert_eq!(resources.input.flush(), vec![InputEvent::Key(KeyKind::F)]);
    assert_eq!(player.context.last_movement, Some(LastMovement::Grappling));
}

#[test]
fn grappling_ping_pong_turns_at_the_edge() {
    let ping_pong = PingPong {
        key: KeyKind::V,
        link_key: None,
        count: 1,
        wait_before_ticks: 0,
        wait_after_ticks: 0,
        bound: Rect::new(90, 50, 20, 100),
        direction: PingPongDirection::Right,
    };
    let mut moving = mock_moving(POS);
    moving.timeout.started = true;
    moving.dest = Point { x: 100, y: 140 };
    let mut player = mock_player_entity_with_grapple(POS);
    player.context.normal_action = Some(PlayerAction::PingPong(ping_pong));
    player.state = Player::Grappling(Grappling::new(moving));
    let mut resources = Resources::new(None, None);
    let idle = Minimap::Idle(MinimapIdle::default());

    // The sample came out false: the climb goes on.
    update_grappling_state(&mut resources, &mut player, idle);
    assert!(matches!(player.state, Player::Grappling(_)));

    resources.rng = Rng {
        coin: false,
        perlin: true,
    };
    update_grappling_state(&mut resources, &mut player, idle);
    assert!(matches!(player.state, Player::UseKey(_)));
    assert_eq!(
        resources.input.flush(),
        vec![
            InputEvent::KeyUp(KeyKind::Down),
            InputEvent::KeyUp(KeyKind::Up)
        ]
    );
    assert!(player.context.normal_action.is_some());

    // At the right edge the patrol is completed.
    player.context.last_known_pos = Some(Point { x: 110, y: 100 });
    moving.pos = Point { x: 110, y: 100 };
    player.state = Player::Grappling(Grappling::new(moving));
    update_grappling_state(&mut resources, &mut player, idle);
    assert!(matches!(player.state, Player::Idle));
    assert!(player.context.normal_action.is_none());
}

#[test]
fn grappling_without_its_key_gives_up() {
    let mut player = mock_player_entity_with_grapple(POS);
    player.context.config.grappling_key = None;
    player.context.normal_action = Some(PlayerAction::SolveRune);
    player.state = Player::Grappling(Grappling::new(mock_moving(POS)));
    let mut resources = Resources::new(None, None);

    update_grappling_state(&mut resources, &mut player, Minimap::Detecting);

    assert!(matches!(player.state, Player::Idle));
    assert!(player.context.normal_action.is_none());
    assert!(resources.input.flush().is_empty());
    assert_eq!(player.context.last_movement, None);
}

#[test]
fn grappling_counts_on_while_the_height_changes() {
    let mut moving = mock_moving(POS);
    moving.timeout.started = true;
    moving.timeout.current = 40;
    moving.dest = Point { x: 100, y: 200 };
    let mut player = mock_player_entity_with_grapple(Point { x: 100, y: 120 });
    player.state = Player::Grappling(Grappling::new(moving));
    let mut resources = Resources::new(None, None);

    update_grappling_state(&mut resources, &mut player, Minimap::Detecting);
    assert!(matches!(
        player.state,
        Player::Grappling(Grappling {
            did_y_changed: true,
            moving: Moving {
                timeout: Timeout { current: 41, .. },
                ..
            },
        })
    ));

    // Past the shorter deadline, the climb whose height has changed ends.
    update_grappling_state(&mut resources, &mut player, Minimap::Detecting);
    assert!(matches!(player.state, Player::Moving(_, _, _)));
}
