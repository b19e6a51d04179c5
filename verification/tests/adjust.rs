use backend::bridge::{Input, InputEvent, InputKeyDownOptions, KeyKind};
use backend::ecs::Resources;
use backend::geometry::Point;
use backend::minimap::{Minimap, MinimapIdle};
use backend::models::{ActionKeyDirection, ActionKeyWith, Position};
use backend::player::adjust::{update_adjusting_state, Adjusting};
use backend::player::{
    AutoMob, Key, LastMovement, Moving, Player, PlayerAction, PlayerContext, PlayerEntity, Timeout,
    MOVE_TIMEOUT,
};

fn mock_player_entity(pos: Point) -> PlayerEntity {
    let mut context = PlayerContext::default();
    context.last_known_pos = Some(pos);

    PlayerEntity {
        state: Player::Idle,
        context,
    }
}

fn sent(resources: &mut Resources) -> Vec<InputEvent> {
    resources.input.flush()
}

fn down(key: KeyKind) -> InputEvent {
    InputEvent::KeyDown(key, InputKeyDownOptions::default())
}

fn key_action(with: ActionKeyWith, direction: ActionKeyDirection) -> Key {
    Key {
        key: KeyKind::C,
        link_key: None,
        count: 1,
        position: None,
        direction,
        with,
        wait_before_use_ticks: 0,
        wait_after_use_ticks: 0,
    }
}

#[test]
fn update_adjusting_state_started() {
    let pos = Point { x: 0, y: 0 };
    let dest = Point { x: 10, y: 0 };
    let mut player = mock_player_entity(pos);
    player.context.is_stationary = true;
    player.state = Player::Adjusting(Adjusting::new(Moving::new(pos, dest, false, None)));

    let mut resources = Resources::new(None, None);

    update_adjusting_state(&mut resources, &mut player, Minimap::Detecting);

    // Should remain in Adjusting state (started branch moves it into Adjusting with moving started)
    assert!(matches!(player.state, Player::Adjusting(_)));
    assert!(matches!(
        player.context.last_movement,
        Some(LastMovement::Adjusting)
    ));
    assert!(sent(&mut resources).is_empty());
}

#[test]
fn update_adjusting_state_updated_performs_medium_adjustment_right() {
    let mut resources = Resources::new(Some(Input::new()), None);

    let pos = Point { x: 0, y: 0 };
    let dest = Point { x: 5, y: 0 }; // x_distance = 5 (>= medium threshold = 3)
    let mut player = mock_player_entity(pos);
    player.state = Player::Adjusting(Adjusting::new(
        Moving::new(pos, dest, false, None).timeout_started(true),
    ));

    update_adjusting_state(&mut resources, &mut player, Minimap::Detecting);

    // Expect right to be pressed down and left to be released
    assert_eq!(
        sent(&mut resources),
        vec![InputEvent::KeyUp(KeyKind::Left), down(KeyKind::Right)]
    );
    assert!(matches!(
        player.state,
        Player::Adjusting(Adjusting {
            moving: Moving {
                completed: false,
                ..
            },
            ..
        })
    ));
    assert_eq!(
        player.context.last_known_direction,
        ActionKeyDirection::Right
    );
}

#[test]
fn update_adjusting_state_updated_performs_medium_adjustment_left() {
    let mut resources = Resources::new(Some(Input::new()), None);

    let pos = Point { x: 10, y: 0 };
    let dest = Point { x: 0, y: 0 }; // x_distance = 10
    let mut player = mock_player_entity(pos);
    player.state = Player::Adjusting(Adjusting::new(
        Moving::new(pos, dest, false, None).timeout_started(true),
    ));

    update_adjusting_state(&mut resources, &mut player, Minimap::Detecting);

    assert_eq!(
        sent(&mut resources),
        vec![InputEvent::KeyUp(KeyKind::Right), down(KeyKind::Left)]
    );
    assert!(matches!(player.state, Player::Adjusting(_)));
    assert_eq!(
        player.context.last_known_direction,
        ActionKeyDirection::Left
    );
}

#[test]
fn update_adjusting_state_updated_completes_when_no_direction_and_no_adjustment() {
    let mut resources = Resources::new(Some(Input::new()), None);

    let pos = Point { x: 5, y: 0 };
    let dest = Point { x: 5, y: 0 }; // same position, no direction
    let mut player = mock_player_entity(pos);
    player.state = Player::Adjusting(Adjusting::new(
        Moving::new(pos, dest, false, None).timeout_started(true),
    ));

    update_adjusting_state(&mut resources, &mut player, Minimap::Detecting);

    assert_eq!(
        sent(&mut resources),
        vec![
            InputEvent::KeyUp(KeyKind::Left),
            InputEvent::KeyUp(KeyKind::Right)
        ]
    );
    assert!(matches!(
        player.state,
        Player::Adjusting(Adjusting {
            moving: Moving {
                completed: true,
                ..
            },
            ..
        })
    ));
}

#[test]
fn update_adjusting_state_updated_short_adjustment_started() {
    let mut resources = Resources::new(Some(Input::new()), None);

    let pos = Point { x: 0, y: 0 };
    let dest = Point { x: 1, y: 0 }; // exact = true, x_distance = 1
    let mut player = mock_player_entity(pos);
    player.state = Player::Adjusting(Adjusting::new(
        Moving::new(pos, dest, true, None).timeout_started(true),
    ));

    update_adjusting_state(&mut resources, &mut player, Minimap::Detecting);

    assert_eq!(
        sent(&mut resources),
        vec![
            InputEvent::KeyUp(KeyKind::Left),
            InputEvent::Key(KeyKind::Right)
        ]
    );
    assert!(matches!(
        player.state,
        Player::Adjusting(Adjusting {
            adjust_timeout: Timeout { started: true, .. },
            ..
        })
    ));
    assert_eq!(
        player.context.last_known_direction,
        ActionKeyDirection::Right
    );
}

#[test]
fn update_adjusting_state_updated_timeout_freezes_when_adjusting_started() {
    let mut resources = Resources::new(None, None);
    let pos = Point { x: 0, y: 0 };
    let dest = Point { x: 1, y: 0 };
    let mut player = mock_player_entity(pos);

    let moving = Moving::new(pos, dest, true, None)
        .timeout_current(3)
        .timeout_started(true);
    let mut adjusting = Adjusting::new(moving);
    adjusting.adjust_timeout = Timeout {
        current: 1,
        started: true,
        ..Default::default()
    };
    player.state = Player::Adjusting(adjusting);

    update_adjusting_state(&mut resources, &mut player, Minimap::Detecting);

    assert!(matches!(
        player.state,
        Player::Adjusting(Adjusting {
            moving: Moving {
                timeout: Timeout { current: 3, .. },
                ..
            },
            adjust_timeout: Timeout { current: 2, .. }
        })
    ));
    assert!(sent(&mut resources).is_empty());
}

#[test]
fn update_adjusting_state_updated_complted_exact_not_close_enough_keeps_adjusting() {
    let mut resources = Resources::new(None, None);
    let pos = Point { x: 0, y: 0 };
    let dest = Point { x: 1, y: 0 };
    let mut player = mock_player_entity(pos);

    let moving = Moving::new(pos, dest, true, None)
        .completed(true)
        .timeout_current(4)
        .timeout_started(true);
    player.state = Player::Adjusting(Adjusting::new(moving));

    update_adjusting_state(&mut resources, &mut player, Minimap::Detecting);

    assert!(matches!(
        player.state,
        Player::Adjusting(Adjusting {
            moving: Moving {
                completed: false,
                timeout: Timeout {
                    current: 0,
                    started: true,
                    ..
                },
                ..
            },
            ..
        })
    ));
}

#[test]
fn adjusting_ended_releases_both_keys_and_hands_back() {
    let mut resources = Resources::new(None, None);
    let pos = Point { x: 0, y: 0 };
    let dest = Point { x: 2, y: 7 };
    let mut player = mock_player_entity(pos);
    let moving = Moving::new(pos, dest, true, None)
        .timeout_current(MOVE_TIMEOUT)
        .timeout_started(true);
    player.state = Player::Adjusting(Adjusting::new(moving));

    update_adjusting_state(&mut resources, &mut player, Minimap::Detecting);

    assert_eq!(
        sent(&mut resources),
        vec![
            InputEvent::KeyUp(KeyKind::Right),
            InputEvent::KeyUp(KeyKind::Left)
        ]
    );
    assert!(matches!(player.state, Player::Moving(d, true, None) if d == dest));
}

#[test]
fn adjusting_far_destination_hands_back_for_double_jump() {
    let mut resources = Resources::new(None, None);
    let pos = Point { x: 0, y: 0 };
    let dest = Point { x: 25, y: 0 };
    let mut player = mock_player_entity(pos);
    player.state = Player::Adjusting(Adjusting::new(
        Moving::new(pos, dest, false, None).timeout_started(true),
    ));

    update_adjusting_state(&mut resources, &mut player, Minimap::Detecting);

    assert!(matches!(player.state, Player::Moving(d, false, None) if d == dest));
    assert!(sent(&mut resources).is_empty());

    // One short of the threshold keeps walking.
    let dest = Point { x: 24, y: 0 };
    player.state = Player::Adjusting(Adjusting::new(
        Moving::new(pos, dest, false, None).timeout_started(true),
    ));
    update_adjusting_state(&mut resources, &mut player, Minimap::Detecting);
    assert!(matches!(player.state, Player::Adjusting(_)));

    // Switched off, the walk goes on however far the destination is.
    let dest = Point { x: 100, y: 0 };
    player.context.config.disable_double_jumping = true;
    player.state = Player::Adjusting(Adjusting::new(
        Moving::new(pos, dest, false, None).timeout_started(true),
    ));
    update_adjusting_state(&mut resources, &mut player, Minimap::Detecting);
    assert!(matches!(player.state, Player::Adjusting(_)));
}

#[test]
fn adjusting_counts_one_tick_when_the_position_changes() {
    let mut resources = Resources::new(None, None);
    let dest = Point { x: 10, y: 0 };
    let mut player = mock_player_entity(Point { x: 1, y: 0 });
    let moving = Moving::new(Point { x: 0, y: 0 }, dest, false, None)
        .timeout_current(20)
        .timeout_started(true);
    player.state = Player::Adjusting(Adjusting::new(moving));

    update_adjusting_state(&mut resources, &mut player, Minimap::Detecting);

    match player.state {
        Player::Adjusting(adjusting) => {
            assert_eq!(adjusting.moving.pos, Point { x: 1, y: 0 });
            assert_eq!(adjusting.moving.timeout.current, 21);
            assert_eq!(adjusting.moving.timeout.total, 1);
        }
        _ => panic!("state is not adjusting"),
    }
}

#[test]
fn adjusting_key_action_with_any_uses_key_when_completed() {
    let mut resources = Resources::new(None, None);
    let pos = Point { x: 5, y: 0 };
    let dest = Point { x: 5, y: 2 };
    let mut player = mock_player_entity(pos);
    player.context.normal_action = Some(PlayerAction::Key(key_action(
        ActionKeyWith::Any,
        ActionKeyDirection::Any,
    )));
    player.state = Player::Adjusting(Adjusting::new(
        Moving::new(pos, dest, false, None).timeout_started(true),
    ));

    update_adjusting_state(&mut resources, &mut player, Minimap::Detecting);

    match player.state {
        Player::UseKey(use_key) => {
            assert_eq!(use_key.key, KeyKind::C);
            assert_eq!(use_key.current_count, 0);
        }
        _ => panic!("state is not use key"),
    }

    // Three above the player is too far.
    let dest = Point { x: 5, y: 3 };
    player.state = Player::Adjusting(Adjusting::new(
        Moving::new(pos, dest, false, None).timeout_started(true),
    ));
    update_adjusting_state(&mut resources, &mut player, Minimap::Detecting);
    assert!(matches!(player.state, Player::Adjusting(_)));
}

#[test]
fn adjusting_key_action_with_double_jump_checks_direction() {
    let mut resources = Resources::new(None, None);
    let pos = Point { x: 5, y: 0 };
    let mut player = mock_player_entity(pos);
    player.context.last_known_direction = ActionKeyDirection::Left;
    player.context.normal_action = Some(PlayerAction::Key(key_action(
        ActionKeyWith::DoubleJump,
        ActionKeyDirection::Left,
    )));
    player.state = Player::Adjusting(Adjusting::new(
        Moving::new(pos, pos, false, None).timeout_started(true),
    ));

    update_adjusting_state(&mut resources, &mut player, Minimap::Detecting);

    match player.state {
        Player::DoubleJumping(double_jumping) => {
            assert!(double_jumping.forced);
            assert!(!double_jumping.require_stationary);
            assert!(!double_jumping.moving.completed);
            assert_eq!(double_jumping.moving.timeout, Timeout::default());
        }
        _ => panic!("state is not double jumping"),
    }

    player.context.last_known_direction = ActionKeyDirection::Right;
    player.state = Player::Adjusting(Adjusting::new(
        Moving::new(pos, pos, false, None).timeout_started(true),
    ));
    update_adjusting_state(&mut resources, &mut player, Minimap::Detecting);
    assert!(matches!(player.state, Player::UseKey(_)));
}

#[test]
fn adjusting_auto_mob_in_reach_uses_key() {
    let mut resources = Resources::new(None, None);
    let pos = Point { x: 0, y: 0 };
    let dest = Point { x: 10, y: 8 };
    let mob = AutoMob {
        key: KeyKind::X,
        link_key: None,
        count: 2,
        with: ActionKeyWith::Any,
        wait_before_ticks: 1,
        wait_after_ticks: 2,
        position: Position {
            x: 10,
            y: 8,
            allow_adjusting: false,
        },
    };
    let mut player = mock_player_entity(pos);
    player.context.normal_action = Some(PlayerAction::AutoMob(mob));
    player.state = Player::Adjusting(Adjusting::new(
        Moving::new(pos, dest, false, None).timeout_started(true),
    ));

    // While the minimap is not known the walk goes on.
    update_adjusting_state(&mut resources, &mut player, Minimap::Detecting);
    assert!(matches!(player.state, Player::Adjusting(_)));
    sent(&mut resources);

    update_adjusting_state(
        &mut resources,
        &mut player,
        Minimap::Idle(MinimapIdle::default()),
    );
    match player.state {
        Player::UseKey(use_key) => {
            assert_eq!(use_key.key, KeyKind::X);
            assert_eq!(use_key.count, 2);
            assert_eq!(use_key.direction, ActionKeyDirection::Right);
        }
        _ => panic!("state is not use key"),
    }
    assert_eq!(
        sent(&mut resources),
        vec![
            InputEvent::KeyUp(KeyKind::Left),
            down(KeyKind::Right),
            InputEvent::KeyUp(KeyKind::Down),
            InputEvent::KeyUp(KeyKind::Up),
            InputEvent::KeyUp(KeyKind::Left),
            InputEvent::KeyUp(KeyKind::Right),
        ]
    );
    assert_eq!(
        player.context.last_known_direction,
        ActionKeyDirection::Right
    );
}
