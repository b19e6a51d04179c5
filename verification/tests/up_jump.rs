use backend::bridge::{Input, InputEvent, InputKeyDownOptions, KeyKind};
use backend::ecs::Resources;
use backend::geometry::{Point, Rect};
use backend::minimap::{Minimap, MinimapIdle};
use backend::array::Array;
use backend::models::{ActionKeyWith, Position};
use backend::player::up_jump::{
    up_jumping_kind, update_up_jumping_state, Mage, MageState, UpJumping, UpJumpingKind,
    SOFT_SPAM_DELAY, SPAM_DELAY, UP_JUMPING_TIMEOUT,
};
use backend::player::{
    AutoMob, LastMovement, Moving, Player, PlayerAction, PlayerContext, PlayerEntity, Timeout,
};
use backend::rng::Rng;

fn setup_player(up_jumping: UpJumping) -> PlayerEntity {
    let mut player = PlayerEntity {
        state: Player::UpJumping(up_jumping),
        context: PlayerContext::default(),
    };
    player.context.last_known_pos = Some(Point::new(0, 0));
    player.context.config.jump_key = KeyKind::Space;
    player
}

fn velocity(x: f32, y: f32) -> (i32, i32) {
    ((x * 1000.0).round() as i32, (y * 1000.0).round() as i32)
}

fn down(key: KeyKind) -> InputEvent {
    InputEvent::KeyDown(key, InputKeyDownOptions::default())
}

#[test]
fn update_up_jumping_state_started_jump_key_presses_up_and_jump() {
    let moving = Moving::new(Point::new(0, 0), Point::new(0, 20), true, None);
    let mut player = setup_player(UpJumping {
        moving,
        kind: UpJumpingKind::JumpKey,
        spam_delay: SPAM_DELAY,
        auto_mob_wait_completion: false,
    });
    let mut resources = Resources::new(Some(Input::new()), None);

    update_up_jumping_state(&mut resources, &mut player, Minimap::Detecting);

    assert_eq!(
        resources.input.flush(),
        vec![down(KeyKind::Up), InputEvent::Key(KeyKind::Space)]
    );
    assert!(matches!(player.state, Player::UpJumping(_)));
}

#[test]
fn update_up_jumping_state_started_up_arrow_presses_jump_only() {
    let moving = Moving::new(Point::new(0, 0), Point::new(0, 20), true, None);
    let mut player = setup_player(UpJumping {
        moving,
        kind: UpJumpingKind::UpArrow,
        spam_delay: SPAM_DELAY,
        auto_mob_wait_completion: false,
    });
    let mut resources = Resources::new(Some(Input::new()), None);

    update_up_jumping_state(&mut resources, &mut player, Minimap::Detecting);

    assert_eq!(
        resources.input.flush(),
        vec![InputEvent::Key(KeyKind::Space)]
    );
    assert!(matches!(player.state, Player::UpJumping(_)));
}

#[test]
fn update_up_jumping_state_started_specific_key_presses_up_only() {
    let moving = Moving::new(Point::new(0, 0), Point::new(0, 20), true, None);
    let mut player = setup_player(UpJumping {
        moving,
        kind: UpJumpingKind::SpecificKey,
        spam_delay: SPAM_DELAY,
        auto_mob_wait_completion: false,
    });
    player.context.config.up_jump_key = Some(KeyKind::C);
    let mut resources = Resources::new(Some(Input::new()), None);

    update_up_jumping_state(&mut resources, &mut player, Minimap::Detecting);

    assert_eq!(resources.input.flush(), vec![down(KeyKind::Up)]);
    assert!(matches!(player.state, Player::UpJumping(_)));
}

#[test]
fn update_up_jumping_state_started_mage_up_and_jump() {
    let moving = Moving::new(Point::new(0, 0), Point::new(0, 25), true, None);
    let mut player = setup_player(UpJumping {
        moving,
        kind: UpJumpingKind::Mage(Mage {
            state: MageState::Teleporting,
        }),
        spam_delay: SPAM_DELAY,
        auto_mob_wait_completion: false,
    });
    player.context.config.teleport_key = Some(KeyKind::Shift);
    let mut resources = Resources::new(Some(Input::new()), None);

    update_up_jumping_state(&mut resources, &mut player, Minimap::Detecting);

    assert_eq!(
        resources.input.flush(),
        vec![down(KeyKind::Up), InputEvent::Key(KeyKind::Space)]
    );
    assert!(matches!(
        player.state,
        Player::UpJumping(UpJumping {
            kind: UpJumpingKind::Mage(Mage {
                state: MageState::UpJumping
            }),
            ..
        })
    ));
}

#[test]
fn update_up_jumping_state_updated_velocity_marks_completed() {
    let mut moving = Moving::new(Point::new(0, 0), Point::new(0, 20), true, None);
    moving.timeout.started = true;
    let mut player = setup_player(UpJumping {
        moving,
        kind: UpJumpingKind::JumpKey,
        spam_delay: SPAM_DELAY,
        auto_mob_wait_completion: false,
    });
    player.context.velocity = velocity(0.0, 2.0); // Y velocity above threshold
    let mut resources = Resources::new(None, None);

    update_up_jumping_state(&mut resources, &mut player, Minimap::Detecting);

    assert!(matches!(
        player.state,
        Player::UpJumping(UpJumping {
            moving: Moving {
                completed: true,
                ..
            },
            ..
        })
    ));
}

#[test]
fn update_up_jumping_state_updated_before_spam_delay_no_keys_sent() {
    let mut moving = Moving::new(Point::new(0, 0), Point::new(0, 20), true, None);
    moving.timeout.started = true;
    moving.timeout.total = SPAM_DELAY - 2; // before threshold
    let mut player = setup_player(UpJumping {
        moving,
        kind: UpJumpingKind::JumpKey,
        spam_delay: SPAM_DELAY,
        auto_mob_wait_completion: false,
    });
    let mut resources = Resources::new(Some(Input::new()), None);

    update_up_jumping_state(&mut resources, &mut player, Minimap::Detecting);

    assert!(resources.input.flush().is_empty());
    assert!(matches!(player.state, Player::UpJumping(_)));
}

#[test]
fn update_up_jumping_state_updated_spam_jump_key_after_delay() {
    let mut moving = Moving::new(Point::new(0, 0), Point::new(0, 20), true, None);
    moving.timeout.started = true;
    moving.timeout.total = SPAM_DELAY; // exactly at threshold
    let mut player = setup_player(UpJumping {
        moving,
        kind: UpJumpingKind::JumpKey,
        spam_delay: SPAM_DELAY,
        auto_mob_wait_completion: false,
    });
    let mut resources = Resources::new(Some(Input::new()), None);

    update_up_jumping_state(&mut resources, &mut player, Minimap::Detecting);

    // On spam, JumpKey kind sends Jump again
    assert_eq!(
        resources.input.flush(),
        vec![InputEvent::Key(KeyKind::Space)]
    );
    assert!(matches!(player.state, Player::UpJumping(_)));
}

#[test]
fn update_up_jumping_state_updated_spam_specific_key_after_delay() {
    let mut moving = Moving::new(Point::new(0, 0), Point::new(0, 20), true, None);
    moving.timeout.started = true;
    moving.timeout.total = SPAM_DELAY;
    let mut player = setup_player(UpJumping {
        moving,
        kind: UpJumpingKind::SpecificKey,
        spam_delay: SPAM_DELAY,
        auto_mob_wait_completion: false,
    });
    player.context.config.up_jump_key = Some(KeyKind::C);
    let mut resources = Resources::new(Some(Input::new()), None);

    update_up_jumping_state(&mut resources, &mut player, Minimap::Detecting);

    assert_eq!(resources.input.flush(), vec![InputEvent::Key(KeyKind::C)]);
    assert!(matches!(player.state, Player::UpJumping(_)));
}

#[test]
fn update_up_jumping_state_updated_mage_spam_jump_after_delay() {
    let mut moving = Moving::new(Point::new(0, 0), Point::new(0, 25), true, None);
    moving.timeout.started = true;
    moving.timeout.total = SPAM_DELAY;
    let mut player = setup_player(UpJumping {
        moving,
        kind: UpJumpingKind::Mage(Mage {
            state: MageState::UpJumping,
        }),
        spam_delay: SPAM_DELAY,
        auto_mob_wait_completion: false,
    });
    player.context.config.jump_key = KeyKind::Space;
    player.context.config.teleport_key = Some(KeyKind::Shift);
    let mut resources = Resources::new(Some(Input::new()), None);

    update_up_jumping_state(&mut resources, &mut player, Minimap::Detecting);

    assert_eq!(
        resources.input.flush(),
        vec![InputEvent::Key(KeyKind::Space)]
    );
    assert!(matches!(player.state, Player::UpJumping(_)));
}

#[test]
fn update_up_jumping_state_updated_completed_and_releases_up() {
    let mut moving = Moving::new(Point::new(0, 0), Point::new(0, 20), true, None);
    moving.completed = true;
    moving.timeout.started = true;
    let mut player = setup_player(UpJumping {
        moving,
        kind: UpJumpingKind::JumpKey,
        spam_delay: SPAM_DELAY,
        auto_mob_wait_completion: false,
    });
    let mut resources = Resources::new(Some(Input::new()), None);

    update_up_jumping_state(&mut resources, &mut player, Minimap::Detecting);

    assert_eq!(
        resources.input.flush(),
        vec![InputEvent::KeyUp(KeyKind::Up)]
    );
    assert!(matches!(player.state, Player::UpJumping(_)));
}

#[test]
fn up_jumping_kind_follows_the_keys() {
    assert_eq!(
        up_jumping_kind(Some(KeyKind::C), true),
        UpJumpingKind::Mage(Mage {
            state: MageState::Teleporting
        })
    );
    assert_eq!(
        up_jumping_kind(None, true),
        UpJumpingKind::Mage(Mage {
            state: MageState::Teleporting
        })
    );
    assert_eq!(
        up_jumping_kind(Some(KeyKind::Up), true),
        UpJumpingKind::Mage(Mage {
            state: MageState::Teleporting
        })
    );
    assert_eq!(
        up_jumping_kind(Some(KeyKind::Up), false),
        UpJumpingKind::UpArrow
    );
    assert_eq!(up_jumping_kind(None, false), UpJumpingKind::JumpKey);
    assert_eq!(
        up_jumping_kind(Some(KeyKind::C), false),
        UpJumpingKind::SpecificKey
    );
}

#[test]
fn up_jumping_new_picks_delay_kind_and_wait() {
    let mut context = PlayerContext::default();
    let mut resources = Resources::new(None, None);
    let short = Moving::new(Point::new(0, 0), Point::new(0, 16), true, None);
    let long = Moving::new(Point::new(0, 0), Point::new(0, 17), true, None);

    let up_jumping = UpJumping::new(short, &resources, &context);
    assert_eq!(up_jumping.spam_delay, SOFT_SPAM_DELAY);
    assert_eq!(up_jumping.kind, UpJumpingKind::JumpKey);
    assert!(!up_jumping.auto_mob_wait_completion);
    assert_eq!(UpJumping::new(long, &resources, &context).spam_delay, SPAM_DELAY);

    // The delay goes by the way up alone.
    context.config.up_jump_specific_key_should_jump = true;
    context.config.up_jump_key = Some(KeyKind::C);
    let up_jumping = UpJumping::new(short, &resources, &context);
    assert_eq!(up_jumping.spam_delay, SOFT_SPAM_DELAY);
    assert_eq!(up_jumping.kind, UpJumpingKind::SpecificKey);
    assert_eq!(UpJumping::new(long, &resources, &context).spam_delay, SPAM_DELAY);
    let ten = Moving::new(Point::new(0, 0), Point::new(0, 10), true, None);
    assert_eq!(UpJumping::new(ten, &resources, &context).spam_delay, SOFT_SPAM_DELAY);

    // Only a lone auto-mob action lets the coin decide.
    resources.rng = Rng {
        coin: true,
        perlin: false,
    };
    assert!(!UpJumping::new(short, &resources, &context).auto_mob_wait_completion);
    context.normal_action = Some(PlayerAction::AutoMob(AutoMob {
        key: KeyKind::X,
        link_key: None,
        count: 1,
        with: ActionKeyWith::Any,
        wait_before_ticks: 0,
        wait_after_ticks: 0,
        position: Position::default(),
    }));
    assert!(UpJumping::new(short, &resources, &context).auto_mob_wait_completion);
    context.priority_action = Some(PlayerAction::SolveRune);
    assert!(!UpJumping::new(short, &resources, &context).auto_mob_wait_completion);
}

#[test]
fn up_jumping_stalls_silently_while_moving_fast() {
    let moving = Moving::new(Point::new(0, 0), Point::new(0, 20), true, None);
    let mut player = setup_player(UpJumping {
        moving,
        kind: UpJumpingKind::JumpKey,
        spam_delay: SPAM_DELAY,
        auto_mob_wait_completion: false,
    });
    let mut resources = Resources::new(None, None);

    for fast in [
        velocity(0.281, 0.0),
        velocity(0.0, 0.401),
        velocity(-0.5, 0.0),
        velocity(0.0, -0.401),
    ] {
        player.context.velocity = fast;
        update_up_jumping_state(&mut resources, &mut player, Minimap::Detecting);
        assert!(resources.input.flush().is_empty());
        assert_eq!(player.context.last_movement, None);
        assert!(matches!(
            player.state,
            Player::UpJumping(UpJumping {
                moving: Moving {
                    timeout: Timeout { started: false, .. },
                    ..
                },
                ..
            })
        ));
    }

    // Exactly at the thresholds the jump begins, whatever the signs.
    player.context.velocity = velocity(-0.28, -0.4);
    let mut still = player;
    update_up_jumping_state(&mut resources, &mut still, Minimap::Detecting);
    assert_eq!(resources.input.flush().len(), 2);
    player.context.velocity = velocity(0.28, 0.4);
    update_up_jumping_state(&mut resources, &mut player, Minimap::Detecting);
    assert_eq!(resources.input.flush().len(), 2);
    assert_eq!(player.context.last_movement, Some(LastMovement::UpJumping));
}

#[test]
fn up_jumping_aborts_inside_a_portal() {
    let moving = Moving::new(Point::new(0, 0), Point::new(0, 20), true, None);
    let mut player = setup_player(UpJumping {
        moving,
        kind: UpJumpingKind::JumpKey,
        spam_delay: SPAM_DELAY,
        auto_mob_wait_completion: false,
    });
    player.context.last_known_pos = Some(Point::new(5, 5));
    player.context.normal_action = Some(PlayerAction::SolveRune);
    let mut resources = Resources::new(None, None);
    let mut idle = MinimapIdle::default();
    idle.portals = Array::from_slice(&[Rect::new(50, 50, 5, 5), Rect::new(4, 4, 2, 2)]);

    update_up_jumping_state(&mut resources, &mut player, Minimap::Idle(idle));

    assert!(matches!(player.state, Player::Idle));
    assert!(player.context.normal_action.is_none());
    assert!(resources.input.flush().is_empty());
    assert_eq!(player.context.last_movement, None);
}

#[test]
fn up_jumping_ended_releases_up() {
    let mut moving = Moving::new(Point::new(0, 0), Point::new(0, 20), true, None);
    moving.timeout.started = true;
    moving.timeout.current = UP_JUMPING_TIMEOUT;
    let mut player = setup_player(UpJumping {
        moving,
        kind: UpJumpingKind::JumpKey,
        spam_delay: SPAM_DELAY,
        auto_mob_wait_completion: false,
    });
    let mut resources = Resources::new(None, None);

    update_up_jumping_state(&mut resources, &mut player, Minimap::Detecting);

    assert_eq!(
        resources.input.flush(),
        vec![InputEvent::KeyUp(KeyKind::Up)]
    );
    assert!(matches!(player.state, Player::Moving(d, true, None) if d == Point::new(0, 20)));
}

#[test]
fn up_jumping_mage_teleports_when_close() {
    let mut moving = Moving::new(Point::new(0, 0), Point::new(0, 19), true, None);
    moving.timeout.started = true;
    let mut player = setup_player(UpJumping {
        moving,
        kind: UpJumpingKind::Mage(Mage {
            state: MageState::Teleporting,
        }),
        spam_delay: SPAM_DELAY,
        auto_mob_wait_completion: false,
    });
    player.context.config.teleport_key = Some(KeyKind::Shift);
    let mut resources = Resources::new(None, None);

    update_up_jumping_state(&mut resources, &mut player, Minimap::Detecting);

    assert_eq!(
        resources.input.flush(),
        vec![InputEvent::Key(KeyKind::Shift)]
    );
    assert!(matches!(
        player.state,
        Player::UpJumping(UpJumping {
            moving: Moving {
                completed: true,
                ..
            },
            ..
        })
    ));
}

#[test]
fn up_jumping_flight_holds_key_until_destination_is_not_above() {
    let mut moving = Moving::new(Point::new(0, 0), Point::new(0, 30), true, None);
    moving.timeout.started = true;
    let mut player = setup_player(UpJumping {
        moving,
        kind: UpJumpingKind::SpecificKey,
        spam_delay: SPAM_DELAY,
        auto_mob_wait_completion: false,
    });
    player.context.config.up_jump_key = Some(KeyKind::C);
    player.context.config.up_jump_is_flight = true;
    let mut resources = Resources::new(None, None);

    update_up_jumping_state(&mut resources, &mut player, Minimap::Detecting);
    assert_eq!(
        resources.input.flush(),
        vec![InputEvent::KeyDown(
            KeyKind::C,
            InputKeyDownOptions::default().repeatable()
        )]
    );

    player.context.last_known_pos = Some(Point::new(0, 30));
    update_up_jumping_state(&mut resources, &mut player, Minimap::Detecting);
    assert_eq!(resources.input.flush(), vec![InputEvent::KeyUp(KeyKind::C)]);
    assert!(matches!(
        player.state,
        Player::UpJumping(UpJumping {
            moving: Moving {
                completed: true,
                ..
            },
            ..
        })
    ));
}

#[test]
fn up_jumping_specific_key_waits_for_the_delay() {
    let mut moving = Moving::new(Point::new(0, 0), Point::new(0, 20), true, None);
    moving.timeout.started = true;
    moving.timeout.total = SPAM_DELAY - 2;
    let mut player = setup_player(UpJumping {
        moving,
        kind: UpJumpingKind::SpecificKey,
        spam_delay: SPAM_DELAY,
        auto_mob_wait_completion: false,
    });
    player.context.config.up_jump_key = Some(KeyKind::C);
    let mut resources = Resources::new(None, None);

    update_up_jumping_state(&mut resources, &mut player, Minimap::Detecting);
    assert!(resources.input.flush().is_empty());
    assert!(matches!(
        player.state,
        Player::UpJumping(UpJumping {
            moving: Moving {
                completed: false,
                ..
            },
            ..
        })
    ));

    update_up_jumping_state(&mut resources, &mut player, Minimap::Detecting);
    assert_eq!(resources.input.flush(), vec![InputEvent::Key(KeyKind::C)]);
    assert!(matches!(
        player.state,
        Player::UpJumping(UpJumping {
            moving: Moving {
                completed: true,
                ..
            },
            ..
        })
    ));
}

#[test]
fn up_jumping_without_the_key_of_its_kind_gives_up() {
    let moving = Moving::new(Point::new(0, 0), Point::new(0, 20), true, None);
    for kind in [
        UpJumpingKind::SpecificKey,
        UpJumpingKind::Mage(Mage {
            state: MageState::Teleporting,
        }),
    ] {
        let mut player = setup_player(UpJumping {
            moving,
            kind,
            spam_delay: SPAM_DELAY,
            auto_mob_wait_completion: false,
        });
        player.context.normal_action = Some(PlayerAction::SolveRune);
        let mut resources = Resources::new(None, None);

        update_up_jumping_state(&mut resources, &mut player, Minimap::Detecting);

        assert!(matches!(player.state, Player::Idle));
        assert!(player.context.normal_action.is_none());
        assert!(resources.input.flush().is_empty());
    }
}
