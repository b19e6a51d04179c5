use backend::bridge::{Input, InputEvent, KeyKind};
use backend::detect::Detector;
use backend::ecs::Resources;
use backend::geometry::Rect;
use backend::minimap::{Minimap, MinimapIdle};
use backend::player::panicking::{
    update_changing_channel, update_completing, update_going_to_town, update_panicking_state,
    Panicking, State, MAX_RETRY,
};
use backend::player::{PanicTo, Player, PlayerAction, PlayerContext, PlayerEntity, Timeout};

fn detector_with_channel_menu(opened: bool) -> Detector {
    Detector {
        change_channel_menu_opened: opened,
        ..Detector::default()
    }
}

#[test]
fn update_changing_channel_and_send_key_keys() {
    let mut resources = Resources::new(Some(Input::new()), Some(detector_with_channel_menu(true)));
    let mut panicking = Panicking::new(PanicTo::Channel);
    panicking.state = State::ChangingChannel(
        Timeout {
            current: 169,
            started: true,
            ..Default::default()
        },
        0,
    );

    update_changing_channel(&mut resources, &mut panicking, Minimap::Detecting, KeyKind::F1);
    assert!(matches!(panicking.state, State::ChangingChannel(_, _)));

    panicking.state = State::ChangingChannel(
        Timeout {
            current: 199,
            started: true,
            ..Default::default()
        },
        0,
    );
    update_changing_channel(&mut resources, &mut panicking, Minimap::Detecting, KeyKind::F1);
    assert!(matches!(panicking.state, State::ChangingChannel(_, _)));
    assert_eq!(
        resources.input.flush(),
        vec![
            InputEvent::Key(KeyKind::Right),
            InputEvent::Key(KeyKind::Enter)
        ]
    );
}

#[test]
fn update_changing_channel_and_send_keys_retry() {
    let mut resources = Resources::new(Some(Input::new()), Some(detector_with_channel_menu(true)));
    let mut panicking = Panicking::new(PanicTo::Channel);
    panicking.state = State::ChangingChannel(
        Timeout {
            current: 14,
            started: true,
            ..Default::default()
        },
        1,
    );

    update_changing_channel(&mut resources, &mut panicking, Minimap::Detecting, KeyKind::F1);
    assert!(matches!(panicking.state, State::ChangingChannel(_, _)));

    panicking.state = State::ChangingChannel(
        Timeout {
            current: 29,
            started: true,
            ..Default::default()
        },
        1,
    );
    update_changing_channel(&mut resources, &mut panicking, Minimap::Detecting, KeyKind::F1);
    assert!(matches!(panicking.state, State::ChangingChannel(_, _)));
    assert_eq!(
        resources.input.flush(),
        vec![
            InputEvent::Key(KeyKind::Right),
            InputEvent::Key(KeyKind::Enter)
        ]
    );
}

#[test]
fn update_changing_channel_complete_if_minimap_not_idle() {
    let mut resources = Resources::new(None, None);
    let mut panicking = Panicking::new(PanicTo::Channel);
    panicking.state = State::ChangingChannel(
        Timeout {
            current: 220,
            started: true,
            ..Default::default()
        },
        0,
    );

    update_changing_channel(&mut resources, &mut panicking, Minimap::Detecting, KeyKind::F1);

    assert!(matches!(panicking.state, State::Completing(_, false)));
}

#[test]
fn update_changing_channel_complete_if_minimap_not_idle_retry() {
    let mut resources = Resources::new(None, None);
    let mut panicking = Panicking::new(PanicTo::Channel);
    panicking.state = State::ChangingChannel(
        Timeout {
            current: 50,
            started: true,
            ..Default::default()
        },
        1,
    );

    update_changing_channel(&mut resources, &mut panicking, Minimap::Detecting, KeyKind::F1);

    assert!(matches!(panicking.state, State::Completing(_, false)));
}

#[test]
fn update_going_to_town_started_send_key() {
    let mut resources = Resources::new(Some(Input::new()), None);
    let mut panicking = Panicking::new(PanicTo::Town);
    panicking.state = State::GoingToTown(Timeout::default(), 0);

    update_going_to_town(&mut resources, &mut panicking, KeyKind::F2);

    assert_eq!(resources.input.flush(), vec![InputEvent::Key(KeyKind::F2)]);
    assert!(matches!(panicking.state, State::GoingToTown(_, _)));
}

#[test]
fn update_going_to_town_ended_send_key_and_complete_if_esc_confirm_opened() {
    let detector = Detector {
        popup_confirm_button: Some(Rect::default()),
        ..Detector::default()
    };
    let mut resources = Resources::new(Some(Input::new()), Some(detector));
    let mut panicking = Panicking::new(PanicTo::Town);
    panicking.state = State::GoingToTown(
        Timeout {
            started: true,
            current: 90,
            ..Default::default()
        },
        0,
    );

    update_going_to_town(&mut resources, &mut panicking, KeyKind::F2);

    assert_eq!(
        resources.input.flush(),
        vec![InputEvent::Key(KeyKind::Enter)]
    );
    assert!(matches!(panicking.state, State::Completing(_, true)));
}

#[test]
fn update_going_to_town_ended_retry() {
    let detector = Detector {
        popup_confirm_button: None,
        ..Detector::default()
    };
    assert!(detector.detect_popup_confirm_button().is_err());
    let mut resources = Resources::new(None, Some(detector));
    let mut panicking = Panicking::new(PanicTo::Town);
    panicking.state = State::GoingToTown(
        Timeout {
            started: true,
            current: 90,
            ..Default::default()
        },
        0,
    );

    update_going_to_town(&mut resources, &mut panicking, KeyKind::F2);

    assert!(matches!(
        panicking.state,
        State::GoingToTown(
            Timeout {
                started: false,
                current: 0,
                ..
            },
            1
        )
    ));
}

#[test]
fn update_completing_for_town_immediately_complete() {
    let mut panicking = Panicking::new(PanicTo::Town);
    panicking.state = State::Completing(Timeout::default(), false);

    update_completing(&mut panicking, Minimap::Detecting);

    assert!(matches!(panicking.state, State::Completing(_, true)));
}

#[test]
fn update_completing_for_channel_switch_to_idle_if_no_players() {
    let mut panicking = Panicking::new(PanicTo::Channel);
    panicking.state = State::Completing(
        Timeout {
            current: 245,
            started: true,
            ..Default::default()
        },
        false,
    );

    update_completing(&mut panicking, Minimap::Idle(MinimapIdle::default()));

    assert!(matches!(panicking.state, State::Completing(_, true)));
}

#[test]
fn completing_for_channel_cycles_only_with_other_players() {
    let due = Timeout {
        current: 245,
        started: true,
        ..Default::default()
    };
    let mut crowded = MinimapIdle::default();
    crowded.other_players = 2;

    let mut panicking = Panicking::new(PanicTo::Channel);
    panicking.state = State::Completing(due, false);
    update_completing(&mut panicking, Minimap::Idle(crowded));
    assert_eq!(panicking.state, State::ChangingChannel(Timeout::default(), 0));

    panicking.state = State::Completing(due, false);
    update_completing(&mut panicking, Minimap::Detecting);
    assert_eq!(panicking.state, State::Completing(Timeout::default(), false));

    // A flight to town never goes back to changing channel.
    let mut to_town = Panicking::new(PanicTo::Town);
    to_town.state = State::Completing(due, false);
    update_completing(&mut to_town, Minimap::Idle(crowded));
    assert_eq!(to_town.state, State::Completing(due, true));

    // Before the deadline nothing is decided, whoever is around.
    panicking.state = State::Completing(
        Timeout {
            current: 244,
            started: true,
            ..Default::default()
        },
        false,
    );
    update_completing(&mut panicking, Minimap::Idle(crowded));
    assert!(matches!(
        panicking.state,
        State::Completing(Timeout { current: 245, .. }, false)
    ));
}

#[test]
fn changing_channel_opens_menu_unless_open() {
    let mut resources = Resources::new(None, Some(detector_with_channel_menu(false)));
    let mut panicking = Panicking::new(PanicTo::Channel);
    update_changing_channel(&mut resources, &mut panicking, Minimap::Detecting, KeyKind::F1);
    assert_eq!(resources.input.flush(), vec![InputEvent::Key(KeyKind::F1)]);
    assert!(matches!(
        panicking.state,
        State::ChangingChannel(Timeout { started: true, .. }, 0)
    ));

    resources.detector = detector_with_channel_menu(true);
    let mut panicking = Panicking::new(PanicTo::Channel);
    update_changing_channel(&mut resources, &mut panicking, Minimap::Detecting, KeyKind::F1);
    assert!(resources.input.flush().is_empty());

    // With the menu closed the later keys are held back.
    resources.detector = detector_with_channel_menu(false);
    panicking.state = State::ChangingChannel(
        Timeout {
            current: 169,
            started: true,
            ..Default::default()
        },
        0,
    );
    update_changing_channel(&mut resources, &mut panicking, Minimap::Detecting, KeyKind::F1);
    assert!(resources.input.flush().is_empty());
}

#[test]
fn changing_channel_retries_then_gives_up() {
    let mut resources = Resources::new(None, None);
    let idle = Minimap::Idle(MinimapIdle::default());
    let mut panicking = Panicking::new(PanicTo::Channel);
    let due = Timeout {
        current: 50,
        started: true,
        ..Default::default()
    };
    panicking.state = State::ChangingChannel(due, MAX_RETRY - 1);
    update_changing_channel(&mut resources, &mut panicking, idle, KeyKind::F1);
    assert_eq!(
        panicking.state,
        State::ChangingChannel(Timeout::default(), MAX_RETRY)
    );

    panicking.state = State::ChangingChannel(due, MAX_RETRY);
    update_changing_channel(&mut resources, &mut panicking, idle, KeyKind::F1);
    assert_eq!(panicking.state, State::Completing(Timeout::default(), true));
}

#[test]
fn going_to_town_gives_up_after_max_retries() {
    let mut resources = Resources::new(None, None);
    let mut panicking = Panicking::new(PanicTo::Town);
    panicking.state = State::GoingToTown(
        Timeout {
            started: true,
            current: 90,
            ..Default::default()
        },
        MAX_RETRY,
    );
    update_going_to_town(&mut resources, &mut panicking, KeyKind::F2);
    assert_eq!(panicking.state, State::Completing(Timeout::default(), true));
    assert!(resources.input.flush().is_empty());
}

#[test]
fn panic_to_town_success() {
    let mut player = PlayerEntity {
        state: Player::Idle,
        context: PlayerContext::default(),
    };
    player.context.config.to_town_key = Some(KeyKind::F2);
    player.context.config.change_channel_key = Some(KeyKind::F1);
    player.context.priority_action = Some(PlayerAction::Panic(PanicTo::Town));
    let mut resources = Resources::new(None, None);

    update_panicking_state(
        &mut resources,
        &mut player,
        Minimap::Detecting,
        Panicking::new(PanicTo::Town),
    );
    assert_eq!(resources.input.flush(), vec![InputEvent::Key(KeyKind::F2)]);

    let mut ticks = 0;
    while let Player::Panicking(panicking) = player.state {
        if matches!(
            panicking.state,
            State::GoingToTown(Timeout { current: 90, .. }, _)
        ) {
            resources.detector.popup_confirm_button = Some(Rect::new(1, 2, 3, 4));
        }
        if matches!(panicking.state, State::Completing(_, _)) {
            assert_eq!(
                panicking.state,
                State::Completing(Timeout::default(), true)
            );
        }
        update_panicking_state(&mut resources, &mut player, Minimap::Detecting, panicking);
        ticks += 1;
        assert!(ticks < 1000);
    }
    assert_eq!(ticks, 91);
    assert_eq!(
        resources.input.flush(),
        vec![InputEvent::Key(KeyKind::Enter)]
    );
    assert!(matches!(player.state, Player::Idle));
    assert!(player.context.priority_action.is_none());
}

#[test]
fn panicking_aborts_without_keys() {
    let mut resources = Resources::new(None, None);
    for (channel, town) in [
        (None, Some(KeyKind::F2)),
        (Some(KeyKind::F1), None),
        (None, None),
    ] {
        let mut player = PlayerEntity {
            state: Player::Panicking(Panicking::new(PanicTo::Town)),
            context: PlayerContext::default(),
        };
        player.context.config.change_channel_key = channel;
        player.context.config.to_town_key = town;
        player.context.priority_action = Some(PlayerAction::Panic(PanicTo::Town));
        player.context.normal_action = Some(PlayerAction::SolveRune);

        update_panicking_state(
            &mut resources,
            &mut player,
            Minimap::Detecting,
            Panicking::new(PanicTo::Town),
        );

        assert!(matches!(player.state, Player::Idle));
        assert!(player.context.priority_action.is_none());
        assert!(player.context.normal_action.is_some());
        assert!(resources.input.flush().is_empty());
    }
}

#[test]
fn panicking_without_action_goes_on_only_to_town() {
    let mut resources = Resources::new(None, None);
    let mut player = PlayerEntity {
        state: Player::Idle,
        context: PlayerContext::default(),
    };
    player.context.config.to_town_key = Some(KeyKind::F2);
    player.context.config.change_channel_key = Some(KeyKind::F1);

    update_panicking_state(
        &mut resources,
        &mut player,
        Minimap::Detecting,
        Panicking::new(PanicTo::Town),
    );
    assert!(matches!(player.state, Player::Panicking(_)));

    update_panicking_state(
        &mut resources,
        &mut player,
        Minimap::Detecting,
        Panicking::new(PanicTo::Channel),
    );
    assert!(matches!(player.state, Player::Idle));
}
