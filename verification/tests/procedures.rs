use backend::bridge::{InputEvent, InputKeyDownOptions, KeyKind};
use backend::detect::Detector;
use backend::ecs::Resources;
use backend::geometry::{Point, Rect};
use backend::minimap::{Minimap, MinimapIdle};
use backend::models::{ActionKeyDirection, ActionKeyWith, Position};
use backend::player::cash_shop::{update_cash_shop_state, CashShop, State as CashShopState};
use backend::player::jump::{update_jumping_state, JUMPING_TIMEOUT};
use backend::player::stall::update_stalling_state;
use backend::player::unstuck::{update_unstucking_state, Unstucking, UnstuckingKind};
use backend::player::use_booster::{
    update_using_booster_state, State as BoosterState, UsingBooster,
};
use backend::player::{
    next_action, transition, transition_from_action, transition_if, transition_to_moving,
    try_some_transition, AutoMob, Booster, Key, LastMovement, Move, Moving, PanicTo, Player,
    PlayerAction, PlayerContext, PlayerEntity, Timeout, MOVE_TIMEOUT,
};
use backend::rng::Rng;

fn entity() -> PlayerEntity {
    PlayerEntity {
        state: Player::Idle,
        context: PlayerContext::default(),
    }
}

fn auto_mob(y: i32) -> PlayerAction {
    PlayerAction::AutoMob(AutoMob {
        key: KeyKind::X,
        link_key: None,
        count: 1,
        with: ActionKeyWith::Any,
        wait_before_ticks: 0,
        wait_after_ticks: 0,
        position: Position {
            x: 0,
            y,
            allow_adjusting: false,
        },
    })
}

fn due(current: u32) -> Timeout {
    Timeout {
        current,
        started: true,
        ..Default::default()
    }
}

#[test]
fn cash_shop_missing_key() {
    let mut player = entity();
    player.context.normal_action = Some(PlayerAction::SolveRune);
    player.state = Player::CashShopThenExit(CashShop::new());
    let mut resources = Resources::new(None, None);

    update_cash_shop_state(&mut resources, &mut player, CashShop::new(), false);

    assert!(matches!(player.state, Player::Idle));
    assert!(player.context.normal_action.is_none());
    assert!(resources.input.flush().is_empty());
}

#[test]
fn cash_shop_runs_through_its_steps() {
    let mut player = entity();
    player.context.config.cash_shop_key = Some(KeyKind::Tilde);
    let mut resources = Resources::new(None, None);
    let mut cash_shop = CashShop::new();
    let mut step = |resources: &mut Resources,
                    player: &mut PlayerEntity,
                    cash_shop: CashShop,
                    failed: bool| {
        update_cash_shop_state(resources, player, cash_shop, failed);
        match player.state {
            Player::CashShopThenExit(next) => Some(next),
            Player::Idle => None,
            _ => panic!("unexpected state"),
        }
    };

    // Entering presses the key until the player is seen inside.
    cash_shop = step(&mut resources, &mut player, cash_shop, false).unwrap();
    assert_eq!(cash_shop.state, CashShopState::Entering);
    resources.detector.player_in_cash_shop = true;
    cash_shop = step(&mut resources, &mut player, cash_shop, false).unwrap();
    assert_eq!(cash_shop.state, CashShopState::Entered(Timeout::default()));
    assert_eq!(
        resources.input.flush(),
        vec![
            InputEvent::Key(KeyKind::Tilde),
            InputEvent::Key(KeyKind::Tilde)
        ]
    );

    // Entered waits for its deadline.
    let mut ticks = 0;
    while matches!(cash_shop.state, CashShopState::Entered(_)) {
        cash_shop = step(&mut resources, &mut player, cash_shop, false).unwrap();
        ticks += 1;
    }
    assert_eq!(ticks, 1 + 305 + 1);
    assert_eq!(cash_shop.state, CashShopState::Exitting);
    assert!(resources.input.flush().is_empty());

    // Exitting presses escape and enter until the player is out.
    cash_shop = step(&mut resources, &mut player, cash_shop, false).unwrap();
    assert_eq!(cash_shop.state, CashShopState::Exitting);
    resources.detector.player_in_cash_shop = false;
    cash_shop = step(&mut resources, &mut player, cash_shop, false).unwrap();
    assert_eq!(cash_shop.state, CashShopState::Exitted);
    assert_eq!(
        resources.input.flush(),
        vec![
            InputEvent::Key(KeyKind::Esc),
            InputEvent::Key(KeyKind::Enter),
            InputEvent::Key(KeyKind::Esc),
            InputEvent::Key(KeyKind::Enter)
        ]
    );

    // Exitted waits until the player is detected.
    cash_shop = step(&mut resources, &mut player, cash_shop, true).unwrap();
    assert_eq!(cash_shop.state, CashShopState::Exitted);
    cash_shop = step(&mut resources, &mut player, cash_shop, false).unwrap();
    assert_eq!(cash_shop.state, CashShopState::Stalling(Timeout::default()));

    let mut ticks = 0;
    let mut current = Some(cash_shop);
    while let Some(cash_shop) = current {
        current = step(&mut resources, &mut player, cash_shop, false);
        ticks += 1;
    }
    assert_eq!(ticks, 1 + 90 + 1);
    assert!(matches!(player.state, Player::Idle));
    assert!(resources.input.flush().is_empty());
}

#[test]
fn using_booster_presses_key_confirms_and_completes() {
    let mut player = entity();
    player.context.config.vip_booster_key = KeyKind::F7;
    player.context.config.hexa_booster_key = KeyKind::F8;
    player.context.normal_action = Some(PlayerAction::SolveRune);
    player.context.vip_booster_fail_count = 2;
    player.state = Player::UsingBooster(UsingBooster::new(Booster::Hexa));
    let mut resources = Resources::new(
        None,
        Some(Detector {
            admin_visible: true,
            esc_settings: true,
            ..Detector::default()
        }),
    );

    let mut ticks = 0;
    let mut pressed_at = Vec::new();
    while matches!(player.state, Player::UsingBooster(_)) {
        update_using_booster_state(&mut resources, &mut player);
        ticks += 1;
        for event in resources.input.flush() {
            pressed_at.push((ticks, event));
        }
    }
    assert_eq!(
        pressed_at,
        vec![
            (61, InputEvent::Key(KeyKind::F8)),
            (123, InputEvent::Key(KeyKind::Left)),
            (138, InputEvent::Key(KeyKind::Left)),
            (154, InputEvent::Key(KeyKind::Enter)),
            (171, InputEvent::Key(KeyKind::Esc)),
        ]
    );
    assert!(matches!(player.state, Player::Idle));
    assert!(player.context.normal_action.is_none());
    assert_eq!(player.context.vip_booster_fail_count, 0);
}

#[test]
fn using_booster_fails_without_the_dialog() {
    let mut player = entity();
    player.context.normal_action = Some(PlayerAction::SolveRune);
    player.context.vip_booster_fail_count = 2;
    let mut using = UsingBooster::new(Booster::Vip);
    using.state = BoosterState::Using(due(120));
    player.state = Player::UsingBooster(using);
    let mut resources = Resources::new(None, None);

    update_using_booster_state(&mut resources, &mut player);
    assert!(matches!(
        player.state,
        Player::UsingBooster(UsingBooster {
            state: BoosterState::Completing {
                completed: false,
                failed: true,
                ..
            },
            ..
        })
    ));
    assert_eq!(player.context.vip_booster_fail_count, 2);

    let mut ticks = 0;
    while matches!(player.state, Player::UsingBooster(_)) {
        update_using_booster_state(&mut resources, &mut player);
        ticks += 1;
    }
    assert_eq!(ticks, 1 + 15 + 1);
    assert_eq!(player.context.vip_booster_fail_count, 3);
    assert!(player.context.normal_action.is_none());
    assert!(resources.input.flush().is_empty());
}

#[test]
fn using_booster_cancels_without_action() {
    let mut player = entity();
    player.state = Player::UsingBooster(UsingBooster::new(Booster::Vip));
    let mut resources = Resources::new(None, None);
    update_using_booster_state(&mut resources, &mut player);
    assert!(matches!(player.state, Player::Idle));
    assert_eq!(player.context.vip_booster_fail_count, 0);
}

#[test]
fn stalling_counts_then_idles() {
    let mut player = entity();
    update_stalling_state(&mut player, Timeout::default(), 2);
    let mut ticks = 1;
    while let Player::Stalling(timeout, max) = player.state {
        assert_eq!(max, 2);
        update_stalling_state(&mut player, timeout, max);
        ticks += 1;
    }
    assert_eq!(ticks, 4);
    assert!(matches!(player.state, Player::Idle));
}

#[test]
fn stalling_restores_the_stashed_state_once() {
    let mut player = entity();
    player.context.stalling_timeout_state = Some(Player::Detecting);
    player.context.normal_action = Some(PlayerAction::Move(Move {
        position: Position::default(),
        wait_after_move_ticks: 0,
    }));
    update_stalling_state(&mut player, due(1), 2);
    assert!(matches!(player.state, Player::Stalling(_, 2)));
    assert!(player.context.stalling_timeout_state.is_some());

    update_stalling_state(&mut player, due(2), 2);
    assert!(matches!(player.state, Player::Detecting));
    assert!(player.context.stalling_timeout_state.is_none());
    // The stashed state is not the end of the action.
    assert!(player.context.normal_action.is_some());

    update_stalling_state(&mut player, due(2), 2);
    assert!(matches!(player.state, Player::Idle));
    assert!(player.context.normal_action.is_none());
}

#[test]
fn stalling_solidifies_reachable_y_for_auto_mob() {
    let mut player = entity();
    player.context.normal_action = Some(auto_mob(40));
    player.context.is_stationary = false;

    // Not stationary: the stall starts over and the action stays.
    update_stalling_state(&mut player, due(5), 5);
    assert!(matches!(
        player.state,
        Player::Stalling(Timeout { started: false, current: 0, .. }, 5)
    ));
    assert!(player.context.normal_action.is_some());
    assert_eq!(player.context.auto_mob_reachable_y, None);

    player.context.is_stationary = true;
    update_stalling_state(&mut player, due(5), 5);
    assert!(matches!(player.state, Player::Idle));
    assert!(player.context.normal_action.is_none());
    assert_eq!(player.context.auto_mob_reachable_y, Some(40));
    assert_eq!(player.context.auto_mob_reachable_y_count, 1);

    // After four confirmations the height needs no more of them.
    for count in 2..=4 {
        player.context.normal_action = Some(auto_mob(40));
        assert!(player.context.auto_mob_reachable_y_require_update(40));
        update_stalling_state(&mut player, due(5), 5);
        assert_eq!(player.context.auto_mob_reachable_y_count, count);
    }
    assert!(!player.context.auto_mob_reachable_y_require_update(40));
    assert!(player.context.auto_mob_reachable_y_require_update(41));
    player.context.normal_action = Some(auto_mob(40));
    player.context.is_stationary = false;
    update_stalling_state(&mut player, due(5), 5);
    assert!(matches!(player.state, Player::Idle));
    assert_eq!(player.context.auto_mob_reachable_y_count, 4);
}

#[test]
fn stalling_leaves_a_rune_action_uncompleted() {
    let mut player = entity();
    player.context.normal_action = Some(PlayerAction::SolveRune);
    update_stalling_state(&mut player, due(5), 5);
    assert!(matches!(player.state, Player::Idle));
    assert!(player.context.normal_action.is_some());
}

#[test]
fn jumping_presses_jump_once_then_waits() {
    let mut player = entity();
    player.context.last_known_pos = Some(Point::new(3, 3));
    player.context.config.jump_key = KeyKind::Space;
    let mut resources = Resources::new(None, None);
    let moving = Moving::new(Point::new(0, 0), Point::new(3, 9), false, None);

    update_jumping_state(&mut resources, &mut player, moving);
    assert_eq!(
        resources.input.flush(),
        vec![InputEvent::Key(KeyKind::Space)]
    );
    assert_eq!(player.context.last_movement, Some(LastMovement::Jumping));

    let mut ticks = 0;
    while let Player::Jumping(moving) = player.state {
        assert_eq!(moving.pos, Point::new(3, 3));
        update_jumping_state(&mut resources, &mut player, moving);
        ticks += 1;
    }
    assert_eq!(ticks, JUMPING_TIMEOUT + 1);
    assert!(matches!(player.state, Player::Moving(d, false, None) if d == Point::new(3, 9)));
    assert!(resources.input.flush().is_empty());
}

#[test]
fn unstucking_aborts_without_minimap() {
    let mut player = entity();
    player.state = Player::Unstucking(Unstucking::new_esc());
    player.context.priority_action = Some(PlayerAction::Unstuck);
    let mut resources = Resources::new(None, None);
    update_unstucking_state(&mut resources, &mut player, Minimap::Detecting);
    assert!(matches!(player.state, Player::Detecting));
    assert!(resources.input.flush().is_empty());
    assert!(player.context.priority_action.is_some());
}

#[test]
fn unstucking_esc_taps_escape_and_completes_unstuck_action() {
    let idle = Minimap::Idle(MinimapIdle::default());
    let mut player = entity();
    player.state = Player::Unstucking(Unstucking::new_esc());
    player.context.priority_action = Some(PlayerAction::Unstuck);
    player.context.normal_action = Some(PlayerAction::SolveRune);
    let mut resources = Resources::new(None, None);

    update_unstucking_state(&mut resources, &mut player, idle);
    assert!(matches!(player.state, Player::Detecting));
    assert_eq!(resources.input.flush(), vec![InputEvent::Key(KeyKind::Esc)]);
    assert!(player.context.priority_action.is_none());
    assert!(player.context.normal_action.is_some());

    // Another action at the head stays.
    player.state = Player::Unstucking(Unstucking::new_esc());
    update_unstucking_state(&mut resources, &mut player, idle);
    assert!(player.context.normal_action.is_some());
}

#[test]
fn unstucking_movement_heads_for_the_far_half() {
    let mut idle = MinimapIdle::default();
    idle.bbox = Rect::new(0, 0, 200, 100);
    let idle = Minimap::Idle(idle);
    let mut resources = Resources::new(None, None);
    let mut player = entity();
    player.context.config.jump_key = KeyKind::Space;

    // In the left half, well below the top edge: to the right.
    player.context.last_known_pos = Some(Point::new(100, 50));
    player.state = Player::Unstucking(Unstucking::new_movement(Timeout::default(), false));
    update_unstucking_state(&mut resources, &mut player, idle);
    assert_eq!(
        resources.input.flush(),
        vec![InputEvent::KeyDown(
            KeyKind::Right,
            InputKeyDownOptions::default()
        )]
    );
    assert_eq!(
        player.state_kind(),
        Some(UnstuckingKind::Movement {
            timeout: due(0),
            random: false
        })
    );

    // In the right half: the left key is released.
    player.context.last_known_pos = Some(Point::new(101, 50));
    player.state = Player::Unstucking(Unstucking::new_movement(Timeout::default(), false));
    update_unstucking_state(&mut resources, &mut player, idle);
    assert_eq!(
        resources.input.flush(),
        vec![InputEvent::KeyUp(KeyKind::Left)]
    );

    // Near the top edge nothing is pressed: eighteen from the top.
    player.context.last_known_pos = Some(Point::new(10, 82));
    player.state = Player::Unstucking(Unstucking::new_movement(Timeout::default(), false));
    update_unstucking_state(&mut resources, &mut player, idle);
    assert!(resources.input.flush().is_empty());
    update_unstucking_state(&mut resources, &mut player, idle);
    assert!(resources.input.flush().is_empty());

    // Nineteen from the top the jump key is pressed in later ticks.
    player.context.last_known_pos = Some(Point::new(10, 81));
    update_unstucking_state(&mut resources, &mut player, idle);
    assert_eq!(
        resources.input.flush(),
        vec![InputEvent::Key(KeyKind::Space)]
    );
}

#[test]
fn unstucking_random_movement_follows_the_coin() {
    let mut idle = MinimapIdle::default();
    idle.bbox = Rect::new(0, 0, 200, 100);
    let idle = Minimap::Idle(idle);
    let mut resources = Resources::new(None, None);
    let mut player = entity();
    player.context.config.jump_key = KeyKind::Space;
    player.context.last_known_pos = Some(Point::new(190, 95));

    resources.rng = Rng {
        coin: true,
        perlin: false,
    };
    player.state = Player::Unstucking(Unstucking::new_movement(Timeout::default(), true));
    update_unstucking_state(&mut resources, &mut player, idle);
    assert_eq!(
        resources.input.flush(),
        vec![InputEvent::KeyDown(
            KeyKind::Right,
            InputKeyDownOptions::default()
        )]
    );

    // Without a known position the movement becomes random.
    resources.rng = Rng {
        coin: false,
        perlin: false,
    };
    player.context.last_known_pos = None;
    player.state = Player::Unstucking(Unstucking::new_movement(Timeout::default(), false));
    update_unstucking_state(&mut resources, &mut player, idle);
    assert_eq!(
        resources.input.flush(),
        vec![InputEvent::KeyUp(KeyKind::Left)]
    );
    assert_eq!(
        player.state_kind(),
        Some(UnstuckingKind::Movement {
            timeout: due(0),
            random: true
        })
    );
    update_unstucking_state(&mut resources, &mut player, idle);
    assert_eq!(
        resources.input.flush(),
        vec![InputEvent::Key(KeyKind::Space)]
    );
}

#[test]
fn unstucking_movement_ends_releasing_both_keys() {
    let idle = Minimap::Idle(MinimapIdle::default());
    let mut resources = Resources::new(None, None);
    let mut player = entity();
    player.state = Player::Unstucking(Unstucking::new_movement(due(MOVE_TIMEOUT), false));
    update_unstucking_state(&mut resources, &mut player, idle);
    assert!(matches!(player.state, Player::Detecting));
    assert_eq!(
        resources.input.flush(),
        vec![
            InputEvent::KeyUp(KeyKind::Right),
            InputEvent::KeyUp(KeyKind::Left)
        ]
    );
}

trait StateKind {
    fn state_kind(&self) -> Option<UnstuckingKind>;
}

impl StateKind for PlayerEntity {
    fn state_kind(&self) -> Option<UnstuckingKind> {
        match self.state {
            Player::Unstucking(unstucking) => Some(unstucking.kind),
            _ => None,
        }
    }
}

#[test]
fn kernel_writes_the_state_and_completes_actions() {
    let mut player = entity();
    player.context.priority_action = Some(PlayerAction::Panic(PanicTo::Town));
    player.context.normal_action = Some(PlayerAction::SolveRune);
    assert_eq!(
        next_action(&player.context),
        Some(PlayerAction::Panic(PanicTo::Town))
    );

    transition(&mut player, Player::Detecting);
    assert!(matches!(player.state, Player::Detecting));
    transition_if(&mut player, Player::Idle, Player::Detecting, true);
    assert!(matches!(player.state, Player::Idle));
    transition_if(&mut player, Player::Idle, Player::Detecting, false);
    assert!(matches!(player.state, Player::Detecting));

    transition_from_action(&mut player, Player::Idle, false);
    assert!(player.context.priority_action.is_some());
    transition_from_action(&mut player, Player::Idle, true);
    assert!(player.context.priority_action.is_none());
    assert_eq!(next_action(&player.context), Some(PlayerAction::SolveRune));

    assert_eq!(
        try_some_transition(&mut player, Player::Detecting, Some(5)),
        Some(5)
    );
    assert!(matches!(player.state, Player::Idle));
    assert!(player.context.normal_action.is_some());
    assert_eq!(
        try_some_transition::<i32>(&mut player, Player::Detecting, None),
        None
    );
    assert!(matches!(player.state, Player::Detecting));
    assert_eq!(next_action(&player.context), None);

    let moving = Moving::new(Point::new(0, 0), Point::new(4, 5), true, None);
    transition_to_moving(&mut player, moving);
    assert!(matches!(player.state, Player::Moving(d, true, None) if d == Point::new(4, 5)));
}

#[test]
fn context_thresholds_and_counters() {
    let mut context = PlayerContext::default();
    assert_eq!(context.double_jump_threshold(false), 25);
    assert_eq!(context.double_jump_threshold(true), 25);
    context.normal_action = Some(auto_mob(1));
    assert!(context.has_auto_mob_action_only());
    assert_eq!(context.double_jump_threshold(false), 17);
    assert_eq!(context.double_jump_threshold(true), 25);
    context.priority_action = Some(PlayerAction::Key(Key {
        key: KeyKind::C,
        link_key: None,
        count: 1,
        position: None,
        direction: ActionKeyDirection::Any,
        with: ActionKeyWith::Stationary,
        wait_before_use_ticks: 0,
        wait_after_use_ticks: 0,
    }));
    assert!(!context.has_auto_mob_action_only());
    assert_eq!(context.double_jump_threshold(false), 25);

    context.vip_booster_fail_count = u32::MAX - 1;
    context.track_vip_booster_fail_count();
    context.track_vip_booster_fail_count();
    assert_eq!(context.vip_booster_fail_count, u32::MAX);
    context.clear_vip_booster_fail_count();
    assert_eq!(context.vip_booster_fail_count, 0);
}
