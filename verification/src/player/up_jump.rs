//! The state that jumps upward, in the way of the player's class.
use vstd::prelude::*;

use crate::bridge::{
    held_down, key_down, key_down_repeatable, released, InputEvent, InputKeyDownOptions, KeyKind,
};
use crate::ecs::Resources;
use crate::minimap::Minimap;
use crate::models::ActionKeyWith;
use crate::player::actions::{
    next_action, spec_update_from_auto_mob_action, spec_update_from_ping_pong_action,
    update_from_auto_mob_action, update_from_ping_pong_action, PlayerAction,
};
use crate::player::moving::{spec_abs, Moving, MOVE_TIMEOUT};
use crate::player::state::{LastMovement, PlayerConfiguration, PlayerContext};
use crate::player::timeout::{
    next_moving_lifecycle_with_axis, spec_next_moving_lifecycle_with_axis, ChangeAxis,
    MovingLifecycle, Timeout,
};
use crate::player::use_key::UseKey;
use crate::player::{
    spec_outcome_bounded, spec_stash_bounded, transition, transition_to_moving, Outcome, Player,
    PlayerEntity,
};
use crate::rng::Rng;

verus! {

/// Number of ticks to wait before spamming jump key.
pub const SPAM_DELAY: u32 = 7;

/// Number of ticks to wait before spamming jump key for lesser travel distance.
pub const SOFT_SPAM_DELAY: u32 = 12;

/// Ticks before an up jump gives up.
pub const UP_JUMPING_TIMEOUT: u32 = MOVE_TIMEOUT + 3;

/// Player's `y` velocity to be considered as up jumped, in thousandths.
pub const UP_JUMPED_Y_VELOCITY_THRESHOLD: i32 = 1300;

/// Player's `x` velocity to be considered as near stationary, in thousandths.
pub const X_NEAR_STATIONARY_THRESHOLD: i32 = 280;

/// Player's `y` velocity to be considered as near stationary, in thousandths.
pub const Y_NEAR_STATIONARY_VELOCITY_THRESHOLD: i32 = 400;

/// Minimum distance required to perform an up jump using teleport key with jump.
pub const TELEPORT_WITH_JUMP_THRESHOLD: i32 = 20;

/// Minimum distance required to perform an up jump and then teleport.
pub const UP_JUMP_AND_TELEPORT_THRESHOLD: i32 = 23;

/// Largest distance that counts as a lesser travel distance.
pub const SOFT_UP_JUMP_THRESHOLD: i32 = 16;

/// How far a mage's up jump has got.
#[derive(Debug, Clone, Copy, PartialEq, Eq, Structural)]
pub enum MageState {
    Teleporting,
    UpJumping,
    Flying,
}

/// The up jump of a class that teleports.
#[derive(Debug, Clone, Copy, PartialEq, Eq, Structural)]
pub struct Mage {
    pub state: MageState,
}

/// The way in which a class jumps upward.
#[derive(Debug, Clone, Copy, PartialEq, Eq, Structural)]
pub enum UpJumpingKind {
    Mage(Mage),
    UpArrow,
    JumpKey,
    SpecificKey,
}

/// A jump up toward the destination of `moving`.
#[derive(Debug, Clone, Copy)]
pub struct UpJumping {
    pub moving: Moving,
    /// The kind of up jump.
    pub kind: UpJumpingKind,
    /// Number of ticks to wait before sending jump key(s).
    pub spam_delay: u32,
    /// Whether auto-mobbing should wait for up jump completion in non-intermediate destination.
    pub auto_mob_wait_completion: bool,
}

/// The kind of up jump of a class with the given keys: a class with a teleport
/// key is a mage; without one, the up arrow, no key at all or any other key
/// each stand for a kind of their own.
pub open spec fn spec_up_jumping_kind(
    up_jump_key: Option<KeyKind>,
    has_teleport_key: bool,
) -> UpJumpingKind {
    if has_teleport_key {
        UpJumpingKind::Mage(Mage { state: MageState::Teleporting })
    } else if up_jump_key is None {
        UpJumpingKind::JumpKey
    } else if up_jump_key == Some(KeyKind::Up) {
        UpJumpingKind::UpArrow
    } else {
        UpJumpingKind::SpecificKey
    }
}

/// Tells the kind of up jump of a class from its keys.
pub fn up_jumping_kind(up_jump_key: Option<KeyKind>, has_teleport_key: bool) -> (kind:
    UpJumpingKind)
    ensures
        kind == spec_up_jumping_kind(up_jump_key, has_teleport_key),
{
    match (up_jump_key, has_teleport_key) {
        (Some(_), true) | (None, true) => UpJumpingKind::Mage(
            Mage { state: MageState::Teleporting },
        ),
        (Some(KeyKind::Up), false) => UpJumpingKind::UpArrow,
        (None, false) => UpJumpingKind::JumpKey,
        (Some(_), false) => UpJumpingKind::SpecificKey,
    }
}

impl UpJumping {
    /// The ticks to wait before a key is sent again: longer for a short way
    /// up.
    pub open spec fn spec_spam_delay(moving: Moving) -> u32 {
        if moving.spec_y_distance_from(true, moving.pos) <= SOFT_UP_JUMP_THRESHOLD {
            SOFT_SPAM_DELAY
        } else {
            SPAM_DELAY
        }
    }

    /// The jump that a player with `context` begins for `moving`, with `coin`
    /// deciding whether a lone auto-mob action waits for the jump to complete.
    pub open spec fn spec_new(moving: Moving, coin: bool, context: PlayerContext) -> UpJumping {
        UpJumping {
            moving,
            kind: spec_up_jumping_kind(
                context.config.up_jump_key,
                context.config.teleport_key is Some,
            ),
            spam_delay: Self::spec_spam_delay(moving),
            auto_mob_wait_completion: context.spec_has_auto_mob_action_only() && coin,
        }
    }

    /// The keys that the kind of jump needs are configured.
    pub open spec fn keys_configured(self, config: PlayerConfiguration) -> bool {
        &&& self.kind is Mage ==> config.teleport_key is Some
        &&& self.kind is SpecificKey ==> config.up_jump_key is Some
    }

    /// Begins a jump up for `moving`.
    pub fn new(moving: Moving, resources: &Resources, player_context: &PlayerContext) -> (up_jumping:
        UpJumping)
        requires
            moving.in_range(),
        ensures
            up_jumping == UpJumping::spec_new(moving, resources.rng.coin, *player_context),
            up_jumping.keys_configured(player_context.config),
    {
        let (y_distance, _) = moving.y_distance_direction_from(true, moving.pos);
        let spam_delay: u32 = if y_distance <= SOFT_UP_JUMP_THRESHOLD {
            SOFT_SPAM_DELAY
        } else {
            SPAM_DELAY
        };
        let auto_mob_wait_completion = player_context.has_auto_mob_action_only()
            && resources.rng.random_bool();
        let kind = up_jumping_kind(
            player_context.config.up_jump_key,
            player_context.config.teleport_key.is_some(),
        );
        UpJumping { moving, kind, spam_delay, auto_mob_wait_completion }
    }

    /// The same jump with `moving` in place of its movement.
    pub fn moving(self, moving: Moving) -> (up_jumping: UpJumping)
        ensures
            up_jumping == (UpJumping { moving, ..self }),
    {
        UpJumping { moving, ..self }
    }
}

/// The player moves too fast for a jump to begin: the velocity is larger in
/// magnitude, along x or along y, than counts as near stationary.
pub open spec fn spec_too_fast(velocity: (i32, i32)) -> bool {
    spec_abs(velocity.0 as int) > X_NEAR_STATIONARY_THRESHOLD || spec_abs(velocity.1 as int)
        > Y_NEAR_STATIONARY_VELOCITY_THRESHOLD
}

/// The stage at which a mage's jump begins: in flight, with an up jump first
/// when the way is long, or with the teleport at once.
pub open spec fn spec_mage_first_state(is_flight: bool, y_distance: int) -> MageState {
    if is_flight {
        MageState::Flying
    } else if y_distance >= UP_JUMP_AND_TELEPORT_THRESHOLD {
        MageState::UpJumping
    } else {
        MageState::Teleporting
    }
}

/// The kind of jump once the jump has begun.
pub open spec fn spec_started_kind(
    kind: UpJumpingKind,
    config: PlayerConfiguration,
    y_distance: int,
) -> UpJumpingKind {
    match kind {
        UpJumpingKind::Mage(_) => UpJumpingKind::Mage(
            Mage { state: spec_mage_first_state(config.up_jump_is_flight, y_distance) },
        ),
        _ => kind,
    }
}

/// The keys with which a jump of `kind` begins.
pub open spec fn spec_started_events(
    kind: UpJumpingKind,
    config: PlayerConfiguration,
    y_distance: int,
) -> Seq<InputEvent> {
    let up = seq![key_down(KeyKind::Up)];
    let jump = seq![InputEvent::Key(config.jump_key)];
    match kind {
        UpJumpingKind::Mage(_) => if config.up_jump_is_flight || (y_distance
            >= TELEPORT_WITH_JUMP_THRESHOLD && config.up_jump_key is None) {
            up + jump
        } else {
            up
        },
        UpJumpingKind::UpArrow => jump,
        UpJumpingKind::JumpKey => up + jump,
        UpJumpingKind::SpecificKey => if config.up_jump_is_flight
            || config.up_jump_specific_key_should_jump {
            up + jump
        } else {
            up
        },
    }
}

/// What flying does in one tick: the key is held while the destination is
/// above, and let go, which completes the movement, once it is not.
pub open spec fn spec_update_flying(moving: Moving, y_direction: int, key: KeyKind) -> (
    Moving,
    Seq<InputEvent>,
) {
    if y_direction > 0 {
        (moving, seq![key_down_repeatable(key)])
    } else {
        (Moving { completed: true, ..moving }, seq![InputEvent::KeyUp(key)])
    }
}


/// What one tick does to a mage's jump that is not completed.
pub open spec fn spec_update_mage_up_jump(
    context: PlayerContext,
    moving: Moving,
    mage: Mage,
    spam_delay: u32,
    y_distance: int,
    y_direction: int,
) -> (Moving, Mage, Seq<InputEvent>) {
    let config = context.config;
    let teleport_key = config.teleport_key->0;
    match mage.state {
        MageState::Teleporting => if y_direction > 0 && y_distance < TELEPORT_WITH_JUMP_THRESHOLD {
            (Moving { completed: true, ..moving }, mage, seq![InputEvent::Key(teleport_key)])
        } else {
            (moving, mage, Seq::empty())
        },
        MageState::UpJumping => match config.up_jump_key {
            Some(key) => (moving, Mage { state: MageState::Teleporting }, seq![InputEvent::Key(key)]),
            None => if context.velocity.1 <= UP_JUMPED_Y_VELOCITY_THRESHOLD {
                (
                    moving,
                    mage,
                    if moving.timeout.total >= spam_delay {
                        seq![InputEvent::Key(config.jump_key)]
                    } else {
                        Seq::empty()
                    },
                )
            } else {
                (moving, Mage { state: MageState::Teleporting }, Seq::empty())
            },
        },
        MageState::Flying => {
            let key = match config.up_jump_key {
                Some(key) => key,
                None => teleport_key,
            };
            let (moving, events) = spec_update_flying(moving, y_direction, key);
            (moving, mage, events)
        },
    }
}

/// What one tick does to the movement and the kind of a jump.
///
/// A completed jump lets go of the up key. One that is not completed goes on
/// in the way of its kind.
pub open spec fn spec_update_up_jump(
    context: PlayerContext,
    moving: Moving,
    up_jumping: UpJumping,
    y_distance: int,
    y_direction: int,
) -> (Moving, UpJumpingKind, Seq<InputEvent>) {
    let config = context.config;
    if moving.completed {
        (moving, up_jumping.kind, seq![InputEvent::KeyUp(KeyKind::Up)])
    } else {
        match up_jumping.kind {
            UpJumpingKind::Mage(mage) => {
                let (moving, mage, events) = spec_update_mage_up_jump(
                    context,
                    moving,
                    mage,
                    up_jumping.spam_delay,
                    y_distance,
                    y_direction,
                );
                (moving, UpJumpingKind::Mage(mage), events)
            },
            UpJumpingKind::UpArrow => if context.velocity.1 <= UP_JUMPED_Y_VELOCITY_THRESHOLD {
                (
                    moving,
                    up_jumping.kind,
                    if moving.timeout.total >= up_jumping.spam_delay {
                        seq![InputEvent::Key(KeyKind::Up)]
                    } else {
                        Seq::empty()
                    },
                )
            } else {
                (Moving { completed: true, ..moving }, up_jumping.kind, Seq::empty())
            },
            UpJumpingKind::JumpKey => if context.velocity.1 <= UP_JUMPED_Y_VELOCITY_THRESHOLD {
                (
                    moving,
                    up_jumping.kind,
                    if moving.timeout.total >= up_jumping.spam_delay {
                        seq![InputEvent::Key(config.jump_key)]
                    } else {
                        Seq::empty()
                    },
                )
            } else {
                (Moving { completed: true, ..moving }, up_jumping.kind, Seq::empty())
            },
            UpJumpingKind::SpecificKey => if !config.up_jump_is_flight {
                if moving.timeout.total >= up_jumping.spam_delay {
                    (
                        Moving { completed: true, ..moving },
                        up_jumping.kind,
                        seq![InputEvent::Key(config.up_jump_key->0)],
                    )
                } else {
                    (moving, up_jumping.kind, Seq::empty())
                }
            } else {
                let (moving, events) = spec_update_flying(
                    moving,
                    y_direction,
                    config.up_jump_key->0,
                );
                (moving, up_jumping.kind, events)
            },
        }
    }
}

/// The actions under which a jump up can run.
pub open spec fn spec_supports_action(action: Option<PlayerAction>) -> bool {
    !(action matches Some(PlayerAction::Unstuck) || action matches Some(PlayerAction::Panic(_)))
}

/// How a jump up, written as the state of `player`, gives way to the head of
/// the action queue.
pub open spec fn spec_update_from_action(
    player: PlayerEntity,
    minimap_state: Minimap,
    rng: Rng,
    up_jumping: UpJumping,
    moving: Moving,
) -> Outcome {
    let cur_pos = moving.pos;
    let y_direction = moving.spec_y_direction_from(true, cur_pos);
    match player.context.spec_next_action() {
        Some(PlayerAction::AutoMob(mob)) => if moving.completed
            && moving.spec_is_destination_intermediate() && y_direction <= 0 {
            Outcome {
                state: Player::spec_to_moving(moving),
                context: player.context,
                events: seq![InputEvent::KeyUp(KeyKind::Up)],
            }
        } else if up_jumping.auto_mob_wait_completion && !moving.completed {
            player.unchanged()
        } else {
            spec_update_from_auto_mob_action(
                player,
                minimap_state,
                mob,
                moving.spec_x_distance_from(false, cur_pos),
                moving.spec_x_direction_from(false, cur_pos),
                moving.spec_y_distance_from(false, cur_pos),
            )
        },
        Some(PlayerAction::Key(key)) => if key.with == ActionKeyWith::Any && moving.completed
            && y_direction <= 0 {
            Outcome {
                state: Player::UseKey(UseKey::spec_from_key(key)),
                context: player.context,
                events: Seq::empty(),
            }
        } else {
            player.unchanged()
        },
        Some(PlayerAction::PingPong(ping_pong)) => if !moving.completed || !rng.perlin {
            player.unchanged()
        } else {
            spec_update_from_ping_pong_action(player, minimap_state, ping_pong, cur_pos)
        },
        _ => player.unchanged(),
    }
}

/// What one tick of a jump up does.
///
/// A jump whose kind needs a key that is not set is given up: the head of the
/// action queue is completed and the player idles, with no key sent. Else the
/// first tick waits while the player moves too fast, gives the jump up
/// inside a portal, and else commits the movement and presses the first keys
/// of its kind. Later ticks go on in the way of the kind and then give way to
/// the head of the action queue. Past the deadline the up key is let go and
/// the moving state takes over.
pub open spec fn spec_update_up_jumping_state(
    player: PlayerEntity,
    minimap_state: Minimap,
    rng: Rng,
) -> Outcome {
    let up_jumping = player.state->UpJumping_0;
    let context = player.context;
    if !up_jumping.keys_configured(context.config) {
        Outcome {
            state: Player::Idle,
            context: context.spec_clear_action_completed(),
            events: Seq::empty(),
        }
    } else {
        spec_update_configured(player, minimap_state, rng)
    }
}

/// What one tick does to a jump up whose keys are set.
pub open spec fn spec_update_configured(
    player: PlayerEntity,
    minimap_state: Minimap,
    rng: Rng,
) -> Outcome {
    let up_jumping = player.state->UpJumping_0;
    let context = player.context;
    match spec_next_moving_lifecycle_with_axis(
        up_jumping.moving,
        context.last_known_pos->0,
        UP_JUMPING_TIMEOUT,
        ChangeAxis::Vertical,
    ) {
        MovingLifecycle::Started(moving) => if spec_too_fast(context.velocity) {
            Outcome {
                state: Player::UpJumping(
                    UpJumping {
                        moving: Moving {
                            timeout: Timeout { started: false, ..moving.timeout },
                            ..moving
                        },
                        ..up_jumping
                    },
                ),
                context,
                events: Seq::empty(),
            }
        } else if minimap_state.spec_is_inside_portal(moving.pos) {
            Outcome {
                state: Player::Idle,
                context: context.spec_clear_action_completed(),
                events: Seq::empty(),
            }
        } else {
            let y_distance = moving.spec_y_distance_from(true, moving.pos);
            Outcome {
                state: Player::UpJumping(
                    UpJumping {
                        moving,
                        kind: spec_started_kind(up_jumping.kind, context.config, y_distance),
                        ..up_jumping
                    },
                ),
                context: PlayerContext { last_movement: Some(LastMovement::UpJumping), ..context },
                events: spec_started_events(up_jumping.kind, context.config, y_distance),
            }
        },
        MovingLifecycle::Ended(moving) => Outcome {
            state: Player::spec_to_moving(moving),
            context,
            events: seq![InputEvent::KeyUp(KeyKind::Up)],
        },
        MovingLifecycle::Updated(moving) => {
            let (next_moving, kind, events) = spec_update_up_jump(
                context,
                moving,
                up_jumping,
                moving.spec_y_distance_from(true, moving.pos),
                moving.spec_y_direction_from(true, moving.pos),
            );
            let next = UpJumping { moving: next_moving, kind, ..up_jumping };
            let written = Outcome { state: Player::UpJumping(next), context, events };
            written.followed_by(
                spec_update_from_action(written.entity(), minimap_state, rng, next, next_moving),
            )
        },
    }
}

/// Flies for one tick with `key`.
fn update_flying(resources: &mut Resources, moving: &mut Moving, y_direction: i32, key: KeyKind)
    ensures
        ({
            let (next, events) = spec_update_flying(*old(moving), y_direction as int, key);
            &&& *final(moving) == next
            &&& final(resources).sent(*old(resources), events)
        }),
{
    if y_direction > 0 {
        resources.input.send_key_down_with_options(key, InputKeyDownOptions::default().repeatable());
        assert(resources.input@ =~= old(resources).input@ + seq![key_down_repeatable(key)]);
    } else {
        resources.input.send_key_up(key);
        moving.completed = true;
        assert(resources.input@ =~= old(resources).input@ + seq![InputEvent::KeyUp(key)]);
    }
}

/// Goes on with a mage's jump that is not completed.
fn update_mage_up_jump(
    resources: &mut Resources,
    context: &PlayerContext,
    moving: &mut Moving,
    mage: &mut Mage,
    spam_delay: u32,
    y_distance: i32,
    y_direction: i32,
)
    requires
        context.config.teleport_key is Some,
    ensures
        ({
            let (next, next_mage, events) = spec_update_mage_up_jump(
                *context,
                *old(moving),
                *old(mage),
                spam_delay,
                y_distance as int,
                y_direction as int,
            );
            &&& *final(moving) == next
            &&& *final(mage) == next_mage
            &&& final(resources).sent(*old(resources), events)
        }),
{
    let jump_key = context.config.jump_key;
    let up_jump_key = context.config.up_jump_key;
    let teleport_key = match context.config.teleport_key {
        Some(key) => key,
        None => { return ; },
    };
    let ghost nothing = Seq::<InputEvent>::empty();
    match mage.state {
        MageState::Teleporting => {
            if y_direction > 0 && y_distance < TELEPORT_WITH_JUMP_THRESHOLD {
                resources.input.send_key(teleport_key);
                moving.completed = true;
                assert(resources.input@ =~= old(resources).input@ + seq![
                    InputEvent::Key(teleport_key),
                ]);
            } else {
                assert(resources.input@ =~= old(resources).input@ + nothing);
            }
        },
        MageState::UpJumping => match up_jump_key {
            Some(key) => {
                resources.input.send_key(key);
                mage.state = MageState::Teleporting;
                assert(resources.input@ =~= old(resources).input@ + seq![InputEvent::Key(key)]);
            },
            None => {
                if context.velocity.1 <= UP_JUMPED_Y_VELOCITY_THRESHOLD {
                    if moving.timeout.total >= spam_delay {
                        resources.input.send_key(jump_key);
                        assert(resources.input@ =~= old(resources).input@ + seq![
                            InputEvent::Key(jump_key),
                        ]);
                    } else {
                        assert(resources.input@ =~= old(resources).input@ + nothing);
                    }
                } else {
                    mage.state = MageState::Teleporting;
                    assert(resources.input@ =~= old(resources).input@ + nothing);
                }
            },
        },
        MageState::Flying => {
            let key = match up_jump_key {
                Some(key) => key,
                None => teleport_key,
            };
            update_flying(resources, moving, y_direction, key);
        },
    }
}

/// Goes on with a jump in the way of its kind.
fn update_up_jump(
    resources: &mut Resources,
    context: &PlayerContext,
    moving: &mut Moving,
    up_jumping: &mut UpJumping,
    y_distance: i32,
    y_direction: i32,
)
    requires
        old(up_jumping).keys_configured(context.config),
    ensures
        ({
            let (next, kind, events) = spec_update_up_jump(
                *context,
                *old(moving),
                *old(up_jumping),
                y_distance as int,
                y_direction as int,
            );
            &&& *final(moving) == next
            &&& *final(up_jumping) == (UpJumping { kind, ..*old(up_jumping) })
            &&& final(resources).sent(*old(resources), events)
        }),
{
    let jump_key = context.config.jump_key;
    let up_jump_key = context.config.up_jump_key;
    let is_flight = context.config.up_jump_is_flight;
    let ghost nothing = Seq::<InputEvent>::empty();

    if moving.completed {
        resources.input.send_key_up(KeyKind::Up);
        assert(resources.input@ =~= old(resources).input@ + seq![InputEvent::KeyUp(KeyKind::Up)]);
        return ;
    }
    match up_jumping.kind {
        UpJumpingKind::Mage(mage) => {
            let mut mage = mage;
            update_mage_up_jump(
                resources,
                context,
                moving,
                &mut mage,
                up_jumping.spam_delay,
                y_distance,
                y_direction,
            );
            up_jumping.kind = UpJumpingKind::Mage(mage);
        },
        UpJumpingKind::UpArrow => {
            if context.velocity.1 <= UP_JUMPED_Y_VELOCITY_THRESHOLD {
                // Spam the up arrow until the player rises, as sending it
                // twice in a row does not work.
                if moving.timeout.total >= up_jumping.spam_delay {
                    resources.input.send_key(KeyKind::Up);
                    assert(resources.input@ =~= old(resources).input@ + seq![
                        InputEvent::Key(KeyKind::Up),
                    ]);
                } else {
                    assert(resources.input@ =~= old(resources).input@ + nothing);
                }
            } else {
                moving.completed = true;
                assert(resources.input@ =~= old(resources).input@ + nothing);
            }
        },
        UpJumpingKind::JumpKey => {
            if context.velocity.1 <= UP_JUMPED_Y_VELOCITY_THRESHOLD {
                if moving.timeout.total >= up_jumping.spam_delay {
                    resources.input.send_key(jump_key);
                    assert(resources.input@ =~= old(resources).input@ + seq![
                        InputEvent::Key(jump_key),
                    ]);
                } else {
                    assert(resources.input@ =~= old(resources).input@ + nothing);
                }
            } else {
                moving.completed = true;
                assert(resources.input@ =~= old(resources).input@ + nothing);
            }
        },
        UpJumpingKind::SpecificKey => {
            let key = match up_jump_key {
                Some(key) => key,
                None => { return ; },
            };
            if !is_flight {
                if moving.timeout.total >= up_jumping.spam_delay {
                    resources.input.send_key(key);
                    moving.completed = true;
                    assert(resources.input@ =~= old(resources).input@ + seq![InputEvent::Key(key)]);
                } else {
                    assert(resources.input@ =~= old(resources).input@ + nothing);
                }
            } else {
                update_flying(resources, moving, y_direction, key);
            }
        },
    }
}

/// Gives way to the head of the action queue, with the jump already written as
/// the player's state.
fn update_from_action(
    resources: &mut Resources,
    player: &mut PlayerEntity,
    minimap_state: Minimap,
    up_jumping: UpJumping,
    moving: Moving,
)
    requires
        moving.in_range(),
        spec_supports_action(old(player).context.spec_next_action()),
    ensures
        spec_update_from_action(
            *old(player),
            minimap_state,
            old(resources).rng,
            up_jumping,
            moving,
        ).reached(*old(resources), *final(resources), *final(player)),
{
    let cur_pos = moving.pos;
    let (_, y_direction) = moving.y_distance_direction_from(true, cur_pos);
    let ghost nothing = Seq::<InputEvent>::empty();
    match next_action(&player.context) {
        Some(PlayerAction::AutoMob(mob)) => {
            if moving.completed && moving.is_destination_intermediate() && y_direction <= 0 {
                resources.input.send_key_up(KeyKind::Up);
                transition_to_moving(player, moving);
                assert(resources.input@ =~= old(resources).input@ + seq![
                    InputEvent::KeyUp(KeyKind::Up),
                ]);
                return ;
            }
            if up_jumping.auto_mob_wait_completion && !moving.completed {
                assert(resources.input@ =~= old(resources).input@ + nothing);
                return ;
            }
            let (x_distance, x_direction) = moving.x_distance_direction_from(false, cur_pos);
            let (y_distance, _) = moving.y_distance_direction_from(false, cur_pos);
            update_from_auto_mob_action(
                resources,
                player,
                minimap_state,
                mob,
                x_distance,
                x_direction,
                y_distance,
            );
        },
        Some(PlayerAction::Key(key)) => {
            let with_any = match key.with {
                ActionKeyWith::Any => true,
                _ => false,
            };
            if with_any && moving.completed && y_direction <= 0 {
                transition(player, Player::UseKey(UseKey::from_key(key)));
            }
            assert(resources.input@ =~= old(resources).input@ + nothing);
        },
        Some(PlayerAction::PingPong(ping_pong)) => {
            if !moving.completed || !resources.rng.random_perlin_bool() {
                assert(resources.input@ =~= old(resources).input@ + nothing);
                return ;
            }
            update_from_ping_pong_action(resources, player, minimap_state, ping_pong, cur_pos);
        },
        _ => {
            assert(resources.input@ =~= old(resources).input@ + nothing);
        },
    }
}

/// Updates the [`Player::UpJumping`] contextual state.
///
/// This state can only be transitioned via [`Player::Moving`] when the
/// player has reached the destination x-wise. Before performing an up jump, it will check for
/// stationary state and whether the player is currently near a portal. If the player is near
/// a portal, this action is aborted. The up jump action is made to be adapted for various classes
/// that has different up jump key combination.
pub fn update_up_jumping_state(
    resources: &mut Resources,
    player: &mut PlayerEntity,
    minimap_state: Minimap,
)
    requires
        old(player).state is UpJumping,
        old(player).state->UpJumping_0.keys_configured(old(player).context.config) ==> {
            &&& old(player).state->UpJumping_0.moving.in_range()
            &&& old(player).context.last_known_pos matches Some(pos) && pos.in_range()
            &&& spec_supports_action(old(player).context.spec_next_action())
            &&& minimap_state.in_range()
        },
    ensures
        spec_update_up_jumping_state(*old(player), minimap_state, old(resources).rng).reached(
            *old(resources),
            *final(resources),
            *final(player),
        ),
{
    let mut up_jumping = match player.state {
        Player::UpJumping(up_jumping) => up_jumping,
        _ => { return ; },
    };
    let keys_configured = match up_jumping.kind {
        UpJumpingKind::Mage(_) => player.context.config.teleport_key.is_some(),
        UpJumpingKind::SpecificKey => player.context.config.up_jump_key.is_some(),
        _ => true,
    };
    if !keys_configured {
        player.context.clear_action_completed();
        transition(player, Player::Idle);
        assert(resources.input@ =~= old(resources).input@ + Seq::<InputEvent>::empty());
        return ;
    }
    let cur_pos = match player.context.last_known_pos {
        Some(pos) => pos,
        None => { return ; },
    };
    let up_jump_key = player.context.config.up_jump_key;
    let jump_key = player.context.config.jump_key;
    let should_jump = player.context.config.up_jump_specific_key_should_jump;
    let is_flight = player.context.config.up_jump_is_flight;

    match next_moving_lifecycle_with_axis(
        up_jumping.moving,
        cur_pos,
        UP_JUMPING_TIMEOUT,
        ChangeAxis::Vertical,
    ) {
        MovingLifecycle::Started(moving) => {
            // Stall until near stationary
            let (x_velocity, y_velocity) = player.context.velocity;
            if x_velocity > X_NEAR_STATIONARY_THRESHOLD || x_velocity
                < -X_NEAR_STATIONARY_THRESHOLD || y_velocity
                > Y_NEAR_STATIONARY_VELOCITY_THRESHOLD || y_velocity
                < -Y_NEAR_STATIONARY_VELOCITY_THRESHOLD {
                transition(player, Player::UpJumping(up_jumping.moving(moving.timeout_started(false))));
                assert(resources.input@ =~= old(resources).input@ + Seq::<InputEvent>::empty());
                return ;
            }
            let is_inside_portal = match minimap_state {
                Minimap::Idle(idle) => idle.is_position_inside_portal(moving.pos),
                _ => false,
            };
            if is_inside_portal {
                player.context.clear_action_completed();
                transition(player, Player::Idle);
                assert(resources.input@ =~= old(resources).input@ + Seq::<InputEvent>::empty());
                return ;
            }
            player.context.last_movement = Some(LastMovement::UpJumping);
            let (y_distance, _) = moving.y_distance_direction_from(true, moving.pos);
            match up_jumping.kind {
                UpJumpingKind::Mage(_) => {
                    let teleport_after_up_jump = !is_flight && y_distance
                        >= UP_JUMP_AND_TELEPORT_THRESHOLD;
                    let state = if is_flight {
                        MageState::Flying
                    } else if teleport_after_up_jump {
                        MageState::UpJumping
                    } else {
                        MageState::Teleporting
                    };
                    up_jumping.kind = UpJumpingKind::Mage(Mage { state });
                    resources.input.send_key_down(KeyKind::Up);
                    let can_jump = y_distance >= TELEPORT_WITH_JUMP_THRESHOLD
                        && up_jump_key.is_none();
                    if is_flight || can_jump {
                        resources.input.send_key(jump_key);
                    }
                },
                UpJumpingKind::UpArrow => {
                    resources.input.send_key(jump_key);
                },
                UpJumpingKind::JumpKey => {
                    resources.input.send_key_down(KeyKind::Up);
                    resources.input.send_key(jump_key);
                },
                UpJumpingKind::SpecificKey => {
                    resources.input.send_key_down(KeyKind::Up);
                    if is_flight || should_jump {
                        resources.input.send_key(jump_key);
                    }
                },
            }
            transition(player, Player::UpJumping(up_jumping.moving(moving)));
            assert(resources.input@ =~= old(resources).input@ + spec_started_events(
                old(player).state->UpJumping_0.kind,
                old(player).context.config,
                y_distance as int,
            ));
        },
        MovingLifecycle::Ended(moving) => {
            resources.input.send_key_up(KeyKind::Up);
            transition_to_moving(player, moving);
            assert(resources.input@ =~= old(resources).input@ + seq![
                InputEvent::KeyUp(KeyKind::Up),
            ]);
        },
        MovingLifecycle::Updated(moving) => {
            let mut moving = moving;
            let (y_distance, y_direction) = moving.y_distance_direction_from(true, moving.pos);
            let ghost first = spec_update_up_jump(
                player.context,
                moving,
                up_jumping,
                y_distance as int,
                y_direction as int,
            ).2;
            update_up_jump(
                resources,
                &player.context,
                &mut moving,
                &mut up_jumping,
                y_distance,
                y_direction,
            );
            // Sets initial next state first
            let next = up_jumping.moving(moving);
            transition(player, Player::UpJumping(next));
            let ghost written = *player;
            update_from_action(resources, player, minimap_state, next, moving);
            proof {
                let second = spec_update_from_action(
                    written,
                    minimap_state,
                    old(resources).rng,
                    next,
                    moving,
                ).events;
                assert(resources.input@ =~= old(resources).input@ + (first + second));
            }
        },
    }
}

/// A jump never begins while the player moves too fast: the first tick then
/// sends no key, leaves the context alone and keeps the jump waiting.
pub proof fn lemma_stall_is_silent(player: PlayerEntity, minimap_state: Minimap, rng: Rng)
    requires
        player.state is UpJumping,
        player.state->UpJumping_0.keys_configured(player.context.config),
        !player.state->UpJumping_0.moving.timeout.started,
        spec_too_fast(player.context.velocity),
    ensures
        ({
            let outcome = spec_update_up_jumping_state(player, minimap_state, rng);
            &&& outcome.events == Seq::<InputEvent>::empty()
            &&& outcome.context == player.context
            &&& outcome.state is UpJumping
            &&& !outcome.state->UpJumping_0.moving.timeout.started
        }),
{
}

/// The first tick of a jump does one of three things and never two of them:
/// it waits, with the timeout set back and the last movement untouched; it
/// gives up inside a portal; or it commits the jump as the last movement and
/// lets the timeout run.
pub proof fn lemma_started_commits_or_stalls(
    player: PlayerEntity,
    minimap_state: Minimap,
    rng: Rng,
)
    requires
        player.state is UpJumping,
        !player.state->UpJumping_0.moving.timeout.started,
    ensures
        ({
            let outcome = spec_update_up_jumping_state(player, minimap_state, rng);
            let stalled = outcome.state is UpJumping
                && !outcome.state->UpJumping_0.moving.timeout.started;
            let committed = outcome.state is UpJumping
                && outcome.state->UpJumping_0.moving.timeout.started;
            &&& stalled || committed || outcome.state is Idle
            &&& stalled ==> outcome.context.last_movement == player.context.last_movement
            &&& committed ==> outcome.context.last_movement == Some(LastMovement::UpJumping)
        }),
{
}

/// Whatever key the first tick of a jump holds down, the tick that ends a jump
/// releases.
pub proof fn lemma_ended_releases_held_keys(
    begun: PlayerEntity,
    begun_minimap: Minimap,
    ended: PlayerEntity,
    ended_minimap: Minimap,
    rng: Rng,
)
    requires
        begun.state is UpJumping,
        !begun.state->UpJumping_0.moving.timeout.started,
        ended.state is UpJumping,
        ended.state->UpJumping_0.keys_configured(ended.context.config),
        ended.state->UpJumping_0.moving.timeout.started,
        ended.state->UpJumping_0.moving.timeout.current >= UP_JUMPING_TIMEOUT,
    ensures
        held_down(spec_update_up_jumping_state(begun, begun_minimap, rng).events).subset_of(
            released(spec_update_up_jumping_state(ended, ended_minimap, rng).events),
        ),
{
    let first = spec_update_up_jumping_state(begun, begun_minimap, rng).events;
    let last = spec_update_up_jumping_state(ended, ended_minimap, rng).events;
    assert(last == seq![InputEvent::KeyUp(KeyKind::Up)]);
    assert(last[0] == InputEvent::KeyUp(KeyKind::Up));
    assert(released(last).contains(KeyKind::Up));
    assert forall|key: KeyKind| held_down(first).contains(key) implies key == KeyKind::Up by {
        let (i, options) = choose|i: int, options: InputKeyDownOptions|
            0 <= i < first.len() && first[i] == InputEvent::KeyDown(key, options);
        assert(first[i] == InputEvent::KeyDown(key, options));
    }
}

/// A tick of a jump up writes no state that has passed its deadline, and the
/// jump's count of all ticks stays at or above the count toward the deadline
/// where it was so before.
pub proof fn lemma_timeout_bounded(player: PlayerEntity, minimap_state: Minimap, rng: Rng)
    requires
        player.state is UpJumping,
        spec_stash_bounded(player.context),
    ensures
        ({
            let before = player.state->UpJumping_0.moving.timeout;
            let outcome = spec_update_up_jumping_state(player, minimap_state, rng);
            &&& spec_outcome_bounded(outcome)
            &&& outcome.state matches Player::UpJumping(next) ==> (before.total >= before.current
                ==> next.moving.timeout.total >= next.moving.timeout.current)
        }),
{
}

} // verus!
