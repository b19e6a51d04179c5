//! The state that drops down from a platform.
use vstd::prelude::*;

use crate::bridge::{held_down, key_down, released, InputEvent, InputKeyDownOptions, KeyKind};
use crate::ecs::Resources;
use crate::geometry::Point;
use crate::minimap::Minimap;
use crate::models::ActionKeyWith;
use crate::player::actions::{
    next_action, spec_update_from_auto_mob_action, update_from_auto_mob_action, PlayerAction,
};
use crate::player::moving::{Moving, MOVE_TIMEOUT};
use crate::player::state::{LastMovement, PlayerContext};
use crate::player::timeout::{
    next_moving_lifecycle_with_axis, spec_next_moving_lifecycle_with_axis, ChangeAxis,
    MovingLifecycle, Timeout,
};
use crate::player::use_key::UseKey;
use crate::player::{
    spec_outcome_bounded, spec_stash_bounded, transition, transition_to_moving, Outcome, Player,
    PlayerEntity,
};

verus! {

/// Minimum y distance from the destination required to perform a fall.
pub const FALLING_THRESHOLD: i32 = 4;

/// Maximum y distance from the destination allowed to transition to [`Player::UseKey`] during
/// a [`PlayerAction::Key`] with [`ActionKeyWith::Any`].
pub const FALLING_TO_USE_KEY_THRESHOLD: i32 = 5;

/// Tick to stop helding down [`KeyKind::Down`] at.
pub const STOP_DOWN_KEY_TICK: u32 = 3;

/// Maximum number of ticks before timing out.
pub const TIMEOUT: u32 = MOVE_TIMEOUT + 3;

/// Maximum y distance from the destination allowed to skip normal falling and use teleportation
/// for mage.
pub const TELEPORT_FALL_THRESHOLD: i32 = 16;

/// A drop toward the destination of `moving`.
#[derive(Clone, Copy, Debug)]
pub struct Falling {
    pub moving: Moving,
    /// Where the drop began. The drop is complete once the player is below it.
    pub anchor: Point,
    /// The completed drop gives up at once, for a state that waits for it.
    pub timeout_on_complete: bool,
}

impl Falling {
    pub fn new(moving: Moving, anchor: Point, timeout_on_complete: bool) -> (falling: Falling)
        ensures
            falling == (Falling { moving, anchor, timeout_on_complete }),
    {
        Falling { moving, anchor, timeout_on_complete }
    }

    /// The same drop with `moving` in place of its movement.
    pub fn moving(self, moving: Moving) -> (falling: Falling)
        ensures
            falling == (Falling { moving, ..self }),
    {
        Falling { moving, ..self }
    }

    /// The same drop with `anchor` in place of its anchor.
    pub fn anchor(self, anchor: Point) -> (falling: Falling)
        ensures
            falling == (Falling { anchor, ..self }),
    {
        Falling { anchor, ..self }
    }
}

/// The actions under which a drop can run.
pub open spec fn spec_supports_action(action: Option<PlayerAction>) -> bool {
    !(action matches Some(PlayerAction::Unstuck) || action matches Some(PlayerAction::Panic(_)))
}

/// The movement with its timeout set back to not started.
pub open spec fn spec_stalled(moving: Moving) -> Moving {
    Moving { timeout: Timeout { started: false, ..moving.timeout }, ..moving }
}

/// The drop is made with the teleport key: teleporting on a fall is not
/// switched off, the key is set and the way down is short.
pub open spec fn spec_can_teleport(context: PlayerContext, y_distance: int) -> bool {
    &&& !context.config.disable_teleport_on_fall
    &&& context.config.teleport_key is Some
    &&& y_distance < TELEPORT_FALL_THRESHOLD
}

/// The key that makes the drop.
pub open spec fn spec_fall_key(context: PlayerContext, y_distance: int) -> KeyKind {
    if spec_can_teleport(context, y_distance) {
        context.config.teleport_key->0
    } else {
        context.config.jump_key
    }
}

/// How a drop, written as the state of `player`, gives way to the head of the
/// action queue.
pub open spec fn spec_update_from_action(
    player: PlayerEntity,
    minimap_state: Minimap,
    moving: Moving,
) -> Outcome {
    let cur_pos = moving.pos;
    let y_distance = moving.spec_y_distance_from(true, cur_pos);
    let y_direction = moving.spec_y_direction_from(true, cur_pos);
    let has_teleport_key = player.context.config.teleport_key is Some;
    match player.context.spec_next_action() {
        Some(PlayerAction::AutoMob(mob)) => if moving.completed
            && moving.spec_is_destination_intermediate() && y_direction >= 0 {
            Outcome {
                state: Player::spec_to_moving(moving),
                context: player.context,
                events: seq![InputEvent::KeyUp(KeyKind::Down)],
            }
        } else if has_teleport_key && !moving.completed {
            player.unchanged()
        } else {
            spec_update_from_auto_mob_action(
                player,
                minimap_state,
                mob,
                moving.spec_x_distance_from(false, cur_pos),
                moving.spec_x_direction_from(false, cur_pos),
                moving.spec_y_distance_from(false, cur_pos),
            )
        },
        Some(PlayerAction::Key(key)) => if key.with == ActionKeyWith::Any && !has_teleport_key
            && moving.completed && y_distance < FALLING_TO_USE_KEY_THRESHOLD {
            Outcome {
                state: Player::UseKey(UseKey::spec_from_key(key)),
                context: player.context,
                events: Seq::empty(),
            }
        } else {
            player.unchanged()
        },
        _ => player.unchanged(),
    }
}

/// What a tick after the first does to the movement of a drop: a drop that is
/// not completed is completed once the player is below the anchor; a completed
/// one is taken to its deadline if it is to give up on completion.
pub open spec fn spec_fall_movement(falling: Falling, moving: Moving) -> Moving {
    if !moving.completed {
        if moving.pos.y < falling.anchor.y {
            Moving { completed: true, ..moving }
        } else {
            moving
        }
    } else if falling.timeout_on_complete {
        Moving { timeout: Timeout { current: TIMEOUT, ..moving.timeout }, ..moving }
    } else {
        moving
    }
}

/// What one tick of a drop does.
///
/// The first tick waits while a buffered stall runs, trying to give it up, and
/// while the player is not stationary, taking the position as the new anchor.
/// It hands back to the moving state if the destination is not below. Else it
/// commits the movement, holds the down key and presses the teleport key or
/// the jump key. Later ticks let go of the down key at the stop tick, note the
/// completion, and give way to the head of the action queue. Past the deadline
/// the down key is released and the moving state takes over.
pub open spec fn spec_update_falling_state(player: PlayerEntity, minimap_state: Minimap) -> Outcome {
    let falling = player.state->Falling_0;
    let context = player.context;
    match spec_next_moving_lifecycle_with_axis(
        falling.moving,
        context.last_known_pos->0,
        TIMEOUT,
        ChangeAxis::Vertical,
    ) {
        MovingLifecycle::Started(moving) => {
            let y_distance = moving.spec_y_distance_from(true, moving.pos);
            if context.stalling_buffered.spec_stalling() {
                Outcome {
                    state: Player::Falling(Falling { moving: spec_stalled(moving), ..falling }),
                    context: context.spec_clear_stalling_buffer_states_if_possible(),
                    events: context.spec_clear_stalling_events(),
                }
            } else if !context.is_stationary {
                Outcome {
                    state: Player::Falling(
                        Falling { moving: spec_stalled(moving), anchor: moving.pos, ..falling },
                    ),
                    context,
                    events: Seq::empty(),
                }
            } else if moving.spec_y_direction_from(true, moving.pos) >= 0 {
                Outcome { state: Player::spec_to_moving(moving), context, events: Seq::empty() }
            } else {
                Outcome {
                    state: Player::Falling(Falling { moving, ..falling }),
                    context: PlayerContext { last_movement: Some(LastMovement::Falling), ..context },
                    events: seq![
                        key_down(KeyKind::Down),
                        InputEvent::Key(spec_fall_key(context, y_distance)),
                    ],
                }
            }
        },
        MovingLifecycle::Ended(moving) => Outcome {
            state: Player::spec_to_moving(moving),
            context,
            events: seq![InputEvent::KeyUp(KeyKind::Down)],
        },
        MovingLifecycle::Updated(moving) => {
            let next_moving = spec_fall_movement(falling, moving);
            let written = Outcome {
                state: Player::Falling(Falling { moving: next_moving, ..falling }),
                context,
                events: if moving.timeout.total == STOP_DOWN_KEY_TICK {
                    seq![InputEvent::KeyUp(KeyKind::Down)]
                } else {
                    Seq::empty()
                },
            };
            written.followed_by(spec_update_from_action(written.entity(), minimap_state, next_moving))
        },
    }
}

/// Gives way to the head of the action queue, with the drop already written as
/// the player's state.
fn update_from_action(
    resources: &mut Resources,
    player: &mut PlayerEntity,
    minimap_state: Minimap,
    moving: Moving,
)
    requires
        moving.in_range(),
        spec_supports_action(old(player).context.spec_next_action()),
    ensures
        spec_update_from_action(*old(player), minimap_state, moving).reached(
            *old(resources),
            *final(resources),
            *final(player),
        ),
{
    let cur_pos = moving.pos;
    let (y_distance, y_direction) = moving.y_distance_direction_from(true, cur_pos);
    let has_teleport_key = player.context.config.teleport_key.is_some();
    let ghost nothing = Seq::<InputEvent>::empty();
    match next_action(&player.context) {
        Some(PlayerAction::AutoMob(mob)) => {
            // Ignore `timeout_on_complete` for auto-mobbing intermediate destination
            if moving.completed && moving.is_destination_intermediate() && y_direction >= 0 {
                resources.input.send_key_up(KeyKind::Down);
                transition_to_moving(player, moving);
                assert(resources.input@ =~= old(resources).input@ + seq![
                    InputEvent::KeyUp(KeyKind::Down),
                ]);
                return ;
            }
            if has_teleport_key && !moving.completed {
                assert(resources.input@ =~= old(resources).input@ + nothing);
                return ;
            }
            let (x_distance, x_direction) = moving.x_distance_direction_from(false, cur_pos);
            let (y_distance, _) = moving.y_distance_direction_from(false, cur_pos);
            update_from_auto_mob_action(
                resources,
                player,
                minimap_state,
                mob,
                x_distance,
                x_direction,
                y_distance,
            )
        },
        Some(PlayerAction::Key(key)) => {
            let with_any = match key.with {
                ActionKeyWith::Any => true,
                _ => false,
            };
            if with_any && !has_teleport_key && moving.completed && y_distance
                < FALLING_TO_USE_KEY_THRESHOLD {
                transition(player, Player::UseKey(UseKey::from_key(key)));
            }
            assert(resources.input@ =~= old(resources).input@ + nothing);
        },
        _ => {
            assert(resources.input@ =~= old(resources).input@ + nothing);
        },
    }
}

/// Updates the [`Player::Falling`] contextual state.
///
/// This state performs a drop down action. It is completed as soon as the player current `y`
/// position is below `anchor`. If `timeout_on_complete` is true, it will timeout when the
/// action is complete and return to [`Player::Moving`]. Timing out early is currently used by
/// [`Player::DoubleJumping`] to perform a composite action `drop down and then double jump`.
///
/// Before performing a drop down, it will wait for player to become stationary in case the player
/// is already moving. Or if the player is already at destination or lower, it will returns
/// to [`Player::Moving`].
pub fn update_falling_state(
    resources: &mut Resources,
    player: &mut PlayerEntity,
    minimap_state: Minimap,
)
    requires
        old(player).state is Falling,
        old(player).state->Falling_0.moving.in_range(),
        old(player).context.last_known_pos matches Some(pos) && pos.in_range(),
        spec_supports_action(old(player).context.spec_next_action()),
    ensures
        spec_update_falling_state(*old(player), minimap_state).reached(
            *old(resources),
            *final(resources),
            *final(player),
        ),
{
    let falling = match player.state {
        Player::Falling(falling) => falling,
        _ => { return ; },
    };
    let cur_pos = match player.context.last_known_pos {
        Some(pos) => pos,
        None => { return ; },
    };
    let ghost nothing = Seq::<InputEvent>::empty();

    match next_moving_lifecycle_with_axis(falling.moving, cur_pos, TIMEOUT, ChangeAxis::Vertical) {
        MovingLifecycle::Started(moving) => {
            if player.context.stalling_buffered.stalling() {
                player.context.clear_stalling_buffer_states_if_possible(resources);
                transition(player, Player::Falling(falling.moving(moving.timeout_started(false))));
                return ;
            }
            // Stall until stationary before doing a fall by resetting timeout started
            if !player.context.is_stationary {
                transition(
                    player,
                    Player::Falling(
                        falling.moving(moving.timeout_started(false)).anchor(moving.pos),
                    ),
                );
                assert(resources.input@ =~= old(resources).input@ + nothing);
                return ;
            }
            // Check if destination is already reached before starting
            let (y_distance, y_direction) = moving.y_distance_direction_from(true, moving.pos);
            if y_direction >= 0 {
                transition_to_moving(player, moving);
                assert(resources.input@ =~= old(resources).input@ + nothing);
                return ;
            }
            // Do the fall
            let key = match player.context.config.teleport_key {
                Some(teleport_key) => {
                    if !player.context.config.disable_teleport_on_fall && y_distance
                        < TELEPORT_FALL_THRESHOLD {
                        teleport_key
                    } else {
                        player.context.config.jump_key
                    }
                },
                None => player.context.config.jump_key,
            };
            player.context.last_movement = Some(LastMovement::Falling);
            resources.input.send_key_down(KeyKind::Down);
            resources.input.send_key(key);
            transition(player, Player::Falling(falling.moving(moving)));
            assert(resources.input@ =~= old(resources).input@ + seq![
                key_down(KeyKind::Down),
                InputEvent::Key(key),
            ]);
        },
        MovingLifecycle::Ended(moving) => {
            resources.input.send_key_up(KeyKind::Down);
            transition_to_moving(player, moving);
            assert(resources.input@ =~= old(resources).input@ + seq![
                InputEvent::KeyUp(KeyKind::Down),
            ]);
        },
        MovingLifecycle::Updated(moving) => {
            let mut moving = moving;
            let ghost first = if moving.timeout.total == STOP_DOWN_KEY_TICK {
                seq![InputEvent::KeyUp(KeyKind::Down)]
            } else {
                nothing
            };
            if moving.timeout.total == STOP_DOWN_KEY_TICK {
                resources.input.send_key_up(KeyKind::Down);
            }
            assert(resources.input@ =~= old(resources).input@ + first);
            if !moving.completed {
                if moving.pos.y < falling.anchor.y {
                    moving.completed = true;
                }
            } else if falling.timeout_on_complete {
                moving.timeout.current = TIMEOUT;
            }
            // Sets initial next state first
            transition(player, Player::Falling(falling.moving(moving)));
            let ghost written = *player;

            update_from_action(resources, player, minimap_state, moving);
            proof {
                let second = spec_update_from_action(written, minimap_state, moving).events;
                assert(resources.input@ =~= old(resources).input@ + (first + second));
            }
        },
    }
}

/// Once the player is below the anchor the drop is completed, and a completed
/// drop stays completed for as long as the state stays a drop.
pub proof fn lemma_completion_is_monotonic(player: PlayerEntity, minimap_state: Minimap)
    requires
        player.state is Falling,
    ensures
        ({
            let falling = player.state->Falling_0;
            let timeout = falling.moving.timeout;
            let pos = player.context.last_known_pos->0;
            spec_update_falling_state(player, minimap_state).state matches Player::Falling(next)
                ==> {
                &&& falling.moving.completed ==> next.moving.completed
                &&& timeout.started && falling.anchor.y > pos.y ==> next.moving.completed
            }
        }),
{
}

/// The first tick of a drop does one of three things and never two of them:
/// it waits, with the timeout set back and the last movement untouched; it
/// hands back to the moving state; or it commits the drop as the last
/// movement and lets the timeout run.
pub proof fn lemma_started_commits_or_stalls(player: PlayerEntity, minimap_state: Minimap)
    requires
        player.state is Falling,
        !player.state->Falling_0.moving.timeout.started,
    ensures
        ({
            let outcome = spec_update_falling_state(player, minimap_state);
            let stalled = outcome.state is Falling
                && !outcome.state->Falling_0.moving.timeout.started;
            let committed = outcome.state is Falling
                && outcome.state->Falling_0.moving.timeout.started;
            &&& stalled || committed || outcome.state is Moving
            &&& stalled ==> outcome.context.last_movement == player.context.last_movement
            &&& committed ==> outcome.context.last_movement == Some(LastMovement::Falling)
        }),
{
}

/// Whatever directional key any tick of a drop holds down, the tick that ends
/// a drop releases.
pub proof fn lemma_ended_releases_held_keys(
    any: PlayerEntity,
    any_minimap: Minimap,
    ended: PlayerEntity,
    ended_minimap: Minimap,
)
    requires
        any.state is Falling,
        ended.state is Falling,
        ended.state->Falling_0.moving.timeout.started,
        ended.state->Falling_0.moving.timeout.current >= TIMEOUT,
    ensures
        held_down(spec_update_falling_state(any, any_minimap).events).subset_of(
            released(spec_update_falling_state(ended, ended_minimap).events),
        ),
{
    let events = spec_update_falling_state(any, any_minimap).events;
    let last = spec_update_falling_state(ended, ended_minimap).events;
    assert(last == seq![InputEvent::KeyUp(KeyKind::Down)]);
    assert(last[0] == InputEvent::KeyUp(KeyKind::Down));
    assert(released(last).contains(KeyKind::Down));
    assert forall|key: KeyKind| held_down(events).contains(key) implies key == KeyKind::Down by {
        let (i, options) = choose|i: int, options: InputKeyDownOptions|
            0 <= i < events.len() && events[i] == InputEvent::KeyDown(key, options);
        assert(events[i] == InputEvent::KeyDown(key, options));
    }
}

/// A tick of a drop writes no state that has passed its deadline.
pub proof fn lemma_timeout_bounded(player: PlayerEntity, minimap_state: Minimap)
    requires
        player.state is Falling,
        spec_stash_bounded(player.context),
    ensures
        spec_outcome_bounded(spec_update_falling_state(player, minimap_state)),
{
}

} // verus!
