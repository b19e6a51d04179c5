//! The state that climbs with the rope lift.
use vstd::prelude::*;

use crate::bridge::{held_down, InputEvent, InputKeyDownOptions, KeyKind};
use crate::ecs::Resources;
use crate::minimap::Minimap;
use crate::player::actions::{
    next_action, spec_update_from_auto_mob_action, spec_update_from_ping_pong_action,
    update_from_auto_mob_action, update_from_ping_pong_action, PlayerAction,
};
use crate::player::moving::{Moving, MOVE_TIMEOUT};
use crate::player::state::{LastMovement, PlayerContext};
use crate::player::timeout::{
    next_moving_lifecycle_with_axis, spec_next_moving_lifecycle_with_axis, ChangeAxis,
    MovingLifecycle, Timeout,
};
use crate::player::{
    spec_outcome_bounded, spec_stash_bounded, transition, transition_to_moving,
    try_some_transition, Outcome, Player, PlayerEntity,
};
use crate::rng::Rng;

verus! {

/// Minimum y distance from the destination required to perform a grappling hook.
pub const GRAPPLING_THRESHOLD: i32 = 24;

/// Maximum y distance from the destination allowed to perform a grappling hook.
pub const GRAPPLING_MAX_THRESHOLD: i32 = 41;

/// Ticks to wait for the rope to pull, while the height has not changed.
pub const INITIAL_TIMEOUT: u32 = MOVE_TIMEOUT * 8;

/// Ticks before giving up once the height has begun to change.
pub const STOPPING_TIMEOUT: u32 = MOVE_TIMEOUT + 3;

/// The y distance at which a player at rest lets go of the rope.
pub const STOPPING_THRESHOLD: i32 = 3;

/// A climb toward the destination of `moving`.
#[derive(Clone, Copy, Debug)]
pub struct Grappling {
    pub moving: Moving,
    /// The player's height has changed since the climb began.
    pub did_y_changed: bool,
}

impl Grappling {
    /// The deadline of the climb: long while the rope has not pulled, short
    /// once it has.
    pub open spec fn spec_max_timeout(self) -> u32 {
        if self.did_y_changed {
            STOPPING_TIMEOUT
        } else {
            INITIAL_TIMEOUT
        }
    }

    pub fn new(moving: Moving) -> (grappling: Grappling)
        ensures
            grappling == (Grappling { moving, did_y_changed: false }),
    {
        Grappling { moving, did_y_changed: false }
    }

    /// The same climb with `moving` in place of its movement.
    pub fn moving(self, moving: Moving) -> (grappling: Grappling)
        ensures
            grappling == (Grappling { moving, ..self }),
    {
        Grappling { moving, ..self }
    }
}

/// The y distance at which the rope is let go at the vertical velocity
/// `velocity`, given in thousandths: three, and seven tenths of the velocity
/// more, rounded to the nearest whole number, halves away from zero.
pub open spec fn spec_stopping_threshold(velocity: int) -> int {
    let scaled = 30000 + 7 * velocity;
    if scaled >= 0 {
        (scaled + 5000) / 10000
    } else {
        -((5000 - scaled) / 10000)
    }
}

/// Converts vertical velocity to a stopping threshold.
pub fn stopping_threshold(velocity: i32) -> (threshold: i32)
    ensures
        threshold == spec_stopping_threshold(velocity as int),
{
    let scaled: i64 = 30000 + 7 * (velocity as i64);
    if scaled >= 0 {
        ((scaled + 5000) / 10000) as i32
    } else {
        (-((5000 - scaled) / 10000)) as i32
    }
}

/// The actions under which a climb can run.
pub open spec fn spec_supports_action(action: Option<PlayerAction>) -> bool {
    !(action matches Some(PlayerAction::Unstuck) || action matches Some(PlayerAction::Panic(_)))
}

/// The rope is let go: the destination is not above any more, or it is within
/// the stopping threshold.
pub open spec fn spec_should_stop(context: PlayerContext, moving: Moving) -> bool {
    !moving.completed && (moving.spec_y_direction_from(true, moving.pos) <= 0
        || moving.spec_y_distance_from(true, moving.pos) <= spec_stopping_threshold(
        context.velocity.1 as int,
    ))
}

/// How a climb, written as the state of `player`, gives way to the head of the
/// action queue.
pub open spec fn spec_update_from_action(
    player: PlayerEntity,
    minimap_state: Minimap,
    rng: Rng,
    moving: Moving,
) -> Outcome {
    let cur_pos = moving.pos;
    match player.context.spec_next_action() {
        Some(PlayerAction::AutoMob(mob)) => if !moving.completed {
            player.unchanged()
        } else if moving.spec_is_destination_intermediate() {
            Outcome {
                state: Player::spec_to_moving(moving),
                context: player.context,
                events: Seq::empty(),
            }
        } else {
            spec_update_from_auto_mob_action(
                player,
                minimap_state,
                mob,
                moving.spec_x_distance_from(false, cur_pos),
                moving.spec_x_direction_from(false, cur_pos),
                moving.spec_y_distance_from(false, cur_pos),
            )
        },
        Some(PlayerAction::PingPong(ping_pong)) => if cur_pos.y < ping_pong.bound.y || !rng.perlin {
            player.unchanged()
        } else {
            spec_update_from_ping_pong_action(player, minimap_state, ping_pong, cur_pos)
        },
        _ => player.unchanged(),
    }
}

/// What one tick of a climb does.
///
/// Without the rope's key the climb is given up: the head of the action queue
/// is completed and the player idles, with no key sent. Else the first tick
/// gives up an interruptible buffered stall and waits, or else
/// commits the movement and throws the rope. Later ticks note whether the
/// height has changed, let go of the rope when it is time, and then give way
/// to the head of the action queue. Past the deadline the moving state takes
/// over.
pub open spec fn spec_update_grappling_state(
    player: PlayerEntity,
    minimap_state: Minimap,
    rng: Rng,
) -> Outcome {
    if player.context.config.grappling_key is None {
        Outcome {
            state: Player::Idle,
            context: player.context.spec_clear_action_completed(),
            events: Seq::empty(),
        }
    } else {
        spec_update_with_key(player, minimap_state, rng, player.context.config.grappling_key->0)
    }
}

/// What one tick does to a climb that is made with `key`.
pub open spec fn spec_update_with_key(
    player: PlayerEntity,
    minimap_state: Minimap,
    rng: Rng,
    key: KeyKind,
) -> Outcome {
    let grappling = player.state->Grappling_0;
    let context = player.context;
    let prev_pos = grappling.moving.pos;
    match spec_next_moving_lifecycle_with_axis(
        grappling.moving,
        context.last_known_pos->0,
        grappling.spec_max_timeout(),
        ChangeAxis::Both,
    ) {
        MovingLifecycle::Started(moving) => if context.stalling_buffered.spec_stalling()
            && context.stalling_buffered.interruptible {
            Outcome {
                state: Player::Grappling(
                    Grappling {
                        moving: Moving {
                            timeout: Timeout { started: false, ..moving.timeout },
                            ..moving
                        },
                        ..grappling
                    },
                ),
                context: context.spec_clear_stalling_buffer_states(),
                events: context.stalling_buffered.release_events(),
            }
        } else {
            Outcome {
                state: Player::Grappling(Grappling { moving, ..grappling }),
                context: PlayerContext { last_movement: Some(LastMovement::Grappling), ..context },
                events: seq![InputEvent::Key(key)],
            }
        },
        MovingLifecycle::Ended(moving) => Outcome {
            state: Player::spec_to_moving(moving),
            context,
            events: Seq::empty(),
        },
        MovingLifecycle::Updated(moving) => {
            let stop = spec_should_stop(context, moving);
            let next_moving = if stop {
                Moving { completed: true, ..moving }
            } else {
                moving
            };
            let next = Grappling {
                moving: next_moving,
                did_y_changed: grappling.did_y_changed || prev_pos.y != moving.pos.y,
            };
            let written = Outcome {
                state: Player::Grappling(next),
                context,
                events: if stop {
                    seq![InputEvent::Key(key)]
                } else {
                    Seq::empty()
                },
            };
            written.followed_by(
                spec_update_from_action(written.entity(), minimap_state, rng, next_moving),
            )
        },
    }
}

/// Gives way to the head of the action queue, with the climb already written
/// as the player's state.
fn update_from_action(
    resources: &mut Resources,
    player: &mut PlayerEntity,
    minimap_state: Minimap,
    moving: Moving,
)
    requires
        moving.in_range(),
        spec_supports_action(old(player).context.spec_next_action()),
    ensures
        spec_update_from_action(*old(player), minimap_state, old(resources).rng, moving).reached(
            *old(resources),
            *final(resources),
            *final(player),
        ),
{
    let cur_pos = moving.pos;
    let ghost nothing = Seq::<InputEvent>::empty();
    match next_action(&player.context) {
        Some(PlayerAction::AutoMob(mob)) => {
            if !moving.completed {
                assert(resources.input@ =~= old(resources).input@ + nothing);
                return ;
            }
            if moving.is_destination_intermediate() {
                transition_to_moving(player, moving);
                assert(resources.input@ =~= old(resources).input@ + nothing);
                return ;
            }
            let (x_distance, x_direction) = moving.x_distance_direction_from(false, cur_pos);
            let (y_distance, _) = moving.y_distance_direction_from(false, cur_pos);
            update_from_auto_mob_action(
                resources,
                player,
                minimap_state,
                mob,
                x_distance,
                x_direction,
                y_distance,
            );
        },
        Some(PlayerAction::PingPong(ping_pong)) => {
            if cur_pos.y < ping_pong.bound.y || !resources.rng.random_perlin_bool() {
                assert(resources.input@ =~= old(resources).input@ + nothing);
                return ;
            }
            update_from_ping_pong_action(resources, player, minimap_state, ping_pong, cur_pos);
        },
        _ => {
            assert(resources.input@ =~= old(resources).input@ + nothing);
        },
    }
}

/// Updates the [`Player::Grappling`] contextual state.
///
/// This state can only be transitioned via [`Player::Moving`] or [`Player::DoubleJumping`]
/// when the player has reached or close to the destination x-wise.
///
/// This state will use the Rope Lift skill.
pub fn update_grappling_state(
    resources: &mut Resources,
    player: &mut PlayerEntity,
    minimap_state: Minimap,
)
    requires
        old(player).state is Grappling,
        old(player).context.config.grappling_key is Some ==> {
            &&& old(player).state->Grappling_0.moving.in_range()
            &&& old(player).context.last_known_pos matches Some(pos) && pos.in_range()
            &&& spec_supports_action(old(player).context.spec_next_action())
        },
    ensures
        spec_update_grappling_state(*old(player), minimap_state, old(resources).rng).reached(
            *old(resources),
            *final(resources),
            *final(player),
        ),
{
    let mut grappling = match player.state {
        Player::Grappling(grappling) => grappling,
        _ => { return ; },
    };
    let key = match try_some_transition(
        player,
        Player::Idle,
        player.context.config.grappling_key,
    ) {
        Some(key) => key,
        None => {
            assert(resources.input@ =~= old(resources).input@ + Seq::<InputEvent>::empty());
            return ;
        },
    };
    let cur_pos = match player.context.last_known_pos {
        Some(pos) => pos,
        None => { return ; },
    };
    let prev_pos = grappling.moving.pos;
    let timeout: u32 = if grappling.did_y_changed {
        STOPPING_TIMEOUT
    } else {
        INITIAL_TIMEOUT
    };
    let ghost nothing = Seq::<InputEvent>::empty();

    match next_moving_lifecycle_with_axis(grappling.moving, cur_pos, timeout, ChangeAxis::Both) {
        MovingLifecycle::Started(moving) => {
            if player.context.stalling_buffered.stalling()
                && player.context.stalling_buffered.interruptible {
                player.context.clear_stalling_buffer_states(resources);
                transition(player, Player::Grappling(grappling.moving(moving.timeout_started(false))));
                return ;
            }
            player.context.last_movement = Some(LastMovement::Grappling);
            resources.input.send_key(key);
            transition(player, Player::Grappling(grappling.moving(moving)));
            assert(resources.input@ =~= old(resources).input@ + seq![InputEvent::Key(key)]);
        },
        MovingLifecycle::Ended(moving) => {
            transition_to_moving(player, moving);
            assert(resources.input@ =~= old(resources).input@ + nothing);
        },
        MovingLifecycle::Updated(moving) => {
            let mut moving = moving;
            let cur_pos = moving.pos;
            let (y_distance, y_direction) = moving.y_distance_direction_from(true, cur_pos);
            let y_changed = prev_pos.y != cur_pos.y;

            if !grappling.did_y_changed {
                grappling.did_y_changed = y_changed;
            }
            let ghost first = if spec_should_stop(player.context, moving) {
                seq![InputEvent::Key(key)]
            } else {
                nothing
            };
            if !moving.completed && (y_direction <= 0 || y_distance <= stopping_threshold(
                player.context.velocity.1,
            )) {
                resources.input.send_key(key);
                moving.completed = true;
            }
            assert(resources.input@ =~= old(resources).input@ + first);
            // Sets initial next state first
            transition(player, Player::Grappling(grappling.moving(moving)));
            let ghost written = *player;
            update_from_action(resources, player, minimap_state, moving);
            proof {
                let second = spec_update_from_action(
                    written,
                    minimap_state,
                    old(resources).rng,
                    moving,
                ).events;
                assert(resources.input@ =~= old(resources).input@ + (first + second));
            }
        },
    }
}

/// The first tick of a climb whose key is set either waits, with the timeout
/// set back and the last movement untouched, or commits the climb as the last
/// movement and lets the timeout run: never both.
pub proof fn lemma_started_commits_or_stalls(
    player: PlayerEntity,
    minimap_state: Minimap,
    rng: Rng,
)
    requires
        player.state is Grappling,
        player.context.config.grappling_key is Some,
        !player.state->Grappling_0.moving.timeout.started,
    ensures
        ({
            let outcome = spec_update_grappling_state(player, minimap_state, rng);
            let started = outcome.state->Grappling_0.moving.timeout.started;
            &&& outcome.state is Grappling
            &&& !started ==> outcome.context.last_movement == player.context.last_movement
            &&& started ==> outcome.context.last_movement == Some(LastMovement::Grappling)
        }),
{
}

/// Without the rope's key a climb never crashes and never presses a key: it
/// idles and completes the head of the action queue.
pub proof fn lemma_missing_key_aborts(player: PlayerEntity, minimap_state: Minimap, rng: Rng)
    requires
        player.state is Grappling,
        player.context.config.grappling_key is None,
    ensures
        ({
            let outcome = spec_update_grappling_state(player, minimap_state, rng);
            &&& outcome.state is Idle
            &&& outcome.context == player.context.spec_clear_action_completed()
            &&& outcome.events == Seq::<InputEvent>::empty()
        }),
{
}

/// The first tick of a climb holds no directional key down, so the tick that
/// ends a climb has none to release.
pub proof fn lemma_started_holds_no_key(player: PlayerEntity, minimap_state: Minimap, rng: Rng)
    requires
        player.state is Grappling,
        !player.state->Grappling_0.moving.timeout.started,
    ensures
        held_down(spec_update_grappling_state(player, minimap_state, rng).events) == Set::<
            KeyKind,
        >::empty(),
{
    let events = spec_update_grappling_state(player, minimap_state, rng).events;
    assert forall|key: KeyKind| !held_down(events).contains(key) by {
        if held_down(events).contains(key) {
            let (i, options) = choose|i: int, options: InputKeyDownOptions|
                0 <= i < events.len() && events[i] == InputEvent::KeyDown(key, options);
            assert(events[i] == InputEvent::KeyDown(key, options));
        }
    }
    assert(held_down(events) =~= Set::<KeyKind>::empty());
}

/// A tick of a climb writes no state that has passed its deadline, the climb
/// that goes on included, which never passes the longer of its two deadlines
/// and, once its height has changed, ends as soon as it has passed the
/// shorter; and the climb's count of all ticks stays at or above the count
/// toward the deadline where it was so before.
pub proof fn lemma_timeout_bounded(player: PlayerEntity, minimap_state: Minimap, rng: Rng)
    requires
        player.state is Grappling,
        spec_stash_bounded(player.context),
    ensures
        ({
            let before = player.state->Grappling_0.moving.timeout;
            let outcome = spec_update_grappling_state(player, minimap_state, rng);
            &&& spec_outcome_bounded(outcome)
            &&& outcome.state matches Player::Grappling(next) ==> (before.total >= before.current
                ==> next.moving.timeout.total >= next.moving.timeout.current)
        }),
{
}

} // verus!
