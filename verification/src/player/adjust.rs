//! The state that walks the last steps to a destination.
use vstd::prelude::*;

use crate::bridge::{held_down, key_down, released, InputEvent, InputKeyDownOptions, KeyKind};
use crate::ecs::Resources;
use crate::minimap::Minimap;
use crate::models::{ActionKeyDirection, ActionKeyWith};
use crate::player::actions::{
    next_action, spec_update_from_auto_mob_action, update_from_auto_mob_action, PlayerAction,
};
use crate::player::double_jump::DoubleJumping;
use crate::player::moving::{Moving, MOVE_TIMEOUT};
use crate::player::state::{LastMovement, PlayerContext};
use crate::player::timeout::{
    next_moving_lifecycle_with_axis, next_timeout_lifecycle, spec_next_moving_lifecycle_with_axis,
    spec_next_timeout_lifecycle, ChangeAxis, Lifecycle, MovingLifecycle, Timeout,
};
use crate::player::use_key::UseKey;
use crate::player::{
    spec_outcome_bounded, spec_stash_bounded, transition, transition_if, transition_to_moving,
    Outcome, Player, PlayerEntity,
};

verus! {

/// Minimum x distance from the destination required to perform small movement.
pub const ADJUSTING_SHORT_THRESHOLD: i32 = 1;

/// Minimum x distance from the destination required to walk.
pub const ADJUSTING_MEDIUM_THRESHOLD: i32 = 3;

/// Ticks between two taps of a small movement.
pub const ADJUSTING_SHORT_TIMEOUT: u32 = MOVE_TIMEOUT + 3;

/// Largest y distance from the destination at which a key action's key is used
/// at the end of a walk.
pub const USE_KEY_Y_THRESHOLD: i32 = 2;

/// A walk toward the destination of `moving`.
#[derive(Clone, Copy, Debug)]
pub struct Adjusting {
    pub moving: Moving,
    /// The pace of the taps of a small movement.
    pub adjust_timeout: Timeout,
}

/// What one tick does to the pace of a small movement. The tick that starts
/// the pace releases the first key of `keys` and taps the second.
pub open spec fn spec_update_adjusting(
    adjust_timeout: Timeout,
    keys: Option<(KeyKind, KeyKind)>,
) -> (Timeout, Seq<InputEvent>) {
    match spec_next_timeout_lifecycle(adjust_timeout, ADJUSTING_SHORT_TIMEOUT) {
        Lifecycle::Started(timeout) => (
            timeout,
            match keys {
                Some((up_key, down_key)) => seq![
                    InputEvent::KeyUp(up_key),
                    InputEvent::Key(down_key),
                ],
                None => Seq::empty(),
            },
        ),
        Lifecycle::Ended => (Timeout::spec_default(), Seq::empty()),
        Lifecycle::Updated(timeout) => (timeout, Seq::empty()),
    }
}

impl Adjusting {
    pub fn new(moving: Moving) -> (adjusting: Adjusting)
        ensures
            adjusting == (Adjusting { moving, adjust_timeout: Timeout::spec_default() }),
    {
        Adjusting { moving, adjust_timeout: Timeout::default() }
    }

    /// The same walk with `moving` in place of its movement.
    pub fn moving(self, moving: Moving) -> (adjusting: Adjusting)
        ensures
            adjusting == (Adjusting { moving, ..self }),
    {
        Adjusting { moving, ..self }
    }

    /// Takes one step of the pace of a small movement.
    pub fn update_adjusting(&mut self, resources: &mut Resources, keys: Option<(KeyKind, KeyKind)>)
        ensures
            ({
                let (timeout, events) = spec_update_adjusting(old(self).adjust_timeout, keys);
                &&& *final(self) == (Adjusting { adjust_timeout: timeout, ..*old(self) })
                &&& final(resources).sent(*old(resources), events)
            }),
    {
        let ghost nothing = Seq::<InputEvent>::empty();
        self.adjust_timeout = match next_timeout_lifecycle(
            self.adjust_timeout,
            ADJUSTING_SHORT_TIMEOUT,
        ) {
            Lifecycle::Started(timeout) => {
                match keys {
                    Some((up_key, down_key)) => {
                        resources.input.send_key_up(up_key);
                        resources.input.send_key(down_key);
                        assert(resources.input@ =~= old(resources).input@ + seq![
                            InputEvent::KeyUp(up_key),
                            InputEvent::Key(down_key),
                        ]);
                    },
                    None => {
                        assert(resources.input@ =~= old(resources).input@ + nothing);
                    },
                }
                timeout
            },
            Lifecycle::Ended => {
                assert(resources.input@ =~= old(resources).input@ + nothing);
                Timeout::default()
            },
            Lifecycle::Updated(timeout) => {
                assert(resources.input@ =~= old(resources).input@ + nothing);
                timeout
            },
        };
    }
}

/// The key to hold, the key to release and the direction to face for a
/// destination that lies `x_direction` away. A destination straight above or
/// below asks for none.
pub open spec fn spec_adjust_direction(x_direction: int) -> Option<
    (KeyKind, KeyKind, ActionKeyDirection),
> {
    if x_direction > 0 {
        Some((KeyKind::Right, KeyKind::Left, ActionKeyDirection::Right))
    } else if x_direction < 0 {
        Some((KeyKind::Left, KeyKind::Right, ActionKeyDirection::Left))
    } else {
        None
    }
}

/// The movement with the deadline held back by one tick.
pub open spec fn spec_frozen(moving: Moving) -> Moving {
    Moving {
        timeout: Timeout {
            current: if moving.timeout.current > 0 {
                (moving.timeout.current - 1) as u32
            } else {
                0
            },
            ..moving.timeout
        },
        ..moving
    }
}

/// What one tick of walking does to a movement that the lifecycle has stepped:
/// the pace of the small movement, the movement, the direction that the player
/// faces and the keys that are sent.
///
/// A completed movement is left alone. Otherwise, while a small movement is in
/// progress the deadline is held back. From the medium threshold on, and with
/// no small movement in progress, the key toward the destination is held and
/// the opposite one released. A small movement in progress, or an exact
/// destination that is not matched yet, taps the key at the pace of the small
/// movement. With nothing left to do both keys are released and the movement is
/// completed.
pub open spec fn spec_adjust_movement(
    context: PlayerContext,
    adjust_timeout: Timeout,
    moving: Moving,
) -> (Timeout, Moving, ActionKeyDirection, Seq<InputEvent>) {
    let x_distance = moving.spec_x_distance_from(true, moving.pos);
    let x_direction = moving.spec_x_direction_from(true, moving.pos);
    let facing = context.last_known_direction;
    if moving.completed {
        (adjust_timeout, moving, facing, Seq::empty())
    } else {
        let adjusting_started = adjust_timeout.started;
        let moving = if adjusting_started {
            spec_frozen(moving)
        } else {
            moving
        };
        let should_adjust_medium = !adjusting_started && x_distance >= ADJUSTING_MEDIUM_THRESHOLD;
        let should_adjust_short = adjusting_started || (moving.exact && x_distance
            >= ADJUSTING_SHORT_THRESHOLD);
        let direction = spec_adjust_direction(x_direction);
        if should_adjust_medium && direction is Some {
            let (down_key, up_key, dir) = direction->0;
            (adjust_timeout, moving, dir, seq![InputEvent::KeyUp(up_key), key_down(down_key)])
        } else if !should_adjust_medium && should_adjust_short && direction is Some {
            let (down_key, up_key, dir) = direction->0;
            let (timeout, events) = spec_update_adjusting(adjust_timeout, Some((up_key, down_key)));
            (timeout, moving, dir, events)
        } else if adjusting_started {
            let (timeout, events) = spec_update_adjusting(adjust_timeout, None);
            (timeout, moving, facing, events)
        } else {
            (
                adjust_timeout,
                Moving { completed: true, ..moving },
                facing,
                seq![InputEvent::KeyUp(KeyKind::Left), InputEvent::KeyUp(KeyKind::Right)],
            )
        }
    }
}

/// The movement that is written after a tick of walking: one that is not
/// completed as it is; a completed one that has to be exact and is not yet,
/// opened again with a fresh deadline; any other completed one at its
/// deadline.
pub open spec fn spec_next_moving(moving: Moving) -> Moving {
    if !moving.completed {
        moving
    } else if moving.exact && moving.spec_x_distance_from(true, moving.pos)
        >= ADJUSTING_SHORT_THRESHOLD {
        Moving { completed: false, timeout: Timeout { current: 0, ..moving.timeout }, ..moving }
    } else {
        Moving { timeout: Timeout { current: MOVE_TIMEOUT, ..moving.timeout }, ..moving }
    }
}

/// The actions under which a walk can run.
pub open spec fn spec_supports_action(action: Option<PlayerAction>) -> bool {
    !(action matches Some(PlayerAction::Unstuck) || action matches Some(PlayerAction::Panic(_))
        || action matches Some(PlayerAction::PingPong(_)))
}

/// How a walk, written as the state of `player`, gives way to the head of the
/// action queue.
///
/// A key action that goes with a double jump waits for the walk to complete at
/// the height of the destination, and then double jumps if the player faces
/// the right way and uses the key at once if not. A key action that goes with
/// any movement uses its key once the walk is completed close to the height of
/// the destination. An auto-mob action looks at the distance to the mob.
pub open spec fn spec_update_from_action(
    player: PlayerEntity,
    minimap_state: Minimap,
    moving: Moving,
) -> Outcome {
    let cur_pos = moving.pos;
    let y_distance = moving.spec_y_distance_from(false, cur_pos);
    match player.context.spec_next_action() {
        Some(PlayerAction::Key(key)) => match key.with {
            ActionKeyWith::DoubleJump => if !moving.completed || y_distance > 0 {
                player.unchanged()
            } else if key.direction == ActionKeyDirection::Any || key.direction
                == player.context.last_known_direction {
                Outcome {
                    state: Player::DoubleJumping(
                        DoubleJumping {
                            moving: Moving {
                                timeout: Timeout::spec_default(),
                                completed: false,
                                ..moving
                            },
                            forced: true,
                            require_stationary: false,
                        },
                    ),
                    context: player.context,
                    events: Seq::empty(),
                }
            } else {
                Outcome {
                    state: Player::UseKey(UseKey::spec_from_key(key)),
                    context: player.context,
                    events: Seq::empty(),
                }
            },
            ActionKeyWith::Any => if moving.completed && y_distance <= USE_KEY_Y_THRESHOLD {
                Outcome {
                    state: Player::UseKey(UseKey::spec_from_key(key)),
                    context: player.context,
                    events: Seq::empty(),
                }
            } else {
                player.unchanged()
            },
            ActionKeyWith::Stationary => player.unchanged(),
        },
        Some(PlayerAction::AutoMob(mob)) => spec_update_from_auto_mob_action(
            player,
            minimap_state,
            mob,
            moving.spec_x_distance_from(false, cur_pos),
            moving.spec_x_direction_from(false, cur_pos),
            y_distance,
        ),
        _ => player.unchanged(),
    }
}

/// The walk is given up for a double jump: the destination is as far as the
/// double jump threshold, and double jumps are not switched off.
pub open spec fn spec_should_double_jump(context: PlayerContext, moving: Moving) -> bool {
    !context.config.disable_double_jumping && moving.spec_x_distance_from(true, moving.pos)
        >= context.spec_double_jump_threshold(moving.spec_is_destination_intermediate())
}

/// What one tick of a walk does.
///
/// The first tick commits the movement. Later ticks hand back to the moving
/// state if the destination is far enough for a double jump, and else walk,
/// write the walk as the state and give way to the head of the action queue.
/// Past the deadline both horizontal keys are released and the moving state
/// takes over.
pub open spec fn spec_update_adjusting_state(player: PlayerEntity, minimap_state: Minimap) -> Outcome {
    let adjusting = player.state->Adjusting_0;
    let context = player.context;
    match spec_next_moving_lifecycle_with_axis(
        adjusting.moving,
        context.last_known_pos->0,
        MOVE_TIMEOUT,
        ChangeAxis::Both,
    ) {
        MovingLifecycle::Started(moving) => Outcome {
            state: Player::Adjusting(Adjusting { moving, ..adjusting }),
            context: PlayerContext { last_movement: Some(LastMovement::Adjusting), ..context },
            events: Seq::empty(),
        },
        MovingLifecycle::Ended(moving) => Outcome {
            state: Player::spec_to_moving(moving),
            context,
            events: seq![InputEvent::KeyUp(KeyKind::Right), InputEvent::KeyUp(KeyKind::Left)],
        },
        MovingLifecycle::Updated(moving) => if spec_should_double_jump(context, moving) {
            Outcome { state: Player::spec_to_moving(moving), context, events: Seq::empty() }
        } else {
            let (adjust_timeout, moved, facing, events) = spec_adjust_movement(
                context,
                adjusting.adjust_timeout,
                moving,
            );
            let written = Outcome {
                state: Player::Adjusting(Adjusting { moving: spec_next_moving(moved), adjust_timeout }),
                context: PlayerContext { last_known_direction: facing, ..context },
                events,
            };
            written.followed_by(spec_update_from_action(written.entity(), minimap_state, moved))
        },
    }
}

/// Gives way to the head of the action queue, with the walk already written as
/// the player's state.
fn update_from_action(
    resources: &mut Resources,
    player: &mut PlayerEntity,
    minimap_state: Minimap,
    moving: Moving,
)
    requires
        moving.in_range(),
        spec_supports_action(old(player).context.spec_next_action()),
    ensures
        spec_update_from_action(*old(player), minimap_state, moving).reached(
            *old(resources),
            *final(resources),
            *final(player),
        ),
{
    let cur_pos = moving.pos;
    let (x_distance, x_direction) = moving.x_distance_direction_from(false, cur_pos);
    let (y_distance, _) = moving.y_distance_direction_from(false, cur_pos);
    let ghost nothing = Seq::<InputEvent>::empty();

    match next_action(&player.context) {
        Some(PlayerAction::Key(key)) => {
            match key.with {
                ActionKeyWith::DoubleJump => {
                    if !moving.completed || y_distance > 0 {
                        assert(resources.input@ =~= old(resources).input@ + nothing);
                        return ;
                    }
                    let facing = match key.direction {
                        ActionKeyDirection::Any => true,
                        direction => direction == player.context.last_known_direction,
                    };
                    transition_if(
                        player,
                        Player::DoubleJumping(
                            DoubleJumping::new(
                                moving.timeout(Timeout::default()).completed(false),
                                true,
                                false,
                            ),
                        ),
                        Player::UseKey(UseKey::from_key(key)),
                        facing,
                    );
                },
                ActionKeyWith::Any => {
                    if moving.completed && y_distance <= USE_KEY_Y_THRESHOLD {
                        transition(player, Player::UseKey(UseKey::from_key(key)));
                    }
                },
                ActionKeyWith::Stationary => {},
            }
            assert(resources.input@ =~= old(resources).input@ + nothing);
        },
        Some(PlayerAction::AutoMob(mob)) => update_from_auto_mob_action(
            resources,
            player,
            minimap_state,
            mob,
            x_distance,
            x_direction,
            y_distance,
        ),
        _ => {
            assert(resources.input@ =~= old(resources).input@ + nothing);
        },
    }
}

/// Updates the [`Player::Adjusting`] contextual state.
///
/// This state just walks towards the destination. If [`Moving::exact`] is true,
/// then it will perform small movement to ensure the `x` is as close as possible.
pub fn update_adjusting_state(
    resources: &mut Resources,
    player: &mut PlayerEntity,
    minimap_state: Minimap,
)
    requires
        old(player).state is Adjusting,
        old(player).state->Adjusting_0.moving.in_range(),
        old(player).context.last_known_pos matches Some(pos) && pos.in_range(),
        spec_supports_action(old(player).context.spec_next_action()),
    ensures
        spec_update_adjusting_state(*old(player), minimap_state).reached(
            *old(resources),
            *final(resources),
            *final(player),
        ),
{
    let adjusting = match player.state {
        Player::Adjusting(adjusting) => adjusting,
        _ => { return ; },
    };
    let cur_pos = match player.context.last_known_pos {
        Some(pos) => pos,
        None => { return ; },
    };
    let moving = adjusting.moving;
    let is_intermediate = moving.is_destination_intermediate();
    let ghost nothing = Seq::<InputEvent>::empty();

    match next_moving_lifecycle_with_axis(moving, cur_pos, MOVE_TIMEOUT, ChangeAxis::Both) {
        MovingLifecycle::Started(moving) => {
            player.context.last_movement = Some(LastMovement::Adjusting);
            transition(player, Player::Adjusting(adjusting.moving(moving)));
            assert(resources.input@ =~= old(resources).input@ + nothing);
        },
        MovingLifecycle::Ended(moving) => {
            resources.input.send_key_up(KeyKind::Right);
            resources.input.send_key_up(KeyKind::Left);
            transition_to_moving(player, moving);
            assert(resources.input@ =~= old(resources).input@ + seq![
                InputEvent::KeyUp(KeyKind::Right),
                InputEvent::KeyUp(KeyKind::Left),
            ]);
        },
        MovingLifecycle::Updated(moving) => {
            let mut moving = moving;
            let mut adjusting = adjusting;
            let threshold: i32 = player.context.double_jump_threshold(is_intermediate);
            let (x_distance, x_direction) = moving.x_distance_direction_from(true, moving.pos);

            if !player.context.config.disable_double_jumping && x_distance >= threshold {
                transition_to_moving(player, moving);
                assert(resources.input@ =~= old(resources).input@ + nothing);
                return ;
            }
            let ghost first = spec_adjust_movement(
                player.context,
                adjusting.adjust_timeout,
                moving,
            ).3;

            // Movement logics
            if !moving.completed {
                let adjusting_started = adjusting.adjust_timeout.started;
                if adjusting_started {
                    // Do not allow timing out if adjusting is in-progress
                    moving.timeout.current = if moving.timeout.current > 0 {
                        moving.timeout.current - 1
                    } else {
                        0
                    };
                }
                let should_adjust_medium = !adjusting_started && x_distance
                    >= ADJUSTING_MEDIUM_THRESHOLD;
                let should_adjust_short = adjusting_started || (moving.exact && x_distance
                    >= ADJUSTING_SHORT_THRESHOLD);
                let direction = if x_direction > 0 {
                    Some((KeyKind::Right, KeyKind::Left, ActionKeyDirection::Right))
                } else if x_direction < 0 {
                    Some((KeyKind::Left, KeyKind::Right, ActionKeyDirection::Left))
                } else {
                    None
                };

                match (should_adjust_medium, should_adjust_short, direction) {
                    (true, _, Some((down_key, up_key, dir))) => {
                        resources.input.send_key_up(up_key);
                        resources.input.send_key_down(down_key);
                        player.context.last_known_direction = dir;
                        assert(resources.input@ =~= old(resources).input@ + seq![
                            InputEvent::KeyUp(up_key),
                            key_down(down_key),
                        ]);
                    },
                    (false, true, Some((down_key, up_key, dir))) => {
                        adjusting.update_adjusting(resources, Some((up_key, down_key)));
                        player.context.last_known_direction = dir;
                    },
                    _ => {
                        if adjusting_started {
                            adjusting.update_adjusting(resources, None);
                        } else {
                            resources.input.send_key_up(KeyKind::Left);
                            resources.input.send_key_up(KeyKind::Right);
                            moving = moving.completed(true);
                            assert(resources.input@ =~= old(resources).input@ + seq![
                                InputEvent::KeyUp(KeyKind::Left),
                                InputEvent::KeyUp(KeyKind::Right),
                            ]);
                        }
                    },
                }
            } else {
                assert(resources.input@ =~= old(resources).input@ + nothing);
            }
            assert(resources.input@ == old(resources).input@ + first);

            // Computes and sets initial next state first
            let next_moving = if !moving.completed {
                moving
            } else if moving.exact && x_distance >= ADJUSTING_SHORT_THRESHOLD {
                // Exact adjusting incomplete
                moving.completed(false).timeout_current(0)
            } else {
                moving.timeout_current(MOVE_TIMEOUT)
            };
            transition(player, Player::Adjusting(adjusting.moving(next_moving)));
            let ghost written = *player;

            update_from_action(resources, player, minimap_state, moving);
            proof {
                let second = spec_update_from_action(written, minimap_state, moving).events;
                assert(resources.input@ =~= old(resources).input@ + (first + second));
            }
        },
    }
}

/// While a small movement is in progress, a walk that is not completed does
/// not get closer to its deadline: as long as the state stays a walk, the
/// count toward the deadline does not grow.
pub proof fn lemma_adjust_freezes_timeout(player: PlayerEntity, minimap_state: Minimap)
    requires
        player.state is Adjusting,
        player.state->Adjusting_0.adjust_timeout.started,
        !player.state->Adjusting_0.moving.completed,
    ensures
        spec_update_adjusting_state(player, minimap_state).state matches Player::Adjusting(next)
            ==> next.moving.timeout.current <= player.state->Adjusting_0.moving.timeout.current,
{
}

/// The first tick of a walk always commits the walk as the last movement and
/// lets the timeout run: it never waits.
pub proof fn lemma_started_commits(player: PlayerEntity, minimap_state: Minimap)
    requires
        player.state is Adjusting,
        !player.state->Adjusting_0.moving.timeout.started,
    ensures
        ({
            let outcome = spec_update_adjusting_state(player, minimap_state);
            &&& outcome.state is Adjusting
            &&& outcome.state->Adjusting_0.moving.timeout.started
            &&& outcome.context.last_movement == Some(LastMovement::Adjusting)
            &&& outcome.events == Seq::<InputEvent>::empty()
        }),
{
}

/// Whatever directional key any tick of a walk holds down, the tick that ends
/// a walk releases.
pub proof fn lemma_ended_releases_held_keys(
    any: PlayerEntity,
    any_minimap: Minimap,
    ended: PlayerEntity,
    ended_minimap: Minimap,
)
    requires
        any.state is Adjusting,
        ended.state is Adjusting,
        ended.state->Adjusting_0.moving.timeout.started,
        ended.state->Adjusting_0.moving.timeout.current >= MOVE_TIMEOUT,
    ensures
        held_down(spec_update_adjusting_state(any, any_minimap).events).subset_of(
            released(spec_update_adjusting_state(ended, ended_minimap).events),
        ),
{
    let events = spec_update_adjusting_state(any, any_minimap).events;
    let last = spec_update_adjusting_state(ended, ended_minimap).events;
    assert(last == seq![InputEvent::KeyUp(KeyKind::Right), InputEvent::KeyUp(KeyKind::Left)]);
    assert(last[0] == InputEvent::KeyUp(KeyKind::Right));
    assert(last[1] == InputEvent::KeyUp(KeyKind::Left));
    assert(released(last).contains(KeyKind::Right));
    assert(released(last).contains(KeyKind::Left));
    assert forall|key: KeyKind| held_down(events).contains(key) implies key == KeyKind::Left || key
        == KeyKind::Right by {
        let (i, options) = choose|i: int, options: InputKeyDownOptions|
            0 <= i < events.len() && events[i] == InputEvent::KeyDown(key, options);
        assert(events[i] == InputEvent::KeyDown(key, options));
    }
}

/// A tick of a walk writes no state that has passed its deadline.
pub proof fn lemma_timeout_bounded(player: PlayerEntity, minimap_state: Minimap)
    requires
        player.state is Adjusting,
        spec_stash_bounded(player.context),
    ensures
        spec_outcome_bounded(spec_update_adjusting_state(player, minimap_state)),
{
}

} // verus!
