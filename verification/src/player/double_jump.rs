//! The state that dashes toward a destination.
use vstd::prelude::*;

use crate::bridge::{held_down, key_down, released, InputEvent, InputKeyDownOptions, KeyKind};
use crate::ecs::Resources;
use crate::minimap::Minimap;
use crate::models::{ActionKeyDirection, ActionKeyWith};
use crate::player::actions::{
    next_action, spec_update_from_auto_mob_action, update_from_auto_mob_action, PlayerAction,
};
use crate::player::adjust::spec_adjust_direction;
use crate::player::fall::{Falling, FALLING_THRESHOLD};
use crate::player::moving::{Moving, MOVE_TIMEOUT};
use crate::player::state::{LastMovement, PlayerContext};
use crate::player::timeout::{
    next_moving_lifecycle_with_axis, spec_next_moving_lifecycle_with_axis, ChangeAxis,
    MovingLifecycle, Timeout,
};
use crate::player::use_key::UseKey;
use crate::player::{
    spec_outcome_bounded, spec_stash_bounded, transition, transition_to_moving, Outcome, Player,
    PlayerEntity,
};

verus! {

/// Ticks after which a double jump gives up.
pub const TIMEOUT: u32 = MOVE_TIMEOUT * 2;

/// A double jump toward the destination of `moving`.
#[derive(Clone, Copy, Debug)]
pub struct DoubleJumping {
    pub moving: Moving,
    /// The jump is made whatever the distance that is left, and made once.
    pub forced: bool,
    /// The jump waits until the player stands still.
    pub require_stationary: bool,
}

impl DoubleJumping {
    pub fn new(moving: Moving, forced: bool, require_stationary: bool) -> (double_jumping:
        DoubleJumping)
        ensures
            double_jumping == (DoubleJumping { moving, forced, require_stationary }),
    {
        DoubleJumping { moving, forced, require_stationary }
    }

    /// The same jump with `moving` in place of its movement.
    pub fn moving(self, moving: Moving) -> (double_jumping: DoubleJumping)
        ensures
            double_jumping == (DoubleJumping { moving, ..self }),
    {
        DoubleJumping { moving, ..self }
    }
}

/// The jump is made as a fall first: it is not forced and the destination lies
/// far enough below.
pub open spec fn spec_falls_first(double_jumping: DoubleJumping, moving: Moving) -> bool {
    &&& !double_jumping.forced
    &&& moving.spec_y_direction_from(true, moving.pos) < 0
    &&& moving.spec_y_distance_from(true, moving.pos) >= FALLING_THRESHOLD
}

/// The jump goes on: it is forced, or the destination is as far as the double
/// jump threshold.
pub open spec fn spec_should_jump(
    context: PlayerContext,
    double_jumping: DoubleJumping,
    moving: Moving,
) -> bool {
    double_jumping.forced || moving.spec_x_distance_from(true, moving.pos)
        >= context.spec_double_jump_threshold(moving.spec_is_destination_intermediate())
}

/// What one tick of jumping does to a movement that the lifecycle has stepped:
/// the movement, the direction that the player faces and the keys sent.
///
/// A completed movement is taken to its deadline. Else, while the jump goes on
/// and the destination lies to a side, the key toward it is held, the opposite
/// one released and the jump key pressed twice; a forced jump is completed by
/// that. With nothing left to do both keys are released and the movement is
/// completed.
pub open spec fn spec_double_jump_movement(
    context: PlayerContext,
    double_jumping: DoubleJumping,
    moving: Moving,
) -> (Moving, ActionKeyDirection, Seq<InputEvent>) {
    let facing = context.last_known_direction;
    if moving.completed {
        (
            Moving { timeout: Timeout { current: TIMEOUT, ..moving.timeout }, ..moving },
            facing,
            Seq::empty(),
        )
    } else {
        let direction = spec_adjust_direction(moving.spec_x_direction_from(true, moving.pos));
        if direction is Some && spec_should_jump(context, double_jumping, moving) {
            let (down_key, up_key, dir) = direction->0;
            (
                Moving { completed: double_jumping.forced, ..moving },
                dir,
                seq![
                    InputEvent::KeyUp(up_key),
                    key_down(down_key),
                    InputEvent::Key(context.config.jump_key),
                    InputEvent::Key(context.config.jump_key),
                ],
            )
        } else {
            (
                Moving { completed: true, ..moving },
                facing,
                seq![InputEvent::KeyUp(KeyKind::Left), InputEvent::KeyUp(KeyKind::Right)],
            )
        }
    }
}

/// How a double jump, written as the state of `player`, gives way to the head
/// of the action queue: once completed, a key action that goes with a double
/// jump uses its key, and an auto-mob action looks at the distance to the mob.
pub open spec fn spec_update_from_action(
    player: PlayerEntity,
    minimap_state: Minimap,
    moving: Moving,
) -> Outcome {
    let cur_pos = moving.pos;
    match player.context.spec_next_action() {
        Some(PlayerAction::Key(key)) => if key.with == ActionKeyWith::DoubleJump
            && moving.completed {
            Outcome {
                state: Player::UseKey(UseKey::spec_from_key(key)),
                context: player.context,
                events: Seq::empty(),
            }
        } else {
            player.unchanged()
        },
        Some(PlayerAction::AutoMob(mob)) => if !moving.completed {
            player.unchanged()
        } else {
            spec_update_from_auto_mob_action(
                player,
                minimap_state,
                mob,
                moving.spec_x_distance_from(false, cur_pos),
                moving.spec_x_direction_from(false, cur_pos),
                moving.spec_y_distance_from(false, cur_pos),
            )
        },
        _ => player.unchanged(),
    }
}

/// What one tick of a double jump does.
///
/// The first tick waits for the player to stand still if the jump asks for it,
/// gives way to a fall that hands back on completion if the jump falls first,
/// and else commits the movement. Later ticks jump, write the jump as the
/// state and give way to the head of the action queue. Past the deadline both
/// horizontal keys are released and the moving state takes over.
pub open spec fn spec_update_double_jumping_state(
    player: PlayerEntity,
    minimap_state: Minimap,
) -> Outcome {
    let double_jumping = player.state->DoubleJumping_0;
    let context = player.context;
    match spec_next_moving_lifecycle_with_axis(
        double_jumping.moving,
        context.last_known_pos->0,
        TIMEOUT,
        ChangeAxis::Horizontal,
    ) {
        MovingLifecycle::Started(moving) => if double_jumping.require_stationary
            && !context.is_stationary {
            Outcome {
                state: Player::DoubleJumping(
                    DoubleJumping {
                        moving: Moving {
                            timeout: Timeout { started: false, ..moving.timeout },
                            ..moving
                        },
                        ..double_jumping
                    },
                ),
                context,
                events: Seq::empty(),
            }
        } else if spec_falls_first(double_jumping, moving) {
            Outcome {
                state: Player::Falling(
                    Falling {
                        moving: Moving { timeout: Timeout::spec_default(), ..moving },
                        anchor: moving.pos,
                        timeout_on_complete: true,
                    },
                ),
                context,
                events: Seq::empty(),
            }
        } else {
            Outcome {
                state: Player::DoubleJumping(DoubleJumping { moving, ..double_jumping }),
                context: PlayerContext {
                    last_movement: Some(LastMovement::DoubleJumping),
                    ..context
                },
                events: Seq::empty(),
            }
        },
        MovingLifecycle::Ended(moving) => Outcome {
            state: Player::spec_to_moving(moving),
            context,
            events: seq![InputEvent::KeyUp(KeyKind::Right), InputEvent::KeyUp(KeyKind::Left)],
        },
        MovingLifecycle::Updated(moving) => {
            let (next_moving, facing, events) = spec_double_jump_movement(
                context,
                double_jumping,
                moving,
            );
            let written = Outcome {
                state: Player::DoubleJumping(
                    DoubleJumping { moving: next_moving, ..double_jumping },
                ),
                context: PlayerContext { last_known_direction: facing, ..context },
                events,
            };
            written.followed_by(spec_update_from_action(written.entity(), minimap_state, next_moving))
        },
    }
}

/// Gives way to the head of the action queue, with the jump already written as
/// the player's state.
fn update_from_action(
    resources: &mut Resources,
    player: &mut PlayerEntity,
    minimap_state: Minimap,
    moving: Moving,
)
    requires
        moving.in_range(),
    ensures
        spec_update_from_action(*old(player), minimap_state, moving).reached(
            *old(resources),
            *final(resources),
            *final(player),
        ),
{
    let cur_pos = moving.pos;
    let ghost nothing = Seq::<InputEvent>::empty();
    match next_action(&player.context) {
        Some(PlayerAction::Key(key)) => {
            let with_double_jump = match key.with {
                ActionKeyWith::DoubleJump => true,
                _ => false,
            };
            if with_double_jump && moving.completed {
                transition(player, Player::UseKey(UseKey::from_key(key)));
            }
            assert(resources.input@ =~= old(resources).input@ + nothing);
        },
        Some(PlayerAction::AutoMob(mob)) => {
            if !moving.completed {
                assert(resources.input@ =~= old(resources).input@ + nothing);
                return ;
            }
            let (x_distance, x_direction) = moving.x_distance_direction_from(false, cur_pos);
            let (y_distance, _) = moving.y_distance_direction_from(false, cur_pos);
            update_from_auto_mob_action(
                resources,
                player,
                minimap_state,
                mob,
                x_distance,
                x_direction,
                y_distance,
            );
        },
        _ => {
            assert(resources.input@ =~= old(resources).input@ + nothing);
        },
    }
}

/// Updates the [`Player::DoubleJumping`] contextual state.
pub fn update_double_jumping_state(
    resources: &mut Resources,
    player: &mut PlayerEntity,
    minimap_state: Minimap,
)
    requires
        old(player).state is DoubleJumping,
        old(player).state->DoubleJumping_0.moving.in_range(),
        old(player).context.last_known_pos matches Some(pos) && pos.in_range(),
    ensures
        spec_update_double_jumping_state(*old(player), minimap_state).reached(
            *old(resources),
            *final(resources),
            *final(player),
        ),
{
    let double_jumping = match player.state {
        Player::DoubleJumping(double_jumping) => double_jumping,
        _ => { return ; },
    };
    let cur_pos = match player.context.last_known_pos {
        Some(pos) => pos,
        None => { return ; },
    };
    let ghost nothing = Seq::<InputEvent>::empty();

    match next_moving_lifecycle_with_axis(
        double_jumping.moving,
        cur_pos,
        TIMEOUT,
        ChangeAxis::Horizontal,
    ) {
        MovingLifecycle::Started(moving) => {
            assert(resources.input@ =~= old(resources).input@ + nothing);
            if double_jumping.require_stationary && !player.context.is_stationary {
                transition(
                    player,
                    Player::DoubleJumping(double_jumping.moving(moving.timeout_started(false))),
                );
                return ;
            }
            let (y_distance, y_direction) = moving.y_distance_direction_from(true, moving.pos);
            if !double_jumping.forced && y_direction < 0 && y_distance >= FALLING_THRESHOLD {
                transition(
                    player,
                    Player::Falling(
                        Falling::new(moving.timeout(Timeout::default()), moving.pos, true),
                    ),
                );
                return ;
            }
            player.context.last_movement = Some(LastMovement::DoubleJumping);
            transition(player, Player::DoubleJumping(double_jumping.moving(moving)));
        },
        MovingLifecycle::Ended(moving) => {
            resources.input.send_key_up(KeyKind::Right);
            resources.input.send_key_up(KeyKind::Left);
            transition_to_moving(player, moving);
            assert(resources.input@ =~= old(resources).input@ + seq![
                InputEvent::KeyUp(KeyKind::Right),
                InputEvent::KeyUp(KeyKind::Left),
            ]);
        },
        MovingLifecycle::Updated(moving) => {
            let mut moving = moving;
            let ghost first = spec_double_jump_movement(player.context, double_jumping, moving).2;
            if moving.completed {
                moving.timeout.current = TIMEOUT;
                assert(resources.input@ =~= old(resources).input@ + nothing);
            } else {
                let is_intermediate = moving.is_destination_intermediate();
                let threshold: i32 = player.context.double_jump_threshold(is_intermediate);
                let (x_distance, x_direction) = moving.x_distance_direction_from(true, moving.pos);
                let direction = if x_direction > 0 {
                    Some((KeyKind::Right, KeyKind::Left, ActionKeyDirection::Right))
                } else if x_direction < 0 {
                    Some((KeyKind::Left, KeyKind::Right, ActionKeyDirection::Left))
                } else {
                    None
                };
                let should_jump = double_jumping.forced || x_distance >= threshold;
                match (should_jump, direction) {
                    (true, Some((down_key, up_key, dir))) => {
                        let jump_key = player.context.config.jump_key;
                        resources.input.send_key_up(up_key);
                        resources.input.send_key_down(down_key);
                        resources.input.send_key(jump_key);
                        resources.input.send_key(jump_key);
                        player.context.last_known_direction = dir;
                        moving.completed = double_jumping.forced;
                        assert(resources.input@ =~= old(resources).input@ + seq![
                            InputEvent::KeyUp(up_key),
                            key_down(down_key),
                            InputEvent::Key(jump_key),
                            InputEvent::Key(jump_key),
                        ]);
                    },
                    _ => {
                        resources.input.send_key_up(KeyKind::Left);
                        resources.input.send_key_up(KeyKind::Right);
                        moving.completed = true;
                        assert(resources.input@ =~= old(resources).input@ + seq![
                            InputEvent::KeyUp(KeyKind::Left),
                            InputEvent::KeyUp(KeyKind::Right),
                        ]);
                    },
                }
            }
            assert(resources.input@ == old(resources).input@ + first);
            transition(player, Player::DoubleJumping(double_jumping.moving(moving)));
            let ghost written = *player;
            update_from_action(resources, player, minimap_state, moving);
            proof {
                let second = spec_update_from_action(written, minimap_state, moving).events;
                assert(resources.input@ =~= old(resources).input@ + (first + second));
            }
        },
    }
}

/// The first tick of a double jump does one of three things and never two of
/// them: it waits, with the timeout set back and the last movement untouched;
/// it gives way to a fall; or it commits the jump as the last movement and
/// lets the timeout run. It sends no key.
pub proof fn lemma_started_commits_or_stalls(player: PlayerEntity, minimap_state: Minimap)
    requires
        player.state is DoubleJumping,
        !player.state->DoubleJumping_0.moving.timeout.started,
    ensures
        ({
            let outcome = spec_update_double_jumping_state(player, minimap_state);
            let stalled = outcome.state is DoubleJumping
                && !outcome.state->DoubleJumping_0.moving.timeout.started;
            let committed = outcome.state is DoubleJumping
                && outcome.state->DoubleJumping_0.moving.timeout.started;
            &&& stalled || committed || outcome.state is Falling
            &&& stalled ==> outcome.context.last_movement == player.context.last_movement
            &&& committed ==> outcome.context.last_movement == Some(LastMovement::DoubleJumping)
            &&& outcome.events == Seq::<InputEvent>::empty()
        }),
{
}

/// Whatever directional key any tick of a double jump holds down, the tick
/// that ends a double jump releases.
pub proof fn lemma_ended_releases_held_keys(
    any: PlayerEntity,
    any_minimap: Minimap,
    ended: PlayerEntity,
    ended_minimap: Minimap,
)
    requires
        any.state is DoubleJumping,
        ended.state is DoubleJumping,
        ended.state->DoubleJumping_0.moving.timeout.started,
        ended.state->DoubleJumping_0.moving.timeout.current >= TIMEOUT,
    ensures
        held_down(spec_update_double_jumping_state(any, any_minimap).events).subset_of(
            released(spec_update_double_jumping_state(ended, ended_minimap).events),
        ),
{
    let events = spec_update_double_jumping_state(any, any_minimap).events;
    let last = spec_update_double_jumping_state(ended, ended_minimap).events;
    assert(last == seq![InputEvent::KeyUp(KeyKind::Right), InputEvent::KeyUp(KeyKind::Left)]);
    assert(last[0] == InputEvent::KeyUp(KeyKind::Right));
    assert(last[1] == InputEvent::KeyUp(KeyKind::Left));
    assert(released(last).contains(KeyKind::Right));
    assert(released(last).contains(KeyKind::Left));
    assert forall|key: KeyKind| held_down(events).contains(key) implies key == KeyKind::Left || key
        == KeyKind::Right by {
        let (i, options) = choose|i: int, options: InputKeyDownOptions|
            0 <= i < events.len() && events[i] == InputEvent::KeyDown(key, options);
        assert(events[i] == InputEvent::KeyDown(key, options));
    }
}

/// A tick of a double jump writes no state that has passed its deadline.
pub proof fn lemma_timeout_bounded(player: PlayerEntity, minimap_state: Minimap)
    requires
        player.state is DoubleJumping,
        spec_stash_bounded(player.context),
    ensures
        spec_outcome_bounded(spec_update_double_jumping_state(player, minimap_state)),
{
}

} // verus!
