//! The state that jumps once.
use vstd::prelude::*;

use crate::bridge::{held_down, InputEvent, InputKeyDownOptions, KeyKind};
use crate::ecs::Resources;
use crate::player::moving::{Moving, MOVE_TIMEOUT};
use crate::player::state::{LastMovement, PlayerContext};
use crate::player::timeout::{
    next_moving_lifecycle_with_axis, spec_next_moving_lifecycle_with_axis, ChangeAxis,
    MovingLifecycle,
};
use crate::player::{transition, transition_to_moving, Outcome, Player, PlayerEntity};

verus! {

/// Ticks after which a jump gives up.
pub const JUMPING_TIMEOUT: u32 = MOVE_TIMEOUT + 3;

/// What one tick of a jump does.
///
/// The first tick presses the jump key and commits the movement. The jump then
/// waits, and hands back to the moving state once its deadline passes.
pub open spec fn spec_update_jumping_state(player: PlayerEntity, moving: Moving) -> Outcome {
    match spec_next_moving_lifecycle_with_axis(
        moving,
        player.context.last_known_pos->0,
        JUMPING_TIMEOUT,
        ChangeAxis::Vertical,
    ) {
        MovingLifecycle::Started(moving) => Outcome {
            state: Player::Jumping(moving),
            context: PlayerContext {
                last_movement: Some(LastMovement::Jumping),
                ..player.context
            },
            events: seq![InputEvent::Key(player.context.config.jump_key)],
        },
        MovingLifecycle::Ended(moving) => Outcome {
            state: Player::spec_to_moving(moving),
            context: player.context,
            events: Seq::empty(),
        },
        MovingLifecycle::Updated(moving) => Outcome {
            state: Player::Jumping(moving),
            context: player.context,
            events: Seq::empty(),
        },
    }
}

/// Updates the jumping state of a player whose position is known.
pub fn update_jumping_state(resources: &mut Resources, player: &mut PlayerEntity, moving: Moving)
    requires
        old(player).context.last_known_pos is Some,
    ensures
        spec_update_jumping_state(*old(player), moving).reached(
            *old(resources),
            *final(resources),
            *final(player),
        ),
{
    let cur_pos = match player.context.last_known_pos {
        Some(pos) => pos,
        None => { return ; },
    };
    match next_moving_lifecycle_with_axis(moving, cur_pos, JUMPING_TIMEOUT, ChangeAxis::Vertical) {
        MovingLifecycle::Started(moving) => {
            resources.input.send_key(player.context.config.jump_key);
            player.context.last_movement = Some(LastMovement::Jumping);
            transition(player, Player::Jumping(moving));
            assert(resources.input@ =~= old(resources).input@ + seq![
                InputEvent::Key(old(player).context.config.jump_key),
            ]);
        },
        MovingLifecycle::Ended(moving) => {
            transition_to_moving(player, moving);
            assert(resources.input@ =~= old(resources).input@ + Seq::<InputEvent>::empty());
        },
        MovingLifecycle::Updated(moving) => {
            transition(player, Player::Jumping(moving));
            assert(resources.input@ =~= old(resources).input@ + Seq::<InputEvent>::empty());
        },
    }
}

/// Every tick of a jump writes a state other than the one it read: the first
/// tick starts the timeout, a later tick below the deadline counts one tick
/// more, whatever the position, and a tick at the deadline hands back to the
/// moving state with the destination, the exactness and the sub-destinations
/// of the jump.
pub proof fn lemma_every_tick_writes(player: PlayerEntity, moving: Moving)
    ensures
        ({
            let outcome = spec_update_jumping_state(player, moving);
            let timeout = moving.timeout;
            &&& !timeout.started ==> (outcome.state matches Player::Jumping(next)
                && next.timeout.started)
            &&& timeout.started && timeout.current < JUMPING_TIMEOUT ==> (
            outcome.state matches Player::Jumping(next) && next.timeout.current == timeout.current
                + 1)
            &&& timeout.started && timeout.current >= JUMPING_TIMEOUT ==> outcome.state
                == Player::Moving(moving.dest, moving.exact, moving.intermediates)
            &&& outcome.state != Player::Jumping(moving)
        }),
{
}

/// The first tick of a jump always commits the jump as the last movement and
/// lets the timeout run: it never waits.
pub proof fn lemma_started_commits(player: PlayerEntity, moving: Moving)
    requires
        !moving.timeout.started,
    ensures
        ({
            let outcome = spec_update_jumping_state(player, moving);
            &&& outcome.state matches Player::Jumping(next) && next.timeout.started
            &&& outcome.context.last_movement == Some(LastMovement::Jumping)
        }),
{
}

/// No tick of a jump holds a directional key down, so the tick that ends a
/// jump has none to release.
pub proof fn lemma_holds_no_key(player: PlayerEntity, moving: Moving)
    ensures
        held_down(spec_update_jumping_state(player, moving).events) == Set::<KeyKind>::empty(),
{
    let events = spec_update_jumping_state(player, moving).events;
    assert forall|key: KeyKind| !held_down(events).contains(key) by {
        if held_down(events).contains(key) {
            let (i, options) = choose|i: int, options: InputKeyDownOptions|
                0 <= i < events.len() && events[i] == InputEvent::KeyDown(key, options);
            assert(events[i] == InputEvent::KeyDown(key, options));
        }
    }
    assert(held_down(events) =~= Set::<KeyKind>::empty());
}

/// A jump that goes on has not passed its deadline, and its count of all ticks
/// stays at or above the count toward the deadline where it was so before.
pub proof fn lemma_timeout_bounded(player: PlayerEntity, moving: Moving)
    ensures
        spec_update_jumping_state(player, moving).state matches Player::Jumping(next) ==> {
            &&& next.timeout.current <= JUMPING_TIMEOUT
            &&& moving.timeout.total >= moving.timeout.current ==> next.timeout.total
                >= next.timeout.current
        },
{
}

} // verus!
