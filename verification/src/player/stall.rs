//! The state that waits.
use vstd::prelude::*;

use crate::player::actions::{next_action, PlayerAction};
use crate::player::state::PlayerContext;
use crate::player::timeout::{
    next_timeout_lifecycle, spec_next_timeout_lifecycle, Lifecycle, Timeout,
};
use crate::player::{transition, transition_from_action, Player, PlayerEntity};

verus! {

/// The actions under which a stall can run.
pub open spec fn spec_supports_action(action: Option<PlayerAction>) -> bool {
    !(action matches Some(PlayerAction::Unstuck) || action matches Some(PlayerAction::Panic(_)))
}

/// The state that follows a tick of a stall, before the action queue is looked
/// at: the stall goes on until its deadline, and then gives way to the stashed
/// state, or to idling if none is stashed.
pub open spec fn spec_stalling_next_state(
    context: PlayerContext,
    timeout: Timeout,
    max_timeout: u32,
) -> Player {
    match spec_next_timeout_lifecycle(timeout, max_timeout) {
        Lifecycle::Started(timeout) => Player::Stalling(timeout, max_timeout),
        Lifecycle::Updated(timeout) => Player::Stalling(timeout, max_timeout),
        Lifecycle::Ended => match context.stalling_timeout_state {
            Some(state) => state,
            None => Player::Idle,
        },
    }
}

/// The context after the stash was looked at: the deadline empties it.
pub open spec fn spec_stalling_taken(
    context: PlayerContext,
    timeout: Timeout,
    max_timeout: u32,
) -> PlayerContext {
    if spec_next_timeout_lifecycle(timeout, max_timeout) is Ended {
        PlayerContext { stalling_timeout_state: None, ..context }
    } else {
        context
    }
}

/// The player that one tick of a stall leaves.
///
/// Idling is the end of the stall. Under an auto-mob action whose mob's height
/// still has to be confirmed as reachable, a stall that ends while the player
/// is not stationary starts over, and one that ends with the player stationary
/// records the height. At its end the stall completes a key, move, ping-pong
/// or auto-mob action.
pub open spec fn spec_update_stalling_state(
    player: PlayerEntity,
    timeout: Timeout,
    max_timeout: u32,
) -> PlayerEntity {
    let next_state = spec_stalling_next_state(player.context, timeout, max_timeout);
    let context = spec_stalling_taken(player.context, timeout, max_timeout);
    let is_terminal = next_state is Idle;
    match context.spec_next_action() {
        Some(PlayerAction::AutoMob(mob)) => {
            let y = mob.position.y;
            let confirm = is_terminal && context.spec_auto_mob_reachable_y_require_update(y);
            if confirm && !context.is_stationary {
                PlayerEntity {
                    state: Player::Stalling(Timeout::spec_default(), max_timeout),
                    context,
                }
            } else {
                let context = if confirm {
                    context.spec_auto_mob_track_reachable_y(y)
                } else {
                    context
                };
                PlayerEntity {
                    state: next_state,
                    context: if is_terminal {
                        context.spec_clear_action_completed()
                    } else {
                        context
                    },
                }
            }
        },
        Some(PlayerAction::SolveRune) => PlayerEntity { state: next_state, context },
        None => PlayerEntity { state: next_state, context },
        Some(_) => PlayerEntity {
            state: next_state,
            context: if is_terminal {
                context.spec_clear_action_completed()
            } else {
                context
            },
        },
    }
}

/// Updates the [`Player::Stalling`] contextual state.
///
/// This state stalls for the specified number of `max_timeout`. Upon timing out,
/// it will return to the stashed state if there is one or
/// [`Player::Idle`] if there is none. And [`Player::Idle`] is considered the terminal state if
/// there is an action.
///
/// If this state timeout in auto mob with terminal state, it will perform
/// auto mob reachable `y` solidifying if needed.
pub fn update_stalling_state(player: &mut PlayerEntity, timeout: Timeout, max_timeout: u32)
    requires
        spec_supports_action(old(player).context.spec_next_action()),
    ensures
        *final(player) == spec_update_stalling_state(*old(player), timeout, max_timeout),
{
    let next_state = match next_timeout_lifecycle(timeout, max_timeout) {
        Lifecycle::Started(timeout) => Player::Stalling(timeout, max_timeout),
        Lifecycle::Ended => {
            let stashed = player.context.stalling_timeout_state;
            player.context.stalling_timeout_state = None;
            match stashed {
                Some(state) => state,
                None => Player::Idle,
            }
        },
        Lifecycle::Updated(timeout) => Player::Stalling(timeout, max_timeout),
    };
    let is_terminal = match next_state {
        Player::Idle => true,
        _ => false,
    };

    match next_action(&player.context) {
        Some(PlayerAction::AutoMob(mob)) => {
            let y: i32 = mob.position.y;
            if is_terminal && player.context.auto_mob_reachable_y_require_update(y) {
                if !player.context.is_stationary {
                    transition(player, Player::Stalling(Timeout::default(), max_timeout));
                    return ;
                }
                player.context.auto_mob_track_reachable_y(y);
            }
            transition_from_action(player, next_state, is_terminal);
        },
        Some(PlayerAction::PingPong(_) | PlayerAction::Key(_) | PlayerAction::Move(_)) => {
            transition_from_action(player, next_state, is_terminal);
        },
        Some(PlayerAction::SolveRune) | None => transition(player, next_state),
        Some(_) => {},
    }
}

/// A stall that goes on has not passed its deadline, and the stashed state is
/// used once: after the deadline the stash is empty.
pub proof fn lemma_stall_bounded_and_stash_used_once(
    player: PlayerEntity,
    timeout: Timeout,
    max_timeout: u32,
)
    ensures
        ({
            let next = spec_update_stalling_state(player, timeout, max_timeout);
            let ended = timeout.started && timeout.current >= max_timeout;
            &&& !ended ==> (next.state matches Player::Stalling(after, max) && max == max_timeout
                && after.current <= max_timeout)
            &&& ended ==> next.context.stalling_timeout_state is None
            &&& !ended ==> next.context == player.context
        }),
{
}

} // verus!
