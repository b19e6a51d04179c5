//! The states in which the player is not moving: looked for, and idle.
use vstd::prelude::*;

use crate::bridge::InputEvent;
use crate::ecs::Resources;
use crate::geometry::Point;
use crate::minimap::Minimap;
use crate::models::Position;
use crate::player::actions::{
    next_action, spec_update_from_ping_pong_action, update_from_ping_pong_action, PlayerAction,
};
use crate::player::panicking::Panicking;
use crate::player::unstuck::{Unstucking, UnstuckingKind};
use crate::player::use_key::UseKey;
use crate::player::{
    spec_outcome_bounded, spec_stash_bounded, transition, Outcome, Player, PlayerEntity,
};

verus! {

/// The state in which the player heads for `position`.
pub open spec fn spec_moving_to(position: Position) -> Player {
    Player::Moving(Point { x: position.x, y: position.y }, position.allow_adjusting, None)
}

/// The state that follows the looking for the player: the player idles once
/// the minimap and the player's position are known.
pub open spec fn spec_update_detecting_state(player: PlayerEntity, minimap_state: Minimap) -> Player {
    if minimap_state is Idle && player.context.last_known_pos is Some {
        Player::Idle
    } else {
        Player::Detecting
    }
}

/// Updates the [`Player::Detecting`] contextual state.
pub fn update_detecting_state(player: &mut PlayerEntity, minimap_state: Minimap)
    ensures
        final(player).state == spec_update_detecting_state(*old(player), minimap_state),
        final(player).context == old(player).context,
{
    let known = match minimap_state {
        Minimap::Idle(_) => true,
        Minimap::Detecting => false,
    };
    if known && player.context.last_known_pos.is_some() {
        transition(player, Player::Idle);
    } else {
        transition(player, Player::Detecting);
    }
}

/// What an idle player does with the head of the action queue.
///
/// An auto-mob action, a move action and a key action with a position set the
/// player moving toward their position; a key action without one uses its key
/// where the player stands. A ping-pong action looks at where the player is,
/// and has a player of unknown position looked for. An unstuck action closes
/// whatever dialog is open, and a panic flees. With a rune to solve, or no
/// action, the player stays idle.
pub open spec fn spec_update_idle_state(player: PlayerEntity, minimap_state: Minimap) -> Outcome {
    let context = player.context;
    let idle = PlayerEntity { state: Player::Idle, context };
    match context.spec_next_action() {
        Some(PlayerAction::AutoMob(mob)) => Outcome {
            state: spec_moving_to(mob.position),
            context,
            events: Seq::empty(),
        },
        Some(PlayerAction::Move(action)) => Outcome {
            state: spec_moving_to(action.position),
            context,
            events: Seq::empty(),
        },
        Some(PlayerAction::Key(key)) => Outcome {
            state: match key.position {
                Some(position) => spec_moving_to(position),
                None => Player::UseKey(UseKey::spec_from_key(key)),
            },
            context,
            events: Seq::empty(),
        },
        Some(PlayerAction::PingPong(ping_pong)) => match context.last_known_pos {
            Some(pos) => spec_update_from_ping_pong_action(idle, minimap_state, ping_pong, pos),
            None => Outcome { state: Player::Detecting, context, events: Seq::empty() },
        },
        Some(PlayerAction::Unstuck) => Outcome {
            state: Player::Unstucking(Unstucking { kind: UnstuckingKind::Esc }),
            context,
            events: Seq::empty(),
        },
        Some(PlayerAction::Panic(to)) => Outcome {
            state: Player::Panicking(Panicking::spec_new(to)),
            context,
            events: Seq::empty(),
        },
        _ => idle.unchanged(),
    }
}

/// Updates the [`Player::Idle`] contextual state.
pub fn update_idle_state(
    resources: &mut Resources,
    player: &mut PlayerEntity,
    minimap_state: Minimap,
)
    ensures
        spec_update_idle_state(*old(player), minimap_state).reached(
            *old(resources),
            *final(resources),
            *final(player),
        ),
{
    let ghost nothing = Seq::<InputEvent>::empty();
    assert(resources.input@ =~= old(resources).input@ + nothing);
    match next_action(&player.context) {
        Some(PlayerAction::AutoMob(mob)) => transition(player, moving_to(mob.position)),
        Some(PlayerAction::Move(action)) => transition(player, moving_to(action.position)),
        Some(PlayerAction::Key(key)) => match key.position {
            Some(position) => transition(player, moving_to(position)),
            None => transition(player, Player::UseKey(UseKey::from_key(key))),
        },
        Some(PlayerAction::PingPong(ping_pong)) => match player.context.last_known_pos {
            Some(pos) => {
                transition(player, Player::Idle);
                update_from_ping_pong_action(resources, player, minimap_state, ping_pong, pos);
            },
            None => transition(player, Player::Detecting),
        },
        Some(PlayerAction::Unstuck) => transition(player, Player::Unstucking(Unstucking::new_esc())),
        Some(PlayerAction::Panic(to)) => transition(player, Player::Panicking(Panicking::new(to))),
        _ => transition(player, Player::Idle),
    }
}

/// The state in which the player heads for `position`.
pub fn moving_to(position: Position) -> (state: Player)
    ensures
        state == spec_moving_to(position),
{
    Player::Moving(Point::new(position.x, position.y), position.allow_adjusting, None)
}

/// A tick of idling writes no state that has passed its deadline.
pub proof fn lemma_timeout_bounded(player: PlayerEntity, minimap_state: Minimap)
    requires
        spec_stash_bounded(player.context),
    ensures
        spec_outcome_bounded(spec_update_idle_state(player, minimap_state)),
{
}

} // verus!
