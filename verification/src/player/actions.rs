//! The intents that drive the player, and how a movement state gives way to
//! them.
use vstd::prelude::*;

use crate::bridge::{InputEvent, KeyKind};
use crate::ecs::Resources;
use crate::geometry::{Point, Rect};
use crate::minimap::Minimap;
use crate::models::{ActionKeyDirection, ActionKeyWith, LinkKeyBinding, Position};
use crate::player::state::PlayerContext;
use crate::player::use_key::UseKey;
use crate::player::{transition, transition_from_action, Outcome, Player, PlayerEntity};

verus! {

/// Largest x distance from a mob at which its key is used.
pub const AUTO_MOB_USE_KEY_X_THRESHOLD: i32 = 16;

/// Largest y distance from a mob at which its key is used.
pub const AUTO_MOB_USE_KEY_Y_THRESHOLD: i32 = 8;

/// A second key that goes with an action's key, and when it is pressed.
#[derive(Clone, Copy, Debug, PartialEq, Eq, Structural)]
pub enum LinkKey {
    /// Before the action's key.
    Before(KeyKind),
    /// In the same instant as the action's key.
    AtTheSame(KeyKind),
    /// After the action's key.
    After(KeyKind),
    /// Held down while the action's key is pressed.
    Along(KeyKind),
}

impl LinkKey {
    /// The link that a configured link stands for, with its key as a key of
    /// the keyboard.
    pub open spec fn spec_from_binding(binding: LinkKeyBinding) -> Option<LinkKey> {
        match binding {
            LinkKeyBinding::Unlinked => None,
            LinkKeyBinding::Before(key) => Some(LinkKey::Before(KeyKind::spec_from_binding(key))),
            LinkKeyBinding::AtTheSame(key) => Some(
                LinkKey::AtTheSame(KeyKind::spec_from_binding(key)),
            ),
            LinkKeyBinding::After(key) => Some(LinkKey::After(KeyKind::spec_from_binding(key))),
            LinkKeyBinding::Along(key) => Some(LinkKey::Along(KeyKind::spec_from_binding(key))),
        }
    }

    /// Turns a configured link into the link of an action.
    pub fn from_binding(binding: LinkKeyBinding) -> (link: Option<LinkKey>)
        ensures
            link == LinkKey::spec_from_binding(binding),
            link is None <==> binding == LinkKeyBinding::Unlinked,
    {
        match binding {
            LinkKeyBinding::Unlinked => None,
            LinkKeyBinding::Before(key) => Some(LinkKey::Before(KeyKind::from_binding(key))),
            LinkKeyBinding::AtTheSame(key) => Some(LinkKey::AtTheSame(KeyKind::from_binding(key))),
            LinkKeyBinding::After(key) => Some(LinkKey::After(KeyKind::from_binding(key))),
            LinkKeyBinding::Along(key) => Some(LinkKey::Along(KeyKind::from_binding(key))),
        }
    }
}

/// Approach a mob and strike it.
#[derive(Clone, Copy, Debug, PartialEq, Eq, Structural)]
pub struct AutoMob {
    pub key: KeyKind,
    pub link_key: Option<LinkKey>,
    pub count: u32,
    pub with: ActionKeyWith,
    pub wait_before_ticks: u32,
    pub wait_after_ticks: u32,
    /// Where the mob is.
    pub position: Position,
}

/// Use a key, at a position if one is given.
#[derive(Clone, Copy, Debug, PartialEq, Eq, Structural)]
pub struct Key {
    pub key: KeyKind,
    pub link_key: Option<LinkKey>,
    pub count: u32,
    pub position: Option<Position>,
    pub direction: ActionKeyDirection,
    pub with: ActionKeyWith,
    pub wait_before_use_ticks: u32,
    pub wait_after_use_ticks: u32,
}

/// Go to a position.
#[derive(Clone, Copy, Debug, PartialEq, Eq, Structural)]
pub struct Move {
    pub position: Position,
    pub wait_after_move_ticks: u32,
}

/// The side toward which a patrol is heading.
#[derive(Clone, Copy, Debug, PartialEq, Eq, Structural)]
pub enum PingPongDirection {
    Left,
    Right,
}

/// Patrol inside a region, using a key on the way.
#[derive(Clone, Copy, Debug, PartialEq, Eq, Structural)]
pub struct PingPong {
    pub key: KeyKind,
    pub link_key: Option<LinkKey>,
    pub count: u32,
    pub wait_before_ticks: u32,
    pub wait_after_ticks: u32,
    /// The region of the patrol.
    pub bound: Rect,
    pub direction: PingPongDirection,
}

/// Where a panic takes the player.
#[derive(Clone, Copy, Debug, PartialEq, Eq, Structural)]
pub enum PanicTo {
    /// To another channel.
    Channel,
    /// Back to town.
    Town,
}

/// A timed buff.
#[derive(Clone, Copy, Debug, PartialEq, Eq, Structural)]
pub enum Booster {
    Vip,
    Hexa,
}

/// An intent at the head of the action queue.
#[derive(Clone, Copy, Debug, PartialEq, Eq, Structural)]
pub enum PlayerAction {
    AutoMob(AutoMob),
    Key(Key),
    Move(Move),
    PingPong(PingPong),
    SolveRune,
    Unstuck,
    Panic(PanicTo),
}

/// The head of the action queue: the priority action if there is one, else the
/// normal action.
pub fn next_action(context: &PlayerContext) -> (action: Option<PlayerAction>)
    ensures
        action == context.spec_next_action(),
{
    match context.priority_action {
        Some(action) => Some(action),
        None => context.normal_action,
    }
}

/// The direction that `x_direction` points to, or `fallback` when it points
/// nowhere.
pub open spec fn spec_facing(x_direction: int, fallback: ActionKeyDirection) -> ActionKeyDirection {
    if x_direction > 0 {
        ActionKeyDirection::Right
    } else if x_direction < 0 {
        ActionKeyDirection::Left
    } else {
        fallback
    }
}

/// The key-up events of the four directional keys.
pub open spec fn release_directional_keys() -> Seq<InputEvent> {
    seq![
        InputEvent::KeyUp(KeyKind::Down),
        InputEvent::KeyUp(KeyKind::Up),
        InputEvent::KeyUp(KeyKind::Left),
        InputEvent::KeyUp(KeyKind::Right),
    ]
}

/// The mob is close enough to be struck, and the minimap is known.
pub open spec fn spec_auto_mob_in_reach(minimap_state: Minimap, x_distance: int, y_distance: int) -> bool {
    &&& minimap_state is Idle
    &&& x_distance <= AUTO_MOB_USE_KEY_X_THRESHOLD
    &&& y_distance <= AUTO_MOB_USE_KEY_Y_THRESHOLD
}

/// What a movement state becomes under an auto-mob action.
///
/// With the mob in reach the directional keys are released, the player faces
/// the mob and its key is used. Otherwise the movement goes on.
pub open spec fn spec_update_from_auto_mob_action(
    player: PlayerEntity,
    minimap_state: Minimap,
    mob: AutoMob,
    x_distance: int,
    x_direction: int,
    y_distance: int,
) -> Outcome {
    if spec_auto_mob_in_reach(minimap_state, x_distance, y_distance) {
        let direction = spec_facing(x_direction, player.context.last_known_direction);
        Outcome {
            state: Player::UseKey(UseKey::spec_from_auto_mob(mob, direction)),
            context: PlayerContext { last_known_direction: direction, ..player.context },
            events: release_directional_keys(),
        }
    } else {
        Outcome { state: player.state, context: player.context, events: Seq::empty() }
    }
}

/// Gives way to an auto-mob action from a movement state whose distances to the
/// mob are `x_distance`, `x_direction` and `y_distance`.
pub fn update_from_auto_mob_action(
    resources: &mut Resources,
    player: &mut PlayerEntity,
    minimap_state: Minimap,
    mob: AutoMob,
    x_distance: i32,
    x_direction: i32,
    y_distance: i32,
)
    ensures
        ({
            let outcome = spec_update_from_auto_mob_action(
                *old(player),
                minimap_state,
                mob,
                x_distance as int,
                x_direction as int,
                y_distance as int,
            );
            &&& final(player).state == outcome.state
            &&& final(player).context == outcome.context
            &&& final(resources).sent(*old(resources), outcome.events)
        }),
{
    let known = match minimap_state {
        Minimap::Idle(_) => true,
        Minimap::Detecting => false,
    };
    if known && x_distance <= AUTO_MOB_USE_KEY_X_THRESHOLD && y_distance
        <= AUTO_MOB_USE_KEY_Y_THRESHOLD {
        let direction = if x_direction > 0 {
            ActionKeyDirection::Right
        } else if x_direction < 0 {
            ActionKeyDirection::Left
        } else {
            player.context.last_known_direction
        };
        resources.input.send_key_up(KeyKind::Down);
        resources.input.send_key_up(KeyKind::Up);
        resources.input.send_key_up(KeyKind::Left);
        resources.input.send_key_up(KeyKind::Right);
        player.context.last_known_direction = direction;
        transition(player, Player::UseKey(UseKey::from_auto_mob(mob, direction)));
        assert(final(resources).input@ =~= old(resources).input@ + release_directional_keys());
    } else {
        assert(final(resources).input@ =~= old(resources).input@ + Seq::<InputEvent>::empty());
    }
}

/// The patrol has reached the edge of its region on the side it is heading to.
pub open spec fn spec_ping_pong_hit_edge(ping_pong: PingPong, cur_pos: Point) -> bool {
    match ping_pong.direction {
        PingPongDirection::Left => cur_pos.x <= ping_pong.bound.x,
        PingPongDirection::Right => cur_pos.x >= ping_pong.bound.x + ping_pong.bound.width,
    }
}

/// What a movement state becomes under a ping-pong action.
///
/// While the minimap is unknown the movement goes on. At the edge of the
/// region the action is completed and the player idles, so that the patrol can
/// turn around. Anywhere else the vertical keys are released and the patrol's
/// key is used, facing the way of the patrol.
pub open spec fn spec_update_from_ping_pong_action(
    player: PlayerEntity,
    minimap_state: Minimap,
    ping_pong: PingPong,
    cur_pos: Point,
) -> Outcome {
    if !(minimap_state is Idle) {
        Outcome { state: player.state, context: player.context, events: Seq::empty() }
    } else if spec_ping_pong_hit_edge(ping_pong, cur_pos) {
        Outcome {
            state: Player::Idle,
            context: player.context.spec_clear_action_completed(),
            events: Seq::empty(),
        }
    } else {
        Outcome {
            state: Player::UseKey(UseKey::spec_from_ping_pong(ping_pong)),
            context: player.context,
            events: seq![InputEvent::KeyUp(KeyKind::Down), InputEvent::KeyUp(KeyKind::Up)],
        }
    }
}

/// Gives way to a ping-pong action from a movement state with the player at
/// `cur_pos`.
pub fn update_from_ping_pong_action(
    resources: &mut Resources,
    player: &mut PlayerEntity,
    minimap_state: Minimap,
    ping_pong: PingPong,
    cur_pos: Point,
)
    ensures
        ({
            let outcome = spec_update_from_ping_pong_action(
                *old(player),
                minimap_state,
                ping_pong,
                cur_pos,
            );
            &&& final(player).state == outcome.state
            &&& final(player).context == outcome.context
            &&& final(resources).sent(*old(resources), outcome.events)
        }),
{
    let known = match minimap_state {
        Minimap::Idle(_) => true,
        Minimap::Detecting => false,
    };
    if !known {
        assert(final(resources).input@ =~= old(resources).input@ + Seq::<InputEvent>::empty());
        return ;
    }
    let hit_edge = match ping_pong.direction {
        PingPongDirection::Left => cur_pos.x <= ping_pong.bound.x,
        PingPongDirection::Right => cur_pos.x as i64 >= ping_pong.bound.x as i64
            + ping_pong.bound.width as i64,
    };
    if hit_edge {
        transition_from_action(player, Player::Idle, true);
        assert(final(resources).input@ =~= old(resources).input@ + Seq::<InputEvent>::empty());
    } else {
        resources.input.send_key_up(KeyKind::Down);
        resources.input.send_key_up(KeyKind::Up);
        transition(player, Player::UseKey(UseKey::from_ping_pong(ping_pong)));
        assert(final(resources).input@ =~= old(resources).input@ + seq![
            InputEvent::KeyUp(KeyKind::Down),
            InputEvent::KeyUp(KeyKind::Up),
        ]);
    }
}

} // verus!
