//! The state in which an action's key is used.
use vstd::prelude::*;

use crate::bridge::{key_down, InputEvent, KeyKind};
use crate::ecs::Resources;
use crate::models::{ActionKeyDirection, ActionKeyWith};
use crate::player::actions::{
    next_action, AutoMob, Key, LinkKey, PingPong, PingPongDirection,
};
use crate::player::state::PlayerContext;
use crate::player::timeout::{
    next_timeout_lifecycle, spec_next_timeout_lifecycle, Lifecycle, Timeout,
};
use crate::player::{transition, transition_from_action, Outcome, Player, PlayerEntity};

verus! {

/// The use of a key: which key, how often, facing where, and how far it got.
#[derive(Clone, Copy, Debug, PartialEq, Eq, Structural)]
pub struct UseKey {
    pub key: KeyKind,
    pub link_key: Option<LinkKey>,
    /// How many times the key is to be pressed.
    pub count: u32,
    /// How many times it has been pressed.
    pub current_count: u32,
    pub direction: ActionKeyDirection,
    pub with: ActionKeyWith,
    /// Ticks to wait before each press.
    pub wait_before_use_ticks: u32,
    /// Ticks to wait after the last press.
    pub wait_after_use_ticks: u32,
    /// The wait before the next press.
    pub timeout: Timeout,
}

impl UseKey {
    pub open spec fn spec_from_key(key: Key) -> UseKey {
        UseKey {
            key: key.key,
            link_key: key.link_key,
            count: key.count,
            current_count: 0,
            direction: key.direction,
            with: key.with,
            wait_before_use_ticks: key.wait_before_use_ticks,
            wait_after_use_ticks: key.wait_after_use_ticks,
            timeout: Timeout::spec_default(),
        }
    }

    pub open spec fn spec_from_auto_mob(mob: AutoMob, direction: ActionKeyDirection) -> UseKey {
        UseKey {
            key: mob.key,
            link_key: mob.link_key,
            count: mob.count,
            current_count: 0,
            direction,
            with: mob.with,
            wait_before_use_ticks: mob.wait_before_ticks,
            wait_after_use_ticks: mob.wait_after_ticks,
            timeout: Timeout::spec_default(),
        }
    }

    pub open spec fn spec_from_ping_pong(ping_pong: PingPong) -> UseKey {
        UseKey {
            key: ping_pong.key,
            link_key: ping_pong.link_key,
            count: ping_pong.count,
            current_count: 0,
            direction: match ping_pong.direction {
                PingPongDirection::Left => ActionKeyDirection::Left,
                PingPongDirection::Right => ActionKeyDirection::Right,
            },
            with: ActionKeyWith::Any,
            wait_before_use_ticks: ping_pong.wait_before_ticks,
            wait_after_use_ticks: ping_pong.wait_after_ticks,
            timeout: Timeout::spec_default(),
        }
    }

    /// The use of the key of a key action, not begun.
    pub fn from_key(key: Key) -> (use_key: UseKey)
        ensures
            use_key == UseKey::spec_from_key(key),
    {
        UseKey {
            key: key.key,
            link_key: key.link_key,
            count: key.count,
            current_count: 0,
            direction: key.direction,
            with: key.with,
            wait_before_use_ticks: key.wait_before_use_ticks,
            wait_after_use_ticks: key.wait_after_use_ticks,
            timeout: Timeout::default(),
        }
    }

    /// The use of the key of an auto-mob action, facing `direction`, not begun.
    pub fn from_auto_mob(mob: AutoMob, direction: ActionKeyDirection) -> (use_key: UseKey)
        ensures
            use_key == UseKey::spec_from_auto_mob(mob, direction),
    {
        UseKey {
            key: mob.key,
            link_key: mob.link_key,
            count: mob.count,
            current_count: 0,
            direction,
            with: mob.with,
            wait_before_use_ticks: mob.wait_before_ticks,
            wait_after_use_ticks: mob.wait_after_ticks,
            timeout: Timeout::default(),
        }
    }

    /// The use of the key of a ping-pong action, facing the way of the patrol,
    /// not begun.
    pub fn from_ping_pong(ping_pong: PingPong) -> (use_key: UseKey)
        ensures
            use_key == UseKey::spec_from_ping_pong(ping_pong),
    {
        let direction = match ping_pong.direction {
            PingPongDirection::Left => ActionKeyDirection::Left,
            PingPongDirection::Right => ActionKeyDirection::Right,
        };
        UseKey {
            key: ping_pong.key,
            link_key: ping_pong.link_key,
            count: ping_pong.count,
            current_count: 0,
            direction,
            with: ActionKeyWith::Any,
            wait_before_use_ticks: ping_pong.wait_before_ticks,
            wait_after_use_ticks: ping_pong.wait_after_ticks,
            timeout: Timeout::default(),
        }
    }
}

/// The arrow key that turns the player to `direction`, if the player has to
/// turn: the direction is a side and not the side that the player faces.
pub open spec fn spec_turn_key(context: PlayerContext, direction: ActionKeyDirection) -> Option<
    KeyKind,
> {
    if direction == context.last_known_direction {
        None
    } else {
        match direction {
            ActionKeyDirection::Left => Some(KeyKind::Left),
            ActionKeyDirection::Right => Some(KeyKind::Right),
            ActionKeyDirection::Any => None,
        }
    }
}

/// The events of one press of `key` with its link: a key linked at the same
/// time goes first, one linked after goes last, and one linked along is held
/// around the press. A key linked before was pressed when the wait began.
pub open spec fn spec_press(key: KeyKind, link_key: Option<LinkKey>) -> Seq<InputEvent> {
    match link_key {
        Some(LinkKey::AtTheSame(link)) => seq![InputEvent::Key(link), InputEvent::Key(key)],
        Some(LinkKey::After(link)) => seq![InputEvent::Key(key), InputEvent::Key(link)],
        Some(LinkKey::Along(link)) => seq![
            key_down(link),
            InputEvent::Key(key),
            InputEvent::KeyUp(link),
        ],
        _ => seq![InputEvent::Key(key)],
    }
}

/// The number of presses after one more: it stops at `u32::MAX`.
pub open spec fn spec_pressed(current_count: u32) -> u32 {
    if current_count < u32::MAX {
        (current_count + 1) as u32
    } else {
        current_count
    }
}

/// What one tick of using a key does.
///
/// A key that is used while stationary waits until the player is. A player
/// that faces the wrong side turns first, with one tap of the arrow key. Then
/// each press waits its ticks, at whose start a key linked before is pressed.
/// After the last press the state waits as a stall if a wait is asked for, and
/// else idles and completes the head of the action queue.
pub open spec fn spec_update_use_key_state(player: PlayerEntity) -> Outcome {
    let use_key = player.state->UseKey_0;
    let context = player.context;
    if use_key.with == ActionKeyWith::Stationary && !context.is_stationary {
        player.unchanged()
    } else if spec_turn_key(context, use_key.direction) is Some {
        Outcome {
            state: player.state,
            context: PlayerContext { last_known_direction: use_key.direction, ..context },
            events: seq![InputEvent::Key(spec_turn_key(context, use_key.direction)->0)],
        }
    } else {
        match spec_next_timeout_lifecycle(use_key.timeout, use_key.wait_before_use_ticks) {
            Lifecycle::Started(timeout) => Outcome {
                state: Player::UseKey(UseKey { timeout, ..use_key }),
                context,
                events: match use_key.link_key {
                    Some(LinkKey::Before(link)) => seq![InputEvent::Key(link)],
                    _ => Seq::empty(),
                },
            },
            Lifecycle::Updated(timeout) => Outcome {
                state: Player::UseKey(UseKey { timeout, ..use_key }),
                context,
                events: Seq::empty(),
            },
            Lifecycle::Ended => {
                let pressed = spec_pressed(use_key.current_count);
                let events = spec_press(use_key.key, use_key.link_key);
                if pressed < use_key.count {
                    Outcome {
                        state: Player::UseKey(
                            UseKey {
                                current_count: pressed,
                                timeout: Timeout::spec_default(),
                                ..use_key
                            },
                        ),
                        context,
                        events,
                    }
                } else if use_key.wait_after_use_ticks > 0 {
                    Outcome {
                        state: Player::Stalling(
                            Timeout::spec_default(),
                            use_key.wait_after_use_ticks,
                        ),
                        context,
                        events,
                    }
                } else {
                    Outcome {
                        state: Player::Idle,
                        context: context.spec_clear_action_completed(),
                        events,
                    }
                }
            },
        }
    }
}

/// Updates the [`Player::UseKey`] contextual state.
pub fn update_use_key_state(resources: &mut Resources, player: &mut PlayerEntity)
    requires
        old(player).state is UseKey,
    ensures
        spec_update_use_key_state(*old(player)).reached(
            *old(resources),
            *final(resources),
            *final(player),
        ),
{
    let use_key = match player.state {
        Player::UseKey(use_key) => use_key,
        _ => { return ; },
    };
    let ghost nothing = Seq::<InputEvent>::empty();
    let stationary_only = match use_key.with {
        ActionKeyWith::Stationary => true,
        _ => false,
    };
    if stationary_only && !player.context.is_stationary {
        assert(resources.input@ =~= old(resources).input@ + nothing);
        return ;
    }
    let turn_key = if use_key.direction == player.context.last_known_direction {
        None
    } else {
        match use_key.direction {
            ActionKeyDirection::Left => Some(KeyKind::Left),
            ActionKeyDirection::Right => Some(KeyKind::Right),
            ActionKeyDirection::Any => None,
        }
    };
    match turn_key {
        Some(key) => {
            resources.input.send_key(key);
            player.context.last_known_direction = use_key.direction;
            transition(player, Player::UseKey(use_key));
            assert(resources.input@ =~= old(resources).input@ + seq![InputEvent::Key(key)]);
            return ;
        },
        None => {},
    }
    match next_timeout_lifecycle(use_key.timeout, use_key.wait_before_use_ticks) {
        Lifecycle::Started(timeout) => {
            match use_key.link_key {
                Some(LinkKey::Before(link)) => {
                    resources.input.send_key(link);
                    assert(resources.input@ =~= old(resources).input@ + seq![
                        InputEvent::Key(link),
                    ]);
                },
                _ => {
                    assert(resources.input@ =~= old(resources).input@ + nothing);
                },
            }
            transition(player, Player::UseKey(UseKey { timeout, ..use_key }));
        },
        Lifecycle::Updated(timeout) => {
            transition(player, Player::UseKey(UseKey { timeout, ..use_key }));
            assert(resources.input@ =~= old(resources).input@ + nothing);
        },
        Lifecycle::Ended => {
            match use_key.link_key {
                Some(LinkKey::AtTheSame(link)) => {
                    resources.input.send_key(link);
                    resources.input.send_key(use_key.key);
                    assert(resources.input@ =~= old(resources).input@ + seq![
                        InputEvent::Key(link),
                        InputEvent::Key(use_key.key),
                    ]);
                },
                Some(LinkKey::After(link)) => {
                    resources.input.send_key(use_key.key);
                    resources.input.send_key(link);
                    assert(resources.input@ =~= old(resources).input@ + seq![
                        InputEvent::Key(use_key.key),
                        InputEvent::Key(link),
                    ]);
                },
                Some(LinkKey::Along(link)) => {
                    resources.input.send_key_down(link);
                    resources.input.send_key(use_key.key);
                    resources.input.send_key_up(link);
                    assert(resources.input@ =~= old(resources).input@ + seq![
                        key_down(link),
                        InputEvent::Key(use_key.key),
                        InputEvent::KeyUp(link),
                    ]);
                },
                _ => {
                    resources.input.send_key(use_key.key);
                    assert(resources.input@ =~= old(resources).input@ + seq![
                        InputEvent::Key(use_key.key),
                    ]);
                },
            }
            let pressed: u32 = if use_key.current_count < u32::MAX {
                use_key.current_count + 1
            } else {
                use_key.current_count
            };
            if pressed < use_key.count {
                transition(
                    player,
                    Player::UseKey(
                        UseKey { current_count: pressed, timeout: Timeout::default(), ..use_key },
                    ),
                );
            } else if use_key.wait_after_use_ticks > 0 {
                transition(
                    player,
                    Player::Stalling(Timeout::default(), use_key.wait_after_use_ticks),
                );
            } else {
                transition_from_action(player, Player::Idle, true);
            }
        },
    }
}

/// While the use goes on, a tick leaves the count of presses as it is or adds
/// one, which stays below the number asked for; the key and the number asked
/// for stay the same; and a wait that has not passed its length does not pass
/// it.
pub proof fn lemma_presses_are_counted(player: PlayerEntity)
    requires
        player.state is UseKey,
    ensures
        ({
            let use_key = player.state->UseKey_0;
            spec_update_use_key_state(player).state matches Player::UseKey(next) ==> {
                &&& (next.current_count == use_key.current_count || (next.current_count
                    == use_key.current_count + 1 && next.current_count < next.count))
                &&& next.count == use_key.count
                &&& next.key == use_key.key
                &&& use_key.timeout.current <= use_key.wait_before_use_ticks
                    ==> next.timeout.current <= next.wait_before_use_ticks
            }
        }),
{
}

} // verus!
