//! The state that frees a player that is stuck.
use vstd::prelude::*;

use crate::bridge::{held_down, key_down, released, InputEvent, InputKeyDownOptions, KeyKind};
use crate::ecs::Resources;
use crate::geometry::Point;
use crate::minimap::{Minimap, MinimapIdle};
use crate::player::actions::{next_action, PlayerAction};
use crate::player::moving::MOVE_TIMEOUT;
use crate::player::state::PlayerContext;
use crate::player::timeout::{
    next_timeout_lifecycle, spec_next_timeout_lifecycle, Lifecycle, Timeout,
};
use crate::player::{
    spec_outcome_bounded, spec_stash_bounded, transition, transition_from_action, Outcome, Player,
    PlayerEntity,
};
use crate::rng::Rng;

verus! {

/// How the player is freed.
#[derive(Debug, Clone, Copy, PartialEq, Eq, Structural)]
pub enum UnstuckingKind {
    /// By closing whatever dialog is open.
    Esc,
    /// By moving away, in a random direction if `random` is set.
    Movement { timeout: Timeout, random: bool },
}

/// An attempt to free the player.
#[derive(Debug, Clone, Copy, PartialEq, Eq, Structural)]
pub struct Unstucking {
    pub kind: UnstuckingKind,
}

impl Unstucking {
    pub fn new_esc() -> (unstucking: Unstucking)
        ensures
            unstucking == (Unstucking { kind: UnstuckingKind::Esc }),
    {
        Unstucking { kind: UnstuckingKind::Esc }
    }

    pub fn new_movement(timeout: Timeout, random: bool) -> (unstucking: Unstucking)
        ensures
            unstucking == (Unstucking { kind: UnstuckingKind::Movement { timeout, random } }),
    {
        Unstucking { kind: UnstuckingKind::Movement { timeout, random } }
    }

    /// The attempt turned into a movement with `timeout` and `random`.
    pub fn movement(self, timeout: Timeout, random: bool) -> (unstucking: Unstucking)
        ensures
            unstucking == (Unstucking { kind: UnstuckingKind::Movement { timeout, random } }),
    {
        Unstucking { kind: UnstuckingKind::Movement { timeout, random } }
    }
}

/// A threshold to consider spamming falling action
///
/// This is when the player is inside the top edge of minimap. At least for higher level maps, this
/// seems rare but one possible map is The Forest Of Earth in Arcana.
pub const Y_IGNORE_THRESHOLD: i32 = 18;

/// The player's position measured from the top edge of the minimap, if the
/// player's position is known.
pub open spec fn spec_pos_from_top(context: PlayerContext, idle: MinimapIdle) -> Option<(int, int)> {
    match context.last_known_pos {
        Some(pos) => Some((pos.x as int, idle.bbox.height - pos.y)),
        None => None,
    }
}

/// What one tick of moving away does.
///
/// The direction is random if the attempt asks for it or the position is not
/// known. The first tick chooses the side: by the coin if random; none at all,
/// keeping still, near the top edge; else toward the far half of the map. To
/// go right the right key is held, to go left the left key is released. Later
/// ticks press the jump key unless the player is near the top edge. Past the
/// deadline both horizontal keys are released and the player is looked for
/// again.
pub open spec fn spec_update_movement(
    context: PlayerContext,
    idle: MinimapIdle,
    rng: Rng,
    timeout: Timeout,
    random: bool,
) -> Outcome {
    let pos = spec_pos_from_top(context, idle);
    let random = random || pos is None;
    let near_top = pos matches Some((_, y)) && y <= Y_IGNORE_THRESHOLD;
    match spec_next_timeout_lifecycle(timeout, MOVE_TIMEOUT) {
        Lifecycle::Started(timeout) => {
            let state = Player::Unstucking(
                Unstucking { kind: UnstuckingKind::Movement { timeout, random } },
            );
            if !random && near_top {
                Outcome { state, context, events: Seq::empty() }
            } else {
                let (x, _) = pos->0;
                let to_right = if random {
                    rng.coin
                } else {
                    x <= idle.bbox.width / 2
                };
                Outcome {
                    state,
                    context,
                    events: if to_right {
                        seq![key_down(KeyKind::Right)]
                    } else {
                        seq![InputEvent::KeyUp(KeyKind::Left)]
                    },
                }
            }
        },
        Lifecycle::Ended => Outcome {
            state: Player::Detecting,
            context,
            events: seq![InputEvent::KeyUp(KeyKind::Right), InputEvent::KeyUp(KeyKind::Left)],
        },
        Lifecycle::Updated(timeout) => Outcome {
            state: Player::Unstucking(
                Unstucking { kind: UnstuckingKind::Movement { timeout, random } },
            ),
            context,
            events: if random || !near_top {
                seq![InputEvent::Key(context.config.jump_key)]
            } else {
                Seq::empty()
            },
        },
    }
}

/// What one tick of an attempt to free the player does.
///
/// Without a known minimap the player is looked for again. Else an attempt by
/// the escape key taps it once, completes an unstuck action at the head of the
/// queue and has the player looked for again, and an attempt by movement moves
/// away.
pub open spec fn spec_update_unstucking_state(
    player: PlayerEntity,
    minimap_state: Minimap,
    rng: Rng,
) -> Outcome {
    let context = player.context;
    match minimap_state {
        Minimap::Detecting => Outcome { state: Player::Detecting, context, events: Seq::empty() },
        Minimap::Idle(idle) => match player.state->Unstucking_0.kind {
            UnstuckingKind::Esc => Outcome {
                state: Player::Detecting,
                context: if context.spec_next_action() == Some(PlayerAction::Unstuck) {
                    context.spec_clear_action_completed()
                } else {
                    context
                },
                events: seq![InputEvent::Key(KeyKind::Esc)],
            },
            UnstuckingKind::Movement { timeout, random } => spec_update_movement(
                context,
                idle,
                rng,
                timeout,
                random,
            ),
        },
    }
}

/// Updates the [`Player::Unstucking`] contextual state
///
/// This state can only be transitioned to when the unstuck counter reached the fixed
/// threshold, when the player moved into the edges of the minimap or rotator detected an UI
/// element blocking the player.
/// If the consecutive unstuck counter has not reached the threshold and the player
/// moved into the left/right/top edges of the minimap, it will try to move
/// out as appropriate. It will also try to press ESC key to exit any dialog.
pub fn update_unstucking_state(
    resources: &mut Resources,
    player: &mut PlayerEntity,
    minimap_state: Minimap,
)
    requires
        old(player).state is Unstucking,
        minimap_state.in_range(),
        old(player).context.last_known_pos matches Some(pos) ==> pos.in_range(),
    ensures
        spec_update_unstucking_state(*old(player), minimap_state, old(resources).rng).reached(
            *old(resources),
            *final(resources),
            *final(player),
        ),
{
    let unstucking = match player.state {
        Player::Unstucking(unstucking) => unstucking,
        _ => { return ; },
    };
    let ghost nothing = Seq::<InputEvent>::empty();
    let idle = match minimap_state {
        Minimap::Idle(idle) => idle,
        Minimap::Detecting => {
            transition(player, Player::Detecting);
            assert(resources.input@ =~= old(resources).input@ + nothing);
            return ;
        },
    };

    match unstucking.kind {
        UnstuckingKind::Esc => {
            resources.input.send_key(KeyKind::Esc);
            assert(resources.input@ =~= old(resources).input@ + seq![InputEvent::Key(KeyKind::Esc)]);

            match next_action(&player.context) {
                Some(PlayerAction::Unstuck) => transition_from_action(player, Player::Detecting, true),
                Some(_) | None => transition(player, Player::Detecting),
            }
        },
        UnstuckingKind::Movement { timeout, random } => {
            let pos = match player.context.last_known_pos {
                Some(pos) => Some(Point::new(pos.x, idle.bbox.height - pos.y)),
                None => None,
            };
            let random = random || pos.is_none();

            match next_timeout_lifecycle(timeout, MOVE_TIMEOUT) {
                Lifecycle::Started(timeout) => {
                    let to_right = match (random, pos) {
                        (true, _) => resources.rng.random_bool(),
                        (_, Some(pos)) => {
                            if pos.y <= Y_IGNORE_THRESHOLD {
                                transition(
                                    player,
                                    Player::Unstucking(unstucking.movement(timeout, random)),
                                );
                                assert(resources.input@ =~= old(resources).input@ + nothing);
                                return ;
                            }
                            pos.x <= idle.bbox.width / 2
                        },
                        (_, None) => { return ; },
                    };
                    if to_right {
                        resources.input.send_key_down(KeyKind::Right);
                        assert(resources.input@ =~= old(resources).input@ + seq![
                            key_down(KeyKind::Right),
                        ]);
                    } else {
                        resources.input.send_key_up(KeyKind::Left);
                        assert(resources.input@ =~= old(resources).input@ + seq![
                            InputEvent::KeyUp(KeyKind::Left),
                        ]);
                    }
                    transition(player, Player::Unstucking(unstucking.movement(timeout, random)));
                },
                Lifecycle::Ended => {
                    resources.input.send_key_up(KeyKind::Right);
                    resources.input.send_key_up(KeyKind::Left);
                    transition(player, Player::Detecting);
                    assert(resources.input@ =~= old(resources).input@ + seq![
                        InputEvent::KeyUp(KeyKind::Right),
                        InputEvent::KeyUp(KeyKind::Left),
                    ]);
                },
                Lifecycle::Updated(timeout) => {
                    let send_space = match (random, pos) {
                        (true, _) => true,
                        (_, Some(pos)) => pos.y > Y_IGNORE_THRESHOLD,
                        _ => false,
                    };
                    if send_space {
                        resources.input.send_key(player.context.config.jump_key);
                        assert(resources.input@ =~= old(resources).input@ + seq![
                            InputEvent::Key(old(player).context.config.jump_key),
                        ]);
                    } else {
                        assert(resources.input@ =~= old(resources).input@ + nothing);
                    }
                    transition(player, Player::Unstucking(unstucking.movement(timeout, random)));
                },
            }
        },
    }
}

/// Without a known minimap an attempt is given up at once: the player is
/// looked for again and no key is sent.
pub proof fn lemma_aborts_when_minimap_unknown(player: PlayerEntity, rng: Rng)
    requires
        player.state is Unstucking,
    ensures
        ({
            let outcome = spec_update_unstucking_state(player, Minimap::Detecting, rng);
            &&& outcome.state is Detecting
            &&& outcome.context == player.context
            &&& outcome.events == Seq::<InputEvent>::empty()
        }),
{
}

/// Whatever directional key any tick of moving away holds down, the tick that
/// ends it releases.
pub proof fn lemma_ended_releases_held_keys(
    any: PlayerEntity,
    any_minimap: Minimap,
    ended: PlayerEntity,
    ended_idle: MinimapIdle,
    rng: Rng,
)
    requires
        any.state is Unstucking,
        ended.state matches Player::Unstucking(unstucking) && (unstucking.kind
            matches UnstuckingKind::Movement { timeout, .. } && timeout.started && timeout.current
            >= MOVE_TIMEOUT),
    ensures
        held_down(spec_update_unstucking_state(any, any_minimap, rng).events).subset_of(
            released(spec_update_unstucking_state(ended, Minimap::Idle(ended_idle), rng).events),
        ),
{
    let events = spec_update_unstucking_state(any, any_minimap, rng).events;
    let last = spec_update_unstucking_state(ended, Minimap::Idle(ended_idle), rng).events;
    assert(last == seq![InputEvent::KeyUp(KeyKind::Right), InputEvent::KeyUp(KeyKind::Left)]);
    assert(last[0] == InputEvent::KeyUp(KeyKind::Right));
    assert(released(last).contains(KeyKind::Right));
    assert forall|key: KeyKind| held_down(events).contains(key) implies key == KeyKind::Right by {
        let (i, options) = choose|i: int, options: InputKeyDownOptions|
            0 <= i < events.len() && events[i] == InputEvent::KeyDown(key, options);
        assert(events[i] == InputEvent::KeyDown(key, options));
    }
}

/// A tick of an attempt to free the player writes no state that has passed
/// its deadline.
pub proof fn lemma_timeout_bounded(player: PlayerEntity, minimap_state: Minimap, rng: Rng)
    requires
        player.state is Unstucking,
        spec_stash_bounded(player.context),
    ensures
        spec_outcome_bounded(spec_update_unstucking_state(player, minimap_state, rng)),
{
}

/// The count of all ticks of a movement stays at or above the count toward
/// the deadline where it was so before.
pub proof fn lemma_total_stays_above_current(
    player: PlayerEntity,
    minimap_state: Minimap,
    rng: Rng,
)
    requires
        player.state matches Player::Unstucking(unstucking) && (unstucking.kind
            matches UnstuckingKind::Movement { timeout, .. } && timeout.total >= timeout.current),
    ensures
        spec_update_unstucking_state(player, minimap_state, rng).state matches Player::Unstucking(
            next,
        ) ==> (next.kind matches UnstuckingKind::Movement { timeout, .. } && timeout.total
            >= timeout.current),
{
}

} // verus!
