//! The procedure that uses a booster.
use vstd::prelude::*;

use crate::bridge::{InputEvent, KeyKind};
use crate::detect::Detector;
use crate::ecs::Resources;
use crate::player::actions::{next_action, Booster};
use crate::player::state::PlayerContext;
use crate::player::timeout::{
    next_timeout_lifecycle, spec_next_timeout_lifecycle, Lifecycle, Timeout,
};
use crate::player::{transition, transition_from_action, Outcome, Player, PlayerEntity};

verus! {

/// Ticks that the use of the booster's key lasts.
pub const TIMEOUT_USING: u32 = 120;

/// Tick at which the booster's key is pressed.
pub const PRESS_KEY_AT: u32 = 60;

/// Ticks that the confirmation lasts.
pub const TIMEOUT_CONFIRMING: u32 = 30;

/// Tick of the confirmation at which left is pressed a second time.
pub const PRESS_LEFT_AT: u32 = 15;

/// Ticks to wait before the procedure is done.
pub const TIMEOUT_COMPLETING: u32 = 15;

/// States of using booster.
#[derive(Debug, Clone, Copy, PartialEq, Eq, Structural)]
pub enum State {
    Using(Timeout),
    Confirming(Timeout),
    Completing { timeout: Timeout, completed: bool, failed: bool },
}

/// The use of a booster of `kind`.
#[derive(Debug, Clone, Copy, PartialEq, Eq, Structural)]
pub struct UsingBooster {
    pub state: State,
    pub kind: Booster,
}

impl UsingBooster {
    pub fn new(kind: Booster) -> (using: UsingBooster)
        ensures
            using == (UsingBooster { state: State::Using(Timeout::spec_default()), kind }),
    {
        UsingBooster { state: State::Using(Timeout::default()), kind }
    }
}

/// The key that uses a booster of `kind`.
pub open spec fn spec_booster_key(context: PlayerContext, kind: Booster) -> KeyKind {
    match kind {
        Booster::Vip => context.config.vip_booster_key,
        Booster::Hexa => context.config.hexa_booster_key,
    }
}

/// Using: the key is pressed at its tick. At the deadline the dialog is
/// confirmed if it shows, and else the procedure goes on to its end as failed.
pub open spec fn spec_update_using(detector: Detector, state: State, key: KeyKind) -> (
    State,
    Seq<InputEvent>,
) {
    match spec_next_timeout_lifecycle(state->Using_0, TIMEOUT_USING) {
        Lifecycle::Started(timeout) => (State::Using(timeout), Seq::empty()),
        Lifecycle::Ended => (
            if detector.admin_visible {
                State::Confirming(Timeout::spec_default())
            } else {
                State::Completing {
                    timeout: Timeout::spec_default(),
                    completed: false,
                    failed: true,
                }
            },
            Seq::empty(),
        ),
        Lifecycle::Updated(timeout) => (
            State::Using(timeout),
            if timeout.current == PRESS_KEY_AT {
                seq![InputEvent::Key(key)]
            } else {
                Seq::empty()
            },
        ),
    }
}

/// Confirming: left is pressed at the first tick and once more at its tick,
/// and enter at the deadline.
pub open spec fn spec_update_confirming(state: State) -> (State, Seq<InputEvent>) {
    match spec_next_timeout_lifecycle(state->Confirming_0, TIMEOUT_CONFIRMING) {
        Lifecycle::Started(timeout) => (
            State::Confirming(timeout),
            seq![InputEvent::Key(KeyKind::Left)],
        ),
        Lifecycle::Ended => (
            State::Completing { timeout: Timeout::spec_default(), completed: false, failed: false },
            seq![InputEvent::Key(KeyKind::Enter)],
        ),
        Lifecycle::Updated(timeout) => (
            State::Confirming(timeout),
            if timeout.current == PRESS_LEFT_AT {
                seq![InputEvent::Key(KeyKind::Left)]
            } else {
                Seq::empty()
            },
        ),
    }
}

/// Completing: at the deadline the procedure is done, and a settings menu that
/// shows is closed with the escape key.
pub open spec fn spec_update_completing(detector: Detector, state: State) -> (
    State,
    Seq<InputEvent>,
) {
    let timeout = state->Completing_timeout;
    let completed = state->Completing_completed;
    let failed = state->Completing_failed;
    match spec_next_timeout_lifecycle(timeout, TIMEOUT_COMPLETING) {
        Lifecycle::Started(timeout) => (
            State::Completing { timeout, completed, failed },
            Seq::empty(),
        ),
        Lifecycle::Updated(timeout) => (
            State::Completing { timeout, completed, failed },
            Seq::empty(),
        ),
        Lifecycle::Ended => (
            State::Completing { timeout, completed: true, failed },
            if detector.esc_settings {
                seq![InputEvent::Key(KeyKind::Esc)]
            } else {
                Seq::empty()
            },
        ),
    }
}

/// What one tick does to the step of a use: the next step and the keys sent.
pub open spec fn spec_update_step(detector: Detector, state: State, key: KeyKind) -> (
    State,
    Seq<InputEvent>,
) {
    match state {
        State::Using(_) => spec_update_using(detector, state, key),
        State::Confirming(_) => spec_update_confirming(state),
        State::Completing { .. } => spec_update_completing(detector, state),
    }
}

/// What one tick of using a booster does.
///
/// The step is taken. A use that is done counts as a failure or clears the
/// count of failures, idles, and completes the action that asked for it. A
/// use that no action asked for is given up: the player idles.
pub open spec fn spec_update_using_booster_state(detector: Detector, player: PlayerEntity) -> Outcome {
    let using = player.state->UsingBooster_0;
    let (state, events) = spec_update_step(
        detector,
        using.state,
        spec_booster_key(player.context, using.kind),
    );
    let done = state matches State::Completing { completed: true, .. };
    let failed = state matches State::Completing { failed: true, .. };
    let counted = if !done {
        player.context
    } else if failed {
        player.context.spec_track_vip_booster_fail_count()
    } else {
        PlayerContext { vip_booster_fail_count: 0, ..player.context }
    };
    let has_action = player.context.spec_next_action() is Some;
    Outcome {
        state: if done || !has_action {
            Player::Idle
        } else {
            Player::UsingBooster(UsingBooster { state, kind: using.kind })
        },
        context: if done && has_action {
            counted.spec_clear_action_completed()
        } else {
            counted
        },
        events,
    }
}

/// Updates [`Player::UsingBooster`] contextual state.
pub fn update_using_booster_state(resources: &mut Resources, player: &mut PlayerEntity)
    requires
        old(player).state is UsingBooster,
    ensures
        spec_update_using_booster_state(old(resources).detector, *old(player)).reached(
            *old(resources),
            *final(resources),
            *final(player),
        ),
{
    let mut using = match player.state {
        Player::UsingBooster(using) => using,
        _ => { return ; },
    };
    let key = match using.kind {
        Booster::Vip => player.context.config.vip_booster_key,
        Booster::Hexa => player.context.config.hexa_booster_key,
    };

    match using.state {
        State::Using(_) => update_using(resources, &mut using, key),
        State::Confirming(_) => update_confirming(resources, &mut using),
        State::Completing { .. } => update_completing(resources, &mut using),
    };

    let is_terminal = match using.state {
        State::Completing { completed: true, .. } => true,
        _ => false,
    };
    let player_next_state = if is_terminal {
        Player::Idle
    } else {
        Player::UsingBooster(using)
    };
    if is_terminal {
        let failed = match using.state {
            State::Completing { failed: true, .. } => true,
            _ => false,
        };
        if failed {
            player.context.track_vip_booster_fail_count();
        } else {
            player.context.clear_vip_booster_fail_count();
        }
    }

    match next_action(&player.context) {
        Some(_) => transition_from_action(player, player_next_state, is_terminal),
        None => transition(
            player,
            Player::Idle,  // Force cancel if it is not initiated from an action
        ),
    }
}

fn update_using(resources: &mut Resources, using: &mut UsingBooster, key: KeyKind)
    requires
        old(using).state is Using,
    ensures
        ({
            let (state, events) = spec_update_using(
                old(resources).detector,
                old(using).state,
                key,
            );
            &&& final(using).state == state
            &&& final(using).kind == old(using).kind
            &&& final(resources).sent(*old(resources), events)
        }),
{
    let timeout = match using.state {
        State::Using(timeout) => timeout,
        _ => { return ; },
    };
    let ghost nothing = Seq::<InputEvent>::empty();

    match next_timeout_lifecycle(timeout, TIMEOUT_USING) {
        Lifecycle::Started(timeout) => {
            using.state = State::Using(timeout);
            assert(resources.input@ =~= old(resources).input@ + nothing);
        },
        Lifecycle::Ended => {
            using.state = if resources.detector.detect_admin_visible() {
                State::Confirming(Timeout::default())
            } else {
                State::Completing { timeout: Timeout::default(), completed: false, failed: true }
            };
            assert(resources.input@ =~= old(resources).input@ + nothing);
        },
        Lifecycle::Updated(timeout) => {
            if timeout.current == PRESS_KEY_AT {
                resources.input.send_key(key);
                assert(resources.input@ =~= old(resources).input@ + seq![InputEvent::Key(key)]);
            } else {
                assert(resources.input@ =~= old(resources).input@ + nothing);
            }
            using.state = State::Using(timeout);
        },
    }
}

fn update_confirming(resources: &mut Resources, using: &mut UsingBooster)
    requires
        old(using).state is Confirming,
    ensures
        ({
            let (state, events) = spec_update_confirming(old(using).state);
            &&& final(using).state == state
            &&& final(using).kind == old(using).kind
            &&& final(resources).sent(*old(resources), events)
        }),
{
    let timeout = match using.state {
        State::Confirming(timeout) => timeout,
        _ => { return ; },
    };
    let ghost nothing = Seq::<InputEvent>::empty();

    match next_timeout_lifecycle(timeout, TIMEOUT_CONFIRMING) {
        Lifecycle::Started(timeout) => {
            resources.input.send_key(KeyKind::Left);
            using.state = State::Confirming(timeout);
            assert(resources.input@ =~= old(resources).input@ + seq![
                InputEvent::Key(KeyKind::Left),
            ]);
        },
        Lifecycle::Ended => {
            resources.input.send_key(KeyKind::Enter);
            using.state = State::Completing {
                timeout: Timeout::default(),
                completed: false,
                failed: false,
            };
            assert(resources.input@ =~= old(resources).input@ + seq![
                InputEvent::Key(KeyKind::Enter),
            ]);
        },
        Lifecycle::Updated(timeout) => {
            if timeout.current == PRESS_LEFT_AT {
                resources.input.send_key(KeyKind::Left);
                assert(resources.input@ =~= old(resources).input@ + seq![
                    InputEvent::Key(KeyKind::Left),
                ]);
            } else {
                assert(resources.input@ =~= old(resources).input@ + nothing);
            }
            using.state = State::Confirming(timeout);
        },
    }
}

fn update_completing(resources: &mut Resources, using: &mut UsingBooster)
    requires
        old(using).state is Completing,
    ensures
        ({
            let (state, events) = spec_update_completing(
                old(resources).detector,
                old(using).state,
            );
            &&& final(using).state == state
            &&& final(using).kind == old(using).kind
            &&& final(resources).sent(*old(resources), events)
        }),
{
    let (timeout, completed, failed) = match using.state {
        State::Completing { timeout, completed, failed } => (timeout, completed, failed),
        _ => { return ; },
    };
    let ghost nothing = Seq::<InputEvent>::empty();

    match next_timeout_lifecycle(timeout, TIMEOUT_COMPLETING) {
        Lifecycle::Started(timeout) | Lifecycle::Updated(timeout) => {
            using.state = State::Completing { timeout, completed, failed };
            assert(resources.input@ =~= old(resources).input@ + nothing);
        },
        Lifecycle::Ended => {
            if resources.detector.detect_esc_settings() {
                resources.input.send_key(KeyKind::Esc);
                assert(resources.input@ =~= old(resources).input@ + seq![
                    InputEvent::Key(KeyKind::Esc),
                ]);
            } else {
                assert(resources.input@ =~= old(resources).input@ + nothing);
            }
            using.state = State::Completing { timeout, completed: true, failed };
        },
    }
}

/// A use fails only when the dialog does not show at the end of using, and a
/// failure is kept to the end: a tick sets the failure at that point alone and
/// never takes it back.
pub proof fn lemma_failure_is_kept(detector: Detector, state: State, key: KeyKind)
    ensures
        ({
            let next = spec_update_step(detector, state, key).0;
            let failed_before = state matches State::Completing { failed: true, .. };
            let failed_after = next matches State::Completing { failed: true, .. };
            &&& failed_before ==> failed_after
            &&& failed_after && !failed_before ==> state is Using && !detector.admin_visible
        }),
{
}

} // verus!
