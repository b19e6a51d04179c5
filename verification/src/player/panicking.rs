//! The procedure that takes the player out of harm's way.
use vstd::prelude::*;

use crate::bridge::{InputEvent, KeyKind};
use crate::detect::Detector;
use crate::ecs::Resources;
use crate::minimap::Minimap;
use crate::player::actions::{next_action, PanicTo};
use crate::player::timeout::{
    next_timeout_lifecycle, spec_next_timeout_lifecycle, Lifecycle, Timeout,
};
use crate::player::{
    transition_from_action, transition_if, try_some_transition, Outcome, Player, PlayerEntity,
};

verus! {

/// Times a step is tried again before the procedure gives up.
pub const MAX_RETRY: u32 = 3;

/// Tick of a later try at which the channel list is moved to the right.
pub const PRESS_RIGHT_AT_AFTER: u32 = 15;

/// Tick of a later try at which the channel is confirmed.
pub const PRESS_ENTER_AT_AFTER: u32 = 30;

/// Ticks that a later try of changing channel lasts.
pub const TIMEOUT_AFTER: u32 = 50;

/// Ticks that the first try of changing channel lasts.
pub const TIMEOUT_INITIAL: u32 = 220;

/// Tick of the first try at which the channel list is moved to the right.
pub const PRESS_RIGHT_AT_INITIAL: u32 = 170;

/// Tick of the first try at which the channel is confirmed.
pub const PRESS_ENTER_AT_INITIAL: u32 = 200;

/// Ticks that a try of going to town lasts.
pub const TIMEOUT_TOWN: u32 = 90;

/// Ticks to wait for the new channel to show.
pub const TIMEOUT_COMPLETING: u32 = 245;

/// States of panicking mode.
#[derive(Debug, Clone, Copy, PartialEq, Eq, Structural)]
pub enum State {
    /// Cycling through channels: the deadline and the retries so far.
    ChangingChannel(Timeout, u32),
    /// Going to town: the deadline and the retries so far.
    GoingToTown(Timeout, u32),
    /// Waiting for the outcome: the deadline and whether it is done.
    Completing(Timeout, bool),
}

/// A flight to another channel or to town.
#[derive(Debug, Clone, Copy, PartialEq, Eq, Structural)]
pub struct Panicking {
    pub state: State,
    pub to: PanicTo,
}

impl Panicking {
    /// The flight to `to`, not begun.
    pub open spec fn spec_new(to: PanicTo) -> Panicking {
        Panicking {
            state: match to {
                PanicTo::Channel => State::ChangingChannel(Timeout::spec_default(), 0),
                PanicTo::Town => State::GoingToTown(Timeout::spec_default(), 0),
            },
            to,
        }
    }

    pub fn new(to: PanicTo) -> (panicking: Panicking)
        ensures
            panicking == Panicking::spec_new(to),
    {
        Panicking {
            state: match to {
                PanicTo::Channel => State::ChangingChannel(Timeout::default(), 0),
                PanicTo::Town => State::GoingToTown(Timeout::default(), 0),
            },
            to,
        }
    }
}

/// The length of a try of changing channel: the first try is longer, as the
/// menu has to open first.
pub open spec fn spec_channel_timeout(retry_count: u32) -> u32 {
    if retry_count == 0 {
        TIMEOUT_INITIAL
    } else {
        TIMEOUT_AFTER
    }
}

/// The key that a tick of changing channel presses at `tick`, with the menu
/// open: right at one tick, enter at a later one.
pub open spec fn spec_channel_key_at(retry_count: u32, tick: u32) -> Option<KeyKind> {
    let (press_right_at, press_enter_at) = if retry_count == 0 {
        (PRESS_RIGHT_AT_INITIAL, PRESS_ENTER_AT_INITIAL)
    } else {
        (PRESS_RIGHT_AT_AFTER, PRESS_ENTER_AT_AFTER)
    };
    if tick == press_right_at {
        Some(KeyKind::Right)
    } else if tick == press_enter_at {
        Some(KeyKind::Enter)
    } else {
        None
    }
}

/// What one tick of changing channel does: the next step and the keys sent.
///
/// The first tick opens the menu with `key` unless it is open. Later ticks
/// press right and enter at their ticks, if the menu is open. At the deadline
/// a minimap that is not known means that the channel is changing, and the
/// outcome is waited for; else the change is tried again, up to
/// [`MAX_RETRY`] times, and then given up as done.
pub open spec fn spec_update_changing_channel(
    detector: Detector,
    state: State,
    minimap_state: Minimap,
    key: KeyKind,
) -> (State, Seq<InputEvent>) {
    let timeout = state->ChangingChannel_0;
    let retry_count = state->ChangingChannel_1;
    match spec_next_timeout_lifecycle(timeout, spec_channel_timeout(retry_count)) {
        Lifecycle::Started(timeout) => (
            State::ChangingChannel(timeout, retry_count),
            if !detector.change_channel_menu_opened {
                seq![InputEvent::Key(key)]
            } else {
                Seq::empty()
            },
        ),
        Lifecycle::Ended => (
            if !(minimap_state is Idle) {
                State::Completing(Timeout::spec_default(), false)
            } else if retry_count < MAX_RETRY {
                State::ChangingChannel(Timeout::spec_default(), (retry_count + 1) as u32)
            } else {
                State::Completing(Timeout::spec_default(), true)
            },
            Seq::empty(),
        ),
        Lifecycle::Updated(timeout) => (
            State::ChangingChannel(timeout, retry_count),
            match spec_channel_key_at(retry_count, timeout.current) {
                Some(pressed) => if detector.change_channel_menu_opened {
                    seq![InputEvent::Key(pressed)]
                } else {
                    Seq::empty()
                },
                None => Seq::empty(),
            },
        ),
    }
}

/// Takes one step of changing channel.
pub fn update_changing_channel(
    resources: &mut Resources,
    panicking: &mut Panicking,
    minimap_state: Minimap,
    key: KeyKind,
)
    requires
        old(panicking).state is ChangingChannel,
    ensures
        ({
            let (state, events) = spec_update_changing_channel(
                old(resources).detector,
                old(panicking).state,
                minimap_state,
                key,
            );
            &&& final(panicking).state == state
            &&& final(panicking).to == old(panicking).to
            &&& final(resources).sent(*old(resources), events)
        }),
{
    let (timeout, retry_count) = match panicking.state {
        State::ChangingChannel(timeout, retry_count) => (timeout, retry_count),
        _ => { return ; },
    };
    let max_timeout: u32 = if retry_count == 0 {
        TIMEOUT_INITIAL
    } else {
        TIMEOUT_AFTER
    };
    let ghost nothing = Seq::<InputEvent>::empty();
    match next_timeout_lifecycle(timeout, max_timeout) {
        Lifecycle::Started(timeout) => {
            if !resources.detector.detect_change_channel_menu_opened() {
                resources.input.send_key(key);
                assert(resources.input@ =~= old(resources).input@ + seq![InputEvent::Key(key)]);
            } else {
                assert(resources.input@ =~= old(resources).input@ + nothing);
            }
            panicking.state = State::ChangingChannel(timeout, retry_count);
        },
        Lifecycle::Ended => {
            let known = match minimap_state {
                Minimap::Idle(_) => true,
                Minimap::Detecting => false,
            };
            panicking.state = if !known {
                State::Completing(Timeout::default(), false)
            } else if retry_count < MAX_RETRY {
                State::ChangingChannel(Timeout::default(), retry_count + 1)
            } else {
                State::Completing(Timeout::default(), true)
            };
            assert(resources.input@ =~= old(resources).input@ + nothing);
        },
        Lifecycle::Updated(timeout) => {
            let (press_right_at, press_enter_at) = if retry_count == 0 {
                (PRESS_RIGHT_AT_INITIAL, PRESS_ENTER_AT_INITIAL)
            } else {
                (PRESS_RIGHT_AT_AFTER, PRESS_ENTER_AT_AFTER)
            };
            let tick: u32 = timeout.current;
            if tick == press_right_at && resources.detector.detect_change_channel_menu_opened() {
                resources.input.send_key(KeyKind::Right);
                assert(resources.input@ =~= old(resources).input@ + seq![
                    InputEvent::Key(KeyKind::Right),
                ]);
            } else if tick != press_right_at && tick == press_enter_at
                && resources.detector.detect_change_channel_menu_opened() {
                resources.input.send_key(KeyKind::Enter);
                assert(resources.input@ =~= old(resources).input@ + seq![
                    InputEvent::Key(KeyKind::Enter),
                ]);
            } else {
                assert(resources.input@ =~= old(resources).input@ + nothing);
            }
            panicking.state = State::ChangingChannel(timeout, retry_count);
        },
    }
}

/// What one tick of going to town does: the next step and the keys sent.
///
/// The first tick presses `key`. At the deadline a confirm button on the
/// screen is answered with enter and the procedure is done; without one the
/// key is tried again, up to [`MAX_RETRY`] times, and then the procedure is
/// given up as done.
pub open spec fn spec_update_going_to_town(detector: Detector, state: State, key: KeyKind) -> (
    State,
    Seq<InputEvent>,
) {
    let timeout = state->GoingToTown_0;
    let retry_count = state->GoingToTown_1;
    match spec_next_timeout_lifecycle(timeout, TIMEOUT_TOWN) {
        Lifecycle::Started(timeout) => (
            State::GoingToTown(timeout, retry_count),
            seq![InputEvent::Key(key)],
        ),
        Lifecycle::Ended => {
            let has_confirm_button = detector.popup_confirm_button is Some;
            (
                if !has_confirm_button && retry_count < MAX_RETRY {
                    State::GoingToTown(Timeout::spec_default(), (retry_count + 1) as u32)
                } else {
                    State::Completing(Timeout::spec_default(), true)
                },
                if has_confirm_button {
                    seq![InputEvent::Key(KeyKind::Enter)]
                } else {
                    Seq::empty()
                },
            )
        },
        Lifecycle::Updated(timeout) => (State::GoingToTown(timeout, retry_count), Seq::empty()),
    }
}

/// Takes one step of going to town.
pub fn update_going_to_town(resources: &mut Resources, panicking: &mut Panicking, key: KeyKind)
    requires
        old(panicking).state is GoingToTown,
    ensures
        ({
            let (state, events) = spec_update_going_to_town(
                old(resources).detector,
                old(panicking).state,
                key,
            );
            &&& final(panicking).state == state
            &&& final(panicking).to == old(panicking).to
            &&& final(resources).sent(*old(resources), events)
        }),
{
    let (timeout, retry_count) = match panicking.state {
        State::GoingToTown(timeout, retry_count) => (timeout, retry_count),
        _ => { return ; },
    };
    let ghost nothing = Seq::<InputEvent>::empty();

    match next_timeout_lifecycle(timeout, TIMEOUT_TOWN) {
        Lifecycle::Started(timeout) => {
            resources.input.send_key(key);
            panicking.state = State::GoingToTown(timeout, retry_count);
            assert(resources.input@ =~= old(resources).input@ + seq![InputEvent::Key(key)]);
        },
        Lifecycle::Ended => {
            let has_confirm_button = resources.detector.detect_popup_confirm_button().is_ok();
            if has_confirm_button {
                resources.input.send_key(KeyKind::Enter);
                assert(resources.input@ =~= old(resources).input@ + seq![
                    InputEvent::Key(KeyKind::Enter),
                ]);
            } else {
                assert(resources.input@ =~= old(resources).input@ + nothing);
            }
            panicking.state = if !has_confirm_button && retry_count < MAX_RETRY {
                State::GoingToTown(Timeout::default(), retry_count + 1)
            } else {
                State::Completing(Timeout::default(), true)
            };
        },
        Lifecycle::Updated(timeout) => {
            panicking.state = State::GoingToTown(timeout, retry_count);
            assert(resources.input@ =~= old(resources).input@ + nothing);
        },
    }
}

/// What one tick of waiting for the outcome does.
///
/// A flight to town is done at once. A change of channel waits for its
/// deadline. Then, with the minimap known, it starts over if another player is
/// around and is done if none is; with the minimap not known it waits anew.
pub open spec fn spec_update_completing(panicking: Panicking, minimap_state: Minimap) -> State {
    let timeout = panicking.state->Completing_0;
    let completed = panicking.state->Completing_1;
    if panicking.to == PanicTo::Town {
        State::Completing(timeout, true)
    } else {
        match spec_next_timeout_lifecycle(timeout, TIMEOUT_COMPLETING) {
            Lifecycle::Ended => match minimap_state {
                Minimap::Idle(idle) => if idle.spec_has_any_other_player() {
                    State::ChangingChannel(Timeout::spec_default(), 0)
                } else {
                    State::Completing(timeout, true)
                },
                Minimap::Detecting => State::Completing(Timeout::spec_default(), false),
            },
            Lifecycle::Started(timeout) => State::Completing(timeout, completed),
            Lifecycle::Updated(timeout) => State::Completing(timeout, completed),
        }
    }
}

/// Takes one step of waiting for the outcome.
pub fn update_completing(panicking: &mut Panicking, minimap_state: Minimap)
    requires
        old(panicking).state is Completing,
    ensures
        final(panicking).state == spec_update_completing(*old(panicking), minimap_state),
        final(panicking).to == old(panicking).to,
{
    let (timeout, completed) = match panicking.state {
        State::Completing(timeout, completed) => (timeout, completed),
        _ => { return ; },
    };
    match panicking.to {
        PanicTo::Town => {
            panicking.state = State::Completing(timeout, true);
            return ;
        },
        PanicTo::Channel => {},
    }
    match next_timeout_lifecycle(timeout, TIMEOUT_COMPLETING) {
        Lifecycle::Ended => match minimap_state {
            Minimap::Idle(idle) => {
                panicking.state = if idle.has_any_other_player() {
                    State::ChangingChannel(Timeout::default(), 0)
                } else {
                    State::Completing(timeout, true)
                };
            },
            Minimap::Detecting => {
                panicking.state = State::Completing(Timeout::default(), false);
            },
        },
        Lifecycle::Started(timeout) | Lifecycle::Updated(timeout) => {
            panicking.state = State::Completing(timeout, completed);
        },
    }
}

/// What one tick does to the step of a flight: the next step and the keys
/// sent.
pub open spec fn spec_update_step(
    detector: Detector,
    panicking: Panicking,
    minimap_state: Minimap,
    change_channel_key: KeyKind,
    to_town_key: KeyKind,
) -> (State, Seq<InputEvent>) {
    match panicking.state {
        State::ChangingChannel(_, _) => spec_update_changing_channel(
            detector,
            panicking.state,
            minimap_state,
            change_channel_key,
        ),
        State::GoingToTown(_, _) => spec_update_going_to_town(
            detector,
            panicking.state,
            to_town_key,
        ),
        State::Completing(_, _) => (spec_update_completing(panicking, minimap_state), Seq::empty()),
    }
}

/// What one tick of a flight does.
///
/// Without both the key that changes channel and the key that goes to town,
/// the flight is given up: the head of the action queue is completed and the
/// player idles, with no key sent. Else the step is taken. A flight that is
/// done idles and completes the action that asked for it. A flight that no
/// action asked for goes on only if it leads to town.
pub open spec fn spec_update_panicking_state(
    detector: Detector,
    player: PlayerEntity,
    minimap_state: Minimap,
    panicking: Panicking,
) -> Outcome {
    let config = player.context.config;
    if config.change_channel_key is None || config.to_town_key is None {
        Outcome {
            state: Player::Idle,
            context: player.context.spec_clear_action_completed(),
            events: Seq::empty(),
        }
    } else {
        let (state, events) = spec_update_step(
            detector,
            panicking,
            minimap_state,
            config.change_channel_key->0,
            config.to_town_key->0,
        );
        let done = state matches State::Completing(_, true);
        let has_action = player.context.spec_next_action() is Some;
        Outcome {
            state: if done || (!has_action && panicking.to != PanicTo::Town) {
                Player::Idle
            } else {
                Player::Panicking(Panicking { state, to: panicking.to })
            },
            context: if has_action && done {
                player.context.spec_clear_action_completed()
            } else {
                player.context
            },
            events,
        }
    }
}

/// Updates [`Player::Panicking`] contextual state.
pub fn update_panicking_state(
    resources: &mut Resources,
    player: &mut PlayerEntity,
    minimap_state: Minimap,
    panicking: Panicking,
)
    ensures
        spec_update_panicking_state(
            old(resources).detector,
            *old(player),
            minimap_state,
            panicking,
        ).reached(*old(resources), *final(resources), *final(player)),
{
    let mut panicking = panicking;
    let ghost nothing = Seq::<InputEvent>::empty();
    let change_channel_key = match try_some_transition(
        player,
        Player::Idle,
        player.context.config.change_channel_key,
    ) {
        Some(key) => key,
        None => {
            assert(resources.input@ =~= old(resources).input@ + nothing);
            return ;
        },
    };
    let to_town_key = match try_some_transition(
        player,
        Player::Idle,
        player.context.config.to_town_key,
    ) {
        Some(key) => key,
        None => {
            assert(resources.input@ =~= old(resources).input@ + nothing);
            return ;
        },
    };

    match panicking.state {
        State::ChangingChannel(_, _) => {
            update_changing_channel(resources, &mut panicking, minimap_state, change_channel_key)
        },
        State::GoingToTown(_, _) => update_going_to_town(resources, &mut panicking, to_town_key),
        State::Completing(_, _) => {
            update_completing(&mut panicking, minimap_state);
            assert(resources.input@ =~= old(resources).input@ + nothing);
        },
    };

    let done = match panicking.state {
        State::Completing(_, true) => true,
        _ => false,
    };
    let player_next_state = if done {
        Player::Idle
    } else {
        Player::Panicking(panicking)
    };

    match next_action(&player.context) {
        Some(_) => transition_from_action(player, player_next_state, done),
        None => {
            let to_town = match panicking.to {
                PanicTo::Town => true,
                PanicTo::Channel => false,
            };
            transition_if(
                player,
                // Allow continuing for town even if the bot has already halted
                player_next_state,
                // Force cancel if it is not initiated from an action for other panic kind
                Player::Idle,
                to_town,
            )
        },
    }
}

/// Waiting for the outcome leads back to changing channel exactly when the
/// flight is to another channel, the wait has reached its deadline, and the
/// minimap is known and shows another player. The change of channel then
/// starts over, with no retry made.
pub proof fn lemma_channel_loop_needs_other_players(panicking: Panicking, minimap_state: Minimap)
    requires
        panicking.state is Completing,
    ensures
        ({
            let timeout = panicking.state->Completing_0;
            let next = spec_update_completing(panicking, minimap_state);
            &&& next is ChangingChannel <==> {
                &&& panicking.to == PanicTo::Channel
                &&& timeout.started
                &&& timeout.current >= TIMEOUT_COMPLETING
                &&& minimap_state is Idle
                &&& minimap_state.spec_has_any_other_player()
            }
            &&& next is ChangingChannel ==> next == State::ChangingChannel(
                Timeout::spec_default(),
                0,
            )
        }),
{
}

/// A tick of a flight that waits for the outcome writes a flight that changes
/// channel only when the minimap is known and shows another player.
pub proof fn lemma_update_loops_only_with_other_players(
    detector: Detector,
    player: PlayerEntity,
    minimap_state: Minimap,
    panicking: Panicking,
)
    requires
        panicking.state is Completing,
    ensures
        ({
            let outcome = spec_update_panicking_state(detector, player, minimap_state, panicking);
            let next = outcome.state->Panicking_0;
            outcome.state is Panicking && next.state is ChangingChannel ==> {
                &&& minimap_state is Idle
                &&& minimap_state.spec_has_any_other_player()
                &&& next.to == PanicTo::Channel
                &&& next.state == State::ChangingChannel(Timeout::spec_default(), 0)
            }
        }),
{
}

/// The retries of a step that is tried again.
pub open spec fn spec_retry_count(state: State) -> Option<u32> {
    match state {
        State::ChangingChannel(_, retry_count) => Some(retry_count),
        State::GoingToTown(_, retry_count) => Some(retry_count),
        State::Completing(_, _) => None,
    }
}

/// A step is never tried again more than [`MAX_RETRY`] times: a tick leaves
/// the retries as they are or adds one, and adds one only below the limit.
pub proof fn lemma_retries_bounded(
    detector: Detector,
    panicking: Panicking,
    minimap_state: Minimap,
    change_channel_key: KeyKind,
    to_town_key: KeyKind,
)
    requires
        !(panicking.state is Completing),
    ensures
        ({
            let before = spec_retry_count(panicking.state)->0;
            let next = spec_update_step(
                detector,
                panicking,
                minimap_state,
                change_channel_key,
                to_town_key,
            ).0;
            spec_retry_count(next) matches Some(after) ==> {
                &&& after == before || (after == before + 1 && before < MAX_RETRY)
                &&& before <= MAX_RETRY ==> after <= MAX_RETRY
            }
        }),
{
}

} // verus!
