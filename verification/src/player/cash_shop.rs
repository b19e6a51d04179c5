//! The procedure that enters the cash shop and leaves it again.
use vstd::prelude::*;

use crate::bridge::{InputEvent, KeyKind};
use crate::detect::Detector;
use crate::ecs::Resources;
use crate::player::timeout::{
    next_timeout_lifecycle, spec_next_timeout_lifecycle, Lifecycle, Timeout,
};
use crate::player::{transition_if, try_some_transition, Outcome, Player, PlayerEntity};

verus! {

/// Ticks spent inside the cash shop.
pub const TIMEOUT_ENTERED: u32 = 305;

/// Ticks to wait after the cash shop was left.
pub const TIMEOUT_STALLING: u32 = 90;

/// The steps of a visit to the cash shop, in their order.
#[derive(Clone, Copy, Debug, PartialEq, Eq, Structural)]
pub enum State {
    Entering,
    Entered(Timeout),
    Exitting,
    Exitted,
    Stalling(Timeout),
    Completed,
}

/// A visit to the cash shop.
#[derive(Clone, Copy, Debug, PartialEq, Eq, Structural)]
pub struct CashShop {
    pub state: State,
}

impl CashShop {
    pub fn new() -> (cash_shop: CashShop)
        ensures
            cash_shop == (CashShop { state: State::Entering }),
    {
        CashShop { state: State::Entering }
    }
}

/// The place of a step in the order of the visit.
pub open spec fn spec_rank(state: State) -> int {
    match state {
        State::Entering => 0,
        State::Entered(_) => 1,
        State::Exitting => 2,
        State::Exitted => 3,
        State::Stalling(_) => 4,
        State::Completed => 5,
    }
}

/// Entering: the key is pressed at every tick until the player is seen in the
/// cash shop.
pub open spec fn spec_update_entering(detector: Detector, key: KeyKind) -> (State, Seq<InputEvent>) {
    (
        if detector.player_in_cash_shop {
            State::Entered(Timeout::spec_default())
        } else {
            State::Entering
        },
        seq![InputEvent::Key(key)],
    )
}

/// Entered: the player stays until the deadline.
pub open spec fn spec_update_entered(timeout: Timeout) -> State {
    match spec_next_timeout_lifecycle(timeout, TIMEOUT_ENTERED) {
        Lifecycle::Ended => State::Exitting,
        Lifecycle::Started(timeout) => State::Entered(timeout),
        Lifecycle::Updated(timeout) => State::Entered(timeout),
    }
}

/// Exitting: escape and enter are pressed at every tick until the player is
/// not seen in the cash shop any more.
pub open spec fn spec_update_exitting(detector: Detector) -> (State, Seq<InputEvent>) {
    (
        if detector.player_in_cash_shop {
            State::Exitting
        } else {
            State::Exitted
        },
        seq![InputEvent::Key(KeyKind::Esc), InputEvent::Key(KeyKind::Enter)],
    )
}

/// Exitted: the visit waits until the player is detected again.
pub open spec fn spec_update_exitted(failed_to_detect_player: bool) -> State {
    if failed_to_detect_player {
        State::Exitted
    } else {
        State::Stalling(Timeout::spec_default())
    }
}

/// Stalling: the visit is completed at the deadline.
pub open spec fn spec_update_stalling(timeout: Timeout) -> State {
    match spec_next_timeout_lifecycle(timeout, TIMEOUT_STALLING) {
        Lifecycle::Ended => State::Completed,
        Lifecycle::Started(timeout) => State::Stalling(timeout),
        Lifecycle::Updated(timeout) => State::Stalling(timeout),
    }
}

/// What one tick does to the step of a visit: the next step and the keys sent.
pub open spec fn spec_update_step(
    detector: Detector,
    state: State,
    key: KeyKind,
    failed_to_detect_player: bool,
) -> (State, Seq<InputEvent>) {
    match state {
        State::Entering => spec_update_entering(detector, key),
        State::Entered(timeout) => (spec_update_entered(timeout), Seq::empty()),
        State::Exitting => spec_update_exitting(detector),
        State::Exitted => (spec_update_exitted(failed_to_detect_player), Seq::empty()),
        State::Stalling(timeout) => (spec_update_stalling(timeout), Seq::empty()),
        State::Completed => (State::Completed, Seq::empty()),
    }
}

/// What one tick of a visit to the cash shop does.
///
/// Without the cash shop key the visit is given up: the head of the action
/// queue is completed and the player idles, with no key sent. Else the step is
/// taken, and a completed visit idles.
pub open spec fn spec_update_cash_shop_state(
    detector: Detector,
    player: PlayerEntity,
    cash_shop: CashShop,
    failed_to_detect_player: bool,
) -> Outcome {
    match player.context.config.cash_shop_key {
        None => Outcome {
            state: Player::Idle,
            context: player.context.spec_clear_action_completed(),
            events: Seq::empty(),
        },
        Some(key) => {
            let (state, events) = spec_update_step(
                detector,
                cash_shop.state,
                key,
                failed_to_detect_player,
            );
            Outcome {
                state: if state is Completed {
                    Player::Idle
                } else {
                    Player::CashShopThenExit(CashShop { state })
                },
                context: player.context,
                events,
            }
        },
    }
}

/// Updates the state of a visit to the cash shop that is not completed.
pub fn update_cash_shop_state(
    resources: &mut Resources,
    player: &mut PlayerEntity,
    cash_shop: CashShop,
    failed_to_detect_player: bool,
)
    requires
        old(player).context.config.cash_shop_key is Some ==> !(cash_shop.state is Completed),
    ensures
        spec_update_cash_shop_state(
            old(resources).detector,
            *old(player),
            cash_shop,
            failed_to_detect_player,
        ).reached(*old(resources), *final(resources), *final(player)),
{
    let mut cash_shop = cash_shop;
    let ghost nothing = Seq::<InputEvent>::empty();
    let cash_shop_key = match try_some_transition(
        player,
        Player::Idle,
        player.context.config.cash_shop_key,
    ) {
        Some(key) => key,
        None => {
            assert(resources.input@ =~= old(resources).input@ + nothing);
            return ;
        },
    };

    match cash_shop.state {
        State::Entering => update_entering(resources, &mut cash_shop, cash_shop_key),
        State::Entered(timeout) => {
            update_entered(&mut cash_shop, timeout);
            assert(resources.input@ =~= old(resources).input@ + nothing);
        },
        State::Exitting => update_exitting(resources, &mut cash_shop),
        State::Exitted => {
            update_exitted(&mut cash_shop, failed_to_detect_player);
            assert(resources.input@ =~= old(resources).input@ + nothing);
        },
        State::Stalling(timeout) => {
            update_stalling(&mut cash_shop, timeout);
            assert(resources.input@ =~= old(resources).input@ + nothing);
        },
        State::Completed => {
            assert(resources.input@ =~= old(resources).input@ + nothing);
        },
    }

    let completed = match cash_shop.state {
        State::Completed => true,
        _ => false,
    };
    transition_if(player, Player::Idle, Player::CashShopThenExit(cash_shop), completed);
}

fn update_exitted(cash_shop: &mut CashShop, failed_to_detect_player: bool)
    ensures
        final(cash_shop).state == spec_update_exitted(failed_to_detect_player),
{
    cash_shop.state = if failed_to_detect_player {
        State::Exitted
    } else {
        State::Stalling(Timeout::default())
    };
}

fn update_entering(resources: &mut Resources, cash_shop: &mut CashShop, key: KeyKind)
    ensures
        final(cash_shop).state == spec_update_entering(old(resources).detector, key).0,
        final(resources).sent(
            *old(resources),
            spec_update_entering(old(resources).detector, key).1,
        ),
{
    resources.input.send_key(key);
    cash_shop.state = if resources.detector.detect_player_in_cash_shop() {
        State::Entered(Timeout::default())
    } else {
        State::Entering
    };
    assert(resources.input@ =~= old(resources).input@ + seq![InputEvent::Key(key)]);
}

fn update_entered(cash_shop: &mut CashShop, timeout: Timeout)
    ensures
        final(cash_shop).state == spec_update_entered(timeout),
{
    // Exit after 10 secs
    match next_timeout_lifecycle(timeout, TIMEOUT_ENTERED) {
        Lifecycle::Ended => {
            cash_shop.state = State::Exitting;
        },
        Lifecycle::Started(timeout) | Lifecycle::Updated(timeout) => {
            cash_shop.state = State::Entered(timeout);
        },
    }
}

fn update_exitting(resources: &mut Resources, cash_shop: &mut CashShop)
    ensures
        final(cash_shop).state == spec_update_exitting(old(resources).detector).0,
        final(resources).sent(*old(resources), spec_update_exitting(old(resources).detector).1),
{
    resources.input.send_key(KeyKind::Esc);
    resources.input.send_key(KeyKind::Enter);
    cash_shop.state = if resources.detector.detect_player_in_cash_shop() {
        State::Exitting
    } else {
        State::Exitted
    };
    assert(resources.input@ =~= old(resources).input@ + seq![
        InputEvent::Key(KeyKind::Esc),
        InputEvent::Key(KeyKind::Enter),
    ]);
}

fn update_stalling(cash_shop: &mut CashShop, timeout: Timeout)
    ensures
        final(cash_shop).state == spec_update_stalling(timeout),
{
    // Return after 3 secs
    match next_timeout_lifecycle(timeout, TIMEOUT_STALLING) {
        Lifecycle::Ended => {
            cash_shop.state = State::Completed;
        },
        Lifecycle::Started(timeout) | Lifecycle::Updated(timeout) => {
            cash_shop.state = State::Stalling(timeout);
        },
    }
}

/// A visit goes through its steps in their order: a tick stays at the step or
/// goes on to the one that follows, and the deadlines of the timed steps are
/// never passed.
pub proof fn lemma_steps_in_order(
    detector: Detector,
    state: State,
    key: KeyKind,
    failed_to_detect_player: bool,
)
    ensures
        ({
            let next = spec_update_step(detector, state, key, failed_to_detect_player).0;
            &&& spec_rank(next) == spec_rank(state) || spec_rank(next) == spec_rank(state) + 1
            &&& next matches State::Entered(timeout) ==> timeout.current <= TIMEOUT_ENTERED
            &&& next matches State::Stalling(timeout) ==> timeout.current <= TIMEOUT_STALLING
        }),
{
}

} // verus!
