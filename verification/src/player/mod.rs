//! The player: a state machine that is stepped once per tick.
//!
//! Every state has an update function that reads the state and the context,
//! sends key events and writes the next state. All of them write the state
//! through the functions of this module, once on each path.
use vstd::prelude::*;

pub mod actions;
pub mod adjust;
pub mod cash_shop;
pub mod chat;
pub mod double_jump;
pub mod fall;
pub mod grapple;
pub mod idle;
pub mod jump;
pub mod moving;
pub mod panicking;
pub mod stall;
pub mod state;
pub mod timeout;
pub mod unstuck;
pub mod up_jump;
pub mod use_booster;
pub mod use_key;

pub use actions::{
    next_action, AutoMob, Booster, Key, LinkKey, Move, PanicTo, PingPong, PingPongDirection,
    PlayerAction,
};
pub use adjust::{update_adjusting_state, Adjusting};
pub use cash_shop::{update_cash_shop_state, CashShop};
pub use chat::{update_chatting_state, Chatting, ChattingContent};
pub use double_jump::{update_double_jumping_state, DoubleJumping};
pub use fall::{update_falling_state, Falling};
pub use grapple::{update_grappling_state, Grappling};
pub use idle::{update_detecting_state, update_idle_state};
pub use jump::update_jumping_state;
pub use moving::{
    update_moving_state, Intermediate, Moving, MovingIntermediates, MOVE_TIMEOUT,
};
pub use panicking::{update_panicking_state, Panicking};
pub use stall::update_stalling_state;
pub use state::{LastMovement, PlayerConfiguration, PlayerContext, StallingBuffered};
pub use timeout::{
    next_moving_lifecycle_with_axis, next_timeout_lifecycle, ChangeAxis, Lifecycle,
    MovingLifecycle, Timeout,
};
pub use unstuck::{update_unstucking_state, Unstucking};
pub use up_jump::{update_up_jumping_state, UpJumping, UpJumpingKind};
pub use use_booster::{update_using_booster_state, UsingBooster};
pub use use_key::{update_use_key_state, UseKey};

use crate::bridge::InputEvent;
use crate::detect::Detector;
use crate::ecs::Resources;
use crate::geometry::Point;
use crate::minimap::Minimap;
use crate::rng::Rng;

verus! {

/// The state that the player is in.
#[derive(Clone, Copy, Debug)]
pub enum Player {
    /// The player is being looked for.
    Detecting,
    /// The player waits for something to do.
    Idle,
    /// The player heads for a destination: the destination, whether it has to
    /// be matched exactly, and the sub-destinations.
    Moving(Point, bool, Option<MovingIntermediates>),
    Adjusting(Adjusting),
    DoubleJumping(DoubleJumping),
    Jumping(Moving),
    Falling(Falling),
    Grappling(Grappling),
    UpJumping(UpJumping),
    Unstucking(Unstucking),
    UseKey(UseKey),
    /// The player waits for a number of ticks: the deadline and its length.
    Stalling(Timeout, u32),
    CashShopThenExit(CashShop),
    Chatting(Chatting),
    Panicking(Panicking),
    UsingBooster(UsingBooster),
}

/// The player's state together with what it knows.
#[derive(Clone, Copy, Debug)]
pub struct PlayerEntity {
    pub state: Player,
    pub context: PlayerContext,
}

/// What one update leaves behind: the state and the context that it wrote and
/// the key events that it sent, in order.
pub struct Outcome {
    pub state: Player,
    pub context: PlayerContext,
    pub events: Seq<InputEvent>,
}

impl Outcome {
    /// The update that began with `resources_before` ended in `player` and
    /// `resources` as this outcome says: the state and the context are the
    /// outcome's, the events were sent after those that waited, and nothing else
    /// changed.
    pub open spec fn reached(
        self,
        resources_before: Resources,
        resources: Resources,
        player: PlayerEntity,
    ) -> bool {
        &&& player.state == self.state
        &&& player.context == self.context
        &&& resources.sent(resources_before, self.events)
    }

    /// The outcome of going on from this one: `then` with the events of both.
    pub open spec fn followed_by(self, then: Outcome) -> Outcome {
        Outcome { state: then.state, context: then.context, events: self.events + then.events }
    }

    /// The entity that this outcome leaves.
    pub open spec fn entity(self) -> PlayerEntity {
        PlayerEntity { state: self.state, context: self.context }
    }
}

impl Player {
    /// The state in which the player heads for the destination of `moving`.
    pub open spec fn spec_to_moving(moving: Moving) -> Player {
        Player::Moving(moving.dest, moving.exact, moving.intermediates)
    }
}

impl PlayerEntity {
    /// `outcome` with nothing sent is what the entity already is.
    pub open spec fn unchanged(self) -> Outcome {
        Outcome { state: self.state, context: self.context, events: Seq::empty() }
    }
}

/// The position of the player is known and in range.
pub open spec fn spec_position_known(context: PlayerContext) -> bool {
    context.last_known_pos matches Some(pos) && pos.in_range()
}

/// The update of the state of `player` can run: a state that moves has a
/// known position and holds points that are in range, and the head of the
/// action queue is one under which the state can run. A state that gives up
/// for want of a key can always run.
pub open spec fn spec_update_allowed(player: PlayerEntity, minimap_state: Minimap) -> bool {
    let context = player.context;
    let action = context.spec_next_action();
    match player.state {
        Player::Moving(dest, _, intermediates) => {
            &&& spec_position_known(context)
            &&& dest.in_range()
            &&& intermediates matches Some(list) ==> list.in_range()
        },
        Player::Adjusting(adjusting) => {
            &&& spec_position_known(context)
            &&& adjusting.moving.in_range()
            &&& adjust::spec_supports_action(action)
        },
        Player::DoubleJumping(double_jumping) => {
            &&& spec_position_known(context)
            &&& double_jumping.moving.in_range()
        },
        Player::Jumping(_) => context.last_known_pos is Some,
        Player::Falling(falling) => {
            &&& spec_position_known(context)
            &&& falling.moving.in_range()
            &&& fall::spec_supports_action(action)
        },
        Player::Grappling(grappling) => context.config.grappling_key is Some ==> {
            &&& spec_position_known(context)
            &&& grappling.moving.in_range()
            &&& grapple::spec_supports_action(action)
        },
        Player::UpJumping(up_jumping) => up_jumping.keys_configured(context.config) ==> {
            &&& spec_position_known(context)
            &&& up_jumping.moving.in_range()
            &&& up_jump::spec_supports_action(action)
            &&& minimap_state.in_range()
        },
        Player::Unstucking(_) => {
            &&& minimap_state.in_range()
            &&& context.last_known_pos matches Some(pos) ==> pos.in_range()
        },
        Player::Stalling(_, _) => stall::spec_supports_action(action),
        Player::CashShopThenExit(cash_shop) => context.config.cash_shop_key is Some ==> !(
        cash_shop.state is Completed),
        _ => true,
    }
}

/// What one tick does to the player, whatever state it is in: what the update
/// of that state does.
pub open spec fn spec_update(
    player: PlayerEntity,
    minimap_state: Minimap,
    detector: Detector,
    rng: Rng,
) -> Outcome {
    match player.state {
        Player::Detecting => Outcome {
            state: idle::spec_update_detecting_state(player, minimap_state),
            context: player.context,
            events: Seq::empty(),
        },
        Player::Idle => idle::spec_update_idle_state(player, minimap_state),
        Player::Moving(dest, exact, intermediates) => moving::spec_update_moving_state(
            player,
            minimap_state,
            rng,
            dest,
            exact,
            intermediates,
        ),
        Player::Adjusting(_) => adjust::spec_update_adjusting_state(player, minimap_state),
        Player::DoubleJumping(_) => double_jump::spec_update_double_jumping_state(
            player,
            minimap_state,
        ),
        Player::Jumping(moving) => jump::spec_update_jumping_state(player, moving),
        Player::Falling(_) => fall::spec_update_falling_state(player, minimap_state),
        Player::Grappling(_) => grapple::spec_update_grappling_state(player, minimap_state, rng),
        Player::UpJumping(_) => up_jump::spec_update_up_jumping_state(player, minimap_state, rng),
        Player::Unstucking(_) => unstuck::spec_update_unstucking_state(player, minimap_state, rng),
        Player::UseKey(_) => use_key::spec_update_use_key_state(player),
        Player::Stalling(timeout, max_timeout) => {
            let next = stall::spec_update_stalling_state(player, timeout, max_timeout);
            Outcome { state: next.state, context: next.context, events: Seq::empty() }
        },
        Player::CashShopThenExit(cash_shop) => cash_shop::spec_update_cash_shop_state(
            detector,
            player,
            cash_shop,
            player.context.last_known_pos is None,
        ),
        Player::Chatting(chatting) => chat::spec_update_chatting_state(detector, player, chatting),
        Player::Panicking(panicking) => panicking::spec_update_panicking_state(
            detector,
            player,
            minimap_state,
            panicking,
        ),
        Player::UsingBooster(_) => use_booster::spec_update_using_booster_state(detector, player),
    }
}

/// The deadline that `state` counts toward, with its length, if the state
/// counts toward one as a whole. A climb is held to the longer of its two
/// deadlines.
pub open spec fn spec_state_timeout(state: Player) -> Option<(Timeout, u32)> {
    match state {
        Player::Adjusting(adjusting) => Some((adjusting.moving.timeout, MOVE_TIMEOUT)),
        Player::DoubleJumping(double_jumping) => Some(
            (double_jumping.moving.timeout, double_jump::TIMEOUT),
        ),
        Player::Jumping(moving) => Some((moving.timeout, jump::JUMPING_TIMEOUT)),
        Player::Falling(falling) => Some((falling.moving.timeout, fall::TIMEOUT)),
        Player::Grappling(grappling) => Some(
            (grappling.moving.timeout, grapple::INITIAL_TIMEOUT),
        ),
        Player::UpJumping(up_jumping) => Some(
            (up_jumping.moving.timeout, up_jump::UP_JUMPING_TIMEOUT),
        ),
        Player::Unstucking(unstucking) => match unstucking.kind {
            unstuck::UnstuckingKind::Movement { timeout, .. } => Some((timeout, MOVE_TIMEOUT)),
            unstuck::UnstuckingKind::Esc => None,
        },
        Player::Stalling(timeout, max_timeout) => Some((timeout, max_timeout)),
        _ => None,
    }
}

/// `state` has not passed the deadline that it counts toward.
pub open spec fn spec_timeout_bounded(state: Player) -> bool {
    spec_state_timeout(state) matches Some((timeout, max_timeout)) ==> timeout.current
        <= max_timeout
}

/// The state that is stashed in `context`, if any, has not passed its
/// deadline.
pub open spec fn spec_stash_bounded(context: PlayerContext) -> bool {
    context.stalling_timeout_state matches Some(stashed) ==> spec_timeout_bounded(stashed)
}

/// Neither the state that `outcome` writes nor the state that it leaves
/// stashed has passed its deadline.
pub open spec fn spec_outcome_bounded(outcome: Outcome) -> bool {
    spec_timeout_bounded(outcome.state) && spec_stash_bounded(outcome.context)
}

/// No tick takes a state past its deadline: whatever the state before, the
/// state that a tick writes has not passed the deadline that it counts
/// toward, as long as the stashed state has not passed its own.
pub proof fn lemma_update_bounds_timeouts(
    player: PlayerEntity,
    minimap_state: Minimap,
    detector: Detector,
    rng: Rng,
)
    requires
        spec_stash_bounded(player.context),
    ensures
        spec_outcome_bounded(spec_update(player, minimap_state, detector, rng)),
{
    match player.state {
        Player::Detecting => {},
        Player::Idle => idle::lemma_timeout_bounded(player, minimap_state),
        Player::Moving(dest, exact, intermediates) => moving::lemma_timeout_bounded(
            player,
            minimap_state,
            rng,
            dest,
            exact,
            intermediates,
        ),
        Player::Adjusting(_) => adjust::lemma_timeout_bounded(player, minimap_state),
        Player::DoubleJumping(_) => double_jump::lemma_timeout_bounded(player, minimap_state),
        Player::Jumping(_) => {},
        Player::Falling(_) => fall::lemma_timeout_bounded(player, minimap_state),
        Player::Grappling(_) => grapple::lemma_timeout_bounded(player, minimap_state, rng),
        Player::UpJumping(_) => up_jump::lemma_timeout_bounded(player, minimap_state, rng),
        Player::Unstucking(_) => unstuck::lemma_timeout_bounded(player, minimap_state, rng),
        Player::UseKey(_) => {},
        Player::Stalling(_, _) => {},
        Player::CashShopThenExit(_) => {},
        Player::Chatting(_) => {},
        Player::Panicking(_) => {},
        Player::UsingBooster(_) => {},
    }
}

/// Steps the player by one tick: reads the state, runs the update of that
/// state, which sends its key events and writes the next state.
pub fn update(resources: &mut Resources, player: &mut PlayerEntity, minimap_state: Minimap)
    requires
        spec_update_allowed(*old(player), minimap_state),
    ensures
        spec_update(
            *old(player),
            minimap_state,
            old(resources).detector,
            old(resources).rng,
        ).reached(*old(resources), *final(resources), *final(player)),
{
    let ghost nothing = Seq::<InputEvent>::empty();
    match player.state {
        Player::Detecting => {
            update_detecting_state(player, minimap_state);
            assert(resources.input@ =~= old(resources).input@ + nothing);
        },
        Player::Idle => update_idle_state(resources, player, minimap_state),
        Player::Moving(dest, exact, intermediates) => update_moving_state(
            resources,
            player,
            minimap_state,
            dest,
            exact,
            intermediates,
        ),
        Player::Adjusting(_) => update_adjusting_state(resources, player, minimap_state),
        Player::DoubleJumping(_) => update_double_jumping_state(resources, player, minimap_state),
        Player::Jumping(moving) => update_jumping_state(resources, player, moving),
        Player::Falling(_) => update_falling_state(resources, player, minimap_state),
        Player::Grappling(_) => update_grappling_state(resources, player, minimap_state),
        Player::UpJumping(_) => update_up_jumping_state(resources, player, minimap_state),
        Player::Unstucking(_) => update_unstucking_state(resources, player, minimap_state),
        Player::UseKey(_) => update_use_key_state(resources, player),
        Player::Stalling(timeout, max_timeout) => {
            update_stalling_state(player, timeout, max_timeout);
            assert(resources.input@ =~= old(resources).input@ + nothing);
        },
        Player::CashShopThenExit(cash_shop) => {
            let failed_to_detect_player = player.context.last_known_pos.is_none();
            update_cash_shop_state(resources, player, cash_shop, failed_to_detect_player)
        },
        Player::Chatting(chatting) => update_chatting_state(resources, player, chatting),
        Player::Panicking(panicking) => update_panicking_state(
            resources,
            player,
            minimap_state,
            panicking,
        ),
        Player::UsingBooster(_) => update_using_booster_state(resources, player),
    }
}

/// Tells whether the position of the player is known and in range.
fn position_known(context: &PlayerContext) -> (known: bool)
    ensures
        known == spec_position_known(*context),
{
    match context.last_known_pos {
        Some(pos) => pos.is_in_range(),
        None => false,
    }
}

/// Tells whether the head of the action queue is an unstuck action or a panic.
fn is_recovery(action: Option<PlayerAction>) -> (recovery: bool)
    ensures
        recovery == (action matches Some(PlayerAction::Unstuck) || action matches Some(
            PlayerAction::Panic(_),
        )),
{
    match action {
        Some(PlayerAction::Unstuck) | Some(PlayerAction::Panic(_)) => true,
        _ => false,
    }
}

/// Tells whether the update of the state of `player` can run.
pub fn update_allowed(player: &PlayerEntity, minimap_state: &Minimap) -> (allowed: bool)
    ensures
        allowed == spec_update_allowed(*player, *minimap_state),
{
    let context = &player.context;
    let action = next_action(context);
    match player.state {
        Player::Moving(dest, _, intermediates) => {
            let list_ok = match intermediates {
                Some(list) => list.is_in_range(),
                None => true,
            };
            position_known(context) && dest.is_in_range() && list_ok
        },
        Player::Adjusting(adjusting) => {
            let ping_pong = match action {
                Some(PlayerAction::PingPong(_)) => true,
                _ => false,
            };
            position_known(context) && adjusting.moving.is_in_range() && !is_recovery(action)
                && !ping_pong
        },
        Player::DoubleJumping(double_jumping) => position_known(context)
            && double_jumping.moving.is_in_range(),
        Player::Jumping(_) => context.last_known_pos.is_some(),
        Player::Falling(falling) => position_known(context) && falling.moving.is_in_range()
            && !is_recovery(action),
        Player::Grappling(grappling) => context.config.grappling_key.is_none() || (position_known(
            context,
        ) && grappling.moving.is_in_range() && !is_recovery(action)),
        Player::UpJumping(up_jumping) => {
            let keys_ok = match up_jumping.kind {
                UpJumpingKind::Mage(_) => context.config.teleport_key.is_some(),
                UpJumpingKind::SpecificKey => context.config.up_jump_key.is_some(),
                _ => true,
            };
            !keys_ok || (position_known(context) && up_jumping.moving.is_in_range()
                && !is_recovery(action) && minimap_state.is_in_range())
        },
        Player::Unstucking(_) => {
            let pos_ok = match context.last_known_pos {
                Some(pos) => pos.is_in_range(),
                None => true,
            };
            minimap_state.is_in_range() && pos_ok
        },
        Player::Stalling(_, _) => !is_recovery(action),
        Player::CashShopThenExit(cash_shop) => {
            let completed = match cash_shop.state {
                cash_shop::State::Completed => true,
                _ => false,
            };
            context.config.cash_shop_key.is_none() || !completed
        },
        _ => true,
    }
}

/// Steps the player by one tick if the update of its state can run, and tells
/// whether it did. If it did not, nothing is sent and the player stays as it
/// is.
pub fn try_update(resources: &mut Resources, player: &mut PlayerEntity, minimap_state: Minimap) -> (updated:
    bool)
    ensures
        updated == spec_update_allowed(*old(player), minimap_state),
        updated ==> spec_update(
            *old(player),
            minimap_state,
            old(resources).detector,
            old(resources).rng,
        ).reached(*old(resources), *final(resources), *final(player)),
        !updated ==> *final(player) == *old(player) && final(resources).input@ == old(
            resources,
        ).input@ && final(resources).sent(*old(resources), Seq::empty()),
{
    if update_allowed(player, &minimap_state) {
        update(resources, player, minimap_state);
        true
    } else {
        assert(resources.input@ =~= old(resources).input@ + Seq::<InputEvent>::empty());
        false
    }
}

/// Writes `state`.
pub fn transition(player: &mut PlayerEntity, state: Player)
    ensures
        final(player).state == state,
        final(player).context == old(player).context,
{
    player.state = state;
}

/// Writes `true_state` if `cond` holds and `false_state` if not.
pub fn transition_if(player: &mut PlayerEntity, true_state: Player, false_state: Player, cond: bool)
    ensures
        final(player).state == if cond {
            true_state
        } else {
            false_state
        },
        final(player).context == old(player).context,
{
    player.state = if cond {
        true_state
    } else {
        false_state
    };
}

/// Hands `option` on. If it is empty, the head of the action queue is completed
/// and `fallback` is written.
pub fn try_some_transition<T>(player: &mut PlayerEntity, fallback: Player, option: Option<T>) -> (value:
    Option<T>)
    ensures
        value == option,
        option is Some ==> *final(player) == *old(player),
        option is None ==> final(player).state == fallback && final(player).context == old(
            player,
        ).context.spec_clear_action_completed(),
{
    if option.is_none() {
        player.context.clear_action_completed();
        player.state = fallback;
    }
    option
}

/// Writes `state`. If it is terminal, the head of the action queue is completed
/// first.
pub fn transition_from_action(player: &mut PlayerEntity, state: Player, is_terminal: bool)
    ensures
        final(player).state == state,
        final(player).context == if is_terminal {
            old(player).context.spec_clear_action_completed()
        } else {
            old(player).context
        },
{
    if is_terminal {
        player.context.clear_action_completed();
    }
    player.state = state;
}

/// Hands control back to the state that heads for the destination of `moving`.
pub fn transition_to_moving(player: &mut PlayerEntity, moving: Moving)
    ensures
        final(player).state == Player::spec_to_moving(moving),
        final(player).context == old(player).context,
{
    player.state = Player::Moving(moving.dest, moving.exact, moving.intermediates);
}

} // verus!
