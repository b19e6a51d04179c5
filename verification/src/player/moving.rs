//! The positional progress that every movement state carries.
use vstd::prelude::*;

use crate::array::Array;
use crate::bridge::InputEvent;
use crate::ecs::Resources;
use crate::geometry::Point;
use crate::minimap::Minimap;
use crate::models::{ActionKeyDirection, ActionKeyWith};
use crate::player::actions::{
    next_action, spec_update_from_auto_mob_action, spec_update_from_ping_pong_action,
    update_from_auto_mob_action, update_from_ping_pong_action, PlayerAction,
};
use crate::player::adjust::{Adjusting, ADJUSTING_MEDIUM_THRESHOLD, ADJUSTING_SHORT_THRESHOLD};
use crate::player::double_jump::DoubleJumping;
use crate::player::fall::{Falling, FALLING_THRESHOLD};
use crate::player::grapple::{Grappling, GRAPPLING_MAX_THRESHOLD, GRAPPLING_THRESHOLD};
use crate::player::state::PlayerContext;
use crate::player::timeout::Timeout;
use crate::player::up_jump::UpJumping;
use crate::player::use_key::UseKey;
use crate::player::{
    spec_outcome_bounded, spec_stash_bounded, transition, transition_from_action, Outcome, Player,
    PlayerEntity,
};
use crate::rng::Rng;

verus! {

/// Ticks after which a movement gives up.
pub const MOVE_TIMEOUT: u32 = 30;

/// The most sub-destinations a movement can have.
pub const MAX_INTERMEDIATES: usize = 16;

/// A sub-destination of a movement.
#[derive(Clone, Copy, Debug, PartialEq, Eq, Structural)]
pub struct Intermediate {
    pub point: Point,
    /// Whether the point has to be matched exactly along x.
    pub exact: bool,
}

/// The sub-destinations of a movement, in the order in which they are visited.
///
/// The items before `current` have been handed out.
#[derive(Clone, Copy, Debug)]
pub struct MovingIntermediates {
    pub current: usize,
    pub inner: Array<Intermediate, 16>,
}

impl MovingIntermediates {
    /// An item has not been handed out yet.
    pub open spec fn spec_has_next(self) -> bool {
        self.current < self.inner@.len()
    }

    /// Every point of the list is in range.
    pub open spec fn in_range(self) -> bool {
        forall|i: int| 0 <= i < self.inner@.len() ==> (#[trigger] self.inner@[i]).point.in_range()
    }

    /// The list of `points`, none handed out.
    pub fn new(points: Array<Intermediate, 16>) -> (intermediates: MovingIntermediates)
        ensures
            intermediates == (MovingIntermediates { current: 0, inner: points }),
    {
        MovingIntermediates { current: 0, inner: points }
    }

    pub fn has_next(&self) -> (has: bool)
        ensures
            has == self.spec_has_next(),
    {
        self.current < self.inner.len()
    }

    /// Hands out the next item, if one is left.
    pub fn next(&mut self) -> (item: Option<Intermediate>)
        ensures
            final(self).inner == old(self).inner,
            old(self).spec_has_next() ==> item == Some(old(self).inner@[old(self).current as int])
                && final(self).current == old(self).current + 1,
            !old(self).spec_has_next() ==> item is None && final(self).current == old(
                self,
            ).current,
    {
        if self.current < self.inner.len() {
            let item = self.inner.get(self.current);
            self.current = self.current + 1;
            item
        } else {
            None
        }
    }

    /// Tells whether every point of the list is in range.
    pub fn is_in_range(&self) -> (ok: bool)
        ensures
            ok == self.in_range(),
    {
        let mut i: usize = 0;
        while i < self.inner.len()
            invariant
                i <= self.inner@.len(),
                forall|j: int| 0 <= j < i ==> (#[trigger] self.inner@[j]).point.in_range(),
            decreases self.inner@.len() - i,
        {
            let item = self.inner.get(i);
            match item {
                Some(intermediate) => {
                    if !intermediate.point.is_in_range() {
                        return false;
                    }
                },
                None => {},
            }
            i = i + 1;
        }
        true
    }
}

/// The progress of one hop toward a destination.
#[derive(Clone, Copy, Debug)]
pub struct Moving {
    /// Where the player was last observed.
    pub pos: Point,
    /// Where the hop leads. It stays the same for the whole hop.
    pub dest: Point,
    /// Whether `dest` has to be matched exactly along x.
    pub exact: bool,
    /// No more directional input is needed for this hop.
    pub completed: bool,
    /// The deadline of the hop.
    pub timeout: Timeout,
    /// The sub-destinations, when `dest` is one of them.
    pub intermediates: Option<MovingIntermediates>,
}

impl Moving {
    /// All the points that the movement holds are in range.
    pub open spec fn in_range(self) -> bool {
        &&& self.pos.in_range()
        &&& self.dest.in_range()
        &&& self.intermediates matches Some(intermediates) ==> intermediates.in_range()
    }

    /// `dest` is a sub-destination and more of them follow.
    pub open spec fn spec_is_destination_intermediate(self) -> bool {
        self.intermediates matches Some(intermediates) && intermediates.spec_has_next()
    }

    /// The point at which the whole movement ends.
    pub open spec fn spec_last_destination(self) -> Point {
        if self.spec_is_destination_intermediate() {
            self.intermediates->0.inner@.last().point
        } else {
            self.dest
        }
    }

    /// The point that distances are measured to.
    pub open spec fn spec_target(self, current_destination: bool) -> Point {
        if current_destination {
            self.dest
        } else {
            self.spec_last_destination()
        }
    }

    /// The signed x distance from `cur_pos` to the target: positive to the right.
    pub open spec fn spec_x_direction_from(self, current_destination: bool, cur_pos: Point) -> int {
        self.spec_target(current_destination).x - cur_pos.x
    }

    /// The signed y distance from `cur_pos` to the target: positive upward.
    pub open spec fn spec_y_direction_from(self, current_destination: bool, cur_pos: Point) -> int {
        self.spec_target(current_destination).y - cur_pos.y
    }

    /// The x distance from `cur_pos` to the target.
    pub open spec fn spec_x_distance_from(self, current_destination: bool, cur_pos: Point) -> int {
        spec_abs(self.spec_x_direction_from(current_destination, cur_pos))
    }

    /// The y distance from `cur_pos` to the target.
    pub open spec fn spec_y_distance_from(self, current_destination: bool, cur_pos: Point) -> int {
        spec_abs(self.spec_y_direction_from(current_destination, cur_pos))
    }

    /// A hop from `pos` to `dest` that has not started.
    pub fn new(
        pos: Point,
        dest: Point,
        exact: bool,
        intermediates: Option<MovingIntermediates>,
    ) -> (moving: Moving)
        ensures
            moving == (Moving {
                pos,
                dest,
                exact,
                completed: false,
                timeout: Timeout::spec_default(),
                intermediates,
            }),
    {
        Moving { pos, dest, exact, completed: false, timeout: Timeout::default(), intermediates }
    }

    pub fn pos(self, pos: Point) -> (moving: Moving)
        ensures
            moving == (Moving { pos, ..self }),
    {
        Moving { pos, ..self }
    }

    pub fn completed(self, completed: bool) -> (moving: Moving)
        ensures
            moving == (Moving { completed, ..self }),
    {
        Moving { completed, ..self }
    }

    pub fn timeout(self, timeout: Timeout) -> (moving: Moving)
        ensures
            moving == (Moving { timeout, ..self }),
    {
        Moving { timeout, ..self }
    }

    pub fn timeout_started(self, started: bool) -> (moving: Moving)
        ensures
            moving == (Moving { timeout: Timeout { started, ..self.timeout }, ..self }),
    {
        Moving { timeout: Timeout { started, ..self.timeout }, ..self }
    }

    pub fn timeout_current(self, current: u32) -> (moving: Moving)
        ensures
            moving == (Moving { timeout: Timeout { current, ..self.timeout }, ..self }),
    {
        Moving { timeout: Timeout { current, ..self.timeout }, ..self }
    }

    pub fn is_destination_intermediate(&self) -> (intermediate: bool)
        ensures
            intermediate == self.spec_is_destination_intermediate(),
    {
        match self.intermediates {
            Some(intermediates) => intermediates.has_next(),
            None => false,
        }
    }

    /// The point at which the whole movement ends.
    pub fn last_destination(&self) -> (point: Point)
        ensures
            point == self.spec_last_destination(),
    {
        match self.intermediates {
            Some(intermediates) => {
                if intermediates.has_next() {
                    let n: usize = intermediates.inner.len();
                    match intermediates.inner.get(n - 1) {
                        Some(intermediate) => intermediate.point,
                        None => self.dest,
                    }
                } else {
                    self.dest
                }
            },
            None => self.dest,
        }
    }

    /// The x distance and direction from `cur_pos` to the current destination, or
    /// to the end of the whole movement when `current_destination` is false.
    pub fn x_distance_direction_from(&self, current_destination: bool, cur_pos: Point) -> (pair: (
        i32,
        i32,
    ))
        requires
            self.in_range(),
            cur_pos.in_range(),
        ensures
            pair.0 == self.spec_x_distance_from(current_destination, cur_pos),
            pair.1 == self.spec_x_direction_from(current_destination, cur_pos),
    {
        let dest = if current_destination {
            self.dest
        } else {
            self.last_destination()
        };
        let direction: i32 = dest.x - cur_pos.x;
        let distance: i32 = if direction < 0 {
            -direction
        } else {
            direction
        };
        (distance, direction)
    }

    /// The y distance and direction from `cur_pos` to the current destination, or
    /// to the end of the whole movement when `current_destination` is false.
    pub fn y_distance_direction_from(&self, current_destination: bool, cur_pos: Point) -> (pair: (
        i32,
        i32,
    ))
        requires
            self.in_range(),
            cur_pos.in_range(),
        ensures
            pair.0 == self.spec_y_distance_from(current_destination, cur_pos),
            pair.1 == self.spec_y_direction_from(current_destination, cur_pos),
    {
        let dest = if current_destination {
            self.dest
        } else {
            self.last_destination()
        };
        let direction: i32 = dest.y - cur_pos.y;
        let distance: i32 = if direction < 0 {
            -direction
        } else {
            direction
        };
        (distance, direction)
    }

    /// Tells whether all the points that the movement holds are in range.
    pub fn is_in_range(&self) -> (ok: bool)
        ensures
            ok == self.in_range(),
    {
        let points_ok = match self.intermediates {
            Some(intermediates) => intermediates.is_in_range(),
            None => true,
        };
        self.pos.is_in_range() && self.dest.is_in_range() && points_ok
    }
}

/// Minimum y distance from the destination required to perform a jump.
pub const JUMP_THRESHOLD: i32 = 7;

/// Minimum y distance from the destination required to perform an up jump.
pub const UP_JUMP_THRESHOLD: i32 = 10;

/// The movement state that takes the player on toward the destination of
/// `moving`, if one is needed.
///
/// Along x, a destination as far as the double jump threshold is double
/// jumped to, unless double jumps are switched off, and one as far as the
/// medium threshold, or the short threshold if it has to be matched exactly,
/// is walked to. Along y, a destination above is reached with the rope if the
/// rope's key is set and the distance is within the rope's window, else by an
/// up jump or a jump if it is far enough for one; a destination far enough
/// below is dropped to.
pub open spec fn spec_next_hop(context: PlayerContext, coin: bool, moving: Moving) -> Option<Player> {
    let pos = moving.pos;
    let x_distance = moving.spec_x_distance_from(true, pos);
    let y_distance = moving.spec_y_distance_from(true, pos);
    let y_direction = moving.spec_y_direction_from(true, pos);
    if !context.config.disable_double_jumping && x_distance >= context.spec_double_jump_threshold(
        moving.spec_is_destination_intermediate(),
    ) {
        Some(
            Player::DoubleJumping(
                DoubleJumping { moving, forced: false, require_stationary: false },
            ),
        )
    } else if x_distance >= ADJUSTING_MEDIUM_THRESHOLD || (moving.exact && x_distance
        >= ADJUSTING_SHORT_THRESHOLD) {
        Some(Player::Adjusting(Adjusting { moving, adjust_timeout: Timeout::spec_default() }))
    } else if y_direction > 0 {
        if context.config.grappling_key is Some && GRAPPLING_THRESHOLD <= y_distance
            <= GRAPPLING_MAX_THRESHOLD {
            Some(Player::Grappling(Grappling { moving, did_y_changed: false }))
        } else if y_distance >= UP_JUMP_THRESHOLD {
            Some(Player::UpJumping(UpJumping::spec_new(moving, coin, context)))
        } else if y_distance >= JUMP_THRESHOLD {
            Some(Player::Jumping(moving))
        } else {
            None
        }
    } else if y_direction < 0 && y_distance >= FALLING_THRESHOLD {
        Some(Player::Falling(Falling { moving, anchor: pos, timeout_on_complete: false }))
    } else {
        None
    }
}

/// What the player does at the end of the whole movement, with the moving
/// state written as the state of `player`.
///
/// A move action waits as a stall if it asks for a wait, and else is
/// completed. A key action that goes with a double jump and faces the right
/// way double jumps first; any other key action uses its key. An auto-mob
/// action and a ping-pong action look at where the player is. With any other
/// action, or none, the player idles.
pub open spec fn spec_arrive(
    player: PlayerEntity,
    minimap_state: Minimap,
    moving: Moving,
) -> Outcome {
    let context = player.context;
    let pos = moving.pos;
    match context.spec_next_action() {
        Some(PlayerAction::Move(action)) => if action.wait_after_move_ticks > 0 {
            Outcome {
                state: Player::Stalling(Timeout::spec_default(), action.wait_after_move_ticks),
                context,
                events: Seq::empty(),
            }
        } else {
            Outcome {
                state: Player::Idle,
                context: context.spec_clear_action_completed(),
                events: Seq::empty(),
            }
        },
        Some(PlayerAction::Key(key)) => Outcome {
            state: if key.with == ActionKeyWith::DoubleJump && (key.direction
                == ActionKeyDirection::Any || key.direction == context.last_known_direction) {
                Player::DoubleJumping(
                    DoubleJumping { moving, forced: true, require_stationary: false },
                )
            } else {
                Player::UseKey(UseKey::spec_from_key(key))
            },
            context,
            events: Seq::empty(),
        },
        Some(PlayerAction::AutoMob(mob)) => spec_update_from_auto_mob_action(
            player,
            minimap_state,
            mob,
            moving.spec_x_distance_from(false, pos),
            moving.spec_x_direction_from(false, pos),
            moving.spec_y_distance_from(false, pos),
        ),
        Some(PlayerAction::PingPong(ping_pong)) => spec_update_from_ping_pong_action(
            player,
            minimap_state,
            ping_pong,
            pos,
        ),
        _ => Outcome { state: Player::Idle, context, events: Seq::empty() },
    }
}

/// What one tick of heading for `dest` does.
///
/// The movement state that takes the player on is entered, if one is needed.
/// Else the destination is reached: if sub-destinations remain, the next one
/// becomes the destination; if none remains, the whole movement is at its
/// end.
pub open spec fn spec_update_moving_state(
    player: PlayerEntity,
    minimap_state: Minimap,
    rng: Rng,
    dest: Point,
    exact: bool,
    intermediates: Option<MovingIntermediates>,
) -> Outcome {
    let context = player.context;
    let moving = Moving {
        pos: context.last_known_pos->0,
        dest,
        exact,
        completed: false,
        timeout: Timeout::spec_default(),
        intermediates,
    };
    match spec_next_hop(context, rng.coin, moving) {
        Some(state) => Outcome { state, context, events: Seq::empty() },
        None => if moving.spec_is_destination_intermediate() {
            let list = intermediates->0;
            let next = list.inner@[list.current as int];
            Outcome {
                state: Player::Moving(
                    next.point,
                    next.exact,
                    Some(MovingIntermediates { current: (list.current + 1) as usize, ..list }),
                ),
                context,
                events: Seq::empty(),
            }
        } else {
            spec_arrive(
                PlayerEntity { state: Player::Moving(dest, exact, intermediates), context },
                minimap_state,
                moving,
            )
        },
    }
}

/// Updates the [`Player::Moving`] contextual state of a player whose position
/// is known.
pub fn update_moving_state(
    resources: &mut Resources,
    player: &mut PlayerEntity,
    minimap_state: Minimap,
    dest: Point,
    exact: bool,
    intermediates: Option<MovingIntermediates>,
)
    requires
        old(player).context.last_known_pos matches Some(pos) && pos.in_range(),
        dest.in_range(),
        intermediates matches Some(list) ==> list.in_range(),
    ensures
        spec_update_moving_state(
            *old(player),
            minimap_state,
            old(resources).rng,
            dest,
            exact,
            intermediates,
        ).reached(*old(resources), *final(resources), *final(player)),
{
    let cur_pos = match player.context.last_known_pos {
        Some(pos) => pos,
        None => { return ; },
    };
    let moving = Moving::new(cur_pos, dest, exact, intermediates);
    let is_intermediate = moving.is_destination_intermediate();
    let (x_distance, _) = moving.x_distance_direction_from(true, cur_pos);
    let (y_distance, y_direction) = moving.y_distance_direction_from(true, cur_pos);
    let threshold: i32 = player.context.double_jump_threshold(is_intermediate);
    let ghost nothing = Seq::<InputEvent>::empty();
    assert(resources.input@ =~= old(resources).input@ + nothing);

    if !player.context.config.disable_double_jumping && x_distance >= threshold {
        transition(player, Player::DoubleJumping(DoubleJumping::new(moving, false, false)));
        return ;
    }
    if x_distance >= ADJUSTING_MEDIUM_THRESHOLD || (exact && x_distance
        >= ADJUSTING_SHORT_THRESHOLD) {
        transition(player, Player::Adjusting(Adjusting::new(moving)));
        return ;
    }
    if y_direction > 0 {
        if player.context.config.grappling_key.is_some() && GRAPPLING_THRESHOLD <= y_distance
            && y_distance <= GRAPPLING_MAX_THRESHOLD {
            transition(player, Player::Grappling(Grappling::new(moving)));
            return ;
        }
        if y_distance >= UP_JUMP_THRESHOLD {
            let up_jumping = UpJumping::new(moving, resources, &player.context);
            transition(player, Player::UpJumping(up_jumping));
            return ;
        }
        if y_distance >= JUMP_THRESHOLD {
            transition(player, Player::Jumping(moving));
            return ;
        }
    } else if y_direction < 0 && y_distance >= FALLING_THRESHOLD {
        transition(player, Player::Falling(Falling::new(moving, cur_pos, false)));
        return ;
    }
    // The destination is reached.
    match intermediates {
        Some(list) => {
            let mut list = list;
            match list.next() {
                Some(next) => {
                    transition(player, Player::Moving(next.point, next.exact, Some(list)));
                    return ;
                },
                None => {},
            }
        },
        None => {},
    }
    transition(player, Player::Moving(dest, exact, intermediates));
    arrive(resources, player, minimap_state, moving);
}

/// Ends the whole movement, with the moving state already written as the
/// player's state.
fn arrive(
    resources: &mut Resources,
    player: &mut PlayerEntity,
    minimap_state: Minimap,
    moving: Moving,
)
    requires
        moving.in_range(),
    ensures
        spec_arrive(*old(player), minimap_state, moving).reached(
            *old(resources),
            *final(resources),
            *final(player),
        ),
{
    let cur_pos = moving.pos;
    let ghost nothing = Seq::<InputEvent>::empty();
    match next_action(&player.context) {
        Some(PlayerAction::Move(action)) => {
            if action.wait_after_move_ticks > 0 {
                transition(
                    player,
                    Player::Stalling(Timeout::default(), action.wait_after_move_ticks),
                );
            } else {
                transition_from_action(player, Player::Idle, true);
            }
            assert(resources.input@ =~= old(resources).input@ + nothing);
        },
        Some(PlayerAction::Key(key)) => {
            let with_double_jump = match key.with {
                ActionKeyWith::DoubleJump => true,
                _ => false,
            };
            let facing = match key.direction {
                ActionKeyDirection::Any => true,
                direction => direction == player.context.last_known_direction,
            };
            if with_double_jump && facing {
                transition(player, Player::DoubleJumping(DoubleJumping::new(moving, true, false)));
            } else {
                transition(player, Player::UseKey(UseKey::from_key(key)));
            }
            assert(resources.input@ =~= old(resources).input@ + nothing);
        },
        Some(PlayerAction::AutoMob(mob)) => {
            let (x_distance, x_direction) = moving.x_distance_direction_from(false, cur_pos);
            let (y_distance, _) = moving.y_distance_direction_from(false, cur_pos);
            update_from_auto_mob_action(
                resources,
                player,
                minimap_state,
                mob,
                x_distance,
                x_direction,
                y_distance,
            );
        },
        Some(PlayerAction::PingPong(ping_pong)) => {
            update_from_ping_pong_action(resources, player, minimap_state, ping_pong, cur_pos);
        },
        _ => {
            transition(player, Player::Idle);
            assert(resources.input@ =~= old(resources).input@ + nothing);
        },
    }
}

/// Heading for a destination sends no key as long as a movement state or the
/// next sub-destination takes over, and the state that takes over heads for
/// the same destination from where the player stands, with a timeout that has
/// not started.
pub proof fn lemma_hop_keeps_destination(context: PlayerContext, coin: bool, moving: Moving)
    ensures
        match spec_next_hop(context, coin, moving) {
            Some(Player::DoubleJumping(next)) => next.moving == moving,
            Some(Player::Adjusting(next)) => next.moving == moving,
            Some(Player::Grappling(next)) => next.moving == moving
                && context.config.grappling_key is Some,
            Some(Player::UpJumping(next)) => next.moving == moving && next.keys_configured(
                context.config,
            ),
            Some(Player::Jumping(next)) => next == moving,
            Some(Player::Falling(next)) => next.moving == moving && next.anchor == moving.pos,
            Some(_) => false,
            None => true,
        },
{
}

/// A tick of heading for a destination writes no state that has passed its
/// deadline.
pub proof fn lemma_timeout_bounded(
    player: PlayerEntity,
    minimap_state: Minimap,
    rng: Rng,
    dest: Point,
    exact: bool,
    intermediates: Option<MovingIntermediates>,
)
    requires
        spec_stash_bounded(player.context),
    ensures
        spec_outcome_bounded(
            spec_update_moving_state(player, minimap_state, rng, dest, exact, intermediates),
        ),
{
}

/// The absolute value of `value`.
pub open spec fn spec_abs(value: int) -> int {
    if value < 0 {
        -value
    } else {
        value
    }
}

impl Default for Moving {
    fn default() -> (moving: Moving)
        ensures
            moving == (Moving {
                pos: Point { x: 0, y: 0 },
                dest: Point { x: 0, y: 0 },
                exact: false,
                completed: false,
                timeout: Timeout::spec_default(),
                intermediates: None,
            }),
    {
        Moving {
            pos: Point { x: 0, y: 0 },
            dest: Point { x: 0, y: 0 },
            exact: false,
            completed: false,
            timeout: Timeout::default(),
            intermediates: None,
        }
    }
}

} // verus!
