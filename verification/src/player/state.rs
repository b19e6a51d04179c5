//! The blackboard that the player's states read and write from tick to tick.
use vstd::prelude::*;

use crate::bridge::{InputEvent, KeyKind};
use crate::ecs::Resources;
use crate::geometry::Point;
use crate::models::ActionKeyDirection;
use crate::player::actions::PlayerAction;
use crate::player::timeout::Timeout;
use crate::player::Player;

verus! {

/// Smallest x distance from which the player double jumps.
pub const DOUBLE_JUMP_THRESHOLD: i32 = 25;

/// Smallest x distance from which the player double jumps toward a mob.
pub const DOUBLE_JUMP_AUTO_MOB_THRESHOLD: i32 = 17;

/// Number of times a mob's height has to be reached before it counts as
/// reachable for good.
pub const AUTO_MOB_REACHABLE_Y_SOLIDIFY_COUNT: u32 = 4;

/// The movement that a state last committed to.
#[derive(Clone, Copy, Debug, PartialEq, Eq, Structural)]
pub enum LastMovement {
    Adjusting,
    DoubleJumping,
    Falling,
    Grappling,
    UpJumping,
    Jumping,
}

/// The keys and switches that the player is configured with.
#[derive(Clone, Copy, Debug, PartialEq, Eq, Structural)]
pub struct PlayerConfiguration {
    pub jump_key: KeyKind,
    pub cash_shop_key: Option<KeyKind>,
    pub change_channel_key: Option<KeyKind>,
    pub to_town_key: Option<KeyKind>,
    pub grappling_key: Option<KeyKind>,
    pub teleport_key: Option<KeyKind>,
    pub up_jump_key: Option<KeyKind>,
    pub vip_booster_key: KeyKind,
    pub hexa_booster_key: KeyKind,
    pub disable_double_jumping: bool,
    pub disable_teleport_on_fall: bool,
    pub up_jump_specific_key_should_jump: bool,
    pub up_jump_is_flight: bool,
}

impl PlayerConfiguration {
    /// Every key is `A` or unset and every switch is off.
    pub open spec fn spec_default() -> PlayerConfiguration {
        PlayerConfiguration {
            jump_key: KeyKind::A,
            cash_shop_key: None,
            change_channel_key: None,
            to_town_key: None,
            grappling_key: None,
            teleport_key: None,
            up_jump_key: None,
            vip_booster_key: KeyKind::A,
            hexa_booster_key: KeyKind::A,
            disable_double_jumping: false,
            disable_teleport_on_fall: false,
            up_jump_specific_key_should_jump: false,
            up_jump_is_flight: false,
        }
    }
}

impl Default for PlayerConfiguration {
    fn default() -> (config: PlayerConfiguration)
        ensures
            config == PlayerConfiguration::spec_default(),
    {
        PlayerConfiguration {
            jump_key: KeyKind::A,
            cash_shop_key: None,
            change_channel_key: None,
            to_town_key: None,
            grappling_key: None,
            teleport_key: None,
            up_jump_key: None,
            vip_booster_key: KeyKind::A,
            hexa_booster_key: KeyKind::A,
            disable_double_jumping: false,
            disable_teleport_on_fall: false,
            up_jump_specific_key_should_jump: false,
            up_jump_is_flight: false,
        }
    }
}

/// A stall that runs in the background while the player keeps moving.
#[derive(Clone, Copy, Debug, PartialEq, Eq, Structural)]
pub struct StallingBuffered {
    /// The deadline of the stall, while one is running.
    pub timeout: Option<Timeout>,
    /// A movement may cut the stall short.
    pub interruptible: bool,
    /// The key that is held for the length of the stall.
    pub held_key: Option<KeyKind>,
}

impl StallingBuffered {
    /// No stall is running.
    pub open spec fn spec_default() -> StallingBuffered {
        StallingBuffered { timeout: None, interruptible: false, held_key: None }
    }

    pub open spec fn spec_stalling(self) -> bool {
        self.timeout is Some
    }

    /// The key-up event of the held key, if a key is held.
    pub open spec fn release_events(self) -> Seq<InputEvent> {
        match self.held_key {
            Some(key) => seq![InputEvent::KeyUp(key)],
            None => Seq::empty(),
        }
    }

    /// Tells whether a stall is running.
    pub fn stalling(&self) -> (stalling: bool)
        ensures
            stalling == self.spec_stalling(),
    {
        self.timeout.is_some()
    }
}

impl Default for StallingBuffered {
    fn default() -> (buffered: StallingBuffered)
        ensures
            buffered == StallingBuffered::spec_default(),
    {
        StallingBuffered { timeout: None, interruptible: false, held_key: None }
    }
}

/// What the player knows from tick to tick, whatever state it is in.
#[derive(Clone, Copy, Debug)]
pub struct PlayerContext {
    pub config: PlayerConfiguration,
    /// Where the player was last seen, if it ever was.
    pub last_known_pos: Option<Point>,
    pub last_known_direction: ActionKeyDirection,
    pub is_stationary: bool,
    /// The player's velocity along x and y, in thousandths of a minimap unit
    /// per tick.
    pub velocity: (i32, i32),
    pub last_movement: Option<LastMovement>,
    pub stalling_buffered: StallingBuffered,
    /// The state to go back to when a stall ends. It is used once.
    pub stalling_timeout_state: Option<Player>,
    /// The height of the mob that is being checked for reachability.
    pub auto_mob_reachable_y: Option<i32>,
    /// How many times that height was reached.
    pub auto_mob_reachable_y_count: u32,
    pub vip_booster_fail_count: u32,
    pub unstuck_counter: u32,
    pub unstuck_consecutive_counter: u32,
    /// The action that goes before the normal one.
    pub priority_action: Option<PlayerAction>,
    pub normal_action: Option<PlayerAction>,
}

impl PlayerContext {
    /// The context of a player of which nothing is known yet.
    pub open spec fn spec_default() -> PlayerContext {
        PlayerContext {
            config: PlayerConfiguration::spec_default(),
            last_known_pos: None,
            last_known_direction: ActionKeyDirection::Any,
            is_stationary: false,
            velocity: (0i32, 0i32),
            last_movement: None,
            stalling_buffered: StallingBuffered::spec_default(),
            stalling_timeout_state: None,
            auto_mob_reachable_y: None,
            auto_mob_reachable_y_count: 0,
            vip_booster_fail_count: 0,
            unstuck_counter: 0,
            unstuck_consecutive_counter: 0,
            priority_action: None,
            normal_action: None,
        }
    }

    /// The head of the action queue.
    pub open spec fn spec_next_action(self) -> Option<PlayerAction> {
        if self.priority_action is Some {
            self.priority_action
        } else {
            self.normal_action
        }
    }

    /// The context once the head of the action queue is marked as completed:
    /// a completed head leaves the queue, so that no completion stays in
    /// flight. The priority action is the head while there is one.
    pub open spec fn spec_clear_action_completed(self) -> PlayerContext {
        if self.priority_action is Some {
            PlayerContext { priority_action: None, ..self }
        } else {
            PlayerContext { normal_action: None, ..self }
        }
    }

    /// The only action in the queue is an auto-mob action.
    pub open spec fn spec_has_auto_mob_action_only(self) -> bool {
        self.priority_action is None && self.normal_action matches Some(PlayerAction::AutoMob(_))
    }

    /// The x distance from which the player double jumps.
    pub open spec fn spec_double_jump_threshold(self, is_intermediate: bool) -> int {
        if !is_intermediate && self.spec_has_auto_mob_action_only() {
            DOUBLE_JUMP_AUTO_MOB_THRESHOLD as int
        } else {
            DOUBLE_JUMP_THRESHOLD as int
        }
    }

    /// The mob's height `y` has not been reached often enough to count as
    /// reachable for good.
    pub open spec fn spec_auto_mob_reachable_y_require_update(self, y: i32) -> bool {
        !(self.auto_mob_reachable_y == Some(y) && self.auto_mob_reachable_y_count
            >= AUTO_MOB_REACHABLE_Y_SOLIDIFY_COUNT)
    }

    /// The context once the mob's height `y` was reached one more time.
    pub open spec fn spec_auto_mob_track_reachable_y(self, y: i32) -> PlayerContext {
        if self.auto_mob_reachable_y == Some(y) {
            PlayerContext {
                auto_mob_reachable_y_count: if self.auto_mob_reachable_y_count < u32::MAX {
                    (self.auto_mob_reachable_y_count + 1) as u32
                } else {
                    self.auto_mob_reachable_y_count
                },
                ..self
            }
        } else {
            PlayerContext { auto_mob_reachable_y: Some(y), auto_mob_reachable_y_count: 1, ..self }
        }
    }

    /// The context once the buffered stall is given up.
    pub open spec fn spec_clear_stalling_buffer_states(self) -> PlayerContext {
        PlayerContext { stalling_buffered: StallingBuffered::spec_default(), ..self }
    }

    /// The next count of failed boosters: it stops at `u32::MAX`.
    pub open spec fn spec_track_vip_booster_fail_count(self) -> PlayerContext {
        PlayerContext {
            vip_booster_fail_count: if self.vip_booster_fail_count < u32::MAX {
                (self.vip_booster_fail_count + 1) as u32
            } else {
                self.vip_booster_fail_count
            },
            ..self
        }
    }

    /// Marks the head of the action queue as completed.
    pub fn clear_action_completed(&mut self)
        ensures
            *final(self) == old(self).spec_clear_action_completed(),
    {
        if self.priority_action.is_some() {
            self.priority_action = None;
        } else {
            self.normal_action = None;
        }
    }

    pub fn has_auto_mob_action_only(&self) -> (only: bool)
        ensures
            only == self.spec_has_auto_mob_action_only(),
    {
        match (self.priority_action, self.normal_action) {
            (None, Some(PlayerAction::AutoMob(_))) => true,
            _ => false,
        }
    }

    /// The x distance from which the player double jumps: shorter toward a mob,
    /// unless the destination is a sub-destination.
    pub fn double_jump_threshold(&self, is_intermediate: bool) -> (threshold: i32)
        ensures
            threshold == self.spec_double_jump_threshold(is_intermediate),
    {
        if !is_intermediate && self.has_auto_mob_action_only() {
            DOUBLE_JUMP_AUTO_MOB_THRESHOLD
        } else {
            DOUBLE_JUMP_THRESHOLD
        }
    }

    pub fn auto_mob_reachable_y_require_update(&self, y: i32) -> (required: bool)
        ensures
            required == self.spec_auto_mob_reachable_y_require_update(y),
    {
        match self.auto_mob_reachable_y {
            Some(seen) => !(seen == y && self.auto_mob_reachable_y_count
                >= AUTO_MOB_REACHABLE_Y_SOLIDIFY_COUNT),
            None => true,
        }
    }

    /// Records that the mob's height `y` was reached.
    pub fn auto_mob_track_reachable_y(&mut self, y: i32)
        ensures
            *final(self) == old(self).spec_auto_mob_track_reachable_y(y),
    {
        let same = match self.auto_mob_reachable_y {
            Some(seen) => seen == y,
            None => false,
        };
        if same {
            if self.auto_mob_reachable_y_count < u32::MAX {
                self.auto_mob_reachable_y_count = self.auto_mob_reachable_y_count + 1;
            }
        } else {
            self.auto_mob_reachable_y = Some(y);
            self.auto_mob_reachable_y_count = 1;
        }
    }

    /// Gives up the buffered stall and releases the key that it held.
    pub fn clear_stalling_buffer_states(&mut self, resources: &mut Resources)
        ensures
            *final(self) == old(self).spec_clear_stalling_buffer_states(),
            final(resources).sent(*old(resources), old(self).stalling_buffered.release_events()),
    {
        match self.stalling_buffered.held_key {
            Some(key) => {
                resources.input.send_key_up(key);
                assert(final(resources).input@ =~= old(resources).input@ + seq![
                    InputEvent::KeyUp(key),
                ]);
            },
            None => {
                assert(final(resources).input@ =~= old(resources).input@ + Seq::<
                    InputEvent,
                >::empty());
            },
        }
        self.stalling_buffered = StallingBuffered::default();
    }

    /// Gives up the buffered stall if it may be cut short.
    pub fn clear_stalling_buffer_states_if_possible(&mut self, resources: &mut Resources)
        ensures
            *final(self) == old(self).spec_clear_stalling_buffer_states_if_possible(),
            final(resources).sent(*old(resources), old(self).spec_clear_stalling_events()),
    {
        if self.stalling_buffered.interruptible {
            self.clear_stalling_buffer_states(resources);
        } else {
            assert(final(resources).input@ =~= old(resources).input@ + Seq::<InputEvent>::empty());
        }
    }

    /// The context once an interruptible buffered stall is given up.
    pub open spec fn spec_clear_stalling_buffer_states_if_possible(self) -> PlayerContext {
        if self.stalling_buffered.interruptible {
            self.spec_clear_stalling_buffer_states()
        } else {
            self
        }
    }

    /// The events that giving up an interruptible buffered stall sends.
    pub open spec fn spec_clear_stalling_events(self) -> Seq<InputEvent> {
        if self.stalling_buffered.interruptible {
            self.stalling_buffered.release_events()
        } else {
            Seq::empty()
        }
    }

    /// Counts one more failed booster.
    pub fn track_vip_booster_fail_count(&mut self)
        ensures
            *final(self) == old(self).spec_track_vip_booster_fail_count(),
    {
        if self.vip_booster_fail_count < u32::MAX {
            self.vip_booster_fail_count = self.vip_booster_fail_count + 1;
        }
    }

    /// Forgets the failed boosters.
    pub fn clear_vip_booster_fail_count(&mut self)
        ensures
            *final(self) == (PlayerContext { vip_booster_fail_count: 0, ..*old(self) }),
    {
        self.vip_booster_fail_count = 0;
    }
}

impl Default for PlayerContext {
    fn default() -> (context: PlayerContext)
        ensures
            context == PlayerContext::spec_default(),
    {
        PlayerContext {
            config: PlayerConfiguration::default(),
            last_known_pos: None,
            last_known_direction: ActionKeyDirection::Any,
            is_stationary: false,
            velocity: (0, 0),
            last_movement: None,
            stalling_buffered: StallingBuffered::default(),
            stalling_timeout_state: None,
            auto_mob_reachable_y: None,
            auto_mob_reachable_y_count: 0,
            vip_booster_fail_count: 0,
            unstuck_counter: 0,
            unstuck_consecutive_counter: 0,
            priority_action: None,
            normal_action: None,
        }
    }
}

} // verus!
