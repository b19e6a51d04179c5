//! Tick-counting deadlines and the lifecycle that every timed state goes through.
use vstd::prelude::*;

use crate::geometry::Point;
use crate::player::moving::Moving;

verus! {

/// A deadline counted in ticks.
#[derive(Clone, Copy, Debug, PartialEq, Eq, Structural)]
pub struct Timeout {
    /// Ticks counted toward the deadline. A state may set it back to zero or
    /// forward to the deadline.
    pub current: u32,
    /// Ticks counted since the start, whatever happened to `current`. It stops
    /// counting at `u32::MAX`.
    pub total: u32,
    /// Whether the first step has been taken.
    pub started: bool,
}

impl Timeout {
    /// The timeout that has not started.
    pub open spec fn spec_default() -> Timeout {
        Timeout { current: 0, total: 0, started: false }
    }
}

impl Default for Timeout {
    fn default() -> (timeout: Timeout)
        ensures
            timeout == Timeout::spec_default(),
    {
        Timeout { current: 0, total: 0, started: false }
    }
}

/// The phase that one step of a [`Timeout`] is in.
#[derive(Clone, Copy, Debug, PartialEq, Eq, Structural)]
pub enum Lifecycle {
    /// The first step: the timeout has just started.
    Started(Timeout),
    /// The deadline was reached.
    Ended,
    /// One more tick was counted.
    Updated(Timeout),
}

/// `total` one tick later.
pub open spec fn spec_next_total(total: u32) -> u32 {
    if total < u32::MAX {
        (total + 1) as u32
    } else {
        total
    }
}

/// The step that `timeout` takes toward the deadline `max_timeout`.
///
/// A timeout that has not started starts, from zero. A started one that has
/// reached the deadline ends. Any other counts one tick.
pub open spec fn spec_next_timeout_lifecycle(timeout: Timeout, max_timeout: u32) -> Lifecycle {
    if !timeout.started {
        Lifecycle::Started(Timeout { current: 0, total: 0, started: true })
    } else if timeout.current >= max_timeout {
        Lifecycle::Ended
    } else {
        Lifecycle::Updated(
            Timeout {
                current: (timeout.current + 1) as u32,
                total: spec_next_total(timeout.total),
                started: true,
            },
        )
    }
}

/// Takes one step of `timeout` toward `max_timeout`.
pub fn next_timeout_lifecycle(timeout: Timeout, max_timeout: u32) -> (lifecycle: Lifecycle)
    ensures
        lifecycle == spec_next_timeout_lifecycle(timeout, max_timeout),
{
    if !timeout.started {
        Lifecycle::Started(Timeout { current: 0, total: 0, started: true })
    } else if timeout.current >= max_timeout {
        Lifecycle::Ended
    } else {
        let total: u32 = if timeout.total < u32::MAX {
            timeout.total + 1
        } else {
            timeout.total
        };
        Lifecycle::Updated(Timeout { current: timeout.current + 1, total, started: true })
    }
}

/// The timeout with which `lifecycle` goes on, if it has not ended.
pub open spec fn lifecycle_timeout(lifecycle: Lifecycle) -> Option<Timeout> {
    match lifecycle {
        Lifecycle::Started(timeout) => Some(timeout),
        Lifecycle::Updated(timeout) => Some(timeout),
        Lifecycle::Ended => None,
    }
}

/// A step never takes `current` past the deadline, keeps `total` at or above
/// `current` where it was so before, and ends only a timeout that has reached
/// the deadline.
pub proof fn lemma_timeout_step_bounds(timeout: Timeout, max_timeout: u32)
    ensures
        match spec_next_timeout_lifecycle(timeout, max_timeout) {
            Lifecycle::Started(next) => !timeout.started && next.started && next.current == 0
                && next.total == 0,
            Lifecycle::Updated(next) => timeout.started && next.started && next.current
                <= max_timeout && next.current == timeout.current + 1 && (timeout.total
                >= timeout.current ==> next.total >= next.current),
            Lifecycle::Ended => timeout.started && timeout.current >= max_timeout,
        },
{
}

/// The timeout after `ticks` steps that follow its start.
pub open spec fn timeout_after(max_timeout: u32, ticks: nat) -> Option<Timeout>
    decreases ticks,
{
    if ticks == 0 {
        Some(Timeout { current: 0, total: 0, started: true })
    } else {
        match timeout_after(max_timeout, (ticks - 1) as nat) {
            Some(timeout) => lifecycle_timeout(spec_next_timeout_lifecycle(timeout, max_timeout)),
            None => None,
        }
    }
}

/// A timeout that is left alone counts exactly `max_timeout` ticks after its
/// start and ends at the next step: the start and the end each come once.
pub proof fn lemma_timeout_runs_to_deadline(max_timeout: u32, ticks: nat)
    ensures
        ticks <= max_timeout ==> timeout_after(max_timeout, ticks) == Some(
            Timeout { current: ticks as u32, total: ticks as u32, started: true },
        ),
        ticks > max_timeout ==> timeout_after(max_timeout, ticks) is None,
    decreases ticks,
{
    if ticks > 0 {
        lemma_timeout_runs_to_deadline(max_timeout, (ticks - 1) as nat);
    }
}

/// The axis along which a movement state watches the player's position.
#[derive(Clone, Copy, Debug, PartialEq, Eq, Structural)]
pub enum ChangeAxis {
    Horizontal,
    Vertical,
    Both,
}

/// The phase that one step of a [`Moving`] is in, with the movement as it goes on.
#[derive(Clone, Copy, Debug)]
pub enum MovingLifecycle {
    Started(Moving),
    Ended(Moving),
    Updated(Moving),
}

/// The step that `moving` takes when the player is observed at `cur_pos`.
///
/// The observed position replaces the movement's position, and the timeout
/// takes one step toward `max_timeout`: it counts one tick wherever the player
/// is observed, whichever axis the state watches.
pub open spec fn spec_next_moving_lifecycle_with_axis(
    moving: Moving,
    cur_pos: Point,
    max_timeout: u32,
    axis: ChangeAxis,
) -> MovingLifecycle {
    match spec_next_timeout_lifecycle(moving.timeout, max_timeout) {
        Lifecycle::Started(timeout) => MovingLifecycle::Started(
            Moving { pos: cur_pos, timeout, ..moving },
        ),
        Lifecycle::Ended => MovingLifecycle::Ended(Moving { pos: cur_pos, ..moving }),
        Lifecycle::Updated(timeout) => MovingLifecycle::Updated(
            Moving { pos: cur_pos, timeout, ..moving },
        ),
    }
}

/// Takes one step of `moving` with the player observed at `cur_pos`.
#[allow(unused_variables)]
pub fn next_moving_lifecycle_with_axis(
    moving: Moving,
    cur_pos: Point,
    max_timeout: u32,
    axis: ChangeAxis,
) -> (lifecycle: MovingLifecycle)
    ensures
        lifecycle == spec_next_moving_lifecycle_with_axis(moving, cur_pos, max_timeout, axis),
{
    match next_timeout_lifecycle(moving.timeout, max_timeout) {
        Lifecycle::Started(timeout) => MovingLifecycle::Started(moving.pos(cur_pos).timeout(timeout)),
        Lifecycle::Ended => MovingLifecycle::Ended(moving.pos(cur_pos)),
        Lifecycle::Updated(timeout) => MovingLifecycle::Updated(moving.pos(cur_pos).timeout(timeout)),
    }
}

/// The movement that `lifecycle` carries.
pub open spec fn lifecycle_moving(lifecycle: MovingLifecycle) -> Moving {
    match lifecycle {
        MovingLifecycle::Started(moving) => moving,
        MovingLifecycle::Ended(moving) => moving,
        MovingLifecycle::Updated(moving) => moving,
    }
}

/// A step of a movement takes the observed position in, leaves the destination,
/// the exactness, the completion and the intermediates alone, starts a timeout
/// that has not started, counts exactly one tick on a started timeout below
/// the deadline, whatever the position, never takes `current` past the
/// deadline, and keeps `total` at or above `current` where it was so before.
pub proof fn lemma_moving_step_bounds(
    moving: Moving,
    cur_pos: Point,
    max_timeout: u32,
    axis: ChangeAxis,
)
    ensures
        ({
            let lifecycle = spec_next_moving_lifecycle_with_axis(moving, cur_pos, max_timeout, axis);
            let next = lifecycle_moving(lifecycle);
            &&& next.pos == cur_pos
            &&& next.dest == moving.dest
            &&& next.exact == moving.exact
            &&& next.completed == moving.completed
            &&& next.intermediates == moving.intermediates
            &&& lifecycle is Started <==> !moving.timeout.started
            &&& lifecycle is Ended <==> moving.timeout.started && moving.timeout.current
                >= max_timeout
            &&& !(lifecycle is Ended) ==> next.timeout.started && next.timeout.current
                <= max_timeout
            &&& lifecycle is Ended ==> next.timeout == moving.timeout
            &&& lifecycle is Updated <==> moving.timeout.started && moving.timeout.current
                < max_timeout
            &&& lifecycle is Updated ==> next.timeout.current == moving.timeout.current + 1
            &&& moving.timeout.total >= moving.timeout.current ==> next.timeout.total
                >= next.timeout.current
        }),
{
}

} // verus!
