//! How a configured action wants its key used.
use vstd::prelude::*;

verus! {

/// The movement under which an action's key is used.
#[derive(Clone, Copy, Debug, PartialEq, Eq, Structural, Hash)]
pub enum ActionKeyWith {
    /// In whatever movement the player is.
    Any,
    /// Only while the player stands still.
    Stationary,
    /// In the middle of a double jump.
    DoubleJump,
}

impl Default for ActionKeyWith {
    fn default() -> (with: ActionKeyWith)
        ensures
            with == ActionKeyWith::Any,
    {
        ActionKeyWith::Any
    }
}

/// The direction that the player faces when a key is used.
#[derive(Clone, Copy, Debug, PartialEq, Eq, Structural, Hash)]
pub enum ActionKeyDirection {
    Any,
    Left,
    Right,
}

impl Default for ActionKeyDirection {
    fn default() -> (direction: ActionKeyDirection)
        ensures
            direction == ActionKeyDirection::Any,
    {
        ActionKeyDirection::Any
    }
}

/// A place of the minimap at which an action is carried out.
#[derive(Clone, Copy, Debug, PartialEq, Eq, Structural, Hash)]
pub struct Position {
    pub x: i32,
    pub y: i32,
    /// Whether the player walks the last steps to match `x`.
    pub allow_adjusting: bool,
}

impl Default for Position {
    fn default() -> (position: Position)
        ensures
            position == (Position { x: 0, y: 0, allow_adjusting: false }),
    {
        Position { x: 0, y: 0, allow_adjusting: false }
    }
}

} // verus!
