//! What the engine knows of the minimap in a tick.
use vstd::prelude::*;

use crate::array::Array;
use crate::geometry::{Point, Rect};

verus! {

/// The most portals that a minimap is tracked with.
pub const MAX_PORTALS: usize = 16;

/// The minimap as it was observed for this tick.
#[derive(Clone, Copy, Debug)]
pub enum Minimap {
    /// The minimap is not known: it is still being looked for.
    Detecting,
    /// The minimap is known.
    Idle(MinimapIdle),
}

/// A known minimap.
#[derive(Clone, Copy, Debug)]
pub struct MinimapIdle {
    /// Where the minimap sits on the screen, and its size.
    pub bbox: Rect,
    /// The number of other players that the minimap shows.
    pub other_players: u32,
    /// The portals of the map, in minimap coordinates.
    pub portals: Array<Rect, 16>,
}

impl MinimapIdle {
    /// The bounding box and every portal are in range.
    pub open spec fn in_range(self) -> bool {
        &&& self.bbox.in_range()
        &&& forall|i: int| 0 <= i < self.portals@.len() ==> (#[trigger] self.portals@[i]).in_range()
    }

    pub open spec fn spec_has_any_other_player(self) -> bool {
        self.other_players > 0
    }

    /// Some portal contains `pos`.
    pub open spec fn spec_is_position_inside_portal(self, pos: Point) -> bool {
        exists|i: int| 0 <= i < self.portals@.len() && (#[trigger] self.portals@[i]).spec_contains(pos)
    }

    /// Tells whether the minimap shows a player other than the engine's.
    pub fn has_any_other_player(&self) -> (any: bool)
        ensures
            any == self.spec_has_any_other_player(),
    {
        self.other_players > 0
    }

    /// Tells whether `pos` lies inside one of the portals.
    pub fn is_position_inside_portal(&self, pos: Point) -> (inside: bool)
        requires
            self.in_range(),
        ensures
            inside == self.spec_is_position_inside_portal(pos),
    {
        let mut i: usize = 0;
        while i < self.portals.len()
            invariant
                self.in_range(),
                i <= self.portals@.len(),
                forall|j: int| 0 <= j < i ==> !(#[trigger] self.portals@[j]).spec_contains(pos),
            decreases self.portals@.len() - i,
        {
            match self.portals.get(i) {
                Some(portal) => {
                    if portal.contains(pos) {
                        return true;
                    }
                },
                None => {},
            }
            i = i + 1;
        }
        false
    }

    /// Tells whether the bounding box and every portal are in range.
    pub fn is_in_range(&self) -> (ok: bool)
        ensures
            ok == self.in_range(),
    {
        if !self.bbox.is_in_range() {
            return false;
        }
        let mut i: usize = 0;
        while i < self.portals.len()
            invariant
                i <= self.portals@.len(),
                forall|j: int| 0 <= j < i ==> (#[trigger] self.portals@[j]).in_range(),
            decreases self.portals@.len() - i,
        {
            match self.portals.get(i) {
                Some(portal) => {
                    if !portal.is_in_range() {
                        return false;
                    }
                },
                None => {},
            }
            i = i + 1;
        }
        true
    }
}

impl Default for MinimapIdle {
    fn default() -> (idle: MinimapIdle)
        ensures
            idle.bbox == (Rect { x: 0, y: 0, width: 0, height: 0 }),
            idle.other_players == 0,
            idle.portals@ == Seq::<Rect>::empty(),
    {
        MinimapIdle { bbox: Rect::default(), other_players: 0, portals: Array::new() }
    }
}

impl Minimap {
    /// A known minimap is in range; an unknown one always is.
    pub open spec fn in_range(self) -> bool {
        self matches Minimap::Idle(idle) ==> idle.in_range()
    }

    /// The player at `pos` stands inside a portal of a known minimap.
    pub open spec fn spec_is_inside_portal(self, pos: Point) -> bool {
        self matches Minimap::Idle(idle) && idle.spec_is_position_inside_portal(pos)
    }

    /// A known minimap shows another player.
    pub open spec fn spec_has_any_other_player(self) -> bool {
        self matches Minimap::Idle(idle) && idle.spec_has_any_other_player()
    }

    pub fn is_in_range(&self) -> (ok: bool)
        ensures
            ok == self.in_range(),
    {
        match self {
            Minimap::Idle(idle) => idle.is_in_range(),
            Minimap::Detecting => true,
        }
    }
}

} // verus!
