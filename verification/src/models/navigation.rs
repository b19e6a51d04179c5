//! Recorded paths between maps.
use vstd::prelude::*;

use crate::models::Identifiable;

verus! {

/// A named group of paths.
#[derive(PartialEq, Eq, Clone, Debug)]
pub struct NavigationPaths {
    pub id: Option<i64>,
    pub name: String,
    pub paths: Vec<NavigationPath>,
}

impl Identifiable for NavigationPaths {
    fn id(&self) -> (id: Option<i64>)
        ensures
            id == self.id,
    {
        self.id
    }

    fn set_id(&mut self, id: i64)
        ensures
            final(self).id == Some(id),
            final(self).name == old(self).name,
            final(self).paths == old(self).paths,
    {
        self.id = Some(id);
    }
}

impl Default for NavigationPaths {
    fn default() -> (paths: NavigationPaths)
        ensures
            paths.id is None,
            paths.name@ == Seq::<char>::empty(),
            paths.paths@ == Seq::<NavigationPath>::empty(),
    {
        NavigationPaths { id: None, name: String::new(), paths: Vec::new() }
    }
}

/// One map of a path: how it is recognised and the points that lead on.
#[derive(PartialEq, Eq, Clone, Debug)]
pub struct NavigationPath {
    pub minimap_snapshot_base64: String,
    pub minimap_snapshot_grayscale: bool,
    pub name_snapshot_base64: String,
    pub name_snapshot_width: i32,
    pub name_snapshot_height: i32,
    pub points: Vec<NavigationPoint>,
}

impl Default for NavigationPath {
    fn default() -> (path: NavigationPath)
        ensures
            path.minimap_snapshot_base64@ == Seq::<char>::empty(),
            !path.minimap_snapshot_grayscale,
            path.name_snapshot_base64@ == Seq::<char>::empty(),
            path.name_snapshot_width == 0,
            path.name_snapshot_height == 0,
            path.points@ == Seq::<NavigationPoint>::empty(),
    {
        NavigationPath {
            minimap_snapshot_base64: String::new(),
            minimap_snapshot_grayscale: false,
            name_snapshot_base64: String::new(),
            name_snapshot_width: 0,
            name_snapshot_height: 0,
            points: Vec::new(),
        }
    }
}

/// A point of a map from which the player goes on to another path.
#[derive(PartialEq, Eq, Clone, Copy, Debug)]
pub struct NavigationPoint {
    /// The identifier of the group that follows and the index of the path in it.
    pub next_paths_id_index: Option<(i64, usize)>,
    pub x: i32,
    pub y: i32,
    pub transition: NavigationTransition,
}

impl Default for NavigationPoint {
    fn default() -> (point: NavigationPoint)
        ensures
            point == (NavigationPoint {
                next_paths_id_index: None,
                x: 0,
                y: 0,
                transition: NavigationTransition::Portal,
            }),
    {
        NavigationPoint {
            next_paths_id_index: None,
            x: 0,
            y: 0,
            transition: NavigationTransition::Portal,
        }
    }
}

/// How the player leaves a map at a point.
#[derive(Clone, Copy, PartialEq, Eq, Structural, Debug, Hash)]
pub enum NavigationTransition {
    Portal,
}

impl Default for NavigationTransition {
    fn default() -> (transition: NavigationTransition)
        ensures
            transition == NavigationTransition::Portal,
    {
        NavigationTransition::Portal
    }
}

} // verus!
