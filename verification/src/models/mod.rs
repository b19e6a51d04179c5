//! The records that the engine is configured with.
use vstd::prelude::*;

pub mod actions;
pub mod keys;
pub mod localization;
pub mod navigation;
pub mod seeds;

pub use actions::{ActionKeyDirection, ActionKeyWith, Position};
pub use keys::{KeyBinding, KeyBindingConfiguration, LinkKeyBinding, MobbingKey};
pub use localization::Localization;
pub use navigation::{NavigationPath, NavigationPaths, NavigationPoint, NavigationTransition};
pub use seeds::Seeds;

verus! {

/// A record that a store can give an identifier to.
///
/// The records of this library say in their own contracts what the two
/// methods do to them.
pub trait Identifiable {
    /// The identifier that the record has, if it was stored.
    fn id(&self) -> Option<i64>;

    /// Gives the record the identifier `id`.
    fn set_id(&mut self, id: i64);
}

} // verus!
