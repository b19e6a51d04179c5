//! Key bindings as the user configures them.
use vstd::prelude::*;

use crate::models::actions::ActionKeyWith;

verus! {

/// A key binding that can be switched off.
#[derive(Clone, Copy, PartialEq, Eq, Structural, Debug)]
pub struct KeyBindingConfiguration {
    pub key: KeyBinding,
    pub enabled: bool,
}

impl Default for KeyBindingConfiguration {
    fn default() -> (configuration: KeyBindingConfiguration)
        ensures
            configuration == (KeyBindingConfiguration { key: KeyBinding::A, enabled: false }),
    {
        KeyBindingConfiguration { key: KeyBinding::A, enabled: false }
    }
}

/// A key that an action can be bound to.
#[derive(Clone, Copy, PartialEq, Eq, Structural, Debug, Hash)]
pub enum KeyBinding {
    A,
    B,
    C,
    D,
    E,
    F,
    G,
    H,
    I,
    J,
    K,
    L,
    M,
    N,
    O,
    P,
    Q,
    R,
    S,
    T,
    U,
    V,
    W,
    X,
    Y,
    Z,
    Zero,
    One,
    Two,
    Three,
    Four,
    Five,
    Six,
    Seven,
    Eight,
    Nine,
    F1,
    F2,
    F3,
    F4,
    F5,
    F6,
    F7,
    F8,
    F9,
    F10,
    F11,
    F12,
    Up,
    Down,
    Left,
    Right,
    Home,
    End,
    PageUp,
    PageDown,
    Insert,
    Delete,
    Enter,
    Space,
    Tilde,
    Quote,
    Semicolon,
    Comma,
    Period,
    Slash,
    Esc,
    Shift,
    Ctrl,
    Alt,
    Backspace,
}

impl Default for KeyBinding {
    fn default() -> (key: KeyBinding)
        ensures
            key == KeyBinding::A,
    {
        KeyBinding::A
    }
}

/// A second key that goes with an action's key, and when it is pressed.
#[derive(Clone, Copy, PartialEq, Eq, Structural, Debug, Hash)]
pub enum LinkKeyBinding {
    Unlinked,
    Before(KeyBinding),
    AtTheSame(KeyBinding),
    After(KeyBinding),
    Along(KeyBinding),
}

impl Default for LinkKeyBinding {
    fn default() -> (link: LinkKeyBinding)
        ensures
            link == LinkKeyBinding::Unlinked,
    {
        LinkKeyBinding::Unlinked
    }
}

impl LinkKeyBinding {
    /// The linked key, whenever it is pressed.
    pub open spec fn spec_key(self) -> Option<KeyBinding> {
        match self {
            LinkKeyBinding::Unlinked => None,
            LinkKeyBinding::Before(key) => Some(key),
            LinkKeyBinding::AtTheSame(key) => Some(key),
            LinkKeyBinding::After(key) => Some(key),
            LinkKeyBinding::Along(key) => Some(key),
        }
    }

    /// The same kind of link with `key` in place of its key.
    pub open spec fn spec_with_key(self, key: KeyBinding) -> LinkKeyBinding {
        match self {
            LinkKeyBinding::Unlinked => LinkKeyBinding::Unlinked,
            LinkKeyBinding::Before(_) => LinkKeyBinding::Before(key),
            LinkKeyBinding::AtTheSame(_) => LinkKeyBinding::AtTheSame(key),
            LinkKeyBinding::After(_) => LinkKeyBinding::After(key),
            LinkKeyBinding::Along(_) => LinkKeyBinding::Along(key),
        }
    }

    /// The linked key, if the link has one.
    pub fn key(&self) -> (key: Option<KeyBinding>)
        ensures
            key == self.spec_key(),
            key is None <==> *self == LinkKeyBinding::Unlinked,
    {
        match self {
            LinkKeyBinding::Before(key)
            | LinkKeyBinding::AtTheSame(key)
            | LinkKeyBinding::After(key)
            | LinkKeyBinding::Along(key) => Some(*key),
            LinkKeyBinding::Unlinked => None,
        }
    }

    /// Replaces the linked key and keeps the kind of link. A link without a key
    /// stays without one.
    pub fn with_key(&self, key: KeyBinding) -> (link: LinkKeyBinding)
        ensures
            link == self.spec_with_key(key),
            *self != LinkKeyBinding::Unlinked ==> link.spec_key() == Some(key),
    {
        match self {
            LinkKeyBinding::Before(_) => LinkKeyBinding::Before(key),
            LinkKeyBinding::AtTheSame(_) => LinkKeyBinding::AtTheSame(key),
            LinkKeyBinding::After(_) => LinkKeyBinding::After(key),
            LinkKeyBinding::Along(_) => LinkKeyBinding::Along(key),
            LinkKeyBinding::Unlinked => LinkKeyBinding::Unlinked,
        }
    }
}

/// Replacing the key of a link twice is the same as replacing it with the
/// second key, and reading the key back gives the key that was put in.
pub proof fn lemma_with_key_overwrites(link: LinkKeyBinding, first: KeyBinding, second: KeyBinding)
    ensures
        link.spec_with_key(first).spec_with_key(second) == link.spec_with_key(second),
        link.spec_key() is Some ==> link.spec_with_key(first).spec_key() == Some(first),
        link.spec_key() matches Some(key) ==> link.spec_with_key(key) == link,
{
}

/// The key that attacks mobs, and how it is pressed.
#[derive(Clone, Copy, PartialEq, Eq, Structural, Debug)]
pub struct MobbingKey {
    pub key: KeyBinding,
    pub key_hold_millis: u64,
    pub link_key: LinkKeyBinding,
    pub count: u32,
    pub with: ActionKeyWith,
    pub wait_before_millis: u64,
    pub wait_before_millis_random_range: u64,
    pub wait_after_millis: u64,
    pub wait_after_millis_random_range: u64,
}

impl Default for MobbingKey {
    fn default() -> (key: MobbingKey)
        ensures
            key == (MobbingKey {
                key: KeyBinding::A,
                key_hold_millis: 0,
                link_key: LinkKeyBinding::Unlinked,
                count: 1,
                with: ActionKeyWith::Any,
                wait_before_millis: 0,
                wait_before_millis_random_range: 0,
                wait_after_millis: 0,
                wait_after_millis_random_range: 0,
            }),
    {
        MobbingKey {
            key: KeyBinding::A,
            key_hold_millis: 0,
            link_key: LinkKeyBinding::Unlinked,
            count: count_default(),
            with: ActionKeyWith::Any,
            wait_before_millis: 0,
            wait_before_millis_random_range: 0,
            wait_after_millis: 0,
            wait_after_millis_random_range: 0,
        }
    }
}

/// The number of presses of a key for which none was configured.
pub fn count_default() -> (count: u32)
    ensures
        count == 1,
{
    1
}

} // verus!
