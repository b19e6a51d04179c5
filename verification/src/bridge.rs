//! The keyboard side of the engine: keys and the ordered record of key events
//! that a tick produces for the host to deliver.
use vstd::prelude::*;

use crate::models::keys::KeyBinding;

verus! {

/// A key of the keyboard that the engine can press.
#[derive(Clone, Copy, Debug, PartialEq, Eq, Structural, Hash)]
pub enum KeyKind {
    A,
    B,
    C,
    D,
    E,
    F,
    G,
    H,
    I,
    J,
    K,
    L,
    M,
    N,
    O,
    P,
    Q,
    R,
    S,
    T,
    U,
    V,
    W,
    X,
    Y,
    Z,
    Zero,
    One,
    Two,
    Three,
    Four,
    Five,
    Six,
    Seven,
    Eight,
    Nine,
    F1,
    F2,
    F3,
    F4,
    F5,
    F6,
    F7,
    F8,
    F9,
    F10,
    F11,
    F12,
    Up,
    Down,
    Left,
    Right,
    Home,
    End,
    PageUp,
    PageDown,
    Insert,
    Delete,
    Enter,
    Space,
    Tilde,
    Quote,
    Semicolon,
    Comma,
    Period,
    Slash,
    Esc,
    Shift,
    Ctrl,
    Alt,
    Backspace,
}

impl KeyKind {
    /// One of the four arrow keys.
    pub open spec fn spec_is_directional(self) -> bool {
        self == KeyKind::Up || self == KeyKind::Down || self == KeyKind::Left || self
            == KeyKind::Right
    }

    /// The key of the keyboard that a configured key stands for: the one of
    /// the same name.
    pub open spec fn spec_from_binding(binding: KeyBinding) -> KeyKind {
        match binding {
            KeyBinding::A => KeyKind::A,
            KeyBinding::B => KeyKind::B,
            KeyBinding::C => KeyKind::C,
            KeyBinding::D => KeyKind::D,
            KeyBinding::E => KeyKind::E,
            KeyBinding::F => KeyKind::F,
            KeyBinding::G => KeyKind::G,
            KeyBinding::H => KeyKind::H,
            KeyBinding::I => KeyKind::I,
            KeyBinding::J => KeyKind::J,
            KeyBinding::K => KeyKind::K,
            KeyBinding::L => KeyKind::L,
            KeyBinding::M => KeyKind::M,
            KeyBinding::N => KeyKind::N,
            KeyBinding::O => KeyKind::O,
            KeyBinding::P => KeyKind::P,
            KeyBinding::Q => KeyKind::Q,
            KeyBinding::R => KeyKind::R,
            KeyBinding::S => KeyKind::S,
            KeyBinding::T => KeyKind::T,
            KeyBinding::U => KeyKind::U,
            KeyBinding::V => KeyKind::V,
            KeyBinding::W => KeyKind::W,
            KeyBinding::X => KeyKind::X,
            KeyBinding::Y => KeyKind::Y,
            KeyBinding::Z => KeyKind::Z,
            KeyBinding::Zero => KeyKind::Zero,
            KeyBinding::One => KeyKind::One,
            KeyBinding::Two => KeyKind::Two,
            KeyBinding::Three => KeyKind::Three,
            KeyBinding::Four => KeyKind::Four,
            KeyBinding::Five => KeyKind::Five,
            KeyBinding::Six => KeyKind::Six,
            KeyBinding::Seven => KeyKind::Seven,
            KeyBinding::Eight => KeyKind::Eight,
            KeyBinding::Nine => KeyKind::Nine,
            KeyBinding::F1 => KeyKind::F1,
            KeyBinding::F2 => KeyKind::F2,
            KeyBinding::F3 => KeyKind::F3,
            KeyBinding::F4 => KeyKind::F4,
            KeyBinding::F5 => KeyKind::F5,
            KeyBinding::F6 => KeyKind::F6,
            KeyBinding::F7 => KeyKind::F7,
            KeyBinding::F8 => KeyKind::F8,
            KeyBinding::F9 => KeyKind::F9,
            KeyBinding::F10 => KeyKind::F10,
            KeyBinding::F11 => KeyKind::F11,
            KeyBinding::F12 => KeyKind::F12,
            KeyBinding::Up => KeyKind::Up,
            KeyBinding::Down => KeyKind::Down,
            KeyBinding::Left => KeyKind::Left,
            KeyBinding::Right => KeyKind::Right,
            KeyBinding::Home => KeyKind::Home,
            KeyBinding::End => KeyKind::End,
            KeyBinding::PageUp => KeyKind::PageUp,
            KeyBinding::PageDown => KeyKind::PageDown,
            KeyBinding::Insert => KeyKind::Insert,
            KeyBinding::Delete => KeyKind::Delete,
            KeyBinding::Enter => KeyKind::Enter,
            KeyBinding::Space => KeyKind::Space,
            KeyBinding::Tilde => KeyKind::Tilde,
            KeyBinding::Quote => KeyKind::Quote,
            KeyBinding::Semicolon => KeyKind::Semicolon,
            KeyBinding::Comma => KeyKind::Comma,
            KeyBinding::Period => KeyKind::Period,
            KeyBinding::Slash => KeyKind::Slash,
            KeyBinding::Esc => KeyKind::Esc,
            KeyBinding::Shift => KeyKind::Shift,
            KeyBinding::Ctrl => KeyKind::Ctrl,
            KeyBinding::Alt => KeyKind::Alt,
            KeyBinding::Backspace => KeyKind::Backspace,
        }
    }

    /// Turns a configured key into the key of the keyboard.
    pub fn from_binding(binding: KeyBinding) -> (key: KeyKind)
        ensures
            key == KeyKind::spec_from_binding(binding),
    {
        match binding {
            KeyBinding::A => KeyKind::A,
            KeyBinding::B => KeyKind::B,
            KeyBinding::C => KeyKind::C,
            KeyBinding::D => KeyKind::D,
            KeyBinding::E => KeyKind::E,
            KeyBinding::F => KeyKind::F,
            KeyBinding::G => KeyKind::G,
            KeyBinding::H => KeyKind::H,
            KeyBinding::I => KeyKind::I,
            KeyBinding::J => KeyKind::J,
            KeyBinding::K => KeyKind::K,
            KeyBinding::L => KeyKind::L,
            KeyBinding::M => KeyKind::M,
            KeyBinding::N => KeyKind::N,
            KeyBinding::O => KeyKind::O,
            KeyBinding::P => KeyKind::P,
            KeyBinding::Q => KeyKind::Q,
            KeyBinding::R => KeyKind::R,
            KeyBinding::S => KeyKind::S,
            KeyBinding::T => KeyKind::T,
            KeyBinding::U => KeyKind::U,
            KeyBinding::V => KeyKind::V,
            KeyBinding::W => KeyKind::W,
            KeyBinding::X => KeyKind::X,
            KeyBinding::Y => KeyKind::Y,
            KeyBinding::Z => KeyKind::Z,
            KeyBinding::Zero => KeyKind::Zero,
            KeyBinding::One => KeyKind::One,
            KeyBinding::Two => KeyKind::Two,
            KeyBinding::Three => KeyKind::Three,
            KeyBinding::Four => KeyKind::Four,
            KeyBinding::Five => KeyKind::Five,
            KeyBinding::Six => KeyKind::Six,
            KeyBinding::Seven => KeyKind::Seven,
            KeyBinding::Eight => KeyKind::Eight,
            KeyBinding::Nine => KeyKind::Nine,
            KeyBinding::F1 => KeyKind::F1,
            KeyBinding::F2 => KeyKind::F2,
            KeyBinding::F3 => KeyKind::F3,
            KeyBinding::F4 => KeyKind::F4,
            KeyBinding::F5 => KeyKind::F5,
            KeyBinding::F6 => KeyKind::F6,
            KeyBinding::F7 => KeyKind::F7,
            KeyBinding::F8 => KeyKind::F8,
            KeyBinding::F9 => KeyKind::F9,
            KeyBinding::F10 => KeyKind::F10,
            KeyBinding::F11 => KeyKind::F11,
            KeyBinding::F12 => KeyKind::F12,
            KeyBinding::Up => KeyKind::Up,
            KeyBinding::Down => KeyKind::Down,
            KeyBinding::Left => KeyKind::Left,
            KeyBinding::Right => KeyKind::Right,
            KeyBinding::Home => KeyKind::Home,
            KeyBinding::End => KeyKind::End,
            KeyBinding::PageUp => KeyKind::PageUp,
            KeyBinding::PageDown => KeyKind::PageDown,
            KeyBinding::Insert => KeyKind::Insert,
            KeyBinding::Delete => KeyKind::Delete,
            KeyBinding::Enter => KeyKind::Enter,
            KeyBinding::Space => KeyKind::Space,
            KeyBinding::Tilde => KeyKind::Tilde,
            KeyBinding::Quote => KeyKind::Quote,
            KeyBinding::Semicolon => KeyKind::Semicolon,
            KeyBinding::Comma => KeyKind::Comma,
            KeyBinding::Period => KeyKind::Period,
            KeyBinding::Slash => KeyKind::Slash,
            KeyBinding::Esc => KeyKind::Esc,
            KeyBinding::Shift => KeyKind::Shift,
            KeyBinding::Ctrl => KeyKind::Ctrl,
            KeyBinding::Alt => KeyKind::Alt,
            KeyBinding::Backspace => KeyKind::Backspace,
        }
    }

    pub fn is_directional(&self) -> (directional: bool)
        ensures
            directional == self.spec_is_directional(),
    {
        match self {
            KeyKind::Up | KeyKind::Down | KeyKind::Left | KeyKind::Right => true,
            _ => false,
        }
    }
}

impl Default for KeyKind {
    fn default() -> (key: KeyKind)
        ensures
            key == KeyKind::A,
    {
        KeyKind::A
    }
}

/// Options of a key-down event.
#[derive(Clone, Copy, Debug, PartialEq, Eq, Structural, Hash)]
pub struct InputKeyDownOptions {
    /// The key may be sent down again while it is already held.
    pub repeatable: bool,
}

impl InputKeyDownOptions {
    /// The same options, with repetition allowed.
    pub fn repeatable(self) -> (options: InputKeyDownOptions)
        ensures
            options == (InputKeyDownOptions { repeatable: true }),
    {
        InputKeyDownOptions { repeatable: true }
    }
}

impl Default for InputKeyDownOptions {
    fn default() -> (options: InputKeyDownOptions)
        ensures
            options == (InputKeyDownOptions { repeatable: false }),
    {
        InputKeyDownOptions { repeatable: false }
    }
}

/// One event handed to the keyboard.
#[derive(Clone, Copy, Debug, PartialEq, Eq, Structural, Hash)]
pub enum InputEvent {
    /// The key is pressed and released at once.
    Key(KeyKind),
    /// The key goes down and stays down.
    KeyDown(KeyKind, InputKeyDownOptions),
    /// The key is released.
    KeyUp(KeyKind),
}

/// A key-down event without options.
pub open spec fn key_down(key: KeyKind) -> InputEvent {
    InputEvent::KeyDown(key, InputKeyDownOptions { repeatable: false })
}

/// The key-down event that may repeat.
pub open spec fn key_down_repeatable(key: KeyKind) -> InputEvent {
    InputEvent::KeyDown(key, InputKeyDownOptions { repeatable: true })
}

/// The directional keys that `events` send down.
pub open spec fn held_down(events: Seq<InputEvent>) -> Set<KeyKind> {
    Set::new(
        |key: KeyKind|
            key.spec_is_directional() && exists|i: int, options: InputKeyDownOptions|
                0 <= i < events.len() && events[i] == InputEvent::KeyDown(key, options),
    )
}

/// The keys that `events` release.
pub open spec fn released(events: Seq<InputEvent>) -> Set<KeyKind> {
    Set::new(
        |key: KeyKind| exists|i: int| 0 <= i < events.len() && events[i] == InputEvent::KeyUp(key),
    )
}

/// The write-only sink of key events.
///
/// The events of a tick are kept in the order in which they were sent; the host
/// delivers them in that order and empties the sink.
#[derive(Debug)]
pub struct Input {
    events: Vec<InputEvent>,
}

impl View for Input {
    type V = Seq<InputEvent>;

    closed spec fn view(&self) -> Seq<InputEvent> {
        self.events@
    }
}

impl Input {
    pub fn new() -> (input: Input)
        ensures
            input@ == Seq::<InputEvent>::empty(),
    {
        Input { events: Vec::new() }
    }

    /// Presses and releases `key`.
    pub fn send_key(&mut self, key: KeyKind)
        ensures
            final(self)@ == old(self)@.push(InputEvent::Key(key)),
    {
        self.events.push(InputEvent::Key(key));
    }

    /// Sends `key` down.
    pub fn send_key_down(&mut self, key: KeyKind)
        ensures
            final(self)@ == old(self)@.push(key_down(key)),
    {
        self.events.push(InputEvent::KeyDown(key, InputKeyDownOptions { repeatable: false }));
    }

    /// Sends `key` down with `options`.
    pub fn send_key_down_with_options(&mut self, key: KeyKind, options: InputKeyDownOptions)
        ensures
            final(self)@ == old(self)@.push(InputEvent::KeyDown(key, options)),
    {
        self.events.push(InputEvent::KeyDown(key, options));
    }

    /// Releases `key`.
    pub fn send_key_up(&mut self, key: KeyKind)
        ensures
            final(self)@ == old(self)@.push(InputEvent::KeyUp(key)),
    {
        self.events.push(InputEvent::KeyUp(key));
    }

    /// The number of events that wait for delivery.
    pub fn len(&self) -> (n: usize)
        ensures
            n == self@.len(),
    {
        self.events.len()
    }

    /// The event at `index`, counted from the oldest.
    pub fn get(&self, index: usize) -> (event: Option<InputEvent>)
        ensures
            event == if index < self@.len() {
                Some(self@[index as int])
            } else {
                None
            },
    {
        if index < self.events.len() {
            Some(self.events[index])
        } else {
            None
        }
    }

    /// Hands out the waiting events, oldest first, and leaves the sink empty.
    pub fn flush(&mut self) -> (events: Vec<InputEvent>)
        ensures
            events@ == old(self)@,
            final(self)@ == Seq::<InputEvent>::empty(),
    {
        let mut events: Vec<InputEvent> = Vec::new();
        std::mem::swap(&mut self.events, &mut events);
        events
    }
}

} // verus!
