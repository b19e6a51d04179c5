//! The procedure that types a line into the chat.
use vstd::prelude::*;
use vstd::string::*;

use crate::array::Array;
use crate::bridge::{InputEvent, KeyKind};
use crate::detect::Detector;
use crate::ecs::Resources;
use crate::player::actions::next_action;
use crate::player::timeout::{
    next_timeout_lifecycle, spec_next_timeout_lifecycle, Lifecycle, Timeout,
};
use crate::player::{transition, transition_from_action, Outcome, Player, PlayerEntity};

verus! {

/// Times the chat menu is opened again before the procedure gives up.
pub const MAX_RETRY: u32 = 3;

/// The most characters that a line can have.
pub const MAX_CONTENT_LENGTH: usize = 256;

/// Ticks to wait for the chat menu to open.
pub const TIMEOUT_OPENING_MENU: u32 = 35;

/// Ticks between two characters.
pub const TIMEOUT_TYPING: u32 = 3;

/// Ticks to wait before the chat menu is closed.
pub const TIMEOUT_COMPLETING: u32 = 35;

/// The characters of a line.
pub type ChattingContent = Array<char, 256>;

impl ChattingContent {
    pub const MAX_LENGTH: usize = MAX_CONTENT_LENGTH;

    /// The first [`MAX_CONTENT_LENGTH`] characters of `content`.
    pub fn from_string(content: String) -> (chatting_content: ChattingContent)
        ensures
            chatting_content@ == if content@.len() <= MAX_CONTENT_LENGTH {
                content@
            } else {
                content@.take(MAX_CONTENT_LENGTH as int)
            },
    {
        let text = content.as_str();
        let n: usize = text.unicode_len();
        let mut array: ChattingContent = Array::new();
        let mut i: usize = 0;
        while i < n && i < MAX_CONTENT_LENGTH
            invariant
                n == text@.len(),
                i <= n,
                i <= MAX_CONTENT_LENGTH,
                array@ == text@.take(i as int),
            decreases n - i,
        {
            array = array.pushed(text.get_char(i));
            assert(array@ =~= text@.take(i + 1));
            i = i + 1;
        }
        assert(n <= MAX_CONTENT_LENGTH ==> text@.take(i as int) =~= text@);
        array
    }
}

/// The steps of typing a line.
#[derive(Debug, Clone, Copy, PartialEq, Eq, Structural)]
pub enum State {
    /// The chat menu is being opened: the deadline and the retries so far.
    OpeningMenu(Timeout, u32),
    /// The line is being typed: the pace and the index of the next character.
    Typing(Timeout, usize),
    /// The chat menu is being closed: the deadline and whether it is done.
    Completing(Timeout, bool),
}

/// The typing of `content`.
#[derive(Debug, Clone, Copy)]
pub struct Chatting {
    pub state: State,
    pub content: ChattingContent,
}

impl Chatting {
    pub fn new(content: ChattingContent) -> (chatting: Chatting)
        ensures
            chatting == (Chatting {
                state: State::OpeningMenu(Timeout::spec_default(), 0),
                content,
            }),
    {
        Chatting { state: State::OpeningMenu(Timeout::default(), 0), content }
    }
}

/// The keys of the letters, from `a` to `z`.
pub open spec fn letter_keys() -> Seq<KeyKind> {
    seq![
        KeyKind::A,
        KeyKind::B,
        KeyKind::C,
        KeyKind::D,
        KeyKind::E,
        KeyKind::F,
        KeyKind::G,
        KeyKind::H,
        KeyKind::I,
        KeyKind::J,
        KeyKind::K,
        KeyKind::L,
        KeyKind::M,
        KeyKind::N,
        KeyKind::O,
        KeyKind::P,
        KeyKind::Q,
        KeyKind::R,
        KeyKind::S,
        KeyKind::T,
        KeyKind::U,
        KeyKind::V,
        KeyKind::W,
        KeyKind::X,
        KeyKind::Y,
        KeyKind::Z,
    ]
}

/// The keys of the digits, from `0` to `9`.
pub open spec fn digit_keys() -> Seq<KeyKind> {
    seq![
        KeyKind::Zero,
        KeyKind::One,
        KeyKind::Two,
        KeyKind::Three,
        KeyKind::Four,
        KeyKind::Five,
        KeyKind::Six,
        KeyKind::Seven,
        KeyKind::Eight,
        KeyKind::Nine,
    ]
}

/// The key that types `character`, if the keyboard has one for it.
///
/// A letter is typed by its key, whatever its case, and a digit by its key.
/// The space and a few marks have keys of their own: the backquote and the
/// tilde share one, and so do the two quotes. No other character can be typed.
pub open spec fn spec_to_key_kind(character: char) -> Option<KeyKind> {
    let code = character as u32 as int;
    if 'a' as u32 <= code <= 'z' as u32 {
        Some(letter_keys()[code - 'a' as u32])
    } else if 'A' as u32 <= code <= 'Z' as u32 {
        Some(letter_keys()[code - 'A' as u32])
    } else if '0' as u32 <= code <= '9' as u32 {
        Some(digit_keys()[code - '0' as u32])
    } else if character == ' ' {
        Some(KeyKind::Space)
    } else if character == '`' || character == '~' {
        Some(KeyKind::Tilde)
    } else if character == '\'' || character == '"' {
        Some(KeyKind::Quote)
    } else if character == ';' {
        Some(KeyKind::Semicolon)
    } else if character == ',' {
        Some(KeyKind::Comma)
    } else if character == '.' {
        Some(KeyKind::Period)
    } else if character == '/' {
        Some(KeyKind::Slash)
    } else {
        None
    }
}

/// Finds the key that types `character`.
pub fn to_key_kind(character: char) -> (key: Option<KeyKind>)
    ensures
        key == spec_to_key_kind(character),
{
    match character {
        'A' | 'a' => Some(KeyKind::A),
        'B' | 'b' => Some(KeyKind::B),
        'C' | 'c' => Some(KeyKind::C),
        'D' | 'd' => Some(KeyKind::D),
        'E' | 'e' => Some(KeyKind::E),
        'F' | 'f' => Some(KeyKind::F),
        'G' | 'g' => Some(KeyKind::G),
        'H' | 'h' => Some(KeyKind::H),
        'I' | 'i' => Some(KeyKind::I),
        'J' | 'j' => Some(KeyKind::J),
        'K' | 'k' => Some(KeyKind::K),
        'L' | 'l' => Some(KeyKind::L),
        'M' | 'm' => Some(KeyKind::M),
        'N' | 'n' => Some(KeyKind::N),
        'O' | 'o' => Some(KeyKind::O),
        'P' | 'p' => Some(KeyKind::P),
        'Q' | 'q' => Some(KeyKind::Q),
        'R' | 'r' => Some(KeyKind::R),
        'S' | 's' => Some(KeyKind::S),
        'T' | 't' => Some(KeyKind::T),
        'U' | 'u' => Some(KeyKind::U),
        'V' | 'v' => Some(KeyKind::V),
        'W' | 'w' => Some(KeyKind::W),
        'X' | 'x' => Some(KeyKind::X),
        'Y' | 'y' => Some(KeyKind::Y),
        'Z' | 'z' => Some(KeyKind::Z),
        '0' => Some(KeyKind::Zero),
        '1' => Some(KeyKind::One),
        '2' => Some(KeyKind::Two),
        '3' => Some(KeyKind::Three),
        '4' => Some(KeyKind::Four),
        '5' => Some(KeyKind::Five),
        '6' => Some(KeyKind::Six),
        '7' => Some(KeyKind::Seven),
        '8' => Some(KeyKind::Eight),
        '9' => Some(KeyKind::Nine),
        ' ' => Some(KeyKind::Space),
        '`' | '~' => Some(KeyKind::Tilde),
        '\'' | '"' => Some(KeyKind::Quote),
        ';' => Some(KeyKind::Semicolon),
        ',' => Some(KeyKind::Comma),
        '.' => Some(KeyKind::Period),
        '/' => Some(KeyKind::Slash),
        _ => None,
    }
}

/// What one tick of opening the chat menu does: the next step and the keys
/// sent.
///
/// The first tick presses enter. At the deadline an open menu is typed into;
/// a closed one is looked at again at the next tick, up to [`MAX_RETRY`]
/// times, and then the procedure goes on to its end as not done.
pub open spec fn spec_update_opening_menu(detector: Detector, state: State) -> (
    State,
    Seq<InputEvent>,
) {
    let timeout = state->OpeningMenu_0;
    let retry_count = state->OpeningMenu_1;
    match spec_next_timeout_lifecycle(timeout, TIMEOUT_OPENING_MENU) {
        Lifecycle::Started(timeout) => (
            State::OpeningMenu(timeout, retry_count),
            seq![InputEvent::Key(KeyKind::Enter)],
        ),
        Lifecycle::Ended => (
            if detector.chat_menu_opened {
                State::Typing(Timeout::spec_default(), 0)
            } else if retry_count < MAX_RETRY {
                State::OpeningMenu(timeout, (retry_count + 1) as u32)
            } else {
                State::Completing(timeout, false)
            },
            Seq::empty(),
        ),
        Lifecycle::Updated(timeout) => (State::OpeningMenu(timeout, retry_count), Seq::empty()),
    }
}

/// Takes one step of opening the chat menu.
pub fn update_opening_menu(resources: &mut Resources, chatting: &mut Chatting)
    requires
        old(chatting).state is OpeningMenu,
    ensures
        ({
            let (state, events) = spec_update_opening_menu(
                old(resources).detector,
                old(chatting).state,
            );
            &&& final(chatting).state == state
            &&& final(chatting).content == old(chatting).content
            &&& final(resources).sent(*old(resources), events)
        }),
{
    let (timeout, retry_count) = match chatting.state {
        State::OpeningMenu(timeout, retry_count) => (timeout, retry_count),
        _ => { return ; },
    };
    let ghost nothing = Seq::<InputEvent>::empty();

    match next_timeout_lifecycle(timeout, TIMEOUT_OPENING_MENU) {
        Lifecycle::Started(timeout) => {
            resources.input.send_key(KeyKind::Enter);
            chatting.state = State::OpeningMenu(timeout, retry_count);
            assert(resources.input@ =~= old(resources).input@ + seq![
                InputEvent::Key(KeyKind::Enter),
            ]);
        },
        Lifecycle::Ended => {
            chatting.state = if resources.detector.detect_chat_menu_opened() {
                State::Typing(Timeout::default(), 0)
            } else if retry_count < MAX_RETRY {
                State::OpeningMenu(timeout, retry_count + 1)
            } else {
                State::Completing(timeout, false)
            };
            assert(resources.input@ =~= old(resources).input@ + nothing);
        },
        Lifecycle::Updated(timeout) => {
            chatting.state = State::OpeningMenu(timeout, retry_count);
            assert(resources.input@ =~= old(resources).input@ + nothing);
        },
    }
}

/// The key that types the character at `index` of `content`, if there is such
/// a character and it can be typed.
pub open spec fn spec_key_at(content: Seq<char>, index: usize) -> Option<KeyKind> {
    if index < content.len() {
        spec_to_key_kind(content[index as int])
    } else {
        None
    }
}

/// What one tick of typing does: the next step and the keys sent.
///
/// Between two characters the pace is kept. When it is time, the character at
/// the index is typed and the index moves on; after the last character enter
/// is pressed and the procedure goes on to its end. A character that is
/// missing or cannot be typed ends the typing with no key sent.
pub open spec fn spec_update_typing(content: Seq<char>, state: State) -> (State, Seq<InputEvent>) {
    let timeout = state->Typing_0;
    let index = state->Typing_1;
    match spec_next_timeout_lifecycle(timeout, TIMEOUT_TYPING) {
        Lifecycle::Started(timeout) => (State::Typing(timeout, index), Seq::empty()),
        Lifecycle::Updated(timeout) => (State::Typing(timeout, index), Seq::empty()),
        Lifecycle::Ended => match spec_key_at(content, index) {
            None => (State::Completing(Timeout::spec_default(), false), Seq::empty()),
            Some(key) => if index + 1 < content.len() {
                (
                    State::Typing(Timeout::spec_default(), (index + 1) as usize),
                    seq![InputEvent::Key(key)],
                )
            } else {
                (
                    State::Completing(Timeout::spec_default(), false),
                    seq![InputEvent::Key(key), InputEvent::Key(KeyKind::Enter)],
                )
            },
        },
    }
}

/// Takes one step of typing.
pub fn update_typing(resources: &mut Resources, chatting: &mut Chatting)
    requires
        old(chatting).state is Typing,
    ensures
        ({
            let (state, events) = spec_update_typing(old(chatting).content@, old(chatting).state);
            &&& final(chatting).state == state
            &&& final(chatting).content == old(chatting).content
            &&& final(resources).sent(*old(resources), events)
        }),
{
    let (timeout, index) = match chatting.state {
        State::Typing(timeout, index) => (timeout, index),
        _ => { return ; },
    };
    let ghost nothing = Seq::<InputEvent>::empty();

    match next_timeout_lifecycle(timeout, TIMEOUT_TYPING) {
        Lifecycle::Started(timeout) | Lifecycle::Updated(timeout) => {
            chatting.state = State::Typing(timeout, index);
            assert(resources.input@ =~= old(resources).input@ + nothing);
        },
        Lifecycle::Ended => {
            let length: usize = chatting.content.len();
            let key = match chatting.content.get(index) {
                Some(character) => to_key_kind(character),
                None => None,
            };
            let key = match key {
                Some(key) => key,
                None => {
                    chatting.state = State::Completing(Timeout::default(), false);
                    assert(resources.input@ =~= old(resources).input@ + nothing);
                    return ;
                },
            };
            resources.input.send_key(key);
            if index + 1 < length {
                chatting.state = State::Typing(Timeout::default(), index + 1);
                assert(resources.input@ =~= old(resources).input@ + seq![InputEvent::Key(key)]);
                return ;
            }
            resources.input.send_key(KeyKind::Enter);
            chatting.state = State::Completing(Timeout::default(), false);
            assert(resources.input@ =~= old(resources).input@ + seq![
                InputEvent::Key(key),
                InputEvent::Key(KeyKind::Enter),
            ]);
        },
    }
}

/// What one tick of closing the chat menu does: the next step and the keys
/// sent. At the deadline the procedure is done, and a menu that is still open
/// is closed with the escape key.
pub open spec fn spec_update_completing(detector: Detector, state: State) -> (
    State,
    Seq<InputEvent>,
) {
    let timeout = state->Completing_0;
    match spec_next_timeout_lifecycle(timeout, TIMEOUT_COMPLETING) {
        Lifecycle::Started(timeout) => (State::Completing(timeout, false), Seq::empty()),
        Lifecycle::Updated(timeout) => (State::Completing(timeout, false), Seq::empty()),
        Lifecycle::Ended => (
            State::Completing(timeout, true),
            if detector.chat_menu_opened {
                seq![InputEvent::Key(KeyKind::Esc)]
            } else {
                Seq::empty()
            },
        ),
    }
}

/// Takes one step of closing the chat menu.
pub fn update_completing(resources: &mut Resources, chatting: &mut Chatting)
    requires
        old(chatting).state is Completing,
    ensures
        ({
            let (state, events) = spec_update_completing(
                old(resources).detector,
                old(chatting).state,
            );
            &&& final(chatting).state == state
            &&& final(chatting).content == old(chatting).content
            &&& final(resources).sent(*old(resources), events)
        }),
{
    let timeout = match chatting.state {
        State::Completing(timeout, _) => timeout,
        _ => { return ; },
    };
    let ghost nothing = Seq::<InputEvent>::empty();

    match next_timeout_lifecycle(timeout, TIMEOUT_COMPLETING) {
        Lifecycle::Updated(timeout) | Lifecycle::Started(timeout) => {
            chatting.state = State::Completing(timeout, false);
            assert(resources.input@ =~= old(resources).input@ + nothing);
        },
        Lifecycle::Ended => {
            if resources.detector.detect_chat_menu_opened() {
                resources.input.send_key(KeyKind::Esc);
                assert(resources.input@ =~= old(resources).input@ + seq![
                    InputEvent::Key(KeyKind::Esc),
                ]);
            } else {
                assert(resources.input@ =~= old(resources).input@ + nothing);
            }
            chatting.state = State::Completing(timeout, true);
        },
    }
}

/// What one tick does to the step of a typing: the next step and the keys
/// sent.
pub open spec fn spec_update_step(detector: Detector, chatting: Chatting) -> (
    State,
    Seq<InputEvent>,
) {
    match chatting.state {
        State::OpeningMenu(_, _) => spec_update_opening_menu(detector, chatting.state),
        State::Typing(_, _) => spec_update_typing(chatting.content@, chatting.state),
        State::Completing(_, _) => spec_update_completing(detector, chatting.state),
    }
}

/// What one tick of typing a line does.
///
/// The step is taken. A typing that is done idles and completes the action
/// that asked for it. One that no action asked for is given up: the player
/// idles.
pub open spec fn spec_update_chatting_state(
    detector: Detector,
    player: PlayerEntity,
    chatting: Chatting,
) -> Outcome {
    let (state, events) = spec_update_step(detector, chatting);
    let done = state matches State::Completing(_, true);
    let has_action = player.context.spec_next_action() is Some;
    Outcome {
        state: if done || !has_action {
            Player::Idle
        } else {
            Player::Chatting(Chatting { state, content: chatting.content })
        },
        context: if done && has_action {
            player.context.spec_clear_action_completed()
        } else {
            player.context
        },
        events,
    }
}

/// Updates the [`Player::Chatting`] contextual state.
pub fn update_chatting_state(resources: &mut Resources, player: &mut PlayerEntity, chatting: Chatting)
    ensures
        spec_update_chatting_state(old(resources).detector, *old(player), chatting).reached(
            *old(resources),
            *final(resources),
            *final(player),
        ),
{
    let mut chatting = chatting;
    match chatting.state {
        State::OpeningMenu(_, _) => update_opening_menu(resources, &mut chatting),
        State::Typing(_, _) => update_typing(resources, &mut chatting),
        State::Completing(_, _) => update_completing(resources, &mut chatting),
    };

    let done = match chatting.state {
        State::Completing(_, true) => true,
        _ => false,
    };
    let player_next_state = if done {
        Player::Idle
    } else {
        Player::Chatting(chatting)
    };

    match next_action(&player.context) {
        Some(_) => transition_from_action(player, player_next_state, done),
        None => transition(player, Player::Idle),  // Force cancel if not from action
    }
}

/// The chat menu is never opened again more than [`MAX_RETRY`] times: a tick
/// of opening the menu leaves the retries as they are or adds one, and adds
/// one only below the limit.
pub proof fn lemma_retries_bounded(detector: Detector, state: State)
    requires
        state is OpeningMenu,
    ensures
        spec_update_opening_menu(detector, state).0 matches State::OpeningMenu(_, after) ==> {
            let before = state->OpeningMenu_1;
            &&& after == before || (after == before + 1 && before < MAX_RETRY)
            &&& before <= MAX_RETRY ==> after <= MAX_RETRY
        },
{
}

/// The number of times that the chat menu is opened again in a run of ticks
/// that begins in `state` and sees `detectors`, one per tick.
pub open spec fn spec_retries_in_run(state: State, detectors: Seq<Detector>) -> nat
    decreases detectors.len(),
{
    if detectors.len() == 0 || !(state is OpeningMenu) {
        0
    } else {
        let next = spec_update_opening_menu(detectors[0], state).0;
        let retried: nat = if next matches State::OpeningMenu(_, after) && after
            > state->OpeningMenu_1 {
            1
        } else {
            0
        };
        retried + spec_retries_in_run(next, detectors.skip(1))
    }
}

/// However long the chat menu stays closed, it is opened again at most
/// [`MAX_RETRY`] times in all: a run that begins with some retries made has
/// no more of them than are left.
pub proof fn lemma_retries_in_run_bounded(state: State, detectors: Seq<Detector>)
    requires
        state matches State::OpeningMenu(_, retry_count) ==> retry_count <= MAX_RETRY,
    ensures
        state matches State::OpeningMenu(_, retry_count) ==> spec_retries_in_run(state, detectors)
            <= MAX_RETRY - retry_count,
        !(state is OpeningMenu) ==> spec_retries_in_run(state, detectors) == 0,
    decreases detectors.len(),
{
    if detectors.len() > 0 && state is OpeningMenu {
        let next = spec_update_opening_menu(detectors[0], state).0;
        lemma_retries_in_run_bounded(next, detectors.skip(1));
    }
}

/// Typing goes through the line in order: a tick leaves the index where it is
/// or moves it to the next character, which exists, and every key it sends
/// but a closing enter types the character at the index.
pub proof fn lemma_typing_in_order(content: Seq<char>, state: State)
    requires
        state is Typing,
        content.len() <= MAX_CONTENT_LENGTH,
    ensures
        ({
            let index = state->Typing_1;
            let (next, events) = spec_update_typing(content, state);
            &&& next matches State::Typing(_, after) ==> after == index || (after == index + 1
                && after < content.len())
            &&& events.len() > 0 ==> index < content.len() && spec_to_key_kind(
                content[index as int],
            ) == Some(events[0]->Key_0)
        }),
{
}

} // verus!
