//! The keyboard: which key stands for which message.

use crate::app::{Message, NavAction};
use vstd::prelude::*;

verus! {

/// The keys with a name that the launcher reacts to.
#[derive(Debug, Clone, Copy, PartialEq, Eq, Structural)]
pub enum NamedKey {
    Alt,
    Super,
    ArrowUp,
    ArrowDown,
    Escape,
    Tab,
    Backspace,
    /// Any other key with a name.
    Other,
}

/// A key of the keyboard.
#[derive(Debug, Clone, PartialEq, Eq)]
pub enum Key {
    /// A key that stands for text.
    Character(String),
    Named(NamedKey),
    Unidentified,
}

/// What happened on the keyboard.
#[derive(Debug, Clone, PartialEq, Eq)]
pub enum KeyEvent {
    Released(Key),
    Pressed {
        key: Key,
        /// Whether a control key is held.
        control: bool,
        /// Whether no modifier key at all is held.
        unmodified: bool,
        /// Whether no widget made use of the key.
        ignored: bool,
    },
}

/// The place in the list that a digit pressed with the control key stands
/// for: the digits from one to nine stand for the first nine places, and
/// zero for the tenth, as the shortcuts shown beside the results say.
pub open spec fn place_of_digit(text: Seq<char>) -> Option<usize> {
    if text == "1"@ {
        Some(0)
    } else if text == "2"@ {
        Some(1)
    } else if text == "3"@ {
        Some(2)
    } else if text == "4"@ {
        Some(3)
    } else if text == "5"@ {
        Some(4)
    } else if text == "6"@ {
        Some(5)
    } else if text == "7"@ {
        Some(6)
    } else if text == "8"@ {
        Some(7)
    } else if text == "9"@ {
        Some(8)
    } else if text == "0"@ {
        Some(9)
    } else {
        None
    }
}

/// The message that a key event stands for, if any.
pub open spec fn message_of_key(event: KeyEvent) -> Option<Message> {
    match event {
        KeyEvent::Released(Key::Named(NamedKey::Alt)) => Some(Message::AltRelease),
        KeyEvent::Released(Key::Named(NamedKey::Super)) => Some(Message::AltRelease),
        KeyEvent::Released(_) => None,
        KeyEvent::Pressed { key, control, unmodified, ignored } => match key {
            Key::Character(text) => if !control {
                None
            } else if text@ == "p"@ || text@ == "k"@ {
                Some(Message::KeyboardNav(NavAction::FocusPrevious))
            } else if text@ == "n"@ || text@ == "j"@ {
                Some(Message::KeyboardNav(NavAction::FocusNext))
            } else {
                match place_of_digit(text@) {
                    Some(place) => Some(Message::Activate(Some(place))),
                    None => None,
                }
            },
            Key::Named(NamedKey::ArrowUp) => Some(Message::KeyboardNav(NavAction::FocusPrevious)),
            Key::Named(NamedKey::ArrowDown) => Some(Message::KeyboardNav(NavAction::FocusNext)),
            Key::Named(NamedKey::Escape) => Some(Message::Hide),
            Key::Named(NamedKey::Tab) => Some(Message::TabPress),
            Key::Named(NamedKey::Backspace) => if ignored && unmodified {
                Some(Message::Backspace)
            } else {
                None
            },
            _ => None,
        },
    }
}

/// The text of a digit.
pub open spec fn digit_text(digit: usize) -> Seq<char> {
    if digit == 0 {
        "0"@
    } else if digit == 1 {
        "1"@
    } else if digit == 2 {
        "2"@
    } else if digit == 3 {
        "3"@
    } else if digit == 4 {
        "4"@
    } else if digit == 5 {
        "5"@
    } else if digit == 6 {
        "6"@
    } else if digit == 7 {
        "7"@
    } else if digit == 8 {
        "8"@
    } else {
        "9"@
    }
}

/// The digit shown beside one of the first ten results, pressed with the
/// control key, stands for the place of that result.
pub proof fn lemma_shortcut_names_its_place(place: usize)
    requires
        place < 10,
    ensures
        place_of_digit(digit_text(((place + 1) % 10) as usize)) == Some(place),
{
    reveal_strlit("0");
    reveal_strlit("1");
    reveal_strlit("2");
    reveal_strlit("3");
    reveal_strlit("4");
    reveal_strlit("5");
    reveal_strlit("6");
    reveal_strlit("7");
    reveal_strlit("8");
    reveal_strlit("9");
    assert("0"@[0] == '0' && "1"@[0] == '1' && "2"@[0] == '2' && "3"@[0] == '3' && "4"@[0] == '4');
    assert("5"@[0] == '5' && "6"@[0] == '6' && "7"@[0] == '7' && "8"@[0] == '8' && "9"@[0] == '9');
}

fn digit_place(text: &str) -> (place: Option<usize>)
    ensures
        place == place_of_digit(text@),
{
    if crate::text::same_text(text, "1") {
        Some(0)
    } else if crate::text::same_text(text, "2") {
        Some(1)
    } else if crate::text::same_text(text, "3") {
        Some(2)
    } else if crate::text::same_text(text, "4") {
        Some(3)
    } else if crate::text::same_text(text, "5") {
        Some(4)
    } else if crate::text::same_text(text, "6") {
        Some(5)
    } else if crate::text::same_text(text, "7") {
        Some(6)
    } else if crate::text::same_text(text, "8") {
        Some(7)
    } else if crate::text::same_text(text, "9") {
        Some(8)
    } else if crate::text::same_text(text, "0") {
        Some(9)
    } else {
        None
    }
}

/// Gives the message that a key event stands for.
pub fn key_message(event: KeyEvent) -> (message: Option<Message>)
    ensures
        message == message_of_key(event),
{
    match event {
        KeyEvent::Released(key) => match key {
            Key::Named(NamedKey::Alt) => Some(Message::AltRelease),
            Key::Named(NamedKey::Super) => Some(Message::AltRelease),
            _ => None,
        },
        KeyEvent::Pressed { key, control, unmodified, ignored } => match key {
            Key::Character(text) => {
                if !control {
                    None
                } else if crate::text::same_text(text.as_str(), "p") || crate::text::same_text(
                    text.as_str(),
                    "k",
                ) {
                    Some(Message::KeyboardNav(NavAction::FocusPrevious))
                } else if crate::text::same_text(text.as_str(), "n") || crate::text::same_text(
                    text.as_str(),
                    "j",
                ) {
                    Some(Message::KeyboardNav(NavAction::FocusNext))
                } else {
                    match digit_place(text.as_str()) {
                        Some(place) => Some(Message::Activate(Some(place))),
                        None => None,
                    }
                }
            },
            Key::Named(NamedKey::ArrowUp) => Some(Message::KeyboardNav(NavAction::FocusPrevious)),
            Key::Named(NamedKey::ArrowDown) => Some(Message::KeyboardNav(NavAction::FocusNext)),
            Key::Named(NamedKey::Escape) => Some(Message::Hide),
            Key::Named(NamedKey::Tab) => Some(Message::TabPress),
            Key::Named(NamedKey::Backspace) => if ignored && unmodified {
                Some(Message::Backspace)
            } else {
                None
            },
            _ => None,
        },
    }
}

} // verus!
