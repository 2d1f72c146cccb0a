//! The composite input actions, as the events that make them up. The caller
//! injects the events one after the other and stops at the first that fails;
//! what was injected before it stays injected.

use crate::modules::codec::{button_of_name, parse_button};
use crate::modules::input::{Button, EventType, Key};
use crate::modules::text::chars_of;
use vstd::prelude::*;
use vstd::string::*;

verus! {

/// Why an event could not be injected.
#[derive(Clone, Debug, PartialEq, Eq)]
pub enum InjectionError {
    /// The lock that lets one injection run at a time could not be taken.
    LockAcquisitionFailed(String),
    /// The operating system refused the event.
    OsInjectionFailed(String),
}

/// What an injection error says to the user.
pub open spec fn injection_message(error: InjectionError) -> Seq<char> {
    match error {
        InjectionError::LockAcquisitionFailed(reason) => "Failed to acquire event lock: "@
            + reason@,
        InjectionError::OsInjectionFailed(reason) => "Failed to simulate event: "@ + reason@,
    }
}

impl InjectionError {
    /// What the error says to the user.
    pub fn message(&self) -> (message: String)
        ensures
            message@ == injection_message(*self),
    {
        match self {
            InjectionError::LockAcquisitionFailed(reason) => {
                String::from_str("Failed to acquire event lock: ").concat(reason.as_str())
            },
            InjectionError::OsInjectionFailed(reason) => {
                String::from_str("Failed to simulate event: ").concat(reason.as_str())
            },
        }
    }
}

/// The key that types `c`: a letter key for a small ASCII letter, the space
/// bar for a space, and `Unknown(0)` for anything else.
pub open spec fn key_of_char(c: char) -> Key {
    if c == 'a' {
        Key::KeyA
    }     else if c == 'b' {
        Key::KeyB
    }     else if c == 'c' {
        Key::KeyC
    }     else if c == 'd' {
        Key::KeyD
    }     else if c == 'e' {
        Key::KeyE
    }     else if c == 'f' {
        Key::KeyF
    }     else if c == 'g' {
        Key::KeyG
    }     else if c == 'h' {
        Key::KeyH
    }     else if c == 'i' {
        Key::KeyI
    }     else if c == 'j' {
        Key::KeyJ
    }     else if c == 'k' {
        Key::KeyK
    }     else if c == 'l' {
        Key::KeyL
    }     else if c == 'm' {
        Key::KeyM
    }     else if c == 'n' {
        Key::KeyN
    }     else if c == 'o' {
        Key::KeyO
    }     else if c == 'p' {
        Key::KeyP
    }     else if c == 'q' {
        Key::KeyQ
    }     else if c == 'r' {
        Key::KeyR
    }     else if c == 's' {
        Key::KeyS
    }     else if c == 't' {
        Key::KeyT
    }     else if c == 'u' {
        Key::KeyU
    }     else if c == 'v' {
        Key::KeyV
    }     else if c == 'w' {
        Key::KeyW
    }     else if c == 'x' {
        Key::KeyX
    }     else if c == 'y' {
        Key::KeyY
    }     else if c == 'z' {
        Key::KeyZ
    } else if c == ' ' {
        Key::Space
    } else {
        Key::Unknown(0)
    }
}

/// The key that types `c`.
pub fn char_to_key(c: char) -> (key: Key)
    ensures
        key == key_of_char(c),
{
    match c {
        'a' => Key::KeyA,
        'b' => Key::KeyB,
        'c' => Key::KeyC,
        'd' => Key::KeyD,
        'e' => Key::KeyE,
        'f' => Key::KeyF,
        'g' => Key::KeyG,
        'h' => Key::KeyH,
        'i' => Key::KeyI,
        'j' => Key::KeyJ,
        'k' => Key::KeyK,
        'l' => Key::KeyL,
        'm' => Key::KeyM,
        'n' => Key::KeyN,
        'o' => Key::KeyO,
        'p' => Key::KeyP,
        'q' => Key::KeyQ,
        'r' => Key::KeyR,
        's' => Key::KeyS,
        't' => Key::KeyT,
        'u' => Key::KeyU,
        'v' => Key::KeyV,
        'w' => Key::KeyW,
        'x' => Key::KeyX,
        'y' => Key::KeyY,
        'z' => Key::KeyZ,
        ' ' => Key::Space,
        _ => Key::Unknown(0),
    }
}

/// The button that `button_str` names, without regard to ASCII case; the left
/// button where it names none.
pub fn string_to_button(button_str: &str) -> (button: Button)
    ensures
        button == button_of_name(button_str@),
{
    parse_button(button_str)
}

/// The event that moves the pointer to the coordinates with the bit patterns
/// `x` and `y`.
pub fn move_mouse(x: u64, y: u64) -> (event: EventType)
    ensures
        event == (EventType::MouseMove { x, y }),
{
    EventType::MouseMove { x, y }
}

/// The events of a click: the button goes down, then up.
pub fn click(button: Button) -> (events: Vec<EventType>)
    ensures
        events@ == seq![EventType::ButtonPress(button), EventType::ButtonRelease(button)],
{
    let mut events: Vec<EventType> = Vec::new();
    events.push(EventType::ButtonPress(button));
    events.push(EventType::ButtonRelease(button));
    proof {
        assert(events@ =~= seq![EventType::ButtonPress(button), EventType::ButtonRelease(button)]);
    }
    events
}

/// The event that presses `key`.
pub fn press_key(key: Key) -> (event: EventType)
    ensures
        event == EventType::KeyPress(key),
{
    EventType::KeyPress(key)
}

/// The event that releases `key`.
pub fn release_key(key: Key) -> (event: EventType)
    ensures
        event == EventType::KeyRelease(key),
{
    EventType::KeyRelease(key)
}

/// The events that type `text`: for each character in order, its key goes
/// down and then up.
pub open spec fn typed_events(text: Seq<char>) -> Seq<EventType> {
    Seq::new(
        2 * text.len(),
        |i: int|
            if i % 2 == 0 {
                EventType::KeyPress(key_of_char(text[i / 2]))
            } else {
                EventType::KeyRelease(key_of_char(text[i / 2]))
            },
    )
}

/// The events that type `text`.
pub fn type_string(text: &str) -> (events: Vec<EventType>)
    ensures
        events@ == typed_events(text@),
{
    let chars = chars_of(text);
    let mut events: Vec<EventType> = Vec::new();
    let mut i: usize = 0;
    while i < chars.len()
        invariant
            chars@ == text@,
            i <= chars@.len(),
            events@ == typed_events(text@.take(i as int)),
        decreases chars@.len() - i,
    {
        let key = char_to_key(chars[i]);
        let ghost before = events@;
        events.push(press_key(key));
        events.push(release_key(key));
        proof {
            assert(events@ =~= typed_events(text@.take(i + 1)));
        }
        i += 1;
    }
    proof {
        assert(text@.take(i as int) =~= text@);
    }
    events
}

} // verus!
