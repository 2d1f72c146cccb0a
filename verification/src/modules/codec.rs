//! The stable stored form of an input event, and the conversions to and from
//! it. Buttons and keys are stored by name; a name that is not known here
//! reads as a fallback instead of failing, so that stored events stay
//! readable as the vocabulary grows.

use crate::modules::input::{Button, EventType, Key};
use crate::modules::text::{
    ascii_lower, chars_of, decimal_digits, decimal_text, lemma_decimal_digits,
    lemma_parse_decimal_digits, parse_u32, parse_u32_spec, same_text,
    same_text_ignoring_ascii_case,
};
use vstd::prelude::*;
use vstd::string::*;

verus! {

/// The name under which a button is stored.
pub open spec fn button_name(button: Button) -> Seq<char> {
    match button {
        Button::Left => "left"@,
        Button::Right => "right"@,
        Button::Middle => "middle"@,
    }
}

/// The button that a stored name stands for. ASCII case is ignored, and a
/// name that is none of the three reads as the left button.
pub open spec fn button_of_name(name: Seq<char>) -> Button {
    let folded = ascii_lower(name);
    if folded == "left"@ {
        Button::Left
    } else if folded == "right"@ {
        Button::Right
    } else if folded == "middle"@ {
        Button::Middle
    } else {
        Button::Left
    }
}

/// Whether a stored name is that of one of the three buttons.
pub open spec fn is_button_name(name: Seq<char>) -> bool {
    let folded = ascii_lower(name);
    folded == "left"@ || folded == "right"@ || folded == "middle"@
}

/// The name under which `button` is stored.
pub fn button_label(button: Button) -> (label: String)
    ensures
        label@ == button_name(button),
{
    match button {
        Button::Left => String::from_str("left"),
        Button::Right => String::from_str("right"),
        Button::Middle => String::from_str("middle"),
    }
}

/// Reads a stored button name.
pub fn parse_button(s: &str) -> (button: Button)
    ensures
        button == button_of_name(s@),
{
    if same_text_ignoring_ascii_case(s, "left") {
        Button::Left
    } else if same_text_ignoring_ascii_case(s, "right") {
        Button::Right
    } else if same_text_ignoring_ascii_case(s, "middle") {
        Button::Middle
    } else {
        Button::Left
    }
}

/// The name under which a key is stored. A key without a name of its own is
/// stored as `Unknown(` and `)` around its code in decimal.
pub open spec fn key_name(key: Key) -> Seq<char> {
    match key {
        Key::KeyA => "KeyA"@,
        Key::KeyB => "KeyB"@,
        Key::KeyC => "KeyC"@,
        Key::KeyD => "KeyD"@,
        Key::KeyE => "KeyE"@,
        Key::KeyF => "KeyF"@,
        Key::KeyG => "KeyG"@,
        Key::KeyH => "KeyH"@,
        Key::KeyI => "KeyI"@,
        Key::KeyJ => "KeyJ"@,
        Key::KeyK => "KeyK"@,
        Key::KeyL => "KeyL"@,
        Key::KeyM => "KeyM"@,
        Key::KeyN => "KeyN"@,
        Key::KeyO => "KeyO"@,
        Key::KeyP => "KeyP"@,
        Key::KeyQ => "KeyQ"@,
        Key::KeyR => "KeyR"@,
        Key::KeyS => "KeyS"@,
        Key::KeyT => "KeyT"@,
        Key::KeyU => "KeyU"@,
        Key::KeyV => "KeyV"@,
        Key::KeyW => "KeyW"@,
        Key::KeyX => "KeyX"@,
        Key::KeyY => "KeyY"@,
        Key::KeyZ => "KeyZ"@,
        Key::Num1 => "Num1"@,
        Key::Num2 => "Num2"@,
        Key::Num3 => "Num3"@,
        Key::Num4 => "Num4"@,
        Key::Num5 => "Num5"@,
        Key::Num6 => "Num6"@,
        Key::Num7 => "Num7"@,
        Key::Num8 => "Num8"@,
        Key::Num9 => "Num9"@,
        Key::Num0 => "Num0"@,
        Key::Return => "Return"@,
        Key::Escape => "Escape"@,
        Key::Backspace => "Backspace"@,
        Key::Tab => "Tab"@,
        Key::Space => "Space"@,
        Key::Delete => "Delete"@,
        Key::ShiftLeft => "ShiftLeft"@,
        Key::ShiftRight => "ShiftRight"@,
        Key::ControlLeft => "ControlLeft"@,
        Key::ControlRight => "ControlRight"@,
        Key::Alt => "Alt"@,
        Key::AltGr => "AltGr"@,
        Key::MetaLeft => "MetaLeft"@,
        Key::MetaRight => "MetaRight"@,
        Key::UpArrow => "UpArrow"@,
        Key::DownArrow => "DownArrow"@,
        Key::LeftArrow => "LeftArrow"@,
        Key::RightArrow => "RightArrow"@,
        Key::F1 => "F1"@,
        Key::F2 => "F2"@,
        Key::F3 => "F3"@,
        Key::F4 => "F4"@,
        Key::F5 => "F5"@,
        Key::F6 => "F6"@,
        Key::F7 => "F7"@,
        Key::F8 => "F8"@,
        Key::F9 => "F9"@,
        Key::F10 => "F10"@,
        Key::F11 => "F11"@,
        Key::F12 => "F12"@,
        Key::Home => "Home"@,
        Key::End => "End"@,
        Key::PageUp => "PageUp"@,
        Key::PageDown => "PageDown"@,
        Key::Unknown(code) => "Unknown("@ + decimal_digits(code as nat) + ")"@,
    }
}

/// The key that has `name` in the table of named keys, if there is one.
/// `Enter` is a second name of the return key.
pub open spec fn named_key(name: Seq<char>) -> Option<Key> {
    if name == "KeyA"@ {
        Some(Key::KeyA)
    }     else if name == "KeyB"@ {
        Some(Key::KeyB)
    }     else if name == "KeyC"@ {
        Some(Key::KeyC)
    }     else if name == "KeyD"@ {
        Some(Key::KeyD)
    }     else if name == "KeyE"@ {
        Some(Key::KeyE)
    }     else if name == "KeyF"@ {
        Some(Key::KeyF)
    }     else if name == "KeyG"@ {
        Some(Key::KeyG)
    }     else if name == "KeyH"@ {
        Some(Key::KeyH)
    }     else if name == "KeyI"@ {
        Some(Key::KeyI)
    }     else if name == "KeyJ"@ {
        Some(Key::KeyJ)
    }     else if name == "KeyK"@ {
        Some(Key::KeyK)
    }     else if name == "KeyL"@ {
        Some(Key::KeyL)
    }     else if name == "KeyM"@ {
        Some(Key::KeyM)
    }     else if name == "KeyN"@ {
        Some(Key::KeyN)
    }     else if name == "KeyO"@ {
        Some(Key::KeyO)
    }     else if name == "KeyP"@ {
        Some(Key::KeyP)
    }     else if name == "KeyQ"@ {
        Some(Key::KeyQ)
    }     else if name == "KeyR"@ {
        Some(Key::KeyR)
    }     else if name == "KeyS"@ {
        Some(Key::KeyS)
    }     else if name == "KeyT"@ {
        Some(Key::KeyT)
    }     else if name == "KeyU"@ {
        Some(Key::KeyU)
    }     else if name == "KeyV"@ {
        Some(Key::KeyV)
    }     else if name == "KeyW"@ {
        Some(Key::KeyW)
    }     else if name == "KeyX"@ {
        Some(Key::KeyX)
    }     else if name == "KeyY"@ {
        Some(Key::KeyY)
    }     else if name == "KeyZ"@ {
        Some(Key::KeyZ)
    }     else if name == "Num1"@ {
        Some(Key::Num1)
    }     else if name == "Num2"@ {
        Some(Key::Num2)
    }     else if name == "Num3"@ {
        Some(Key::Num3)
    }     else if name == "Num4"@ {
        Some(Key::Num4)
    }     else if name == "Num5"@ {
        Some(Key::Num5)
    }     else if name == "Num6"@ {
        Some(Key::Num6)
    }     else if name == "Num7"@ {
        Some(Key::Num7)
    }     else if name == "Num8"@ {
        Some(Key::Num8)
    }     else if name == "Num9"@ {
        Some(Key::Num9)
    }     else if name == "Num0"@ {
        Some(Key::Num0)
    }     else if name == "Return"@ {
        Some(Key::Return)
    }     else if name == "Enter"@ {
        Some(Key::Return)
    }     else if name == "Escape"@ {
        Some(Key::Escape)
    }     else if name == "Backspace"@ {
        Some(Key::Backspace)
    }     else if name == "Tab"@ {
        Some(Key::Tab)
    }     else if name == "Space"@ {
        Some(Key::Space)
    }     else if name == "Delete"@ {
        Some(Key::Delete)
    }     else if name == "ShiftLeft"@ {
        Some(Key::ShiftLeft)
    }     else if name == "ShiftRight"@ {
        Some(Key::ShiftRight)
    }     else if name == "ControlLeft"@ {
        Some(Key::ControlLeft)
    }     else if name == "ControlRight"@ {
        Some(Key::ControlRight)
    }     else if name == "Alt"@ {
        Some(Key::Alt)
    }     else if name == "AltGr"@ {
        Some(Key::AltGr)
    }     else if name == "MetaLeft"@ {
        Some(Key::MetaLeft)
    }     else if name == "MetaRight"@ {
        Some(Key::MetaRight)
    }     else if name == "UpArrow"@ {
        Some(Key::UpArrow)
    }     else if name == "DownArrow"@ {
        Some(Key::DownArrow)
    }     else if name == "LeftArrow"@ {
        Some(Key::LeftArrow)
    }     else if name == "RightArrow"@ {
        Some(Key::RightArrow)
    }     else if name == "F1"@ {
        Some(Key::F1)
    }     else if name == "F2"@ {
        Some(Key::F2)
    }     else if name == "F3"@ {
        Some(Key::F3)
    }     else if name == "F4"@ {
        Some(Key::F4)
    }     else if name == "F5"@ {
        Some(Key::F5)
    }     else if name == "F6"@ {
        Some(Key::F6)
    }     else if name == "F7"@ {
        Some(Key::F7)
    }     else if name == "F8"@ {
        Some(Key::F8)
    }     else if name == "F9"@ {
        Some(Key::F9)
    }     else if name == "F10"@ {
        Some(Key::F10)
    }     else if name == "F11"@ {
        Some(Key::F11)
    }     else if name == "F12"@ {
        Some(Key::F12)
    }     else if name == "Home"@ {
        Some(Key::Home)
    }     else if name == "End"@ {
        Some(Key::End)
    }     else if name == "PageUp"@ {
        Some(Key::PageUp)
    }     else if name == "PageDown"@ {
        Some(Key::PageDown)
    } else {
        None
    }
}

/// The code written in a name of the form `Unknown(N)`, where `N` is an
/// unsigned 32-bit number in decimal.
pub open spec fn unknown_code(name: Seq<char>) -> Option<u32> {
    if name.len() >= 9 && name.take(8) == "Unknown("@ && name.last() == ')' {
        parse_u32_spec(name.subrange(8, name.len() - 1))
    } else {
        None
    }
}

/// Whether a stored key name is understood: it is in the table, or it has the
/// form `Unknown(N)`.
pub open spec fn is_key_name(name: Seq<char>) -> bool {
    named_key(name) is Some || unknown_code(name) is Some
}

/// The key that a stored name stands for. A name that is not understood
/// reads as `Unknown(0)`.
pub open spec fn key_of_name(name: Seq<char>) -> Key {
    match named_key(name) {
        Some(key) => key,
        None => match unknown_code(name) {
            Some(code) => Key::Unknown(code),
            None => Key::Unknown(0),
        },
    }
}

/// The name under which `key` is stored.
pub fn key_label(key: Key) -> (label: String)
    ensures
        label@ == key_name(key),
{
    match key {
        Key::KeyA => String::from_str("KeyA"),
        Key::KeyB => String::from_str("KeyB"),
        Key::KeyC => String::from_str("KeyC"),
        Key::KeyD => String::from_str("KeyD"),
        Key::KeyE => String::from_str("KeyE"),
        Key::KeyF => String::from_str("KeyF"),
        Key::KeyG => String::from_str("KeyG"),
        Key::KeyH => String::from_str("KeyH"),
        Key::KeyI => String::from_str("KeyI"),
        Key::KeyJ => String::from_str("KeyJ"),
        Key::KeyK => String::from_str("KeyK"),
        Key::KeyL => String::from_str("KeyL"),
        Key::KeyM => String::from_str("KeyM"),
        Key::KeyN => String::from_str("KeyN"),
        Key::KeyO => String::from_str("KeyO"),
        Key::KeyP => String::from_str("KeyP"),
        Key::KeyQ => String::from_str("KeyQ"),
        Key::KeyR => String::from_str("KeyR"),
        Key::KeyS => String::from_str("KeyS"),
        Key::KeyT => String::from_str("KeyT"),
        Key::KeyU => String::from_str("KeyU"),
        Key::KeyV => String::from_str("KeyV"),
        Key::KeyW => String::from_str("KeyW"),
        Key::KeyX => String::from_str("KeyX"),
        Key::KeyY => String::from_str("KeyY"),
        Key::KeyZ => String::from_str("KeyZ"),
        Key::Num1 => String::from_str("Num1"),
        Key::Num2 => String::from_str("Num2"),
        Key::Num3 => String::from_str("Num3"),
        Key::Num4 => String::from_str("Num4"),
        Key::Num5 => String::from_str("Num5"),
        Key::Num6 => String::from_str("Num6"),
        Key::Num7 => String::from_str("Num7"),
        Key::Num8 => String::from_str("Num8"),
        Key::Num9 => String::from_str("Num9"),
        Key::Num0 => String::from_str("Num0"),
        Key::Return => String::from_str("Return"),
        Key::Escape => String::from_str("Escape"),
        Key::Backspace => String::from_str("Backspace"),
        Key::Tab => String::from_str("Tab"),
        Key::Space => String::from_str("Space"),
        Key::Delete => String::from_str("Delete"),
        Key::ShiftLeft => String::from_str("ShiftLeft"),
        Key::ShiftRight => String::from_str("ShiftRight"),
        Key::ControlLeft => String::from_str("ControlLeft"),
        Key::ControlRight => String::from_str("ControlRight"),
        Key::Alt => String::from_str("Alt"),
        Key::AltGr => String::from_str("AltGr"),
        Key::MetaLeft => String::from_str("MetaLeft"),
        Key::MetaRight => String::from_str("MetaRight"),
        Key::UpArrow => String::from_str("UpArrow"),
        Key::DownArrow => String::from_str("DownArrow"),
        Key::LeftArrow => String::from_str("LeftArrow"),
        Key::RightArrow => String::from_str("RightArrow"),
        Key::F1 => String::from_str("F1"),
        Key::F2 => String::from_str("F2"),
        Key::F3 => String::from_str("F3"),
        Key::F4 => String::from_str("F4"),
        Key::F5 => String::from_str("F5"),
        Key::F6 => String::from_str("F6"),
        Key::F7 => String::from_str("F7"),
        Key::F8 => String::from_str("F8"),
        Key::F9 => String::from_str("F9"),
        Key::F10 => String::from_str("F10"),
        Key::F11 => String::from_str("F11"),
        Key::F12 => String::from_str("F12"),
        Key::Home => String::from_str("Home"),
        Key::End => String::from_str("End"),
        Key::PageUp => String::from_str("PageUp"),
        Key::PageDown => String::from_str("PageDown"),
        Key::Unknown(code) => {
            let digits = decimal_text(code);
            String::from_str("Unknown(").concat(digits.as_str()).concat(")")
        },
    }
}

/// Looks `s` up in the table of named keys.
fn lookup_named_key(s: &str) -> (found: Option<Key>)
    ensures
        found == named_key(s@),
{
    if same_text(s, "KeyA") {
        Some(Key::KeyA)
    }     else if same_text(s, "KeyB") {
        Some(Key::KeyB)
    }     else if same_text(s, "KeyC") {
        Some(Key::KeyC)
    }     else if same_text(s, "KeyD") {
        Some(Key::KeyD)
    }     else if same_text(s, "KeyE") {
        Some(Key::KeyE)
    }     else if same_text(s, "KeyF") {
        Some(Key::KeyF)
    }     else if same_text(s, "KeyG") {
        Some(Key::KeyG)
    }     else if same_text(s, "KeyH") {
        Some(Key::KeyH)
    }     else if same_text(s, "KeyI") {
        Some(Key::KeyI)
    }     else if same_text(s, "KeyJ") {
        Some(Key::KeyJ)
    }     else if same_text(s, "KeyK") {
        Some(Key::KeyK)
    }     else if same_text(s, "KeyL") {
        Some(Key::KeyL)
    }     else if same_text(s, "KeyM") {
        Some(Key::KeyM)
    }     else if same_text(s, "KeyN") {
        Some(Key::KeyN)
    }     else if same_text(s, "KeyO") {
        Some(Key::KeyO)
    }     else if same_text(s, "KeyP") {
        Some(Key::KeyP)
    }     else if same_text(s, "KeyQ") {
        Some(Key::KeyQ)
    }     else if same_text(s, "KeyR") {
        Some(Key::KeyR)
    }     else if same_text(s, "KeyS") {
        Some(Key::KeyS)
    }     else if same_text(s, "KeyT") {
        Some(Key::KeyT)
    }     else if same_text(s, "KeyU") {
        Some(Key::KeyU)
    }     else if same_text(s, "KeyV") {
        Some(Key::KeyV)
    }     else if same_text(s, "KeyW") {
        Some(Key::KeyW)
    }     else if same_text(s, "KeyX") {
        Some(Key::KeyX)
    }     else if same_text(s, "KeyY") {
        Some(Key::KeyY)
    }     else if same_text(s, "KeyZ") {
        Some(Key::KeyZ)
    }     else if same_text(s, "Num1") {
        Some(Key::Num1)
    }     else if same_text(s, "Num2") {
        Some(Key::Num2)
    }     else if same_text(s, "Num3") {
        Some(Key::Num3)
    }     else if same_text(s, "Num4") {
        Some(Key::Num4)
    }     else if same_text(s, "Num5") {
        Some(Key::Num5)
    }     else if same_text(s, "Num6") {
        Some(Key::Num6)
    }     else if same_text(s, "Num7") {
        Some(Key::Num7)
    }     else if same_text(s, "Num8") {
        Some(Key::Num8)
    }     else if same_text(s, "Num9") {
        Some(Key::Num9)
    }     else if same_text(s, "Num0") {
        Some(Key::Num0)
    }     else if same_text(s, "Return") {
        Some(Key::Return)
    }     else if same_text(s, "Enter") {
        Some(Key::Return)
    }     else if same_text(s, "Escape") {
        Some(Key::Escape)
    }     else if same_text(s, "Backspace") {
        Some(Key::Backspace)
    }     else if same_text(s, "Tab") {
        Some(Key::Tab)
    }     else if same_text(s, "Space") {
        Some(Key::Space)
    }     else if same_text(s, "Delete") {
        Some(Key::Delete)
    }     else if same_text(s, "ShiftLeft") {
        Some(Key::ShiftLeft)
    }     else if same_text(s, "ShiftRight") {
        Some(Key::ShiftRight)
    }     else if same_text(s, "ControlLeft") {
        Some(Key::ControlLeft)
    }     else if same_text(s, "ControlRight") {
        Some(Key::ControlRight)
    }     else if same_text(s, "Alt") {
        Some(Key::Alt)
    }     else if same_text(s, "AltGr") {
        Some(Key::AltGr)
    }     else if same_text(s, "MetaLeft") {
        Some(Key::MetaLeft)
    }     else if same_text(s, "MetaRight") {
        Some(Key::MetaRight)
    }     else if same_text(s, "UpArrow") {
        Some(Key::UpArrow)
    }     else if same_text(s, "DownArrow") {
        Some(Key::DownArrow)
    }     else if same_text(s, "LeftArrow") {
        Some(Key::LeftArrow)
    }     else if same_text(s, "RightArrow") {
        Some(Key::RightArrow)
    }     else if same_text(s, "F1") {
        Some(Key::F1)
    }     else if same_text(s, "F2") {
        Some(Key::F2)
    }     else if same_text(s, "F3") {
        Some(Key::F3)
    }     else if same_text(s, "F4") {
        Some(Key::F4)
    }     else if same_text(s, "F5") {
        Some(Key::F5)
    }     else if same_text(s, "F6") {
        Some(Key::F6)
    }     else if same_text(s, "F7") {
        Some(Key::F7)
    }     else if same_text(s, "F8") {
        Some(Key::F8)
    }     else if same_text(s, "F9") {
        Some(Key::F9)
    }     else if same_text(s, "F10") {
        Some(Key::F10)
    }     else if same_text(s, "F11") {
        Some(Key::F11)
    }     else if same_text(s, "F12") {
        Some(Key::F12)
    }     else if same_text(s, "Home") {
        Some(Key::Home)
    }     else if same_text(s, "End") {
        Some(Key::End)
    }     else if same_text(s, "PageUp") {
        Some(Key::PageUp)
    }     else if same_text(s, "PageDown") {
        Some(Key::PageDown)
    } else {
        None
    }
}

/// Reads the code out of a name of the form `Unknown(N)`.
fn parse_unknown_code(s: &str) -> (code: Option<u32>)
    ensures
        code == unknown_code(s@),
{
    let chars = chars_of(s);
    let prefix = chars_of("Unknown(");
    proof {
        reveal_strlit("Unknown(");
    }
    let n: usize = chars.len();
    if n < 9 {
        return None;
    }
    let mut i: usize = 0;
    while i < 8
        invariant
            i <= 8,
            n == chars@.len(),
            n >= 9,
            chars@ == s@,
            prefix@ == "Unknown("@,
            prefix@.len() == 8,
            forall|j: int| 0 <= j < i ==> chars@[j] == prefix@[j],
        decreases 8 - i,
    {
        if chars[i] != prefix[i] {
            proof {
                assert(s@.take(8)[i as int] == chars@[i as int]);
            }
            return None;
        }
        i += 1;
    }
    proof {
        assert(s@.take(8) =~= prefix@);
    }
    if chars[n - 1] != ')' {
        return None;
    }
    parse_u32(&chars, 8, n - 1)
}

/// Whether the stored key name `s` is understood. Where it is not,
/// [`parse_key`] falls back to `Unknown(0)`, and a caller may want to warn.
pub fn is_known_key_name(s: &str) -> (known: bool)
    ensures
        known == is_key_name(s@),
{
    lookup_named_key(s).is_some() || parse_unknown_code(s).is_some()
}

/// Reads a stored key name.
pub fn parse_key(s: &str) -> (key: Key)
    ensures
        key == key_of_name(s@),
{
    match lookup_named_key(s) {
        Some(key) => key,
        None => match parse_unknown_code(s) {
            Some(code) => Key::Unknown(code),
            None => Key::Unknown(0),
        },
    }
}

/// What the literals of the key table hold.
proof fn reveal_key_names()
    ensures
        "KeyA"@ =~= seq!['K', 'e', 'y', 'A'],
        "KeyB"@ =~= seq!['K', 'e', 'y', 'B'],
        "KeyC"@ =~= seq!['K', 'e', 'y', 'C'],
        "KeyD"@ =~= seq!['K', 'e', 'y', 'D'],
        "KeyE"@ =~= seq!['K', 'e', 'y', 'E'],
        "KeyF"@ =~= seq!['K', 'e', 'y', 'F'],
        "KeyG"@ =~= seq!['K', 'e', 'y', 'G'],
        "KeyH"@ =~= seq!['K', 'e', 'y', 'H'],
        "KeyI"@ =~= seq!['K', 'e', 'y', 'I'],
        "KeyJ"@ =~= seq!['K', 'e', 'y', 'J'],
        "KeyK"@ =~= seq!['K', 'e', 'y', 'K'],
        "KeyL"@ =~= seq!['K', 'e', 'y', 'L'],
        "KeyM"@ =~= seq!['K', 'e', 'y', 'M'],
        "KeyN"@ =~= seq!['K', 'e', 'y', 'N'],
        "KeyO"@ =~= seq!['K', 'e', 'y', 'O'],
        "KeyP"@ =~= seq!['K', 'e', 'y', 'P'],
        "KeyQ"@ =~= seq!['K', 'e', 'y', 'Q'],
        "KeyR"@ =~= seq!['K', 'e', 'y', 'R'],
        "KeyS"@ =~= seq!['K', 'e', 'y', 'S'],
        "KeyT"@ =~= seq!['K', 'e', 'y', 'T'],
        "KeyU"@ =~= seq!['K', 'e', 'y', 'U'],
        "KeyV"@ =~= seq!['K', 'e', 'y', 'V'],
        "KeyW"@ =~= seq!['K', 'e', 'y', 'W'],
        "KeyX"@ =~= seq!['K', 'e', 'y', 'X'],
        "KeyY"@ =~= seq!['K', 'e', 'y', 'Y'],
        "KeyZ"@ =~= seq!['K', 'e', 'y', 'Z'],
        "Num1"@ =~= seq!['N', 'u', 'm', '1'],
        "Num2"@ =~= seq!['N', 'u', 'm', '2'],
        "Num3"@ =~= seq!['N', 'u', 'm', '3'],
        "Num4"@ =~= seq!['N', 'u', 'm', '4'],
        "Num5"@ =~= seq!['N', 'u', 'm', '5'],
        "Num6"@ =~= seq!['N', 'u', 'm', '6'],
        "Num7"@ =~= seq!['N', 'u', 'm', '7'],
        "Num8"@ =~= seq!['N', 'u', 'm', '8'],
        "Num9"@ =~= seq!['N', 'u', 'm', '9'],
        "Num0"@ =~= seq!['N', 'u', 'm', '0'],
        "Return"@ =~= seq!['R', 'e', 't', 'u', 'r', 'n'],
        "Enter"@ =~= seq!['E', 'n', 't', 'e', 'r'],
        "Escape"@ =~= seq!['E', 's', 'c', 'a', 'p', 'e'],
        "Backspace"@ =~= seq!['B', 'a', 'c', 'k', 's', 'p', 'a', 'c', 'e'],
        "Tab"@ =~= seq!['T', 'a', 'b'],
        "Space"@ =~= seq!['S', 'p', 'a', 'c', 'e'],
        "Delete"@ =~= seq!['D', 'e', 'l', 'e', 't', 'e'],
        "ShiftLeft"@ =~= seq!['S', 'h', 'i', 'f', 't', 'L', 'e', 'f', 't'],
        "ShiftRight"@ =~= seq!['S', 'h', 'i', 'f', 't', 'R', 'i', 'g', 'h', 't'],
        "ControlLeft"@ =~= seq!['C', 'o', 'n', 't', 'r', 'o', 'l', 'L', 'e', 'f', 't'],
        "ControlRight"@ =~= seq!['C', 'o', 'n', 't', 'r', 'o', 'l', 'R', 'i', 'g', 'h', 't'],
        "Alt"@ =~= seq!['A', 'l', 't'],
        "AltGr"@ =~= seq!['A', 'l', 't', 'G', 'r'],
        "MetaLeft"@ =~= seq!['M', 'e', 't', 'a', 'L', 'e', 'f', 't'],
        "MetaRight"@ =~= seq!['M', 'e', 't', 'a', 'R', 'i', 'g', 'h', 't'],
        "UpArrow"@ =~= seq!['U', 'p', 'A', 'r', 'r', 'o', 'w'],
        "DownArrow"@ =~= seq!['D', 'o', 'w', 'n', 'A', 'r', 'r', 'o', 'w'],
        "LeftArrow"@ =~= seq!['L', 'e', 'f', 't', 'A', 'r', 'r', 'o', 'w'],
        "RightArrow"@ =~= seq!['R', 'i', 'g', 'h', 't', 'A', 'r', 'r', 'o', 'w'],
        "F1"@ =~= seq!['F', '1'],
        "F2"@ =~= seq!['F', '2'],
        "F3"@ =~= seq!['F', '3'],
        "F4"@ =~= seq!['F', '4'],
        "F5"@ =~= seq!['F', '5'],
        "F6"@ =~= seq!['F', '6'],
        "F7"@ =~= seq!['F', '7'],
        "F8"@ =~= seq!['F', '8'],
        "F9"@ =~= seq!['F', '9'],
        "F10"@ =~= seq!['F', '1', '0'],
        "F11"@ =~= seq!['F', '1', '1'],
        "F12"@ =~= seq!['F', '1', '2'],
        "Home"@ =~= seq!['H', 'o', 'm', 'e'],
        "End"@ =~= seq!['E', 'n', 'd'],
        "PageUp"@ =~= seq!['P', 'a', 'g', 'e', 'U', 'p'],
        "PageDown"@ =~= seq!['P', 'a', 'g', 'e', 'D', 'o', 'w', 'n'],
        "Unknown("@ =~= seq!['U', 'n', 'k', 'n', 'o', 'w', 'n', '('],
        ")"@ =~= seq![')'],
{
    reveal_strlit("KeyA");
    reveal_strlit("KeyB");
    reveal_strlit("KeyC");
    reveal_strlit("KeyD");
    reveal_strlit("KeyE");
    reveal_strlit("KeyF");
    reveal_strlit("KeyG");
    reveal_strlit("KeyH");
    reveal_strlit("KeyI");
    reveal_strlit("KeyJ");
    reveal_strlit("KeyK");
    reveal_strlit("KeyL");
    reveal_strlit("KeyM");
    reveal_strlit("KeyN");
    reveal_strlit("KeyO");
    reveal_strlit("KeyP");
    reveal_strlit("KeyQ");
    reveal_strlit("KeyR");
    reveal_strlit("KeyS");
    reveal_strlit("KeyT");
    reveal_strlit("KeyU");
    reveal_strlit("KeyV");
    reveal_strlit("KeyW");
    reveal_strlit("KeyX");
    reveal_strlit("KeyY");
    reveal_strlit("KeyZ");
    reveal_strlit("Num1");
    reveal_strlit("Num2");
    reveal_strlit("Num3");
    reveal_strlit("Num4");
    reveal_strlit("Num5");
    reveal_strlit("Num6");
    reveal_strlit("Num7");
    reveal_strlit("Num8");
    reveal_strlit("Num9");
    reveal_strlit("Num0");
    reveal_strlit("Return");
    reveal_strlit("Enter");
    reveal_strlit("Escape");
    reveal_strlit("Backspace");
    reveal_strlit("Tab");
    reveal_strlit("Space");
    reveal_strlit("Delete");
    reveal_strlit("ShiftLeft");
    reveal_strlit("ShiftRight");
    reveal_strlit("ControlLeft");
    reveal_strlit("ControlRight");
    reveal_strlit("Alt");
    reveal_strlit("AltGr");
    reveal_strlit("MetaLeft");
    reveal_strlit("MetaRight");
    reveal_strlit("UpArrow");
    reveal_strlit("DownArrow");
    reveal_strlit("LeftArrow");
    reveal_strlit("RightArrow");
    reveal_strlit("F1");
    reveal_strlit("F2");
    reveal_strlit("F3");
    reveal_strlit("F4");
    reveal_strlit("F5");
    reveal_strlit("F6");
    reveal_strlit("F7");
    reveal_strlit("F8");
    reveal_strlit("F9");
    reveal_strlit("F10");
    reveal_strlit("F11");
    reveal_strlit("F12");
    reveal_strlit("Home");
    reveal_strlit("End");
    reveal_strlit("PageUp");
    reveal_strlit("PageDown");
    reveal_strlit("Unknown(");
    reveal_strlit(")");
}

/// A key's stored name reads back as that key.
pub proof fn lemma_key_name_round_trip(key: Key)
    ensures
        key_of_name(key_name(key)) == key,
        is_key_name(key_name(key)),
{
    reveal_key_names();
    match key {
        Key::Unknown(code) => {
            let digits = decimal_digits(code as nat);
            let name = key_name(key);
            lemma_decimal_digits(code as nat);
            lemma_parse_decimal_digits(code);
            assert(name.len() == 8 + digits.len() + 1);
            assert(name[0] == 'U');
            assert(name[1] == 'n');
            assert(named_key(name) is None);
            assert(name.take(8) =~= "Unknown("@);
            assert(name.last() == ')');
            assert(name.subrange(8, name.len() - 1) =~= digits);
        },
        _ => {},
    }
}

/// A button's stored name reads back as that button.
pub proof fn lemma_button_name_round_trip(button: Button)
    ensures
        button_of_name(button_name(button)) == button,
        is_button_name(button_name(button)),
{
    reveal_strlit("left");
    reveal_strlit("right");
    reveal_strlit("middle");
    assert(ascii_lower("left"@) =~= "left"@);
    assert(ascii_lower("right"@) =~= "right"@);
    assert(ascii_lower("middle"@) =~= "middle"@);
}

/// A field of the stored form.
#[derive(Clone, Copy, Debug, PartialEq, Eq, Structural)]
pub enum Field {
    Type,
    X,
    Y,
    Button,
    Key,
    DeltaX,
    DeltaY,
}

/// Why a stored form could not be read as an event.
#[derive(Clone, Copy, Debug, PartialEq, Eq, Structural)]
pub enum CodecError {
    /// The discriminant names none of the six shapes.
    UnknownShape,
    /// A field that the shape needs is absent.
    MissingField(Field),
}

/// The stored form of one event: a discriminant under `kind` (written `type`
/// in a file) and the fields of its shape. Fields of other shapes may be
/// present and are ignored.
#[derive(Clone, Debug, PartialEq, Eq)]
pub struct CanonicalForm {
    pub kind: Option<String>,
    pub x: Option<u64>,
    pub y: Option<u64>,
    pub button: Option<String>,
    pub key: Option<String>,
    pub delta_x: Option<i64>,
    pub delta_y: Option<i64>,
}

/// A stored form as a mathematical value.
pub struct CanonicalFormView {
    pub kind: Option<Seq<char>>,
    pub x: Option<u64>,
    pub y: Option<u64>,
    pub button: Option<Seq<char>>,
    pub key: Option<Seq<char>>,
    pub delta_x: Option<i64>,
    pub delta_y: Option<i64>,
}

/// The characters of an optional text.
pub open spec fn text_view(text: Option<String>) -> Option<Seq<char>> {
    match text {
        Some(t) => Some(t@),
        None => None,
    }
}

impl View for CanonicalForm {
    type V = CanonicalFormView;

    open spec fn view(&self) -> CanonicalFormView {
        CanonicalFormView {
            kind: text_view(self.kind),
            x: self.x,
            y: self.y,
            button: text_view(self.button),
            key: text_view(self.key),
            delta_x: self.delta_x,
            delta_y: self.delta_y,
        }
    }
}

/// A stored form with a discriminant and no field.
pub open spec fn bare_form(kind: Seq<char>) -> CanonicalFormView {
    CanonicalFormView {
        kind: Some(kind),
        x: None,
        y: None,
        button: None,
        key: None,
        delta_x: None,
        delta_y: None,
    }
}

/// The stored form of an event: its discriminant and exactly the fields of
/// its shape, numbers as they are, buttons and keys by name.
pub open spec fn encode_spec(event: EventType) -> CanonicalFormView {
    match event {
        EventType::MouseMove { x, y } => CanonicalFormView {
            x: Some(x),
            y: Some(y),
            ..bare_form("mouse_move"@)
        },
        EventType::ButtonPress(button) => CanonicalFormView {
            button: Some(button_name(button)),
            ..bare_form("button_press"@)
        },
        EventType::ButtonRelease(button) => CanonicalFormView {
            button: Some(button_name(button)),
            ..bare_form("button_release"@)
        },
        EventType::KeyPress(key) => CanonicalFormView {
            key: Some(key_name(key)),
            ..bare_form("key_press"@)
        },
        EventType::KeyRelease(key) => CanonicalFormView {
            key: Some(key_name(key)),
            ..bare_form("key_release"@)
        },
        EventType::Wheel { delta_x, delta_y } => CanonicalFormView {
            delta_x: Some(delta_x),
            delta_y: Some(delta_y),
            ..bare_form("wheel"@)
        },
    }
}

/// The event that a stored form stands for, or why it stands for none. The
/// discriminant must be present and name a shape, and each field of that
/// shape must be present; the first one missing, in the order in which the
/// shape lists them, is reported.
pub open spec fn decode_spec(form: CanonicalFormView) -> Result<EventType, CodecError> {
    match form.kind {
        None => Err(CodecError::MissingField(Field::Type)),
        Some(kind) => if kind == "mouse_move"@ {
            match (form.x, form.y) {
                (None, _) => Err(CodecError::MissingField(Field::X)),
                (Some(_), None) => Err(CodecError::MissingField(Field::Y)),
                (Some(x), Some(y)) => Ok(EventType::MouseMove { x, y }),
            }
        } else if kind == "button_press"@ {
            match form.button {
                None => Err(CodecError::MissingField(Field::Button)),
                Some(name) => Ok(EventType::ButtonPress(button_of_name(name))),
            }
        } else if kind == "button_release"@ {
            match form.button {
                None => Err(CodecError::MissingField(Field::Button)),
                Some(name) => Ok(EventType::ButtonRelease(button_of_name(name))),
            }
        } else if kind == "key_press"@ {
            match form.key {
                None => Err(CodecError::MissingField(Field::Key)),
                Some(name) => Ok(EventType::KeyPress(key_of_name(name))),
            }
        } else if kind == "key_release"@ {
            match form.key {
                None => Err(CodecError::MissingField(Field::Key)),
                Some(name) => Ok(EventType::KeyRelease(key_of_name(name))),
            }
        } else if kind == "wheel"@ {
            match (form.delta_x, form.delta_y) {
                (None, _) => Err(CodecError::MissingField(Field::DeltaX)),
                (Some(_), None) => Err(CodecError::MissingField(Field::DeltaY)),
                (Some(delta_x), Some(delta_y)) => Ok(EventType::Wheel { delta_x, delta_y }),
            }
        } else {
            Err(CodecError::UnknownShape)
        },
    }
}

/// A stored form with the discriminant `kind` and no field.
fn bare(kind: &str) -> (form: CanonicalForm)
    ensures
        form@ == bare_form(kind@),
{
    CanonicalForm {
        kind: Some(String::from_str(kind)),
        x: None,
        y: None,
        button: None,
        key: None,
        delta_x: None,
        delta_y: None,
    }
}

/// Writes an event in its stored form.
pub fn encode(event: &EventType) -> (form: CanonicalForm)
    ensures
        form@ == encode_spec(*event),
{
    match *event {
        EventType::MouseMove { x, y } => {
            let mut form = bare("mouse_move");
            form.x = Some(x);
            form.y = Some(y);
            form
        },
        EventType::ButtonPress(button) => {
            let mut form = bare("button_press");
            form.button = Some(button_label(button));
            form
        },
        EventType::ButtonRelease(button) => {
            let mut form = bare("button_release");
            form.button = Some(button_label(button));
            form
        },
        EventType::KeyPress(key) => {
            let mut form = bare("key_press");
            form.key = Some(key_label(key));
            form
        },
        EventType::KeyRelease(key) => {
            let mut form = bare("key_release");
            form.key = Some(key_label(key));
            form
        },
        EventType::Wheel { delta_x, delta_y } => {
            let mut form = bare("wheel");
            form.delta_x = Some(delta_x);
            form.delta_y = Some(delta_y);
            form
        },
    }
}

/// Reads an event from its stored form.
pub fn decode(form: &CanonicalForm) -> (event: Result<EventType, CodecError>)
    ensures
        event == decode_spec(form@),
{
    let kind = match &form.kind {
        None => {
            return Err(CodecError::MissingField(Field::Type));
        },
        Some(kind) => kind.as_str(),
    };
    if same_text(kind, "mouse_move") {
        match (form.x, form.y) {
            (None, _) => Err(CodecError::MissingField(Field::X)),
            (Some(_), None) => Err(CodecError::MissingField(Field::Y)),
            (Some(x), Some(y)) => Ok(EventType::MouseMove { x, y }),
        }
    } else if same_text(kind, "button_press") {
        match &form.button {
            None => Err(CodecError::MissingField(Field::Button)),
            Some(name) => Ok(EventType::ButtonPress(parse_button(name.as_str()))),
        }
    } else if same_text(kind, "button_release") {
        match &form.button {
            None => Err(CodecError::MissingField(Field::Button)),
            Some(name) => Ok(EventType::ButtonRelease(parse_button(name.as_str()))),
        }
    } else if same_text(kind, "key_press") {
        match &form.key {
            None => Err(CodecError::MissingField(Field::Key)),
            Some(name) => Ok(EventType::KeyPress(parse_key(name.as_str()))),
        }
    } else if same_text(kind, "key_release") {
        match &form.key {
            None => Err(CodecError::MissingField(Field::Key)),
            Some(name) => Ok(EventType::KeyRelease(parse_key(name.as_str()))),
        }
    } else if same_text(kind, "wheel") {
        match (form.delta_x, form.delta_y) {
            (None, _) => Err(CodecError::MissingField(Field::DeltaX)),
            (Some(_), None) => Err(CodecError::MissingField(Field::DeltaY)),
            (Some(delta_x), Some(delta_y)) => Ok(EventType::Wheel { delta_x, delta_y }),
        }
    } else {
        Err(CodecError::UnknownShape)
    }
}

/// What the six discriminants hold.
proof fn reveal_discriminants()
    ensures
        "mouse_move"@.len() == 10,
        "button_press"@.len() == 12,
        "button_release"@.len() == 14,
        "key_press"@.len() == 9,
        "key_release"@.len() == 11,
        "wheel"@.len() == 5,
{
    reveal_strlit("mouse_move");
    reveal_strlit("button_press");
    reveal_strlit("button_release");
    reveal_strlit("key_press");
    reveal_strlit("key_release");
    reveal_strlit("wheel");
}

/// Writing an event and reading it back gives the event, for each of the six
/// shapes and every value of their fields.
pub proof fn lemma_decode_encode(event: EventType)
    ensures
        decode_spec(encode_spec(event)) == Ok::<EventType, CodecError>(event),
{
    reveal_discriminants();
    match event {
        EventType::ButtonPress(button) => lemma_button_name_round_trip(button),
        EventType::ButtonRelease(button) => lemma_button_name_round_trip(button),
        EventType::KeyPress(key) => lemma_key_name_round_trip(key),
        EventType::KeyRelease(key) => lemma_key_name_round_trip(key),
        _ => {},
    }
}

/// The stored form loses nothing: two events with the same stored form are
/// the same event.
pub proof fn lemma_encode_is_injective(a: EventType, b: EventType)
    requires
        encode_spec(a) == encode_spec(b),
    ensures
        a == b,
{
    lemma_decode_encode(a);
    lemma_decode_encode(b);
}

/// Whether `kind` is the discriminant of a key event.
pub open spec fn is_key_shape(kind: Seq<char>) -> bool {
    kind == "key_press"@ || kind == "key_release"@
}

/// Whether `kind` is the discriminant of a button event.
pub open spec fn is_button_shape(kind: Seq<char>) -> bool {
    kind == "button_press"@ || kind == "button_release"@
}

/// Whether reading `form` falls back on `Unknown(0)`: it is a key event
/// with a key name that is not understood.
pub open spec fn falls_back_spec(form: CanonicalFormView) -> bool {
    &&& form.kind is Some
    &&& is_key_shape(form.kind->0)
    &&& form.key is Some
    &&& !is_key_name(form.key->0)
}

/// Whether reading `form` falls back on `Unknown(0)` for a key name that is
/// not understood. A caller that reads such a form may want to warn.
pub fn falls_back(form: &CanonicalForm) -> (fallback: bool)
    ensures
        fallback == falls_back_spec(form@),
{
    match (&form.kind, &form.key) {
        (Some(kind), Some(key)) => {
            (same_text(kind.as_str(), "key_press") || same_text(kind.as_str(), "key_release"))
                && !is_known_key_name(key.as_str())
        },
        _ => false,
    }
}

/// A key event whose key name is not understood is still read, with the key
/// `Unknown(0)`.
pub proof fn lemma_unknown_key_name_degrades(form: CanonicalFormView)
    requires
        falls_back_spec(form),
    ensures
        decode_spec(form) == Ok::<EventType, CodecError>(
            if form.kind->0 == "key_press"@ {
                EventType::KeyPress(Key::Unknown(0))
            } else {
                EventType::KeyRelease(Key::Unknown(0))
            },
        ),
{
    reveal_discriminants();
}

/// A button event whose button name is none of the three is still read, with
/// the left button.
pub proof fn lemma_unknown_button_name_degrades(form: CanonicalFormView)
    requires
        form.kind is Some,
        is_button_shape(form.kind->0),
        form.button is Some,
        !is_button_name(form.button->0),
    ensures
        decode_spec(form) == Ok::<EventType, CodecError>(
            if form.kind->0 == "button_press"@ {
                EventType::ButtonPress(Button::Left)
            } else {
                EventType::ButtonRelease(Button::Left)
            },
        ),
{
    reveal_discriminants();
}

/// Reading fails only on a malformed form: one without a discriminant, with a
/// discriminant that names no shape, or without a field of its shape. No name
/// of a key or button makes it fail.
pub proof fn lemma_decode_fails_only_on_shape(form: CanonicalFormView)
    ensures
        decode_spec(form) is Err <==> {
            ||| form.kind is None
            ||| !is_known_shape(form.kind->0)
            ||| form.kind->0 == "mouse_move"@ && (form.x is None || form.y is None)
            ||| is_button_shape(form.kind->0) && form.button is None
            ||| is_key_shape(form.kind->0) && form.key is None
            ||| form.kind->0 == "wheel"@ && (form.delta_x is None || form.delta_y is None)
        },
{
    reveal_discriminants();
}

/// Whether `kind` is one of the six discriminants.
pub open spec fn is_known_shape(kind: Seq<char>) -> bool {
    ||| kind == "mouse_move"@
    ||| is_button_shape(kind)
    ||| is_key_shape(kind)
    ||| kind == "wheel"@
}

} // verus!
