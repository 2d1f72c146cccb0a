use nyx_agent::modules::codec::{
    button_label, decode, encode, falls_back, is_known_key_name, key_label, parse_button,
    parse_key, CanonicalForm, CodecError, Field,
};
use nyx_agent::modules::input::{Button, EventType, Key};

fn form(kind: &str) -> CanonicalForm {
    CanonicalForm {
        kind: Some(kind.to_string()),
        x: None,
        y: None,
        button: None,
        key: None,
        delta_x: None,
        delta_y: None,
    }
}

fn named_keys() -> Vec<(Key, &'static str)> {
    vec![
        (Key::KeyA, "KeyA"), (Key::KeyB, "KeyB"), (Key::KeyC, "KeyC"), (Key::KeyD, "KeyD"),
        (Key::KeyE, "KeyE"), (Key::KeyF, "KeyF"), (Key::KeyG, "KeyG"), (Key::KeyH, "KeyH"),
        (Key::KeyI, "KeyI"), (Key::KeyJ, "KeyJ"), (Key::KeyK, "KeyK"), (Key::KeyL, "KeyL"),
        (Key::KeyM, "KeyM"), (Key::KeyN, "KeyN"), (Key::KeyO, "KeyO"), (Key::KeyP, "KeyP"),
        (Key::KeyQ, "KeyQ"), (Key::KeyR, "KeyR"), (Key::KeyS, "KeyS"), (Key::KeyT, "KeyT"),
        (Key::KeyU, "KeyU"), (Key::KeyV, "KeyV"), (Key::KeyW, "KeyW"), (Key::KeyX, "KeyX"),
        (Key::KeyY, "KeyY"), (Key::KeyZ, "KeyZ"),
        (Key::Num1, "Num1"), (Key::Num2, "Num2"), (Key::Num3, "Num3"), (Key::Num4, "Num4"),
        (Key::Num5, "Num5"), (Key::Num6, "Num6"), (Key::Num7, "Num7"), (Key::Num8, "Num8"),
        (Key::Num9, "Num9"), (Key::Num0, "Num0"),
        (Key::Return, "Return"), (Key::Escape, "Escape"), (Key::Backspace, "Backspace"),
        (Key::Tab, "Tab"), (Key::Space, "Space"), (Key::Delete, "Delete"),
        (Key::ShiftLeft, "ShiftLeft"), (Key::ShiftRight, "ShiftRight"),
        (Key::ControlLeft, "ControlLeft"), (Key::ControlRight, "ControlRight"),
        (Key::Alt, "Alt"), (Key::AltGr, "AltGr"), (Key::MetaLeft, "MetaLeft"),
        (Key::MetaRight, "MetaRight"),
        (Key::UpArrow, "UpArrow"), (Key::DownArrow, "DownArrow"), (Key::LeftArrow, "LeftArrow"),
        (Key::RightArrow, "RightArrow"),
        (Key::F1, "F1"), (Key::F2, "F2"), (Key::F3, "F3"), (Key::F4, "F4"), (Key::F5, "F5"),
        (Key::F6, "F6"), (Key::F7, "F7"), (Key::F8, "F8"), (Key::F9, "F9"), (Key::F10, "F10"),
        (Key::F11, "F11"), (Key::F12, "F12"),
        (Key::Home, "Home"), (Key::End, "End"), (Key::PageUp, "PageUp"),
        (Key::PageDown, "PageDown"),
    ]
}

#[test]
fn every_named_key_has_its_name_and_reads_back() {
    let table = named_keys();
    assert_eq!(table.len(), 70);
    for (key, name) in table {
        assert_eq!(key_label(key), name);
        assert_eq!(parse_key(name), key);
        assert!(is_known_key_name(name));
    }
}

#[test]
fn enter_is_a_second_name_of_return() {
    assert_eq!(parse_key("Enter"), Key::Return);
    assert_eq!(key_label(Key::Return), "Return");
}

#[test]
fn unknown_key_codes_are_written_in_decimal() {
    assert_eq!(key_label(Key::Unknown(0)), "Unknown(0)");
    assert_eq!(key_label(Key::Unknown(7)), "Unknown(7)");
    assert_eq!(key_label(Key::Unknown(1234567890)), "Unknown(1234567890)");
    assert_eq!(key_label(Key::Unknown(u32::MAX)), "Unknown(4294967295)");
}

#[test]
fn unknown_key_codes_read_back() {
    for code in [0u32, 1, 9, 10, 42, 99, 100, 65535, 4294967294, u32::MAX] {
        assert_eq!(parse_key(&key_label(Key::Unknown(code))), Key::Unknown(code));
    }
    assert_eq!(parse_key("Unknown(+5)"), Key::Unknown(5));
    assert_eq!(parse_key("Unknown(007)"), Key::Unknown(7));
}

#[test]
fn unrecognized_key_name_reads_as_unknown_zero() {
    assert_eq!(parse_key("KeyXYZ"), Key::Unknown(0));
    assert!(!is_known_key_name("KeyXYZ"));
    for name in [
        "", "keya", "KEYA", "CapsLock", "Unknown", "Unknown(", "Unknown()", "Unknown(+)",
        "Unknown(-1)", "Unknown(1 )", "Unknown( 1)", "Unknown(1_0)", "Unknown(4294967296)",
        "Unknown(99999999999999999999)", "Unknown(12", "unknown(12)", "Unknown(12))",
        "Unknown(١٢)", " KeyA",
    ] {
        assert_eq!(parse_key(name), Key::Unknown(0), "{}", name);
        assert!(!is_known_key_name(name), "{}", name);
    }
}

#[test]
fn button_names() {
    assert_eq!(button_label(Button::Left), "left");
    assert_eq!(button_label(Button::Right), "right");
    assert_eq!(button_label(Button::Middle), "middle");
    assert_eq!(parse_button("left"), Button::Left);
    assert_eq!(parse_button("right"), Button::Right);
    assert_eq!(parse_button("middle"), Button::Middle);
    assert_eq!(parse_button("Right"), Button::Right);
    assert_eq!(parse_button("MIDDLE"), Button::Middle);
    assert_eq!(parse_button("unknown(4)"), Button::Left);
    assert_eq!(parse_button(""), Button::Left);
    assert_eq!(parse_button("rightt"), Button::Left);
}

#[test]
fn encode_gives_the_stored_form_of_each_shape() {
    let x = 100.5f64.to_bits();
    let y = (-0.25f64).to_bits();
    assert_eq!(
        encode(&EventType::MouseMove { x, y }),
        CanonicalForm { x: Some(x), y: Some(y), ..form("mouse_move") }
    );
    assert_eq!(
        encode(&EventType::ButtonPress(Button::Right)),
        CanonicalForm { button: Some("right".to_string()), ..form("button_press") }
    );
    assert_eq!(
        encode(&EventType::ButtonRelease(Button::Middle)),
        CanonicalForm { button: Some("middle".to_string()), ..form("button_release") }
    );
    assert_eq!(
        encode(&EventType::KeyPress(Key::ShiftLeft)),
        CanonicalForm { key: Some("ShiftLeft".to_string()), ..form("key_press") }
    );
    assert_eq!(
        encode(&EventType::KeyRelease(Key::Unknown(300))),
        CanonicalForm { key: Some("Unknown(300)".to_string()), ..form("key_release") }
    );
    assert_eq!(
        encode(&EventType::Wheel { delta_x: -2, delta_y: i64::MAX }),
        CanonicalForm { delta_x: Some(-2), delta_y: Some(i64::MAX), ..form("wheel") }
    );
}

#[test]
fn decode_of_encode_is_the_event() {
    let mut events = vec![
        EventType::MouseMove { x: 0, y: u64::MAX },
        EventType::MouseMove { x: f64::NAN.to_bits(), y: 1920.0f64.to_bits() },
        EventType::Wheel { delta_x: i64::MIN, delta_y: 0 },
        EventType::KeyPress(Key::Unknown(0)),
        EventType::KeyRelease(Key::Unknown(u32::MAX)),
    ];
    for button in [Button::Left, Button::Right, Button::Middle] {
        events.push(EventType::ButtonPress(button));
        events.push(EventType::ButtonRelease(button));
    }
    for (key, _) in named_keys() {
        events.push(EventType::KeyPress(key));
        events.push(EventType::KeyRelease(key));
    }
    for event in events {
        assert_eq!(decode(&encode(&event)), Ok(event));
    }
}

#[test]
fn decode_with_unrecognized_key_name_succeeds() {
    let press = CanonicalForm { key: Some("KeyXYZ".to_string()), ..form("key_press") };
    assert_eq!(decode(&press), Ok(EventType::KeyPress(Key::Unknown(0))));
    let release = CanonicalForm { key: Some("Hyper".to_string()), ..form("key_release") };
    assert_eq!(decode(&release), Ok(EventType::KeyRelease(Key::Unknown(0))));
}

#[test]
fn decode_with_unrecognized_button_name_succeeds() {
    let press = CanonicalForm { button: Some("thumb".to_string()), ..form("button_press") };
    assert_eq!(decode(&press), Ok(EventType::ButtonPress(Button::Left)));
    let release = CanonicalForm { button: Some("unknown(8)".to_string()), ..form("button_release") };
    assert_eq!(decode(&release), Ok(EventType::ButtonRelease(Button::Left)));
}

#[test]
fn decode_ignores_fields_of_other_shapes() {
    let mixed = CanonicalForm {
        x: Some(1),
        key: Some("KeyQ".to_string()),
        button: Some("right".to_string()),
        ..form("key_press")
    };
    assert_eq!(decode(&mixed), Ok(EventType::KeyPress(Key::KeyQ)));
}

#[test]
fn decode_rejects_unknown_shape() {
    assert_eq!(decode(&form("teleport")), Err(CodecError::UnknownShape));
    assert_eq!(decode(&form("")), Err(CodecError::UnknownShape));
    assert_eq!(decode(&form("Wheel")), Err(CodecError::UnknownShape));
    assert_eq!(decode(&form("key_press ")), Err(CodecError::UnknownShape));
    let full = CanonicalForm {
        x: Some(1),
        y: Some(2),
        button: Some("left".to_string()),
        key: Some("KeyA".to_string()),
        delta_x: Some(3),
        delta_y: Some(4),
        ..form("MouseMove")
    };
    assert_eq!(decode(&full), Err(CodecError::UnknownShape));
}

#[test]
fn decode_rejects_missing_discriminant() {
    let mut no_kind = form("key_press");
    no_kind.kind = None;
    no_kind.key = Some("KeyA".to_string());
    assert_eq!(decode(&no_kind), Err(CodecError::MissingField(Field::Type)));
}

#[test]
fn decode_rejects_missing_fields() {
    assert_eq!(decode(&form("mouse_move")), Err(CodecError::MissingField(Field::X)));
    assert_eq!(
        decode(&CanonicalForm { y: Some(2), ..form("mouse_move") }),
        Err(CodecError::MissingField(Field::X))
    );
    assert_eq!(
        decode(&CanonicalForm { x: Some(2), ..form("mouse_move") }),
        Err(CodecError::MissingField(Field::Y))
    );
    assert_eq!(decode(&form("button_press")), Err(CodecError::MissingField(Field::Button)));
    assert_eq!(decode(&form("button_release")), Err(CodecError::MissingField(Field::Button)));
    assert_eq!(decode(&form("key_press")), Err(CodecError::MissingField(Field::Key)));
    assert_eq!(decode(&form("key_release")), Err(CodecError::MissingField(Field::Key)));
    assert_eq!(decode(&form("wheel")), Err(CodecError::MissingField(Field::DeltaX)));
    assert_eq!(
        decode(&CanonicalForm { delta_x: Some(1), ..form("wheel") }),
        Err(CodecError::MissingField(Field::DeltaY))
    );
    assert_eq!(
        decode(&CanonicalForm { delta_x: Some(1), delta_y: Some(-1), ..form("wheel") }),
        Ok(EventType::Wheel { delta_x: 1, delta_y: -1 })
    );
}

#[test]
fn falls_back_only_for_key_events_with_unrecognized_names() {
    let unknown = CanonicalForm { key: Some("KeyXYZ".to_string()), ..form("key_press") };
    assert!(falls_back(&unknown));
    let unknown_release = CanonicalForm { key: Some("".to_string()), ..form("key_release") };
    assert!(falls_back(&unknown_release));
    let known = CanonicalForm { key: Some("Enter".to_string()), ..form("key_press") };
    assert!(!falls_back(&known));
    let coded = CanonicalForm { key: Some("Unknown(12)".to_string()), ..form("key_release") };
    assert!(!falls_back(&coded));
    let stray = CanonicalForm { key: Some("KeyXYZ".to_string()), x: Some(0), y: Some(0), ..form("mouse_move") };
    assert!(!falls_back(&stray));
    assert!(!falls_back(&form("key_press")));
    let mut no_kind = form("key_press");
    no_kind.kind = None;
    no_kind.key = Some("KeyXYZ".to_string());
    assert!(!falls_back(&no_kind));
}
