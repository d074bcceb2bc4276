use gtk_shell::event::{KeyState, make_key_event};
use gtk_shell::keys::{Code, Key, Location, hardware_keycode_to_code, key_to_raw_key,
    raw_key_to_char, raw_key_to_key, raw_key_to_location};

#[test]
fn named_keys_round_trip_through_the_tables() {
    let named = vec![
        Key::Escape,
        Key::Backspace,
        Key::Tab,
        Key::Enter,
        Key::Control,
        Key::Alt,
        Key::Shift,
        Key::Meta,
        Key::CapsLock,
        Key::F1,
        Key::F2,
        Key::F3,
        Key::F4,
        Key::F5,
        Key::F6,
        Key::F7,
        Key::F8,
        Key::F9,
        Key::F10,
        Key::F11,
        Key::F12,
        Key::PrintScreen,
        Key::ScrollLock,
        Key::Pause,
        Key::Insert,
        Key::Delete,
        Key::Home,
        Key::End,
        Key::PageUp,
        Key::PageDown,
        Key::NumLock,
        Key::ArrowUp,
        Key::ArrowDown,
        Key::ArrowLeft,
        Key::ArrowRight,
        Key::ContextMenu,
        Key::WakeUp,
        Key::LaunchApplication1,
        Key::LaunchApplication2,
        Key::AltGraph,
    ];
    for key in named {
        let raw = match key_to_raw_key(&key) {
            Some(raw) => raw,
            None => panic!("named key has no raw value"),
        };
        assert_eq!(raw_key_to_key(raw), Some(key));
    }
}

#[test]
fn character_and_unlisted_keys_have_no_raw_value() {
    assert_eq!(key_to_raw_key(&Key::Character('a')), None);
    assert_eq!(key_to_raw_key(&Key::Clear), None);
    assert_eq!(key_to_raw_key(&Key::Unidentified), None);
}

#[test]
fn modifier_variants_collapse_forward_and_expand_left() {
    // Both right and left variants name the generic modifier.
    assert_eq!(raw_key_to_key(65507), Some(Key::Control));
    assert_eq!(raw_key_to_key(65508), Some(Key::Control));
    // The reverse direction picks the left-hand variant.
    assert_eq!(key_to_raw_key(&Key::Control), Some(65507));
}

#[test]
fn keypad_cluster_maps_to_numpad_location() {
    assert_eq!(raw_key_to_location(65421), Location::Numpad);
    assert_eq!(raw_key_to_location(65456), Location::Numpad);
    assert_eq!(raw_key_to_location(65507), Location::Left);
    assert_eq!(raw_key_to_location(65508), Location::Right);
    assert_eq!(raw_key_to_location(97), Location::Standard);
}

#[test]
fn hardware_codes_follow_physical_position() {
    assert_eq!(hardware_keycode_to_code(65307), Code::Escape);
    assert_eq!(hardware_keycode_to_code(113), Code::KeyQ);
    assert_eq!(hardware_keycode_to_code(81), Code::KeyQ);
    assert_eq!(hardware_keycode_to_code(65421), Code::NumpadEnter);
    assert_eq!(hardware_keycode_to_code(64798), Code::Enter);
    assert_eq!(hardware_keycode_to_code(12345), Code::Unidentified);
}

#[test]
fn named_raw_values_with_characters() {
    assert_eq!(raw_key_to_char(65293), Some('\r'));
    assert_eq!(raw_key_to_char(65289), Some('\t'));
    assert_eq!(raw_key_to_char(65470), None);
}

#[test]
fn key_events_fall_back_to_printable_characters() {
    let ev = make_key_event(97, Some('a'), false, KeyState::Down, Some(0));
    assert_eq!(ev.key, Key::Character('a'));
    assert_eq!(ev.code, Code::KeyA);
    assert_eq!(ev.location, Location::Standard);
    assert!(!ev.repeat);
    assert!(!ev.is_composing);
    assert_eq!(ev.state, KeyState::Down);
}

#[test]
fn key_events_reject_control_characters() {
    let ev = make_key_event(999999, Some('\x07'), false, KeyState::Down, None);
    assert_eq!(ev.key, Key::Unidentified);
    let ev = make_key_event(999999, Some('\x7f'), false, KeyState::Down, None);
    assert_eq!(ev.key, Key::Unidentified);
    let ev = make_key_event(999999, None, false, KeyState::Up, None);
    assert_eq!(ev.key, Key::Unidentified);
    assert_eq!(ev.state, KeyState::Up);
}

#[test]
fn named_keys_win_over_their_characters() {
    let ev = make_key_event(65307, Some('\u{1b}'), true, KeyState::Down, Some(0));
    assert_eq!(ev.key, Key::Escape);
    assert!(ev.repeat);
}
