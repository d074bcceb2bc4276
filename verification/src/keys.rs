//! Pure lookup tables between the platform's key identifiers and the
//! abstract key model.
//!
//! A raw key is the platform's numeric key value. The forward table collapses
//! left/right modifier variants to one generic key; the reverse table hands
//! back the left-hand variant, so a round trip through both tables
//! reproduces the logical key exactly.

use vstd::prelude::*;

verus! {

/// The logical meaning of a key press.
#[derive(Clone, Copy, PartialEq, Eq, Debug)]
pub enum Key {
    /// A printable character.
    Character(char),
    Escape,
    Backspace,
    Tab,
    Enter,
    Control,
    Alt,
    Shift,
    Meta,
    CapsLock,
    F1,
    F2,
    F3,
    F4,
    F5,
    F6,
    F7,
    F8,
    F9,
    F10,
    F11,
    F12,
    PrintScreen,
    ScrollLock,
    Pause,
    Insert,
    Delete,
    Home,
    End,
    PageUp,
    PageDown,
    NumLock,
    ArrowUp,
    ArrowDown,
    ArrowLeft,
    ArrowRight,
    Clear,
    ContextMenu,
    WakeUp,
    LaunchApplication1,
    LaunchApplication2,
    AltGraph,
    /// No known meaning for the raw value.
    Unidentified,
}

/// The physical position of a key, independent of its logical meaning.
#[derive(Clone, Copy, PartialEq, Eq, Structural, Debug)]
pub enum Code {
    Escape,
    Digit1,
    Digit2,
    Digit3,
    Digit4,
    Digit5,
    Digit6,
    Digit7,
    Digit8,
    Digit9,
    Digit0,
    Minus,
    Equal,
    Backspace,
    Tab,
    KeyQ,
    KeyW,
    KeyE,
    KeyR,
    KeyT,
    KeyY,
    KeyU,
    KeyI,
    KeyO,
    KeyP,
    BracketLeft,
    BracketRight,
    Enter,
    ControlLeft,
    KeyA,
    KeyS,
    KeyD,
    KeyF,
    KeyG,
    KeyH,
    KeyJ,
    KeyK,
    KeyL,
    Semicolon,
    ShiftLeft,
    Backslash,
    KeyZ,
    KeyX,
    KeyC,
    KeyV,
    KeyB,
    KeyN,
    KeyM,
    Comma,
    Period,
    Slash,
    ShiftRight,
    NumpadMultiply,
    AltLeft,
    Space,
    CapsLock,
    F1,
    F2,
    F3,
    F4,
    F5,
    F6,
    F7,
    F8,
    F9,
    F10,
    NumLock,
    ScrollLock,
    Numpad7,
    Numpad8,
    Numpad9,
    NumpadSubtract,
    Numpad4,
    Numpad5,
    Numpad6,
    NumpadAdd,
    Numpad1,
    Numpad2,
    Numpad3,
    Numpad0,
    NumpadDecimal,
    F11,
    F12,
    NumpadEnter,
    ControlRight,
    NumpadDivide,
    PrintScreen,
    AltRight,
    Home,
    ArrowUp,
    PageUp,
    ArrowLeft,
    ArrowRight,
    End,
    ArrowDown,
    PageDown,
    Insert,
    Delete,
    AudioVolumeMute,
    AudioVolumeDown,
    AudioVolumeUp,
    NumpadEqual,
    Pause,
    IntlYen,
    MetaLeft,
    MetaRight,
    Again,
    Undo,
    Select,
    Copy,
    Open,
    Paste,
    Find,
    Cut,
    Help,
    WakeUp,
    Eject,
    MediaTrackNext,
    MediaPlayPause,
    MediaTrackPrevious,
    MediaStop,
    Unidentified,
}

/// Where on the keyboard a key sits.
#[derive(Clone, Copy, PartialEq, Eq, Structural, Debug)]
pub enum Location {
    Standard,
    Left,
    Right,
    Numpad,
}

/// The named logical key for a raw platform key value, if any.
pub open spec fn spec_raw_key_to_key(raw: u32) -> Option<Key> {
    if raw == 65307 {
        Some(Key::Escape)
    } else if raw == 65288 {
        Some(Key::Backspace)
    } else if raw == 65289 {
        Some(Key::Tab)
    } else if raw == 65056 {
        Some(Key::Tab)
    } else if raw == 65293 {
        Some(Key::Enter)
    } else if raw == 65507 {
        Some(Key::Control)
    } else if raw == 65508 {
        Some(Key::Control)
    } else if raw == 65513 {
        Some(Key::Alt)
    } else if raw == 65514 {
        Some(Key::Alt)
    } else if raw == 65505 {
        Some(Key::Shift)
    } else if raw == 65506 {
        Some(Key::Shift)
    } else if raw == 65515 {
        Some(Key::Meta)
    } else if raw == 65516 {
        Some(Key::Meta)
    } else if raw == 65509 {
        Some(Key::CapsLock)
    } else if raw == 65470 {
        Some(Key::F1)
    } else if raw == 65471 {
        Some(Key::F2)
    } else if raw == 65472 {
        Some(Key::F3)
    } else if raw == 65473 {
        Some(Key::F4)
    } else if raw == 65474 {
        Some(Key::F5)
    } else if raw == 65475 {
        Some(Key::F6)
    } else if raw == 65476 {
        Some(Key::F7)
    } else if raw == 65477 {
        Some(Key::F8)
    } else if raw == 65478 {
        Some(Key::F9)
    } else if raw == 65479 {
        Some(Key::F10)
    } else if raw == 65480 {
        Some(Key::F11)
    } else if raw == 65481 {
        Some(Key::F12)
    } else if raw == 65377 {
        Some(Key::PrintScreen)
    } else if raw == 65300 {
        Some(Key::ScrollLock)
    } else if raw == 65299 {
        Some(Key::Pause)
    } else if raw == 65379 {
        Some(Key::Insert)
    } else if raw == 65535 {
        Some(Key::Delete)
    } else if raw == 65360 {
        Some(Key::Home)
    } else if raw == 65367 {
        Some(Key::End)
    } else if raw == 65365 {
        Some(Key::PageUp)
    } else if raw == 65366 {
        Some(Key::PageDown)
    } else if raw == 65407 {
        Some(Key::NumLock)
    } else if raw == 65362 {
        Some(Key::ArrowUp)
    } else if raw == 65364 {
        Some(Key::ArrowDown)
    } else if raw == 65361 {
        Some(Key::ArrowLeft)
    } else if raw == 65363 {
        Some(Key::ArrowRight)
    } else if raw == 65291 {
        Some(Key::Clear)
    } else if raw == 65383 {
        Some(Key::ContextMenu)
    } else if raw == 269025067 {
        Some(Key::WakeUp)
    } else if raw == 269025088 {
        Some(Key::LaunchApplication1)
    } else if raw == 269025089 {
        Some(Key::LaunchApplication2)
    } else if raw == 65027 {
        Some(Key::AltGraph)
    } else if raw == 65437 {
        Some(Key::Clear)
    } else if raw == 65439 {
        Some(Key::Delete)
    } else if raw == 65433 {
        Some(Key::ArrowDown)
    } else if raw == 65436 {
        Some(Key::End)
    } else if raw == 65421 {
        Some(Key::Enter)
    } else if raw == 65425 {
        Some(Key::F1)
    } else if raw == 65426 {
        Some(Key::F2)
    } else if raw == 65427 {
        Some(Key::F3)
    } else if raw == 65428 {
        Some(Key::F4)
    } else if raw == 65429 {
        Some(Key::Home)
    } else if raw == 65438 {
        Some(Key::Insert)
    } else if raw == 65430 {
        Some(Key::ArrowLeft)
    } else if raw == 65435 {
        Some(Key::PageDown)
    } else if raw == 65434 {
        Some(Key::PageUp)
    } else if raw == 65432 {
        Some(Key::ArrowRight)
    } else if raw == 65417 {
        Some(Key::Tab)
    } else if raw == 65431 {
        Some(Key::ArrowUp)
    } else {
        None
    }
}

/// Maps a raw platform key value to the logical key it names. Left and
/// right modifier variants collapse to the generic modifier key; raw values
/// outside the table map to nothing.
pub fn raw_key_to_key(raw: u32) -> (r: Option<Key>)
    ensures
        r == spec_raw_key_to_key(raw),
{
    match raw {
        65307 => Some(Key::Escape),
        65288 => Some(Key::Backspace),
        65289 => Some(Key::Tab),
        65056 => Some(Key::Tab),
        65293 => Some(Key::Enter),
        65507 => Some(Key::Control),
        65508 => Some(Key::Control),
        65513 => Some(Key::Alt),
        65514 => Some(Key::Alt),
        65505 => Some(Key::Shift),
        65506 => Some(Key::Shift),
        65515 => Some(Key::Meta),
        65516 => Some(Key::Meta),
        65509 => Some(Key::CapsLock),
        65470 => Some(Key::F1),
        65471 => Some(Key::F2),
        65472 => Some(Key::F3),
        65473 => Some(Key::F4),
        65474 => Some(Key::F5),
        65475 => Some(Key::F6),
        65476 => Some(Key::F7),
        65477 => Some(Key::F8),
        65478 => Some(Key::F9),
        65479 => Some(Key::F10),
        65480 => Some(Key::F11),
        65481 => Some(Key::F12),
        65377 => Some(Key::PrintScreen),
        65300 => Some(Key::ScrollLock),
        65299 => Some(Key::Pause),
        65379 => Some(Key::Insert),
        65535 => Some(Key::Delete),
        65360 => Some(Key::Home),
        65367 => Some(Key::End),
        65365 => Some(Key::PageUp),
        65366 => Some(Key::PageDown),
        65407 => Some(Key::NumLock),
        65362 => Some(Key::ArrowUp),
        65364 => Some(Key::ArrowDown),
        65361 => Some(Key::ArrowLeft),
        65363 => Some(Key::ArrowRight),
        65291 => Some(Key::Clear),
        65383 => Some(Key::ContextMenu),
        269025067 => Some(Key::WakeUp),
        269025088 => Some(Key::LaunchApplication1),
        269025089 => Some(Key::LaunchApplication2),
        65027 => Some(Key::AltGraph),
        65437 => Some(Key::Clear),
        65439 => Some(Key::Delete),
        65433 => Some(Key::ArrowDown),
        65436 => Some(Key::End),
        65421 => Some(Key::Enter),
        65425 => Some(Key::F1),
        65426 => Some(Key::F2),
        65427 => Some(Key::F3),
        65428 => Some(Key::F4),
        65429 => Some(Key::Home),
        65438 => Some(Key::Insert),
        65430 => Some(Key::ArrowLeft),
        65435 => Some(Key::PageDown),
        65434 => Some(Key::PageUp),
        65432 => Some(Key::ArrowRight),
        65417 => Some(Key::Tab),
        65431 => Some(Key::ArrowUp),
        _ => None,
    }
}

/// The keyboard location of a raw platform key value.
pub open spec fn spec_raw_key_to_location(raw: u32) -> Location {
    if raw == 65507 || raw == 65505 || raw == 65513 || raw == 65515 || raw == 65511 {
        Location::Left
    } else if raw == 65508 || raw == 65506 || raw == 65514 || raw == 65516 || raw == 65512 {
        Location::Right
    } else if raw == 65456
        || raw == 65457
        || raw == 65458
        || raw == 65459
        || raw == 65460
        || raw == 65461
        || raw == 65462
        || raw == 65463
        || raw == 65464
        || raw == 65465
        || raw == 65451
        || raw == 65437
        || raw == 65454
        || raw == 65439
        || raw == 65455
        || raw == 65433
        || raw == 65436
        || raw == 65421
        || raw == 65469
        || raw == 65425
        || raw == 65426
        || raw == 65427
        || raw == 65428
        || raw == 65429
        || raw == 65438
        || raw == 65430
        || raw == 65450
        || raw == 65435
        || raw == 65434
        || raw == 65432
        || raw == 65452
        || raw == 65408
        || raw == 65453
        || raw == 65417
        || raw == 65431 {
        Location::Numpad
    } else {
        Location::Standard
    }
}

/// Classifies a raw platform key value as a left or right modifier variant,
/// a numeric-keypad key, or a standard-cluster key.
pub fn raw_key_to_location(raw: u32) -> (r: Location)
    ensures
        r == spec_raw_key_to_location(raw),
{
    match raw {
        65507 | 65505 | 65513 | 65515 | 65511 => Location::Left,
        65508 | 65506 | 65514 | 65516 | 65512 => Location::Right,
        65456 | 65457 | 65458 | 65459 | 65460 | 65461 | 65462 | 65463 | 65464 | 65465 | 65451 | 65437 | 65454 | 65439 | 65455 | 65433 | 65436 | 65421 | 65469 | 65425 | 65426 | 65427 | 65428 | 65429 | 65438 | 65430 | 65450 | 65435 | 65434 | 65432 | 65452 | 65408 | 65453 | 65417 | 65431 => Location::Numpad,
        _ => Location::Standard,
    }
}

/// The raw platform key value for a named logical key, if any; generic
/// modifiers yield their left-hand variant.
pub open spec fn spec_key_to_raw_key(key: Key) -> Option<u32> {
    match key {
        Key::Escape => Some(65307u32),
        Key::Backspace => Some(65288u32),
        Key::Tab => Some(65289u32),
        Key::Enter => Some(65293u32),
        Key::Control => Some(65507u32),
        Key::Alt => Some(65513u32),
        Key::Shift => Some(65505u32),
        Key::Meta => Some(65515u32),
        Key::CapsLock => Some(65509u32),
        Key::F1 => Some(65470u32),
        Key::F2 => Some(65471u32),
        Key::F3 => Some(65472u32),
        Key::F4 => Some(65473u32),
        Key::F5 => Some(65474u32),
        Key::F6 => Some(65475u32),
        Key::F7 => Some(65476u32),
        Key::F8 => Some(65477u32),
        Key::F9 => Some(65478u32),
        Key::F10 => Some(65479u32),
        Key::F11 => Some(65480u32),
        Key::F12 => Some(65481u32),
        Key::PrintScreen => Some(65377u32),
        Key::ScrollLock => Some(65300u32),
        Key::Pause => Some(65299u32),
        Key::Insert => Some(65379u32),
        Key::Delete => Some(65535u32),
        Key::Home => Some(65360u32),
        Key::End => Some(65367u32),
        Key::PageUp => Some(65365u32),
        Key::PageDown => Some(65366u32),
        Key::NumLock => Some(65407u32),
        Key::ArrowUp => Some(65362u32),
        Key::ArrowDown => Some(65364u32),
        Key::ArrowLeft => Some(65361u32),
        Key::ArrowRight => Some(65363u32),
        Key::ContextMenu => Some(65383u32),
        Key::WakeUp => Some(269025067u32),
        Key::LaunchApplication1 => Some(269025088u32),
        Key::LaunchApplication2 => Some(269025089u32),
        Key::AltGraph => Some(65027u32),
        _ => None,
    }
}

/// Maps a named logical key back to a raw platform key value. Generic
/// modifiers map to their left-hand variant; character keys and keys outside
/// the table map to nothing.
pub fn key_to_raw_key(key: &Key) -> (r: Option<u32>)
    ensures
        r == spec_key_to_raw_key(*key),
{
    match key {
        Key::Escape => Some(65307),
        Key::Backspace => Some(65288),
        Key::Tab => Some(65289),
        Key::Enter => Some(65293),
        Key::Control => Some(65507),
        Key::Alt => Some(65513),
        Key::Shift => Some(65505),
        Key::Meta => Some(65515),
        Key::CapsLock => Some(65509),
        Key::F1 => Some(65470),
        Key::F2 => Some(65471),
        Key::F3 => Some(65472),
        Key::F4 => Some(65473),
        Key::F5 => Some(65474),
        Key::F6 => Some(65475),
        Key::F7 => Some(65476),
        Key::F8 => Some(65477),
        Key::F9 => Some(65478),
        Key::F10 => Some(65479),
        Key::F11 => Some(65480),
        Key::F12 => Some(65481),
        Key::PrintScreen => Some(65377),
        Key::ScrollLock => Some(65300),
        Key::Pause => Some(65299),
        Key::Insert => Some(65379),
        Key::Delete => Some(65535),
        Key::Home => Some(65360),
        Key::End => Some(65367),
        Key::PageUp => Some(65365),
        Key::PageDown => Some(65366),
        Key::NumLock => Some(65407),
        Key::ArrowUp => Some(65362),
        Key::ArrowDown => Some(65364),
        Key::ArrowLeft => Some(65361),
        Key::ArrowRight => Some(65363),
        Key::ContextMenu => Some(65383),
        Key::WakeUp => Some(269025067),
        Key::LaunchApplication1 => Some(269025088),
        Key::LaunchApplication2 => Some(269025089),
        Key::AltGraph => Some(65027),
        _ => None,
    }
}

/// The physical-position code for a raw platform key value.
pub open spec fn spec_hardware_keycode_to_code(raw: u32) -> Code {
    if raw == 65307 {
        Code::Escape
    } else if raw == 49 {
        Code::Digit1
    } else if raw == 50 {
        Code::Digit2
    } else if raw == 51 {
        Code::Digit3
    } else if raw == 52 {
        Code::Digit4
    } else if raw == 53 {
        Code::Digit5
    } else if raw == 54 {
        Code::Digit6
    } else if raw == 55 {
        Code::Digit7
    } else if raw == 56 {
        Code::Digit8
    } else if raw == 57 {
        Code::Digit9
    } else if raw == 48 {
        Code::Digit0
    } else if raw == 45 {
        Code::Minus
    } else if raw == 61 {
        Code::Equal
    } else if raw == 65288 {
        Code::Backspace
    } else if raw == 65289 {
        Code::Tab
    } else if raw == 113 {
        Code::KeyQ
    } else if raw == 81 {
        Code::KeyQ
    } else if raw == 119 {
        Code::KeyW
    } else if raw == 87 {
        Code::KeyW
    } else if raw == 101 {
        Code::KeyE
    } else if raw == 69 {
        Code::KeyE
    } else if raw == 114 {
        Code::KeyR
    } else if raw == 82 {
        Code::KeyR
    } else if raw == 116 {
        Code::KeyT
    } else if raw == 84 {
        Code::KeyT
    } else if raw == 121 {
        Code::KeyY
    } else if raw == 89 {
        Code::KeyY
    } else if raw == 117 {
        Code::KeyU
    } else if raw == 85 {
        Code::KeyU
    } else if raw == 105 {
        Code::KeyI
    } else if raw == 73 {
        Code::KeyI
    } else if raw == 111 {
        Code::KeyO
    } else if raw == 79 {
        Code::KeyO
    } else if raw == 112 {
        Code::KeyP
    } else if raw == 80 {
        Code::KeyP
    } else if raw == 91 {
        Code::BracketLeft
    } else if raw == 93 {
        Code::BracketRight
    } else if raw == 64798 {
        Code::Enter
    } else if raw == 65507 {
        Code::ControlLeft
    } else if raw == 97 {
        Code::KeyA
    } else if raw == 65 {
        Code::KeyA
    } else if raw == 115 {
        Code::KeyS
    } else if raw == 83 {
        Code::KeyS
    } else if raw == 100 {
        Code::KeyD
    } else if raw == 68 {
        Code::KeyD
    } else if raw == 102 {
        Code::KeyF
    } else if raw == 70 {
        Code::KeyF
    } else if raw == 103 {
        Code::KeyG
    } else if raw == 71 {
        Code::KeyG
    } else if raw == 104 {
        Code::KeyH
    } else if raw == 72 {
        Code::KeyH
    } else if raw == 106 {
        Code::KeyJ
    } else if raw == 74 {
        Code::KeyJ
    } else if raw == 107 {
        Code::KeyK
    } else if raw == 75 {
        Code::KeyK
    } else if raw == 108 {
        Code::KeyL
    } else if raw == 76 {
        Code::KeyL
    } else if raw == 59 {
        Code::Semicolon
    } else if raw == 65505 {
        Code::ShiftLeft
    } else if raw == 92 {
        Code::Backslash
    } else if raw == 122 {
        Code::KeyZ
    } else if raw == 90 {
        Code::KeyZ
    } else if raw == 120 {
        Code::KeyX
    } else if raw == 88 {
        Code::KeyX
    } else if raw == 99 {
        Code::KeyC
    } else if raw == 67 {
        Code::KeyC
    } else if raw == 118 {
        Code::KeyV
    } else if raw == 86 {
        Code::KeyV
    } else if raw == 98 {
        Code::KeyB
    } else if raw == 66 {
        Code::KeyB
    } else if raw == 110 {
        Code::KeyN
    } else if raw == 78 {
        Code::KeyN
    } else if raw == 109 {
        Code::KeyM
    } else if raw == 77 {
        Code::KeyM
    } else if raw == 44 {
        Code::Comma
    } else if raw == 46 {
        Code::Period
    } else if raw == 47 {
        Code::Slash
    } else if raw == 65506 {
        Code::ShiftRight
    } else if raw == 65450 {
        Code::NumpadMultiply
    } else if raw == 65513 {
        Code::AltLeft
    } else if raw == 32 {
        Code::Space
    } else if raw == 65509 {
        Code::CapsLock
    } else if raw == 65470 {
        Code::F1
    } else if raw == 65471 {
        Code::F2
    } else if raw == 65472 {
        Code::F3
    } else if raw == 65473 {
        Code::F4
    } else if raw == 65474 {
        Code::F5
    } else if raw == 65475 {
        Code::F6
    } else if raw == 65476 {
        Code::F7
    } else if raw == 65477 {
        Code::F8
    } else if raw == 65478 {
        Code::F9
    } else if raw == 65479 {
        Code::F10
    } else if raw == 65407 {
        Code::NumLock
    } else if raw == 65300 {
        Code::ScrollLock
    } else if raw == 65463 {
        Code::Numpad7
    } else if raw == 65464 {
        Code::Numpad8
    } else if raw == 65465 {
        Code::Numpad9
    } else if raw == 65453 {
        Code::NumpadSubtract
    } else if raw == 65460 {
        Code::Numpad4
    } else if raw == 65461 {
        Code::Numpad5
    } else if raw == 65462 {
        Code::Numpad6
    } else if raw == 65451 {
        Code::NumpadAdd
    } else if raw == 65457 {
        Code::Numpad1
    } else if raw == 65458 {
        Code::Numpad2
    } else if raw == 65459 {
        Code::Numpad3
    } else if raw == 65456 {
        Code::Numpad0
    } else if raw == 65454 {
        Code::NumpadDecimal
    } else if raw == 65480 {
        Code::F11
    } else if raw == 65481 {
        Code::F12
    } else if raw == 65421 {
        Code::NumpadEnter
    } else if raw == 65508 {
        Code::ControlRight
    } else if raw == 65455 {
        Code::NumpadDivide
    } else if raw == 64797 {
        Code::PrintScreen
    } else if raw == 65514 {
        Code::AltRight
    } else if raw == 65360 {
        Code::Home
    } else if raw == 2300 {
        Code::ArrowUp
    } else if raw == 65365 {
        Code::PageUp
    } else if raw == 2299 {
        Code::ArrowLeft
    } else if raw == 2301 {
        Code::ArrowRight
    } else if raw == 65367 {
        Code::End
    } else if raw == 2302 {
        Code::ArrowDown
    } else if raw == 65366 {
        Code::PageDown
    } else if raw == 65379 {
        Code::Insert
    } else if raw == 65535 {
        Code::Delete
    } else if raw == 269025042 {
        Code::AudioVolumeMute
    } else if raw == 269025041 {
        Code::AudioVolumeDown
    } else if raw == 269025043 {
        Code::AudioVolumeUp
    } else if raw == 65469 {
        Code::NumpadEqual
    } else if raw == 65299 {
        Code::Pause
    } else if raw == 165 {
        Code::IntlYen
    } else if raw == 65511 {
        Code::MetaLeft
    } else if raw == 65512 {
        Code::MetaRight
    } else if raw == 65382 {
        Code::Again
    } else if raw == 65381 {
        Code::Undo
    } else if raw == 65376 {
        Code::Select
    } else if raw == 269025111 {
        Code::Copy
    } else if raw == 269025131 {
        Code::Open
    } else if raw == 269025133 {
        Code::Paste
    } else if raw == 65384 {
        Code::Find
    } else if raw == 269025112 {
        Code::Cut
    } else if raw == 65386 {
        Code::Help
    } else if raw == 269025067 {
        Code::WakeUp
    } else if raw == 269025068 {
        Code::Eject
    } else if raw == 269025047 {
        Code::MediaTrackNext
    } else if raw == 269025073 {
        Code::MediaPlayPause
    } else if raw == 269025046 {
        Code::MediaTrackPrevious
    } else if raw == 269025045 {
        Code::MediaStop
    } else {
        Code::Unidentified
    }
}

/// Maps a raw platform key value to the physical-position code of the key
/// that produced it, with an explicit fallback for unmapped values. Physical
/// position is independent of the logical key, so this table stands apart
/// from the logical one.
pub fn hardware_keycode_to_code(raw: u32) -> (r: Code)
    ensures
        r == spec_hardware_keycode_to_code(raw),
{
    match raw {
        65307 => Code::Escape,
        49 => Code::Digit1,
        50 => Code::Digit2,
        51 => Code::Digit3,
        52 => Code::Digit4,
        53 => Code::Digit5,
        54 => Code::Digit6,
        55 => Code::Digit7,
        56 => Code::Digit8,
        57 => Code::Digit9,
        48 => Code::Digit0,
        45 => Code::Minus,
        61 => Code::Equal,
        65288 => Code::Backspace,
        65289 => Code::Tab,
        113 | 81 => Code::KeyQ,
        119 | 87 => Code::KeyW,
        101 | 69 => Code::KeyE,
        114 | 82 => Code::KeyR,
        116 | 84 => Code::KeyT,
        121 | 89 => Code::KeyY,
        117 | 85 => Code::KeyU,
        105 | 73 => Code::KeyI,
        111 | 79 => Code::KeyO,
        112 | 80 => Code::KeyP,
        91 => Code::BracketLeft,
        93 => Code::BracketRight,
        64798 => Code::Enter,
        65507 => Code::ControlLeft,
        97 | 65 => Code::KeyA,
        115 | 83 => Code::KeyS,
        100 | 68 => Code::KeyD,
        102 | 70 => Code::KeyF,
        103 | 71 => Code::KeyG,
        104 | 72 => Code::KeyH,
        106 | 74 => Code::KeyJ,
        107 | 75 => Code::KeyK,
        108 | 76 => Code::KeyL,
        59 => Code::Semicolon,
        65505 => Code::ShiftLeft,
        92 => Code::Backslash,
        122 | 90 => Code::KeyZ,
        120 | 88 => Code::KeyX,
        99 | 67 => Code::KeyC,
        118 | 86 => Code::KeyV,
        98 | 66 => Code::KeyB,
        110 | 78 => Code::KeyN,
        109 | 77 => Code::KeyM,
        44 => Code::Comma,
        46 => Code::Period,
        47 => Code::Slash,
        65506 => Code::ShiftRight,
        65450 => Code::NumpadMultiply,
        65513 => Code::AltLeft,
        32 => Code::Space,
        65509 => Code::CapsLock,
        65470 => Code::F1,
        65471 => Code::F2,
        65472 => Code::F3,
        65473 => Code::F4,
        65474 => Code::F5,
        65475 => Code::F6,
        65476 => Code::F7,
        65477 => Code::F8,
        65478 => Code::F9,
        65479 => Code::F10,
        65407 => Code::NumLock,
        65300 => Code::ScrollLock,
        65463 => Code::Numpad7,
        65464 => Code::Numpad8,
        65465 => Code::Numpad9,
        65453 => Code::NumpadSubtract,
        65460 => Code::Numpad4,
        65461 => Code::Numpad5,
        65462 => Code::Numpad6,
        65451 => Code::NumpadAdd,
        65457 => Code::Numpad1,
        65458 => Code::Numpad2,
        65459 => Code::Numpad3,
        65456 => Code::Numpad0,
        65454 => Code::NumpadDecimal,
        65480 => Code::F11,
        65481 => Code::F12,
        65421 => Code::NumpadEnter,
        65508 => Code::ControlRight,
        65455 => Code::NumpadDivide,
        64797 => Code::PrintScreen,
        65514 => Code::AltRight,
        65360 => Code::Home,
        2300 => Code::ArrowUp,
        65365 => Code::PageUp,
        2299 => Code::ArrowLeft,
        2301 => Code::ArrowRight,
        65367 => Code::End,
        2302 => Code::ArrowDown,
        65366 => Code::PageDown,
        65379 => Code::Insert,
        65535 => Code::Delete,
        269025042 => Code::AudioVolumeMute,
        269025041 => Code::AudioVolumeDown,
        269025043 => Code::AudioVolumeUp,
        65469 => Code::NumpadEqual,
        65299 => Code::Pause,
        165 => Code::IntlYen,
        65511 => Code::MetaLeft,
        65512 => Code::MetaRight,
        65382 => Code::Again,
        65381 => Code::Undo,
        65376 => Code::Select,
        269025111 => Code::Copy,
        269025131 => Code::Open,
        269025133 => Code::Paste,
        65384 => Code::Find,
        269025112 => Code::Cut,
        65386 => Code::Help,
        269025067 => Code::WakeUp,
        269025068 => Code::Eject,
        269025047 => Code::MediaTrackNext,
        269025073 => Code::MediaPlayPause,
        269025046 => Code::MediaTrackPrevious,
        269025045 => Code::MediaStop,
        _ => Code::Unidentified,
    }
}

/// The control character the platform assigns to a named raw key value,
/// for the few named keys that have one; used when a hotkey needs a
/// character to build an accelerator string.
pub open spec fn spec_raw_key_to_char(raw: u32) -> Option<char> {
    if raw == 65288 {
        Some('\u{8}')
    } else if raw == 65289 {
        Some('\u{9}')
    } else if raw == 65293 {
        Some('\u{d}')
    } else if raw == 65307 {
        Some('\u{1b}')
    } else if raw == 65535 {
        Some('\u{7f}')
    } else {
        None
    }
}

/// The character for a named raw key value, if the platform assigns one.
pub fn raw_key_to_char(raw: u32) -> (r: Option<char>)
    ensures
        r == spec_raw_key_to_char(raw),
{
    match raw {
        65288 => Some('\u{8}'),
        65289 => Some('\u{9}'),
        65293 => Some('\u{d}'),
        65307 => Some('\u{1b}'),
        65535 => Some('\u{7f}'),
        _ => None,
    }
}

/// Round trip of the logical-key tables: every named key the reverse table
/// maps to a raw value is mapped back to exactly the same logical key by the
/// forward table, the left-hand modifier variants standing for their generic
/// keys.
pub proof fn lemma_key_round_trip(k: Key)
    requires
        spec_key_to_raw_key(k) is Some,
    ensures
        spec_raw_key_to_key(spec_key_to_raw_key(k)->Some_0) == Some(k),
{
}

} // verus!
