//! Translation of native input callbacks into normalized events.
//!
//! The platform hands each callback a raw modifier bitmask, a numeric button
//! id, pixel coordinates and a raw key value; the functions here turn those
//! plain values into the abstract mouse and key events the window handler
//! receives. Positions stay in physical pixels; the embedder divides by the
//! current scale when it needs display points.

use vstd::prelude::*;
use crate::geom::PxPoint;
use crate::keys::{Code, Key, Location, spec_hardware_keycode_to_code, spec_raw_key_to_key,
    spec_raw_key_to_location, hardware_keycode_to_code, raw_key_to_key, raw_key_to_location};

verus! {

/// Platform modifier-bitmask bit for the shift key.
pub const MOD_SHIFT_MASK: u32 = 0x1;

/// Platform modifier-bitmask bit for caps lock.
pub const MOD_LOCK_MASK: u32 = 0x2;

/// Platform modifier-bitmask bit for the control key.
pub const MOD_CONTROL_MASK: u32 = 0x4;

/// Platform modifier-bitmask bit for the alt key.
pub const MOD_ALT_MASK: u32 = 0x8;

/// Platform modifier-bitmask bit for a pressed primary button.
pub const MOD_BUTTON1_MASK: u32 = 0x100;

/// Platform modifier-bitmask bit for a pressed middle button.
pub const MOD_BUTTON2_MASK: u32 = 0x200;

/// Platform modifier-bitmask bit for a pressed secondary button.
pub const MOD_BUTTON3_MASK: u32 = 0x400;

/// Platform modifier-bitmask bit for a pressed fourth button.
pub const MOD_BUTTON4_MASK: u32 = 0x800;

/// Platform modifier-bitmask bit for a pressed fifth button.
pub const MOD_BUTTON5_MASK: u32 = 0x1000;

/// Platform modifier-bitmask bit for the meta key.
pub const MOD_META_MASK: u32 = 0x1000_0000;

/// The keyboard modifiers of an input event.
#[derive(Clone, Copy, PartialEq, Eq, Structural, Debug)]
pub struct Modifiers {
    pub shift: bool,
    pub alt: bool,
    pub ctrl: bool,
    pub meta: bool,
    pub caps_lock: bool,
}

impl Modifiers {
    /// No modifier held.
    pub fn empty() -> (m: Modifiers)
        ensures
            m == (Modifiers { shift: false, alt: false, ctrl: false, meta: false, caps_lock: false }),
    {
        Modifiers { shift: false, alt: false, ctrl: false, meta: false, caps_lock: false }
    }
}

/// The modifiers encoded in a platform bitmask; an absent mask means none.
pub open spec fn spec_get_modifiers(raw: Option<u32>) -> Modifiers {
    match raw {
        Option::Some(m) => Modifiers {
            shift: m & MOD_SHIFT_MASK != 0,
            alt: m & MOD_ALT_MASK != 0,
            ctrl: m & MOD_CONTROL_MASK != 0,
            meta: m & MOD_META_MASK != 0,
            caps_lock: m & MOD_LOCK_MASK != 0,
        },
        Option::None => Modifiers {
            shift: false,
            alt: false,
            ctrl: false,
            meta: false,
            caps_lock: false,
        },
    }
}

/// Decodes a platform modifier bitmask into the abstract modifier set.
pub fn get_modifiers(raw: Option<u32>) -> (m: Modifiers)
    ensures
        m == spec_get_modifiers(raw),
{
    match raw {
        Option::Some(bits) => Modifiers {
            shift: bits & MOD_SHIFT_MASK != 0,
            alt: bits & MOD_ALT_MASK != 0,
            ctrl: bits & MOD_CONTROL_MASK != 0,
            meta: bits & MOD_META_MASK != 0,
            caps_lock: bits & MOD_LOCK_MASK != 0,
        },
        Option::None => Modifiers::empty(),
    }
}

/// A mouse button named by an event.
#[derive(Clone, Copy, PartialEq, Eq, Structural, Debug)]
pub enum MouseButton {
    /// No button: used by pure movement events.
    NoButton,
    Left,
    Middle,
    Right,
    X1,
    X2,
}

/// The set of mouse buttons held down.
#[derive(Clone, Copy, PartialEq, Eq, Structural, Debug)]
pub struct MouseButtons {
    pub left: bool,
    pub middle: bool,
    pub right: bool,
    pub x1: bool,
    pub x2: bool,
}

/// `buttons` with the membership of `b` set to `held`; `MouseButton::NoButton`
/// changes nothing.
pub open spec fn spec_set_button(buttons: MouseButtons, b: MouseButton, held: bool) -> MouseButtons {
    match b {
        MouseButton::NoButton => buttons,
        MouseButton::Left => MouseButtons { left: held, ..buttons },
        MouseButton::Middle => MouseButtons { middle: held, ..buttons },
        MouseButton::Right => MouseButtons { right: held, ..buttons },
        MouseButton::X1 => MouseButtons { x1: held, ..buttons },
        MouseButton::X2 => MouseButtons { x2: held, ..buttons },
    }
}

impl MouseButtons {
    /// No button held.
    pub fn new() -> (b: MouseButtons)
        ensures
            b == (MouseButtons { left: false, middle: false, right: false, x1: false, x2: false }),
    {
        MouseButtons { left: false, middle: false, right: false, x1: false, x2: false }
    }

    /// This set with `b` added.
    pub fn with(self, b: MouseButton) -> (r: MouseButtons)
        ensures
            r == spec_set_button(self, b, true),
    {
        match b {
            MouseButton::NoButton => self,
            MouseButton::Left => MouseButtons { left: true, ..self },
            MouseButton::Middle => MouseButtons { middle: true, ..self },
            MouseButton::Right => MouseButtons { right: true, ..self },
            MouseButton::X1 => MouseButtons { x1: true, ..self },
            MouseButton::X2 => MouseButtons { x2: true, ..self },
        }
    }

    /// This set with `b` removed.
    pub fn without(self, b: MouseButton) -> (r: MouseButtons)
        ensures
            r == spec_set_button(self, b, false),
    {
        match b {
            MouseButton::NoButton => self,
            MouseButton::Left => MouseButtons { left: false, ..self },
            MouseButton::Middle => MouseButtons { middle: false, ..self },
            MouseButton::Right => MouseButtons { right: false, ..self },
            MouseButton::X1 => MouseButtons { x1: false, ..self },
            MouseButton::X2 => MouseButtons { x2: false, ..self },
        }
    }
}

/// The button a platform button number names: 1, 2 and 3 are the left,
/// middle and right buttons; 8 and 9 the extra buttons; anything else is
/// ignored (the platform reports 4 to 7 as scroll events).
pub open spec fn spec_get_mouse_button(button: u32) -> Option<MouseButton> {
    if button == 1 {
        Some(MouseButton::Left)
    } else if button == 2 {
        Some(MouseButton::Middle)
    } else if button == 3 {
        Some(MouseButton::Right)
    } else if button == 8 {
        Some(MouseButton::X1)
    } else if button == 9 {
        Some(MouseButton::X2)
    } else {
        None
    }
}

/// Maps a platform button number to the abstract button it names.
pub fn get_mouse_button(button: u32) -> (r: Option<MouseButton>)
    ensures
        r == spec_get_mouse_button(button),
{
    match button {
        1 => Some(MouseButton::Left),
        2 => Some(MouseButton::Middle),
        3 => Some(MouseButton::Right),
        8 => Some(MouseButton::X1),
        9 => Some(MouseButton::X2),
        _ => None,
    }
}

/// The buttons a platform modifier bitmask reports as held.
pub open spec fn spec_buttons_from_modifiers(m: u32) -> MouseButtons {
    MouseButtons {
        left: m & MOD_BUTTON1_MASK != 0,
        middle: m & MOD_BUTTON2_MASK != 0,
        right: m & MOD_BUTTON3_MASK != 0,
        x1: m & MOD_BUTTON4_MASK != 0,
        x2: m & MOD_BUTTON5_MASK != 0,
    }
}

/// Decodes the held-button set from a platform modifier bitmask.
pub fn get_mouse_buttons_from_modifiers(m: u32) -> (r: MouseButtons)
    ensures
        r == spec_buttons_from_modifiers(m),
{
    let mut buttons = MouseButtons::new();
    if m & MOD_BUTTON1_MASK != 0 {
        buttons = buttons.with(MouseButton::Left);
    }
    if m & MOD_BUTTON2_MASK != 0 {
        buttons = buttons.with(MouseButton::Middle);
    }
    if m & MOD_BUTTON3_MASK != 0 {
        buttons = buttons.with(MouseButton::Right);
    }
    if m & MOD_BUTTON4_MASK != 0 {
        buttons = buttons.with(MouseButton::X1);
    }
    if m & MOD_BUTTON5_MASK != 0 {
        buttons = buttons.with(MouseButton::X2);
    }
    buttons
}

/// A normalized mouse event. The position and wheel delta are in physical
/// pixels.
#[derive(Clone, Copy, PartialEq, Eq, Structural, Debug)]
pub struct MouseEvent {
    pub pos: PxPoint,
    pub buttons: MouseButtons,
    pub mods: Modifiers,
    pub count: u8,
    pub focus: bool,
    pub button: MouseButton,
    pub wheel_delta: PxPoint,
}

/// The mouse-down event for a press of platform button `button` with press
/// count `count` at `(x, y)` under modifier mask `mask`: the named button
/// joins the held set, and only single presses (count 0 or 1) produce an
/// event.
pub open spec fn spec_mouse_down_event(count: i32, x: i64, y: i64, button: u32, mask: u32) -> Option<
    MouseEvent,
> {
    match spec_get_mouse_button(button) {
        Some(b) => if count == 0 || count == 1 {
            Some(MouseEvent {
                pos: PxPoint { x, y },
                buttons: spec_set_button(spec_buttons_from_modifiers(mask), b, true),
                mods: spec_get_modifiers(Some(mask)),
                count: count as u8,
                focus: false,
                button: b,
                wheel_delta: PxPoint { x: 0, y: 0 },
            })
        } else {
            None
        },
        None => None,
    }
}

/// Builds the mouse-down event for a native press callback, or nothing when
/// the button is unmapped or the press count is not a single press.
pub fn mouse_down_event(count: i32, x: i64, y: i64, button: u32, mask: u32) -> (r: Option<
    MouseEvent,
>)
    ensures
        r == spec_mouse_down_event(count, x, y, button, mask),
{
    match get_mouse_button(button) {
        Some(b) => {
            if count == 0 || count == 1 {
                Some(MouseEvent {
                    pos: PxPoint { x, y },
                    buttons: get_mouse_buttons_from_modifiers(mask).with(b),
                    mods: get_modifiers(Some(mask)),
                    count: count as u8,
                    focus: false,
                    button: b,
                    wheel_delta: PxPoint { x: 0, y: 0 },
                })
            } else {
                None
            }
        },
        None => None,
    }
}

/// The mouse-up event for a release of platform button `button` at `(x, y)`
/// under modifier mask `mask`: the held set is the reported set minus the
/// released button, and the count is zero.
pub open spec fn spec_mouse_up_event(x: i64, y: i64, button: u32, mask: u32) -> Option<MouseEvent> {
    match spec_get_mouse_button(button) {
        Some(b) => Some(MouseEvent {
            pos: PxPoint { x, y },
            buttons: spec_set_button(spec_buttons_from_modifiers(mask), b, false),
            mods: spec_get_modifiers(Some(mask)),
            count: 0,
            focus: false,
            button: b,
            wheel_delta: PxPoint { x: 0, y: 0 },
        }),
        None => None,
    }
}

/// Builds the mouse-up event for a native release callback, or nothing when
/// the button is unmapped.
pub fn mouse_up_event(x: i64, y: i64, button: u32, mask: u32) -> (r: Option<MouseEvent>)
    ensures
        r == spec_mouse_up_event(x, y, button, mask),
{
    match get_mouse_button(button) {
        Some(b) => Some(MouseEvent {
            pos: PxPoint { x, y },
            buttons: get_mouse_buttons_from_modifiers(mask).without(b),
            mods: get_modifiers(Some(mask)),
            count: 0,
            focus: false,
            button: b,
            wheel_delta: PxPoint { x: 0, y: 0 },
        }),
        None => None,
    }
}

/// The mouse-move event for a pointer at `(x, y)` under modifier mask
/// `mask`: no named button, buttons and modifiers from the mask.
pub open spec fn spec_mouse_move_event(x: i64, y: i64, mask: u32) -> MouseEvent {
    MouseEvent {
        pos: PxPoint { x, y },
        buttons: spec_buttons_from_modifiers(mask),
        mods: spec_get_modifiers(Some(mask)),
        count: 0,
        focus: false,
        button: MouseButton::NoButton,
        wheel_delta: PxPoint { x: 0, y: 0 },
    }
}

/// Builds the mouse-move event for a native motion callback.
pub fn mouse_move_event(x: i64, y: i64, mask: u32) -> (r: MouseEvent)
    ensures
        r == spec_mouse_move_event(x, y, mask),
{
    MouseEvent {
        pos: PxPoint { x, y },
        buttons: get_mouse_buttons_from_modifiers(mask),
        mods: get_modifiers(Some(mask)),
        count: 0,
        focus: false,
        button: MouseButton::NoButton,
        wheel_delta: PxPoint { x: 0, y: 0 },
    }
}

/// Builds the mouse-move event reported when the pointer leaves the window:
/// a move to the origin with the buttons the mask still reports.
pub fn pointer_leave_event(mask: u32) -> (r: MouseEvent)
    ensures
        r == spec_mouse_move_event(0, 0, mask),
{
    mouse_move_event(0, 0, mask)
}

/// The platform modifier bitmask a modifier set writes back, bit for bit
/// the mask the platform would report for those modifiers (buttons and
/// caps lock aside).
pub open spec fn spec_native_modifier_mask(m: Modifiers) -> u32 {
    (if m.alt {
        MOD_ALT_MASK
    } else {
        0u32
    }) | (if m.ctrl {
        MOD_CONTROL_MASK
    } else {
        0u32
    }) | (if m.shift {
        MOD_SHIFT_MASK
    } else {
        0u32
    }) | (if m.meta {
        MOD_META_MASK
    } else {
        0u32
    })
}

/// Encodes a modifier set as the platform's modifier bitmask.
pub fn modifiers_to_native_mask(m: Modifiers) -> (r: u32)
    ensures
        r == spec_native_modifier_mask(m),
{
    let alt_bit: u32 = if m.alt {
        MOD_ALT_MASK
    } else {
        0
    };
    let ctrl_bit: u32 = if m.ctrl {
        MOD_CONTROL_MASK
    } else {
        0
    };
    let shift_bit: u32 = if m.shift {
        MOD_SHIFT_MASK
    } else {
        0
    };
    let meta_bit: u32 = if m.meta {
        MOD_META_MASK
    } else {
        0
    };
    alt_bit | ctrl_bit | shift_bit | meta_bit
}

/// Whether a key event is a press or a release.
#[derive(Clone, Copy, PartialEq, Eq, Structural, Debug)]
pub enum KeyState {
    Down,
    Up,
}

/// A normalized keyboard event.
#[derive(Clone, PartialEq, Eq, Debug)]
pub struct KeyEvent {
    pub key: Key,
    pub code: Code,
    pub location: Location,
    pub mods: Modifiers,
    pub repeat: bool,
    pub is_composing: bool,
    pub state: KeyState,
}

/// The logical key for a raw value outside the named table: its printable
/// character if it has one (excluding the delete control character), else
/// unidentified.
pub open spec fn spec_key_fallback(unicode: Option<char>) -> Key {
    match unicode {
        Some(c) => if c as u32 >= 32 && c as u32 != 127 {
            Key::Character(c)
        } else {
            Key::Unidentified
        },
        None => Key::Unidentified,
    }
}

/// The logical key of a key event: the named key if the table knows the raw
/// value, else the printable-character fallback.
pub open spec fn spec_event_key(raw: u32, unicode: Option<char>) -> Key {
    match spec_raw_key_to_key(raw) {
        Some(k) => k,
        None => spec_key_fallback(unicode),
    }
}

/// Builds the normalized key event for a native key callback. `raw` is the
/// platform key value, `unicode` the character the platform assigns to it,
/// `repeat` whether the same raw value was already down, and `mask` the
/// modifier bitmask if the platform reported one.
pub fn make_key_event(
    raw: u32,
    unicode: Option<char>,
    repeat: bool,
    state: KeyState,
    mask: Option<u32>,
) -> (ev: KeyEvent)
    ensures
        ev.key == spec_event_key(raw, unicode),
        ev.code == spec_hardware_keycode_to_code(raw),
        ev.location == spec_raw_key_to_location(raw),
        ev.mods == spec_get_modifiers(mask),
        ev.repeat == repeat,
        !ev.is_composing,
        ev.state == state,
{
    let key = match raw_key_to_key(raw) {
        Some(k) => k,
        None => match unicode {
            Some(c) => {
                if c as u32 >= 32 && c as u32 != 127 {
                    Key::Character(c)
                } else {
                    Key::Unidentified
                }
            },
            None => Key::Unidentified,
        },
    };
    KeyEvent {
        key,
        code: hardware_keycode_to_code(raw),
        location: raw_key_to_location(raw),
        mods: get_modifiers(mask),
        repeat,
        is_composing: false,
        state,
    }
}

} // verus!
