//! Input on its way to the browser.
//!
//! A host speaks physical pixels and the browser wants device-independent ones;
//! the coordinates here are already converted.
use vstd::prelude::*;
use crate::surface::{EventModifiers, KeyEvent, KeyEventKind, MouseAction, MouseButton, MouseEvent};

verus! {

// The bits of `cef_event_flags_t` that input carries.

pub const EVENTFLAG_SHIFT_DOWN: u32 = 0x02;

pub const EVENTFLAG_CONTROL_DOWN: u32 = 0x04;

pub const EVENTFLAG_ALT_DOWN: u32 = 0x08;

pub const EVENTFLAG_LEFT_MOUSE_BUTTON: u32 = 0x10;

pub const EVENTFLAG_MIDDLE_MOUSE_BUTTON: u32 = 0x20;

pub const EVENTFLAG_RIGHT_MOUSE_BUTTON: u32 = 0x40;

/// Cmd on macOS, Meta on Windows.
pub const EVENTFLAG_COMMAND_DOWN: u32 = 0x80;

/// `flag` where it is down.
pub open spec fn flag_if(down: bool, flag: u32) -> int {
    if down {
        flag as int
    } else {
        0
    }
}

/// The event flags of a set of modifiers.
pub open spec fn flags_of(m: EventModifiers) -> int {
    flag_if(m.shift, EVENTFLAG_SHIFT_DOWN) + flag_if(m.ctrl, EVENTFLAG_CONTROL_DOWN) + flag_if(
        m.alt,
        EVENTFLAG_ALT_DOWN,
    ) + flag_if(m.left_mouse_button, EVENTFLAG_LEFT_MOUSE_BUTTON) + flag_if(
        m.middle_mouse_button,
        EVENTFLAG_MIDDLE_MOUSE_BUTTON,
    ) + flag_if(m.right_mouse_button, EVENTFLAG_RIGHT_MOUSE_BUTTON) + flag_if(
        m.meta,
        EVENTFLAG_COMMAND_DOWN,
    )
}

/// The event flags of a set of modifiers.
pub fn modifiers(m: EventModifiers) -> (flags: u32)
    ensures
        flags == flags_of(m),
{
    let mut flags: u32 = 0;
    if m.shift {
        flags = flags + EVENTFLAG_SHIFT_DOWN;
    }
    if m.ctrl {
        flags = flags + EVENTFLAG_CONTROL_DOWN;
    }
    if m.alt {
        flags = flags + EVENTFLAG_ALT_DOWN;
    }
    if m.left_mouse_button {
        flags = flags + EVENTFLAG_LEFT_MOUSE_BUTTON;
    }
    if m.middle_mouse_button {
        flags = flags + EVENTFLAG_MIDDLE_MOUSE_BUTTON;
    }
    if m.right_mouse_button {
        flags = flags + EVENTFLAG_RIGHT_MOUSE_BUTTON;
    }
    if m.meta {
        flags = flags + EVENTFLAG_COMMAND_DOWN;
    }
    flags
}

/// The bits of a sum of flags.
pub proof fn lemma_flag_bits(m: EventModifiers, flags: u32)
    requires
        flags == flags_of(m),
    ensures
        flags & 0x02 != 0 <==> m.shift,
        flags & 0x04 != 0 <==> m.ctrl,
        flags & 0x08 != 0 <==> m.alt,
        flags & 0x10 != 0 <==> m.left_mouse_button,
        flags & 0x20 != 0 <==> m.middle_mouse_button,
        flags & 0x40 != 0 <==> m.right_mouse_button,
        flags & 0x80 != 0 <==> m.meta,
        flags & !0xfeu32 == 0,
{
    let s: u32 = if m.shift { 2 } else { 0 };
    let c: u32 = if m.ctrl { 4 } else { 0 };
    let a: u32 = if m.alt { 8 } else { 0 };
    let l: u32 = if m.left_mouse_button { 16 } else { 0 };
    let i: u32 = if m.middle_mouse_button { 32 } else { 0 };
    let r: u32 = if m.right_mouse_button { 64 } else { 0 };
    let e: u32 = if m.meta { 128 } else { 0 };
    assert(flags == s + c + a + l + i + r + e);
    assert((flags & 2 != 0 <==> s == 2) && (flags & 4 != 0 <==> c == 4) && (flags & 8 != 0 <==> a
        == 8) && (flags & 16 != 0 <==> l == 16) && (flags & 32 != 0 <==> i == 32) && (flags & 64
        != 0 <==> r == 64) && (flags & 128 != 0 <==> e == 128) && flags & !0xfeu32 == 0)
        by (bit_vector)
        requires
            flags == s + c + a + l + i + r + e,
            s == 0 || s == 2,
            c == 0 || c == 4,
            a == 0 || a == 8,
            l == 0 || l == 16,
            i == 0 || i == 32,
            r == 0 || r == 64,
            e == 0 || e == 128,
    ;
}

/// Every modifier has a bit of its own, which is set exactly where the modifier
/// is down.
pub proof fn law_each_modifier_has_its_bit(m: EventModifiers, flags: u32)
    requires
        flags == flags_of(m),
    ensures
        flags & EVENTFLAG_SHIFT_DOWN != 0 <==> m.shift,
        flags & EVENTFLAG_CONTROL_DOWN != 0 <==> m.ctrl,
        flags & EVENTFLAG_ALT_DOWN != 0 <==> m.alt,
        flags & EVENTFLAG_LEFT_MOUSE_BUTTON != 0 <==> m.left_mouse_button,
        flags & EVENTFLAG_MIDDLE_MOUSE_BUTTON != 0 <==> m.middle_mouse_button,
        flags & EVENTFLAG_RIGHT_MOUSE_BUTTON != 0 <==> m.right_mouse_button,
        flags & EVENTFLAG_COMMAND_DOWN != 0 <==> m.meta,
        flags & !0xfeu32 == 0,
{
    lemma_flag_bits(m, flags);
}

/// The browser is told of each modifier by the bit that it knows it by, exactly where
/// the modifier is down, and by no other bit.
pub proof fn law_the_browser_knows_modifiers_by_their_bits(m: EventModifiers, flags: u32)
    requires
        call_ensures(modifiers, (m,), flags),
    ensures
        flags & 0x02 != 0 <==> m.shift,
        flags & 0x04 != 0 <==> m.ctrl,
        flags & 0x08 != 0 <==> m.alt,
        flags & 0x10 != 0 <==> m.left_mouse_button,
        flags & 0x20 != 0 <==> m.middle_mouse_button,
        flags & 0x40 != 0 <==> m.right_mouse_button,
        flags & 0x80 != 0 <==> m.meta,
        flags & !0xfeu32 == 0,
{
    lemma_flag_bits(m, flags);
}

/// Where the pointer is and what is held.
#[derive(Clone, Copy, Debug, PartialEq, Eq, Structural)]
pub struct PointerState {
    pub x: i32,
    pub y: i32,
    pub modifiers: u32,
}

/// What the browser is told of the pointer.
#[derive(Clone, Copy, Debug, PartialEq, Eq, Structural)]
pub enum PointerInput {
    Click { at: PointerState, button: MouseButton, up: bool, count: i32 },
    Move { at: PointerState, leave: bool },
    Wheel { at: PointerState, delta_x: i32, delta_y: i32 },
}

/// What the browser is told of a key.
#[derive(Clone, Copy, Debug, PartialEq, Eq, Structural)]
pub struct KeyInput {
    pub kind: KeyEventKind,
    pub modifiers: u32,
    pub windows_key_code: i32,
    pub native_key_code: i32,
    pub character: u16,
    pub unmodified_character: u16,
}

/// What the browser is told of a mouse event.
pub open spec fn pointer_input(event: MouseEvent) -> PointerInput {
    let at = PointerState {
        x: event.x,
        y: event.y,
        modifiers: flags_of(event.modifiers) as u32,
    };
    match event.action {
        MouseAction::Pressed => PointerInput::Click {
            at,
            button: event.button,
            up: false,
            count: 1,
        },
        MouseAction::Released => PointerInput::Click {
            at,
            button: event.button,
            up: true,
            count: 1,
        },
        MouseAction::Moved => PointerInput::Move { at, leave: false },
        MouseAction::WheelScrolled { delta_x, delta_y } => PointerInput::Wheel {
            at,
            delta_x,
            delta_y,
        },
    }
}

/// What the browser is told of a mouse event.
pub fn send_mouse(event: &MouseEvent) -> (input: PointerInput)
    ensures
        input == pointer_input(*event),
        (input matches PointerInput::Click { up, .. } && up) <==> event.action
            == MouseAction::Released,
        (input matches PointerInput::Click { up, .. } && !up) <==> event.action
            == MouseAction::Pressed,
{
    let at = PointerState { x: event.x, y: event.y, modifiers: modifiers(event.modifiers) };
    match event.action {
        MouseAction::Pressed => PointerInput::Click {
            at,
            button: event.button,
            up: false,
            count: 1,
        },
        MouseAction::Released => PointerInput::Click {
            at,
            button: event.button,
            up: true,
            count: 1,
        },
        MouseAction::Moved => PointerInput::Move { at, leave: false },
        MouseAction::WheelScrolled { delta_x, delta_y } => PointerInput::Wheel {
            at,
            delta_x,
            delta_y,
        },
    }
}

/// The one UTF-16 unit that a character is sent as: its low sixteen bits.
pub open spec fn character_unit(character: Option<char>) -> int {
    match character {
        Some(c) => c as int % 0x1_0000,
        None => 0,
    }
}

/// The low sixteen bits of a character.
fn low_unit(c: char) -> (unit: u16)
    ensures
        unit == c as int % 0x1_0000,
{
    (c as u32 % 0x1_0000) as u16
}

/// What the browser is told of a key event.
pub open spec fn key_input(event: KeyEvent) -> KeyInput {
    KeyInput {
        kind: event.kind,
        modifiers: flags_of(event.modifiers) as u32,
        windows_key_code: event.windows_key_code,
        native_key_code: event.native_key_code,
        character: character_unit(event.character) as u16,
        unmodified_character: character_unit(event.character) as u16,
    }
}

/// What the browser is told of a key event.
pub fn send_key(event: &KeyEvent) -> (input: KeyInput)
    ensures
        input == key_input(*event),
{
    let unit: u16 = match event.character {
        Some(c) => low_unit(c),
        None => 0,
    };
    KeyInput {
        kind: event.kind,
        modifiers: modifiers(event.modifiers),
        windows_key_code: event.windows_key_code,
        native_key_code: event.native_key_code,
        character: unit,
        unmodified_character: unit,
    }
}

/// A button that goes down is a click that is not up, and one that comes up is a
/// click that is; both happen once, with the button of the event. A pointer that
/// moves stays in the view, and a wheel turns as far as it was turned. Everything
/// happens where the event did and says which modifiers are down.
pub proof fn law_the_browser_hears_what_the_mouse_did(event: MouseEvent, input: PointerInput)
    requires
        call_ensures(send_mouse, (&event,), input),
    ensures
        (input matches PointerInput::Click { up, .. } && up) <==> event.action
            == MouseAction::Released,
        (input matches PointerInput::Click { up, .. } && !up) <==> event.action
            == MouseAction::Pressed,
        input is Move <==> event.action == MouseAction::Moved,
        input is Wheel <==> event.action is WheelScrolled,
        input matches PointerInput::Click { button, count, .. } ==> button == event.button && count
            == 1,
        input matches PointerInput::Move { leave, .. } ==> !leave,
        input matches PointerInput::Wheel { delta_x, delta_y, .. } ==> event.action
            == (MouseAction::WheelScrolled { delta_x, delta_y }),
        ({
            let at = match input {
                PointerInput::Click { at, .. } => at,
                PointerInput::Move { at, .. } => at,
                PointerInput::Wheel { at, .. } => at,
            };
            &&& at.x == event.x
            &&& at.y == event.y
            &&& at.modifiers & 0x02 != 0 <==> event.modifiers.shift
            &&& at.modifiers & 0x04 != 0 <==> event.modifiers.ctrl
            &&& at.modifiers & 0x08 != 0 <==> event.modifiers.alt
            &&& at.modifiers & 0x10 != 0 <==> event.modifiers.left_mouse_button
            &&& at.modifiers & 0x20 != 0 <==> event.modifiers.middle_mouse_button
            &&& at.modifiers & 0x40 != 0 <==> event.modifiers.right_mouse_button
            &&& at.modifiers & 0x80 != 0 <==> event.modifiers.meta
            &&& at.modifiers & !0xfeu32 == 0
        }),
{
    assert(0 <= flags_of(event.modifiers) <= 0xfe);
    lemma_flag_bits(event.modifiers, flags_of(event.modifiers) as u32);
}

/// A key reaches the browser as the kind of event it is, with its own codes, and
/// the character it makes, if any, in its low sixteen bits, both times. It says
/// which modifiers are down.
pub proof fn law_the_browser_hears_what_the_key_did(event: KeyEvent, input: KeyInput)
    requires
        call_ensures(send_key, (&event,), input),
    ensures
        input.kind == event.kind,
        input.windows_key_code == event.windows_key_code,
        input.native_key_code == event.native_key_code,
        input.character == input.unmodified_character,
        event.character is None ==> input.character == 0,
        event.character matches Some(c) ==> input.character == c as int - 0x1_0000 * (c as int
            / 0x1_0000),
        input.modifiers & 0x02 != 0 <==> event.modifiers.shift,
        input.modifiers & 0x04 != 0 <==> event.modifiers.ctrl,
        input.modifiers & 0x08 != 0 <==> event.modifiers.alt,
        input.modifiers & 0x10 != 0 <==> event.modifiers.left_mouse_button,
        input.modifiers & 0x20 != 0 <==> event.modifiers.middle_mouse_button,
        input.modifiers & 0x40 != 0 <==> event.modifiers.right_mouse_button,
        input.modifiers & 0x80 != 0 <==> event.modifiers.meta,
        input.modifiers & !0xfeu32 == 0,
{
    assert(0 <= flags_of(event.modifiers) <= 0xfe);
    lemma_flag_bits(event.modifiers, flags_of(event.modifiers) as u32);
}

} // verus!
