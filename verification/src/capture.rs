//! Classification of raw hook notifications.
//!
//! A low-level hook hands over a message number and a payload. The functions
//! here turn the message numbers into the crate's own vocabulary, before any
//! other logic sees them.

use vstd::prelude::*;
use crate::input::MouseButton;
use crate::input::Point;
use crate::state::Event;

verus! {

/// Message of a key going down.
pub const WM_KEYDOWN: u32 = 0x0100;

/// Message of a key going up.
pub const WM_KEYUP: u32 = 0x0101;

/// Message of a key going down while the system modifier is held.
pub const WM_SYSKEYDOWN: u32 = 0x0104;

/// Message of a key going up while the system modifier is held.
pub const WM_SYSKEYUP: u32 = 0x0105;

/// Message of a pointer move.
pub const WM_MOUSEMOVE: u32 = 0x0200;

/// Message of the left button going down.
pub const WM_LBUTTONDOWN: u32 = 0x0201;

/// Message of the left button going up.
pub const WM_LBUTTONUP: u32 = 0x0202;

/// Message of the right button going down.
pub const WM_RBUTTONDOWN: u32 = 0x0204;

/// Message of the right button going up.
pub const WM_RBUTTONUP: u32 = 0x0205;

/// Virtual key code of the modifier key that gates the hotkeys.
pub const VK_LWIN: u32 = 0x5B;

/// Virtual key code of the key that starts and stops a recording.
pub const VK_F2: u32 = 0x71;

/// Virtual key code of the key that plays the saved record.
pub const VK_F3: u32 = 0x72;

/// The event that a mouse message stands for, if it stands for one.
///
/// The four button transitions carry no position; a move carries the
/// position of the payload. Every other message stands for nothing.
pub open spec fn mouse_event(message: u32, pt: Point) -> Option<Event> {
    if message == WM_LBUTTONDOWN {
        Some(Event::MouseButton { button: MouseButton::Left, down: true })
    } else if message == WM_LBUTTONUP {
        Some(Event::MouseButton { button: MouseButton::Left, down: false })
    } else if message == WM_RBUTTONDOWN {
        Some(Event::MouseButton { button: MouseButton::Right, down: true })
    } else if message == WM_RBUTTONUP {
        Some(Event::MouseButton { button: MouseButton::Right, down: false })
    } else if message == WM_MOUSEMOVE {
        Some(Event::MouseMove { x: pt.x, y: pt.y })
    } else {
        None
    }
}

/// Classifies a mouse message with the position of its payload.
pub fn translate_mouse(message: u32, pt: Point) -> (event: Option<Event>)
    ensures
        event == mouse_event(message, pt),
{
    if message == WM_LBUTTONDOWN {
        Some(Event::MouseButton { button: MouseButton::Left, down: true })
    } else if message == WM_LBUTTONUP {
        Some(Event::MouseButton { button: MouseButton::Left, down: false })
    } else if message == WM_RBUTTONDOWN {
        Some(Event::MouseButton { button: MouseButton::Right, down: true })
    } else if message == WM_RBUTTONUP {
        Some(Event::MouseButton { button: MouseButton::Right, down: false })
    } else if message == WM_MOUSEMOVE {
        Some(Event::MouseMove { x: pt.x, y: pt.y })
    } else {
        None
    }
}

/// Whether a keyboard message reports a key going down (`Some(true)`), a key
/// going up (`Some(false)`), or neither.
pub open spec fn key_edge(message: u32) -> Option<bool> {
    if message == WM_KEYDOWN || message == WM_SYSKEYDOWN {
        Some(true)
    } else if message == WM_KEYUP || message == WM_SYSKEYUP {
        Some(false)
    } else {
        None
    }
}

/// Classifies a keyboard message as key-down, key-up or neither.
pub fn translate_key(message: u32) -> (down: Option<bool>)
    ensures
        down == key_edge(message),
{
    if message == WM_KEYDOWN || message == WM_SYSKEYDOWN {
        Some(true)
    } else if message == WM_KEYUP || message == WM_SYSKEYUP {
        Some(false)
    } else {
        None
    }
}

} // verus!
