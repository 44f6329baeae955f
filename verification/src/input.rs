//! Raw input vocabulary and the synthesized mouse input handed to the system.

use vstd::math::abs;
use vstd::prelude::*;

verus! {

/// A mouse button that can be captured and replayed.
#[derive(Clone, Copy, Debug, PartialEq, Eq, Hash)]
pub enum MouseButton {
    Left,
    Right,
}

/// A position in absolute screen coordinates.
#[derive(Clone, Copy, Debug, PartialEq, Eq, Hash)]
pub struct Point {
    pub x: i32,
    pub y: i32,
}

/// Flag of a synthesized input: the pointer moved.
pub const MOUSEEVENTF_MOVE: u32 = 0x0001;

/// Flag of a synthesized input: the left button went down.
pub const MOUSEEVENTF_LEFTDOWN: u32 = 0x0002;

/// Flag of a synthesized input: the left button went up.
pub const MOUSEEVENTF_LEFTUP: u32 = 0x0004;

/// Flag of a synthesized input: the right button went down.
pub const MOUSEEVENTF_RIGHTDOWN: u32 = 0x0008;

/// Flag of a synthesized input: the right button went up.
pub const MOUSEEVENTF_RIGHTUP: u32 = 0x0010;

/// Flag of a synthesized input: consecutive moves are not merged.
pub const MOUSEEVENTF_MOVE_NOCOALESCE: u32 = 0x2000;

/// Flag of a synthesized input: `dx` and `dy` are normalized absolute coordinates.
pub const MOUSEEVENTF_ABSOLUTE: u32 = 0x8000;

/// The full range of a normalized absolute coordinate.
pub const ABSOLUTE_RANGE: i64 = 65535;

/// One synthesized mouse input, as the system takes it.
#[derive(Clone, Copy, Debug, PartialEq, Eq)]
pub struct MouseInput {
    /// Horizontal position, normalized to `0..=65535` across the screen.
    pub dx: i32,
    /// Vertical position, normalized to `0..=65535` across the screen.
    pub dy: i32,
    /// Wheel or extra-button data; unused here.
    pub mouse_data: u32,
    /// What the input reports: a combination of the `MOUSEEVENTF_` flags.
    pub flags: u32,
    /// Time stamp; zero lets the system supply its own.
    pub time: u32,
    /// Extra information attached to the input; unused here.
    pub extra_info: usize,
}

/// The flag that reports the given transition of the given button.
pub open spec fn click_flag(button: MouseButton, down: bool) -> u32 {
    match (button, down) {
        (MouseButton::Left, true) => MOUSEEVENTF_LEFTDOWN,
        (MouseButton::Left, false) => MOUSEEVENTF_LEFTUP,
        (MouseButton::Right, true) => MOUSEEVENTF_RIGHTDOWN,
        (MouseButton::Right, false) => MOUSEEVENTF_RIGHTUP,
    }
}

/// The input that presses or releases a button where the pointer is.
pub open spec fn click(button: MouseButton, down: bool) -> MouseInput {
    MouseInput {
        dx: 0,
        dy: 0,
        mouse_data: 0,
        flags: click_flag(button, down),
        time: 0,
        extra_info: 0,
    }
}

/// Builds the input that presses (`down`) or releases `button`.
pub fn click_input(button: MouseButton, down: bool) -> (input: MouseInput)
    ensures
        input == click(button, down),
{
    let flags: u32 = match (button, down) {
        (MouseButton::Left, true) => MOUSEEVENTF_LEFTDOWN,
        (MouseButton::Left, false) => MOUSEEVENTF_LEFTUP,
        (MouseButton::Right, true) => MOUSEEVENTF_RIGHTDOWN,
        (MouseButton::Right, false) => MOUSEEVENTF_RIGHTUP,
    };
    MouseInput { dx: 0, dy: 0, mouse_data: 0, flags, time: 0, extra_info: 0 }
}

/// The quotient of `a` by `b`, rounded toward zero: the quotient of the
/// magnitudes, with the sign of the exact quotient.
pub open spec fn div_toward_zero(a: int, b: int) -> int {
    if (a >= 0) == (b > 0) {
        (abs(a) / abs(b)) as int
    } else {
        -(abs(a) / abs(b))
    }
}

/// The coordinate `v` on an axis of `extent` pixels, scaled to the
/// normalized range and cut to 32 bits.
pub open spec fn normalized(v: i32, extent: i32) -> i32 {
    div_toward_zero(v * ABSOLUTE_RANGE, extent as int) as i32
}

/// The flags of an absolute, uncoalesced pointer move.
pub open spec fn cursor_flags() -> u32 {
    MOUSEEVENTF_MOVE | MOUSEEVENTF_MOVE_NOCOALESCE | MOUSEEVENTF_ABSOLUTE
}

/// The input that places the pointer at `(x, y)` on a screen of
/// `screen_dims` pixels, width first.
pub open spec fn cursor_move(x: i32, y: i32, screen_dims: [i32; 2]) -> MouseInput {
    MouseInput {
        dx: normalized(x, screen_dims[0]),
        dy: normalized(y, screen_dims[1]),
        mouse_data: 0,
        flags: cursor_flags(),
        time: 0,
        extra_info: 0,
    }
}

/// Scales one coordinate to the normalized range.
fn normalize(v: i32, extent: i32) -> (scaled: i32)
    requires
        extent != 0,
    ensures
        scaled == normalized(v, extent),
{
    let product: i64 = (v as i64) * ABSOLUTE_RANGE;
    // The division is made by the magnitude of the extent, and the sign put back.
    let quotient: i64 = if extent > 0 {
        product / (extent as i64)
    } else {
        -(product / -(extent as i64))
    };
    #[verifier::truncate]
    (quotient as i32)
}

/// Builds the input that places the pointer at `(x, y)` on a screen of
/// `screen_dims` pixels, width first. Neither extent may be zero.
pub fn cursor_input(x: i32, y: i32, screen_dims: [i32; 2]) -> (input: MouseInput)
    requires
        screen_dims[0] != 0,
        screen_dims[1] != 0,
    ensures
        input == cursor_move(x, y, screen_dims),
{
    MouseInput {
        dx: normalize(x, screen_dims[0]),
        dy: normalize(y, screen_dims[1]),
        mouse_data: 0,
        flags: MOUSEEVENTF_MOVE | MOUSEEVENTF_MOVE_NOCOALESCE | MOUSEEVENTF_ABSOLUTE,
        time: 0,
        extra_info: 0,
    }
}

/// The flags of a pointer move have the value `0xA001`.
pub proof fn lemma_cursor_flags_value()
    ensures
        cursor_flags() == 0xA001,
{
    assert(0x0001u32 | 0x2000u32 | 0x8000u32 == 0xA001u32) by (bit_vector);
}

/// On a screen of positive extent, a position on the screen is scaled
/// without loss: the result is the exact quotient and lies in the
/// normalized range.
pub proof fn lemma_normalized_on_screen(v: i32, extent: i32)
    requires
        0 <= v <= extent,
        extent > 0,
    ensures
        normalized(v, extent) == (v * ABSOLUTE_RANGE) / (extent as int),
        0 <= normalized(v, extent) <= ABSOLUTE_RANGE,
{
    let q = (v * ABSOLUTE_RANGE) / (extent as int);
    assert(0 <= q <= ABSOLUTE_RANGE) by (nonlinear_arith)
        requires
            0 <= v <= extent,
            extent > 0,
            q == (v * 65535) / (extent as int),
            ABSOLUTE_RANGE == 65535,
    ;
}

} // verus!
