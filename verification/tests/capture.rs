use input_replay::capture::{
    translate_key, translate_mouse, VK_F2, VK_F3, VK_LWIN, WM_KEYDOWN, WM_KEYUP, WM_LBUTTONDOWN,
    WM_LBUTTONUP, WM_MOUSEMOVE, WM_RBUTTONDOWN, WM_RBUTTONUP, WM_SYSKEYDOWN, WM_SYSKEYUP,
};
use input_replay::input::{MouseButton, Point};
use input_replay::state::Event;

#[test]
fn message_numbers_and_key_codes_have_their_system_values() {
    assert_eq!(
        [WM_KEYDOWN, WM_KEYUP, WM_SYSKEYDOWN, WM_SYSKEYUP],
        [0x0100, 0x0101, 0x0104, 0x0105]
    );
    assert_eq!(
        [WM_MOUSEMOVE, WM_LBUTTONDOWN, WM_LBUTTONUP, WM_RBUTTONDOWN, WM_RBUTTONUP],
        [0x0200, 0x0201, 0x0202, 0x0204, 0x0205]
    );
    assert_eq!([VK_LWIN, VK_F2, VK_F3], [0x5B, 0x71, 0x72]);
}

#[test]
fn mouse_buttons_are_classified_without_position() {
    let pt = Point { x: 11, y: 22 };
    assert_eq!(
        translate_mouse(WM_LBUTTONDOWN, pt),
        Some(Event::MouseButton { button: MouseButton::Left, down: true })
    );
    assert_eq!(
        translate_mouse(WM_LBUTTONUP, pt),
        Some(Event::MouseButton { button: MouseButton::Left, down: false })
    );
    assert_eq!(
        translate_mouse(WM_RBUTTONDOWN, pt),
        Some(Event::MouseButton { button: MouseButton::Right, down: true })
    );
    assert_eq!(
        translate_mouse(WM_RBUTTONUP, pt),
        Some(Event::MouseButton { button: MouseButton::Right, down: false })
    );
}

#[test]
fn mouse_move_carries_the_position() {
    assert_eq!(
        translate_mouse(WM_MOUSEMOVE, Point { x: -3, y: 1079 }),
        Some(Event::MouseMove { x: -3, y: 1079 })
    );
}

#[test]
fn other_mouse_messages_stand_for_nothing() {
    let pt = Point { x: 1, y: 2 };
    assert_eq!(translate_mouse(0x0203, pt), None);
    assert_eq!(translate_mouse(0x0207, pt), None);
    assert_eq!(translate_mouse(0x020A, pt), None);
    assert_eq!(translate_mouse(WM_KEYDOWN, pt), None);
}

#[test]
fn key_messages_are_classified_as_down_or_up() {
    assert_eq!(translate_key(WM_KEYDOWN), Some(true));
    assert_eq!(translate_key(WM_SYSKEYDOWN), Some(true));
    assert_eq!(translate_key(WM_KEYUP), Some(false));
    assert_eq!(translate_key(WM_SYSKEYUP), Some(false));
    assert_eq!(translate_key(0x0102), None);
    assert_eq!(translate_key(WM_MOUSEMOVE), None);
}
