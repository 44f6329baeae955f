use input_replay::input::{
    click_input, cursor_input, MouseButton, MouseInput, MOUSEEVENTF_ABSOLUTE, MOUSEEVENTF_LEFTDOWN,
    MOUSEEVENTF_LEFTUP, MOUSEEVENTF_MOVE, MOUSEEVENTF_MOVE_NOCOALESCE, MOUSEEVENTF_RIGHTDOWN,
    MOUSEEVENTF_RIGHTUP,
};

fn moved(dx: i32, dy: i32) -> MouseInput {
    MouseInput { dx, dy, mouse_data: 0, flags: 0xA001, time: 0, extra_info: 0 }
}

#[test]
fn flags_have_their_system_values() {
    assert_eq!(MOUSEEVENTF_MOVE, 0x0001);
    assert_eq!(MOUSEEVENTF_LEFTDOWN, 0x0002);
    assert_eq!(MOUSEEVENTF_LEFTUP, 0x0004);
    assert_eq!(MOUSEEVENTF_RIGHTDOWN, 0x0008);
    assert_eq!(MOUSEEVENTF_RIGHTUP, 0x0010);
    assert_eq!(MOUSEEVENTF_MOVE_NOCOALESCE, 0x2000);
    assert_eq!(MOUSEEVENTF_ABSOLUTE, 0x8000);
}

#[test]
fn click_input_reports_the_button_transition() {
    let click = |flags| MouseInput { dx: 0, dy: 0, mouse_data: 0, flags, time: 0, extra_info: 0 };
    assert_eq!(click_input(MouseButton::Left, true), click(0x0002));
    assert_eq!(click_input(MouseButton::Left, false), click(0x0004));
    assert_eq!(click_input(MouseButton::Right, true), click(0x0008));
    assert_eq!(click_input(MouseButton::Right, false), click(0x0010));
}

#[test]
fn cursor_input_normalizes_to_the_absolute_range() {
    assert_eq!(cursor_input(960, 200, [1920, 1080]), moved(32767, 12136));
    assert_eq!(cursor_input(100, 0, [1920, 1080]), moved(3413, 0));
    assert_eq!(cursor_input(1920, 1080, [1920, 1080]), moved(65535, 65535));
    assert_eq!(cursor_input(0, 0, [5, 5]), moved(0, 0));
}

#[test]
fn cursor_input_rounds_toward_zero() {
    assert_eq!(cursor_input(-1, -1, [1920, 1920]), moved(-34, -34));
    assert_eq!(cursor_input(960, -960, [-1920, -1920]), moved(-32767, 32767));
}

#[test]
fn cursor_input_cuts_the_quotient_to_32_bits() {
    assert_eq!(cursor_input(70000, i32::MAX, [1, 1]), moved(292482704, 2147418113));
    assert_eq!(cursor_input(i32::MIN, 0, [1, 1]), moved(i32::MIN, 0));
}

#[test]
fn cursor_input_is_absolute_and_uncoalesced() {
    let input = cursor_input(1, 1, [10, 10]);
    assert_eq!(
        input.flags,
        MOUSEEVENTF_MOVE | MOUSEEVENTF_MOVE_NOCOALESCE | MOUSEEVENTF_ABSOLUTE
    );
}
