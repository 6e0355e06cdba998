use roze::{
    Controller, Input, Keyboard, Mouse, GAMEPAD, KEYCODE, MOUSECODE, POINT, XINPUT_GAMEPAD,
    XINPUT_STATE, XINPUT_VIBRATION,
};

const WM_KEYDOWN: u32 = 256;
const WM_KEYUP: u32 = 257;
const WM_LBUTTONDOWN: u32 = 513;
const WM_LBUTTONUP: u32 = 514;
const WM_XBUTTONDOWN: u32 = 523;
const WM_MOUSEWHEEL: u32 = 522;
const WM_MOUSEHWHEEL: u32 = 526;

fn gamepad_state(buttons: u16, left_trigger: u8) -> XINPUT_STATE {
    XINPUT_STATE {
        dwPacketNumber: 1,
        Gamepad: XINPUT_GAMEPAD {
            wButtons: buttons,
            bLeftTrigger: left_trigger,
            bRightTrigger: 0,
            sThumbLX: -5,
            sThumbLY: 6,
            sThumbRX: 7,
            sThumbRY: -8,
        },
    }
}

#[test]
fn key_press_hold_release_lifecycle() {
    let mut input = Input::new();
    assert_eq!(input.process_messages(WM_KEYDOWN, 65), 0);
    assert!(input.keyboard.pressed(KEYCODE::A));
    assert!(input.keyboard.held(KEYCODE::A));
    assert!(!input.keyboard.released(KEYCODE::A));

    input.advance();
    assert!(!input.keyboard.pressed(KEYCODE::A));
    assert!(input.keyboard.held(KEYCODE::A));

    input.process_messages(WM_KEYUP, 65);
    assert!(input.keyboard.released(KEYCODE::A));
    assert!(!input.keyboard.held(KEYCODE::A));

    input.advance();
    assert!(!input.keyboard.released(KEYCODE::A));
}

#[test]
fn mouse_button_lifecycle() {
    let mut input = Input::new();
    input.process_messages(WM_LBUTTONDOWN, 0);
    assert!(input.mouse.pressed(MOUSECODE::L));
    assert!(input.mouse.held(MOUSECODE::L));

    input.advance();
    assert!(!input.mouse.pressed(MOUSECODE::L));
    assert!(input.mouse.held(MOUSECODE::L));

    input.process_messages(WM_LBUTTONUP, 0);
    assert!(input.mouse.released(MOUSECODE::L));
    assert!(!input.mouse.held(MOUSECODE::L));
}

#[test]
fn extra_mouse_buttons_come_from_wparam_bits() {
    let mut input = Input::new();
    input.process_messages(WM_XBUTTONDOWN, 1usize << 16);
    assert!(input.mouse.held(MOUSECODE::X));
    assert!(!input.mouse.held(MOUSECODE::Y));
    input.process_messages(WM_XBUTTONDOWN, 2usize << 16);
    assert!(input.mouse.held(MOUSECODE::Y));
}

#[test]
fn wheel_deltas_decode_signed_high_word() {
    let mut input = Input::new();
    input.process_messages(WM_MOUSEWHEEL, 120usize << 16);
    assert_eq!(input.mouse.get_wheel_delta(), 120);
    input.process_messages(WM_MOUSEWHEEL, 0xFF88usize << 16);
    assert_eq!(input.mouse.get_wheel_delta(), -120);
    input.process_messages(WM_MOUSEHWHEEL, 30usize << 16);
    assert_eq!(input.mouse.get_wheel_h_delta(), 30);
    // Wheel deltas last one frame.
    input.advance();
    assert_eq!(input.mouse.get_wheel_delta(), 0);
    assert_eq!(input.mouse.get_wheel_h_delta(), 0);
}

#[test]
fn poll_updates_pointer_and_first_gamepad() {
    let mut input = Input::new();
    let state = gamepad_state(0x1000, 0);
    input.poll(Some(&state), POINT { x: 11, y: -4 });
    assert_eq!(input.mouse.get_x(), 11);
    assert_eq!(input.mouse.get_y(), -4);
    assert!(input.controllers[0].pressed(GAMEPAD::A));
    assert!(input.controllers[0].held(GAMEPAD::A));
    assert_eq!(input.controllers[0].get_left_stick_x(), -5);
    assert_eq!(input.controllers[0].get_right_stick_y(), -8);
}

#[test]
fn gamepad_button_edges_need_two_polls() {
    let mut c = Controller::new();
    c.process_input(&gamepad_state(0x2000, 0));
    assert!(c.pressed(GAMEPAD::B));
    c.process_input(&gamepad_state(0x2000, 0));
    assert!(!c.pressed(GAMEPAD::B));
    assert!(c.held(GAMEPAD::B));
    c.process_input(&gamepad_state(0, 0));
    assert!(c.released(GAMEPAD::B));
}

#[test]
fn trigger_thresholds() {
    let mut c = Controller::new();
    c.process_input(&gamepad_state(0, 130));
    assert!(c.left_trigger_pressed(128));
    assert!(c.left_trigger_held(128));
    assert_eq!(c.get_left_trigger(), 130);
    c.process_input(&gamepad_state(0, 100));
    assert!(c.left_trigger_released(128));
    assert!(!c.right_trigger_held(1));
    assert_eq!(c.get_right_trigger(), 0);
}

#[test]
fn vibration_is_stored_for_the_backend() {
    let mut c = Controller::new();
    c.set_vibration(1000, 2000);
    let v = c.get_vibration();
    assert_eq!(v.wLeftMotorSpeed, 1000);
    assert_eq!(v.wRightMotorSpeed, 2000);

    let mut direct = XINPUT_VIBRATION::new(7);
    assert_eq!(direct.wLeftMotorSpeed, 7);
    direct.set(9);
    assert_eq!(direct.wRightMotorSpeed, 9);
}

#[test]
fn fresh_devices_are_quiet() {
    let keyboard = Keyboard::new();
    assert!(!keyboard.held(KEYCODE::SPACE));
    let mouse = Mouse::new();
    assert!(!mouse.held(MOUSECODE::R));
    assert_eq!(mouse.get_x(), 0);
    let input = Input::new();
    assert!(!input.controllers[0].held(GAMEPAD::START));
}

#[test]
fn keycodes_match_virtual_keys() {
    assert_eq!(KEYCODE::BACK.code(), 8);
    assert_eq!(KEYCODE::ESC.code(), 27);
    assert_eq!(KEYCODE::SPACE.code(), 32);
    assert_eq!(KEYCODE::Z.code(), 90);
    assert_eq!(KEYCODE::F12.code(), 123);
    assert_eq!(KEYCODE::QUOTE.code(), 222);
    assert_eq!(MOUSECODE::Y.mask(), 16);
    assert_eq!(GAMEPAD::START.mask(), 0x0010);
}
