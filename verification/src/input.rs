use vstd::prelude::*;

use crate::win32::{POINT, XINPUT_STATE, XINPUT_VIBRATION, XINPUT_GAMEPAD_A, XINPUT_GAMEPAD_B,
    XINPUT_GAMEPAD_X, XINPUT_GAMEPAD_Y, XINPUT_GAMEPAD_DPAD_UP, XINPUT_GAMEPAD_DPAD_DOWN,
    XINPUT_GAMEPAD_DPAD_LEFT, XINPUT_GAMEPAD_DPAD_RIGHT, XINPUT_GAMEPAD_LEFT_SHOULDER,
    XINPUT_GAMEPAD_RIGHT_SHOULDER, XINPUT_GAMEPAD_LEFT_THUMB, XINPUT_GAMEPAD_RIGHT_THUMB,
    XINPUT_GAMEPAD_BACK, XINPUT_GAMEPAD_START, WM_LBUTTONDOWN, WM_LBUTTONUP, WM_RBUTTONDOWN,
    WM_RBUTTONUP, WM_MBUTTONDOWN, WM_MBUTTONUP, WM_XBUTTONDOWN, WM_XBUTTONUP, WM_MOUSEWHEEL,
    WM_MOUSEHWHEEL, WM_KEYDOWN, WM_KEYUP, WM_SYSKEYDOWN, WM_SYSKEYUP, zeroed_xinput_state};

verus! {

/// Virtual-key codes of the keys the runtime exposes.
#[allow(non_camel_case_types)]
#[derive(Clone, Copy, PartialEq, Eq, Structural, Debug)]
pub enum KEYCODE {
    BACK,
    TAB,
    ENTER,
    SHIFT,
    CTRL,
    ALT,
    PAUSE,
    CAPS,
    ESC,
    SPACE,
    PAGE_UP,
    PAGE_DOWN,
    END,
    HOME,
    LEFT,
    UP,
    RIGHT,
    DOWN,
    INS,
    DEL,
    NUM0,
    NUM1,
    NUM2,
    NUM3,
    NUM4,
    NUM5,
    NUM6,
    NUM7,
    NUM8,
    NUM9,
    A,
    B,
    C,
    D,
    E,
    F,
    G,
    H,
    I,
    J,
    K,
    L,
    M,
    N,
    O,
    P,
    Q,
    R,
    S,
    T,
    U,
    V,
    W,
    X,
    Y,
    Z,
    PAD0,
    PAD1,
    PAD2,
    PAD3,
    PAD4,
    PAD5,
    PAD6,
    PAD7,
    PAD8,
    PAD9,
    PAD_MULT,
    PAD_ADD,
    PAD_SUB,
    PAD_DEC,
    PAD_DIV,
    F1,
    F2,
    F3,
    F4,
    F5,
    F6,
    F7,
    F8,
    F9,
    F10,
    F11,
    F12,
    SEMI,
    PLUS,
    COMMA,
    MINUS,
    PERIOD,
    FORWARD_SLASH,
    TILDE,
    OPEN_BRACKET,
    BACK_SLASH,
    CLOSE_BRACKET,
    QUOTE,
}

impl KEYCODE {
    /// The virtual-key code this key is reported under.
    pub open spec fn spec_code(self) -> usize {
        match self {
            KEYCODE::BACK => 8,
            KEYCODE::TAB => 9,
            KEYCODE::ENTER => 13,
            KEYCODE::SHIFT => 16,
            KEYCODE::CTRL => 17,
            KEYCODE::ALT => 18,
            KEYCODE::PAUSE => 19,
            KEYCODE::CAPS => 20,
            KEYCODE::ESC => 27,
            KEYCODE::SPACE => 32,
            KEYCODE::PAGE_UP => 33,
            KEYCODE::PAGE_DOWN => 34,
            KEYCODE::END => 35,
            KEYCODE::HOME => 36,
            KEYCODE::LEFT => 37,
            KEYCODE::UP => 38,
            KEYCODE::RIGHT => 39,
            KEYCODE::DOWN => 40,
            KEYCODE::INS => 45,
            KEYCODE::DEL => 46,
            KEYCODE::NUM0 => 48,
            KEYCODE::NUM1 => 49,
            KEYCODE::NUM2 => 50,
            KEYCODE::NUM3 => 51,
            KEYCODE::NUM4 => 52,
            KEYCODE::NUM5 => 53,
            KEYCODE::NUM6 => 54,
            KEYCODE::NUM7 => 55,
            KEYCODE::NUM8 => 56,
            KEYCODE::NUM9 => 57,
            KEYCODE::A => 65,
            KEYCODE::B => 66,
            KEYCODE::C => 67,
            KEYCODE::D => 68,
            KEYCODE::E => 69,
            KEYCODE::F => 70,
            KEYCODE::G => 71,
            KEYCODE::H => 72,
            KEYCODE::I => 73,
            KEYCODE::J => 74,
            KEYCODE::K => 75,
            KEYCODE::L => 76,
            KEYCODE::M => 77,
            KEYCODE::N => 78,
            KEYCODE::O => 79,
            KEYCODE::P => 80,
            KEYCODE::Q => 81,
            KEYCODE::R => 82,
            KEYCODE::S => 83,
            KEYCODE::T => 84,
            KEYCODE::U => 85,
            KEYCODE::V => 86,
            KEYCODE::W => 87,
            KEYCODE::X => 88,
            KEYCODE::Y => 89,
            KEYCODE::Z => 90,
            KEYCODE::PAD0 => 96,
            KEYCODE::PAD1 => 97,
            KEYCODE::PAD2 => 98,
            KEYCODE::PAD3 => 99,
            KEYCODE::PAD4 => 100,
            KEYCODE::PAD5 => 101,
            KEYCODE::PAD6 => 102,
            KEYCODE::PAD7 => 103,
            KEYCODE::PAD8 => 104,
            KEYCODE::PAD9 => 105,
            KEYCODE::PAD_MULT => 106,
            KEYCODE::PAD_ADD => 107,
            KEYCODE::PAD_SUB => 109,
            KEYCODE::PAD_DEC => 110,
            KEYCODE::PAD_DIV => 111,
            KEYCODE::F1 => 112,
            KEYCODE::F2 => 113,
            KEYCODE::F3 => 114,
            KEYCODE::F4 => 115,
            KEYCODE::F5 => 116,
            KEYCODE::F6 => 117,
            KEYCODE::F7 => 118,
            KEYCODE::F8 => 119,
            KEYCODE::F9 => 120,
            KEYCODE::F10 => 121,
            KEYCODE::F11 => 122,
            KEYCODE::F12 => 123,
            KEYCODE::SEMI => 186,
            KEYCODE::PLUS => 187,
            KEYCODE::COMMA => 188,
            KEYCODE::MINUS => 189,
            KEYCODE::PERIOD => 190,
            KEYCODE::FORWARD_SLASH => 191,
            KEYCODE::TILDE => 192,
            KEYCODE::OPEN_BRACKET => 219,
            KEYCODE::BACK_SLASH => 220,
            KEYCODE::CLOSE_BRACKET => 221,
            KEYCODE::QUOTE => 222,
        }
    }

    /// The virtual-key code this key is reported under; always below 256.
    pub fn code(self) -> (r: usize)
        ensures
            r == self.spec_code(),
            r < 256,
    {
        match self {
            KEYCODE::BACK => 8,
            KEYCODE::TAB => 9,
            KEYCODE::ENTER => 13,
            KEYCODE::SHIFT => 16,
            KEYCODE::CTRL => 17,
            KEYCODE::ALT => 18,
            KEYCODE::PAUSE => 19,
            KEYCODE::CAPS => 20,
            KEYCODE::ESC => 27,
            KEYCODE::SPACE => 32,
            KEYCODE::PAGE_UP => 33,
            KEYCODE::PAGE_DOWN => 34,
            KEYCODE::END => 35,
            KEYCODE::HOME => 36,
            KEYCODE::LEFT => 37,
            KEYCODE::UP => 38,
            KEYCODE::RIGHT => 39,
            KEYCODE::DOWN => 40,
            KEYCODE::INS => 45,
            KEYCODE::DEL => 46,
            KEYCODE::NUM0 => 48,
            KEYCODE::NUM1 => 49,
            KEYCODE::NUM2 => 50,
            KEYCODE::NUM3 => 51,
            KEYCODE::NUM4 => 52,
            KEYCODE::NUM5 => 53,
            KEYCODE::NUM6 => 54,
            KEYCODE::NUM7 => 55,
            KEYCODE::NUM8 => 56,
            KEYCODE::NUM9 => 57,
            KEYCODE::A => 65,
            KEYCODE::B => 66,
            KEYCODE::C => 67,
            KEYCODE::D => 68,
            KEYCODE::E => 69,
            KEYCODE::F => 70,
            KEYCODE::G => 71,
            KEYCODE::H => 72,
            KEYCODE::I => 73,
            KEYCODE::J => 74,
            KEYCODE::K => 75,
            KEYCODE::L => 76,
            KEYCODE::M => 77,
            KEYCODE::N => 78,
            KEYCODE::O => 79,
            KEYCODE::P => 80,
            KEYCODE::Q => 81,
            KEYCODE::R => 82,
            KEYCODE::S => 83,
            KEYCODE::T => 84,
            KEYCODE::U => 85,
            KEYCODE::V => 86,
            KEYCODE::W => 87,
            KEYCODE::X => 88,
            KEYCODE::Y => 89,
            KEYCODE::Z => 90,
            KEYCODE::PAD0 => 96,
            KEYCODE::PAD1 => 97,
            KEYCODE::PAD2 => 98,
            KEYCODE::PAD3 => 99,
            KEYCODE::PAD4 => 100,
            KEYCODE::PAD5 => 101,
            KEYCODE::PAD6 => 102,
            KEYCODE::PAD7 => 103,
            KEYCODE::PAD8 => 104,
            KEYCODE::PAD9 => 105,
            KEYCODE::PAD_MULT => 106,
            KEYCODE::PAD_ADD => 107,
            KEYCODE::PAD_SUB => 109,
            KEYCODE::PAD_DEC => 110,
            KEYCODE::PAD_DIV => 111,
            KEYCODE::F1 => 112,
            KEYCODE::F2 => 113,
            KEYCODE::F3 => 114,
            KEYCODE::F4 => 115,
            KEYCODE::F5 => 116,
            KEYCODE::F6 => 117,
            KEYCODE::F7 => 118,
            KEYCODE::F8 => 119,
            KEYCODE::F9 => 120,
            KEYCODE::F10 => 121,
            KEYCODE::F11 => 122,
            KEYCODE::F12 => 123,
            KEYCODE::SEMI => 186,
            KEYCODE::PLUS => 187,
            KEYCODE::COMMA => 188,
            KEYCODE::MINUS => 189,
            KEYCODE::PERIOD => 190,
            KEYCODE::FORWARD_SLASH => 191,
            KEYCODE::TILDE => 192,
            KEYCODE::OPEN_BRACKET => 219,
            KEYCODE::BACK_SLASH => 220,
            KEYCODE::CLOSE_BRACKET => 221,
            KEYCODE::QUOTE => 222,
        }
    }
}

/// Mouse buttons, as bits of the per-frame button mask.
#[derive(Clone, Copy, PartialEq, Eq, Structural, Debug)]
pub enum MOUSECODE {
    L,
    R,
    M,
    X,
    Y,
}

impl MOUSECODE {
    /// This button's bit in the mask.
    pub open spec fn spec_mask(self) -> u8 {
        match self {
            MOUSECODE::L => 1,
            MOUSECODE::R => 2,
            MOUSECODE::M => 4,
            MOUSECODE::X => 8,
            MOUSECODE::Y => 16,
        }
    }

    /// This button's bit in the mask.
    pub fn mask(self) -> (r: u8)
        ensures
            r == self.spec_mask(),
    {
        match self {
            MOUSECODE::L => 1,
            MOUSECODE::R => 2,
            MOUSECODE::M => 4,
            MOUSECODE::X => 8,
            MOUSECODE::Y => 16,
        }
    }
}

/// Gamepad buttons, as bits of the polled button mask.
#[derive(Clone, Copy, PartialEq, Eq, Structural, Debug)]
pub enum GAMEPAD {
    A,
    B,
    X,
    Y,
    UP,
    DOWN,
    LEFT,
    RIGHT,
    LSHOULDER,
    RSHOULDER,
    LTHUMB,
    RTHUMB,
    BACK,
    START,
}

impl GAMEPAD {
    /// This button's bit in the polled mask.
    pub open spec fn spec_mask(self) -> u16 {
        match self {
            GAMEPAD::A => XINPUT_GAMEPAD_A,
            GAMEPAD::B => XINPUT_GAMEPAD_B,
            GAMEPAD::X => XINPUT_GAMEPAD_X,
            GAMEPAD::Y => XINPUT_GAMEPAD_Y,
            GAMEPAD::UP => XINPUT_GAMEPAD_DPAD_UP,
            GAMEPAD::DOWN => XINPUT_GAMEPAD_DPAD_DOWN,
            GAMEPAD::LEFT => XINPUT_GAMEPAD_DPAD_LEFT,
            GAMEPAD::RIGHT => XINPUT_GAMEPAD_DPAD_RIGHT,
            GAMEPAD::LSHOULDER => XINPUT_GAMEPAD_LEFT_SHOULDER,
            GAMEPAD::RSHOULDER => XINPUT_GAMEPAD_RIGHT_SHOULDER,
            GAMEPAD::LTHUMB => XINPUT_GAMEPAD_LEFT_THUMB,
            GAMEPAD::RTHUMB => XINPUT_GAMEPAD_RIGHT_THUMB,
            GAMEPAD::BACK => XINPUT_GAMEPAD_BACK,
            GAMEPAD::START => XINPUT_GAMEPAD_START,
        }
    }

    /// This button's bit in the polled mask.
    pub fn mask(self) -> (r: u16)
        ensures
            r == self.spec_mask(),
    {
        match self {
            GAMEPAD::A => XINPUT_GAMEPAD_A,
            GAMEPAD::B => XINPUT_GAMEPAD_B,
            GAMEPAD::X => XINPUT_GAMEPAD_X,
            GAMEPAD::Y => XINPUT_GAMEPAD_Y,
            GAMEPAD::UP => XINPUT_GAMEPAD_DPAD_UP,
            GAMEPAD::DOWN => XINPUT_GAMEPAD_DPAD_DOWN,
            GAMEPAD::LEFT => XINPUT_GAMEPAD_DPAD_LEFT,
            GAMEPAD::RIGHT => XINPUT_GAMEPAD_DPAD_RIGHT,
            GAMEPAD::LSHOULDER => XINPUT_GAMEPAD_LEFT_SHOULDER,
            GAMEPAD::RSHOULDER => XINPUT_GAMEPAD_RIGHT_SHOULDER,
            GAMEPAD::LTHUMB => XINPUT_GAMEPAD_LEFT_THUMB,
            GAMEPAD::RTHUMB => XINPUT_GAMEPAD_RIGHT_THUMB,
            GAMEPAD::BACK => XINPUT_GAMEPAD_BACK,
            GAMEPAD::START => XINPUT_GAMEPAD_START,
        }
    }
}

/// Pre-debounced keyboard state: the key-down flags of this frame and of
/// the one before it, indexed by virtual-key code.
pub struct Keyboard {
    current_frame: Vec<bool>,
    previous_frame: Vec<bool>,
}

impl Keyboard {
    /// This frame's key-down flags.
    pub closed spec fn keys(self) -> Seq<bool> {
        self.current_frame@
    }

    /// The previous frame's key-down flags.
    pub closed spec fn prev_keys(self) -> Seq<bool> {
        self.previous_frame@
    }

    /// Both frames cover the full 256 virtual-key codes.
    pub open spec fn wf(self) -> bool {
        self.keys().len() == 256 && self.prev_keys().len() == 256
    }

    /// All keys up in both frames.
    pub fn new() -> (r: Self)
        ensures
            r.wf(),
            forall|i: int| 0 <= i < 256 ==> !r.keys()[i] && !r.prev_keys()[i],
    {
        let mut frame: Vec<bool> = Vec::new();
        let mut i: usize = 0;
        while i < 256
            invariant
                i <= 256,
                frame@.len() == i,
                forall|j: int| 0 <= j < i ==> !frame@[j],
            decreases 256 - i,
        {
            frame.push(false);
            i = i + 1;
        }
        let previous = frame.clone();
        Keyboard { current_frame: frame, previous_frame: previous }
    }

    /// End-of-frame shift: this frame's flags become the previous ones.
    pub fn advance_input(&mut self)
        ensures
            final(self).keys() == old(self).keys(),
            final(self).prev_keys() == old(self).keys(),
    {
        self.previous_frame = self.current_frame.clone();
    }

    /// Down this frame, up the frame before.
    pub fn pressed(&self, key_code: KEYCODE) -> (r: bool)
        requires
            self.wf(),
        ensures
            r == (self.keys()[key_code.spec_code() as int]
                && !self.prev_keys()[key_code.spec_code() as int]),
    {
        let code = key_code.code();
        self.current_frame[code] && !self.previous_frame[code]
    }

    /// Down this frame.
    pub fn held(&self, key_code: KEYCODE) -> (r: bool)
        requires
            self.wf(),
        ensures
            r == self.keys()[key_code.spec_code() as int],
    {
        self.current_frame[key_code.code()]
    }

    /// Up this frame, down the frame before.
    pub fn released(&self, key_code: KEYCODE) -> (r: bool)
        requires
            self.wf(),
        ensures
            r == (!self.keys()[key_code.spec_code() as int]
                && self.prev_keys()[key_code.spec_code() as int]),
    {
        let code = key_code.code();
        !self.current_frame[code] && self.previous_frame[code]
    }

    /// Record a key-down message.
    fn set_key(&mut self, index: usize)
        requires
            old(self).wf(),
            index < 256,
        ensures
            final(self).keys() == old(self).keys().update(index as int, true),
            final(self).prev_keys() == old(self).prev_keys(),
    {
        self.current_frame.set(index, true);
    }

    /// Record a key-up message.
    fn release_key(&mut self, index: usize)
        requires
            old(self).wf(),
            index < 256,
        ensures
            final(self).keys() == old(self).keys().update(index as int, false),
            final(self).prev_keys() == old(self).prev_keys(),
    {
        self.current_frame.set(index, false);
    }
}

/// Pre-debounced mouse state: client-space position, the button masks of
/// this frame and the previous one, and the wheel deltas of this frame.
pub struct Mouse {
    position: POINT,
    current_frame: u8,
    previous_frame: u8,
    wheel_delta: i16,
    wheel_h_delta: i16,
}

impl Mouse {
    /// The pointer position last written by a poll.
    pub closed spec fn pos(self) -> POINT {
        self.position
    }

    /// This frame's button mask.
    pub closed spec fn buttons(self) -> u8 {
        self.current_frame
    }

    /// The previous frame's button mask.
    pub closed spec fn prev_buttons(self) -> u8 {
        self.previous_frame
    }

    /// This frame's vertical wheel delta.
    pub closed spec fn wheel(self) -> i16 {
        self.wheel_delta
    }

    /// This frame's horizontal wheel delta.
    pub closed spec fn wheel_h(self) -> i16 {
        self.wheel_h_delta
    }

    /// Pointer at the origin, no buttons, no wheel movement.
    pub fn new() -> (r: Self)
        ensures
            r.pos() == (POINT { x: 0, y: 0 }),
            r.buttons() == 0,
            r.prev_buttons() == 0,
            r.wheel() == 0,
            r.wheel_h() == 0,
    {
        Mouse {
            position: POINT::default(),
            current_frame: 0,
            previous_frame: 0,
            wheel_delta: 0,
            wheel_h_delta: 0,
        }
    }

    /// Pointer x in client space.
    pub fn get_x(&self) -> (r: i32)
        ensures
            r == self.pos().x,
    {
        self.position.x
    }

    /// Pointer y in client space.
    pub fn get_y(&self) -> (r: i32)
        ensures
            r == self.pos().y,
    {
        self.position.y
    }

    /// This frame's vertical wheel delta.
    pub fn get_wheel_delta(&self) -> (r: i16)
        ensures
            r == self.wheel(),
    {
        self.wheel_delta
    }

    /// This frame's horizontal wheel delta.
    pub fn get_wheel_h_delta(&self) -> (r: i16)
        ensures
            r == self.wheel_h(),
    {
        self.wheel_h_delta
    }

    /// Down this frame, up the frame before.
    pub fn pressed(&self, mouse_code: MOUSECODE) -> (r: bool)
        ensures
            r == (self.buttons() & mouse_code.spec_mask() != 0 && self.prev_buttons()
                & mouse_code.spec_mask() == 0),
    {
        let mask = mouse_code.mask();
        self.current_frame & mask != 0 && self.previous_frame & mask == 0
    }

    /// Down this frame.
    pub fn held(&self, mouse_code: MOUSECODE) -> (r: bool)
        ensures
            r == (self.buttons() & mouse_code.spec_mask() != 0),
    {
        self.current_frame & mouse_code.mask() != 0
    }

    /// Up this frame, down the frame before.
    pub fn released(&self, mouse_code: MOUSECODE) -> (r: bool)
        ensures
            r == (self.buttons() & mouse_code.spec_mask() == 0 && self.prev_buttons()
                & mouse_code.spec_mask() != 0),
    {
        let mask = mouse_code.mask();
        self.current_frame & mask == 0 && self.previous_frame & mask != 0
    }

    /// End-of-frame shift: buttons become the previous mask and the wheel
    /// deltas reset.
    pub fn advance_input(&mut self)
        ensures
            final(self).buttons() == old(self).buttons(),
            final(self).prev_buttons() == old(self).buttons(),
            final(self).wheel() == 0,
            final(self).wheel_h() == 0,
            final(self).pos() == old(self).pos(),
    {
        self.previous_frame = self.current_frame;
        self.wheel_delta = 0;
        self.wheel_h_delta = 0;
    }
}

/// Pre-debounced gamepad state: the polled states of this frame and the
/// previous one, plus the rumble request to submit at frame end.
#[derive(Clone, Copy)]
pub struct Controller {
    prev_frame: XINPUT_STATE,
    current_frame: XINPUT_STATE,
    vibration: XINPUT_VIBRATION,
}

impl Controller {
    /// This frame's polled state.
    pub closed spec fn current(self) -> XINPUT_STATE {
        self.current_frame
    }

    /// The previous frame's polled state.
    pub closed spec fn previous(self) -> XINPUT_STATE {
        self.prev_frame
    }

    /// The rumble request to submit at frame end.
    pub closed spec fn rumble(self) -> XINPUT_VIBRATION {
        self.vibration
    }

    /// Everything zeroed.
    pub fn new() -> (r: Self)
        ensures
            r.current() == zeroed_xinput_state(),
            r.previous() == zeroed_xinput_state(),
            r.rumble() == (XINPUT_VIBRATION { wLeftMotorSpeed: 0, wRightMotorSpeed: 0 }),
    {
        Controller {
            prev_frame: XINPUT_STATE::default(),
            current_frame: XINPUT_STATE::default(),
            vibration: XINPUT_VIBRATION::default(),
        }
    }

    /// Take a fresh polled state; the old one becomes the previous frame.
    pub fn process_input(&mut self, controller_state: &XINPUT_STATE)
        ensures
            final(self).previous() == old(self).current(),
            final(self).current() == *controller_state,
            final(self).rumble() == old(self).rumble(),
    {
        self.prev_frame = self.current_frame;
        self.current_frame = *controller_state;
    }

    /// Request rumble strengths for the two motors.
    pub fn set_vibration(&mut self, left_speed: u16, right_speed: u16)
        ensures
            final(self).rumble() == (XINPUT_VIBRATION {
                wLeftMotorSpeed: left_speed,
                wRightMotorSpeed: right_speed,
            }),
            final(self).current() == old(self).current(),
            final(self).previous() == old(self).previous(),
    {
        self.vibration.wLeftMotorSpeed = left_speed;
        self.vibration.wRightMotorSpeed = right_speed;
    }

    /// The rumble request, for the backend to submit.
    pub fn get_vibration(&self) -> (r: XINPUT_VIBRATION)
        ensures
            r == self.rumble(),
    {
        self.vibration
    }

    /// Down this frame, up the frame before.
    pub fn pressed(&self, gamepad: GAMEPAD) -> (r: bool)
        ensures
            r == (self.current().Gamepad.wButtons & gamepad.spec_mask() != 0 && self.previous()
                .Gamepad.wButtons & gamepad.spec_mask() == 0),
    {
        let mask = gamepad.mask();
        self.current_frame.Gamepad.wButtons & mask != 0 && self.prev_frame.Gamepad.wButtons & mask
            == 0
    }

    /// Down this frame.
    pub fn held(&self, gamepad: GAMEPAD) -> (r: bool)
        ensures
            r == (self.current().Gamepad.wButtons & gamepad.spec_mask() != 0),
    {
        self.current_frame.Gamepad.wButtons & gamepad.mask() != 0
    }

    /// Up this frame, down the frame before.
    pub fn released(&self, gamepad: GAMEPAD) -> (r: bool)
        ensures
            r == (self.current().Gamepad.wButtons & gamepad.spec_mask() == 0 && self.previous()
                .Gamepad.wButtons & gamepad.spec_mask() != 0),
    {
        let mask = gamepad.mask();
        self.current_frame.Gamepad.wButtons & mask == 0 && self.prev_frame.Gamepad.wButtons & mask
            != 0
    }

    /// Left trigger crossed the threshold this frame.
    pub fn left_trigger_pressed(&self, threshold: u8) -> (r: bool)
        ensures
            r == (self.current().Gamepad.bLeftTrigger >= threshold && self.previous()
                .Gamepad.bLeftTrigger < threshold),
    {
        self.current_frame.Gamepad.bLeftTrigger >= threshold
            && self.prev_frame.Gamepad.bLeftTrigger < threshold
    }

    /// Left trigger at or past the threshold this frame.
    pub fn left_trigger_held(&self, threshold: u8) -> (r: bool)
        ensures
            r == (self.current().Gamepad.bLeftTrigger >= threshold),
    {
        self.current_frame.Gamepad.bLeftTrigger >= threshold
    }

    /// Left trigger fell below the threshold this frame.
    pub fn left_trigger_released(&self, threshold: u8) -> (r: bool)
        ensures
            r == (self.current().Gamepad.bLeftTrigger < threshold && self.previous()
                .Gamepad.bLeftTrigger >= threshold),
    {
        self.current_frame.Gamepad.bLeftTrigger < threshold
            && self.prev_frame.Gamepad.bLeftTrigger >= threshold
    }

    /// Raw left trigger reading.
    pub fn get_left_trigger(&self) -> (r: u8)
        ensures
            r == self.current().Gamepad.bLeftTrigger,
    {
        self.current_frame.Gamepad.bLeftTrigger
    }

    /// Right trigger crossed the threshold this frame.
    pub fn right_trigger_pressed(&self, threshold: u8) -> (r: bool)
        ensures
            r == (self.current().Gamepad.bRightTrigger >= threshold && self.previous()
                .Gamepad.bRightTrigger < threshold),
    {
        self.current_frame.Gamepad.bRightTrigger >= threshold
            && self.prev_frame.Gamepad.bRightTrigger < threshold
    }

    /// Right trigger at or past the threshold this frame.
    pub fn right_trigger_held(&self, threshold: u8) -> (r: bool)
        ensures
            r == (self.current().Gamepad.bRightTrigger >= threshold),
    {
        self.current_frame.Gamepad.bRightTrigger >= threshold
    }

    /// Right trigger fell below the threshold this frame.
    pub fn right_trigger_released(&self, threshold: u8) -> (r: bool)
        ensures
            r == (self.current().Gamepad.bRightTrigger < threshold && self.previous()
                .Gamepad.bRightTrigger >= threshold),
    {
        self.current_frame.Gamepad.bRightTrigger < threshold
            && self.prev_frame.Gamepad.bRightTrigger >= threshold
    }

    /// Raw right trigger reading.
    pub fn get_right_trigger(&self) -> (r: u8)
        ensures
            r == self.current().Gamepad.bRightTrigger,
    {
        self.current_frame.Gamepad.bRightTrigger
    }

    /// Raw left stick x.
    pub fn get_left_stick_x(&self) -> (r: i16)
        ensures
            r == self.current().Gamepad.sThumbLX,
    {
        self.current_frame.Gamepad.sThumbLX
    }

    /// Raw left stick y.
    pub fn get_left_stick_y(&self) -> (r: i16)
        ensures
            r == self.current().Gamepad.sThumbLY,
    {
        self.current_frame.Gamepad.sThumbLY
    }

    /// Raw right stick x.
    pub fn get_right_stick_x(&self) -> (r: i16)
        ensures
            r == self.current().Gamepad.sThumbRX,
    {
        self.current_frame.Gamepad.sThumbRX
    }

    /// Raw right stick y.
    pub fn get_right_stick_y(&self) -> (r: i16)
        ensures
            r == self.current().Gamepad.sThumbRY,
    {
        self.current_frame.Gamepad.sThumbRY
    }
}

/// The mouse button mask after one window message.
pub open spec fn buttons_after(message: u32, wparam: usize, buttons: u8) -> u8 {
    if message == WM_LBUTTONDOWN {
        buttons | 1
    } else if message == WM_LBUTTONUP {
        buttons ^ 1
    } else if message == WM_RBUTTONDOWN {
        buttons | 2
    } else if message == WM_RBUTTONUP {
        buttons ^ 2
    } else if message == WM_MBUTTONDOWN {
        buttons | 4
    } else if message == WM_MBUTTONUP {
        buttons ^ 4
    } else if message == WM_XBUTTONDOWN {
        let first = if wparam & (1usize << 16) != 0 {
            buttons | 8
        } else {
            buttons
        };
        if wparam & (2usize << 16) != 0 {
            first | 16
        } else {
            first
        }
    } else if message == WM_XBUTTONUP {
        let first = if wparam & (1usize << 16) != 0 {
            buttons ^ 8
        } else {
            buttons
        };
        if wparam & (2usize << 16) != 0 {
            first ^ 16
        } else {
            first
        }
    } else {
        buttons
    }
}

/// The high word of a message parameter read as a signed 16-bit value,
/// as wheel messages carry their delta.
pub open spec fn spec_hiword_as_i16(wparam: usize) -> i16 {
    let raw = ((wparam as u64) >> 16) & 0xFFFF;
    if raw < 0x8000 {
        raw as i16
    } else {
        (raw - 0x10000) as i16
    }
}

/// The key-down flags after one window message.
pub open spec fn keys_after(message: u32, wparam: usize, keys: Seq<bool>) -> Seq<bool> {
    if message == WM_SYSKEYDOWN || message == WM_KEYDOWN {
        keys.update(wparam as int, true)
    } else if message == WM_SYSKEYUP || message == WM_KEYUP {
        keys.update(wparam as int, false)
    } else {
        keys
    }
}

/// A message carries a key code exactly when it is a key message.
pub open spec fn is_key_message(message: u32) -> bool {
    message == WM_SYSKEYDOWN || message == WM_SYSKEYUP || message == WM_KEYDOWN || message
        == WM_KEYUP
}

/// All per-frame input state: gamepads, mouse, and keyboard. The backend
/// polls devices and pumps window messages; every decision about what
/// those readings mean for a frame is made here.
pub struct Input {
    pub controllers: Vec<Controller>,
    pub mouse: Mouse,
    pub keyboard: Keyboard,
}

impl Input {
    /// One controller slot per supported gamepad, and a sized keyboard.
    pub open spec fn wf(self) -> bool {
        self.controllers@.len() == 4 && self.keyboard.wf()
    }

    /// All devices in their zeroed state.
    pub fn new() -> (r: Self)
        ensures
            r.wf(),
            forall|i: int|
                0 <= i < 4 ==> (#[trigger] r.controllers@[i]).current() == zeroed_xinput_state()
                    && r.controllers@[i].previous() == zeroed_xinput_state(),
            forall|i: int| 0 <= i < 256 ==> !r.keyboard.keys()[i] && !r.keyboard.prev_keys()[i],
            r.mouse.buttons() == 0 && r.mouse.prev_buttons() == 0,
    {
        let mut controllers: Vec<Controller> = Vec::new();
        controllers.push(Controller::new());
        controllers.push(Controller::new());
        controllers.push(Controller::new());
        controllers.push(Controller::new());
        Input { controllers, mouse: Mouse::new(), keyboard: Keyboard::new() }
    }

    /// Take one device poll: the first gamepad's fresh state, if the poll
    /// succeeded, and the pointer position in client space.
    pub fn poll(&mut self, controller_state: Option<&XINPUT_STATE>, mouse_position: POINT)
        requires
            old(self).wf(),
        ensures
            final(self).wf(),
            final(self).keyboard == old(self).keyboard,
            final(self).mouse.pos() == mouse_position,
            final(self).mouse.buttons() == old(self).mouse.buttons(),
            final(self).mouse.prev_buttons() == old(self).mouse.prev_buttons(),
            final(self).mouse.wheel() == old(self).mouse.wheel(),
            final(self).mouse.wheel_h() == old(self).mouse.wheel_h(),
            match controller_state {
                Some(state) => {
                    &&& final(self).controllers@[0].current() == *state
                    &&& final(self).controllers@[0].previous() == old(
                        self,
                    ).controllers@[0].current()
                    &&& final(self).controllers@[0].rumble() == old(self).controllers@[0].rumble()
                    &&& forall|i: int|
                        1 <= i < 4 ==> final(self).controllers@[i] == old(self).controllers@[i]
                },
                None => final(self).controllers@ == old(self).controllers@,
            },
    {
        if let Some(state) = controller_state {
            let mut first = self.controllers[0];
            first.process_input(state);
            self.controllers.set(0, first);
        }
        self.mouse.position = mouse_position;
    }

    /// End-of-frame shift of mouse and keyboard state. The backend
    /// submits each controller's rumble request itself.
    pub fn advance(&mut self)
        requires
            old(self).wf(),
        ensures
            final(self).wf(),
            final(self).controllers@ == old(self).controllers@,
            final(self).keyboard.keys() == old(self).keyboard.keys(),
            final(self).keyboard.prev_keys() == old(self).keyboard.keys(),
            final(self).mouse.buttons() == old(self).mouse.buttons(),
            final(self).mouse.prev_buttons() == old(self).mouse.buttons(),
            final(self).mouse.wheel() == 0,
            final(self).mouse.wheel_h() == 0,
            final(self).mouse.pos() == old(self).mouse.pos(),
    {
        self.mouse.advance_input();
        self.keyboard.advance_input();
    }

    /// Dispatch one window message into the input state. Key messages
    /// must carry a code below 256, as the window system guarantees.
    pub fn process_messages(&mut self, message: u32, wparam: usize) -> (r: isize)
        requires
            old(self).wf(),
            is_key_message(message) ==> wparam < 256,
        ensures
            final(self).wf(),
            r == 0,
            final(self).controllers@ == old(self).controllers@,
            final(self).keyboard.keys() == keys_after(message, wparam, old(self).keyboard.keys()),
            final(self).keyboard.prev_keys() == old(self).keyboard.prev_keys(),
            final(self).mouse.buttons() == buttons_after(message, wparam, old(self).mouse.buttons()),
            final(self).mouse.prev_buttons() == old(self).mouse.prev_buttons(),
            final(self).mouse.pos() == old(self).mouse.pos(),
            final(self).mouse.wheel() == (if message == WM_MOUSEWHEEL {
                spec_hiword_as_i16(wparam)
            } else {
                old(self).mouse.wheel()
            }),
            final(self).mouse.wheel_h() == (if message == WM_MOUSEHWHEEL {
                spec_hiword_as_i16(wparam)
            } else {
                old(self).mouse.wheel_h()
            }),
    {
        if message == WM_LBUTTONDOWN {
            self.set_mouse_state(1);
        } else if message == WM_LBUTTONUP {
            self.release_mouse_state(1);
        } else if message == WM_RBUTTONDOWN {
            self.set_mouse_state(2);
        } else if message == WM_RBUTTONUP {
            self.release_mouse_state(2);
        } else if message == WM_MBUTTONDOWN {
            self.set_mouse_state(4);
        } else if message == WM_MBUTTONUP {
            self.release_mouse_state(4);
        } else if message == WM_XBUTTONDOWN {
            if wparam & (1usize << 16) != 0 {
                self.set_mouse_state(8);
            }
            if wparam & (2usize << 16) != 0 {
                self.set_mouse_state(16);
            }
        } else if message == WM_XBUTTONUP {
            if wparam & (1usize << 16) != 0 {
                self.release_mouse_state(8);
            }
            if wparam & (2usize << 16) != 0 {
                self.release_mouse_state(16);
            }
        } else if message == WM_MOUSEWHEEL {
            self.set_wheel_delta(hiword_as_i16(wparam));
        } else if message == WM_MOUSEHWHEEL {
            self.set_wheel_h_delta(hiword_as_i16(wparam));
        } else if message == WM_SYSKEYDOWN || message == WM_KEYDOWN {
            self.set_key_state(wparam);
        } else if message == WM_SYSKEYUP || message == WM_KEYUP {
            self.release_key_state(wparam);
        }
        0
    }

    /// Or a button's bit into this frame's mouse mask.
    pub fn set_mouse_state(&mut self, button: u8)
        ensures
            final(self).mouse.buttons() == old(self).mouse.buttons() | button,
            final(self).mouse.prev_buttons() == old(self).mouse.prev_buttons(),
            final(self).mouse.pos() == old(self).mouse.pos(),
            final(self).mouse.wheel() == old(self).mouse.wheel(),
            final(self).mouse.wheel_h() == old(self).mouse.wheel_h(),
            final(self).keyboard == old(self).keyboard,
            final(self).controllers@ == old(self).controllers@,
    {
        self.mouse.current_frame = self.mouse.current_frame | button;
    }

    /// Toggle a button's bit out of this frame's mouse mask.
    pub fn release_mouse_state(&mut self, button: u8)
        ensures
            final(self).mouse.buttons() == old(self).mouse.buttons() ^ button,
            final(self).mouse.prev_buttons() == old(self).mouse.prev_buttons(),
            final(self).mouse.pos() == old(self).mouse.pos(),
            final(self).mouse.wheel() == old(self).mouse.wheel(),
            final(self).mouse.wheel_h() == old(self).mouse.wheel_h(),
            final(self).keyboard == old(self).keyboard,
            final(self).controllers@ == old(self).controllers@,
    {
        self.mouse.current_frame = self.mouse.current_frame ^ button;
    }

    /// Record this frame's vertical wheel delta.
    pub fn set_wheel_delta(&mut self, wheel_delta: i16)
        ensures
            final(self).mouse.wheel() == wheel_delta,
            final(self).mouse.wheel_h() == old(self).mouse.wheel_h(),
            final(self).mouse.buttons() == old(self).mouse.buttons(),
            final(self).mouse.prev_buttons() == old(self).mouse.prev_buttons(),
            final(self).mouse.pos() == old(self).mouse.pos(),
            final(self).keyboard == old(self).keyboard,
            final(self).controllers@ == old(self).controllers@,
    {
        self.mouse.wheel_delta = wheel_delta;
    }

    /// Record this frame's horizontal wheel delta.
    pub fn set_wheel_h_delta(&mut self, wheel_h_delta: i16)
        ensures
            final(self).mouse.wheel_h() == wheel_h_delta,
            final(self).mouse.wheel() == old(self).mouse.wheel(),
            final(self).mouse.buttons() == old(self).mouse.buttons(),
            final(self).mouse.prev_buttons() == old(self).mouse.prev_buttons(),
            final(self).mouse.pos() == old(self).mouse.pos(),
            final(self).keyboard == old(self).keyboard,
            final(self).controllers@ == old(self).controllers@,
    {
        self.mouse.wheel_h_delta = wheel_h_delta;
    }

    /// Record a key-down message.
    pub fn set_key_state(&mut self, index: usize)
        requires
            old(self).wf(),
            index < 256,
        ensures
            final(self).wf(),
            final(self).keyboard.keys() == old(self).keyboard.keys().update(index as int, true),
            final(self).keyboard.prev_keys() == old(self).keyboard.prev_keys(),
            final(self).mouse == old(self).mouse,
            final(self).controllers@ == old(self).controllers@,
    {
        self.keyboard.set_key(index);
    }

    /// Record a key-up message.
    pub fn release_key_state(&mut self, index: usize)
        requires
            old(self).wf(),
            index < 256,
        ensures
            final(self).wf(),
            final(self).keyboard.keys() == old(self).keyboard.keys().update(index as int, false),
            final(self).keyboard.prev_keys() == old(self).keyboard.prev_keys(),
            final(self).mouse == old(self).mouse,
            final(self).controllers@ == old(self).controllers@,
    {
        self.keyboard.release_key(index);
    }
}

/// The high word of a message parameter read as a signed 16-bit value.
pub fn hiword_as_i16(wparam: usize) -> (r: i16)
    ensures
        r == spec_hiword_as_i16(wparam),
{
    let raw: u64 = ((wparam as u64) >> 16) & 0xFFFF;
    proof {
        assert(((wparam as u64) >> 16) & 0xFFFF <= 0xFFFF) by (bit_vector);
    }
    if raw < 0x8000 {
        raw as i16
    } else {
        ((raw as i64) - 0x10000) as i16
    }
}

} // verus!
