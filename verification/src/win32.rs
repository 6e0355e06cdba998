use vstd::prelude::*;

verus! {

// Window message codes the input system dispatches on.
pub const WM_CREATE: u32 = 1;
pub const WM_ACTIVATEAPP: u32 = 28;
pub const WM_PAINT: u32 = 15;
pub const WM_SIZE: u32 = 5;
pub const WM_CLOSE: u32 = 16;
pub const WM_DESTROY: u32 = 2;
pub const WM_QUIT: u32 = 18;
pub const WM_SYSKEYDOWN: u32 = 260;
pub const WM_SYSKEYUP: u32 = 261;
pub const WM_KEYDOWN: u32 = 256;
pub const WM_KEYUP: u32 = 257;
pub const WM_SETCURSOR: u32 = 32;
pub const WM_LBUTTONDOWN: u32 = 513;
pub const WM_LBUTTONUP: u32 = 514;
pub const WM_RBUTTONDOWN: u32 = 516;
pub const WM_RBUTTONUP: u32 = 517;
pub const WM_MBUTTONDOWN: u32 = 519;
pub const WM_MBUTTONUP: u32 = 520;
pub const WM_XBUTTONDOWN: u32 = 523;
pub const WM_XBUTTONUP: u32 = 524;
pub const WM_MOUSEWHEEL: u32 = 522;
pub const WM_MOUSEHWHEEL: u32 = 526;

// Gamepad button masks.
pub const XINPUT_GAMEPAD_DPAD_UP: u16 = 0x0001;
pub const XINPUT_GAMEPAD_DPAD_DOWN: u16 = 0x0002;
pub const XINPUT_GAMEPAD_DPAD_LEFT: u16 = 0x0004;
pub const XINPUT_GAMEPAD_DPAD_RIGHT: u16 = 0x0008;
pub const XINPUT_GAMEPAD_START: u16 = 0x0010;
pub const XINPUT_GAMEPAD_BACK: u16 = 0x0020;
pub const XINPUT_GAMEPAD_LEFT_THUMB: u16 = 0x0040;
pub const XINPUT_GAMEPAD_RIGHT_THUMB: u16 = 0x0080;
pub const XINPUT_GAMEPAD_LEFT_SHOULDER: u16 = 0x0100;
pub const XINPUT_GAMEPAD_RIGHT_SHOULDER: u16 = 0x0200;
pub const XINPUT_GAMEPAD_A: u16 = 0x1000;
pub const XINPUT_GAMEPAD_B: u16 = 0x2000;
pub const XINPUT_GAMEPAD_X: u16 = 0x4000;
pub const XINPUT_GAMEPAD_Y: u16 = 0x8000;

/// Number of gamepad slots the input system tracks.
pub const XUSER_MAX_COUNT: u32 = 4;

pub const ERROR_SUCCESS: u32 = 0;

/// A screen- or client-space point.
#[allow(non_snake_case, non_camel_case_types)]
#[derive(Clone, Copy, PartialEq, Eq, Structural, Debug)]
pub struct POINT {
    pub x: i32,
    pub y: i32,
}

impl Default for POINT {
    /// The origin.
    fn default() -> (r: Self)
        ensures
            r == (POINT { x: 0, y: 0 }),
    {
        POINT { x: 0, y: 0 }
    }
}

/// A rectangle given by its edges.
#[allow(non_snake_case, non_camel_case_types)]
#[derive(Clone, Copy, PartialEq, Eq, Structural, Debug)]
pub struct RECT {
    pub left: i32,
    pub top: i32,
    pub right: i32,
    pub bottom: i32,
}

impl RECT {
    /// The empty rectangle at the origin.
    pub fn new() -> (r: Self)
        ensures
            r == (RECT { left: 0, top: 0, right: 0, bottom: 0 }),
    {
        RECT { left: 0, top: 0, right: 0, bottom: 0 }
    }
}

/// Gamepad reading: button mask, analog triggers, and the two sticks.
#[allow(non_snake_case, non_camel_case_types)]
#[derive(Clone, Copy, PartialEq, Eq, Structural, Debug)]
pub struct XINPUT_GAMEPAD {
    pub wButtons: u16,
    pub bLeftTrigger: u8,
    pub bRightTrigger: u8,
    pub sThumbLX: i16,
    pub sThumbLY: i16,
    pub sThumbRX: i16,
    pub sThumbRY: i16,
}

/// One polled gamepad state with its packet number.
#[allow(non_snake_case, non_camel_case_types)]
#[derive(Clone, Copy, PartialEq, Eq, Structural, Debug)]
pub struct XINPUT_STATE {
    pub dwPacketNumber: u32,
    pub Gamepad: XINPUT_GAMEPAD,
}

impl Default for XINPUT_STATE {
    /// Everything zeroed: no buttons, centered sticks, released triggers.
    fn default() -> (r: Self)
        ensures
            r == zeroed_xinput_state(),
    {
        XINPUT_STATE {
            dwPacketNumber: 0,
            Gamepad: XINPUT_GAMEPAD {
                wButtons: 0,
                bLeftTrigger: 0,
                bRightTrigger: 0,
                sThumbLX: 0,
                sThumbLY: 0,
                sThumbRX: 0,
                sThumbRY: 0,
            },
        }
    }
}

/// The all-zero gamepad state.
pub open spec fn zeroed_xinput_state() -> XINPUT_STATE {
    XINPUT_STATE {
        dwPacketNumber: 0,
        Gamepad: XINPUT_GAMEPAD {
            wButtons: 0,
            bLeftTrigger: 0,
            bRightTrigger: 0,
            sThumbLX: 0,
            sThumbLY: 0,
            sThumbRX: 0,
            sThumbRY: 0,
        },
    }
}

/// Requested rumble strength for the two gamepad motors.
#[allow(non_snake_case, non_camel_case_types)]
#[derive(Clone, Copy, PartialEq, Eq, Structural, Debug)]
pub struct XINPUT_VIBRATION {
    pub wLeftMotorSpeed: u16,
    pub wRightMotorSpeed: u16,
}

impl XINPUT_VIBRATION {
    /// Both motors at the same level.
    pub fn new(vibration_level: u16) -> (r: Self)
        ensures
            r.wLeftMotorSpeed == vibration_level,
            r.wRightMotorSpeed == vibration_level,
    {
        XINPUT_VIBRATION { wLeftMotorSpeed: vibration_level, wRightMotorSpeed: vibration_level }
    }

    /// Set both motors to the same level.
    pub fn set(&mut self, vibration_level: u16)
        ensures
            final(self).wLeftMotorSpeed == vibration_level,
            final(self).wRightMotorSpeed == vibration_level,
    {
        self.wLeftMotorSpeed = vibration_level;
        self.wRightMotorSpeed = vibration_level;
    }
}

impl Default for XINPUT_VIBRATION {
    /// Both motors off.
    fn default() -> (r: Self)
        ensures
            r == (XINPUT_VIBRATION { wLeftMotorSpeed: 0, wRightMotorSpeed: 0 }),
    {
        XINPUT_VIBRATION { wLeftMotorSpeed: 0, wRightMotorSpeed: 0 }
    }
}

/// Color table entry of a device-independent bitmap.
#[allow(non_snake_case, non_camel_case_types)]
#[derive(Clone, Copy, PartialEq, Eq, Structural, Debug)]
pub struct RGBQUAD {
    pub rgbBlue: u8,
    pub rgbGreen: u8,
    pub rgbRed: u8,
    pub rgbReserved: u8,
}

impl RGBQUAD {
    /// All channels zero.
    pub fn const_default() -> (r: Self)
        ensures
            r == (RGBQUAD { rgbBlue: 0, rgbGreen: 0, rgbRed: 0, rgbReserved: 0 }),
    {
        RGBQUAD { rgbBlue: 0, rgbGreen: 0, rgbRed: 0, rgbReserved: 0 }
    }
}

/// Header of a device-independent bitmap.
#[allow(non_snake_case, non_camel_case_types)]
#[derive(Clone, Copy, PartialEq, Eq, Structural, Debug)]
pub struct BITMAPINFOHEADER {
    pub biSize: u32,
    pub biWidth: i32,
    pub biHeight: i32,
    pub biPlanes: u16,
    pub biBitCount: u16,
    pub biCompression: u32,
    pub biSizeImage: u32,
    pub biXPelsPerMeter: i32,
    pub biYPelsPerMeter: i32,
    pub biClrUsed: u32,
    pub biClrImportant: u32,
}

impl BITMAPINFOHEADER {
    /// All fields zero; callers fill in what they use.
    pub fn const_default() -> (r: Self)
        ensures
            r == (BITMAPINFOHEADER {
                biSize: 0,
                biWidth: 0,
                biHeight: 0,
                biPlanes: 0,
                biBitCount: 0,
                biCompression: 0,
                biSizeImage: 0,
                biXPelsPerMeter: 0,
                biYPelsPerMeter: 0,
                biClrUsed: 0,
                biClrImportant: 0,
            }),
    {
        BITMAPINFOHEADER {
            biSize: 0,
            biWidth: 0,
            biHeight: 0,
            biPlanes: 0,
            biBitCount: 0,
            biCompression: 0,
            biSizeImage: 0,
            biXPelsPerMeter: 0,
            biYPelsPerMeter: 0,
            biClrUsed: 0,
            biClrImportant: 0,
        }
    }
}

/// A bitmap header together with its one-entry color table.
#[allow(non_snake_case, non_camel_case_types)]
#[derive(Clone, Copy, PartialEq, Eq, Structural, Debug)]
pub struct BITMAPINFO {
    pub bmiHeader: BITMAPINFOHEADER,
    pub bmiColors: RGBQUAD,
}

impl BITMAPINFO {
    /// Zeroed header and color table.
    pub fn const_default() -> (r: Self)
        ensures
            r.bmiHeader == (BITMAPINFOHEADER {
                biSize: 0,
                biWidth: 0,
                biHeight: 0,
                biPlanes: 0,
                biBitCount: 0,
                biCompression: 0,
                biSizeImage: 0,
                biXPelsPerMeter: 0,
                biYPelsPerMeter: 0,
                biClrUsed: 0,
                biClrImportant: 0,
            }),
            r.bmiColors == (RGBQUAD { rgbBlue: 0, rgbGreen: 0, rgbRed: 0, rgbReserved: 0 }),
    {
        BITMAPINFO { bmiHeader: BITMAPINFOHEADER::const_default(), bmiColors: RGBQUAD::const_default() }
    }
}


/// One message from the window system's queue.
#[allow(non_snake_case, non_camel_case_types)]
#[derive(Clone, Copy, PartialEq, Eq, Structural, Debug)]
pub struct MSG {
    pub hwnd: isize,
    pub message: u32,
    pub wParam: usize,
    pub lParam: isize,
    pub time: u32,
    pub pt: POINT,
}

impl Default for MSG {
    /// An empty message slot for the pump to fill.
    fn default() -> (r: Self)
        ensures
            r.message == 0,
            r.wParam == 0,
            r.lParam == 0,
    {
        MSG { hwnd: 0, message: 0, wParam: 0, lParam: 0, time: 0, pt: POINT { x: 0, y: 0 } }
    }
}

/// Bookkeeping for one paint pass over the window.
#[allow(non_snake_case, non_camel_case_types)]
#[derive(Clone, Copy, PartialEq, Eq, Structural, Debug)]
pub struct PAINTSTRUCT {
    pub hdc: isize,
    pub fErase: i32,
    pub rcPaint: RECT,
}

impl PAINTSTRUCT {
    /// An empty slot for the paint call to fill.
    pub fn new() -> (r: Self)
        ensures
            r.hdc == 0,
            r.fErase == 0,
            r.rcPaint == (RECT { left: 0, top: 0, right: 0, bottom: 0 }),
    {
        PAINTSTRUCT { hdc: 0, fErase: 0, rcPaint: RECT { left: 0, top: 0, right: 0, bottom: 0 } }
    }
}

} // verus!
