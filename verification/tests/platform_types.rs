use roze::{
    PackedVector, SystemConf, WindowDimension, BITMAPINFO, BITMAPINFOHEADER, MSG, PAINTSTRUCT,
    PIXELFORMATDESCRIPTOR, POINT, RECT, RGBQUAD, WAVEFORMATEX,
};

#[test]
fn zeroed_platform_defaults() {
    let rect = RECT::new();
    assert_eq!(rect, RECT { left: 0, top: 0, right: 0, bottom: 0 });

    let quad = RGBQUAD::const_default();
    assert_eq!(quad.rgbBlue, 0);
    assert_eq!(quad.rgbReserved, 0);

    let header = BITMAPINFOHEADER::const_default();
    assert_eq!(header.biSize, 0);
    assert_eq!(header.biClrImportant, 0);

    let info = BITMAPINFO::const_default();
    assert_eq!(info.bmiHeader, header);
    assert_eq!(info.bmiColors, quad);

    let point = POINT::default();
    assert_eq!(point, POINT { x: 0, y: 0 });

    let msg = MSG::default();
    assert_eq!(msg.message, 0);
    assert_eq!(msg.wParam, 0);

    let paint = PAINTSTRUCT::new();
    assert_eq!(paint.rcPaint, rect);
}

#[test]
fn window_dimension_holds_its_size() {
    let dim = WindowDimension::new(800, 600);
    assert_eq!(dim.width, 800);
    assert_eq!(dim.height, 600);
}

#[test]
fn packed_vector_zeroed_is_all_zero_bits() {
    let v = PackedVector::zeroed();
    assert_eq!(v, PackedVector { x: 0, y: 0, z: 0, w: 0 });
    // The zero bit pattern encodes the float zero.
    assert_eq!(f32::from_bits(v.x), 0.0);
}

#[test]
fn system_conf_carries_startup_choices() {
    let conf = SystemConf {
        window_title: String::from("game"),
        screen_width: 1200,
        screen_height: 900,
        audio_one_shot_channels: 10,
        audio_loop_channels: 5,
        particle_pool_size: 5000,
        rng_seed: 1,
        rng_pool_size: 1_000_000,
        lock_fps: false,
    };
    assert_eq!(conf.window_title, "game");
    assert_eq!(conf.particle_pool_size, 5000);
    assert!(!conf.lock_fps);
}

#[test]
fn format_descriptors_hold_their_fields() {
    let format = WAVEFORMATEX {
        wFormatTag: 1,
        nChannels: 2,
        nSamplesPerSec: 44100,
        nAvgBytesPerSec: 176400,
        nBlockAlign: 4,
        wBitsPerSample: 16,
        cbSize: 0,
    };
    assert_eq!(format.nSamplesPerSec, 44100);

    let pfd = PIXELFORMATDESCRIPTOR {
        nSize: 40,
        nVersion: 1,
        dwFlags: 0,
        iPixelType: 0,
        cColorBits: 32,
        cRedBits: 0,
        cRedShift: 0,
        cGreenBits: 0,
        cGreenShift: 0,
        cBlueBits: 0,
        cBlueShift: 0,
        cAlphaBits: 8,
        cAlphaShift: 0,
        cAccumBits: 0,
        cAccumRedBits: 0,
        cAccumGreenBits: 0,
        cAccumBlueBits: 0,
        cAccumAlphaBits: 0,
        cDepthBits: 24,
        cStencilBits: 8,
        cAuxBuffers: 0,
        iLayerType: 0,
        bReserved: 0,
        dwLayerMask: 0,
        dwVisibleMask: 0,
        dwDamageMask: 0,
    };
    assert_eq!(pfd.cColorBits, 32);
    assert_eq!(pfd.cDepthBits, 24);
}
