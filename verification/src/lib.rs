//! Verified core of a small frame-driven game runtime.
//!
//! The components with real invariants live here: the deterministic
//! pseudo-random engine, the fixed-capacity particle pool with ring-buffer
//! recycling, the deferred sprite command batch, the round-robin audio voice
//! pool, per-frame input state, and frame statistics. Floating-point
//! arithmetic (vector/matrix algebra, camera projection) cannot be reasoned
//! about here and lives with the unverified rendering layer; the verified
//! core carries those values as opaque 32-bit encodings and owns every
//! lifecycle and bookkeeping decision around them.

mod audio;
mod audio32;
mod config;
mod gl32;
mod input;
mod packed;
mod particle;
mod rand;
mod shader;
mod sprite;
mod statistics;
mod texture;
mod win32;
mod window;

pub use audio::{Audio, AudioDataVec, VoiceType};
pub use audio32::{
    GUID, WAVEFORMATEX, WAVEFORMATEXTENSIBLE, XAUDIO2_DEBUG_CONFIGURATION,
    XAUDIO2_PERFORMANCE_DATA, XAUDIO2_VOICE_DETAILS,
};
pub use gl32::PIXELFORMATDESCRIPTOR;
pub use input::{Controller, Input, Keyboard, Mouse, GAMEPAD, KEYCODE, MOUSECODE};
pub use config::SystemConf;
pub use packed::{PackedMatrix, PackedVector};
pub use particle::{Particle, ParticleSystem};
pub use rand::RngEngine;
pub use shader::Shader;
pub use sprite::{RectBuilder, Sprite, SpriteBuilder, TextBuilder, Weight};
pub use statistics::Stats;
pub use texture::Texture;
pub use win32::{
    BITMAPINFO, BITMAPINFOHEADER, MSG, PAINTSTRUCT, POINT, RECT, RGBQUAD, XINPUT_GAMEPAD,
    XINPUT_STATE, XINPUT_VIBRATION,
};
pub use window::WindowDimension;
