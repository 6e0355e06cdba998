use vstd::prelude::*;

verus! {

/// Startup configuration for the runtime: window shape, audio pool sizes,
/// particle pool capacity, and the random engine's seed and table size.
pub struct SystemConf {
    pub window_title: String,
    pub screen_width: i32,
    pub screen_height: i32,
    pub audio_one_shot_channels: u8,
    pub audio_loop_channels: u8,
    pub particle_pool_size: usize,
    pub rng_seed: u64,
    pub rng_pool_size: usize,
    pub lock_fps: bool,
}

} // verus!
