use roze::{Shader, Stats, TextBuilder, Texture, Weight};

#[test]
fn texture_lookup_and_shadowing() {
    let mut textures = Texture::new();
    assert_eq!(textures.get("hero"), 0);
    textures.insert("hero", 12);
    textures.insert("tile", 13);
    assert_eq!(textures.get("hero"), 12);
    assert_eq!(textures.get("tile"), 13);
    textures.insert("hero", 99);
    assert_eq!(textures.get("hero"), 99);
    assert_eq!(textures.get("unknown"), 0);
}

#[test]
fn shader_lookup_and_sentinel() {
    let mut shaders = Shader::new();
    shaders.insert("sprite", 3);
    assert_eq!(shaders.get("sprite"), 3);
    assert_eq!(shaders.get("absent"), 0);
}

#[test]
fn fonts_take_increasing_slots() {
    let mut text = TextBuilder::new();
    assert_eq!(text.define_font("console"), 1);
    assert_eq!(text.define_font("title"), 2);
    assert_eq!(text.font_index("console"), Some(1));
    assert_eq!(text.font_index("title"), Some(2));
    assert_eq!(text.font_index("menu"), None);
    // Redefining a name moves it to a fresh slot.
    assert_eq!(text.define_font("console"), 3);
    assert_eq!(text.font_index("console"), Some(3));
}

#[test]
fn weights_map_to_font_system_values() {
    assert_eq!(Weight::DONTCARE.value(), 0);
    assert_eq!(Weight::THIN.value(), 100);
    assert_eq!(Weight::NORMAL.value(), 400);
    assert_eq!(Weight::BOLD.value(), 700);
    assert_eq!(Weight::HEAVY.value(), 900);
}

#[test]
fn fresh_stats_read_as_idle() {
    let stats = Stats::new();
    assert_eq!(stats.get_update_time(), 0);
    assert_eq!(stats.get_draw_time(), 0);
    assert_eq!(stats.get_particle_time(), 0);
    // An all-zero window reads as the largest representable rate.
    assert_eq!(stats.get_average_fps(), usize::MAX);
}

#[test]
fn average_fps_over_the_window() {
    let mut stats = Stats::new();
    for _ in 0..100 {
        stats.calculate_frametime(16);
    }
    // 100 frames of 16 ms: 100000 / 1600.
    assert_eq!(stats.get_average_fps(), 62);
    // One frame overwrites the oldest entry, not the sum of all.
    stats.calculate_frametime(32);
    assert_eq!(stats.get_average_fps(), 100000 / 1616);
}

#[test]
fn phase_times_are_stored() {
    let mut stats = Stats::new();
    stats.update_time(1500);
    stats.draw_time(2500);
    stats.particle_time(350);
    assert_eq!(stats.get_update_time(), 1500);
    assert_eq!(stats.get_draw_time(), 2500);
    assert_eq!(stats.get_particle_time(), 350);
}
