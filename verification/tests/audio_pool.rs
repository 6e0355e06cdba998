use roze::Audio;

#[test]
fn one_shot_round_robin_wraps() {
    // One more trigger than the pool holds: the fifth reuses the first's voice.
    let mut audio = Audio::new(4, 2);
    audio.register_buffer("ping");
    let mut voices = Vec::new();
    for _ in 0..5 {
        voices.push(audio.one_shot("ping").unwrap());
    }
    assert_eq!(voices, vec![0, 1, 2, 3, 0]);
    assert_eq!(voices[4], voices[0]);
}

#[test]
fn single_voice_pool_always_interrupts_itself() {
    let mut audio = Audio::new(1, 0);
    audio.register_buffer("hit");
    assert_eq!(audio.one_shot("hit"), Some(0));
    assert_eq!(audio.one_shot("hit"), Some(0));
}

#[test]
fn unknown_key_is_a_silent_no_op() {
    let mut audio = Audio::new(3, 1);
    audio.register_buffer("known");
    assert_eq!(audio.one_shot("missing"), None);
    // The cursor did not move: the next known trigger still gets voice 0.
    assert_eq!(audio.one_shot("known"), Some(0));
    assert!(!audio.submit_loop("missing", 0));
}

#[test]
fn loop_channel_bounds_are_checked() {
    let mut audio = Audio::new(1, 2);
    audio.register_buffer("music");
    assert!(audio.submit_loop("music", 0));
    assert!(audio.submit_loop("music", 1));
    assert!(!audio.submit_loop("music", 2));
    assert!(audio.stop_loop(1));
    assert!(!audio.stop_loop(2));
}

#[test]
fn registering_twice_is_harmless() {
    let mut audio = Audio::new(2, 0);
    audio.register_buffer("dup");
    audio.register_buffer("dup");
    assert!(audio.has_buffer("dup"));
    assert!(!audio.has_buffer("other"));
}

#[test]
fn pool_sizes_are_reported() {
    let audio = Audio::new(6, 3);
    assert_eq!(audio.one_shot_voices(), 6);
    assert_eq!(audio.loop_voices(), 3);
}
