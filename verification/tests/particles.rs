use roze::{PackedVector, Particle, ParticleSystem};

fn template(lifetime_micros: u64) -> Particle {
    Particle {
        pos: PackedVector { x: 0, y: 0, z: 0, w: 0 },
        velocity: PackedVector { x: 0, y: 0, z: 0, w: 0 },
        color_begin: PackedVector { x: 0, y: 0, z: 0, w: 0 },
        color_end: PackedVector { x: 0, y: 0, z: 0, w: 0 },
        rotation: 0,
        size_begin: 0,
        size_end: 0,
        lifetime: lifetime_micros,
        life_remaining: 0,
        active: false,
        tex_id: None,
    }
}

#[test]
fn new_pool_is_idle() {
    let pool = ParticleSystem::new(4);
    assert_eq!(pool.len(), 4);
    assert!(!pool.active);
    for i in 0..4 {
        assert!(!pool.particle(i).active);
    }
}

#[test]
fn emit_activates_and_winds_clock() {
    let mut pool = ParticleSystem::new(2);
    pool.emit(template(5_000_000));
    assert!(pool.active);
    // The first emission lands in the last slot.
    let p = pool.particle(1);
    assert!(p.active);
    assert_eq!(p.lifetime, 5_000_000);
    assert_eq!(p.life_remaining, 5_000_000);
}

#[test]
fn ring_overwrites_oldest_slot() {
    // One more emission than the pool holds: the last one recycles the
    // slot of the first, and the most recent three all stay retrievable.
    let mut pool = ParticleSystem::new(3);
    pool.emit(template(1));
    pool.emit(template(2));
    pool.emit(template(3));
    pool.emit(template(4));
    assert_eq!(pool.particle(2).lifetime, 4);
    assert_eq!(pool.particle(1).lifetime, 2);
    assert_eq!(pool.particle(0).lifetime, 3);
    for i in 0..3 {
        assert!(pool.particle(i).active);
    }
}

#[test]
fn update_deactivates_exactly_once() {
    let mut pool = ParticleSystem::new(1);
    pool.emit(template(1_000));
    // Consuming the whole clock deactivates the slot in that same pass.
    pool.update(1_000);
    let dead = pool.particle(0);
    assert!(!dead.active);
    assert_eq!(dead.life_remaining, 0);
    // The pass still saw an active slot, so the aggregate flag lags...
    assert!(pool.active);
    pool.update(1);
    assert!(!pool.active);
    // ...and every later pass is a no-op on the slot until re-emitted.
    assert_eq!(pool.particle(0), dead);
    pool.update(500);
    assert_eq!(pool.particle(0), dead);
}

#[test]
fn aggregate_flag_lags_one_frame() {
    let mut pool = ParticleSystem::new(2);
    pool.emit(template(10));
    pool.update(10);
    // The slot is already deactivated, but the pass saw it active, so
    // the flag falls only on the next pass.
    assert!(!pool.particle(1).active);
    assert!(pool.active);
    pool.update(10);
    assert!(!pool.active);
    // Re-emitting raises the flag again.
    pool.emit(template(10));
    assert!(pool.active);
}

#[test]
fn update_counts_down_and_keeps_payload() {
    let mut pool = ParticleSystem::new(1);
    let mut t = template(10_000);
    t.rotation = 77;
    t.size_begin = 5;
    pool.emit(t);
    pool.update(4_000);
    let p = pool.particle(0);
    assert_eq!(p.life_remaining, 6_000);
    assert_eq!(p.rotation, 77);
    assert_eq!(p.size_begin, 5);
}

#[test]
fn set_kinematics_touches_only_pose() {
    let mut pool = ParticleSystem::new(2);
    pool.emit(template(9_000));
    let before = pool.particle(1);
    let other_before = pool.particle(0);
    let pos = PackedVector { x: 1, y: 2, z: 3, w: 4 };
    pool.set_kinematics(1, pos, 42);
    let after = pool.particle(1);
    assert_eq!(after.pos, pos);
    assert_eq!(after.rotation, 42);
    assert_eq!(after.lifetime, before.lifetime);
    assert_eq!(after.life_remaining, before.life_remaining);
    assert_eq!(after.active, before.active);
    assert_eq!(pool.particle(0), other_before);
}
