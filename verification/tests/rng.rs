use roze::RngEngine;

const MODULO: u64 = 2147483647;

/// The engine's published recurrence, recomputed independently.
fn expected_table(seed: u64, size: usize) -> Vec<u64> {
    let mut table = Vec::new();
    let mut x = (seed as u128 * 16807 + 1) % MODULO as u128;
    table.push(x as u64);
    for _ in 1..size {
        x = (x * 16807 + 1) % MODULO as u128;
        table.push(x as u64);
    }
    table
}

fn unit_value(numerator: u64) -> f64 {
    numerator as f64 / MODULO as f64
}

#[test]
fn table_follows_recurrence() {
    let mut engine = RngEngine::new(3, 6);
    let expected = expected_table(3, 6);
    for &want in &expected {
        assert_eq!(engine.get_unit_numerator(), want);
    }
}

#[test]
fn identical_seeds_give_identical_sequences() {
    let mut a = RngEngine::new(7, 16);
    let mut b = RngEngine::new(7, 16);
    for _ in 0..40 {
        assert_eq!(a.get_unit_numerator(), b.get_unit_numerator());
    }
}

#[test]
fn exhausted_engine_continues_as_next_seed() {
    let mut a = RngEngine::new(5, 8);
    for _ in 0..8 {
        a.get_unit_numerator();
    }
    let mut fresh = RngEngine::new(6, 8);
    assert_eq!(a.get_unit_numerator(), fresh.get_unit_numerator());
}

#[test]
fn reseed_regenerates_whole_table() {
    let mut a = RngEngine::new(9, 3);
    for _ in 0..3 {
        a.get_unit_numerator();
    }
    let regenerated = expected_table(10, 3);
    for &want in &regenerated {
        assert_eq!(a.get_unit_numerator(), want);
    }
}

#[test]
fn int_range_returns_scaled_draw() {
    let mut engine = RngEngine::new(3, 2);
    let first = expected_table(3, 1)[0];
    // The full modulus range hands the raw draw back.
    assert_eq!(engine.get_int_range(0, MODULO as usize), first as usize);
}

#[test]
fn int_range_stays_in_bounds() {
    let mut engine = RngEngine::new(42, 32);
    for _ in 0..100 {
        let v = engine.get_int_range(10, 20);
        assert!((10..20).contains(&v));
    }
    assert_eq!(engine.get_int_range(5, 5), 5);
}

#[test]
fn float_range_scenario_seed_one() {
    // Four draws from a table of four, each mapping into [0, 10).
    let mut engine = RngEngine::new(1, 4);
    for _ in 0..4 {
        let value = 0.0 + (10.0 - 0.0) * unit_value(engine.get_unit_numerator());
        assert!((0.0..10.0).contains(&value));
    }
    // The fifth draw reseeds to 2 and equals a fresh seed-2 engine's first.
    let mut fresh = RngEngine::new(2, 4);
    let fifth = 0.0 + (10.0 - 0.0) * unit_value(engine.get_unit_numerator());
    let first_of_fresh = 0.0 + (10.0 - 0.0) * unit_value(fresh.get_unit_numerator());
    assert_eq!(fifth, first_of_fresh);
}
