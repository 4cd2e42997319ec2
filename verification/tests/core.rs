//! Tests of the geometric primitives, the repeating timer and the entity
//! store.

use ball_game::geometry::{clamp_coord, isqrt, normalize_dir, scaled_step, within_distance, Vec2};
use ball_game::rng::random_in_range;
use ball_game::store::EntityStore;
use ball_game::timer::Timer;

#[test]
fn random_in_range_stays_in_range() {
    // A single-point range leaves no room for chance.
    assert_eq!(random_in_range(5, 5), 5);
    assert_eq!(random_in_range(-7, -7), -7);
    for _ in 0..100 {
        let r = random_in_range(-1000, 1000);
        assert!(-1000 <= r && r <= 1000);
        let s = random_in_range(32_000, 768_000);
        assert!(32_000 <= s && s <= 768_000);
    }
}

#[test]
fn clamp_coord_exact_values() {
    assert_eq!(clamp_coord(-5, 0, 10), 0);
    assert_eq!(clamp_coord(15, 0, 10), 10);
    assert_eq!(clamp_coord(7, 0, 10), 7);
    assert_eq!(clamp_coord(0, 0, 10), 0);
    assert_eq!(clamp_coord(10, 0, 10), 10);
}

#[test]
fn within_distance_threshold_is_inclusive() {
    let a = Vec2 { x: 0, y: 0 };
    let b = Vec2 { x: 64_000, y: 0 };
    // Exactly at the radius sum: still a collision.
    assert!(within_distance(a, b, 64_000));
    let c = Vec2 { x: 64_001, y: 0 };
    assert!(!within_distance(a, c, 64_000));
}

#[test]
fn within_distance_overlap_at_ten_units() {
    // A player overlapping an enemy at distance 10 world units with
    // radius sum 64 world units.
    let player = Vec2 { x: 400_000, y: 300_000 };
    let enemy = Vec2 { x: 410_000, y: 300_000 };
    assert!(within_distance(player, enemy, 64_000));
}

#[test]
fn distance_is_symmetric() {
    let a = Vec2 { x: 12_345, y: -9_876 };
    let b = Vec2 { x: -4_321, y: 55_555 };
    assert_eq!(within_distance(a, b, 80_000), within_distance(b, a, 80_000));
    assert_eq!(within_distance(a, b, 70_000), within_distance(b, a, 70_000));
}

#[test]
fn zero_distance_always_collides() {
    let p = Vec2 { x: 123_456, y: 789_012 };
    assert!(within_distance(p, p, 0));
    assert!(within_distance(p, p, 47_000));
}

#[test]
fn isqrt_exact_values() {
    assert_eq!(isqrt(0), 0);
    assert_eq!(isqrt(1), 1);
    assert_eq!(isqrt(3), 1);
    assert_eq!(isqrt(4), 2);
    assert_eq!(isqrt(1_000_000), 1000);
    assert_eq!(isqrt(2_000_000), 1414);
    assert_eq!(isqrt(4_000_000), 2000);
}

#[test]
fn normalize_dir_axis_and_diagonal() {
    assert_eq!(normalize_dir(1000, 0), Vec2 { x: 1000, y: 0 });
    assert_eq!(normalize_dir(0, -1000), Vec2 { x: 0, y: -1000 });
    assert_eq!(normalize_dir(1000, 1000), Vec2 { x: 707, y: 707 });
    assert_eq!(normalize_dir(-1000, 1000), Vec2 { x: -707, y: 707 });
}

#[test]
fn normalize_dir_zero_vector_stays_zero() {
    assert_eq!(normalize_dir(0, 0), Vec2 { x: 0, y: 0 });
}

#[test]
fn scaled_step_exact_values() {
    // Full direction, player speed, 16 ms: 8 world units.
    assert_eq!(scaled_step(1000, 500, 16), 8000);
    assert_eq!(scaled_step(-1000, 500, 16), -8000);
    // Diagonal component, one second.
    assert_eq!(scaled_step(707, 500, 1000), 353_500);
    // Zero direction never moves.
    assert_eq!(scaled_step(0, 500, 1000), 0);
}

#[test]
fn timer_fires_exactly_at_period() {
    let mut t = Timer::new(5000);
    assert!(!t.finished());
    t.tick(4999);
    assert!(!t.finished());
    t.tick(1);
    assert!(t.finished());
}

#[test]
fn timer_not_finished_again_until_full_period() {
    // After a firing, the freshly reset timer stays quiet until another
    // full period has accumulated.
    let mut t = Timer::new(5000);
    t.tick(5000);
    assert!(t.finished());
    t.tick(1000);
    assert!(!t.finished());
    t.tick(3999);
    assert!(!t.finished());
    t.tick(1);
    assert!(t.finished());
}

#[test]
fn timer_retains_excess_time() {
    let mut t = Timer::new(5000);
    t.tick(7500);
    assert!(t.finished());
    assert_eq!(t.elapsed_ms, 2500);
    t.tick(2500);
    assert!(t.finished());
    assert_eq!(t.elapsed_ms, 0);
}

#[test]
fn timer_fires_once_per_check_and_carries() {
    let mut t = Timer::new(5000);
    // Twelve seconds at once: one firing, the excess carries.
    t.tick(12_000);
    assert!(t.finished());
    assert_eq!(t.elapsed_ms, 7000);
    // The carried excess already exceeds one period: the next check fires.
    t.tick(0);
    assert!(t.finished());
    assert_eq!(t.elapsed_ms, 2000);
}

#[test]
fn store_creates_with_unique_ids() {
    let mut store = EntityStore::new();
    let a = store.create_enemy(Vec2 { x: 1, y: 2 }, Vec2 { x: 1000, y: 0 });
    let b = store.create_enemy(Vec2 { x: 3, y: 4 }, Vec2 { x: 0, y: 1000 });
    let c = store.create_star(Vec2 { x: 5, y: 6 });
    let d = store.create_player(Vec2 { x: 7, y: 8 });
    assert_ne!(a, b);
    assert_ne!(b, c);
    assert_ne!(c, d);
    assert_eq!(store.count_enemies(), 2);
    assert_eq!(store.count_stars(), 1);
    assert!(store.get_player().is_some());
}

#[test]
fn store_iteration_yields_created_records() {
    let mut store = EntityStore::new();
    let positions = [
        Vec2 { x: 100, y: 200 },
        Vec2 { x: 300, y: 400 },
        Vec2 { x: 500, y: 600 },
    ];
    let mut ids = Vec::new();
    for p in positions.iter() {
        ids.push(store.create_star(*p));
    }
    let records = store.iter_stars();
    assert_eq!(records.len(), 3);
    for (k, (id, star)) in records.iter().enumerate() {
        assert_eq!(*id, ids[k]);
        assert_eq!(star.position, positions[k]);
    }
}

#[test]
fn store_remove_star_keeps_order_of_the_rest() {
    let mut store = EntityStore::new();
    let a = store.create_star(Vec2 { x: 1, y: 1 });
    let b = store.create_star(Vec2 { x: 2, y: 2 });
    let c = store.create_star(Vec2 { x: 3, y: 3 });
    store.remove_star(b);
    let records = store.iter_stars();
    assert_eq!(records.len(), 2);
    assert_eq!(records[0].0, a);
    assert_eq!(records[1].0, c);
    // Removing an identifier that is not live changes nothing.
    store.remove_star(b);
    assert_eq!(store.count_stars(), 2);
}
