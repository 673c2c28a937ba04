//! Component-level tests: timers, fixed-point math, health, and the
//! hitbox damage pass.

use combat_core::health::Health;
use combat_core::hitbox::{damage_pass, lifetime_pass, Hitbox};
use combat_core::math::{
    clamp_i64, dist_sq, isqrt, lerp_coord, normalize_xz, rotate_offset, Heading, Vec3i,
};
use combat_core::timer::{Timer, TimerMode};
use combat_core::world::{plan_visual_sync, World};

#[test]
fn zero_duration_timer_is_finished_immediately() {
    let t = Timer::new(0, TimerMode::Once);
    assert!(t.finished());
    assert!(!t.is_just_finished());
}

#[test]
fn once_timer_saturates_and_reports_just_finished_once() {
    let mut t = Timer::new(100, TimerMode::Once);
    t.tick(60);
    assert!(!t.finished());
    assert_eq!(t.elapsed_ms(), 60);
    t.tick(60);
    assert!(t.finished());
    assert!(t.is_just_finished());
    assert_eq!(t.elapsed_ms(), 100);
    t.tick(10);
    assert!(t.finished());
    assert!(!t.is_just_finished());
    assert_eq!(t.elapsed_ms(), 100);
}

#[test]
fn repeat_timer_wraps() {
    let mut t = Timer::new(50, TimerMode::Repeat);
    t.tick(120);
    assert!(t.finished());
    assert!(t.is_just_finished());
    assert_eq!(t.elapsed_ms(), 20);
    t.tick(10);
    assert!(!t.finished());
    assert_eq!(t.elapsed_ms(), 30);
}

#[test]
fn fraction_elapsed_is_the_windup_parameter() {
    let mut t = Timer::new(200, TimerMode::Once);
    t.tick(50);
    assert_eq!(t.fraction_elapsed_permille(), 250);
    let z = Timer::new(0, TimerMode::Once);
    assert_eq!(z.fraction_elapsed_permille(), 1000);
}

#[test]
fn isqrt_exact_values() {
    assert_eq!(isqrt(0), 0);
    assert_eq!(isqrt(1), 1);
    assert_eq!(isqrt(24), 4);
    assert_eq!(isqrt(25), 5);
    assert_eq!(isqrt(600_000_000), 24_494);
    assert_eq!(isqrt(0x7fff_ffff_ffff_ffff), 3_037_000_499);
}

#[test]
fn normalize_gives_scaled_unit_vectors() {
    let h = normalize_xz(3, 4);
    assert_eq!((h.x, h.z), (600, 800));
    let z = normalize_xz(0, 0);
    assert_eq!((z.x, z.z), (0, 0));
    let n = normalize_xz(-600_000, 0);
    assert_eq!((n.x, n.z), (-1000, 0));
}

#[test]
fn lerp_interpolates_toward_zero() {
    assert_eq!(lerp_coord(0, 1000, 500), 500);
    assert_eq!(lerp_coord(1000, 0, 250), 750);
    assert_eq!(lerp_coord(-1000, 1000, 1000), 1000);
    assert_eq!(lerp_coord(5, 5, 700), 5);
}

#[test]
fn rotate_offset_carries_local_x_onto_facing() {
    let off = Vec3i { x: 40_000, y: 60_000, z: 0 };
    let r = rotate_offset(Heading { x: 0, z: 1000 }, off);
    assert_eq!((r.x, r.y, r.z), (0, 60_000, 40_000));
    let s = rotate_offset(Heading { x: -1000, z: 0 }, off);
    assert_eq!((s.x, s.y, s.z), (-40_000, 60_000, 0));
}

#[test]
fn clamp_works() {
    assert_eq!(clamp_i64(900_000, 0, 800_000), 800_000);
    assert_eq!(clamp_i64(-5, 0, 800_000), 0);
    assert_eq!(clamp_i64(3, 0, 800_000), 3);
}

#[test]
fn health_ratio_and_clamped_damage() {
    let mut h = Health::new(100);
    assert_eq!(h.ratio_permille(), 1000);
    h.apply_damage(30);
    assert_eq!(h.current, 70);
    assert_eq!(h.ratio_permille(), 700);
    h.apply_damage(200);
    assert_eq!(h.current, 0);
    assert_eq!(h.ratio_permille(), 0);
}

fn hitbox_at(id: u64, owner: usize, pos: Vec3i, damage: u32) -> Hitbox {
    Hitbox {
        id,
        owner,
        damage,
        pos,
        lifetime: Timer::new(120, TimerMode::Once),
    }
}

#[test]
fn overlapping_hits_in_one_tick_never_drop_health_below_zero() {
    let w = World::new();
    let mut p1 = w.player1;
    let mut p2 = w.player2;
    p2.health.current = 10;
    let mut hbs = vec![
        hitbox_at(0, 1, p2.pos, 8),
        hitbox_at(1, 1, p2.pos, 8),
    ];
    damage_pass(&mut hbs, &mut p1, &mut p2);
    assert_eq!(p2.health.current, 0);
    assert_eq!(hbs.len(), 0);
    assert_eq!(p1.health.current, 100);
}

#[test]
fn hitbox_never_damages_its_owner() {
    let w = World::new();
    let mut p1 = w.player1;
    let mut p2 = w.player2;
    let mut hbs = vec![hitbox_at(7, 2, p2.pos, 14)];
    damage_pass(&mut hbs, &mut p1, &mut p2);
    assert_eq!(p2.health.current, 100);
    assert_eq!(p1.health.current, 100);
    // The volume hit nobody (its owner stands inside it, the other player
    // is far away), so it survives.
    assert_eq!(hbs.len(), 1);
}

#[test]
fn hit_at_exactly_sixty_units_misses() {
    let w = World::new();
    let mut p1 = w.player1;
    let mut p2 = w.player2;
    let near = Vec3i { x: p2.pos.x + 60_000, y: 0, z: 0 };
    let mut hbs = vec![hitbox_at(0, 1, near, 8)];
    damage_pass(&mut hbs, &mut p1, &mut p2);
    assert_eq!(p2.health.current, 100);
    assert_eq!(hbs.len(), 1);
    let inside = Vec3i { x: p2.pos.x + 59_999, y: 0, z: 0 };
    let mut hbs2 = vec![hitbox_at(1, 1, inside, 8)];
    damage_pass(&mut hbs2, &mut p1, &mut p2);
    assert_eq!(p2.health.current, 92);
    assert_eq!(hbs2.len(), 0);
}

#[test]
fn lifetime_pass_destroys_expired_volumes() {
    let far = Vec3i { x: 0, y: 0, z: 0 };
    let mut hbs = vec![hitbox_at(0, 1, far, 8)];
    lifetime_pass(&mut hbs, 100);
    assert_eq!(hbs.len(), 1);
    lifetime_pass(&mut hbs, 20);
    assert_eq!(hbs.len(), 0);
}

#[test]
fn dist_sq_is_euclidean() {
    let a = Vec3i { x: 0, y: 0, z: 0 };
    let b = Vec3i { x: 3, y: 4, z: 12 };
    assert_eq!(dist_sq(a, b), 169);
}

#[test]
fn visual_sync_plan_reconciles_ids() {
    let hitboxes: Vec<u64> = vec![1, 2, 3];
    let visuals: Vec<u64> = vec![2, 4];
    let (despawn, spawn) = plan_visual_sync(&hitboxes, &visuals);
    assert_eq!(despawn, vec![4]);
    assert_eq!(spawn, vec![1, 3]);
    let (none_gone, none_new) = plan_visual_sync(&hitboxes, &hitboxes.clone());
    assert_eq!(none_gone.len(), 0);
    assert_eq!(none_new.len(), 0);
}
