//! Whole-tick scenarios: double-tap slides, cooldown gating, camera law,
//! arena clamping, and the end-to-end punch.

use combat_core::camera::{camera_follow, camera_target};
use combat_core::input::{resolve_player_input, Key, Keyboard, PressMemory};
use combat_core::math::{Heading, Vec3i};
use combat_core::player::{apply_velocity, AttackKind};
use combat_core::world::{animation_start_requests, health_ratios, tick, World};

fn kb(pressed: Vec<Key>, just_pressed: Vec<Key>) -> Keyboard {
    Keyboard { pressed, just_pressed }
}

fn idle() -> Keyboard {
    Keyboard { pressed: vec![], just_pressed: vec![] }
}

#[test]
fn movement_key_drives_player_at_fixed_speed() {
    let mut w = World::new();
    let k = kb(vec![Key::KeyD], vec![Key::KeyD]);
    tick(&mut w, &k, 100);
    // The starting camera looks down negative z, so its right axis is the
    // world x axis and the D key moves player 1 toward positive x.
    assert_eq!(w.player1.vel.x, 300_000);
    assert_eq!(w.player1.pos.x, 130_000);
    assert_eq!(w.player1.pos.y, 0);
    assert!(w.player1.grounded);
}

#[test]
fn double_tap_within_window_starts_slide() {
    let mut w = World::new();
    let tap = kb(vec![Key::KeyD], vec![Key::KeyD]);
    tick(&mut w, &tap, 16);
    // First press ever: no recorded previous press, so no slide.
    assert!(!w.player1.slide.sliding);
    tick(&mut w, &idle(), 100);
    tick(&mut w, &tap, 16);
    // Second press 116 ms after the first: inside the 250 ms window.
    assert!(w.player1.slide.sliding);
    assert_eq!(w.player1.vel.x, 500_000);
}

#[test]
fn second_tap_outside_window_does_not_slide() {
    let mut w = World::new();
    let tap = kb(vec![Key::KeyD], vec![Key::KeyD]);
    tick(&mut w, &tap, 16);
    tick(&mut w, &idle(), 200);
    tick(&mut w, &idle(), 200);
    tick(&mut w, &tap, 16);
    // 416 ms after the first press: outside the window; and the third tap
    // measures against the second, not the first.
    assert!(!w.player1.slide.sliding);
    tick(&mut w, &idle(), 100);
    tick(&mut w, &tap, 16);
    assert!(w.player1.slide.sliding);
}

#[test]
fn airborne_double_tap_does_not_slide() {
    let mut w = World::new();
    w.player1.grounded = false;
    w.player1.pos.y = 500_000;
    let tap = kb(vec![Key::KeyD], vec![Key::KeyD]);
    tick(&mut w, &tap, 16);
    tick(&mut w, &idle(), 50);
    tick(&mut w, &tap, 16);
    assert!(!w.player1.slide.sliding);
}

#[test]
fn slide_ends_when_its_timer_elapses() {
    let mut w = World::new();
    let tap = kb(vec![Key::KeyD], vec![Key::KeyD]);
    tick(&mut w, &tap, 16);
    tick(&mut w, &idle(), 100);
    tick(&mut w, &tap, 16);
    assert!(w.player1.slide.sliding);
    tick(&mut w, &idle(), 200);
    assert!(w.player1.slide.sliding);
    tick(&mut w, &idle(), 60);
    // 260 ms of sliding: past the 250 ms slide duration.
    assert!(!w.player1.slide.sliding);
}

#[test]
fn retrigger_before_cooldown_finishes_is_rejected() {
    let mut w = World::new();
    let punch = kb(vec![], vec![Key::KeyJ]);
    tick(&mut w, &punch, 16);
    assert!(w.player1.attack.active);
    assert_eq!(w.player1.attack.kind, Some(AttackKind::Punch));
    assert_eq!(w.player1.cooldowns.punch.duration, 450);
    assert_eq!(w.player1.cooldowns.punch.elapsed, 16);
    assert_eq!(w.player1.attack.timer.elapsed, 16);
    tick(&mut w, &punch, 16);
    // Cooldown at 16 of 450 ms: the second press must not restart anything.
    assert_eq!(w.player1.cooldowns.punch.elapsed, 32);
    assert_eq!(w.player1.attack.timer.elapsed, 32);
    // Once the cooldown has truly finished, a new press triggers again.
    for _ in 0..5 {
        tick(&mut w, &idle(), 100);
    }
    assert!(w.player1.cooldowns.punch.elapsed >= 450);
    tick(&mut w, &punch, 16);
    assert!(w.player1.attack.active);
    assert_eq!(w.player1.attack.timer.elapsed, 16);
    assert_eq!(w.player1.cooldowns.punch.elapsed, 16);
}

#[test]
fn kick_on_player_two_bindings() {
    let mut w = World::new();
    let k = kb(vec![], vec![Key::Numpad2]);
    tick(&mut w, &k, 16);
    assert!(!w.player1.attack.active);
    assert!(w.player2.attack.active);
    assert_eq!(w.player2.attack.kind, Some(AttackKind::Kick));
    assert_eq!(w.player2.cooldowns.kick.duration, 800);
    assert_eq!(w.player2.attack.timer.duration, 250);
}

#[test]
fn camera_target_matches_the_follow_law() {
    let p1 = Vec3i { x: 100_000, y: 0, z: 0 };
    let p2 = Vec3i { x: 700_000, y: 0, z: 0 };
    // Midpoint (400, 0, 0); separation 600; offset 500 + 15 * sqrt(600)
    // which is 867.410 in milli-units after rounding; height 200.
    let t = camera_target(p1, p2);
    assert_eq!((t.x, t.y, t.z), (400_000, 200_000, 867_410));
    // Coincident players fall back to the world x axis instead of an
    // undefined direction.
    let c = camera_target(p1, p1);
    assert_eq!((c.x, c.y), (100_000, 200_000));
    assert_eq!(c.z, 500_000);
}

#[test]
fn camera_position_is_continuous_in_player_positions() {
    let p1 = Vec3i { x: 100_000, y: 0, z: 0 };
    let p2 = Vec3i { x: 700_000, y: 0, z: 0 };
    let p2_nudged = Vec3i { x: 700_100, y: 0, z: 0 };
    let a = camera_target(p1, p2);
    let b = camera_target(p1, p2_nudged);
    assert!((a.x - b.x).abs() <= 1000);
    assert!((a.y - b.y).abs() <= 1000);
    assert!((a.z - b.z).abs() <= 1000);
}

#[test]
fn camera_reaches_its_target_at_full_interpolation() {
    let mut cam = World::new().camera;
    let p1 = Vec3i { x: 100_000, y: 0, z: 0 };
    let p2 = Vec3i { x: 700_000, y: 0, z: 0 };
    // 200 ms at rate 5 per second is a full step onto the target.
    camera_follow(&mut cam, p1, p2, 200);
    assert_eq!((cam.pos.x, cam.pos.y, cam.pos.z), (400_000, 200_000, 867_410));
    assert_eq!((cam.look.x, cam.look.y, cam.look.z), (400_000, 0, 0));
}

#[test]
fn arena_clamps_both_axes() {
    let w = World::new();
    let mut p = w.player1;
    p.pos.x = 800_000;
    p.vel.x = 500_000;
    apply_velocity(&mut p, 200);
    // Integrated to 900 world units, clamped to the 800 wall.
    assert_eq!(p.pos.x, 800_000);
    let mut q = w.player2;
    q.pos.z = 199_000;
    q.vel.z = 500_000;
    apply_velocity(&mut q, 200);
    assert_eq!(q.pos.z, 200_000);
    let mut r = w.player1;
    r.pos.x = 0;
    r.vel.x = -500_000;
    apply_velocity(&mut r, 200);
    assert_eq!(r.pos.x, 0);
}

#[test]
fn punch_end_to_end() {
    let mut w = World::new();
    let punch = kb(vec![], vec![Key::KeyJ]);
    tick(&mut w, &punch, 60);
    tick(&mut w, &idle(), 60);
    assert_eq!(w.hitboxes.len(), 0);
    tick(&mut w, &idle(), 60);
    // 180 ms of windup: exactly one hit volume, damage 8, lifetime 120 ms,
    // at the interpolated end position in front of the attacker's fist.
    assert_eq!(w.hitboxes.len(), 1);
    assert_eq!(w.hitboxes[0].damage, 8);
    assert_eq!(w.hitboxes[0].owner, 1);
    assert_eq!(w.hitboxes[0].lifetime.duration, 120);
    let pos = w.hitboxes[0].pos;
    assert_eq!((pos.x, pos.y, pos.z), (140_000, 60_000, 0));
    assert!(!w.player1.attack.active);
    // Player 2 steps into the volume within its lifetime window.
    w.player2.pos = Vec3i { x: 140_000, y: 60_000, z: 0 };
    tick(&mut w, &idle(), 10);
    assert_eq!(w.player2.health.current, 92);
    assert_eq!(w.hitboxes.len(), 0);
    assert_eq!(w.player1.health.current, 100);
    let (r1, r2) = health_ratios(&w);
    assert_eq!(r1, 1000);
    assert_eq!(r2, 920);
}

#[test]
fn missed_volume_expires_without_damage() {
    let mut w = World::new();
    let punch = kb(vec![], vec![Key::KeyJ]);
    tick(&mut w, &punch, 60);
    tick(&mut w, &idle(), 60);
    tick(&mut w, &idle(), 60);
    assert_eq!(w.hitboxes.len(), 1);
    tick(&mut w, &idle(), 60);
    // Lifetime 120 ms: ticked 60 on its spawn tick and 60 now.
    assert_eq!(w.hitboxes.len(), 0);
    assert_eq!(w.player2.health.current, 100);
}

#[test]
fn animation_trigger_is_idempotent() {
    let mut w = World::new();
    let (a, b) = animation_start_requests(&mut w, false);
    assert!(!a && !b);
    let (a, b) = animation_start_requests(&mut w, true);
    assert!(a && b);
    let (a, b) = animation_start_requests(&mut w, true);
    assert!(!a && !b);
}

#[test]
fn gravity_pulls_an_airborne_player_down_and_the_ground_stops_it() {
    let mut w = World::new();
    w.player1.grounded = false;
    w.player1.pos.y = 500_000;
    tick(&mut w, &idle(), 100);
    // Velocity takes -1200 units/s over 0.1 s; position integrates it.
    assert_eq!(w.player1.vel.y, -120_000);
    assert_eq!(w.player1.pos.y, 488_000);
    assert!(!w.player1.grounded);
    for _ in 0..20 {
        tick(&mut w, &idle(), 100);
    }
    assert_eq!(w.player1.pos.y, 0);
    assert_eq!(w.player1.vel.y, 0);
    assert!(w.player1.grounded);
}

#[test]
fn unrecognized_player_id_is_skipped() {
    let w = World::new();
    let mut p = w.player1;
    p.id = 9;
    let mut mem = PressMemory::new();
    let k = kb(vec![Key::KeyD], vec![Key::KeyD, Key::KeyJ]);
    let right = Heading { x: 1000, z: 0 };
    let fwd = Heading { x: 0, z: -1000 };
    resolve_player_input(&mut p, &mut mem, &k, right, fwd, 100);
    // No control scheme: not an error, simply inactive.
    assert_eq!(p.vel.x, 0);
    assert!(!p.attack.active);
    assert_eq!(mem, PressMemory::new());
}

#[test]
fn facing_turns_both_players_toward_each_other() {
    let mut w = World::new();
    tick(&mut w, &idle(), 16);
    assert_eq!((w.player1.facing.x, w.player1.facing.z), (1000, 0));
    assert_eq!((w.player2.facing.x, w.player2.facing.z), (-1000, 0));
}
