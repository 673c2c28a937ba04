//! The match world and its fixed per-tick system order.
//!
//! One tick runs, in this order: input resolution, attack-animation update
//! (spawning hit volumes on windup completion), slide timers, velocity
//! integration with arena clamping, gravity and ground resolution, cooldown
//! ticking, facing resolution, hitbox lifetime decay, damage resolution,
//! and the camera follow step.  Damage resolution runs after lifetime decay
//! and after any spawn of the same tick, so it sees freshly spawned
//! volumes; derived visuals read health after it mutated, avoiding a
//! one-tick lag.

use vstd::prelude::*;
use crate::math::{Vec3i, Heading, spec_normalize_xz, normalize_xz};
use crate::timer::{Timer, TimerMode};
use crate::health::Health;
use crate::input::{Keyboard, PressMemory, resolve_player_input, input_step};
use crate::player::{
    Player, SlideState, AttackAnimationState, AttackCooldowns, attack_animation_update,
    slide_timer_update, apply_velocity, gravity_and_ground, tick_cooldowns, anim_step, slide_step,
    velocity_step, gravity_step, cooldown_step, heading_wf, FRAME_MAX_MS,
};
use crate::hitbox::{
    Hitbox, hitboxes_wf, lifetime_pass, damage_pass, after_decay, surviving, damage_to,
};
use crate::camera::{CameraState, camera_follow, camera_step, CAM_PLAYER_BOUND};

verus! {

/// Largest simulation time the model admits, in milliseconds; far beyond
/// any real match.
pub const TIME_MAX_MS: u64 = 4_000_000_000_000;

pub struct World {
    pub player1: Player,
    pub player2: Player,
    /// The live transient damage volumes.
    pub hitboxes: Vec<Hitbox>,
    pub camera: CameraState,
    /// Last directional-key press times of each player, for double-tap
    /// detection.
    pub memory1: PressMemory,
    pub memory2: PressMemory,
    /// Simulation time since match start, in milliseconds.
    pub now: u64,
    /// Identity the next spawned hitbox receives.
    pub next_hitbox_id: u64,
    /// Whether each player's continuous default motion clip has been
    /// started; set once, idempotently.
    pub anim_started1: bool,
    pub anim_started2: bool,
}

impl World {
    pub open spec fn wf(self) -> bool {
        &&& self.player1.wf()
        &&& self.player2.wf()
        &&& self.player1.id == 1
        &&& self.player2.id == 2
        &&& hitboxes_wf(self.hitboxes@)
        &&& self.camera.wf()
        &&& self.memory1.wf(self.now)
        &&& self.memory2.wf(self.now)
        &&& self.now <= TIME_MAX_MS
    }

    /// A fresh match: both players grounded at full health on the arena
    /// floor, all cooldowns already expired (a zero-duration timer is
    /// finished immediately), the camera behind the arena midpoint.
    pub fn new() -> (w: World)
        ensures
            w.wf(),
            w.player1.pos == (Vec3i { x: 100_000, y: 0, z: 0 }),
            w.player2.pos == (Vec3i { x: 700_000, y: 0, z: 0 }),
            w.player1.health == (Health { current: 100, max: 100 }),
            w.player2.health == (Health { current: 100, max: 100 }),
            w.player1.cooldowns.punch.spec_finished(),
            w.player1.cooldowns.kick.spec_finished(),
            w.player1.grounded && w.player2.grounded,
            !w.player1.slide.sliding && !w.player2.slide.sliding,
            !w.player1.attack.active && !w.player2.attack.active,
            w.hitboxes@.len() == 0,
            w.now == 0,
            w.camera.pos == (Vec3i { x: 400_000, y: 300_000, z: 600_000 }),
            w.camera.look == (Vec3i { x: 400_000, y: 0, z: 0 }),
            w.memory1 == (PressMemory { left: None, right: None, up: None, down: None }),
            w.memory2 == (PressMemory { left: None, right: None, up: None, down: None }),
    {
        World {
            player1: new_player(1, 100_000),
            player2: new_player(2, 700_000),
            hitboxes: Vec::new(),
            camera: CameraState {
                pos: Vec3i { x: 400_000, y: 300_000, z: 600_000 },
                look: Vec3i { x: 400_000, y: 0, z: 0 },
            },
            memory1: PressMemory::new(),
            memory2: PressMemory::new(),
            now: 0,
            next_hitbox_id: 0,
            anim_started1: false,
            anim_started2: false,
        }
    }
}

fn new_player(id: usize, x: i64) -> (p: Player)
    requires
        0 <= x <= crate::player::ARENA_MAX_X,
    ensures
        p.wf(),
        p.id == id,
        p.pos == (Vec3i { x: x, y: 0, z: 0 }),
        p.vel == (Vec3i { x: 0, y: 0, z: 0 }),
        p.grounded,
        p.health == (Health { current: 100, max: 100 }),
        p.cooldowns.punch.spec_finished(),
        p.cooldowns.kick.spec_finished(),
        p.cooldowns.jump_kick.spec_finished(),
        !p.slide.sliding,
        !p.attack.active,
        p.facing == (Heading { x: 1000, z: 0 }),
{
    Player {
        id,
        pos: Vec3i { x: x, y: 0, z: 0 },
        vel: Vec3i { x: 0, y: 0, z: 0 },
        grounded: true,
        health: Health { current: 100, max: 100 },
        cooldowns: AttackCooldowns {
            punch: Timer::new(0, TimerMode::Once),
            kick: Timer::new(0, TimerMode::Once),
            jump_kick: Timer::new(0, TimerMode::Once),
        },
        slide: SlideState {
            sliding: false,
            direction: Heading { x: 0, z: 0 },
            timer: Timer::new(0, TimerMode::Once),
        },
        attack: AttackAnimationState {
            active: false,
            kind: None,
            timer: Timer::new(0, TimerMode::Once),
            start_pos: Vec3i { x: 0, y: 0, z: 0 },
            end_pos: Vec3i { x: 0, y: 0, z: 0 },
        },
        facing: Heading { x: 1000, z: 0 },
    }
}

/// Health never leaves `[0, max]` for either player of a well-formed
/// world; since every tick re-establishes well-formedness, the bound holds
/// at every tick, however many hits overlap within one.
pub proof fn lemma_health_invariant(w: World)
    requires
        w.wf(),
    ensures
        0 <= w.player1.health.current <= w.player1.health.max,
        0 <= w.player2.health.current <= w.player2.health.max,
{
}

/// The horizontal facing of the first player toward the second; coincident
/// players keep their previous facing, so the direction is never undefined.
pub open spec fn spec_face(p1: Player, p2: Player) -> Heading {
    let dx = p2.pos.x - p1.pos.x;
    let dz = p2.pos.z - p1.pos.z;
    if dx == 0 && dz == 0 {
        p1.facing
    } else {
        spec_normalize_xz(dx, dz)
    }
}

/// Orient each player toward the other on the ground plane: the second
/// player faces exactly opposite the first.
pub fn face_players(p1: &mut Player, p2: &mut Player)
    requires
        old(p1).wf(),
        old(p2).wf(),
    ensures
        *final(p1) == (Player { facing: spec_face(*old(p1), *old(p2)), ..*old(p1) }),
        *final(p2) == (Player {
            facing: if old(p2).pos.x == old(p1).pos.x && old(p2).pos.z == old(p1).pos.z {
                old(p2).facing
            } else {
                Heading {
                    x: -spec_face(*old(p1), *old(p2)).x as i64,
                    z: -spec_face(*old(p1), *old(p2)).z as i64,
                }
            },
            ..*old(p2)
        }),
        final(p1).wf(),
        final(p2).wf(),
{
    let dx = p2.pos.x - p1.pos.x;
    let dz = p2.pos.z - p1.pos.z;
    if dx == 0 && dz == 0 {
        return ;
    }
    let f = normalize_xz(dx, dz);
    p1.facing = f;
    p2.facing = Heading { x: -f.x, z: -f.z };
}

/// The normalized health ratios published to the health-bar collaborators,
/// at scale 1000 (the 2D overlay divides by ten for its percentage width).
pub fn health_ratios(w: &World) -> (r: (u32, u32))
    requires
        w.wf(),
    ensures
        r.0 == (w.player1.health.current * 1000) / (w.player1.health.max as int),
        r.1 == (w.player2.health.current * 1000) / (w.player2.health.max as int),
        r.0 <= 1000 && r.1 <= 1000,
{
    (w.player1.health.ratio_permille(), w.player2.health.ratio_permille())
}

/// Whether to start each player's continuous default motion clip this
/// tick: requested exactly once, the first tick a clip is available, and
/// never again.
pub fn animation_start_requests(w: &mut World, clip_available: bool) -> (r: (bool, bool))
    ensures
        r.0 == (clip_available && !old(w).anim_started1),
        r.1 == (clip_available && !old(w).anim_started2),
        final(w).anim_started1 == (old(w).anim_started1 || r.0),
        final(w).anim_started2 == (old(w).anim_started2 || r.1),
        *final(w) == (World {
            anim_started1: final(w).anim_started1,
            anim_started2: final(w).anim_started2,
            ..*old(w)
        }),
{
    let start1 = clip_available && !w.anim_started1;
    let start2 = clip_available && !w.anim_started2;
    if start1 {
        w.anim_started1 = true;
    }
    if start2 {
        w.anim_started2 = true;
    }
    (start1, start2)
}

/// The camera's horizontal right axis, perpendicular to its forward axis.
pub open spec fn spec_camera_right(cam: CameraState) -> Heading {
    Heading { x: -spec_camera_forward(cam).z as i64, z: spec_camera_forward(cam).x as i64 }
}

pub open spec fn spec_next_id(id: u64) -> u64 {
    if id < u64::MAX {
        (id + 1) as u64
    } else {
        id
    }
}

/// One player carried through the per-player phases of a tick, in system
/// order: input, windup animation, slide timer, velocity integration,
/// gravity and ground, cooldowns.  (The player's state after a windup step
/// does not depend on which identity the spawned hitbox receives, so none
/// is needed here.)
pub open spec fn player_through_systems(
    p: Player,
    mem: PressMemory,
    w: World,
    kb: Keyboard,
    dt: u64,
) -> Player {
    let now = (w.now + dt) as u64;
    let pa = input_step(p, mem, kb, spec_camera_right(w.camera), spec_camera_forward(w.camera),
        now).0;
    let pb = anim_step(pa, dt, 0).0;
    let pc = slide_step(pb, dt);
    let pd = velocity_step(pc, dt);
    let pe = gravity_step(pd, dt);
    cooldown_step(pe, dt)
}

/// Player 1 after facing resolution, before damage.
pub open spec fn player1_faced(w: World, kb: Keyboard, dt: u64) -> Player {
    let p1 = player_through_systems(w.player1, w.memory1, w, kb, dt);
    let p2 = player_through_systems(w.player2, w.memory2, w, kb, dt);
    Player { facing: spec_face(p1, p2), ..p1 }
}

/// Player 2 after facing resolution, before damage.
pub open spec fn player2_faced(w: World, kb: Keyboard, dt: u64) -> Player {
    let p1 = player_through_systems(w.player1, w.memory1, w, kb, dt);
    let p2 = player_through_systems(w.player2, w.memory2, w, kb, dt);
    Player {
        facing: if p2.pos.x == p1.pos.x && p2.pos.z == p1.pos.z {
            p2.facing
        } else {
            Heading { x: -spec_face(p1, p2).x as i64, z: -spec_face(p1, p2).z as i64 }
        },
        ..p2
    }
}

/// The hit volumes after this tick's spawns (player 1's windup completion
/// first, then player 2's) and lifetime decay, before damage resolution.
pub open spec fn hitboxes_decayed(w: World, kb: Keyboard, dt: u64) -> Seq<Hitbox> {
    let now = (w.now + dt) as u64;
    let right = spec_camera_right(w.camera);
    let fwd = spec_camera_forward(w.camera);
    let p1a = input_step(w.player1, w.memory1, kb, right, fwd, now).0;
    let p2a = input_step(w.player2, w.memory2, kb, right, fwd, now).0;
    let s1 = anim_step(p1a, dt, w.next_hitbox_id).1;
    let hbs1 = match s1 {
        Some(hb) => w.hitboxes@.push(hb),
        None => w.hitboxes@,
    };
    let id2 = match s1 {
        Some(hb) => spec_next_id(w.next_hitbox_id),
        None => w.next_hitbox_id,
    };
    let s2 = anim_step(p2a, dt, id2).1;
    let hbs2 = match s2 {
        Some(hb) => hbs1.push(hb),
        None => hbs1,
    };
    after_decay(hbs2, dt)
}

/// One simulation tick of `dt` milliseconds, running every system in the
/// fixed order: the final players, hit volumes and camera are exactly the
/// composition of the per-system steps, and the well-formedness invariant —
/// and with it the health bounds `0 <= current <= max` and the arena bounds
/// of both players — holds again when the tick ends.
#[verifier::rlimit(100)]
pub fn tick(w: &mut World, kb: &Keyboard, dt: u64)
    requires
        old(w).wf(),
        dt <= FRAME_MAX_MS,
        old(w).now + dt <= TIME_MAX_MS,
    ensures
        final(w).wf(),
        final(w).now == old(w).now + dt,
        final(w).player1 == (Player {
            health: player1_faced(*old(w), *kb, dt).health.drained(
                damage_to(hitboxes_decayed(*old(w), *kb, dt), player1_faced(*old(w), *kb, dt)),
            ),
            ..player1_faced(*old(w), *kb, dt)
        }),
        final(w).player2 == (Player {
            health: player2_faced(*old(w), *kb, dt).health.drained(
                damage_to(hitboxes_decayed(*old(w), *kb, dt), player2_faced(*old(w), *kb, dt)),
            ),
            ..player2_faced(*old(w), *kb, dt)
        }),
        final(w).hitboxes@ == surviving(
            hitboxes_decayed(*old(w), *kb, dt),
            player1_faced(*old(w), *kb, dt),
            player2_faced(*old(w), *kb, dt),
        ),
        final(w).camera == camera_step(
            old(w).camera,
            final(w).player1.pos,
            final(w).player2.pos,
            dt,
        ),
        0 <= final(w).player1.health.current <= final(w).player1.health.max,
        0 <= final(w).player2.health.current <= final(w).player2.health.max,
        0 <= final(w).player1.pos.x <= crate::player::ARENA_MAX_X,
        -crate::player::ARENA_HALF_DEPTH <= final(w).player1.pos.z
            <= crate::player::ARENA_HALF_DEPTH,
        final(w).player1.id == 1 && final(w).player2.id == 2,
{
    w.now = w.now + dt;

    // Input resolution, relative to the camera's horizontal axes.
    let (right, fwd) = camera_basis(&w.camera);
    resolve_player_input(&mut w.player1, &mut w.memory1, kb, right, fwd, w.now);
    resolve_player_input(&mut w.player2, &mut w.memory2, kb, right, fwd, w.now);

    // Attack windup animation; completion spawns a hit volume.
    let spawn1 = attack_animation_update(&mut w.player1, dt, w.next_hitbox_id);
    if let Some(hb) = spawn1 {
        w.hitboxes.push(hb);
        w.next_hitbox_id = next_id(w.next_hitbox_id);
    }
    let spawn2 = attack_animation_update(&mut w.player2, dt, w.next_hitbox_id);
    if let Some(hb) = spawn2 {
        w.hitboxes.push(hb);
        w.next_hitbox_id = next_id(w.next_hitbox_id);
    }

    // Slide timers.
    slide_timer_update(&mut w.player1, dt);
    slide_timer_update(&mut w.player2, dt);

    // Velocity integration with arena clamping, then gravity and ground.
    apply_velocity(&mut w.player1, dt);
    apply_velocity(&mut w.player2, dt);
    gravity_and_ground(&mut w.player1, dt);
    gravity_and_ground(&mut w.player2, dt);

    // Cooldowns advance every frame regardless of attack state.
    tick_cooldowns(&mut w.player1, dt);
    tick_cooldowns(&mut w.player2, dt);

    // Facing resolution.
    face_players(&mut w.player1, &mut w.player2);

    // Hitbox lifetime decay, then damage resolution against fresh state.
    lifetime_pass(&mut w.hitboxes, dt);
    damage_pass(&mut w.hitboxes, &mut w.player1, &mut w.player2);

    // Camera follow.
    camera_follow(&mut w.camera, w.player1.pos, w.player2.pos, dt);
}

/// The camera's horizontal right and forward directions, projected from
/// its look direction onto the ground plane; a camera looking straight
/// down yields zero axes and therefore no movement.
pub open spec fn spec_camera_forward(cam: CameraState) -> Heading {
    spec_normalize_xz(cam.look.x - cam.pos.x, cam.look.z - cam.pos.z)
}

pub fn camera_basis(cam: &CameraState) -> (r: (Heading, Heading))
    requires
        cam.wf(),
    ensures
        r.1 == spec_camera_forward(*cam),
        r.0 == (Heading {
            x: -spec_camera_forward(*cam).z as i64,
            z: spec_camera_forward(*cam).x as i64,
        }),
        heading_wf(r.0),
        heading_wf(r.1),
{
    let fwd = normalize_xz(cam.look.x - cam.pos.x, cam.look.z - cam.pos.z);
    let right = Heading { x: -fwd.z, z: fwd.x };
    (right, fwd)
}

fn next_id(id: u64) -> (r: u64)
    ensures
        r == (if id < u64::MAX {
            id + 1
        } else {
            id as int
        }),
{
    if id < u64::MAX {
        id + 1
    } else {
        id
    }
}

/// The elements of `xs` that do not occur in `ys`, in order.
pub open spec fn ids_missing_from(xs: Seq<u64>, ys: Seq<u64>) -> Seq<u64>
    decreases xs.len(),
{
    if xs.len() == 0 {
        Seq::empty()
    } else {
        let rest = ids_missing_from(xs.drop_last(), ys);
        if !ys.contains(xs.last()) {
            rest.push(xs.last())
        } else {
            rest
        }
    }
}

pub proof fn lemma_ids_missing_push(xs: Seq<u64>, x: u64, ys: Seq<u64>)
    ensures
        ids_missing_from(xs.push(x), ys) == if !ys.contains(x) {
            ids_missing_from(xs, ys).push(x)
        } else {
            ids_missing_from(xs, ys)
        },
{
    assert(xs.push(x).drop_last() =~= xs);
}

fn vec_contains_u64(v: &Vec<u64>, x: u64) -> (b: bool)
    ensures
        b == v@.contains(x),
{
    let mut i: usize = 0;
    while i < v.len()
        invariant
            i <= v@.len(),
            forall|j: int| 0 <= j < i ==> v@[j] != x,
        decreases v@.len() - i,
    {
        if v[i] == x {
            assert(v@.contains(x));
            return true;
        }
        i = i + 1;
    }
    false
}

/// The ids of the live hit volumes, for the rendering collaborator.
pub fn live_hitbox_ids(w: &World) -> (r: Vec<u64>)
    ensures
        r@.len() == w.hitboxes@.len(),
        forall|i: int| 0 <= i < r@.len() ==> r@[i] == #[trigger] w.hitboxes@[i].id,
{
    let mut r: Vec<u64> = Vec::new();
    let mut i: usize = 0;
    while i < w.hitboxes.len()
        invariant
            i <= w.hitboxes@.len(),
            r@.len() == i,
            forall|j: int| 0 <= j < i ==> r@[j] == #[trigger] w.hitboxes@[j].id,
        decreases w.hitboxes@.len() - i,
    {
        r.push(w.hitboxes[i].id);
        i = i + 1;
    }
    r
}

/// Reconcile hit-volume visuals with the live volumes: the first result
/// lists the visuals to despawn (their volume is gone), the second the
/// volumes to give a fresh visual (they have none yet).
#[verifier::loop_isolation(false)]
pub fn plan_visual_sync(hitbox_ids: &Vec<u64>, visual_owners: &Vec<u64>) -> (r: (Vec<u64>, Vec<
    u64,
>))
    ensures
        r.0@ == ids_missing_from(visual_owners@, hitbox_ids@),
        r.1@ == ids_missing_from(hitbox_ids@, visual_owners@),
{
    let mut despawn: Vec<u64> = Vec::new();
    let mut i: usize = 0;
    assert(visual_owners@.take(0) =~= Seq::<u64>::empty());
    while i < visual_owners.len()
        invariant
            i <= visual_owners@.len(),
            despawn@ == ids_missing_from(visual_owners@.take(i as int), hitbox_ids@),
        decreases visual_owners@.len() - i,
    {
        let o = visual_owners[i];
        proof {
            assert(visual_owners@.take(i + 1) =~= visual_owners@.take(i as int).push(
                visual_owners@[i as int],
            ));
            lemma_ids_missing_push(visual_owners@.take(i as int), visual_owners@[i as int],
                hitbox_ids@);
        }
        if !vec_contains_u64(hitbox_ids, o) {
            despawn.push(o);
        }
        i = i + 1;
    }
    assert(visual_owners@.take(visual_owners@.len() as int) =~= visual_owners@);

    let mut spawn: Vec<u64> = Vec::new();
    let mut k: usize = 0;
    assert(hitbox_ids@.take(0) =~= Seq::<u64>::empty());
    while k < hitbox_ids.len()
        invariant
            k <= hitbox_ids@.len(),
            spawn@ == ids_missing_from(hitbox_ids@.take(k as int), visual_owners@),
        decreases hitbox_ids@.len() - k,
    {
        let h = hitbox_ids[k];
        proof {
            assert(hitbox_ids@.take(k + 1) =~= hitbox_ids@.take(k as int).push(
                hitbox_ids@[k as int],
            ));
            lemma_ids_missing_push(hitbox_ids@.take(k as int), hitbox_ids@[k as int],
                visual_owners@);
        }
        if !vec_contains_u64(visual_owners, h) {
            spawn.push(h);
        }
        k = k + 1;
    }
    assert(hitbox_ids@.take(hitbox_ids@.len() as int) =~= hitbox_ids@);
    (despawn, spawn)
}

} // verus!
