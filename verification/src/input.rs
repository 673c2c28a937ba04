//! The input resolver: maps raw key state to per-player movement, slide
//! (dash) and attack intents.
//!
//! Movement is camera-relative: the camera's horizontal right and forward
//! directions are summed over the pressed directional keys and normalized.
//! A directional key that is just pressed within the double-tap window of
//! its previous press starts a slide when the player is grounded and not
//! already sliding; the press timestamp is then recorded unconditionally,
//! so a third consecutive tap measures against the second, not the first.
//! An attack key starts an attack only when its cooldown timer reports
//! finished; triggering restarts the cooldown and the windup animation.

use vstd::prelude::*;
use crate::math::{
    Vec3i, Heading, spec_normalize_xz, normalize_xz, spec_rotate_offset, rotate_offset,
    scale_toward_zero, scale_i64, lemma_scale_by_speed,
};
use crate::timer::{Timer, TimerMode};
use crate::player::{
    Player, AttackKind, AttackAnimationState, AttackCooldowns, SlideState, heading_wf,
    SLIDE_TAP_WINDOW_MS, SLIDE_DURATION_MS, PLAYER_SPEED, SLIDE_SPEED, PUNCH_COOLDOWN_MS,
    KICK_COOLDOWN_MS, PUNCH_WINDUP_MS, KICK_WINDUP_MS,
};

verus! {

/// The keys the two fixed control schemes use.
#[derive(Clone, Copy, PartialEq, Eq, Structural, Debug)]
pub enum Key {
    KeyA,
    KeyD,
    KeyW,
    KeyS,
    KeyJ,
    KeyK,
    Space,
    ArrowLeft,
    ArrowRight,
    ArrowUp,
    ArrowDown,
    Numpad1,
    Numpad2,
}

/// Raw key state for one tick: the keys currently held and the keys that
/// went down on this tick.
pub struct Keyboard {
    pub pressed: Vec<Key>,
    pub just_pressed: Vec<Key>,
}

fn vec_contains_key(v: &Vec<Key>, k: Key) -> (b: bool)
    ensures
        b == v@.contains(k),
{
    let mut i: usize = 0;
    while i < v.len()
        invariant
            i <= v@.len(),
            forall|j: int| 0 <= j < i ==> v@[j] != k,
        decreases v@.len() - i,
    {
        if v[i] == k {
            assert(v@.contains(k));
            return true;
        }
        i = i + 1;
    }
    false
}

impl Keyboard {
    pub open spec fn spec_pressed(self, k: Key) -> bool {
        self.pressed@.contains(k)
    }

    pub open spec fn spec_just_pressed(self, k: Key) -> bool {
        self.just_pressed@.contains(k)
    }

    pub fn new() -> (kb: Keyboard)
        ensures
            kb.pressed@ =~= Seq::<Key>::empty(),
            kb.just_pressed@ =~= Seq::<Key>::empty(),
    {
        Keyboard { pressed: Vec::new(), just_pressed: Vec::new() }
    }

    pub fn is_pressed(&self, k: Key) -> (b: bool)
        ensures
            b == self.spec_pressed(k),
    {
        vec_contains_key(&self.pressed, k)
    }

    pub fn is_just_pressed(&self, k: Key) -> (b: bool)
        ensures
            b == self.spec_just_pressed(k),
    {
        vec_contains_key(&self.just_pressed, k)
    }
}

/// The four directional binding roles of a control scheme.
#[derive(Clone, Copy, PartialEq, Eq, Structural, Debug)]
pub enum DirKey {
    Left,
    Right,
    Up,
    Down,
}

/// One player's fixed key bindings.  Only player 1's scheme has a
/// jump-kick key.
#[derive(Clone, Copy, PartialEq, Eq, Structural, Debug)]
pub struct Bindings {
    pub left: Key,
    pub right: Key,
    pub up: Key,
    pub down: Key,
    pub punch: Key,
    pub kick: Key,
    pub jump: Option<Key>,
}

/// The two fixed, disjoint control schemes; an unrecognized player id has
/// none and is skipped by the resolver.
pub open spec fn spec_bindings_for(id: usize) -> Option<Bindings> {
    if id == 1 {
        Some(
            Bindings {
                left: Key::KeyA,
                right: Key::KeyD,
                up: Key::KeyW,
                down: Key::KeyS,
                punch: Key::KeyJ,
                kick: Key::KeyK,
                jump: Some(Key::Space),
            },
        )
    } else if id == 2 {
        Some(
            Bindings {
                left: Key::ArrowLeft,
                right: Key::ArrowRight,
                up: Key::ArrowUp,
                down: Key::ArrowDown,
                punch: Key::Numpad1,
                kick: Key::Numpad2,
                jump: None,
            },
        )
    } else {
        None
    }
}

pub fn bindings_for(id: usize) -> (r: Option<Bindings>)
    ensures
        r == spec_bindings_for(id),
{
    if id == 1 {
        Some(
            Bindings {
                left: Key::KeyA,
                right: Key::KeyD,
                up: Key::KeyW,
                down: Key::KeyS,
                punch: Key::KeyJ,
                kick: Key::KeyK,
                jump: Some(Key::Space),
            },
        )
    } else if id == 2 {
        Some(
            Bindings {
                left: Key::ArrowLeft,
                right: Key::ArrowRight,
                up: Key::ArrowUp,
                down: Key::ArrowDown,
                punch: Key::Numpad1,
                kick: Key::Numpad2,
                jump: None,
            },
        )
    } else {
        None
    }
}

pub open spec fn key_of(b: Bindings, d: DirKey) -> Key {
    match d {
        DirKey::Left => b.left,
        DirKey::Right => b.right,
        DirKey::Up => b.up,
        DirKey::Down => b.down,
    }
}

pub fn key_of_dir(b: &Bindings, d: DirKey) -> (k: Key)
    ensures
        k == key_of(*b, d),
{
    match d {
        DirKey::Left => b.left,
        DirKey::Right => b.right,
        DirKey::Up => b.up,
        DirKey::Down => b.down,
    }
}

/// The most recent press timestamps of one player's directional keys, in
/// milliseconds of simulation time; the only state shared across ticks by
/// the resolver.  An entry is overwritten on each press, never removed; a
/// never-pressed key has no entry, so the first press can never read as a
/// double-tap.
#[derive(Clone, Copy, PartialEq, Eq, Structural, Debug)]
pub struct PressMemory {
    pub left: Option<u64>,
    pub right: Option<u64>,
    pub up: Option<u64>,
    pub down: Option<u64>,
}

impl PressMemory {
    pub open spec fn slot(self, d: DirKey) -> Option<u64> {
        match d {
            DirKey::Left => self.left,
            DirKey::Right => self.right,
            DirKey::Up => self.up,
            DirKey::Down => self.down,
        }
    }

    pub open spec fn with_slot(self, d: DirKey, t: u64) -> PressMemory {
        match d {
            DirKey::Left => PressMemory { left: Some(t), ..self },
            DirKey::Right => PressMemory { right: Some(t), ..self },
            DirKey::Up => PressMemory { up: Some(t), ..self },
            DirKey::Down => PressMemory { down: Some(t), ..self },
        }
    }

    /// Every recorded timestamp is in the past.
    pub open spec fn wf(self, now: u64) -> bool {
        &&& (self.left is Some ==> self.left->0 <= now)
        &&& (self.right is Some ==> self.right->0 <= now)
        &&& (self.up is Some ==> self.up->0 <= now)
        &&& (self.down is Some ==> self.down->0 <= now)
    }

    pub fn new() -> (m: PressMemory)
        ensures
            m == (PressMemory { left: None, right: None, up: None, down: None }),
    {
        PressMemory { left: None, right: None, up: None, down: None }
    }

    pub fn get_slot(&self, d: DirKey) -> (r: Option<u64>)
        ensures
            r == self.slot(d),
    {
        match d {
            DirKey::Left => self.left,
            DirKey::Right => self.right,
            DirKey::Up => self.up,
            DirKey::Down => self.down,
        }
    }

    pub fn set_slot(&mut self, d: DirKey, t: u64)
        ensures
            *final(self) == old(self).with_slot(d, t),
    {
        match d {
            DirKey::Left => self.left = Some(t),
            DirKey::Right => self.right = Some(t),
            DirKey::Up => self.up = Some(t),
            DirKey::Down => self.down = Some(t),
        }
    }
}

/// Sum of the camera-relative directions of the pressed movement keys
/// (x coordinate); the magnitude is at most four direction scales.
pub open spec fn move_sum_x(kb: Keyboard, b: Bindings, right: Heading, fwd: Heading) -> int {
    (if kb.spec_pressed(b.left) {
        -right.x
    } else {
        0
    }) + (if kb.spec_pressed(b.right) {
        right.x
    } else {
        0
    }) + (if kb.spec_pressed(b.up) {
        fwd.x
    } else {
        0
    }) + (if kb.spec_pressed(b.down) {
        -fwd.x
    } else {
        0
    })
}

pub open spec fn move_sum_z(kb: Keyboard, b: Bindings, right: Heading, fwd: Heading) -> int {
    (if kb.spec_pressed(b.left) {
        -right.z
    } else {
        0
    }) + (if kb.spec_pressed(b.right) {
        right.z
    } else {
        0
    }) + (if kb.spec_pressed(b.up) {
        fwd.z
    } else {
        0
    }) + (if kb.spec_pressed(b.down) {
        -fwd.z
    } else {
        0
    })
}

/// The resolved movement direction: the normalized key sum, zero when no
/// movement key is held.
pub open spec fn move_dir(kb: Keyboard, b: Bindings, right: Heading, fwd: Heading) -> Heading {
    spec_normalize_xz(move_sum_x(kb, b, right, fwd), move_sum_z(kb, b, right, fwd))
}

/// The directional key considered for a slide and the direction the slide
/// would take: the last pressed directional key in the fixed binding order
/// left, right, up, down.
pub open spec fn slide_candidate(kb: Keyboard, b: Bindings, right: Heading, fwd: Heading) -> Option<
    (DirKey, Heading),
> {
    if kb.spec_pressed(b.down) {
        Some((DirKey::Down, Heading { x: (-fwd.x) as i64, z: (-fwd.z) as i64 }))
    } else if kb.spec_pressed(b.up) {
        Some((DirKey::Up, fwd))
    } else if kb.spec_pressed(b.right) {
        Some((DirKey::Right, right))
    } else if kb.spec_pressed(b.left) {
        Some((DirKey::Left, Heading { x: (-right.x) as i64, z: (-right.z) as i64 }))
    } else {
        None
    }
}

/// The double-tap law: a slide starts exactly when the candidate
/// directional key is just pressed, its previous press is recorded and lies
/// within the tap window, and the player is grounded and not already
/// sliding.
pub open spec fn dash_condition(
    p: Player,
    mem: PressMemory,
    kb: Keyboard,
    b: Bindings,
    right: Heading,
    fwd: Heading,
    now: u64,
) -> bool {
    match slide_candidate(kb, b, right, fwd) {
        Some((d, h)) => {
            &&& kb.spec_just_pressed(key_of(b, d))
            &&& match mem.slot(d) {
                Some(last) => now - last < SLIDE_TAP_WINDOW_MS,
                None => false,
            }
            &&& !p.slide.sliding
            &&& p.grounded
        },
        None => false,
    }
}

/// The press memory after the resolver ran: the candidate key's timestamp
/// is recorded whenever that key was just pressed, dash or no dash.
pub open spec fn mem_after(
    mem: PressMemory,
    kb: Keyboard,
    b: Bindings,
    right: Heading,
    fwd: Heading,
    now: u64,
) -> PressMemory {
    match slide_candidate(kb, b, right, fwd) {
        Some((d, h)) => if kb.spec_just_pressed(key_of(b, d)) {
            mem.with_slot(d, now)
        } else {
            mem
        },
        None => mem,
    }
}

/// The slide state after the resolver ran: entered fresh on a qualifying
/// double-tap, otherwise unchanged.
pub open spec fn slide_after(
    p: Player,
    mem: PressMemory,
    kb: Keyboard,
    b: Bindings,
    right: Heading,
    fwd: Heading,
    now: u64,
) -> SlideState {
    match slide_candidate(kb, b, right, fwd) {
        Some((d, h)) => if dash_condition(p, mem, kb, b, right, fwd, now) {
            SlideState {
                sliding: true,
                direction: spec_normalize_xz(h.x as int, h.z as int),
                timer: Timer {
                    duration: SLIDE_DURATION_MS,
                    elapsed: 0,
                    just_finished: false,
                    mode: TimerMode::Once,
                },
            }
        } else {
            p.slide
        },
        None => p.slide,
    }
}

/// Horizontal velocity after the resolver ran: the slide direction at slide
/// speed while sliding, otherwise the movement direction at player speed;
/// vertical velocity is untouched.
pub open spec fn vel_after(p: Player, slide2: SlideState, dir: Heading) -> Vec3i {
    if slide2.sliding {
        Vec3i {
            x: scale_toward_zero(slide2.direction.x as int, SLIDE_SPEED as int, 1000) as i64,
            y: p.vel.y,
            z: scale_toward_zero(slide2.direction.z as int, SLIDE_SPEED as int, 1000) as i64,
        }
    } else {
        Vec3i {
            x: scale_toward_zero(dir.x as int, PLAYER_SPEED as int, 1000) as i64,
            y: p.vel.y,
            z: scale_toward_zero(dir.z as int, PLAYER_SPEED as int, 1000) as i64,
        }
    }
}

/// An attack triggers exactly when its cooldown reports finished and its
/// key was just pressed.
pub open spec fn punch_triggers(p: Player, kb: Keyboard, b: Bindings) -> bool {
    p.cooldowns.punch.spec_finished() && kb.spec_just_pressed(b.punch)
}

pub open spec fn kick_triggers(p: Player, kb: Keyboard, b: Bindings) -> bool {
    p.cooldowns.kick.spec_finished() && kb.spec_just_pressed(b.kick)
}

pub open spec fn jump_kick_triggers(p: Player, kb: Keyboard, b: Bindings) -> bool {
    match b.jump {
        Some(k) => p.cooldowns.jump_kick.spec_finished() && kb.spec_just_pressed(k),
        None => false,
    }
}

/// A cooldown timer freshly restarted with a new duration.
pub open spec fn restarted(t: Timer, duration: u64) -> Timer {
    Timer { duration, elapsed: 0, just_finished: false, mode: t.mode }
}

pub open spec fn windup_ms(kind: AttackKind) -> u64 {
    match kind {
        AttackKind::Punch => PUNCH_WINDUP_MS,
        AttackKind::Kick => KICK_WINDUP_MS,
    }
}

/// The fixed local hit offset of an attack, rotated by the player's facing
/// when the attack starts.
pub open spec fn attack_offset(kind: AttackKind) -> Vec3i {
    match kind {
        AttackKind::Punch => Vec3i { x: 40_000, y: 60_000, z: 0 },
        AttackKind::Kick => Vec3i { x: 40_000, y: 20_000, z: 0 },
    }
}

pub fn attack_offset_of(kind: AttackKind) -> (v: Vec3i)
    ensures
        v == attack_offset(kind),
{
    match kind {
        AttackKind::Punch => Vec3i { x: 40_000, y: 60_000, z: 0 },
        AttackKind::Kick => Vec3i { x: 40_000, y: 20_000, z: 0 },
    }
}

/// A freshly started windup animation: interpolation endpoints are captured
/// from the player's current position and facing.
pub open spec fn started_anim(p: Player, kind: AttackKind) -> AttackAnimationState {
    let off = spec_rotate_offset(p.facing, attack_offset(kind));
    AttackAnimationState {
        active: true,
        kind: Some(kind),
        timer: Timer {
            duration: windup_ms(kind),
            elapsed: 0,
            just_finished: false,
            mode: TimerMode::Once,
        },
        start_pos: p.pos,
        end_pos: Vec3i {
            x: (p.pos.x + off.x) as i64,
            y: (p.pos.y + off.y) as i64,
            z: (p.pos.z + off.z) as i64,
        },
    }
}

/// The whole per-player input resolution step.  A player whose id has no
/// control scheme is skipped untouched.
pub open spec fn input_step(
    p: Player,
    mem: PressMemory,
    kb: Keyboard,
    right: Heading,
    fwd: Heading,
    now: u64,
) -> (Player, PressMemory) {
    match spec_bindings_for(p.id) {
        None => (p, mem),
        Some(b) => {
            let slide2 = slide_after(p, mem, kb, b, right, fwd, now);
            let mem2 = mem_after(mem, kb, b, right, fwd, now);
            let vel2 = vel_after(p, slide2, move_dir(kb, b, right, fwd));
            let cds = AttackCooldowns {
                punch: if punch_triggers(p, kb, b) {
                    restarted(p.cooldowns.punch, PUNCH_COOLDOWN_MS)
                } else {
                    p.cooldowns.punch
                },
                kick: if kick_triggers(p, kb, b) {
                    restarted(p.cooldowns.kick, KICK_COOLDOWN_MS)
                } else {
                    p.cooldowns.kick
                },
                jump_kick: if jump_kick_triggers(p, kb, b) {
                    Timer { elapsed: 0, just_finished: false, ..p.cooldowns.jump_kick }
                } else {
                    p.cooldowns.jump_kick
                },
            };
            let anim2 = if kick_triggers(p, kb, b) {
                started_anim(p, AttackKind::Kick)
            } else if punch_triggers(p, kb, b) {
                started_anim(p, AttackKind::Punch)
            } else {
                p.attack
            };
            (Player { slide: slide2, vel: vel2, cooldowns: cds, attack: anim2, ..p }, mem2)
        },
    }
}

/// The movement and double-tap phase: read the directional keys, enter a
/// slide on a qualifying double-tap, record the press timestamp, and hand
/// back the normalized movement direction.
fn movement_and_slide(
    p: &mut Player,
    mem: &mut PressMemory,
    kb: &Keyboard,
    b: Bindings,
    right: Heading,
    fwd: Heading,
    now: u64,
) -> (dir: Heading)
    requires
        old(p).wf(),
        old(mem).wf(now),
        heading_wf(right),
        heading_wf(fwd),
    ensures
        dir == move_dir(*kb, b, right, fwd),
        heading_wf(dir),
        *final(p) == (Player {
            slide: slide_after(*old(p), *old(mem), *kb, b, right, fwd, now),
            ..*old(p)
        }),
        *final(mem) == mem_after(*old(mem), *kb, b, right, fwd, now),
        final(p).wf(),
        final(mem).wf(now),
{
    let mut ix: i64 = 0;
    let mut iz: i64 = 0;
    let mut cand: Option<(DirKey, Heading)> = None;
    if kb.is_pressed(b.left) {
        ix = ix - right.x;
        iz = iz - right.z;
        cand = Some((DirKey::Left, Heading { x: -right.x, z: -right.z }));
    }
    if kb.is_pressed(b.right) {
        ix = ix + right.x;
        iz = iz + right.z;
        cand = Some((DirKey::Right, right));
    }
    if kb.is_pressed(b.up) {
        ix = ix + fwd.x;
        iz = iz + fwd.z;
        cand = Some((DirKey::Up, fwd));
    }
    if kb.is_pressed(b.down) {
        ix = ix - fwd.x;
        iz = iz - fwd.z;
        cand = Some((DirKey::Down, Heading { x: -fwd.x, z: -fwd.z }));
    }
    assert(ix == move_sum_x(*kb, b, right, fwd));
    assert(iz == move_sum_z(*kb, b, right, fwd));
    assert(cand == slide_candidate(*kb, b, right, fwd));
    let dir = normalize_xz(ix, iz);

    if let Some((d, h)) = cand {
        if kb.is_just_pressed(key_of_dir(&b, d)) {
            let tapped = match mem.get_slot(d) {
                Some(last) => now - last < SLIDE_TAP_WINDOW_MS,
                None => false,
            };
            if tapped && !p.slide.sliding && p.grounded {
                p.slide.sliding = true;
                p.slide.direction = normalize_xz(h.x, h.z);
                p.slide.timer = Timer::new(SLIDE_DURATION_MS, TimerMode::Once);
            }
            mem.set_slot(d, now);
        }
    }
    dir
}

/// The velocity phase: while sliding the slide direction overrides
/// horizontal velocity at slide speed, otherwise the movement direction
/// drives it at player speed.
fn set_horizontal_velocity(p: &mut Player, dir: Heading)
    requires
        old(p).wf(),
        heading_wf(dir),
    ensures
        *final(p) == (Player { vel: vel_after(*old(p), old(p).slide, dir), ..*old(p) }),
        final(p).wf(),
{
    if p.slide.sliding {
        proof {
            lemma_scale_by_speed(p.slide.direction.x as int, SLIDE_SPEED as int);
            lemma_scale_by_speed(p.slide.direction.z as int, SLIDE_SPEED as int);
            assert(-500_000_000 <= p.slide.direction.x * SLIDE_SPEED <= 500_000_000)
                by (nonlinear_arith)
                requires
                    -1000 <= p.slide.direction.x <= 1000,
            ;
            assert(-500_000_000 <= p.slide.direction.z * SLIDE_SPEED <= 500_000_000)
                by (nonlinear_arith)
                requires
                    -1000 <= p.slide.direction.z <= 1000,
            ;
        }
        p.vel.x = scale_i64(p.slide.direction.x, SLIDE_SPEED, 1000);
        p.vel.z = scale_i64(p.slide.direction.z, SLIDE_SPEED, 1000);
    } else {
        proof {
            lemma_scale_by_speed(dir.x as int, PLAYER_SPEED as int);
            lemma_scale_by_speed(dir.z as int, PLAYER_SPEED as int);
            assert(-300_000_000 <= dir.x * PLAYER_SPEED <= 300_000_000) by (nonlinear_arith)
                requires
                    -1000 <= dir.x <= 1000,
            ;
            assert(-300_000_000 <= dir.z * PLAYER_SPEED <= 300_000_000) by (nonlinear_arith)
                requires
                    -1000 <= dir.z <= 1000,
            ;
        }
        p.vel.x = scale_i64(dir.x, PLAYER_SPEED, 1000);
        p.vel.z = scale_i64(dir.z, PLAYER_SPEED, 1000);
    }
}

/// The attack phase: a punch or kick key that is just pressed while its
/// cooldown reports finished restarts that cooldown and starts the windup
/// animation; a kick triggered on the same tick overwrites the punch.  A
/// re-trigger before the cooldown has finished is rejected and changes
/// nothing.
fn trigger_attacks(p: &mut Player, kb: &Keyboard, b: Bindings)
    requires
        old(p).wf(),
    ensures
        *final(p) == (Player {
            cooldowns: AttackCooldowns {
                punch: if punch_triggers(*old(p), *kb, b) {
                    restarted(old(p).cooldowns.punch, PUNCH_COOLDOWN_MS)
                } else {
                    old(p).cooldowns.punch
                },
                kick: if kick_triggers(*old(p), *kb, b) {
                    restarted(old(p).cooldowns.kick, KICK_COOLDOWN_MS)
                } else {
                    old(p).cooldowns.kick
                },
                jump_kick: if jump_kick_triggers(*old(p), *kb, b) {
                    Timer { elapsed: 0, just_finished: false, ..old(p).cooldowns.jump_kick }
                } else {
                    old(p).cooldowns.jump_kick
                },
            },
            attack: if kick_triggers(*old(p), *kb, b) {
                started_anim(*old(p), AttackKind::Kick)
            } else if punch_triggers(*old(p), *kb, b) {
                started_anim(*old(p), AttackKind::Punch)
            } else {
                old(p).attack
            },
            ..*old(p)
        }),
        final(p).wf(),
{
    if p.cooldowns.punch.finished() && kb.is_just_pressed(b.punch) {
        p.cooldowns.punch.reset();
        p.cooldowns.punch.set_duration(PUNCH_COOLDOWN_MS);
        p.attack.active = true;
        p.attack.kind = Some(AttackKind::Punch);
        p.attack.timer = Timer::new(PUNCH_WINDUP_MS, TimerMode::Once);
        p.attack.start_pos = p.pos;
        let off = rotate_offset(p.facing, attack_offset_of(AttackKind::Punch));
        p.attack.end_pos = Vec3i { x: p.pos.x + off.x, y: p.pos.y + off.y, z: p.pos.z + off.z };
    }
    if p.cooldowns.kick.finished() && kb.is_just_pressed(b.kick) {
        p.cooldowns.kick.reset();
        p.cooldowns.kick.set_duration(KICK_COOLDOWN_MS);
        p.attack.active = true;
        p.attack.kind = Some(AttackKind::Kick);
        p.attack.timer = Timer::new(KICK_WINDUP_MS, TimerMode::Once);
        p.attack.start_pos = p.pos;
        let off = rotate_offset(p.facing, attack_offset_of(AttackKind::Kick));
        p.attack.end_pos = Vec3i { x: p.pos.x + off.x, y: p.pos.y + off.y, z: p.pos.z + off.z };
    }
    if let Some(jk) = b.jump {
        if p.cooldowns.jump_kick.finished() && kb.is_just_pressed(jk) {
            p.cooldowns.jump_kick.reset();
        }
    }
}

/// Cooldown gating: from the moment an attack restarts its cooldown timer,
/// no re-trigger of that attack is possible — whatever keys are pressed —
/// until ticks totalling at least the full cooldown duration have passed.
pub proof fn lemma_cooldown_gates_retrigger(
    t: Timer,
    deltas: Seq<u64>,
    p: Player,
    kb: Keyboard,
    b: Bindings,
)
    requires
        t.mode == TimerMode::Once,
        t.wf(),
        t.elapsed == 0,
        crate::timer::sum_of(deltas) < t.duration,
        forall|i: int| 0 <= i < deltas.len() ==> deltas[i] <= crate::timer::TICK_MAX_MS,
    ensures
        p.cooldowns.punch == crate::timer::ticked_all(t, deltas) ==> !punch_triggers(p, kb, b),
        p.cooldowns.kick == crate::timer::ticked_all(t, deltas) ==> !kick_triggers(p, kb, b),
{
    crate::timer::lemma_once_timer_needs_full_duration(t, deltas);
}

/// Resolve one player's input for this tick: movement, double-tap slide,
/// and cooldown-gated attack triggers.
pub fn resolve_player_input(
    p: &mut Player,
    mem: &mut PressMemory,
    kb: &Keyboard,
    right: Heading,
    fwd: Heading,
    now: u64,
)
    requires
        old(p).wf(),
        old(mem).wf(now),
        heading_wf(right),
        heading_wf(fwd),
    ensures
        (*final(p), *final(mem)) == input_step(*old(p), *old(mem), *kb, right, fwd, now),
        final(p).wf(),
        final(mem).wf(now),
        spec_bindings_for(old(p).id) matches Some(b) ==> final(p).slide.sliding == (
        old(p).slide.sliding || dash_condition(*old(p), *old(mem), *kb, b, right, fwd, now)),
        spec_bindings_for(old(p).id) matches Some(b) && !old(p).cooldowns.punch.spec_finished()
            && !old(p).cooldowns.kick.spec_finished() ==> final(p).attack == old(p).attack,
{
    let b = match bindings_for(p.id) {
        Some(b) => b,
        None => {
            return ;
        },
    };
    let dir = movement_and_slide(p, mem, kb, b, right, fwd, now);
    set_horizontal_velocity(p, dir);
    trigger_attacks(p, kb, b);
}

} // verus!
