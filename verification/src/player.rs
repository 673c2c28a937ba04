//! Player state and the per-tick systems that act on a single player:
//! attack windup animation, slide timing, velocity integration with arena
//! clamping, gravity with ground resolution, and cooldown ticking.

use vstd::prelude::*;
use crate::math::{
    Vec3i, Heading, spec_lerp3, lerp3, scale_toward_zero, scale_i64, spec_clamp, clamp_i64,
    lemma_scale_magnitude,
};
use crate::timer::{Timer, TimerMode};
use crate::health::Health;
use crate::hitbox::{Hitbox, HITBOX_LIFETIME_MS};

verus! {

/// Arena bounds in milli-units: x in [0, ARENA_MAX_X], z in
/// [-ARENA_HALF_DEPTH, ARENA_HALF_DEPTH].
pub const ARENA_MAX_X: i64 = 800_000;

pub const ARENA_HALF_DEPTH: i64 = 200_000;

/// Ordinary movement speed, milli-units per second.
pub const PLAYER_SPEED: u64 = 300_000;

/// Slide burst speed, milli-units per second.
pub const SLIDE_SPEED: u64 = 500_000;

/// Downward acceleration: vertical velocity loses this many
/// milli-units-per-second every millisecond.
pub const GRAVITY_PER_MS: i64 = 1200;

/// Saturation floor for falling speed, a machine limit far below any speed
/// the simulation reaches.
pub const VEL_Y_FLOOR: i64 = -1_000_000_000_000;

/// Highest altitude the model admits, in milli-units.
pub const POS_Y_MAX: i64 = 100_000_000;

/// Largest per-tick delta the simulation accepts, in milliseconds.
pub const FRAME_MAX_MS: u64 = 200;

/// A second press of the same directional key within this window of the
/// first is a double-tap and starts a slide.
pub const SLIDE_TAP_WINDOW_MS: u64 = 250;

pub const SLIDE_DURATION_MS: u64 = 250;

pub const PUNCH_DAMAGE: u32 = 8;

pub const KICK_DAMAGE: u32 = 14;

pub const PUNCH_COOLDOWN_MS: u64 = 450;

pub const KICK_COOLDOWN_MS: u64 = 800;

pub const PUNCH_WINDUP_MS: u64 = 180;

pub const KICK_WINDUP_MS: u64 = 250;

#[derive(Clone, Copy, PartialEq, Eq, Structural, Debug)]
pub enum AttackKind {
    Punch,
    Kick,
}

/// Short burst-movement override entered on a qualifying double-tap and
/// exited when its timer elapses.
#[derive(Clone, Copy, PartialEq, Eq, Structural, Debug)]
pub struct SlideState {
    pub sliding: bool,
    pub direction: Heading,
    pub timer: Timer,
}

/// Windup interpolation between two world positions captured when the
/// attack was triggered; spawns a hitbox on completion.
#[derive(Clone, Copy, PartialEq, Eq, Structural, Debug)]
pub struct AttackAnimationState {
    pub active: bool,
    pub kind: Option<AttackKind>,
    pub timer: Timer,
    pub start_pos: Vec3i,
    pub end_pos: Vec3i,
}

/// Three independent cooldown timers, each gating the re-trigger of its
/// move; ticked every frame regardless of attack state.
#[derive(Clone, Copy, PartialEq, Eq, Structural, Debug)]
pub struct AttackCooldowns {
    pub punch: Timer,
    pub kick: Timer,
    pub jump_kick: Timer,
}

#[derive(Clone, Copy, PartialEq, Eq, Structural, Debug)]
pub struct Player {
    pub id: usize,
    pub pos: Vec3i,
    pub vel: Vec3i,
    pub grounded: bool,
    pub health: Health,
    pub cooldowns: AttackCooldowns,
    pub slide: SlideState,
    pub attack: AttackAnimationState,
    /// Horizontal facing at scale 1000, recomputed toward the opponent
    /// every tick.
    pub facing: Heading,
}

pub open spec fn heading_wf(h: Heading) -> bool {
    -1000 <= h.x <= 1000 && -1000 <= h.z <= 1000
}

pub open spec fn anim_pos_wf(v: Vec3i) -> bool {
    &&& -200_000_000 <= v.x <= 200_000_000
    &&& -200_000_000 <= v.y <= 200_000_000
    &&& -200_000_000 <= v.z <= 200_000_000
}

impl Player {
    /// Everything well-formedness asks of a player apart from its vertical
    /// position, which is temporarily below ground between the velocity
    /// pass and the gravity/ground pass of the same tick.
    pub open spec fn wf_except_y(self) -> bool {
        &&& 0 <= self.pos.x <= ARENA_MAX_X
        &&& -ARENA_HALF_DEPTH <= self.pos.z <= ARENA_HALF_DEPTH
        &&& self.pos.y <= POS_Y_MAX
        &&& -500_000 <= self.vel.x <= 500_000
        &&& -500_000 <= self.vel.z <= 500_000
        &&& VEL_Y_FLOOR <= self.vel.y <= 0
        &&& self.health.wf()
        &&& self.cooldowns.punch.wf()
        &&& self.cooldowns.kick.wf()
        &&& self.cooldowns.jump_kick.wf()
        &&& self.slide.timer.wf()
        &&& heading_wf(self.slide.direction)
        &&& self.attack.timer.wf()
        &&& (self.attack.active ==> self.attack.kind is Some)
        &&& anim_pos_wf(self.attack.start_pos)
        &&& anim_pos_wf(self.attack.end_pos)
        &&& heading_wf(self.facing)
    }

    pub open spec fn wf(self) -> bool {
        self.wf_except_y() && 0 <= self.pos.y
    }

    /// The loose vertical bound that holds between the velocity pass and
    /// the gravity pass.
    pub open spec fn wf_mid_tick(self) -> bool {
        self.wf_except_y() && VEL_Y_FLOOR <= self.pos.y
    }
}

pub open spec fn attack_damage(kind: AttackKind) -> u32 {
    match kind {
        AttackKind::Punch => PUNCH_DAMAGE,
        AttackKind::Kick => KICK_DAMAGE,
    }
}

/// The player and the optionally spawned hitbox after one windup-animation
/// step: tick the windup timer, interpolate the hit position, and on the
/// tick the timer just finishes spawn exactly one hitbox and go idle.
pub open spec fn anim_step(p: Player, dt: u64, hb_id: u64) -> (Player, Option<Hitbox>) {
    if !p.attack.active {
        (p, None)
    } else {
        let t2 = p.attack.timer.ticked(dt);
        let frac = t2.spec_fraction_elapsed_permille();
        let hb_pos = spec_lerp3(p.attack.start_pos, p.attack.end_pos, frac);
        if t2.just_finished {
            let spawned = match p.attack.kind {
                Some(k) => Some(
                    Hitbox {
                        id: hb_id,
                        owner: p.id,
                        damage: attack_damage(k),
                        pos: hb_pos,
                        lifetime: Timer {
                            duration: HITBOX_LIFETIME_MS,
                            elapsed: 0,
                            just_finished: false,
                            mode: TimerMode::Once,
                        },
                    },
                ),
                None => None,
            };
            (
                Player {
                    attack: AttackAnimationState {
                        active: false,
                        kind: None,
                        timer: t2,
                        ..p.attack
                    },
                    ..p
                },
                spawned,
            )
        } else {
            (Player { attack: AttackAnimationState { timer: t2, ..p.attack }, ..p }, None)
        }
    }
}

pub fn attack_animation_update(p: &mut Player, dt: u64, hb_id: u64) -> (spawned: Option<Hitbox>)
    requires
        old(p).wf(),
        dt <= FRAME_MAX_MS,
    ensures
        (*final(p), spawned) == anim_step(*old(p), dt, hb_id),
        final(p).wf(),
        spawned matches Some(hb) ==> hb.owner == old(p).id && hb.damage
            <= crate::hitbox::HITBOX_DAMAGE_BOUND && hb.lifetime.wf() && anim_pos_wf(hb.pos),
{
    if !p.attack.active {
        return None;
    }
    p.attack.timer.tick(dt);
    let frac = p.attack.timer.fraction_elapsed_permille();
    let hb_pos = lerp3(p.attack.start_pos, p.attack.end_pos, frac);
    if p.attack.timer.is_just_finished() {
        let spawned = match p.attack.kind {
            Some(AttackKind::Punch) => Some(
                Hitbox {
                    id: hb_id,
                    owner: p.id,
                    damage: PUNCH_DAMAGE,
                    pos: hb_pos,
                    lifetime: Timer::new(HITBOX_LIFETIME_MS, TimerMode::Once),
                },
            ),
            Some(AttackKind::Kick) => Some(
                Hitbox {
                    id: hb_id,
                    owner: p.id,
                    damage: KICK_DAMAGE,
                    pos: hb_pos,
                    lifetime: Timer::new(HITBOX_LIFETIME_MS, TimerMode::Once),
                },
            ),
            None => None,
        };
        p.attack.active = false;
        p.attack.kind = None;
        spawned
    } else {
        None
    }
}

/// One slide-timer step: a sliding player's timer advances, and reaching
/// completion ends the slide.
pub open spec fn slide_step(p: Player, dt: u64) -> Player {
    if !p.slide.sliding {
        p
    } else {
        let t2 = p.slide.timer.ticked(dt);
        Player {
            slide: SlideState { sliding: !t2.spec_finished(), timer: t2, ..p.slide },
            ..p
        }
    }
}

pub fn slide_timer_update(p: &mut Player, dt: u64)
    requires
        old(p).wf(),
        dt <= FRAME_MAX_MS,
    ensures
        *final(p) == slide_step(*old(p), dt),
        final(p).wf(),
{
    if p.slide.sliding {
        p.slide.timer.tick(dt);
        if p.slide.timer.finished() {
            p.slide.sliding = false;
        }
    }
}

/// One velocity-integration step: every coordinate advances by
/// `vel * dt / 1000`, then x and z are clamped to the arena bounds.  The
/// vertical coordinate is resolved against the ground by the gravity pass.
pub open spec fn velocity_step(p: Player, dt: u64) -> Player {
    Player {
        pos: Vec3i {
            x: spec_clamp(
                p.pos.x + scale_toward_zero(p.vel.x as int, dt as int, 1000),
                0,
                ARENA_MAX_X as int,
            ) as i64,
            y: (p.pos.y + scale_toward_zero(p.vel.y as int, dt as int, 1000)) as i64,
            z: spec_clamp(
                p.pos.z + scale_toward_zero(p.vel.z as int, dt as int, 1000),
                -ARENA_HALF_DEPTH as int,
                ARENA_HALF_DEPTH as int,
            ) as i64,
        },
        ..p
    }
}

pub fn apply_velocity(p: &mut Player, dt: u64)
    requires
        old(p).wf(),
        dt <= FRAME_MAX_MS,
    ensures
        *final(p) == velocity_step(*old(p), dt),
        final(p).wf_mid_tick(),
        final(p).pos.y <= old(p).pos.y,
{
    proof {
        lemma_scale_magnitude(p.vel.x as int, dt as int, 1000);
        lemma_scale_magnitude(p.vel.y as int, dt as int, 1000);
        lemma_scale_magnitude(p.vel.z as int, dt as int, 1000);
        assert(-100_000_000 <= p.vel.x * dt <= 100_000_000) by (nonlinear_arith)
            requires
                -500_000 <= p.vel.x <= 500_000 && 0 <= dt <= 200,
        ;
        assert(-100_000_000 <= p.vel.z * dt <= 100_000_000) by (nonlinear_arith)
            requires
                -500_000 <= p.vel.z <= 500_000 && 0 <= dt <= 200,
        ;
        assert(-200_000_000_000_000 <= p.vel.y * dt <= 200_000_000_000_000) by (nonlinear_arith)
            requires
                -1_000_000_000_000 <= p.vel.y <= 0 && 0 <= dt <= 200,
        ;
    }
    let sx = scale_i64(p.vel.x, dt, 1000);
    let sy = scale_i64(p.vel.y, dt, 1000);
    let sz = scale_i64(p.vel.z, dt, 1000);
    p.pos.x = clamp_i64(p.pos.x + sx, 0, ARENA_MAX_X);
    p.pos.y = p.pos.y + sy;
    p.pos.z = clamp_i64(p.pos.z + sz, -ARENA_HALF_DEPTH, ARENA_HALF_DEPTH);
}

/// One gravity and ground-resolution step: vertical velocity takes constant
/// downward acceleration (saturating at a machine-limit floor), vertical
/// position integrates it, and touching or crossing the ground plane clamps
/// the position, zeroes vertical velocity and sets the grounded flag.
pub open spec fn gravity_step(p: Player, dt: u64) -> Player {
    let nvy = if p.vel.y - GRAVITY_PER_MS * dt >= VEL_Y_FLOOR {
        p.vel.y - GRAVITY_PER_MS * dt
    } else {
        VEL_Y_FLOOR as int
    };
    let ny = p.pos.y + scale_toward_zero(nvy, dt as int, 1000);
    if ny <= 0 {
        Player {
            pos: Vec3i { y: 0, ..p.pos },
            vel: Vec3i { y: 0, ..p.vel },
            grounded: true,
            ..p
        }
    } else {
        Player {
            pos: Vec3i { y: ny as i64, ..p.pos },
            vel: Vec3i { y: nvy as i64, ..p.vel },
            ..p
        }
    }
}

pub fn gravity_and_ground(p: &mut Player, dt: u64)
    requires
        old(p).wf_mid_tick(),
        dt <= FRAME_MAX_MS,
    ensures
        *final(p) == gravity_step(*old(p), dt),
        final(p).wf(),
{
    let dv = GRAVITY_PER_MS * (dt as i64);
    let nvy = if p.vel.y - dv >= VEL_Y_FLOOR {
        p.vel.y - dv
    } else {
        VEL_Y_FLOOR
    };
    proof {
        lemma_scale_magnitude(nvy as int, dt as int, 1000);
        assert(-300_000_000_000_000 <= nvy * dt <= 300_000_000_000_000) by (nonlinear_arith)
            requires
                -1_000_000_000_001 <= nvy <= 0 && 0 <= dt <= 200,
        ;
    }
    let step = scale_i64(nvy, dt, 1000);
    let ny = p.pos.y + step;
    if ny <= 0 {
        p.pos.y = 0;
        p.vel.y = 0;
        p.grounded = true;
    } else {
        p.pos.y = ny;
        p.vel.y = nvy;
    }
}

/// One cooldown step: all three move cooldowns advance.
pub open spec fn cooldown_step(p: Player, dt: u64) -> Player {
    Player {
        cooldowns: AttackCooldowns {
            punch: p.cooldowns.punch.ticked(dt),
            kick: p.cooldowns.kick.ticked(dt),
            jump_kick: p.cooldowns.jump_kick.ticked(dt),
        },
        ..p
    }
}

pub fn tick_cooldowns(p: &mut Player, dt: u64)
    requires
        old(p).wf(),
        dt <= FRAME_MAX_MS,
    ensures
        *final(p) == cooldown_step(*old(p), dt),
        final(p).wf(),
{
    p.cooldowns.punch.tick(dt);
    p.cooldowns.kick.tick(dt);
    p.cooldowns.jump_kick.tick(dt);
}

} // verus!
