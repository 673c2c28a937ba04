//! Transient damage volumes and their lifecycle: lifetime decay every tick,
//! collision against the opposing player, clamped health mutation, and the
//! at-most-one-hit guarantee (a hitbox that registers a hit is destroyed the
//! same tick and can damage neither a second target nor the same target
//! twice; it never damages its own owner).

use vstd::prelude::*;
use crate::math::{Vec3i, spec_dist_sq, dist_sq};
use crate::timer::Timer;
use crate::player::Player;

verus! {

/// A hit connects when the distance between hitbox and candidate is below
/// 60 world units (60_000 milli-units); this is that radius squared.
pub const HIT_RADIUS_SQ: i64 = 3_600_000_000;

/// Lifetime of a spawned hit volume, in milliseconds.
pub const HITBOX_LIFETIME_MS: u64 = 120;

/// Bound on hitbox coordinates: a spawn position interpolates between two
/// windup endpoints, both near a player, so it stays far inside this.
pub const HITBOX_COORD_BOUND: i64 = 200_000_000;

/// Bound on the damage a single hitbox carries.
pub const HITBOX_DAMAGE_BOUND: u32 = 1_000_000;

#[derive(Clone, Copy, PartialEq, Eq, Structural, Debug)]
pub struct Hitbox {
    /// Stable identity of this hit volume, used by the visual-sync plan to
    /// correlate renderables with live volumes.
    pub id: u64,
    /// Identity of the attacking player; a correlation id, never an
    /// ownership relation.
    pub owner: usize,
    pub damage: u32,
    pub pos: Vec3i,
    pub lifetime: Timer,
}

impl Hitbox {
    pub open spec fn wf(self) -> bool {
        &&& (self.owner == 1 || self.owner == 2)
        &&& self.damage <= HITBOX_DAMAGE_BOUND
        &&& self.lifetime.wf()
        &&& -HITBOX_COORD_BOUND <= self.pos.x <= HITBOX_COORD_BOUND
        &&& -HITBOX_COORD_BOUND <= self.pos.y <= HITBOX_COORD_BOUND
        &&& -HITBOX_COORD_BOUND <= self.pos.z <= HITBOX_COORD_BOUND
    }
}

pub open spec fn hitboxes_wf(hbs: Seq<Hitbox>) -> bool {
    forall|i: int| 0 <= i < hbs.len() ==> #[trigger] hbs[i].wf()
}

/// The hit volume is within striking distance of the candidate's position.
pub open spec fn in_range(hb_pos: Vec3i, p_pos: Vec3i) -> bool {
    spec_dist_sq(hb_pos, p_pos) < HIT_RADIUS_SQ
}

/// A hitbox registers a hit on a player exactly when the player is not its
/// owner and stands within striking distance.
pub open spec fn hits_player(hb: Hitbox, p: Player) -> bool {
    hb.owner != p.id && in_range(hb.pos, p.pos)
}

/// Total damage a set of hitboxes deals to one player this tick.
pub open spec fn damage_to(hbs: Seq<Hitbox>, p: Player) -> int
    decreases hbs.len(),
{
    if hbs.len() == 0 {
        0
    } else {
        damage_to(hbs.drop_last(), p) + if hits_player(hbs.last(), p) {
            hbs.last().damage as int
        } else {
            0
        }
    }
}

/// The hitboxes that survive damage resolution: exactly those that hit
/// neither player.  A hitbox that registered a hit is destroyed.
pub open spec fn surviving(hbs: Seq<Hitbox>, p1: Player, p2: Player) -> Seq<Hitbox>
    decreases hbs.len(),
{
    if hbs.len() == 0 {
        Seq::empty()
    } else {
        let rest = surviving(hbs.drop_last(), p1, p2);
        if !hits_player(hbs.last(), p1) && !hits_player(hbs.last(), p2) {
            rest.push(hbs.last())
        } else {
            rest
        }
    }
}

/// The hitboxes after one lifetime step: every lifetime timer advances and
/// the volumes whose timer finished are destroyed, whether or not they ever
/// connected.
pub open spec fn after_decay(hbs: Seq<Hitbox>, dt: u64) -> Seq<Hitbox>
    decreases hbs.len(),
{
    if hbs.len() == 0 {
        Seq::empty()
    } else {
        let rest = after_decay(hbs.drop_last(), dt);
        let aged = Hitbox { lifetime: hbs.last().lifetime.ticked(dt), ..hbs.last() };
        if aged.lifetime.spec_finished() {
            rest
        } else {
            rest.push(aged)
        }
    }
}

pub proof fn lemma_damage_to_push(hbs: Seq<Hitbox>, hb: Hitbox, p: Player)
    ensures
        damage_to(hbs.push(hb), p) == damage_to(hbs, p) + if hits_player(hb, p) {
            hb.damage as int
        } else {
            0
        },
{
    assert(hbs.push(hb).drop_last() =~= hbs);
}

pub proof fn lemma_surviving_push(hbs: Seq<Hitbox>, hb: Hitbox, p1: Player, p2: Player)
    ensures
        surviving(hbs.push(hb), p1, p2) == if !hits_player(hb, p1) && !hits_player(hb, p2) {
            surviving(hbs, p1, p2).push(hb)
        } else {
            surviving(hbs, p1, p2)
        },
{
    assert(hbs.push(hb).drop_last() =~= hbs);
}

pub proof fn lemma_after_decay_push(hbs: Seq<Hitbox>, hb: Hitbox, dt: u64)
    ensures
        after_decay(hbs.push(hb), dt) == ({
            let aged = Hitbox { lifetime: hb.lifetime.ticked(dt), ..hb };
            if aged.lifetime.spec_finished() {
                after_decay(hbs, dt)
            } else {
                after_decay(hbs, dt).push(aged)
            }
        }),
{
    assert(hbs.push(hb).drop_last() =~= hbs);
}

/// Advance every hitbox's lifetime and destroy the expired ones.
#[verifier::loop_isolation(false)]
pub fn lifetime_pass(hitboxes: &mut Vec<Hitbox>, dt: u64)
    requires
        hitboxes_wf(old(hitboxes)@),
        dt <= crate::player::FRAME_MAX_MS,
    ensures
        final(hitboxes)@ == after_decay(old(hitboxes)@, dt),
        hitboxes_wf(final(hitboxes)@),
{
    let ghost hbs0 = hitboxes@;
    let mut kept: Vec<Hitbox> = Vec::new();
    let mut i: usize = 0;
    assert(hbs0.take(0) =~= Seq::<Hitbox>::empty());
    while i < hitboxes.len()
        invariant
            i <= hbs0.len(),
            hitboxes@ == hbs0,
            kept@ == after_decay(hbs0.take(i as int), dt),
            hitboxes_wf(kept@),
        decreases hbs0.len() - i,
    {
        proof {
            assert(hbs0[i as int].wf());
        }
        let mut hb = hitboxes[i];
        hb.lifetime.tick(dt);
        proof {
            assert(hbs0.take(i + 1) =~= hbs0.take(i as int).push(hbs0[i as int]));
            lemma_after_decay_push(hbs0.take(i as int), hbs0[i as int], dt);
        }
        if !hb.lifetime.finished() {
            kept.push(hb);
        }
        i = i + 1;
    }
    proof {
        assert(hbs0.take(hbs0.len() as int) =~= hbs0);
    }
    *hitboxes = kept;
}

/// Resolve damage for one tick: every live hitbox is tested against every
/// player except its owner; a connecting hitbox drains the candidate's
/// health (clamped at zero) and is destroyed immediately, so it can hit at
/// most once and never hits its own owner.
#[verifier::loop_isolation(false)]
pub fn damage_pass(hitboxes: &mut Vec<Hitbox>, p1: &mut Player, p2: &mut Player)
    requires
        hitboxes_wf(old(hitboxes)@),
        old(p1).wf(),
        old(p2).wf(),
        old(p1).id == 1,
        old(p2).id == 2,
    ensures
        final(hitboxes)@ == surviving(old(hitboxes)@, *old(p1), *old(p2)),
        hitboxes_wf(final(hitboxes)@),
        *final(p1) == (Player {
            health: old(p1).health.drained(damage_to(old(hitboxes)@, *old(p1))),
            ..*old(p1)
        }),
        *final(p2) == (Player {
            health: old(p2).health.drained(damage_to(old(hitboxes)@, *old(p2))),
            ..*old(p2)
        }),
        final(p1).wf(),
        final(p2).wf(),
{
    let ghost hbs0 = hitboxes@;
    let ghost q1 = *p1;
    let ghost q2 = *p2;
    let mut kept: Vec<Hitbox> = Vec::new();
    let mut i: usize = 0;
    assert(hbs0.take(0) =~= Seq::<Hitbox>::empty());
    while i < hitboxes.len()
        invariant
            i <= hbs0.len(),
            hitboxes@ == hbs0,
            kept@ == surviving(hbs0.take(i as int), q1, q2),
            hitboxes_wf(kept@),
            *p1 == (Player { health: q1.health.drained(damage_to(hbs0.take(i as int), q1)), ..q1 }),
            *p2 == (Player { health: q2.health.drained(damage_to(hbs0.take(i as int), q2)), ..q2 }),
        decreases hbs0.len() - i,
    {
        let hb = hitboxes[i];
        proof {
            assert(hbs0[i as int].wf());
            assert(hbs0.take(i + 1) =~= hbs0.take(i as int).push(hbs0[i as int]));
            lemma_damage_to_push(hbs0.take(i as int), hbs0[i as int], q1);
            lemma_damage_to_push(hbs0.take(i as int), hbs0[i as int], q2);
            lemma_surviving_push(hbs0.take(i as int), hbs0[i as int], q1, q2);
            lemma_damage_to_nonneg(hbs0.take(i as int), q1);
            lemma_damage_to_nonneg(hbs0.take(i as int), q2);
            crate::health::lemma_drained_accumulates(
                q1.health,
                damage_to(hbs0.take(i as int), q1),
                if hits_player(hbs0[i as int], q1) {
                    hbs0[i as int].damage as int
                } else {
                    0
                },
            );
            crate::health::lemma_drained_accumulates(
                q2.health,
                damage_to(hbs0.take(i as int), q2),
                if hits_player(hbs0[i as int], q2) {
                    hbs0[i as int].damage as int
                } else {
                    0
                },
            );
        }
        if hb.owner != p1.id && dist_sq(hb.pos, p1.pos) < HIT_RADIUS_SQ {
            p1.health.apply_damage(hb.damage);
        } else if hb.owner != p2.id && dist_sq(hb.pos, p2.pos) < HIT_RADIUS_SQ {
            p2.health.apply_damage(hb.damage);
        } else {
            kept.push(hb);
        }
        i = i + 1;
    }
    proof {
        assert(hbs0.take(hbs0.len() as int) =~= hbs0);
        lemma_damage_to_nonneg(hbs0, q1);
        lemma_damage_to_nonneg(hbs0, q2);
    }
    *hitboxes = kept;
}

pub proof fn lemma_damage_to_nonneg(hbs: Seq<Hitbox>, p: Player)
    ensures
        damage_to(hbs, p) >= 0,
    decreases hbs.len(),
{
    if hbs.len() > 0 {
        lemma_damage_to_nonneg(hbs.drop_last(), p);
    }
}

/// No survivor of damage resolution registered a hit: whatever connects is
/// destroyed that same tick.
pub proof fn lemma_surviving_never_hits(hbs: Seq<Hitbox>, p1: Player, p2: Player)
    ensures
        forall|j: int|
            0 <= j < surviving(hbs, p1, p2).len() ==> !hits_player(
                #[trigger] surviving(hbs, p1, p2)[j],
                p1,
            ) && !hits_player(surviving(hbs, p1, p2)[j], p2),
    decreases hbs.len(),
{
    if hbs.len() > 0 {
        lemma_surviving_never_hits(hbs.drop_last(), p1, p2);
        let rest = surviving(hbs.drop_last(), p1, p2);
        let s = surviving(hbs, p1, p2);
        assert forall|j: int| 0 <= j < s.len() implies !hits_player(#[trigger] s[j], p1)
            && !hits_player(s[j], p2) by {
            if !hits_player(hbs.last(), p1) && !hits_player(hbs.last(), p2) {
                assert(s == rest.push(hbs.last()));
                if j < rest.len() {
                    assert(s[j] == rest[j]);
                }
            } else {
                assert(s == rest);
            }
        }
    }
}

/// A hitbox hits at most once: one that registers a hit on either player is
/// removed by damage resolution and cannot register a second hit.
pub proof fn lemma_hit_at_most_once(hbs: Seq<Hitbox>, p1: Player, p2: Player, hb: Hitbox)
    requires
        hits_player(hb, p1) || hits_player(hb, p2),
    ensures
        !surviving(hbs, p1, p2).contains(hb),
{
    lemma_surviving_never_hits(hbs, p1, p2);
    if surviving(hbs, p1, p2).contains(hb) {
        let j = choose|j: int|
            0 <= j < surviving(hbs, p1, p2).len() && surviving(hbs, p1, p2)[j] == hb;
    }
}

/// A hitbox never damages its own owner: a set of hitboxes all owned by a
/// player deals that player no damage at all.
pub proof fn lemma_no_self_damage(hbs: Seq<Hitbox>, p: Player)
    requires
        forall|i: int| 0 <= i < hbs.len() ==> #[trigger] hbs[i].owner == p.id,
    ensures
        damage_to(hbs, p) == 0,
    decreases hbs.len(),
{
    if hbs.len() > 0 {
        lemma_no_self_damage(hbs.drop_last(), p);
    }
}

} // verus!
