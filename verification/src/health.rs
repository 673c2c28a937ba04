//! Clamped health state.  Damage saturates at zero, so `0 <= current <= max`
//! holds at every tick; collaborators that draw health bars consume the
//! normalized ratio and never write back.

use vstd::prelude::*;

verus! {

/// Largest maximum health the model accepts.
pub const HEALTH_MAX_BOUND: u32 = 1_000_000;

#[derive(Clone, Copy, PartialEq, Eq, Structural, Debug)]
pub struct Health {
    pub current: u32,
    pub max: u32,
}

impl Health {
    pub open spec fn wf(self) -> bool {
        &&& 1 <= self.max <= HEALTH_MAX_BOUND
        &&& self.current <= self.max
    }

    /// Health after taking `amount` damage, clamped so it never drops below
    /// zero.  The amount is a mathematical value so that the total of many
    /// overlapping hits in one tick can be stated in one step.
    pub open spec fn drained(self, amount: int) -> Health {
        Health {
            current: if amount >= self.current {
                0
            } else {
                (self.current - amount) as u32
            },
            ..self
        }
    }

    pub fn new(max: u32) -> (h: Health)
        requires
            1 <= max <= HEALTH_MAX_BOUND,
        ensures
            h == (Health { current: max, max }),
            h.wf(),
    {
        Health { current: max, max }
    }

    /// Subtract damage, clamping at zero.
    pub fn apply_damage(&mut self, amount: u32)
        requires
            old(self).wf(),
        ensures
            *final(self) == old(self).drained(amount as int),
            final(self).wf(),
            final(self).current <= old(self).current,
    {
        if amount >= self.current {
            self.current = 0;
        } else {
            self.current = self.current - amount;
        }
    }

    /// The normalized health ratio at scale 1000: `current / max` in
    /// [0, 1000].  Health-bar collaborators consume this value (the 2D
    /// overlay divides it by ten for a percentage).
    pub fn ratio_permille(&self) -> (r: u32)
        requires
            self.wf(),
        ensures
            r == (self.current * 1000) / (self.max as int),
            r <= 1000,
    {
        proof {
            assert(self.current * 1000 <= self.max * 1000) by (nonlinear_arith)
                requires
                    self.current <= self.max,
            ;
            assert((self.current * 1000) as int / (self.max as int) <= 1000) by (nonlinear_arith)
                requires
                    self.max > 0 && self.current * 1000 <= self.max * 1000,
            ;
            assert(self.max * 1000 <= 1_000_000_000) by (nonlinear_arith)
                requires
                    self.max <= 1_000_000,
            ;
        }
        (self.current * 1000) / self.max
    }
}

/// Draining is cumulative: two clamped hits in sequence drain exactly the
/// clamped total, so overlapping hits within one tick can never push health
/// below zero or past its true total.
pub proof fn lemma_drained_accumulates(h: Health, a: int, b: int)
    requires
        a >= 0,
        b >= 0,
    ensures
        h.drained(a).drained(b) == h.drained(a + b),
{
}

/// Health never leaves `[0, max]`: the well-formedness every constructor
/// establishes and every mutation preserves.
pub proof fn lemma_health_in_bounds(h: Health, amount: int)
    requires
        h.wf(),
        amount >= 0,
    ensures
        0 <= h.drained(amount).current <= h.drained(amount).max,
        h.drained(amount).wf(),
{
}

} // verus!
