//! The player's level within a run: experience collected, the level reached
//! and the experience needed for the next one.
use vstd::prelude::*;

verus! {

/// The experience needed for the level after one that needed `t`: `t`
/// times 1.5, rounded up, held to `u128::MAX`. The product is exact for
/// every `t`, where binary floating point, with 53 bits of mantissa, would
/// first round `3t / 2` once `t` passes 2^53 / 3.
pub open spec fn next_xp_to_level(t: int) -> int {
    if t + (t + 1) / 2 > u128::MAX { u128::MAX as int } else { t + (t + 1) / 2 }
}

/// The share of `xp` in `t` as a whole percentage, rounded down and held to
/// 100. The quotient is exact: 29 of 100 is 29 percent, where a binary
/// floating-point quotient times 100 lands just below 29 and would round
/// down to 28.
pub open spec fn progress_percent(xp: int, t: int) -> int {
    if 100 * xp / t > 100 { 100 } else { 100 * xp / t }
}

pub struct Level {
    xp: u128,
    level: i32,
    xp_to_level: u128,
}

impl Level {
    /// The experience collected towards the next level.
    pub closed spec fn xp(&self) -> int {
        self.xp as int
    }

    /// The level reached.
    pub closed spec fn level(&self) -> int {
        self.level as int
    }

    /// The experience needed for the next level.
    pub closed spec fn xp_to_level(&self) -> int {
        self.xp_to_level as int
    }

    #[verifier::type_invariant]
    closed spec fn wf(&self) -> bool {
        self.xp_to_level >= 100
    }

    /// A level 0 with no experience, needing 100 for the next level.
    pub fn new() -> (res: Level)
        ensures
            res.xp() == 0,
            res.level() == 0,
            res.xp_to_level() == 100,
    {
        Level { xp: 0, level: 0, xp_to_level: 100 }
    }

    /// Adds experience, held at `u128::MAX`.
    pub fn add_xp(&mut self, xp: u128)
        ensures
            final(self).xp() == if old(self).xp() + xp > u128::MAX {
                u128::MAX as int
            } else {
                old(self).xp() + xp
            },
            final(self).level() == old(self).level(),
            final(self).xp_to_level() == old(self).xp_to_level(),
    {
        proof { use_type_invariant(&*self); }
        self.xp = self.xp.saturating_add(xp);
    }

    /// The level reached.
    pub fn get_level(&self) -> (res: i32)
        ensures
            res == self.level(),
    {
        self.level
    }

    /// Levels up once the experience reaches what the level needs: the level
    /// goes up by one, the experience goes back to 0 and the next level needs
    /// half as much again, rounded up. Returns the new level, or `None` where
    /// the experience falls short.
    pub fn update(&mut self) -> (res: Option<i32>)
        requires
            old(self).xp() >= old(self).xp_to_level() ==> old(self).level() < i32::MAX,
        ensures
            old(self).xp() >= old(self).xp_to_level() ==> {
                &&& final(self).level() == old(self).level() + 1
                &&& final(self).xp() == 0
                &&& final(self).xp_to_level() == next_xp_to_level(old(self).xp_to_level())
                &&& res == Some(final(self).level() as i32)
            },
            old(self).xp() < old(self).xp_to_level() ==> {
                &&& *final(self) == *old(self)
                &&& res is None
            },
    {
        proof { use_type_invariant(&*self); }
        if self.xp >= self.xp_to_level {
            let t = self.xp_to_level;
            let half = t / 2 + t % 2;
            let next = if t > u128::MAX - half { u128::MAX } else { t + half };
            self.level = self.level + 1;
            self.xp = 0;
            self.xp_to_level = next;
            Some(self.level)
        } else {
            None
        }
    }

    /// The share of the needed experience collected so far, as a whole
    /// percentage rounded down and held to 100.
    pub fn get_progress_percentage(&self) -> (res: u16)
        ensures
            res == progress_percent(self.xp(), self.xp_to_level()),
    {
        proof { use_type_invariant(self); }
        let t = self.xp_to_level;
        if self.xp >= t {
            proof {
                assert(100 * self.xp() / (t as int) >= 100) by (nonlinear_arith)
                    requires self.xp() >= t, t > 0;
            }
            return 100;
        }
        let r = self.xp;
        // Adds `r` a hundred times modulo `t`, counting the wraps.
        let mut k: u128 = 0;
        let mut acc: u128 = 0;
        let mut i: u128 = 0;
        while i < 100
            invariant
                t == self.xp_to_level(),
                r == self.xp(),
                r < t,
                i <= 100,
                acc < t,
                k <= i,
                k * t + acc == i * r,
            decreases 100 - i,
        {
            let ghost k0 = k as int;
            let ghost a0 = acc as int;
            if acc >= t - r {
                acc = acc - (t - r);
                k = k + 1;
                assert((k0 + 1) * t == k0 * t + t) by (nonlinear_arith);
                assert((i + 1) * r == i * r + r) by (nonlinear_arith);
            } else {
                acc = acc + r;
                assert((i + 1) * r == i * r + r) by (nonlinear_arith);
            }
            i = i + 1;
        }
        proof {
            vstd::arithmetic::div_mod::lemma_fundamental_div_mod_converse(100 * r as int, t as int, k as int, acc as int);
        }
        k as u16
    }
}

impl Default for Level {
    fn default() -> (res: Level)
        ensures
            res.xp() == 0,
            res.level() == 0,
            res.xp_to_level() == 100,
    {
        Level::new()
    }
}

} // verus!
