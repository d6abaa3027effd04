//! Fixed-precision prices.
//!
//! A [`Price`] counts atomic units, [`PRICE_SCALE`] of which make one whole
//! unit of the quote currency. All arithmetic is on integers: it rounds or
//! saturates where the exact result cannot be represented, and the contracts
//! say which.

use vstd::arithmetic::div_mod::{
    lemma_fundamental_div_mod, lemma_mod_add_multiples_vanish, lemma_mod_multiples_basic,
    lemma_mod_bound,
};
use vstd::prelude::*;

verus! {

/// Atomic units in one whole unit of price or quantity.
pub const PRICE_SCALE: i64 = 100_000_000;

/// A price in atomic units.
#[derive(Clone, Copy, Debug, PartialEq, Eq, Structural, PartialOrd, Ord, Hash)]
pub struct Price {
    pub units: i64,
}

/// The smallest price increment of an instrument, in atomic units.
///
/// A tick of one unit or less leaves every price as it is.
#[derive(Clone, Copy, Debug, PartialEq, Eq, Structural, Hash)]
pub struct MinTicksize {
    pub units: i64,
}

/// The multiple of `t` nearest to `p`, ties going up.
///
/// Where that multiple lies outside the range of `i64` the neighbouring
/// multiple on the other side of `p` is taken instead, so the result is a
/// multiple of `t` whenever `t > 1`.
pub open spec fn round_to_tick(p: int, t: int) -> int {
    if t <= 1 {
        p
    } else {
        let r = p % t;
        let lo = p - r;
        let hi = lo + t;
        if r == 0 {
            p
        } else if 2 * r >= t {
            if hi <= i64::MAX {
                hi
            } else {
                lo
            }
        } else {
            if lo >= i64::MIN {
                lo
            } else {
                hi
            }
        }
    }
}

/// `v` limited to the range of `i64`.
pub open spec fn clamp_i64(v: int) -> int {
    if v > i64::MAX {
        i64::MAX as int
    } else if v < i64::MIN {
        i64::MIN as int
    } else {
        v
    }
}

/// The rounded value is a multiple of the tick, lies in the range of `i64`,
/// and is less than one tick away from the price.
pub proof fn lemma_round_to_tick_bounds(p: int, t: int)
    requires
        i64::MIN <= p <= i64::MAX,
        1 < t <= i64::MAX,
    ensures
        round_to_tick(p, t) % t == 0,
        i64::MIN <= round_to_tick(p, t) <= i64::MAX,
        p - t < round_to_tick(p, t) < p + t,
{
    let r = p % t;
    let q = p / t;
    lemma_fundamental_div_mod(p, t);
    lemma_mod_bound(p, t);
    let lo = p - r;
    assert(lo == q * t) by (nonlinear_arith)
        requires
            p == t * q + r,
            lo == p - r,
    ;
    lemma_mod_multiples_basic(q, t);
    lemma_mod_add_multiples_vanish(lo, t);
    assert((lo + t) % t == 0);
}

/// Rounding to the tick is idempotent: a rounded price rounds to itself.
pub proof fn lemma_round_to_tick_idempotent(p: int, t: int)
    requires
        i64::MIN <= p <= i64::MAX,
        t <= i64::MAX,
    ensures
        round_to_tick(round_to_tick(p, t), t) == round_to_tick(p, t),
{
    if t > 1 {
        lemma_round_to_tick_bounds(p, t);
    }
}

/// Rounding a price to the tick twice gives what rounding it once gives,
/// whatever the price and the tick.
pub proof fn lemma_rounding_idempotent(price: Price, tick: MinTicksize)
    ensures
        price.rounded(tick).rounded(tick) == price.rounded(tick),
{
    lemma_round_to_tick_idempotent(price.units as int, tick.units as int);
    if tick.units > 1 {
        lemma_round_to_tick_bounds(price.units as int, tick.units as int);
    }
}

/// A price that is already a multiple of the tick is left unchanged.
pub proof fn lemma_round_to_tick_fixes_multiples(p: int, t: int)
    requires
        t > 1 ==> p % t == 0,
    ensures
        round_to_tick(p, t) == p,
{
}

impl Price {
    /// The price rounded to the nearest multiple of the tick size.
    pub open spec fn rounded(self, tick: MinTicksize) -> Price {
        Price { units: round_to_tick(self.units as int, tick.units as int) as i64 }
    }

    /// The price of `units` atomic units.
    pub fn from_units(units: i64) -> (r: Price)
        ensures
            r.units == units,
    {
        Price { units }
    }

    /// Rounds to the nearest multiple of the tick size, ties going up.
    pub fn round_to_min_tick(self, tick: MinTicksize) -> (r: Price)
        ensures
            r.units == round_to_tick(self.units as int, tick.units as int),
            r == self.rounded(tick),
    {
        let t: i64 = tick.units;
        let p: i64 = self.units;
        if t <= 1 {
            return self;
        }
        let r: i64 = match p.checked_rem_euclid(t) {
            Some(r) => r,
            None => 0,
        };
        proof {
            lemma_mod_bound(p as int, t as int);
            lemma_round_to_tick_bounds(p as int, t as int);
        }
        if r == 0 {
            return self;
        }
        // `p - r` and `p - r + t` are the two neighbouring multiples; where
        // the nearer one cannot be represented the other one can.
        let units: i64 = if r >= t - r {
            match p.checked_add(t - r) {
                Some(hi) => hi,
                None => p - r,
            }
        } else {
            match p.checked_sub(r) {
                Some(lo) => lo,
                None => p + (t - r),
            }
        };
        Price { units }
    }

    /// The sum of two prices, limited to the representable range.
    pub fn saturating_add(self, other: Price) -> (r: Price)
        ensures
            r.units == clamp_i64(self.units + other.units),
    {
        let units: i64 = match self.units.checked_add(other.units) {
            Some(s) => s,
            None => if self.units > 0 {
                i64::MAX
            } else {
                i64::MIN
            },
        };
        Price { units }
    }

    /// The average of two prices, rounded down to a whole atomic unit.
    pub fn midpoint(self, other: Price) -> (r: Price)
        ensures
            r.units == (self.units + other.units) / 2,
    {
        let a: i128 = self.units as i128;
        let b: i128 = other.units as i128;
        let s: i128 = a + b;
        let h: i128 = match s.checked_div_euclid(2) {
            Some(h) => h,
            None => 0,
        };
        Price { units: h as i64 }
    }
}

} // verus!
