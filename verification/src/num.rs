//! Exact integer helpers shared by the geometry code: truncating division,
//! clamping, multiplication bounds, and fractions with a positive denominator
//! compared by cross-multiplication.

use vstd::prelude::*;

verus! {

/// Magnitude of an integer.
pub open spec fn absi(c: int) -> int {
    if c < 0 {
        -c
    } else {
        c
    }
}

/// Division rounding toward zero: the rule by which exact rational results are
/// quantised onto the integer grid.
pub open spec fn div_tz(a: int, b: int) -> int {
    if (a >= 0) == (b >= 0) {
        (vstd::math::abs(a) / vstd::math::abs(b)) as int
    } else {
        -((vstd::math::abs(a) / vstd::math::abs(b)) as int)
    }
}

/// Truncating division for machine integers.
pub fn div_trunc(a: i128, b: i128) -> (r: i128)
    requires
        b != 0,
        a > i128::MIN,
        b > i128::MIN,
    ensures
        r == div_tz(a as int, b as int),
{
    let na: u128 = if a >= 0 {
        a as u128
    } else {
        (-a) as u128
    };
    let nb: u128 = if b >= 0 {
        b as u128
    } else {
        (-b) as u128
    };
    let q: u128 = na / nb;
    proof {
        vstd::arithmetic::div_mod::lemma_div_nonincreasing(na as int, nb as int);
        vstd::arithmetic::div_mod::lemma_div_pos_is_pos(na as int, nb as int);
    }
    if (a >= 0) == (b >= 0) {
        q as i128
    } else {
        -(q as i128)
    }
}

/// Clamping into the symmetric interval `[-lim, lim]`.
pub open spec fn clamp_s(v: int, lim: int) -> int {
    if v < -lim {
        -lim
    } else if v > lim {
        lim
    } else {
        v
    }
}

pub fn clamp128(v: i128, lim: i64) -> (r: i64)
    requires
        lim > 0,
    ensures
        r == clamp_s(v as int, lim as int),
{
    if v < -(lim as i128) {
        -lim
    } else if v > lim as i128 {
        lim
    } else {
        v as i64
    }
}

/// |a| <= aa and |b| <= bb bound the product |a * b| by aa * bb.
pub proof fn lemma_mul_le(a: int, b: int, aa: int, bb: int)
    by (nonlinear_arith)
    requires
        -aa <= a <= aa,
        -bb <= b <= bb,
    ensures
        -(aa * bb) <= a * b <= aa * bb,
{
}

/// A truncated quotient never exceeds the dividend in magnitude.
pub proof fn lemma_div_tz_bound(a: int, b: int)
    requires
        b != 0,
    ensures
        0 <= (vstd::math::abs(a) / vstd::math::abs(b)) as int <= vstd::math::abs(a) as int,
        -(vstd::math::abs(a) as int) <= div_tz(a, b) <= vstd::math::abs(a) as int,
{
    vstd::arithmetic::div_mod::lemma_div_nonincreasing(
        vstd::math::abs(a) as int,
        vstd::math::abs(b) as int,
    );
    vstd::arithmetic::div_mod::lemma_div_pos_is_pos(
        vstd::math::abs(a) as int,
        vstd::math::abs(b) as int,
    );
}

/// Each product of a component-wise dot is bounded by `aa * bb`, and the sum
/// by `3 * aa * bb`.
pub proof fn lemma_dot_bounds(a0: int, a1: int, a2: int, b0: int, b1: int, b2: int, aa: int, bb: int)
    requires
        0 <= aa,
        0 <= bb,
        -aa <= a0 <= aa,
        -aa <= a1 <= aa,
        -aa <= a2 <= aa,
        -bb <= b0 <= bb,
        -bb <= b1 <= bb,
        -bb <= b2 <= bb,
    ensures
        -(aa * bb) <= a0 * b0 <= aa * bb,
        -(aa * bb) <= a1 * b1 <= aa * bb,
        -(aa * bb) <= a2 * b2 <= aa * bb,
        -(3 * (aa * bb)) <= a0 * b0 + a1 * b1 + a2 * b2 <= 3 * (aa * bb),
{
    lemma_mul_le(a0, b0, aa, bb);
    lemma_mul_le(a1, b1, aa, bb);
    lemma_mul_le(a2, b2, aa, bb);
}

/// An exact fraction `n / d` with `d > 0`. Ray-triangle hits report their
/// barycentric weights and squared distance in this form, so comparisons and
/// sign tests are exact integer arithmetic.
#[derive(Clone, Copy, Debug)]
pub struct Frac {
    pub n: i128,
    pub d: i128,
}

impl Frac {
    pub open spec fn wf(self) -> bool {
        self.d > 0
    }

    /// Bounds under which two fractions can be compared by cross-multiplying
    /// within `i128`: denominators up to 2^50, numerators up to 2^76 in
    /// magnitude.
    pub open spec fn cmp_ok(self) -> bool {
        &&& 0 < self.d <= 0x4000000000000i128
        &&& -0x10000000000000000000i128 <= self.n <= 0x10000000000000000000i128
    }

    /// `self < other` as rationals.
    pub open spec fn spec_lt(self, other: Frac) -> bool {
        self.n * other.d < other.n * self.d
    }

    pub fn lt(&self, other: &Frac) -> (r: bool)
        requires
            self.cmp_ok(),
            other.cmp_ok(),
        ensures
            r == self.spec_lt(*other),
    {
        proof {
            lemma_mul_le(
                self.n as int,
                other.d as int,
                0x10000000000000000000int,
                0x4000000000000int,
            );
            lemma_mul_le(
                other.n as int,
                self.d as int,
                0x10000000000000000000int,
                0x4000000000000int,
            );
        }
        self.n * other.d < other.n * self.d
    }

    /// Exact equality of the represented rationals.
    pub open spec fn same_ratio(self, other: Frac) -> bool {
        self.n * other.d == other.n * self.d
    }
}

/// Ordering of fractions is transitive across a middle bound: `a < b` and
/// `b <= c` give `a < c`.
pub proof fn lemma_frac_lt_trans(a: Frac, b: Frac, c: Frac)
    requires
        a.wf(),
        b.wf(),
        c.wf(),
        a.spec_lt(b),
        !c.spec_lt(b),
    ensures
        a.spec_lt(c),
{
    assert(a.n * c.d < c.n * a.d) by (nonlinear_arith)
        requires
            a.n * b.d < b.n * a.d,
            !(c.n * b.d < b.n * c.d),
            a.d > 0,
            b.d > 0,
            c.d > 0,
    ;
}

} // verus!
