//! Affine transforms over exact rational entries.
//!
//! A transform represents the map `p -> (M p) / md + af / ad`: the linear
//! part is a 3x3 integer matrix `M` (three row vectors) over the positive
//! denominator `md`, and the translation is an integer vector `af` over the
//! positive denominator `ad`. Composition, rotation and inversion are exact
//! integer arithmetic on the numerators with the denominators multiplying,
//! so every operation states its result exactly; only the application to a
//! lattice point truncates.

use vstd::prelude::*;

use crate::geom::COORD_LIMIT;
use crate::geom::Point;
use crate::geom::Vector;
use crate::geom::dot_s;
use crate::geom::point_ok;
use crate::geom::vec_ok;
use crate::num::clamp_s;
use crate::num::clamp128;
use crate::num::div_trunc;
use crate::num::div_tz;
use crate::num::lemma_dot_bounds;
use crate::num::lemma_mul_le;

verus! {

/// Bound on every numerator and denominator of a transform that the
/// arithmetic below accepts: composing two such transforms stays within
/// `i128` at every intermediate step.
pub const TF_LIMIT: i64 = 0x10000000000;

/// An affine map `p -> (M p) / md + af / ad`.
#[derive(Clone, Copy, Debug, PartialEq, Eq, Structural)]
pub struct Transform {
    /// Row 1 of the linear part's numerator matrix.
    pub r1: Vector,
    /// Row 2.
    pub r2: Vector,
    /// Row 3.
    pub r3: Vector,
    /// Numerators of the affine translation.
    pub af: Vector,
    /// Denominator of the linear part.
    pub md: i64,
    /// Denominator of the translation.
    pub ad: i64,
}

pub open spec fn tf_wf(t: Transform) -> bool {
    t.md > 0 && t.ad > 0
}

pub open spec fn in_tf_limit(c: int) -> bool {
    -(TF_LIMIT as int) <= c <= TF_LIMIT as int
}

/// Well-formed and with every number small enough to compose safely.
pub open spec fn tf_ok(t: Transform) -> bool {
    &&& tf_wf(t)
    &&& in_tf_limit(t.r1.0 as int) && in_tf_limit(t.r1.1 as int) && in_tf_limit(t.r1.2 as int)
    &&& in_tf_limit(t.r2.0 as int) && in_tf_limit(t.r2.1 as int) && in_tf_limit(t.r2.2 as int)
    &&& in_tf_limit(t.r3.0 as int) && in_tf_limit(t.r3.1 as int) && in_tf_limit(t.r3.2 as int)
    &&& in_tf_limit(t.af.0 as int) && in_tf_limit(t.af.1 as int) && in_tf_limit(t.af.2 as int)
    &&& t.md <= TF_LIMIT
    &&& t.ad <= TF_LIMIT
}

/// The identity map.
pub open spec fn eye_s() -> Transform {
    Transform {
        r1: Vector(1i64, 0i64, 0i64),
        r2: Vector(0i64, 1i64, 0i64),
        r3: Vector(0i64, 0i64, 1i64),
        af: Vector(0i64, 0i64, 0i64),
        md: 1i64,
        ad: 1i64,
    }
}

// Entries of the composition `a * b` (apply `b` first, then `a`): the linear
// numerator matrix is `Ma * Mb` over `a.md * b.md`, and the translation is
// `(Ma * af_b) / (a.md * b.ad) + af_a / a.ad` over the common denominator
// `a.md * b.ad * a.ad`.
pub open spec fn e11(a: Transform, b: Transform) -> int {
    a.r1.0 * b.r1.0 + a.r1.1 * b.r2.0 + a.r1.2 * b.r3.0
}

pub open spec fn e12(a: Transform, b: Transform) -> int {
    a.r1.0 * b.r1.1 + a.r1.1 * b.r2.1 + a.r1.2 * b.r3.1
}

pub open spec fn e13(a: Transform, b: Transform) -> int {
    a.r1.0 * b.r1.2 + a.r1.1 * b.r2.2 + a.r1.2 * b.r3.2
}

pub open spec fn e21(a: Transform, b: Transform) -> int {
    a.r2.0 * b.r1.0 + a.r2.1 * b.r2.0 + a.r2.2 * b.r3.0
}

pub open spec fn e22(a: Transform, b: Transform) -> int {
    a.r2.0 * b.r1.1 + a.r2.1 * b.r2.1 + a.r2.2 * b.r3.1
}

pub open spec fn e23(a: Transform, b: Transform) -> int {
    a.r2.0 * b.r1.2 + a.r2.1 * b.r2.2 + a.r2.2 * b.r3.2
}

pub open spec fn e31(a: Transform, b: Transform) -> int {
    a.r3.0 * b.r1.0 + a.r3.1 * b.r2.0 + a.r3.2 * b.r3.0
}

pub open spec fn e32(a: Transform, b: Transform) -> int {
    a.r3.0 * b.r1.1 + a.r3.1 * b.r2.1 + a.r3.2 * b.r3.1
}

pub open spec fn e33(a: Transform, b: Transform) -> int {
    a.r3.0 * b.r1.2 + a.r3.1 * b.r2.2 + a.r3.2 * b.r3.2
}

pub open spec fn ea1(a: Transform, b: Transform) -> int {
    (a.r1.0 * b.af.0 + a.r1.1 * b.af.1 + a.r1.2 * b.af.2) * a.ad + a.af.0 * (a.md * b.ad)
}

pub open spec fn ea2(a: Transform, b: Transform) -> int {
    (a.r2.0 * b.af.0 + a.r2.1 * b.af.1 + a.r2.2 * b.af.2) * a.ad + a.af.1 * (a.md * b.ad)
}

pub open spec fn ea3(a: Transform, b: Transform) -> int {
    (a.r3.0 * b.af.0 + a.r3.1 * b.af.1 + a.r3.2 * b.af.2) * a.ad + a.af.2 * (a.md * b.ad)
}

pub open spec fn emd(a: Transform, b: Transform) -> int {
    a.md * b.md
}

pub open spec fn ead(a: Transform, b: Transform) -> int {
    a.md * b.ad * a.ad
}

/// The exact composition `a * b`, assuming its entries fit (see `mul_fits`).
pub open spec fn mul_s(a: Transform, b: Transform) -> Transform {
    Transform {
        r1: Vector(e11(a, b) as i64, e12(a, b) as i64, e13(a, b) as i64),
        r2: Vector(e21(a, b) as i64, e22(a, b) as i64, e23(a, b) as i64),
        r3: Vector(e31(a, b) as i64, e32(a, b) as i64, e33(a, b) as i64),
        af: Vector(ea1(a, b) as i64, ea2(a, b) as i64, ea3(a, b) as i64),
        md: emd(a, b) as i64,
        ad: ead(a, b) as i64,
    }
}

pub open spec fn fits_i64(c: int) -> bool {
    i64::MIN <= c <= i64::MAX
}

/// Every entry of the composition `a * b` fits an `i64`.
pub open spec fn mul_fits(a: Transform, b: Transform) -> bool {
    &&& fits_i64(e11(a, b)) && fits_i64(e12(a, b)) && fits_i64(e13(a, b))
    &&& fits_i64(e21(a, b)) && fits_i64(e22(a, b)) && fits_i64(e23(a, b))
    &&& fits_i64(e31(a, b)) && fits_i64(e32(a, b)) && fits_i64(e33(a, b))
    &&& fits_i64(ea1(a, b)) && fits_i64(ea2(a, b)) && fits_i64(ea3(a, b))
    &&& fits_i64(emd(a, b)) && fits_i64(ead(a, b))
}

// The adjugate entries used by `inverse`, in the arrangement of the
// cofactor inverse: entry `inv_ij` is the numerator of row i, column j of
// the inverted linear part before scaling.
pub open spec fn inv00(t: Transform) -> int {
    t.r2.1 * t.r3.2 - t.r3.1 * t.r2.2
}

pub open spec fn inv01(t: Transform) -> int {
    t.r1.2 * t.r3.1 - t.r1.1 * t.r3.2
}

pub open spec fn inv02(t: Transform) -> int {
    t.r1.1 * t.r2.2 - t.r1.2 * t.r2.1
}

pub open spec fn inv10(t: Transform) -> int {
    t.r2.2 * t.r3.0 - t.r2.0 * t.r3.2
}

pub open spec fn inv11(t: Transform) -> int {
    t.r1.0 * t.r3.2 - t.r1.2 * t.r3.0
}

pub open spec fn inv12(t: Transform) -> int {
    t.r2.0 * t.r1.2 - t.r1.0 * t.r2.2
}

pub open spec fn inv20(t: Transform) -> int {
    t.r2.0 * t.r3.1 - t.r2.1 * t.r3.0
}

pub open spec fn inv21(t: Transform) -> int {
    t.r1.1 * t.r3.0 - t.r1.0 * t.r3.1
}

pub open spec fn inv22(t: Transform) -> int {
    t.r1.0 * t.r2.1 - t.r2.0 * t.r1.1
}

/// Determinant of the linear numerator matrix.
pub open spec fn det(t: Transform) -> int {
    t.r1.0 * t.r2.1 * t.r3.2 - t.r1.0 * t.r2.2 * t.r3.1 - t.r2.0 * t.r1.1 * t.r3.2 + t.r2.0
        * t.r1.2 * t.r3.1 + t.r3.0 * t.r1.1 * t.r2.2 - t.r3.0 * t.r1.2 * t.r2.1
}

/// The scaled adjugate entries and the determinant fit an `i64`.
pub open spec fn inverse_fits(t: Transform) -> bool {
    &&& -(i64::MAX as int) <= t.md * inv00(t) <= i64::MAX as int
    &&& -(i64::MAX as int) <= t.md * inv01(t) <= i64::MAX as int
    &&& -(i64::MAX as int) <= t.md * inv02(t) <= i64::MAX as int
    &&& -(i64::MAX as int) <= t.md * inv10(t) <= i64::MAX as int
    &&& -(i64::MAX as int) <= t.md * inv11(t) <= i64::MAX as int
    &&& -(i64::MAX as int) <= t.md * inv12(t) <= i64::MAX as int
    &&& -(i64::MAX as int) <= t.md * inv20(t) <= i64::MAX as int
    &&& -(i64::MAX as int) <= t.md * inv21(t) <= i64::MAX as int
    &&& -(i64::MAX as int) <= t.md * inv22(t) <= i64::MAX as int
    &&& -(i64::MAX as int) <= det(t) <= i64::MAX as int
}

/// The exact inverse of the map's linear part — the cofactor formula — with
/// the translation merely negated, not rotated back. The negated translation
/// is a deliberate sharp edge of this formula: the result is the true inverse
/// map only when the linear part leaves the translation vector fixed, e.g.
/// when either of them is trivial; see `lemma_compose_inverse_identity`.
pub open spec fn inverse_s(t: Transform) -> Transform {
    let dt = det(t);
    if dt > 0 {
        Transform {
            r1: Vector(
                (t.md * inv00(t)) as i64,
                (t.md * inv01(t)) as i64,
                (t.md * inv02(t)) as i64,
            ),
            r2: Vector(
                (t.md * inv10(t)) as i64,
                (t.md * inv11(t)) as i64,
                (t.md * inv12(t)) as i64,
            ),
            r3: Vector(
                (t.md * inv20(t)) as i64,
                (t.md * inv21(t)) as i64,
                (t.md * inv22(t)) as i64,
            ),
            af: Vector((-t.af.0) as i64, (-t.af.1) as i64, (-t.af.2) as i64),
            md: dt as i64,
            ad: t.ad,
        }
    } else {
        Transform {
            r1: Vector(
                (-(t.md * inv00(t))) as i64,
                (-(t.md * inv01(t))) as i64,
                (-(t.md * inv02(t))) as i64,
            ),
            r2: Vector(
                (-(t.md * inv10(t))) as i64,
                (-(t.md * inv11(t))) as i64,
                (-(t.md * inv12(t))) as i64,
            ),
            r3: Vector(
                (-(t.md * inv20(t))) as i64,
                (-(t.md * inv21(t))) as i64,
                (-(t.md * inv22(t))) as i64,
            ),
            af: Vector((-t.af.0) as i64, (-t.af.1) as i64, (-t.af.2) as i64),
            md: (-dt) as i64,
            ad: t.ad,
        }
    }
}

/// The rotation transform of Rodrigues' formula around the unit axis
/// `axis / axis_den`, with `cos / trig_den` and `sin / trig_den` the angle's
/// cosine and sine; every entry is scaled by `trig_den * axis_den^2`.
pub open spec fn rot_s(sin: int, cos: int, td: int, axis: Vector, axd: int) -> Transform {
    Transform {
        r1: Vector(
            (cos * (axd * axd) + (td - cos) * (axis.0 * axis.0)) as i64,
            ((td - cos) * (axis.0 * axis.1) - sin * (axis.2 * axd)) as i64,
            ((td - cos) * (axis.0 * axis.2) + sin * (axis.1 * axd)) as i64,
        ),
        r2: Vector(
            ((td - cos) * (axis.1 * axis.0) + sin * (axis.2 * axd)) as i64,
            (cos * (axd * axd) + (td - cos) * (axis.1 * axis.1)) as i64,
            ((td - cos) * (axis.1 * axis.2) - sin * (axis.0 * axd)) as i64,
        ),
        r3: Vector(
            ((td - cos) * (axis.2 * axis.0) - sin * (axis.1 * axd)) as i64,
            ((td - cos) * (axis.2 * axis.1) + sin * (axis.0 * axd)) as i64,
            (cos * (axd * axd) + (td - cos) * (axis.2 * axis.2)) as i64,
        ),
        af: Vector(0i64, 0i64, 0i64),
        md: (td * (axd * axd)) as i64,
        ad: 1i64,
    }
}

// Numerators of the map applied to a point, over the denominator `md * ad`.
pub open spec fn app_x(t: Transform, p: Point) -> int {
    (t.r1.0 * p.0 + t.r1.1 * p.1 + t.r1.2 * p.2) * t.ad + t.md * t.af.0
}

pub open spec fn app_y(t: Transform, p: Point) -> int {
    (t.r2.0 * p.0 + t.r2.1 * p.1 + t.r2.2 * p.2) * t.ad + t.md * t.af.1
}

pub open spec fn app_z(t: Transform, p: Point) -> int {
    (t.r3.0 * p.0 + t.r3.1 * p.1 + t.r3.2 * p.2) * t.ad + t.md * t.af.2
}

/// The value of `map_vertex`: the map applied to a point, truncated onto the
/// lattice and clamped into the working volume.
pub open spec fn map_vertex_s(t: Transform, p: Point) -> Point {
    Point(
        clamp_s(div_tz(app_x(t, p), t.md * t.ad), COORD_LIMIT as int) as i64,
        clamp_s(div_tz(app_y(t, p), t.md * t.ad), COORD_LIMIT as int) as i64,
        clamp_s(div_tz(app_z(t, p), t.md * t.ad), COORD_LIMIT as int) as i64,
    )
}

impl Transform {
    /// The identity transform.
    pub fn eye() -> (r: Transform)
        ensures
            r == eye_s(),
    {
        Transform {
            r1: Vector(1, 0, 0),
            r2: Vector(0, 1, 0),
            r3: Vector(0, 0, 1),
            af: Vector(0, 0, 0),
            md: 1,
            ad: 1,
        }
    }

    /// Add a translation (an integer vector) after the existing map.
    pub fn translate(self, af: Vector) -> (r: Transform)
        requires
            tf_wf(self),
            fits_i64(self.ad * af.0),
            fits_i64(self.ad * af.1),
            fits_i64(self.ad * af.2),
            fits_i64(self.af.0 + self.ad * af.0),
            fits_i64(self.af.1 + self.ad * af.1),
            fits_i64(self.af.2 + self.ad * af.2),
        ensures
            r.r1 == self.r1 && r.r2 == self.r2 && r.r3 == self.r3,
            r.md == self.md && r.ad == self.ad,
            r.af.0 == self.af.0 + self.ad * af.0,
            r.af.1 == self.af.1 + self.ad * af.1,
            r.af.2 == self.af.2 + self.ad * af.2,
            tf_wf(r),
    {
        let af2 = Vector(
            self.af.0 + self.ad * af.0,
            self.af.1 + self.ad * af.1,
            self.af.2 + self.ad * af.2,
        );
        Transform { r1: self.r1, r2: self.r2, r3: self.r3, af: af2, md: self.md, ad: self.ad }
    }

    /// Scale each axis of the linear part by `scale / scale_den`. The
    /// translation is unchanged, as in the cofactor-inverse convention.
    pub fn scale(self, scale: Vector, scale_den: i64) -> (r: Transform)
        requires
            tf_wf(self),
            scale_den > 0,
            fits_i64(self.r1.0 * scale.0) && fits_i64(self.r1.1 * scale.0) && fits_i64(
                self.r1.2 * scale.0,
            ),
            fits_i64(self.r2.0 * scale.1) && fits_i64(self.r2.1 * scale.1) && fits_i64(
                self.r2.2 * scale.1,
            ),
            fits_i64(self.r3.0 * scale.2) && fits_i64(self.r3.1 * scale.2) && fits_i64(
                self.r3.2 * scale.2,
            ),
            0 < self.md * scale_den <= i64::MAX as int,
        ensures
            r.r1.0 == self.r1.0 * scale.0 && r.r1.1 == self.r1.1 * scale.0 && r.r1.2 == self.r1.2
                * scale.0,
            r.r2.0 == self.r2.0 * scale.1 && r.r2.1 == self.r2.1 * scale.1 && r.r2.2 == self.r2.2
                * scale.1,
            r.r3.0 == self.r3.0 * scale.2 && r.r3.1 == self.r3.1 * scale.2 && r.r3.2 == self.r3.2
                * scale.2,
            r.af == self.af && r.ad == self.ad,
            r.md == self.md * scale_den,
            tf_wf(r),
    {
        let r1 = Vector(self.r1.0 * scale.0, self.r1.1 * scale.0, self.r1.2 * scale.0);
        let r2 = Vector(self.r2.0 * scale.1, self.r2.1 * scale.1, self.r2.2 * scale.1);
        let r3 = Vector(self.r3.0 * scale.2, self.r3.1 * scale.2, self.r3.2 * scale.2);
        Transform { r1, r2, r3, af: self.af, md: self.md * scale_den, ad: self.ad }
    }

    /// Compose: `a.mul(b)` applies `b` first, then `a`.
    pub fn mul(self, rhs: Transform) -> (r: Transform)
        requires
            tf_ok(self),
            tf_ok(rhs),
            mul_fits(self, rhs),
        ensures
            r == mul_s(self, rhs),
            tf_wf(r),
    {
        proof {
            lemma_dot_bounds(self.r1.0 as int, self.r1.1 as int, self.r1.2 as int, rhs.r1.0 as int, rhs.r2.0 as int, rhs.r3.0 as int, 0x10000000000, 0x10000000000);
            lemma_dot_bounds(self.r1.0 as int, self.r1.1 as int, self.r1.2 as int, rhs.r1.1 as int, rhs.r2.1 as int, rhs.r3.1 as int, 0x10000000000, 0x10000000000);
            lemma_dot_bounds(self.r1.0 as int, self.r1.1 as int, self.r1.2 as int, rhs.r1.2 as int, rhs.r2.2 as int, rhs.r3.2 as int, 0x10000000000, 0x10000000000);
            lemma_dot_bounds(self.r2.0 as int, self.r2.1 as int, self.r2.2 as int, rhs.r1.0 as int, rhs.r2.0 as int, rhs.r3.0 as int, 0x10000000000, 0x10000000000);
            lemma_dot_bounds(self.r2.0 as int, self.r2.1 as int, self.r2.2 as int, rhs.r1.1 as int, rhs.r2.1 as int, rhs.r3.1 as int, 0x10000000000, 0x10000000000);
            lemma_dot_bounds(self.r2.0 as int, self.r2.1 as int, self.r2.2 as int, rhs.r1.2 as int, rhs.r2.2 as int, rhs.r3.2 as int, 0x10000000000, 0x10000000000);
            lemma_dot_bounds(self.r3.0 as int, self.r3.1 as int, self.r3.2 as int, rhs.r1.0 as int, rhs.r2.0 as int, rhs.r3.0 as int, 0x10000000000, 0x10000000000);
            lemma_dot_bounds(self.r3.0 as int, self.r3.1 as int, self.r3.2 as int, rhs.r1.1 as int, rhs.r2.1 as int, rhs.r3.1 as int, 0x10000000000, 0x10000000000);
            lemma_dot_bounds(self.r3.0 as int, self.r3.1 as int, self.r3.2 as int, rhs.r1.2 as int, rhs.r2.2 as int, rhs.r3.2 as int, 0x10000000000, 0x10000000000);
            lemma_dot_bounds(self.r1.0 as int, self.r1.1 as int, self.r1.2 as int, rhs.af.0 as int, rhs.af.1 as int, rhs.af.2 as int, 0x10000000000, 0x10000000000);
            lemma_dot_bounds(self.r2.0 as int, self.r2.1 as int, self.r2.2 as int, rhs.af.0 as int, rhs.af.1 as int, rhs.af.2 as int, 0x10000000000, 0x10000000000);
            lemma_dot_bounds(self.r3.0 as int, self.r3.1 as int, self.r3.2 as int, rhs.af.0 as int, rhs.af.1 as int, rhs.af.2 as int, 0x10000000000, 0x10000000000);
            lemma_mul_le(self.md as int, rhs.md as int, 0x10000000000, 0x10000000000);
            lemma_mul_le(self.md as int, rhs.ad as int, 0x10000000000, 0x10000000000);
            lemma_mul_le(self.md * rhs.ad, self.ad as int, 0x100000000000000000000, 0x10000000000);
            lemma_mul_le(self.r1.0 * rhs.af.0 + self.r1.1 * rhs.af.1 + self.r1.2 * rhs.af.2, self.ad as int, 0x300000000000000000000, 0x10000000000);
            lemma_mul_le(self.r2.0 * rhs.af.0 + self.r2.1 * rhs.af.1 + self.r2.2 * rhs.af.2, self.ad as int, 0x300000000000000000000, 0x10000000000);
            lemma_mul_le(self.r3.0 * rhs.af.0 + self.r3.1 * rhs.af.1 + self.r3.2 * rhs.af.2, self.ad as int, 0x300000000000000000000, 0x10000000000);
            lemma_mul_le(self.af.0 as int, self.md * rhs.ad, 0x10000000000, 0x100000000000000000000);
            lemma_mul_le(self.af.1 as int, self.md * rhs.ad, 0x10000000000, 0x100000000000000000000);
            lemma_mul_le(self.af.2 as int, self.md * rhs.ad, 0x10000000000, 0x100000000000000000000);
            assert(self.md * rhs.md >= 1) by (nonlinear_arith)
                requires
                    self.md >= 1,
                    rhs.md >= 1,
            ;
            assert(self.md * rhs.ad * self.ad >= 1) by (nonlinear_arith)
                requires
                    self.md >= 1,
                    rhs.ad >= 1,
                    self.ad >= 1,
            ;
        }
        let x11: i128 = (self.r1.0 as i128) * (rhs.r1.0 as i128) + (self.r1.1 as i128)
            * (rhs.r2.0 as i128) + (self.r1.2 as i128) * (rhs.r3.0 as i128);
        let x12: i128 = (self.r1.0 as i128) * (rhs.r1.1 as i128) + (self.r1.1 as i128)
            * (rhs.r2.1 as i128) + (self.r1.2 as i128) * (rhs.r3.1 as i128);
        let x13: i128 = (self.r1.0 as i128) * (rhs.r1.2 as i128) + (self.r1.1 as i128)
            * (rhs.r2.2 as i128) + (self.r1.2 as i128) * (rhs.r3.2 as i128);
        let x21: i128 = (self.r2.0 as i128) * (rhs.r1.0 as i128) + (self.r2.1 as i128)
            * (rhs.r2.0 as i128) + (self.r2.2 as i128) * (rhs.r3.0 as i128);
        let x22: i128 = (self.r2.0 as i128) * (rhs.r1.1 as i128) + (self.r2.1 as i128)
            * (rhs.r2.1 as i128) + (self.r2.2 as i128) * (rhs.r3.1 as i128);
        let x23: i128 = (self.r2.0 as i128) * (rhs.r1.2 as i128) + (self.r2.1 as i128)
            * (rhs.r2.2 as i128) + (self.r2.2 as i128) * (rhs.r3.2 as i128);
        let x31: i128 = (self.r3.0 as i128) * (rhs.r1.0 as i128) + (self.r3.1 as i128)
            * (rhs.r2.0 as i128) + (self.r3.2 as i128) * (rhs.r3.0 as i128);
        let x32: i128 = (self.r3.0 as i128) * (rhs.r1.1 as i128) + (self.r3.1 as i128)
            * (rhs.r2.1 as i128) + (self.r3.2 as i128) * (rhs.r3.1 as i128);
        let x33: i128 = (self.r3.0 as i128) * (rhs.r1.2 as i128) + (self.r3.1 as i128)
            * (rhs.r2.2 as i128) + (self.r3.2 as i128) * (rhs.r3.2 as i128);
        let md2: i128 = (self.md as i128) * (rhs.ad as i128);
        let a1: i128 = ((self.r1.0 as i128) * (rhs.af.0 as i128) + (self.r1.1 as i128)
            * (rhs.af.1 as i128) + (self.r1.2 as i128) * (rhs.af.2 as i128)) * (self.ad as i128)
            + (self.af.0 as i128) * md2;
        let a2: i128 = ((self.r2.0 as i128) * (rhs.af.0 as i128) + (self.r2.1 as i128)
            * (rhs.af.1 as i128) + (self.r2.2 as i128) * (rhs.af.2 as i128)) * (self.ad as i128)
            + (self.af.1 as i128) * md2;
        let a3: i128 = ((self.r3.0 as i128) * (rhs.af.0 as i128) + (self.r3.1 as i128)
            * (rhs.af.1 as i128) + (self.r3.2 as i128) * (rhs.af.2 as i128)) * (self.ad as i128)
            + (self.af.2 as i128) * md2;
        proof {
            assert(x11 as int == e11(self, rhs));
            assert(x12 as int == e12(self, rhs));
            assert(x13 as int == e13(self, rhs));
            assert(x21 as int == e21(self, rhs));
            assert(x22 as int == e22(self, rhs));
            assert(x23 as int == e23(self, rhs));
            assert(x31 as int == e31(self, rhs));
            assert(x32 as int == e32(self, rhs));
            assert(x33 as int == e33(self, rhs));
            assert(a1 as int == ea1(self, rhs));
            assert(a2 as int == ea2(self, rhs));
            assert(a3 as int == ea3(self, rhs));
            assert((md2 * (self.ad as i128)) as int == ead(self, rhs));
        }
        Transform {
            r1: Vector(x11 as i64, x12 as i64, x13 as i64),
            r2: Vector(x21 as i64, x22 as i64, x23 as i64),
            r3: Vector(x31 as i64, x32 as i64, x33 as i64),
            af: Vector(a1 as i64, a2 as i64, a3 as i64),
            md: self.md * rhs.md,
            ad: (md2 * (self.ad as i128)) as i64,
        }
    }

    /// Rotate by the angle whose cosine and sine are `cos / trig_den` and
    /// `sin / trig_den`, around the unit axis `axis / axis_den`, composed on
    /// the left: rotation is expressed in world space, not local space.
    pub fn rotate(self, sin: i64, cos: i64, trig_den: i64, axis: Vector, axis_den: i64) -> (r:
        Transform)
        requires
            tf_ok(self),
            0 < trig_den <= 262144,
            -trig_den <= sin <= trig_den,
            -trig_den <= cos <= trig_den,
            0 < axis_den <= 512,
            -axis_den <= axis.0 <= axis_den,
            -axis_den <= axis.1 <= axis_den,
            -axis_den <= axis.2 <= axis_den,
            mul_fits(rot_s(sin as int, cos as int, trig_den as int, axis, axis_den as int), self),
        ensures
            r == mul_s(
                rot_s(sin as int, cos as int, trig_den as int, axis, axis_den as int),
                self,
            ),
            tf_wf(r),
    {
        proof {
            lemma_mul_le(axis_den as int, axis_den as int, 512, 512);
            lemma_mul_le(axis.0 as int, axis.0 as int, 512, 512);
            lemma_mul_le(axis.0 as int, axis.1 as int, 512, 512);
            lemma_mul_le(axis.0 as int, axis.2 as int, 512, 512);
            lemma_mul_le(axis.1 as int, axis.0 as int, 512, 512);
            lemma_mul_le(axis.1 as int, axis.1 as int, 512, 512);
            lemma_mul_le(axis.1 as int, axis.2 as int, 512, 512);
            lemma_mul_le(axis.2 as int, axis.0 as int, 512, 512);
            lemma_mul_le(axis.2 as int, axis.1 as int, 512, 512);
            lemma_mul_le(axis.2 as int, axis.2 as int, 512, 512);
            lemma_mul_le(axis.0 as int, axis_den as int, 512, 512);
            lemma_mul_le(axis.1 as int, axis_den as int, 512, 512);
            lemma_mul_le(axis.2 as int, axis_den as int, 512, 512);
            lemma_mul_le(cos as int, (axis_den * axis_den) as int, 262144, 262144);
            lemma_mul_le(trig_den - cos, axis.0 * axis.0, 524288, 262144);
            lemma_mul_le(trig_den - cos, axis.1 * axis.1, 524288, 262144);
            lemma_mul_le(trig_den - cos, axis.2 * axis.2, 524288, 262144);
            lemma_mul_le(trig_den - cos, axis.0 * axis.1, 524288, 262144);
            lemma_mul_le(trig_den - cos, axis.0 * axis.2, 524288, 262144);
            lemma_mul_le(trig_den - cos, axis.1 * axis.0, 524288, 262144);
            lemma_mul_le(trig_den - cos, axis.1 * axis.2, 524288, 262144);
            lemma_mul_le(trig_den - cos, axis.2 * axis.0, 524288, 262144);
            lemma_mul_le(trig_den - cos, axis.2 * axis.1, 524288, 262144);
            lemma_mul_le(sin as int, axis.0 * axis_den, 262144, 262144);
            lemma_mul_le(sin as int, axis.1 * axis_den, 262144, 262144);
            lemma_mul_le(sin as int, axis.2 * axis_den, 262144, 262144);
            lemma_mul_le(trig_den as int, (axis_den * axis_den) as int, 262144, 262144);
        }
        let axd2: i64 = axis_den * axis_den;
        let rc: i64 = trig_den - cos;
        let m11: i64 = cos * axd2 + rc * (axis.0 * axis.0);
        let m12: i64 = rc * (axis.0 * axis.1) - sin * (axis.2 * axis_den);
        let m13: i64 = rc * (axis.0 * axis.2) + sin * (axis.1 * axis_den);
        let m21: i64 = rc * (axis.1 * axis.0) + sin * (axis.2 * axis_den);
        let m22: i64 = cos * axd2 + rc * (axis.1 * axis.1);
        let m23: i64 = rc * (axis.1 * axis.2) - sin * (axis.0 * axis_den);
        let m31: i64 = rc * (axis.2 * axis.0) - sin * (axis.1 * axis_den);
        let m32: i64 = rc * (axis.2 * axis.1) + sin * (axis.0 * axis_den);
        let m33: i64 = cos * axd2 + rc * (axis.2 * axis.2);
        let rot = Transform {
            r1: Vector(m11, m12, m13),
            r2: Vector(m21, m22, m23),
            r3: Vector(m31, m32, m33),
            af: Vector(0, 0, 0),
            md: trig_den * axd2,
            ad: 1,
        };
        proof {
            assert(rot == rot_s(sin as int, cos as int, trig_den as int, axis, axis_den as int));
            assert(axd2 >= 1) by (nonlinear_arith)
                requires
                    axis_den >= 1,
                    axd2 == axis_den * axis_den,
            ;
            assert(trig_den * axd2 >= 1) by (nonlinear_arith)
                requires
                    trig_den >= 1,
                    axd2 >= 1,
            ;
        }
        rot.mul(self)
    }

    /// Invert the map: the exact cofactor inverse of the linear part, with
    /// the translation negated in place. By design, this
    /// yields the true inverse map only when the linear part keeps the
    /// translation vector fixed.
    pub fn inverse(&self) -> (r: Transform)
        requires
            tf_ok(*self),
            det(*self) != 0,
            inverse_fits(*self),
        ensures
            r == inverse_s(*self),
            tf_wf(r),
    {
        proof {
            lemma_mul_le(self.r2.1 as int, self.r3.2 as int, 0x10000000000, 0x10000000000);
            lemma_mul_le(self.r3.1 as int, self.r2.2 as int, 0x10000000000, 0x10000000000);
            lemma_mul_le(self.r1.2 as int, self.r3.1 as int, 0x10000000000, 0x10000000000);
            lemma_mul_le(self.r1.1 as int, self.r3.2 as int, 0x10000000000, 0x10000000000);
            lemma_mul_le(self.r1.1 as int, self.r2.2 as int, 0x10000000000, 0x10000000000);
            lemma_mul_le(self.r1.2 as int, self.r2.1 as int, 0x10000000000, 0x10000000000);
            lemma_mul_le(self.r2.2 as int, self.r3.0 as int, 0x10000000000, 0x10000000000);
            lemma_mul_le(self.r2.0 as int, self.r3.2 as int, 0x10000000000, 0x10000000000);
            lemma_mul_le(self.r1.0 as int, self.r3.2 as int, 0x10000000000, 0x10000000000);
            lemma_mul_le(self.r1.2 as int, self.r3.0 as int, 0x10000000000, 0x10000000000);
            lemma_mul_le(self.r2.0 as int, self.r1.2 as int, 0x10000000000, 0x10000000000);
            lemma_mul_le(self.r1.0 as int, self.r2.2 as int, 0x10000000000, 0x10000000000);
            lemma_mul_le(self.r2.0 as int, self.r3.1 as int, 0x10000000000, 0x10000000000);
            lemma_mul_le(self.r2.1 as int, self.r3.0 as int, 0x10000000000, 0x10000000000);
            lemma_mul_le(self.r1.1 as int, self.r3.0 as int, 0x10000000000, 0x10000000000);
            lemma_mul_le(self.r1.0 as int, self.r3.1 as int, 0x10000000000, 0x10000000000);
            lemma_mul_le(self.r1.0 as int, self.r2.1 as int, 0x10000000000, 0x10000000000);
            lemma_mul_le(self.r2.0 as int, self.r1.1 as int, 0x10000000000, 0x10000000000);
            lemma_mul_le(self.r3.0 as int, self.r1.1 as int, 0x10000000000, 0x10000000000);
            lemma_mul_le(self.r3.0 as int, self.r1.2 as int, 0x10000000000, 0x10000000000);
            lemma_mul_le(self.r1.0 * self.r2.1, self.r3.2 as int, 0x100000000000000000000, 0x10000000000);
            lemma_mul_le(self.r1.0 * self.r2.2, self.r3.1 as int, 0x100000000000000000000, 0x10000000000);
            lemma_mul_le(self.r2.0 * self.r1.1, self.r3.2 as int, 0x100000000000000000000, 0x10000000000);
            lemma_mul_le(self.r2.0 * self.r1.2, self.r3.1 as int, 0x100000000000000000000, 0x10000000000);
            lemma_mul_le(self.r3.0 * self.r1.1, self.r2.2 as int, 0x100000000000000000000, 0x10000000000);
            lemma_mul_le(self.r3.0 * self.r1.2, self.r2.1 as int, 0x100000000000000000000, 0x10000000000);
            lemma_mul_le(self.md as int, self.r2.1 * self.r3.2 - self.r3.1 * self.r2.2, 0x10000000000, 0x200000000000000000000);
            lemma_mul_le(self.md as int, self.r1.2 * self.r3.1 - self.r1.1 * self.r3.2, 0x10000000000, 0x200000000000000000000);
            lemma_mul_le(self.md as int, self.r1.1 * self.r2.2 - self.r1.2 * self.r2.1, 0x10000000000, 0x200000000000000000000);
            lemma_mul_le(self.md as int, self.r2.2 * self.r3.0 - self.r2.0 * self.r3.2, 0x10000000000, 0x200000000000000000000);
            lemma_mul_le(self.md as int, self.r1.0 * self.r3.2 - self.r1.2 * self.r3.0, 0x10000000000, 0x200000000000000000000);
            lemma_mul_le(self.md as int, self.r2.0 * self.r1.2 - self.r1.0 * self.r2.2, 0x10000000000, 0x200000000000000000000);
            lemma_mul_le(self.md as int, self.r2.0 * self.r3.1 - self.r2.1 * self.r3.0, 0x10000000000, 0x200000000000000000000);
            lemma_mul_le(self.md as int, self.r1.1 * self.r3.0 - self.r1.0 * self.r3.1, 0x10000000000, 0x200000000000000000000);
            lemma_mul_le(self.md as int, self.r1.0 * self.r2.1 - self.r2.0 * self.r1.1, 0x10000000000, 0x200000000000000000000);
        }
        let t1: i128 = self.r1.0 as i128;
        let t2: i128 = self.r1.1 as i128;
        let t3: i128 = self.r1.2 as i128;
        let s1: i128 = self.r2.0 as i128;
        let s2: i128 = self.r2.1 as i128;
        let s3: i128 = self.r2.2 as i128;
        let u1: i128 = self.r3.0 as i128;
        let u2: i128 = self.r3.1 as i128;
        let u3: i128 = self.r3.2 as i128;
        let dt: i128 = t1 * s2 * u3 - t1 * s3 * u2 - s1 * t2 * u3 + s1 * t3 * u2 + u1 * t2 * s3
            - u1 * t3 * s2;
        let md: i128 = self.md as i128;
        let c00: i128 = md * (s2 * u3 - u2 * s3);
        let c01: i128 = md * (t3 * u2 - t2 * u3);
        let c02: i128 = md * (t2 * s3 - t3 * s2);
        let c10: i128 = md * (s3 * u1 - s1 * u3);
        let c11: i128 = md * (t1 * u3 - t3 * u1);
        let c12: i128 = md * (s1 * t3 - t1 * s3);
        let c20: i128 = md * (s1 * u2 - s2 * u1);
        let c21: i128 = md * (t2 * u1 - t1 * u2);
        let c22: i128 = md * (t1 * s2 - s1 * t2);
        proof {
            assert(dt as int == det(*self));
            assert(c00 as int == self.md * inv00(*self));
            assert(c01 as int == self.md * inv01(*self));
            assert(c02 as int == self.md * inv02(*self));
            assert(c10 as int == self.md * inv10(*self));
            assert(c11 as int == self.md * inv11(*self));
            assert(c12 as int == self.md * inv12(*self));
            assert(c20 as int == self.md * inv20(*self));
            assert(c21 as int == self.md * inv21(*self));
            assert(c22 as int == self.md * inv22(*self));
        }
        let af = Vector(-self.af.0, -self.af.1, -self.af.2);
        if dt > 0 {
            Transform {
                r1: Vector(c00 as i64, c01 as i64, c02 as i64),
                r2: Vector(c10 as i64, c11 as i64, c12 as i64),
                r3: Vector(c20 as i64, c21 as i64, c22 as i64),
                af,
                md: dt as i64,
                ad: self.ad,
            }
        } else {
            Transform {
                r1: Vector((-c00) as i64, (-c01) as i64, (-c02) as i64),
                r2: Vector((-c10) as i64, (-c11) as i64, (-c12) as i64),
                r3: Vector((-c20) as i64, (-c21) as i64, (-c22) as i64),
                af,
                md: (-dt) as i64,
                ad: self.ad,
            }
        }
    }

    /// The columns of the linear part's numerator matrix.
    pub fn to_cols(&self) -> (r: (Vector, Vector, Vector))
        ensures
            r.0.0 == self.r1.0 && r.0.1 == self.r2.0 && r.0.2 == self.r3.0,
            r.1.0 == self.r1.1 && r.1.1 == self.r2.1 && r.1.2 == self.r3.1,
            r.2.0 == self.r1.2 && r.2.1 == self.r2.2 && r.2.2 == self.r3.2,
    {
        let c1 = Vector(self.r1.0, self.r2.0, self.r3.0);
        let c2 = Vector(self.r1.1, self.r2.1, self.r3.1);
        let c3 = Vector(self.r1.2, self.r2.2, self.r3.2);
        (c1, c2, c3)
    }

    /// Apply the map to a vertex of the working volume, truncating onto the
    /// lattice and clamping into the volume. This is the tracer's quantiser:
    /// it is total for any acceptable transform.
    pub fn map_vertex(&self, p: Point) -> (r: Point)
        requires
            tf_ok(*self),
            point_ok(p),
        ensures
            r == map_vertex_s(*self, p),
            r.0 == clamp_s(div_tz(app_x(*self, p), self.md * self.ad), COORD_LIMIT as int),
            r.1 == clamp_s(div_tz(app_y(*self, p), self.md * self.ad), COORD_LIMIT as int),
            r.2 == clamp_s(div_tz(app_z(*self, p), self.md * self.ad), COORD_LIMIT as int),
            point_ok(r),
    {
        proof {
            lemma_dot_bounds(self.r1.0 as int, self.r1.1 as int, self.r1.2 as int, p.0 as int, p.1 as int, p.2 as int, 0x10000000000, 1024);
            lemma_dot_bounds(self.r2.0 as int, self.r2.1 as int, self.r2.2 as int, p.0 as int, p.1 as int, p.2 as int, 0x10000000000, 1024);
            lemma_dot_bounds(self.r3.0 as int, self.r3.1 as int, self.r3.2 as int, p.0 as int, p.1 as int, p.2 as int, 0x10000000000, 1024);
            lemma_mul_le(self.r1.0 * p.0 + self.r1.1 * p.1 + self.r1.2 * p.2, self.ad as int, 0x30000000000000, 0x10000000000);
            lemma_mul_le(self.r2.0 * p.0 + self.r2.1 * p.1 + self.r2.2 * p.2, self.ad as int, 0x30000000000000, 0x10000000000);
            lemma_mul_le(self.r3.0 * p.0 + self.r3.1 * p.1 + self.r3.2 * p.2, self.ad as int, 0x30000000000000, 0x10000000000);
            lemma_mul_le(self.md as int, self.af.0 as int, 0x10000000000, 0x10000000000);
            lemma_mul_le(self.md as int, self.af.1 as int, 0x10000000000, 0x10000000000);
            lemma_mul_le(self.md as int, self.af.2 as int, 0x10000000000, 0x10000000000);
            lemma_mul_le(self.md as int, self.ad as int, 0x10000000000, 0x10000000000);
        }
        let ad: i128 = self.ad as i128;
        let md: i128 = self.md as i128;
        let nx: i128 = ((self.r1.0 as i128) * (p.0 as i128) + (self.r1.1 as i128) * (p.1 as i128)
            + (self.r1.2 as i128) * (p.2 as i128)) * ad + md * (self.af.0 as i128);
        let ny: i128 = ((self.r2.0 as i128) * (p.0 as i128) + (self.r2.1 as i128) * (p.1 as i128)
            + (self.r2.2 as i128) * (p.2 as i128)) * ad + md * (self.af.1 as i128);
        let nz: i128 = ((self.r3.0 as i128) * (p.0 as i128) + (self.r3.1 as i128) * (p.1 as i128)
            + (self.r3.2 as i128) * (p.2 as i128)) * ad + md * (self.af.2 as i128);
        let den: i128 = md * ad;
        assert(md * ad >= 1) by (nonlinear_arith)
            requires
                md >= 1,
                ad >= 1,
        ;
        let qx: i128 = div_trunc(nx, den);
        let qy: i128 = div_trunc(ny, den);
        let qz: i128 = div_trunc(nz, den);
        Point(clamp128(qx, COORD_LIMIT), clamp128(qy, COORD_LIMIT), clamp128(qz, COORD_LIMIT))
    }

    /// Apply the map to a point, truncating the exact result onto the
    /// lattice.
    pub fn apply_point(&self, p: Point) -> (r: Point)
        requires
            tf_ok(*self),
            point_ok(p),
            fits_i64(div_tz(app_x(*self, p), self.md * self.ad)),
            fits_i64(div_tz(app_y(*self, p), self.md * self.ad)),
            fits_i64(div_tz(app_z(*self, p), self.md * self.ad)),
        ensures
            r.0 == div_tz(app_x(*self, p), self.md * self.ad),
            r.1 == div_tz(app_y(*self, p), self.md * self.ad),
            r.2 == div_tz(app_z(*self, p), self.md * self.ad),
    {
        proof {
            lemma_dot_bounds(self.r1.0 as int, self.r1.1 as int, self.r1.2 as int, p.0 as int, p.1 as int, p.2 as int, 0x10000000000, 1024);
            lemma_dot_bounds(self.r2.0 as int, self.r2.1 as int, self.r2.2 as int, p.0 as int, p.1 as int, p.2 as int, 0x10000000000, 1024);
            lemma_dot_bounds(self.r3.0 as int, self.r3.1 as int, self.r3.2 as int, p.0 as int, p.1 as int, p.2 as int, 0x10000000000, 1024);
            lemma_mul_le(self.r1.0 * p.0 + self.r1.1 * p.1 + self.r1.2 * p.2, self.ad as int, 0x30000000000000, 0x10000000000);
            lemma_mul_le(self.r2.0 * p.0 + self.r2.1 * p.1 + self.r2.2 * p.2, self.ad as int, 0x30000000000000, 0x10000000000);
            lemma_mul_le(self.r3.0 * p.0 + self.r3.1 * p.1 + self.r3.2 * p.2, self.ad as int, 0x30000000000000, 0x10000000000);
            lemma_mul_le(self.md as int, self.af.0 as int, 0x10000000000, 0x10000000000);
            lemma_mul_le(self.md as int, self.af.1 as int, 0x10000000000, 0x10000000000);
            lemma_mul_le(self.md as int, self.af.2 as int, 0x10000000000, 0x10000000000);
            lemma_mul_le(self.md as int, self.ad as int, 0x10000000000, 0x10000000000);
        }
        let ad: i128 = self.ad as i128;
        let md: i128 = self.md as i128;
        let nx: i128 = ((self.r1.0 as i128) * (p.0 as i128) + (self.r1.1 as i128) * (p.1 as i128)
            + (self.r1.2 as i128) * (p.2 as i128)) * ad + md * (self.af.0 as i128);
        let ny: i128 = ((self.r2.0 as i128) * (p.0 as i128) + (self.r2.1 as i128) * (p.1 as i128)
            + (self.r2.2 as i128) * (p.2 as i128)) * ad + md * (self.af.1 as i128);
        let nz: i128 = ((self.r3.0 as i128) * (p.0 as i128) + (self.r3.1 as i128) * (p.1 as i128)
            + (self.r3.2 as i128) * (p.2 as i128)) * ad + md * (self.af.2 as i128);
        let den: i128 = md * ad;
        assert(md * ad >= 1) by (nonlinear_arith)
            requires
                md >= 1,
                ad >= 1,
        ;
        let qx: i128 = div_trunc(nx, den);
        let qy: i128 = div_trunc(ny, den);
        let qz: i128 = div_trunc(nz, den);
        Point(qx as i64, qy as i64, qz as i64)
    }

    /// Apply the linear part to a direction vector, truncating onto the
    /// lattice; the translation does not act on directions.
    pub fn apply_vector(&self, v: Vector) -> (r: Vector)
        requires
            tf_ok(*self),
            vec_ok(v),
            fits_i64(div_tz(dot_s(self.r1, v), self.md as int)),
            fits_i64(div_tz(dot_s(self.r2, v), self.md as int)),
            fits_i64(div_tz(dot_s(self.r3, v), self.md as int)),
        ensures
            r.0 == div_tz(dot_s(self.r1, v), self.md as int),
            r.1 == div_tz(dot_s(self.r2, v), self.md as int),
            r.2 == div_tz(dot_s(self.r3, v), self.md as int),
    {
        proof {
            lemma_dot_bounds(
                self.r1.0 as int, self.r1.1 as int, self.r1.2 as int,
                v.0 as int, v.1 as int, v.2 as int,
                0x10000000000, 1024);
            lemma_dot_bounds(
                self.r2.0 as int, self.r2.1 as int, self.r2.2 as int,
                v.0 as int, v.1 as int, v.2 as int,
                0x10000000000, 1024);
            lemma_dot_bounds(
                self.r3.0 as int, self.r3.1 as int, self.r3.2 as int,
                v.0 as int, v.1 as int, v.2 as int,
                0x10000000000, 1024);
        }
        let nx: i128 = (self.r1.0 as i128) * (v.0 as i128) + (self.r1.1 as i128) * (v.1 as i128)
            + (self.r1.2 as i128) * (v.2 as i128);
        let ny: i128 = (self.r2.0 as i128) * (v.0 as i128) + (self.r2.1 as i128) * (v.1 as i128)
            + (self.r2.2 as i128) * (v.2 as i128);
        let nz: i128 = (self.r3.0 as i128) * (v.0 as i128) + (self.r3.1 as i128) * (v.1 as i128)
            + (self.r3.2 as i128) * (v.2 as i128);
        let md: i128 = self.md as i128;
        let qx: i128 = div_trunc(nx, md);
        let qy: i128 = div_trunc(ny, md);
        let qz: i128 = div_trunc(nz, md);
        Vector(qx as i64, qy as i64, qz as i64)
    }
}




/// Products of three factors may be regrouped and reordered.
proof fn lemma_mul3(a: int, b: int, c: int)
    by (nonlinear_arith)
    ensures
        a * (b * c) == a * b * c,
        a * (c * b) == a * b * c,
        b * (a * c) == a * b * c,
        b * (c * a) == a * b * c,
        c * (a * b) == a * b * c,
        c * (b * a) == a * b * c,
        b * a * c == a * b * c,
        a * c * b == a * b * c,
        c * a * b == a * b * c,
        c * b * a == a * b * c,
        b * c * a == a * b * c,
{
}

/// A factor distributes over a difference of opaque values.
proof fn lemma_distm(a: int, p: int, q: int)
    by (nonlinear_arith)
    ensures
        a * (p - q) == a * p - a * q,
{
}


/// Negation passes through a product.
proof fn lemma_neg_mul(a: int, b: int)
    by (nonlinear_arith)
    ensures
        a * (-b) == -(a * b),
        (-a) * b == -(a * b),
{
}

/// A factor distributes over a three-term sum of opaque values.
proof fn lemma_dist3m(a: int, p: int, q: int, r: int)
    by (nonlinear_arith)
    ensures
        a * p + a * q + a * r == a * (p + q + r),
{
}

/// Each row of a 3x3 matrix against the matching adjugate column gives the
/// determinant; against a foreign column it cancels.
proof fn lemma_adjugate(
    a1: int, a2: int, a3: int,
    b1: int, b2: int, b3: int,
    c1: int, c2: int, c3: int,
)
    ensures
        a1 * (b2 * c3 - c2 * b3) + a2 * (b3 * c1 - b1 * c3) + a3 * (b1 * c2 - b2 * c1) == a1 * b2 * c3 - a1 * b3 * c2 - b1 * a2 * c3 + b1 * a3 * c2 + c1 * a2 * b3 - c1 * a3 * b2,
        a1 * (a3 * c2 - a2 * c3) + a2 * (a1 * c3 - a3 * c1) + a3 * (a2 * c1 - a1 * c2) == 0,
        a1 * (a2 * b3 - a3 * b2) + a2 * (b1 * a3 - a1 * b3) + a3 * (a1 * b2 - b1 * a2) == 0,
        b1 * (b2 * c3 - c2 * b3) + b2 * (b3 * c1 - b1 * c3) + b3 * (b1 * c2 - b2 * c1) == 0,
        b1 * (a3 * c2 - a2 * c3) + b2 * (a1 * c3 - a3 * c1) + b3 * (a2 * c1 - a1 * c2) == a1 * b2 * c3 - a1 * b3 * c2 - b1 * a2 * c3 + b1 * a3 * c2 + c1 * a2 * b3 - c1 * a3 * b2,
        b1 * (a2 * b3 - a3 * b2) + b2 * (b1 * a3 - a1 * b3) + b3 * (a1 * b2 - b1 * a2) == 0,
        c1 * (b2 * c3 - c2 * b3) + c2 * (b3 * c1 - b1 * c3) + c3 * (b1 * c2 - b2 * c1) == 0,
        c1 * (a3 * c2 - a2 * c3) + c2 * (a1 * c3 - a3 * c1) + c3 * (a2 * c1 - a1 * c2) == 0,
        c1 * (a2 * b3 - a3 * b2) + c2 * (b1 * a3 - a1 * b3) + c3 * (a1 * b2 - b1 * a2) == a1 * b2 * c3 - a1 * b3 * c2 - b1 * a2 * c3 + b1 * a3 * c2 + c1 * a2 * b3 - c1 * a3 * b2,
{
    lemma_mul3(a1, a2, b3);
    lemma_mul3(a1, a2, c3);
    lemma_mul3(a1, a3, b2);
    lemma_mul3(a1, a3, c2);
    lemma_mul3(a1, b2, b3);
    lemma_mul3(a1, b2, c3);
    lemma_mul3(a1, b3, c2);
    lemma_mul3(a1, c2, c3);
    lemma_mul3(a2, a3, b1);
    lemma_mul3(a2, a3, c1);
    lemma_mul3(a2, b1, b3);
    lemma_mul3(a2, b1, c3);
    lemma_mul3(a2, b3, c1);
    lemma_mul3(a2, c1, c3);
    lemma_mul3(a3, b1, b2);
    lemma_mul3(a3, b1, c2);
    lemma_mul3(a3, b2, c1);
    lemma_mul3(a3, c1, c2);
    lemma_mul3(b1, b2, c3);
    lemma_mul3(b1, b3, c2);
    lemma_mul3(b1, c2, c3);
    lemma_mul3(b2, b3, c1);
    lemma_mul3(b2, c1, c3);
    lemma_mul3(b3, c1, c2);
    lemma_distm(a1, b2 * c3, c2 * b3);
    lemma_distm(a2, b3 * c1, b1 * c3);
    lemma_distm(a3, b1 * c2, b2 * c1);
    lemma_distm(a1, a3 * c2, a2 * c3);
    lemma_distm(a2, a1 * c3, a3 * c1);
    lemma_distm(a3, a2 * c1, a1 * c2);
    lemma_distm(a1, a2 * b3, a3 * b2);
    lemma_distm(a2, b1 * a3, a1 * b3);
    lemma_distm(a3, a1 * b2, b1 * a2);
    lemma_distm(b1, b2 * c3, c2 * b3);
    lemma_distm(b2, b3 * c1, b1 * c3);
    lemma_distm(b3, b1 * c2, b2 * c1);
    lemma_distm(b1, a3 * c2, a2 * c3);
    lemma_distm(b2, a1 * c3, a3 * c1);
    lemma_distm(b3, a2 * c1, a1 * c2);
    lemma_distm(b1, a2 * b3, a3 * b2);
    lemma_distm(b2, b1 * a3, a1 * b3);
    lemma_distm(b3, a1 * b2, b1 * a2);
    lemma_distm(c1, b2 * c3, c2 * b3);
    lemma_distm(c2, b3 * c1, b1 * c3);
    lemma_distm(c3, b1 * c2, b2 * c1);
    lemma_distm(c1, a3 * c2, a2 * c3);
    lemma_distm(c2, a1 * c3, a3 * c1);
    lemma_distm(c3, a2 * c1, a1 * c2);
    lemma_distm(c1, a2 * b3, a3 * b2);
    lemma_distm(c2, b1 * a3, a1 * b3);
    lemma_distm(c3, a1 * b2, b1 * a2);
}

/// Two transforms denote the same affine map: their linear parts and
/// translations agree after cross-multiplying the denominators.
pub open spec fn same_map(a: Transform, b: Transform) -> bool {
    &&& b.md * a.r1.0 == a.md * b.r1.0
    &&& b.md * a.r1.1 == a.md * b.r1.1
    &&& b.md * a.r1.2 == a.md * b.r1.2
    &&& b.md * a.r2.0 == a.md * b.r2.0
    &&& b.md * a.r2.1 == a.md * b.r2.1
    &&& b.md * a.r2.2 == a.md * b.r2.2
    &&& b.md * a.r3.0 == a.md * b.r3.0
    &&& b.md * a.r3.1 == a.md * b.r3.1
    &&& b.md * a.r3.2 == a.md * b.r3.2
    &&& b.ad * a.af.0 == a.ad * b.af.0
    &&& b.ad * a.af.1 == a.ad * b.af.1
    &&& b.ad * a.af.2 == a.ad * b.af.2
}


/// Composing a transform with its own inverse yields the identity map,
/// whenever the linear part leaves the translation vector fixed — in
/// particular whenever the translation is zero, or the linear part is a
/// (scaled) identity. With a rotation applied after a translation the
/// negated-translation inverse does not cancel: that is the deliberate sharp
/// edge of the cofactor inverse.
pub proof fn lemma_compose_inverse_identity(t: Transform)
    requires
        tf_ok(t),
        det(t) != 0,
        inverse_fits(t),
        mul_fits(t, inverse_s(t)),
        dot_s(t.r1, t.af) == t.md * t.af.0,
        dot_s(t.r2, t.af) == t.md * t.af.1,
        dot_s(t.r3, t.af) == t.md * t.af.2,
    ensures
        same_map(mul_s(t, inverse_s(t)), eye_s()),
{
    let inv = inverse_s(t);
    let m: int = t.md as int;
    lemma_adjugate(
        t.r1.0 as int, t.r1.1 as int, t.r1.2 as int,
        t.r2.0 as int, t.r2.1 as int, t.r2.2 as int,
        t.r3.0 as int, t.r3.1 as int, t.r3.2 as int,
    );
    lemma_zero_mul(mul_s(t, inverse_s(t)).md as int);
    lemma_zero_mul(mul_s(t, inverse_s(t)).ad as int);
    lemma_mul3(m, t.r1.0 as int, inv00(t));
    lemma_neg_mul(t.r1.0 as int, t.md * inv00(t));
    lemma_mul3(m, t.r1.1 as int, inv10(t));
    lemma_neg_mul(t.r1.1 as int, t.md * inv10(t));
    lemma_mul3(m, t.r1.2 as int, inv20(t));
    lemma_neg_mul(t.r1.2 as int, t.md * inv20(t));
    lemma_mul3(m, t.r1.0 as int, inv01(t));
    lemma_neg_mul(t.r1.0 as int, t.md * inv01(t));
    lemma_mul3(m, t.r1.1 as int, inv11(t));
    lemma_neg_mul(t.r1.1 as int, t.md * inv11(t));
    lemma_mul3(m, t.r1.2 as int, inv21(t));
    lemma_neg_mul(t.r1.2 as int, t.md * inv21(t));
    lemma_mul3(m, t.r1.0 as int, inv02(t));
    lemma_neg_mul(t.r1.0 as int, t.md * inv02(t));
    lemma_mul3(m, t.r1.1 as int, inv12(t));
    lemma_neg_mul(t.r1.1 as int, t.md * inv12(t));
    lemma_mul3(m, t.r1.2 as int, inv22(t));
    lemma_neg_mul(t.r1.2 as int, t.md * inv22(t));
    lemma_mul3(m, t.r2.0 as int, inv00(t));
    lemma_neg_mul(t.r2.0 as int, t.md * inv00(t));
    lemma_mul3(m, t.r2.1 as int, inv10(t));
    lemma_neg_mul(t.r2.1 as int, t.md * inv10(t));
    lemma_mul3(m, t.r2.2 as int, inv20(t));
    lemma_neg_mul(t.r2.2 as int, t.md * inv20(t));
    lemma_mul3(m, t.r2.0 as int, inv01(t));
    lemma_neg_mul(t.r2.0 as int, t.md * inv01(t));
    lemma_mul3(m, t.r2.1 as int, inv11(t));
    lemma_neg_mul(t.r2.1 as int, t.md * inv11(t));
    lemma_mul3(m, t.r2.2 as int, inv21(t));
    lemma_neg_mul(t.r2.2 as int, t.md * inv21(t));
    lemma_mul3(m, t.r2.0 as int, inv02(t));
    lemma_neg_mul(t.r2.0 as int, t.md * inv02(t));
    lemma_mul3(m, t.r2.1 as int, inv12(t));
    lemma_neg_mul(t.r2.1 as int, t.md * inv12(t));
    lemma_mul3(m, t.r2.2 as int, inv22(t));
    lemma_neg_mul(t.r2.2 as int, t.md * inv22(t));
    lemma_mul3(m, t.r3.0 as int, inv00(t));
    lemma_neg_mul(t.r3.0 as int, t.md * inv00(t));
    lemma_mul3(m, t.r3.1 as int, inv10(t));
    lemma_neg_mul(t.r3.1 as int, t.md * inv10(t));
    lemma_mul3(m, t.r3.2 as int, inv20(t));
    lemma_neg_mul(t.r3.2 as int, t.md * inv20(t));
    lemma_mul3(m, t.r3.0 as int, inv01(t));
    lemma_neg_mul(t.r3.0 as int, t.md * inv01(t));
    lemma_mul3(m, t.r3.1 as int, inv11(t));
    lemma_neg_mul(t.r3.1 as int, t.md * inv11(t));
    lemma_mul3(m, t.r3.2 as int, inv21(t));
    lemma_neg_mul(t.r3.2 as int, t.md * inv21(t));
    lemma_mul3(m, t.r3.0 as int, inv02(t));
    lemma_neg_mul(t.r3.0 as int, t.md * inv02(t));
    lemma_mul3(m, t.r3.1 as int, inv12(t));
    lemma_neg_mul(t.r3.1 as int, t.md * inv12(t));
    lemma_mul3(m, t.r3.2 as int, inv22(t));
    lemma_neg_mul(t.r3.2 as int, t.md * inv22(t));
    lemma_dist3m(m, t.r1.0 * inv00(t), t.r1.1 * inv10(t), t.r1.2 * inv20(t));
    lemma_dist3m(m, t.r1.0 * inv01(t), t.r1.1 * inv11(t), t.r1.2 * inv21(t));
    lemma_dist3m(m, t.r1.0 * inv02(t), t.r1.1 * inv12(t), t.r1.2 * inv22(t));
    lemma_dist3m(m, t.r2.0 * inv00(t), t.r2.1 * inv10(t), t.r2.2 * inv20(t));
    lemma_dist3m(m, t.r2.0 * inv01(t), t.r2.1 * inv11(t), t.r2.2 * inv21(t));
    lemma_dist3m(m, t.r2.0 * inv02(t), t.r2.1 * inv12(t), t.r2.2 * inv22(t));
    lemma_dist3m(m, t.r3.0 * inv00(t), t.r3.1 * inv10(t), t.r3.2 * inv20(t));
    lemma_dist3m(m, t.r3.0 * inv01(t), t.r3.1 * inv11(t), t.r3.2 * inv21(t));
    lemma_dist3m(m, t.r3.0 * inv02(t), t.r3.1 * inv12(t), t.r3.2 * inv22(t));
    lemma_neg_mul(m, det(t));
    lemma_zero_mul(m);
    assert(t.r1.0 * inv01(t) + t.r1.1 * inv11(t) + t.r1.2 * inv21(t) == 0);
    if det(t) > 0 {
        assert(e12(t, inv) == m * (t.r1.0 * inv01(t) + t.r1.1 * inv11(t) + t.r1.2 * inv21(t)));
    } else {
        assert(e12(t, inv) == -(m * (t.r1.0 * inv01(t) + t.r1.1 * inv11(t) + t.r1.2 * inv21(t))));
    }
    assert(e12(t, inv) == 0);
    lemma_neg_mul(t.r1.0 as int, t.af.0 as int);
    lemma_neg_mul(t.r1.1 as int, t.af.1 as int);
    lemma_neg_mul(t.r1.2 as int, t.af.2 as int);
    lemma_neg_mul(t.r2.0 as int, t.af.0 as int);
    lemma_neg_mul(t.r2.1 as int, t.af.1 as int);
    lemma_neg_mul(t.r2.2 as int, t.af.2 as int);
    lemma_neg_mul(t.r3.0 as int, t.af.0 as int);
    lemma_neg_mul(t.r3.1 as int, t.af.1 as int);
    lemma_neg_mul(t.r3.2 as int, t.af.2 as int);
    lemma_neg_mul(t.md * t.af.0, t.ad as int);
    lemma_mul3(m, t.af.0 as int, t.ad as int);
    lemma_neg_mul(t.md * t.af.1, t.ad as int);
    lemma_mul3(m, t.af.1 as int, t.ad as int);
    lemma_neg_mul(t.md * t.af.2, t.ad as int);
    lemma_mul3(m, t.af.2 as int, t.ad as int);
}

/// A product with zero vanishes.
proof fn lemma_zero_mul(a: int)
    by (nonlinear_arith)
    ensures
        a * 0 == 0,
        0 * a == 0,
{
}

} // verus!
