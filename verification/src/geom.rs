//! Points, direction vectors and colors over exact integer coordinates.
//!
//! The tracer works on an integer lattice: a coordinate is an `i64`, and the
//! working volume of the scene is the cube `[-COORD_LIMIT, COORD_LIMIT]^3`.
//! Every operation states its exact result, so all downstream geometry is
//! reasoned about without rounding error; where an exact result would leave
//! the lattice (division), the truncation is part of the contract.

use vstd::prelude::*;

use crate::num::absi;
use crate::num::clamp_s;
use crate::num::clamp128;
use crate::num::div_tz;
use crate::num::div_trunc;
use crate::num::lemma_div_tz_bound;
use crate::num::lemma_mul_le;

verus! {

/// Half-width of the working volume: scene geometry handed to the intersection
/// routines lives in `[-COORD_LIMIT, COORD_LIMIT]` per axis.
pub const COORD_LIMIT: i64 = 1024;

pub open spec fn coord_ok(c: int) -> bool {
    -(COORD_LIMIT as int) <= c <= COORD_LIMIT as int
}

/// A position in space.
#[derive(Clone, Copy, Debug, PartialEq, Eq, Structural)]
pub struct Point(pub i64, pub i64, pub i64);

/// A displacement or direction.
#[derive(Clone, Copy, Debug, PartialEq, Eq, Structural)]
pub struct Vector(pub i64, pub i64, pub i64);

pub open spec fn point_ok(p: Point) -> bool {
    coord_ok(p.0 as int) && coord_ok(p.1 as int) && coord_ok(p.2 as int)
}

pub open spec fn vec_ok(v: Vector) -> bool {
    coord_ok(v.0 as int) && coord_ok(v.1 as int) && coord_ok(v.2 as int)
}

/// Dot product, as a mathematical integer.
pub open spec fn dot_s(a: Vector, b: Vector) -> int {
    a.0 * b.0 + a.1 * b.1 + a.2 * b.2
}

/// Cross product components, as mathematical integers.
pub open spec fn cross_x(a: Vector, b: Vector) -> int {
    a.1 * b.2 - a.2 * b.1
}

pub open spec fn cross_y(a: Vector, b: Vector) -> int {
    a.2 * b.0 - a.0 * b.2
}

pub open spec fn cross_z(a: Vector, b: Vector) -> int {
    a.0 * b.1 - a.1 * b.0
}

impl Point {
    /// Offset a position by a displacement.
    pub fn affine_add(self, rhs: Vector) -> (r: Point)
        requires
            i64::MIN <= self.0 + rhs.0 <= i64::MAX,
            i64::MIN <= self.1 + rhs.1 <= i64::MAX,
            i64::MIN <= self.2 + rhs.2 <= i64::MAX,
        ensures
            r.0 == self.0 + rhs.0,
            r.1 == self.1 + rhs.1,
            r.2 == self.2 + rhs.2,
    {
        Point(self.0 + rhs.0, self.1 + rhs.1, self.2 + rhs.2)
    }

    /// Offset a position against a displacement.
    pub fn affine_sub(self, rhs: Vector) -> (r: Point)
        requires
            i64::MIN <= self.0 - rhs.0 <= i64::MAX,
            i64::MIN <= self.1 - rhs.1 <= i64::MAX,
            i64::MIN <= self.2 - rhs.2 <= i64::MAX,
        ensures
            r.0 == self.0 - rhs.0,
            r.1 == self.1 - rhs.1,
            r.2 == self.2 - rhs.2,
    {
        Point(self.0 - rhs.0, self.1 - rhs.1, self.2 - rhs.2)
    }

    /// Get the relative position offset vector from `rhs`.
    pub fn rel_from(&self, rhs: Point) -> (r: Vector)
        requires
            i64::MIN <= self.0 - rhs.0 <= i64::MAX,
            i64::MIN <= self.1 - rhs.1 <= i64::MAX,
            i64::MIN <= self.2 - rhs.2 <= i64::MAX,
        ensures
            r.0 == self.0 - rhs.0,
            r.1 == self.1 - rhs.1,
            r.2 == self.2 - rhs.2,
    {
        Vector(self.0 - rhs.0, self.1 - rhs.1, self.2 - rhs.2)
    }

    /// The position as a displacement from the origin.
    pub fn to_vec(&self) -> (r: Vector)
        ensures
            r.0 == self.0,
            r.1 == self.1,
            r.2 == self.2,
    {
        Vector(self.0, self.1, self.2)
    }
}

impl Vector {
    pub fn dot(self, rhs: Vector) -> (r: i64)
        requires
            i64::MIN <= self.0 * rhs.0 <= i64::MAX,
            i64::MIN <= self.1 * rhs.1 <= i64::MAX,
            i64::MIN <= self.2 * rhs.2 <= i64::MAX,
            i64::MIN <= self.0 * rhs.0 + self.1 * rhs.1 <= i64::MAX,
            i64::MIN <= dot_s(self, rhs) <= i64::MAX,
        ensures
            r == dot_s(self, rhs),
    {
        self.0 * rhs.0 + self.1 * rhs.1 + self.2 * rhs.2
    }

    pub fn cross(self, rhs: Vector) -> (r: Vector)
        requires
            i64::MIN <= self.1 * rhs.2 <= i64::MAX,
            i64::MIN <= self.2 * rhs.1 <= i64::MAX,
            i64::MIN <= self.2 * rhs.0 <= i64::MAX,
            i64::MIN <= self.0 * rhs.2 <= i64::MAX,
            i64::MIN <= self.0 * rhs.1 <= i64::MAX,
            i64::MIN <= self.1 * rhs.0 <= i64::MAX,
            i64::MIN <= cross_x(self, rhs) <= i64::MAX,
            i64::MIN <= cross_y(self, rhs) <= i64::MAX,
            i64::MIN <= cross_z(self, rhs) <= i64::MAX,
        ensures
            r.0 == cross_x(self, rhs),
            r.1 == cross_y(self, rhs),
            r.2 == cross_z(self, rhs),
    {
        let n1: i64 = self.1 * rhs.2 - self.2 * rhs.1;
        let n2: i64 = self.2 * rhs.0 - self.0 * rhs.2;
        let n3: i64 = self.0 * rhs.1 - self.1 * rhs.0;
        Vector(n1, n2, n3)
    }

    pub fn add(self, rhs: Vector) -> (r: Vector)
        requires
            i64::MIN <= self.0 + rhs.0 <= i64::MAX,
            i64::MIN <= self.1 + rhs.1 <= i64::MAX,
            i64::MIN <= self.2 + rhs.2 <= i64::MAX,
        ensures
            r.0 == self.0 + rhs.0,
            r.1 == self.1 + rhs.1,
            r.2 == self.2 + rhs.2,
    {
        Vector(self.0 + rhs.0, self.1 + rhs.1, self.2 + rhs.2)
    }

    pub fn sub(self, rhs: Vector) -> (r: Vector)
        requires
            i64::MIN <= self.0 - rhs.0 <= i64::MAX,
            i64::MIN <= self.1 - rhs.1 <= i64::MAX,
            i64::MIN <= self.2 - rhs.2 <= i64::MAX,
        ensures
            r.0 == self.0 - rhs.0,
            r.1 == self.1 - rhs.1,
            r.2 == self.2 - rhs.2,
    {
        Vector(self.0 - rhs.0, self.1 - rhs.1, self.2 - rhs.2)
    }

    /// Scale by an integer factor.
    pub fn mul(self, rhs: i64) -> (r: Vector)
        requires
            i64::MIN <= self.0 * rhs <= i64::MAX,
            i64::MIN <= self.1 * rhs <= i64::MAX,
            i64::MIN <= self.2 * rhs <= i64::MAX,
        ensures
            r.0 == self.0 * rhs,
            r.1 == self.1 * rhs,
            r.2 == self.2 * rhs,
    {
        Vector(self.0 * rhs, self.1 * rhs, self.2 * rhs)
    }

    /// Divide each component by `rhs`, rounding toward zero.
    pub fn div(self, rhs: i64) -> (r: Vector)
        requires
            rhs != 0,
            self.0 > i64::MIN,
            self.1 > i64::MIN,
            self.2 > i64::MIN,
        ensures
            r.0 == div_tz(self.0 as int, rhs as int),
            r.1 == div_tz(self.1 as int, rhs as int),
            r.2 == div_tz(self.2 as int, rhs as int),
    {
        proof {
            lemma_div_tz_bound(self.0 as int, rhs as int);
            lemma_div_tz_bound(self.1 as int, rhs as int);
            lemma_div_tz_bound(self.2 as int, rhs as int);
        }
        Vector(
            div_trunc(self.0 as i128, rhs as i128) as i64,
            div_trunc(self.1 as i128, rhs as i128) as i64,
            div_trunc(self.2 as i128, rhs as i128) as i64,
        )
    }

    /// Scale a direction down so that it fits the working volume, keeping
    /// its direction up to the truncation: every component is divided by
    /// `max(|components|) / 512 + 1`.
    pub fn rescale(self) -> (r: Vector)
        requires
            self.0 > i64::MIN,
            self.1 > i64::MIN,
            self.2 > i64::MIN,
        ensures
            r.0 == div_tz(self.0 as int, rescale_div(self)),
            r.1 == div_tz(self.1 as int, rescale_div(self)),
            r.2 == div_tz(self.2 as int, rescale_div(self)),
            vec_ok(r),
    {
        let a0: i64 = if self.0 >= 0 {
            self.0
        } else {
            -self.0
        };
        let a1: i64 = if self.1 >= 0 {
            self.1
        } else {
            -self.1
        };
        let a2: i64 = if self.2 >= 0 {
            self.2
        } else {
            -self.2
        };
        let mut m: i64 = a0;
        if a1 > m {
            m = a1;
        }
        if a2 > m {
            m = a2;
        }
        let q: i64 = ((m as u64) / 512) as i64 + 1;
        proof {
            assert(m as int == vmax_abs(self));
            assert(q as int == rescale_div(self));
            vstd::arithmetic::div_mod::lemma_fundamental_div_mod(m as int, 512);
            lemma_rescale_component(self.0 as int, m as int, q as int);
            lemma_rescale_component(self.1 as int, m as int, q as int);
            lemma_rescale_component(self.2 as int, m as int, q as int);
        }
        Vector(
            div_trunc(self.0 as i128, q as i128) as i64,
            div_trunc(self.1 as i128, q as i128) as i64,
            div_trunc(self.2 as i128, q as i128) as i64,
        )
    }

    pub fn neg(self) -> (r: Vector)
        requires
            self.0 > i64::MIN,
            self.1 > i64::MIN,
            self.2 > i64::MIN,
        ensures
            r.0 == -self.0,
            r.1 == -self.1,
            r.2 == -self.2,
    {
        Vector(-self.0, -self.1, -self.2)
    }
}

/// The largest component magnitude of a vector.
pub open spec fn vmax_abs(v: Vector) -> int {
    let a0 = absi(v.0 as int);
    let a1 = absi(v.1 as int);
    let a2 = absi(v.2 as int);
    let m01 = if a1 > a0 {
        a1
    } else {
        a0
    };
    if a2 > m01 {
        a2
    } else {
        m01
    }
}

/// The divisor `rescale` applies: large enough that every component lands in
/// `[-511, 511]`.
pub open spec fn rescale_div(v: Vector) -> int {
    vmax_abs(v) / 512 + 1
}

/// A component no larger than the maximum, divided by the rescale divisor,
/// lands within the working volume.
proof fn lemma_rescale_component(c: int, m: int, q: int)
    requires
        0 <= m,
        absi(c) <= m,
        q == m / 512 + 1,
    ensures
        -1024 <= div_tz(c, q) <= 1024,
        q >= 1,
{
    vstd::arithmetic::div_mod::lemma_fundamental_div_mod(m, 512);
    vstd::arithmetic::div_mod::lemma_div_pos_is_pos(m, 512);
    assert(m < 512 * q);
    vstd::arithmetic::div_mod::lemma_div_is_ordered(absi(c), 512 * q - 1, q);
    vstd::arithmetic::div_mod::lemma_fundamental_div_mod_converse(512 * q - 1, q, 511, q - 1);
    vstd::arithmetic::div_mod::lemma_div_pos_is_pos(absi(c), q);
}

/// A general purpose ray: an origin and a direction. The direction need not
/// be normalised; the intersection test is exact for any non-zero scale.
#[derive(Clone, Copy, Debug, PartialEq, Eq, Structural)]
pub struct Ray {
    /// Origin.
    pub o: Point,
    /// Direction.
    pub v: Vector,
}

pub open spec fn ray_ok(r: Ray) -> bool {
    point_ok(r.o) && vec_ok(r.v)
}

/// Full intensity of one color channel. A decoded 8-bit channel value `b`
/// becomes `256 * b`, so the byte scale embeds exactly.
pub const CHAN_ONE: i64 = 65280;

/// The channel magnitude at which the saturating color operations clamp.
pub const CHAN_CAP: i64 = 0x1000000000000;

/// A color: red, green, blue and alpha, each measured in 1/65280ths of full
/// intensity. Channel values may leave `[0, CHAN_ONE]` during arithmetic;
/// conversion back to bytes saturates.
#[derive(Clone, Copy, Debug, PartialEq, Eq, Structural)]
pub struct Color(pub i64, pub i64, pub i64, pub i64);

/// The value of `Color::sat_add`: channel-wise sum, saturated.
pub open spec fn sat_add_s(a: Color, b: Color) -> Color {
    Color(
        clamp_s(a.0 + b.0, CHAN_CAP as int) as i64,
        clamp_s(a.1 + b.1, CHAN_CAP as int) as i64,
        clamp_s(a.2 + b.2, CHAN_CAP as int) as i64,
        clamp_s(a.3 + b.3, CHAN_CAP as int) as i64,
    )
}

/// The value of `Color::sat_scale`: channel-wise ratio, truncated and
/// saturated.
pub open spec fn sat_scale_s(a: Color, num: int, den: int) -> Color {
    Color(
        clamp_s(div_tz(a.0 * num, den), CHAN_CAP as int) as i64,
        clamp_s(div_tz(a.1 * num, den), CHAN_CAP as int) as i64,
        clamp_s(div_tz(a.2 * num, den), CHAN_CAP as int) as i64,
        clamp_s(div_tz(a.3 * num, den), CHAN_CAP as int) as i64,
    )
}

/// The value of `Color::sat_modulate`: channel-wise product on the
/// full-intensity scale, truncated and saturated.
pub open spec fn sat_modulate_s(a: Color, b: Color) -> Color {
    Color(
        clamp_s(div_tz(a.0 * b.0, CHAN_ONE as int), CHAN_CAP as int) as i64,
        clamp_s(div_tz(a.1 * b.1, CHAN_ONE as int), CHAN_CAP as int) as i64,
        clamp_s(div_tz(a.2 * b.2, CHAN_ONE as int), CHAN_CAP as int) as i64,
        clamp_s(div_tz(a.3 * b.3, CHAN_ONE as int), CHAN_CAP as int) as i64,
    )
}

/// One channel truncated to the 8-bit scale, saturating: the exact value of
/// `255 * c / CHAN_ONE` rounded toward zero and clamped to `[0, 255]`.
pub open spec fn chan_to_byte(c: int) -> int {
    if c <= 0 {
        0
    } else if c >= CHAN_ONE as int {
        255
    } else {
        c / 256
    }
}

impl Color {
    pub fn add(self, rhs: Color) -> (r: Color)
        requires
            i64::MIN <= self.0 + rhs.0 <= i64::MAX,
            i64::MIN <= self.1 + rhs.1 <= i64::MAX,
            i64::MIN <= self.2 + rhs.2 <= i64::MAX,
            i64::MIN <= self.3 + rhs.3 <= i64::MAX,
        ensures
            r.0 == self.0 + rhs.0,
            r.1 == self.1 + rhs.1,
            r.2 == self.2 + rhs.2,
            r.3 == self.3 + rhs.3,
    {
        Color(self.0 + rhs.0, self.1 + rhs.1, self.2 + rhs.2, self.3 + rhs.3)
    }

    pub fn sub(self, rhs: Color) -> (r: Color)
        requires
            i64::MIN <= self.0 - rhs.0 <= i64::MAX,
            i64::MIN <= self.1 - rhs.1 <= i64::MAX,
            i64::MIN <= self.2 - rhs.2 <= i64::MAX,
            i64::MIN <= self.3 - rhs.3 <= i64::MAX,
        ensures
            r.0 == self.0 - rhs.0,
            r.1 == self.1 - rhs.1,
            r.2 == self.2 - rhs.2,
            r.3 == self.3 - rhs.3,
    {
        Color(self.0 - rhs.0, self.1 - rhs.1, self.2 - rhs.2, self.3 - rhs.3)
    }

    /// Scale every channel by the exact ratio `num / den`, truncating toward
    /// zero.
    pub fn mul(self, num: i64, den: i64) -> (r: Color)
        requires
            den > 0,
            -(i64::MAX as int) <= self.0 * num <= i64::MAX,
            -(i64::MAX as int) <= self.1 * num <= i64::MAX,
            -(i64::MAX as int) <= self.2 * num <= i64::MAX,
            -(i64::MAX as int) <= self.3 * num <= i64::MAX,
        ensures
            r.0 == div_tz(self.0 * num, den as int),
            r.1 == div_tz(self.1 * num, den as int),
            r.2 == div_tz(self.2 * num, den as int),
            r.3 == div_tz(self.3 * num, den as int),
    {
        proof {
            lemma_div_tz_bound(self.0 * num, den as int);
            lemma_div_tz_bound(self.1 * num, den as int);
            lemma_div_tz_bound(self.2 * num, den as int);
            lemma_div_tz_bound(self.3 * num, den as int);
        }
        Color(
            div_trunc((self.0 as i128) * (num as i128), den as i128) as i64,
            div_trunc((self.1 as i128) * (num as i128), den as i128) as i64,
            div_trunc((self.2 as i128) * (num as i128), den as i128) as i64,
            div_trunc((self.3 as i128) * (num as i128), den as i128) as i64,
        )
    }

    /// Add, saturating each channel into `[-CHAN_CAP, CHAN_CAP]`. The
    /// shading accumulators use this so that arbitrarily deep blends stay
    /// total.
    pub fn sat_add(self, rhs: Color) -> (r: Color)
        ensures
            r == sat_add_s(self, rhs),
            r.0 == clamp_s(self.0 + rhs.0, CHAN_CAP as int),
            r.1 == clamp_s(self.1 + rhs.1, CHAN_CAP as int),
            r.2 == clamp_s(self.2 + rhs.2, CHAN_CAP as int),
            r.3 == clamp_s(self.3 + rhs.3, CHAN_CAP as int),
    {
        Color(
            clamp128((self.0 as i128) + (rhs.0 as i128), CHAN_CAP),
            clamp128((self.1 as i128) + (rhs.1 as i128), CHAN_CAP),
            clamp128((self.2 as i128) + (rhs.2 as i128), CHAN_CAP),
            clamp128((self.3 as i128) + (rhs.3 as i128), CHAN_CAP),
        )
    }

    /// Scale every channel by `num / den`, truncating toward zero and
    /// saturating into `[-CHAN_CAP, CHAN_CAP]`.
    pub fn sat_scale(self, num: i64, den: i64) -> (r: Color)
        requires
            den > 0,
        ensures
            r == sat_scale_s(self, num as int, den as int),
            r.0 == clamp_s(div_tz(self.0 * num, den as int), CHAN_CAP as int),
            r.1 == clamp_s(div_tz(self.1 * num, den as int), CHAN_CAP as int),
            r.2 == clamp_s(div_tz(self.2 * num, den as int), CHAN_CAP as int),
            r.3 == clamp_s(div_tz(self.3 * num, den as int), CHAN_CAP as int),
    {
        proof {
            lemma_mul_le(self.0 as int, num as int, 0x8000000000000000, 0x8000000000000000);
            lemma_mul_le(self.1 as int, num as int, 0x8000000000000000, 0x8000000000000000);
            lemma_mul_le(self.2 as int, num as int, 0x8000000000000000, 0x8000000000000000);
            lemma_mul_le(self.3 as int, num as int, 0x8000000000000000, 0x8000000000000000);
        }
        Color(
            clamp128(div_trunc((self.0 as i128) * (num as i128), den as i128), CHAN_CAP),
            clamp128(div_trunc((self.1 as i128) * (num as i128), den as i128), CHAN_CAP),
            clamp128(div_trunc((self.2 as i128) * (num as i128), den as i128), CHAN_CAP),
            clamp128(div_trunc((self.3 as i128) * (num as i128), den as i128), CHAN_CAP),
        )
    }

    /// Modulate by another color channel-wise, on the `CHAN_ONE` scale,
    /// truncating toward zero and saturating into `[-CHAN_CAP, CHAN_CAP]`.
    pub fn sat_modulate(self, rhs: Color) -> (r: Color)
        ensures
            r == sat_modulate_s(self, rhs),
            r.0 == clamp_s(div_tz(self.0 * rhs.0, CHAN_ONE as int), CHAN_CAP as int),
            r.1 == clamp_s(div_tz(self.1 * rhs.1, CHAN_ONE as int), CHAN_CAP as int),
            r.2 == clamp_s(div_tz(self.2 * rhs.2, CHAN_ONE as int), CHAN_CAP as int),
            r.3 == clamp_s(div_tz(self.3 * rhs.3, CHAN_ONE as int), CHAN_CAP as int),
    {
        proof {
            lemma_mul_le(self.0 as int, rhs.0 as int, 0x8000000000000000, 0x8000000000000000);
            lemma_mul_le(self.1 as int, rhs.1 as int, 0x8000000000000000, 0x8000000000000000);
            lemma_mul_le(self.2 as int, rhs.2 as int, 0x8000000000000000, 0x8000000000000000);
            lemma_mul_le(self.3 as int, rhs.3 as int, 0x8000000000000000, 0x8000000000000000);
        }
        Color(
            clamp128(div_trunc((self.0 as i128) * (rhs.0 as i128), CHAN_ONE as i128), CHAN_CAP),
            clamp128(div_trunc((self.1 as i128) * (rhs.1 as i128), CHAN_ONE as i128), CHAN_CAP),
            clamp128(div_trunc((self.2 as i128) * (rhs.2 as i128), CHAN_ONE as i128), CHAN_CAP),
            clamp128(div_trunc((self.3 as i128) * (rhs.3 as i128), CHAN_ONE as i128), CHAN_CAP),
        )
    }

    /// Decode an 8-bit RGB triple; alpha is set to full intensity.
    pub fn from_rgb8(c: [u8; 3]) -> (r: Color)
        ensures
            r.0 == 256 * c[0],
            r.1 == 256 * c[1],
            r.2 == 256 * c[2],
            r.3 == CHAN_ONE,
    {
        Color(256 * (c[0] as i64), 256 * (c[1] as i64), 256 * (c[2] as i64), CHAN_ONE)
    }

    /// Decode an 8-bit RGBA quadruple.
    pub fn from_rgba8(c: [u8; 4]) -> (r: Color)
        ensures
            r.0 == 256 * c[0],
            r.1 == 256 * c[1],
            r.2 == 256 * c[2],
            r.3 == 256 * c[3],
    {
        Color(256 * (c[0] as i64), 256 * (c[1] as i64), 256 * (c[2] as i64), 256 * (c[3] as i64))
    }

    /// Truncate to 8-bit RGB, saturating out-of-range channels. Going to bytes
    /// and back loses the sub-byte detail; a color decoded from bytes survives
    /// the round trip unchanged.
    pub fn to_rgb8(self) -> (r: [u8; 3])
        ensures
            r[0] == chan_to_byte(self.0 as int),
            r[1] == chan_to_byte(self.1 as int),
            r[2] == chan_to_byte(self.2 as int),
    {
        [chan8(self.0), chan8(self.1), chan8(self.2)]
    }

    /// Truncate to 8-bit RGBA, saturating out-of-range channels.
    pub fn to_rgba8(self) -> (r: [u8; 4])
        ensures
            r[0] == chan_to_byte(self.0 as int),
            r[1] == chan_to_byte(self.1 as int),
            r[2] == chan_to_byte(self.2 as int),
            r[3] == chan_to_byte(self.3 as int),
    {
        [chan8(self.0), chan8(self.1), chan8(self.2), chan8(self.3)]
    }
}

impl Default for Color {
    /// The transparent black color: all channels zero.
    fn default() -> (r: Color)
        ensures
            r == (Color(0, 0, 0, 0)),
    {
        Color(0, 0, 0, 0)
    }
}

fn chan8(c: i64) -> (r: u8)
    ensures
        r == chan_to_byte(c as int),
{
    if c <= 0 {
        0
    } else if c >= CHAN_ONE {
        255
    } else {
        ((c as u64) / 256) as u8
    }
}

} // verus!
