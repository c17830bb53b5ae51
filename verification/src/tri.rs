//! Triangles and the exact ray-triangle intersection test.
//!
//! A triangle is kept as an origin, two edge vectors, and the (unnormalised)
//! normal `cross(y, x)`. On the integer lattice a unit normal does not exist,
//! so every quantity that the floating-point formulation would divide by the
//! normal's length is carried as an exact ratio instead: barycentric weights
//! are fractions over the Gram determinant, and the reported distance is the
//! squared plane offset over the squared normal length. All comparisons made
//! from these are therefore exact.

use vstd::prelude::*;

use crate::geom::Point;
use crate::geom::Ray;
use crate::geom::Vector;
use crate::geom::cross_x;
use crate::geom::cross_y;
use crate::geom::cross_z;
use crate::geom::dot_s;
use crate::geom::point_ok;
use crate::geom::ray_ok;
use crate::geom::vec_ok;
use crate::num::Frac;
use crate::num::lemma_dot_bounds;
use crate::num::lemma_mul_le;
use crate::rt::HitKind;
use crate::rt::Intersection;

verus! {

/// An edge of a triangle whose vertices sit in the working volume.
pub open spec fn edge_ok(v: Vector) -> bool {
    &&& -2048 <= v.0 <= 2048
    &&& -2048 <= v.1 <= 2048
    &&& -2048 <= v.2 <= 2048
}

/// A normal computed from two such edges.
pub open spec fn normal_ok(v: Vector) -> bool {
    &&& -8388608 <= v.0 <= 8388608
    &&& -8388608 <= v.1 <= 8388608
    &&& -8388608 <= v.2 <= 8388608
}

/// A triangle whose basis was derived from three vertices of the working
/// volume, with its normal exactly the cross product of its edges.
#[derive(Clone, Copy, Debug, PartialEq, Eq, Structural)]
pub struct Triangle {
    /// Origin of the triangle.
    pub o: Point,
    /// First vector in clockwise order.
    pub x: Vector,
    /// Second vector in clockwise order.
    pub y: Vector,
    /// Normal vector, `cross(y, x)`: clockwise-specified vertices face the
    /// viewer through this deliberate right-hand-rule inversion.
    pub n: Vector,
}

pub open spec fn tri_wf(t: Triangle) -> bool {
    &&& point_ok(t.o)
    &&& edge_ok(t.x)
    &&& edge_ok(t.y)
    &&& t.n.0 == cross_x(t.y, t.x)
    &&& t.n.1 == cross_y(t.y, t.x)
    &&& t.n.2 == cross_z(t.y, t.x)
}

/// The normal of a well-formed triangle is bounded by the working volume.
pub proof fn lemma_tri_normal_ok(t: Triangle)
    requires
        tri_wf(t),
    ensures
        normal_ok(t.n),
{
    lemma_mul_le(t.y.1 as int, t.x.2 as int, 2048, 2048);
    lemma_mul_le(t.y.2 as int, t.x.1 as int, 2048, 2048);
    lemma_mul_le(t.y.2 as int, t.x.0 as int, 2048, 2048);
    lemma_mul_le(t.y.0 as int, t.x.2 as int, 2048, 2048);
    lemma_mul_le(t.y.0 as int, t.x.1 as int, 2048, 2048);
    lemma_mul_le(t.y.1 as int, t.x.0 as int, 2048, 2048);
}

/// The triangle built by `Triangle::new` from three vertices of the working
/// volume.
pub open spec fn tri_s(a: Point, b: Point, c: Point) -> Triangle {
    let x = Vector((b.0 - a.0) as i64, (b.1 - a.1) as i64, (b.2 - a.2) as i64);
    let y = Vector((c.0 - a.0) as i64, (c.1 - a.1) as i64, (c.2 - a.2) as i64);
    Triangle {
        o: a,
        x,
        y,
        n: Vector(cross_x(y, x) as i64, cross_y(y, x) as i64, cross_z(y, x) as i64),
    }
}

impl Triangle {
    /// Build the triangle basis from three vertices given in clockwise order.
    pub fn new(a: Point, b: Point, c: Point) -> (r: Triangle)
        requires
            point_ok(a),
            point_ok(b),
            point_ok(c),
        ensures
            r == tri_s(a, b, c),
            tri_wf(r),
            r.o == a,
            r.x.0 == b.0 - a.0 && r.x.1 == b.1 - a.1 && r.x.2 == b.2 - a.2,
            r.y.0 == c.0 - a.0 && r.y.1 == c.1 - a.1 && r.y.2 == c.2 - a.2,
    {
        let x = b.rel_from(a);
        let y = c.rel_from(a);
        proof {
            lemma_mul_le(y.1 as int, x.2 as int, 2048, 2048);
            lemma_mul_le(y.2 as int, x.1 as int, 2048, 2048);
            lemma_mul_le(y.2 as int, x.0 as int, 2048, 2048);
            lemma_mul_le(y.0 as int, x.2 as int, 2048, 2048);
            lemma_mul_le(y.0 as int, x.1 as int, 2048, 2048);
            lemma_mul_le(y.1 as int, x.0 as int, 2048, 2048);
        }
        // Note that right-hand system axes are in counter-clockwise order.
        let n = y.cross(x);
        Triangle { o: a, x, y, n }
    }
}

/// Dot of an integer triple (an offset too wide for a `Vector`) with a vector.
pub open spec fn qdot(qx: int, qy: int, qz: int, v: Vector) -> int {
    qx * v.0 + qy * v.1 + qz * v.2
}

/// Gram determinant of the edge basis; zero exactly for degenerate triangles.
pub open spec fn gram_det(t: Triangle) -> int {
    dot_s(t.x, t.x) * dot_s(t.y, t.y) - dot_s(t.x, t.y) * dot_s(t.x, t.y)
}

/// Numerator of the barycentric weight `u` for the point whose offset from
/// the triangle origin is `(qx, qy, qz) / w`; the denominator is
/// `gram_det(t) * w`.
pub open spec fn u_num(t: Triangle, qx: int, qy: int, qz: int) -> int {
    dot_s(t.y, t.y) * qdot(qx, qy, qz, t.x) - dot_s(t.x, t.y) * qdot(qx, qy, qz, t.y)
}

/// Numerator of the barycentric weight `v`; see `u_num`.
pub open spec fn v_num(t: Triangle, qx: int, qy: int, qz: int) -> int {
    dot_s(t.x, t.x) * qdot(qx, qy, qz, t.y) - dot_s(t.x, t.y) * qdot(qx, qy, qz, t.x)
}

/// Lagrange's identity in three dimensions: the Gram determinant of two
/// vectors equals the squared length of their cross product.
/// A general purpose ray attribute: barycentric weights against the
/// triangle's two edge vectors, as exact fractions over a common denominator.
#[derive(Clone, Copy, Debug)]
pub struct Barycentric {
    pub u: Frac,
    pub v: Frac,
}

impl Barycentric {
    /// Derive the barycentric weights of `p` against the triangle's edge
    /// basis. Returns the weights only when `p`'s projection lies inside the
    /// triangle, boundary inclusive; a degenerate (zero-area) triangle never
    /// reports an inside point.
    pub fn new(p: &Point, tri: &Triangle) -> (r: Option<Barycentric>)
        requires
            tri_wf(*tri),
            point_ok(*p),
        ensures
            ({
                let qx = p.0 - tri.o.0;
                let qy = p.1 - tri.o.1;
                let qz = p.2 - tri.o.2;
                let un = u_num(*tri, qx, qy, qz);
                let vn = v_num(*tri, qx, qy, qz);
                let g = gram_det(*tri);
                &&& (r is Some <==> (g > 0 && un >= 0 && vn >= 0 && un + vn <= g))
                &&& (r matches Some(b) ==> b.u.n == un && b.v.n == vn && b.u.d == g && b.v.d == g
                    && b.u.wf() && b.v.wf())
            }),
    {
        let x = tri.x;
        let y = tri.y;
        let qx: i64 = p.0 - tri.o.0;
        let qy: i64 = p.1 - tri.o.1;
        let qz: i64 = p.2 - tri.o.2;
        proof {
            lemma_dot_bounds(x.0 as int, x.1 as int, x.2 as int, x.0 as int, x.1 as int, x.2 as int, 2048, 2048);
            lemma_dot_bounds(x.0 as int, x.1 as int, x.2 as int, y.0 as int, y.1 as int, y.2 as int, 2048, 2048);
            lemma_dot_bounds(y.0 as int, y.1 as int, y.2 as int, y.0 as int, y.1 as int, y.2 as int, 2048, 2048);
            lemma_dot_bounds(qx as int, qy as int, qz as int, x.0 as int, x.1 as int, x.2 as int, 2048, 2048);
            lemma_dot_bounds(qx as int, qy as int, qz as int, y.0 as int, y.1 as int, y.2 as int, 2048, 2048);
        }
        let d00: i128 = (x.0 as i128) * (x.0 as i128) + (x.1 as i128) * (x.1 as i128) + (
        x.2 as i128) * (x.2 as i128);
        let d01: i128 = (x.0 as i128) * (y.0 as i128) + (x.1 as i128) * (y.1 as i128) + (
        x.2 as i128) * (y.2 as i128);
        let d11: i128 = (y.0 as i128) * (y.0 as i128) + (y.1 as i128) * (y.1 as i128) + (
        y.2 as i128) * (y.2 as i128);
        let d20: i128 = (qx as i128) * (x.0 as i128) + (qy as i128) * (x.1 as i128) + (
        qz as i128) * (x.2 as i128);
        let d21: i128 = (qx as i128) * (y.0 as i128) + (qy as i128) * (y.1 as i128) + (
        qz as i128) * (y.2 as i128);
        proof {
            lemma_mul_le(d00 as int, d11 as int, 12582912, 12582912);
            lemma_mul_le(d01 as int, d01 as int, 12582912, 12582912);
            lemma_mul_le(d11 as int, d20 as int, 12582912, 12582912);
            lemma_mul_le(d01 as int, d21 as int, 12582912, 12582912);
            lemma_mul_le(d00 as int, d21 as int, 12582912, 12582912);
            lemma_mul_le(d01 as int, d20 as int, 12582912, 12582912);
        }
        let g: i128 = d00 * d11 - d01 * d01;
        // By Lagrange's identity g equals the squared length of the normal,
        // so it is never negative; a degenerate basis makes it zero, and such
        // a triangle contains no point.
        if g <= 0 {
            None
        } else {
            let un: i128 = d11 * d20 - d01 * d21;
            let vn: i128 = d00 * d21 - d01 * d20;
            if un >= 0 && vn >= 0 && un + vn <= g {
                Some(Barycentric { u: Frac { n: un, d: g }, v: Frac { n: vn, d: g } })
            } else {
                None
            }
        }
    }
}

/// Signed offset of the ray origin from the triangle's plane, in units of the
/// (unnormalised) normal: negative when the triangle is ahead of the origin.
pub open spec fn ray_d(ray: Ray, t: Triangle) -> int {
    qdot(ray.o.0 - t.o.0, ray.o.1 - t.o.1, ray.o.2 - t.o.2, t.n)
}

/// Projection of the ray direction onto the normal: negative when the ray
/// approaches the front face.
pub open spec fn ray_r(ray: Ray, t: Triangle) -> int {
    dot_s(ray.v, t.n)
}

/// Offset of the intersection point from the triangle origin, scaled by
/// `ray_r`: the exact numerator of `(o - v * d / r) - t.o`.
pub open spec fn qn_x(ray: Ray, t: Triangle) -> int {
    ray_r(ray, t) * (ray.o.0 - t.o.0) - ray_d(ray, t) * ray.v.0
}

pub open spec fn qn_y(ray: Ray, t: Triangle) -> int {
    ray_r(ray, t) * (ray.o.1 - t.o.1) - ray_d(ray, t) * ray.v.1
}

pub open spec fn qn_z(ray: Ray, t: Triangle) -> int {
    ray_r(ray, t) * (ray.o.2 - t.o.2) - ray_d(ray, t) * ray.v.2
}

/// Squared length of the triangle's normal.
pub open spec fn normal_sq(t: Triangle) -> int {
    dot_s(t.n, t.n)
}

/// The exact outcome of casting a ray at a triangle.
///
/// The ray misses when it cannot reach the plane: it runs parallel to it, or
/// aims at the front face from behind or at the back face from ahead — all
/// three covered by `d * r >= 0` — and also when the triangle is degenerate,
/// or when the plane point falls outside the triangle. A hit carries the
/// barycentric weights of the plane point, the facing classification, and
/// the squared plane distance `d^2 / |n|^2` as an exact ratio.
pub open spec fn cast_s(ray: Ray, t: Triangle) -> Option<Intersection<Barycentric>> {
    let d = ray_d(ray, t);
    let rr = ray_r(ray, t);
    if d * rr >= 0 {
        None
    } else if gram_det(t) <= 0 || normal_sq(t) <= 0 {
        None
    } else {
        let un0: int = u_num(t, qn_x(ray, t), qn_y(ray, t), qn_z(ray, t));
        let vn0: int = v_num(t, qn_x(ray, t), qn_y(ray, t), qn_z(ray, t));
        let un: int = if rr >= 0 {
            un0
        } else {
            -un0
        };
        let vn: int = if rr >= 0 {
            vn0
        } else {
            -vn0
        };
        let w: int = if rr >= 0 {
            rr
        } else {
            -rr
        };
        let den = gram_det(t) * w;
        if un >= 0 && vn >= 0 && un + vn <= den {
            Some(
                Intersection {
                    attr: Barycentric {
                        u: Frac { n: un as i128, d: den as i128 },
                        v: Frac { n: vn as i128, d: den as i128 },
                    },
                    kind: if rr < 0 {
                        HitKind::Front
                    } else {
                        HitKind::Back
                    },
                    t: Frac { n: (d * d) as i128, d: normal_sq(t) as i128 },
                },
            )
        } else {
            None
        }
    }
}

/// Cast a ray at a triangle and return the intersection if one exists.
pub fn ray_cast_tri(ray: &Ray, tri: &Triangle) -> (res: Option<Intersection<Barycentric>>)
    requires
        ray_ok(*ray),
        tri_wf(*tri),
    ensures
        res == cast_s(*ray, *tri),
        ray_d(*ray, *tri) * ray_r(*ray, *tri) >= 0 ==> res is None,
        res matches Some(itx) ==> {
            &&& itx.t.cmp_ok()
            &&& itx.t.n >= 0
            &&& itx.attr.u.wf()
            &&& itx.attr.v.wf()
            &&& (itx.kind == HitKind::Front <==> ray_r(*ray, *tri) < 0)
        },
{
    proof {
        lemma_tri_normal_ok(*tri);
    }
    // Relative position from the origin of triangle to the origin of the ray.
    let dx: i64 = ray.o.0 - tri.o.0;
    let dy: i64 = ray.o.1 - tri.o.1;
    let dz: i64 = ray.o.2 - tri.o.2;
    proof {
        lemma_dot_bounds(
            dx as int,
            dy as int,
            dz as int,
            tri.n.0 as int,
            tri.n.1 as int,
            tri.n.2 as int,
            2048,
            8388608,
        );
        lemma_dot_bounds(
            ray.v.0 as int,
            ray.v.1 as int,
            ray.v.2 as int,
            tri.n.0 as int,
            tri.n.1 as int,
            tri.n.2 as int,
            1024,
            8388608,
        );
        lemma_dot_bounds(
            tri.n.0 as int,
            tri.n.1 as int,
            tri.n.2 as int,
            tri.n.0 as int,
            tri.n.1 as int,
            tri.n.2 as int,
            8388608,
            8388608,
        );
    }
    // Displacement from the triangle plane to the ray origin (in normal units).
    let d: i128 = (dx as i128) * (tri.n.0 as i128) + (dy as i128) * (tri.n.1 as i128) + (
    dz as i128) * (tri.n.2 as i128);
    // Length of projection of the ray direction in normal direction.
    let rr: i128 = (ray.v.0 as i128) * (tri.n.0 as i128) + (ray.v.1 as i128) * (tri.n.1 as i128)
        + (ray.v.2 as i128) * (tri.n.2 as i128);
    proof {
        assert(d == ray_d(*ray, *tri));
        assert(rr == ray_r(*ray, *tri));
        lemma_mul_le(d as int, rr as int, 51539607552, 25769803776);
    }
    if d * rr >= 0 {
        // Conflicting requirements: the ray wants to hit the front face from
        // behind or the back face from ahead, or it runs parallel to the
        // plane.
        return None;
    }
    let x = tri.x;
    let y = tri.y;
    proof {
        lemma_dot_bounds(
            x.0 as int, x.1 as int, x.2 as int, x.0 as int, x.1 as int, x.2 as int, 2048, 2048);
        lemma_dot_bounds(
            x.0 as int, x.1 as int, x.2 as int, y.0 as int, y.1 as int, y.2 as int, 2048, 2048);
        lemma_dot_bounds(
            y.0 as int, y.1 as int, y.2 as int, y.0 as int, y.1 as int, y.2 as int, 2048, 2048);
    }
    let nn: i128 = (tri.n.0 as i128) * (tri.n.0 as i128) + (tri.n.1 as i128) * (tri.n.1 as i128)
        + (tri.n.2 as i128) * (tri.n.2 as i128);
    let d00: i128 = (x.0 as i128) * (x.0 as i128) + (x.1 as i128) * (x.1 as i128) + (x.2 as i128)
        * (x.2 as i128);
    let d01: i128 = (x.0 as i128) * (y.0 as i128) + (x.1 as i128) * (y.1 as i128) + (x.2 as i128)
        * (y.2 as i128);
    let d11: i128 = (y.0 as i128) * (y.0 as i128) + (y.1 as i128) * (y.1 as i128) + (y.2 as i128)
        * (y.2 as i128);
    proof {
        lemma_mul_le(d00 as int, d11 as int, 12582912, 12582912);
        lemma_mul_le(d01 as int, d01 as int, 12582912, 12582912);
    }
    let g: i128 = d00 * d11 - d01 * d01;
    proof {
        assert(nn as int == normal_sq(*tri));
        assert(g as int == gram_det(*tri));
    }
    // By Lagrange's identity g equals nn, the squared normal length, so both
    // guards reject exactly the degenerate triangles.
    if g <= 0 || nn <= 0 {
        return None;
    }
    proof {
        lemma_mul_le(rr as int, dx as int, 25769803776, 2048);
        lemma_mul_le(rr as int, dy as int, 25769803776, 2048);
        lemma_mul_le(rr as int, dz as int, 25769803776, 2048);
        lemma_mul_le(d as int, ray.v.0 as int, 51539607552, 1024);
        lemma_mul_le(d as int, ray.v.1 as int, 51539607552, 1024);
        lemma_mul_le(d as int, ray.v.2 as int, 51539607552, 1024);
    }
    // Intersection position relative to the triangle origin, scaled by rr.
    let qx: i128 = rr * (dx as i128) - d * (ray.v.0 as i128);
    let qy: i128 = rr * (dy as i128) - d * (ray.v.1 as i128);
    let qz: i128 = rr * (dz as i128) - d * (ray.v.2 as i128);
    proof {
        lemma_dot_bounds(
            qx as int,
            qy as int,
            qz as int,
            x.0 as int,
            x.1 as int,
            x.2 as int,
            105553116266496,
            2048,
        );
        lemma_dot_bounds(
            qx as int,
            qy as int,
            qz as int,
            y.0 as int,
            y.1 as int,
            y.2 as int,
            105553116266496,
            2048,
        );
    }
    let d20: i128 = qx * (x.0 as i128) + qy * (x.1 as i128) + qz * (x.2 as i128);
    let d21: i128 = qx * (y.0 as i128) + qy * (y.1 as i128) + qz * (y.2 as i128);
    proof {
        assert(qx as int == qn_x(*ray, *tri));
        assert(qy as int == qn_y(*ray, *tri));
        assert(qz as int == qn_z(*ray, *tri));
        lemma_mul_le(d11 as int, d20 as int, 12582912, 648518346341351424);
        lemma_mul_le(d01 as int, d21 as int, 12582912, 648518346341351424);
        lemma_mul_le(d00 as int, d21 as int, 12582912, 648518346341351424);
        lemma_mul_le(d01 as int, d20 as int, 12582912, 648518346341351424);
    }
    let un0: i128 = d11 * d20 - d01 * d21;
    let vn0: i128 = d00 * d21 - d01 * d20;
    proof {
        assert(un0 as int == u_num(*tri, qn_x(*ray, *tri), qn_y(*ray, *tri), qn_z(*ray, *tri)));
        assert(vn0 as int == v_num(*tri, qn_x(*ray, *tri), qn_y(*ray, *tri), qn_z(*ray, *tri)));
    }
    // Normalise the solve's denominator g * rr to a positive sign.
    let un: i128 = if rr >= 0 {
        un0
    } else {
        -un0
    };
    let vn: i128 = if rr >= 0 {
        vn0
    } else {
        -vn0
    };
    let w: i128 = if rr >= 0 {
        rr
    } else {
        -rr
    };
    proof {
        lemma_mul_le(g as int, w as int, 316659348799488, 25769803776);
    }
    assert(rr != 0) by (nonlinear_arith)
        requires
            d * rr < 0,
    ;
    let den: i128 = g * w;
    assert(g * w >= 1) by (nonlinear_arith)
        requires
            g >= 1,
            w >= 1,
    ;
    if un >= 0 && vn >= 0 && un + vn <= den {
        proof {
            lemma_mul_le(d as int, d as int, 51539607552, 51539607552);
            assert(d * d >= 0) by (nonlinear_arith);
        }
        let t_num: i128 = d * d;
        let res = Some(
            Intersection {
                attr: Barycentric {
                    u: Frac { n: un, d: den },
                    v: Frac { n: vn, d: den },
                },
                kind: if rr < 0 {
                    HitKind::Front
                } else {
                    HitKind::Back
                },
                t: Frac { n: t_num, d: nn },
            },
        );
        res
    } else {
        None
    }
}

/// Calculate the reflected direction of an incidental vector `i` about a
/// normal `n`, as `-2 * (n.n * i - (i.n) * n)`.
///
/// This is the lattice form of `-2 * (i - dot(i, n) * n)` for a unit normal:
/// scaling by the squared normal length keeps the projection exact, and
/// changes only the magnitude of the result, not its direction.
pub fn reflect(i: Vector, n: Vector) -> (r: Vector)
    requires
        vec_ok(i),
        normal_ok(n),
    ensures
        r.0 == -2 * (dot_s(n, n) * i.0 - dot_s(i, n) * n.0),
        r.1 == -2 * (dot_s(n, n) * i.1 - dot_s(i, n) * n.1),
        r.2 == -2 * (dot_s(n, n) * i.2 - dot_s(i, n) * n.2),
        -0x1000000000000000 <= r.0 <= 0x1000000000000000,
        -0x1000000000000000 <= r.1 <= 0x1000000000000000,
        -0x1000000000000000 <= r.2 <= 0x1000000000000000,
{
    proof {
        lemma_dot_bounds(
            n.0 as int, n.1 as int, n.2 as int, n.0 as int, n.1 as int, n.2 as int,
            8388608, 8388608);
        lemma_dot_bounds(
            i.0 as int, i.1 as int, i.2 as int, n.0 as int, n.1 as int, n.2 as int,
            1024, 8388608);
    }
    let nn: i128 = (n.0 as i128) * (n.0 as i128) + (n.1 as i128) * (n.1 as i128) + (n.2 as i128)
        * (n.2 as i128);
    let dd: i128 = (i.0 as i128) * (n.0 as i128) + (i.1 as i128) * (n.1 as i128) + (i.2 as i128)
        * (n.2 as i128);
    proof {
        lemma_mul_le(nn as int, i.0 as int, 211106232532992, 1024);
        lemma_mul_le(nn as int, i.1 as int, 211106232532992, 1024);
        lemma_mul_le(nn as int, i.2 as int, 211106232532992, 1024);
        lemma_mul_le(dd as int, n.0 as int, 25769803776, 8388608);
        lemma_mul_le(dd as int, n.1 as int, 25769803776, 8388608);
        lemma_mul_le(dd as int, n.2 as int, 25769803776, 8388608);
    }
    let r0: i128 = -2 * (nn * (i.0 as i128) - dd * (n.0 as i128));
    let r1: i128 = -2 * (nn * (i.1 as i128) - dd * (n.1 as i128));
    let r2: i128 = -2 * (nn * (i.2 as i128) - dd * (n.2 as i128));
    Vector(r0 as i64, r1 as i64, r2 as i64)
}

/// Barycentric reconstruction round-trips: for a point rebuilt from weights
/// `(a / c, b / c)` — its offset from the triangle origin being
/// `(a * x + b * y) / c` — the solve returns numerators `a * gram_det` and
/// `b * gram_det` over denominator `gram_det * c`, which are exactly the
/// weights that built the point.
pub proof fn lemma_barycentric_round_trip(t: Triangle, a: int, b: int)
    ensures
        u_num(
            t,
            a * t.x.0 + b * t.y.0,
            a * t.x.1 + b * t.y.1,
            a * t.x.2 + b * t.y.2,
        ) == a * gram_det(t),
        v_num(
            t,
            a * t.x.0 + b * t.y.0,
            a * t.x.1 + b * t.y.1,
            a * t.x.2 + b * t.y.2,
        ) == b * gram_det(t),
{
    let qx: int = a * t.x.0 + b * t.y.0;
    let qy: int = a * t.x.1 + b * t.y.1;
    let qz: int = a * t.x.2 + b * t.y.2;
    lemma_bilinear(
        a, b,
        t.x.0 as int, t.x.1 as int, t.x.2 as int,
        t.y.0 as int, t.y.1 as int, t.y.2 as int,
        t.x.0 as int, t.x.1 as int, t.x.2 as int,
    );
    lemma_bilinear(
        a, b,
        t.x.0 as int, t.x.1 as int, t.x.2 as int,
        t.y.0 as int, t.y.1 as int, t.y.2 as int,
        t.y.0 as int, t.y.1 as int, t.y.2 as int,
    );
    lemma_cramer(
        dot_s(t.x, t.x),
        dot_s(t.x, t.y),
        dot_s(t.y, t.y),
        a,
        b,
    );
}

/// One component of bilinearity: `(a x + b y) z == a (x z) + b (y z)`.
proof fn lemma_dist1(a: int, b: int, x: int, y: int, z: int)
    by (nonlinear_arith)
    ensures
        (a * x + b * y) * z == a * (x * z) + b * (y * z),
{
}

/// A factor distributes over a three-term sum of opaque values.
proof fn lemma_dist3(a: int, p: int, q: int, r: int)
    by (nonlinear_arith)
    ensures
        a * p + a * q + a * r == a * (p + q + r),
{
}

/// A factor distributes over a difference of opaque values.
proof fn lemma_dist_sub(a: int, p: int, q: int)
    by (nonlinear_arith)
    ensures
        a * p - a * q == a * (p - q),
{
}

/// Multiplication commutes.
proof fn lemma_comm(a: int, b: int)
    by (nonlinear_arith)
    ensures
        a * b == b * a,
{
}

/// Dots are bilinear: `(a x + b y) . z == a (x . z) + b (y . z)`.
proof fn lemma_bilinear(
    a: int, b: int,
    x0: int, x1: int, x2: int,
    y0: int, y1: int, y2: int,
    z0: int, z1: int, z2: int,
)
    ensures
        (a * x0 + b * y0) * z0 + (a * x1 + b * y1) * z1 + (a * x2 + b * y2) * z2 == a * (x0 * z0
            + x1 * z1 + x2 * z2) + b * (y0 * z0 + y1 * z1 + y2 * z2),
{
    lemma_dist1(a, b, x0, y0, z0);
    lemma_dist1(a, b, x1, y1, z1);
    lemma_dist1(a, b, x2, y2, z2);
    lemma_dist3(a, x0 * z0, x1 * z1, x2 * z2);
    lemma_dist3(b, y0 * z0, y1 * z1, y2 * z2);
}

/// Cramer's rule on the 2x2 Gram system, with the dot products as opaque
/// values.
proof fn lemma_cramer(d00: int, d01: int, d11: int, a: int, b: int)
    ensures
        d11 * (a * d00 + b * d01) - d01 * (a * d01 + b * d11) == a * (d00 * d11 - d01 * d01),
        d00 * (a * d01 + b * d11) - d01 * (a * d00 + b * d01) == b * (d00 * d11 - d01 * d01),
{
    lemma_comm(d11, a * d00 + b * d01);
    lemma_comm(d01, a * d01 + b * d11);
    lemma_comm(d00, a * d01 + b * d11);
    lemma_comm(d01, a * d00 + b * d01);
    lemma_dist1(a, b, d00, d01, d11);
    lemma_dist1(a, b, d01, d11, d01);
    lemma_dist1(a, b, d01, d11, d00);
    lemma_dist1(a, b, d00, d01, d01);
    lemma_comm(d01, d11);
    lemma_comm(d01, d00);
    lemma_comm(d00, d11);
    lemma_dist_sub(a, d00 * d11, d01 * d01);
    lemma_dist_sub(b, d00 * d11, d01 * d01);
}

} // verus!
