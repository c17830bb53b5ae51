//! The environment sampler: a direction picks one of six cube faces by its
//! dominant axis, and the remaining components select a pixel on that face.

use vstd::prelude::*;

use crate::geom::Color;
use crate::geom::Vector;
use crate::geom::vec_ok;
use crate::img::Image;
use crate::num::absi;
use crate::num::div_trunc;

verus! {

/// The dominant axis of a direction: the index of the component of largest
/// magnitude, the later index winning ties.
pub open spec fn axis_of(v: Vector) -> int {
    let a0 = absi(v.0 as int);
    let a1 = absi(v.1 as int);
    let a2 = absi(v.2 as int);
    let i01: int = if a1 >= a0 {
        1
    } else {
        0
    };
    let a01 = if a1 >= a0 {
        a1
    } else {
        a0
    };
    if a2 >= a01 {
        2
    } else {
        i01
    }
}

/// The cube face a direction selects: the dominant axis, its positive sign
/// taking the even face.
pub open spec fn face_of(v: Vector) -> int {
    let ax = axis_of(v);
    if ax == 0 {
        if v.0 > 0 {
            0
        } else {
            1
        }
    } else if ax == 1 {
        if v.1 > 0 {
            2
        } else {
            3
        }
    } else {
        if v.2 > 0 {
            4
        } else {
            5
        }
    }
}

/// Magnitude of the dominant component.
pub open spec fn face_m(v: Vector) -> int {
    let ax = axis_of(v);
    if ax == 0 {
        absi(v.0 as int)
    } else if ax == 1 {
        absi(v.1 as int)
    } else {
        absi(v.2 as int)
    }
}

/// The face-local horizontal component, per the fixed per-face remapping.
pub open spec fn face_u(v: Vector) -> int {
    let f = face_of(v);
    if f == 0 {
        -v.2 as int
    } else if f == 1 {
        v.2 as int
    } else if f == 5 {
        -v.0 as int
    } else {
        v.0 as int
    }
}

/// The face-local vertical component, per the fixed per-face remapping.
pub open spec fn face_w(v: Vector) -> int {
    let f = face_of(v);
    if f == 2 {
        -v.2 as int
    } else if f == 3 {
        v.2 as int
    } else {
        v.1 as int
    }
}

/// A face-local component in `[-m, m]` mapped to a pixel index in
/// `[0, dim)`: `(c/m + 1) / 2` scaled to the last pixel index, truncated.
pub open spec fn px_coord(c: int, m: int, dim: int) -> int {
    ((c + m) * (dim - 1)) / (2 * m)
}

/// What the cube sampler requires of its six face images.
pub open spec fn faces_ok(imgs: Seq<Image>) -> bool {
    forall|k: int|
        0 <= k < imgs.len() ==> (#[trigger] imgs[k]).wf() && imgs[k].spec_width() >= 1
            && imgs[k].spec_height() >= 1
}

/// A sampler maps a direction to a color using a set of pre-loaded images.
pub trait Sampler {
    /// The image-set shape this sampler accepts.
    spec fn spec_validate(&self, imgs: Seq<Image>) -> bool;

    /// What must hold of the images and the direction before sampling.
    spec fn sample_pre(&self, imgs: Seq<Image>, v: Vector) -> bool;

    /// Validate if `imgs` can be sampled with this sampler.
    fn validate(&self, imgs: &[Image]) -> (r: bool)
        ensures
            r == self.spec_validate(imgs@),
    ;

    /// Sample a color from `imgs`.
    fn sample(&self, imgs: &[Image], v: Vector) -> Color
        requires
            self.spec_validate(imgs@),
            self.sample_pre(imgs@, v),
    ;
}

/// The cube-map sampler over six face images, ordered +X, -X, +Y, -Y, +Z,
/// -Z.
pub struct CubeSampler();

impl Default for CubeSampler {
    fn default() -> (r: CubeSampler)
        ensures
            r == (CubeSampler()),
    {
        CubeSampler()
    }
}

impl Sampler for CubeSampler {
    /// Exactly six faces.
    open spec fn spec_validate(&self, imgs: Seq<Image>) -> bool {
        imgs.len() == 6
    }

    /// Non-empty well-formed faces, and a non-zero direction within the
    /// working volume.
    open spec fn sample_pre(&self, imgs: Seq<Image>, v: Vector) -> bool {
        &&& faces_ok(imgs)
        &&& vec_ok(v)
        &&& !(v.0 == 0 && v.1 == 0 && v.2 == 0)
    }

    fn validate(&self, imgs: &[Image]) -> (r: bool)
        ensures
            r == self.spec_validate(imgs@),
    {
        imgs.len() == 6
    }

    fn sample(&self, imgs: &[Image], v: Vector) -> (r: Color)
        ensures
            ({
                let img = imgs@[face_of(v)];
                r == img.px(
                    px_coord(face_u(v), face_m(v), img.spec_width() as int),
                    px_coord(face_w(v), face_m(v), img.spec_height() as int),
                )
            }),
    {
        self.sample_px(imgs, v)
    }
}

impl CubeSampler {
    /// Sample the face the direction selects, at the pixel its remaining
    /// components pick: the exact cube-map lookup.
    pub fn sample_px(&self, imgs: &[Image], v: Vector) -> (r: Color)
        requires
            imgs@.len() == 6,
            faces_ok(imgs@),
            vec_ok(v),
            !(v.0 == 0 && v.1 == 0 && v.2 == 0),
        ensures
            ({
                let f = face_of(v);
                let img = imgs@[f];
                r == img.px(
                    px_coord(face_u(v), face_m(v), img.spec_width() as int),
                    px_coord(face_w(v), face_m(v), img.spec_height() as int),
                )
            }),
    {
        let a0: i64 = if v.0 >= 0 {
            v.0
        } else {
            -v.0
        };
        let a1: i64 = if v.1 >= 0 {
            v.1
        } else {
            -v.1
        };
        let a2: i64 = if v.2 >= 0 {
            v.2
        } else {
            -v.2
        };
        let mut ax: usize = 0;
        let mut m: i64 = a0;
        if a1 >= m {
            ax = 1;
            m = a1;
        }
        if a2 >= m {
            ax = 2;
            m = a2;
        }
        proof {
            assert(ax as int == axis_of(v));
            assert(m as int == face_m(v));
            assert(m >= 1);
        }
        let fu: i64;
        let fw: i64;
        let fi: usize;
        if ax == 0 {
            if v.0 > 0 {
                fu = -v.2;
                fw = v.1;
                fi = 0;
            } else {
                fu = v.2;
                fw = v.1;
                fi = 1;
            }
        } else if ax == 1 {
            if v.1 > 0 {
                fu = v.0;
                fw = -v.2;
                fi = 2;
            } else {
                fu = v.0;
                fw = v.2;
                fi = 3;
            }
        } else {
            if v.2 > 0 {
                fu = v.0;
                fw = v.1;
                fi = 4;
            } else {
                fu = -v.0;
                fw = v.1;
                fi = 5;
            }
        }
        proof {
            assert(fi as int == face_of(v));
            assert(fu as int == face_u(v));
            assert(fw as int == face_w(v));
            assert(-m <= fu <= m);
            assert(-m <= fw <= m);
        }
        let img = &imgs[fi];
        let px = face_px(fu, m, img.width());
        let py = face_px(fw, m, img.height());
        img.load_px(px, py)
    }
}

/// One pixel coordinate of the cube lookup: exact integer form of
/// `trunc(clamp01((c/m + 1) / 2) * (dim - 1))` for `|c| <= m`.
fn face_px(c: i64, m: i64, dim: usize) -> (r: usize)
    requires
        m >= 1,
        -m <= c <= m,
        -1024 <= c <= 1024,
        m <= 1024,
        dim >= 1,
    ensures
        r == px_coord(c as int, m as int, dim as int),
        r < dim,
{
    proof {
        crate::num::lemma_mul_le((c + m) as int, (dim - 1) as int, 2048, 0xffffffffffffffff);
    }
    let num: i128 = ((c + m) as i128) * ((dim - 1) as i128);
    let den: i128 = 2 * (m as i128);
    proof {
        assert(num >= 0) by (nonlinear_arith)
            requires
                num == (c + m) * (dim - 1),
                c + m >= 0,
                dim >= 1,
        ;
        assert(num <= (2 * m) * (dim - 1)) by (nonlinear_arith)
            requires
                num == (c + m) * (dim - 1),
                0 <= c + m <= 2 * m,
                dim >= 1,
        ;
        vstd::arithmetic::div_mod::lemma_div_pos_is_pos(num as int, den as int);
        vstd::arithmetic::div_mod::lemma_div_is_ordered(
            num as int,
            (2 * m) * (dim - 1),
            den as int,
        );
        vstd::arithmetic::div_mod::lemma_div_by_multiple((dim - 1) as int, (2 * m) as int);
        assert((2 * m) * (dim - 1) == ((dim - 1) as int) * ((2 * m) as int)) by (nonlinear_arith);
    }
    let q: i128 = div_trunc(num, den);
    q as usize
}

} // verus!
