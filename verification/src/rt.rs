//! The trace engine: hit classification, the pluggable shading strategy, and
//! the nearest-hit traversal over a scene.
//!
//! The traversal is intentionally exhaustive: every triangle of every object
//! is tested, and the accepted hit with the smallest squared plane distance
//! wins, ties broken by the first candidate in iteration order.

use vstd::prelude::*;

use crate::geom::Color;
use crate::num::Frac;
use crate::scene::Scene;
use crate::scene::scene_ok;
use crate::tri::Triangle;
use crate::tri::tri_s;
use crate::tri::tri_wf;
use crate::xform::map_vertex_s;

verus! {

/// Which side of the triangle's plane the ray approached from.
#[derive(Clone, Copy, Debug, PartialEq, Eq, Structural)]
pub enum HitKind {
    Front,
    Back,
}

/// Transient result of a single ray-triangle test.
#[derive(Clone, Copy, Debug)]
pub struct Intersection<RayAttr> {
    /// Data used to describe a hit, say, the position of intersection.
    pub attr: RayAttr,
    /// Front face or back face.
    pub kind: HitKind,
    /// Squared perpendicular distance from the ray origin to the triangle's
    /// plane, as an exact ratio. Comparing these squares orders hits exactly
    /// as the distances themselves would.
    pub t: Frac,
}

/// A raster that the pixel driver writes into, one store per pixel.
pub trait Framebuffer {
    spec fn spec_width(&self) -> u32;

    spec fn spec_height(&self) -> u32;

    /// Whether the pixel at `(x, y)` has received a store.
    spec fn stored(&self, x: u32, y: u32) -> bool;

    fn width(&self) -> (r: u32)
        ensures
            r == self.spec_width(),
    ;

    fn height(&self) -> (r: u32)
        ensures
            r == self.spec_height(),
    ;

    /// A store marks exactly its own pixel as stored and keeps every other
    /// pixel's mark and the dimensions.
    fn store(&mut self, x: u32, y: u32, color: Color)
        requires
            x < old(self).spec_width(),
            y < old(self).spec_height(),
        ensures
            final(self).spec_width() == old(self).spec_width(),
            final(self).spec_height() == old(self).spec_height(),
            final(self).stored(x, y),
            forall|a: u32, b: u32| old(self).stored(a, b) ==> #[trigger] final(self).stored(a, b),
            forall|a: u32, b: u32|
                #[trigger] final(self).stored(a, b) ==> old(self).stored(a, b) || (a == x && b
                    == y),
    ;
}

/// The geometric half of a shading strategy: the scene, the intersection
/// test, and the acceptance filter — everything the nearest-hit scan calls.
/// The spec functions pin down what `intersect` computes and which hits
/// `any_hit` accepts.
pub trait RayCaster: Sized {
    type Material;

    /// User specified data for computation.
    type Payload;

    /// Ray data.
    type Ray: Clone;

    /// Data that describes how a ray intersected with a primitive.
    type RayAttr;

    /// The scene the tracer is bound to.
    spec fn spec_scene(&self) -> Scene<Self::Material>;

    /// When the tracer may be asked to trace: its scene and configuration
    /// are in shape.
    spec fn ready(&self) -> bool;

    /// Which rays the tracer accepts.
    spec fn ray_valid(&self, ray: Self::Ray) -> bool;

    /// The functional model of `intersect`.
    spec fn isect(&self, ray: Self::Ray, tri: Triangle, mat: Self::Material) -> Option<
        Intersection<Self::RayAttr>,
    >;

    /// Which intersections `any_hit` accepts as traversal candidates.
    spec fn accepts(
        &self,
        ray: Self::Ray,
        tri: Triangle,
        itx: Intersection<Self::RayAttr>,
        payload: Self::Payload,
        mat: Self::Material,
    ) -> bool;

    /// Determine whether a ray intersected with a primitive.
    fn intersect(&self, ray: &Self::Ray, tri: &Triangle, mat: &Self::Material) -> (r: Option<
        Intersection<Self::RayAttr>,
    >)
        requires
            self.ready(),
            self.ray_valid(*ray),
            tri_wf(*tri),
        ensures
            r == self.isect(*ray, *tri, *mat),
            r matches Some(itx) ==> itx.t.cmp_ok(),
    ;

    /// The ray hit an object; returns whether the hit is accepted. The
    /// payload is read, never changed, so which hits a traversal accepts is
    /// fixed by the payload it started with.
    fn any_hit(
        &self,
        ray: &Self::Ray,
        tri: &Triangle,
        itx: &Intersection<Self::RayAttr>,
        payload: &mut Self::Payload,
        mat: &Self::Material,
    ) -> (r: bool)
        requires
            self.ready(),
            self.ray_valid(*ray),
            tri_wf(*tri),
        ensures
            *final(payload) == *old(payload),
            r == self.accepts(*ray, *tri, *itx, *old(payload), *mat),
    ;

    /// The scene the tracer is bound to.
    fn scene(&self) -> (r: &Scene<Self::Material>)
        ensures
            *r == self.spec_scene(),
    ;

}

/// The full shading strategy: ray generation and the hit/miss shading on top
/// of the geometric callbacks. `closest_hit` is where recursion happens: a
/// typical implementation spawns secondary rays and traces them with an
/// incremented recursion counter carried in the payload.
pub trait RayTracer: RayCaster {
    /// The color `miss` reports.
    spec fn miss_val(&self, ray: Self::Ray, payload: Self::Payload) -> Color;

    /// An invariant on the payload that every shading callback preserves;
    /// a tracer that bounds its recursion keeps the bound here.
    spec fn payload_ok(&self, payload: Self::Payload) -> bool;

    /// Generate rays for one pixel and trace them to a color.
    fn ray_gen(&self, x: u32, y: u32, w: u32, h: u32) -> Color
        requires
            self.ready(),
            scene_ok(self.spec_scene()),
            x < w,
            y < h,
    ;

    /// The ray hit nothing after every scene object was checked.
    fn miss(&self, ray: &Self::Ray, payload: &mut Self::Payload) -> (r: Color)
        requires
            self.ready(),
            self.ray_valid(*ray),
        ensures
            r == self.miss_val(*ray, *old(payload)),
            self.payload_ok(*old(payload)) ==> self.payload_ok(*final(payload)),
    ;

    /// The ray hit the nearest accepted primitive.
    fn closest_hit(
        &self,
        ray: &Self::Ray,
        tri: &Triangle,
        itx: &Intersection<Self::RayAttr>,
        payload: &mut Self::Payload,
        mat: &Self::Material,
    ) -> (r: Color)
        requires
            self.ready(),
            scene_ok(self.spec_scene()),
            self.ray_valid(*ray),
            tri_wf(*tri),
            self.isect(*ray, *tri, *mat) == (Some(*itx)),
        ensures
            self.payload_ok(*old(payload)) ==> self.payload_ok(*final(payload)),
    ;
}

/// Walk every triangle of every object and return the nearest accepted hit:
/// its object index, triangle index, world-space triangle and intersection —
/// or `None` when no hit is accepted. The payload is handed to `any_hit` and
/// comes back unchanged.
pub fn scan<T: RayCaster>(rt: &T, ray: &T::Ray, payload: &mut T::Payload) -> (r: Option<
    (usize, usize, Triangle, Intersection<T::RayAttr>),
>)
    requires
        rt.ready(),
        scene_ok(rt.spec_scene()),
        rt.ray_valid(*ray),
    ensures
        *final(payload) == *old(payload),
        r is None ==> forall|a: int, b: int| !hit_at(rt, *ray, *old(payload), a, b),
        r matches Some(q) ==> {
            &&& chosen_hit(rt, *ray, *old(payload), q.0 as int, q.1 as int)
            &&& q.2 == tri_at(rt, q.0 as int, q.1 as int)
            &&& Some(q.3) == isect_at(rt, *ray, q.0 as int, q.1 as int)
            &&& q.3.t.cmp_ok()
        },
{
    let scene = rt.scene();
    let nobj: usize = scene.objs.len();
    let mut best: Option<(usize, usize, Triangle, Intersection<T::RayAttr>)> = None;
    let mut i: usize = 0;
    while i < nobj
        invariant
            rt.ready(),
            scene_ok(rt.spec_scene()),
            rt.ray_valid(*ray),
            *scene == rt.spec_scene(),
            nobj == scene.objs@.len(),
            i <= nobj,
            *payload == *old(payload),
            best is None ==> no_hit_before(rt, *ray, *old(payload), i as int, 0),
            best matches Some(q) ==> {
                &&& best_before(rt, *ray, *old(payload), i as int, 0, q.0 as int, q.1 as int)
                &&& q.2 == tri_at(rt, q.0 as int, q.1 as int)
                &&& Some(q.3) == isect_at(rt, *ray, q.0 as int, q.1 as int)
                &&& q.3.t.cmp_ok()
            },
        decreases nobj - i,
    {
        let obj = &scene.objs[i];
        let nv: usize = obj.verts.len();
        let mut verts: Vec<crate::geom::Point> = Vec::new();
        let mut k: usize = 0;
        while k < nv
            invariant
                *obj == rt.spec_scene().objs@[i as int],
                scene_ok(rt.spec_scene()),
                0 <= i < rt.spec_scene().objs@.len(),
                nv == obj.verts@.len(),
                k <= nv,
                verts@.len() == k,
                forall|m: int|
                    0 <= m < k ==> #[trigger] verts@[m] == map_vertex_s(
                        obj.world2obj,
                        obj.verts@[m],
                    ) && crate::geom::point_ok(verts@[m]),
            decreases nv - k,
        {
            let p = obj.world2obj.map_vertex(obj.verts[k]);
            verts.push(p);
            k += 1;
        }
        let ntri: usize = obj.idxs.len();
        let mut j: usize = 0;
        while j < ntri
            invariant
                rt.ready(),
                scene_ok(rt.spec_scene()),
                rt.ray_valid(*ray),
                *scene == rt.spec_scene(),
                nobj == scene.objs@.len(),
                *obj == rt.spec_scene().objs@[i as int],
                0 <= i < nobj,
                ntri == obj.idxs@.len(),
                j <= ntri,
                verts@.len() == obj.verts@.len(),
                forall|m: int|
                    0 <= m < verts@.len() ==> #[trigger] verts@[m] == map_vertex_s(
                        obj.world2obj,
                        obj.verts@[m],
                    ) && crate::geom::point_ok(verts@[m]),
                *payload == *old(payload),
                best is None ==> no_hit_before(rt, *ray, *old(payload), i as int, j as int),
                best matches Some(q) ==> {
                    &&& best_before(
                        rt,
                        *ray,
                        *old(payload),
                        i as int,
                        j as int,
                        q.0 as int,
                        q.1 as int,
                    )
                    &&& q.2 == tri_at(rt, q.0 as int, q.1 as int)
                    &&& Some(q.3) == isect_at(rt, *ray, q.0 as int, q.1 as int)
                    &&& q.3.t.cmp_ok()
                },
            decreases ntri - j,
        {
            let idx = obj.idxs[j];
            let tri = Triangle::new(verts[idx.0], verts[idx.1], verts[idx.2]);
            proof {
                assert(tri == tri_at(rt, i as int, j as int));
            }
            let found = rt.intersect(ray, &tri, &obj.mat);
            match found {
                Option::Some(itx) => {
                    let accepted = rt.any_hit(ray, &tri, &itx, payload, &obj.mat);
                    if accepted {
                        proof {
                            assert(hit_at(rt, *ray, *old(payload), i as int, j as int));
                        }
                        let take: bool = match &best {
                            Option::None => true,
                            Option::Some(q) => itx.t.lt(&q.3.t),
                        };
                        if take {
                            proof {
                                match best {
                                    Option::Some(q) => {
                                        // every earlier accepted hit is at
                                        // least as far as the old best, and
                                        // the new hit is strictly closer
                                        assert forall|a: int, b: int|
                                            #[trigger] hit_at(rt, *ray, *old(payload), a, b)
                                                && lex_lt(a, b, i as int, j as int) implies t_at(
                                            rt,
                                            *ray,
                                            i as int,
                                            j as int,
                                        ).spec_lt(t_at(rt, *ray, a, b)) by {
                                            crate::num::lemma_frac_lt_trans(
                                                t_at(rt, *ray, i as int, j as int),
                                                t_at(rt, *ray, q.0 as int, q.1 as int),
                                                t_at(rt, *ray, a, b),
                                            );
                                        }
                                    },
                                    Option::None => {},
                                }
                            }
                            best = Some((i, j, tri, itx));
                        }
                    } else {
                        proof {
                            assert(!hit_at(rt, *ray, *old(payload), i as int, j as int));
                        }
                    }
                },
                Option::None => {
                    proof {
                        assert(!hit_at(rt, *ray, *old(payload), i as int, j as int));
                    }
                },
            }
            j += 1;
        }
        i += 1;
    }
    best
}

/// The triangle the traversal builds for a valid index pair of a
/// well-formed scene is itself well-formed.
pub proof fn lemma_tri_at_wf<T: RayCaster>(rt: &T, i: int, j: int)
    requires
        scene_ok(rt.spec_scene()),
        valid_idx(rt, i, j),
    ensures
        tri_wf(tri_at(rt, i, j)),
{
    let o = rt.spec_scene().objs@[i];
    let idx = o.idxs@[j];
    let a = map_vertex_s(o.world2obj, o.verts@[idx.0 as int]);
    let b = map_vertex_s(o.world2obj, o.verts@[idx.1 as int]);
    let c = map_vertex_s(o.world2obj, o.verts@[idx.2 as int]);
    let x0: int = b.0 - a.0;
    let x1: int = b.1 - a.1;
    let x2: int = b.2 - a.2;
    let y0: int = c.0 - a.0;
    let y1: int = c.1 - a.1;
    let y2: int = c.2 - a.2;
    crate::num::lemma_mul_le(y1, x2, 2048, 2048);
    crate::num::lemma_mul_le(y2, x1, 2048, 2048);
    crate::num::lemma_mul_le(y2, x0, 2048, 2048);
    crate::num::lemma_mul_le(y0, x2, 2048, 2048);
    crate::num::lemma_mul_le(y0, x1, 2048, 2048);
    crate::num::lemma_mul_le(y1, x0, 2048, 2048);
}

/// Trace a ray in the scene: the closest accepted hit is shaded by
/// `closest_hit`, and a ray that hits nothing is shaded by `miss`.
pub fn trace<T: RayTracer>(rt: &T, ray: T::Ray, payload: &mut T::Payload) -> (r: Color)
    requires
        rt.ready(),
        scene_ok(rt.spec_scene()),
        rt.ray_valid(ray),
    ensures
        (forall|a: int, b: int| !hit_at(rt, ray, *old(payload), a, b)) ==> r
            == rt.miss_val(ray, *old(payload)),
        rt.payload_ok(*old(payload)) ==> rt.payload_ok(*final(payload)),
{
    let hit = scan(rt, &ray, payload);
    match hit {
        Option::Some(q) => {
            proof {
                lemma_tri_at_wf(rt, q.0 as int, q.1 as int);
            }
            let scene = rt.scene();
            let mat = &scene.objs[q.0].mat;
            rt.closest_hit(&ray, &q.2, &q.3, payload, mat)
        },
        Option::None => rt.miss(&ray, payload),
    }
}

/// Drive the raster: generate and trace rays for every pixel and store each
/// result. On return every pixel of the raster has received its store.
pub fn draw<T: RayTracer, FB: Framebuffer>(rt: &T, framebuf: &mut FB)
    requires
        rt.ready(),
        scene_ok(rt.spec_scene()),
    ensures
        final(framebuf).spec_width() == old(framebuf).spec_width(),
        final(framebuf).spec_height() == old(framebuf).spec_height(),
        forall|a: u32, b: u32|
            a < old(framebuf).spec_width() && b < old(framebuf).spec_height()
                ==> #[trigger] final(framebuf).stored(a, b),
{
    let w = framebuf.width();
    let h = framebuf.height();
    let mut x: u32 = 0;
    while x < w
        invariant
            rt.ready(),
            scene_ok(rt.spec_scene()),
            w == framebuf.spec_width(),
            h == framebuf.spec_height(),
            framebuf.spec_width() == old(framebuf).spec_width(),
            framebuf.spec_height() == old(framebuf).spec_height(),
            forall|a: u32, b: u32| a < x && b < h ==> #[trigger] framebuf.stored(a, b),
        decreases w - x,
    {
        let mut y: u32 = 0;
        while y < h
            invariant
                rt.ready(),
                scene_ok(rt.spec_scene()),
                x < w,
                w == framebuf.spec_width(),
                h == framebuf.spec_height(),
                framebuf.spec_width() == old(framebuf).spec_width(),
                framebuf.spec_height() == old(framebuf).spec_height(),
                forall|a: u32, b: u32| a < x && b < h ==> #[trigger] framebuf.stored(a, b),
                forall|b: u32| b < y ==> #[trigger] framebuf.stored(x, b),
            decreases h - y,
        {
            let c = rt.ray_gen(x, y, w, h);
            framebuf.store(x, y, c);
            y += 1;
        }
        x += 1;
    }
}

/// Iteration order of the traversal: object index first, then triangle
/// index.
pub open spec fn lex_lt(a1: int, b1: int, a2: int, b2: int) -> bool {
    a1 < a2 || (a1 == a2 && b1 < b2)
}

pub open spec fn valid_idx<T: RayCaster>(rt: &T, i: int, j: int) -> bool {
    &&& 0 <= i < rt.spec_scene().objs@.len()
    &&& 0 <= j < rt.spec_scene().objs@[i].idxs@.len()
}

/// The world-space triangle the traversal builds for object `i`, triangle
/// `j`: the object's vertices through its traversal transform, quantised to
/// the lattice.
pub open spec fn tri_at<T: RayCaster>(rt: &T, i: int, j: int) -> Triangle {
    let o = rt.spec_scene().objs@[i];
    let idx = o.idxs@[j];
    tri_s(
        map_vertex_s(o.world2obj, o.verts@[idx.0 as int]),
        map_vertex_s(o.world2obj, o.verts@[idx.1 as int]),
        map_vertex_s(o.world2obj, o.verts@[idx.2 as int]),
    )
}

pub open spec fn isect_at<T: RayCaster>(rt: &T, ray: T::Ray, i: int, j: int) -> Option<
    Intersection<T::RayAttr>,
> {
    rt.isect(ray, tri_at(rt, i, j), rt.spec_scene().objs@[i].mat)
}

/// Triangle `(i, j)` is hit by the ray and the hit is accepted. The
/// comparability of the reported distance is part of the `intersect`
/// contract, so it holds of every hit an implementation can report.
pub open spec fn hit_at<T: RayCaster>(rt: &T, ray: T::Ray, pl: T::Payload, i: int, j: int) -> bool {
    &&& valid_idx(rt, i, j)
    &&& isect_at(rt, ray, i, j) is Some
    &&& (isect_at(rt, ray, i, j)->0).t.cmp_ok()
    &&& rt.accepts(ray, tri_at(rt, i, j), isect_at(rt, ray, i, j)->0, pl, rt.spec_scene().objs@[i].mat)
}

pub open spec fn t_at<T: RayCaster>(rt: &T, ray: T::Ray, i: int, j: int) -> Frac {
    (isect_at(rt, ray, i, j)->0).t
}

/// Triangle `(i, j)` is the traversal's result: an accepted hit, no accepted
/// hit is strictly closer, and every accepted hit earlier in iteration order
/// is strictly farther.
pub open spec fn chosen_hit<T: RayCaster>(
    rt: &T,
    ray: T::Ray,
    pl: T::Payload,
    i: int,
    j: int,
) -> bool {
    &&& hit_at(rt, ray, pl, i, j)
    &&& forall|a: int, b: int|
        #[trigger] hit_at(rt, ray, pl, a, b) ==> !t_at(rt, ray, a, b).spec_lt(t_at(rt, ray, i, j))
    &&& forall|a: int, b: int|
        #[trigger] hit_at(rt, ray, pl, a, b) && lex_lt(a, b, i, j) ==> t_at(
            rt,
            ray,
            i,
            j,
        ).spec_lt(t_at(rt, ray, a, b))
}

/// No accepted hit lies before position `(bi, bj)` in iteration order.
pub open spec fn no_hit_before<T: RayCaster>(
    rt: &T,
    ray: T::Ray,
    pl: T::Payload,
    bi: int,
    bj: int,
) -> bool {
    forall|a: int, b: int| #[trigger] hit_at(rt, ray, pl, a, b) ==> !lex_lt(a, b, bi, bj)
}

/// `(oi, oj)` is the traversal's result restricted to the hits before
/// position `(bi, bj)`.
pub open spec fn best_before<T: RayCaster>(
    rt: &T,
    ray: T::Ray,
    pl: T::Payload,
    bi: int,
    bj: int,
    oi: int,
    oj: int,
) -> bool {
    &&& hit_at(rt, ray, pl, oi, oj)
    &&& lex_lt(oi, oj, bi, bj)
    &&& forall|a: int, b: int|
        #[trigger] hit_at(rt, ray, pl, a, b) && lex_lt(a, b, bi, bj) ==> !t_at(
            rt,
            ray,
            a,
            b,
        ).spec_lt(t_at(rt, ray, oi, oj))
    &&& forall|a: int, b: int|
        #[trigger] hit_at(rt, ray, pl, a, b) && lex_lt(a, b, oi, oj) ==> t_at(
            rt,
            ray,
            oi,
            oj,
        ).spec_lt(t_at(rt, ray, a, b))
}

} // verus!
