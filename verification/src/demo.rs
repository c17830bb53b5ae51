//! A concrete shading strategy: emission plus ambient, a mirrored secondary
//! ray, and a Monte-Carlo diffuse term over a hemisphere of sampled
//! directions, with the recursion bounded by a counter in the payload. The
//! bound is the only termination mechanism, and it is proved: the recursive
//! pair decreases the remaining bounce budget.

use vstd::prelude::*;

use crate::geom::COORD_LIMIT;
use crate::geom::Color;
use crate::geom::Point;
use crate::geom::Ray;
use crate::geom::Vector;
use crate::geom::point_ok;
use crate::geom::ray_ok;
use crate::geom::sat_add_s;
use crate::geom::sat_modulate_s;
use crate::geom::sat_scale_s;
use crate::geom::vec_ok;
use crate::img::Image;
use crate::num::clamp_s;
use crate::num::clamp128;
use crate::num::div_trunc;
use crate::num::div_tz;
use crate::num::lemma_dot_bounds;
use crate::num::lemma_mul_le;
use crate::rt::HitKind;
use crate::rt::Intersection;
use crate::rt::RayCaster;
use crate::rt::RayTracer;
use crate::rt::hit_at;
use crate::sampler::CubeSampler;
use crate::scene::Scene;
use crate::scene::scene_ok;
use crate::tri::Barycentric;
use crate::tri::Triangle;
use crate::tri::cast_s;
use crate::tri::gram_det;
use crate::tri::lemma_tri_normal_ok;
use crate::tri::ray_cast_tri;
use crate::tri::ray_r;
use crate::tri::reflect;
use crate::tri::tri_wf;

verus! {

/// How many times a primary ray may spawn a nested trace.
pub const BOUNCE_LIMIT: i32 = 3;

#[verifier::external_type_specification]
#[verifier::external_body]
pub struct ExSmallRng(rand::rngs::SmallRng);

/// A simplified albedo/emission material.
pub struct PbrMaterial {
    pub albedo: Color,
    pub rough: i64,
    pub metal: i64,
    pub emit: Color,
}

impl Default for PbrMaterial {
    /// All channels and parameters zero.
    fn default() -> (r: PbrMaterial)
        ensures
            r.albedo == (Color(0, 0, 0, 0)),
            r.emit == (Color(0, 0, 0, 0)),
            r.rough == 0,
            r.metal == 0,
    {
        PbrMaterial { albedo: Color(0, 0, 0, 0), rough: 0, metal: 0, emit: Color(0, 0, 0, 0) }
    }
}

/// The per-ray state threaded through the recursion: the bounce counter, the
/// deepest nesting reached, and the random source for diffuse sampling.
pub struct DemoPayload {
    /// Current recursion depth.
    pub depth: i32,
    /// The largest depth this payload ever reached.
    pub peak: i32,
    /// The seedable random source for the Monte-Carlo directions.
    pub rng: rand::rngs::SmallRng,
}

/// Depth and peak counters within the bounce bound.
pub open spec fn counters_ok(p: DemoPayload) -> bool {
    &&& 0 <= p.depth <= BOUNCE_LIMIT
    &&& 0 <= p.peak <= BOUNCE_LIMIT
}

/// The counters leave room for another bounce.
pub open spec fn can_recurse(p: DemoPayload) -> bool {
    &&& 0 <= p.depth < BOUNCE_LIMIT
    &&& 0 <= p.peak <= BOUNCE_LIMIT
}

/// `k` saturating additions of the same color onto transparent black.
pub open spec fn accum_s(c: Color, k: nat) -> Color
    decreases k,
{
    if k == 0 {
        Color(0i64, 0i64, 0i64, 0i64)
    } else {
        sat_add_s(accum_s(c, (k - 1) as nat), c)
    }
}

/// The color a pixel shows when all nine of its sample rays return the same
/// color: their saturating sum, averaged.
pub open spec fn frame_avg(c: Color) -> Color {
    sat_scale_s(accum_s(c, 9), 1, 9)
}

impl DemoPayload {
    /// A fresh payload at depth zero, with its random source seeded.
    pub fn new(seed: u64) -> (r: DemoPayload)
        ensures
            r.depth == 0,
            r.peak == 0,
    {
        DemoPayload { depth: 0, peak: 0, rng: rng_from_seed(seed) }
    }
}

/// Relies on rand's `SeedableRng::seed_from_u64` for `SmallRng`: a generator
/// from a fixed seed.
#[verifier::external_body]
fn rng_from_seed(seed: u64) -> rand::rngs::SmallRng {
    <rand::rngs::SmallRng as rand::SeedableRng>::seed_from_u64(seed)
}

/// Relies on rand's `Rng::gen_range`: a value drawn uniformly below the
/// bound. Only the payload's random source changes.
#[verifier::external_body]
fn rng_below(payload: &mut DemoPayload, bound: u32) -> (r: u32)
    requires
        bound >= 1,
    ensures
        r < bound,
        final(payload).depth == old(payload).depth,
        final(payload).peak == old(payload).peak,
{
    rand::Rng::gen_range(&mut payload.rng, 0..bound)
}

/// One of sixteen quantised directions around the full circle, as a
/// (cosine, sine) pair scaled by 256.
fn circle_dir(k: u32) -> (r: (i64, i64))
    requires
        k < 16,
    ensures
        -256 <= r.0 <= 256,
        -256 <= r.1 <= 256,
{
    match k {
        0u32 => (256, 0),
        1u32 => (237, 98),
        2u32 => (181, 181),
        3u32 => (98, 237),
        4u32 => (0, 256),
        5u32 => (-98, 237),
        6u32 => (-181, 181),
        7u32 => (-237, 98),
        8u32 => (-256, 0),
        9u32 => (-237, -98),
        10u32 => (-181, -181),
        11u32 => (-98, -237),
        12u32 => (0, -256),
        13u32 => (98, -237),
        14u32 => (181, -181),
        _ => (237, -98),
    }
}

/// One of eight quantised latitudes, as a (cosine, sine) pair scaled by 256
/// with a non-negative cosine.
fn semi_dir(k: u32) -> (r: (i64, i64))
    requires
        k < 8,
    ensures
        0 <= r.0 <= 256,
        -256 <= r.1 <= 256,
{
    match k {
        0u32 => (66, -247),
        1u32 => (165, -196),
        2u32 => (232, -108),
        3u32 => (255, -22),
        4u32 => (255, 22),
        5u32 => (232, 108),
        6u32 => (165, 196),
        _ => (66, 247),
    }
}

/// The point a hit's barycentric weights reconstruct: the triangle origin
/// offset by `u * x + v * y`, truncated onto the lattice and clamped into
/// the working volume.
pub fn hit_point(tri: &Triangle, bary: &Barycentric) -> (p: Point)
    requires
        tri_wf(*tri),
        bary.u.d == bary.v.d,
        0 < bary.u.d <= 0x800000000000000000000,
        0 <= bary.u.n <= bary.u.d,
        0 <= bary.v.n <= bary.v.d,
    ensures
        point_ok(p),
        p.0 == clamp_s(
            div_tz(bary.u.n * tri.x.0 + bary.v.n * tri.y.0 + bary.u.d * tri.o.0, bary.u.d as int),
            COORD_LIMIT as int,
        ),
        p.1 == clamp_s(
            div_tz(bary.u.n * tri.x.1 + bary.v.n * tri.y.1 + bary.u.d * tri.o.1, bary.u.d as int),
            COORD_LIMIT as int,
        ),
        p.2 == clamp_s(
            div_tz(bary.u.n * tri.x.2 + bary.v.n * tri.y.2 + bary.u.d * tri.o.2, bary.u.d as int),
            COORD_LIMIT as int,
        ),
{
    proof {
        lemma_mul_le(bary.u.n as int, tri.x.0 as int, 0x800000000000000000000, 2048);
        lemma_mul_le(bary.u.n as int, tri.x.1 as int, 0x800000000000000000000, 2048);
        lemma_mul_le(bary.u.n as int, tri.x.2 as int, 0x800000000000000000000, 2048);
        lemma_mul_le(bary.v.n as int, tri.y.0 as int, 0x800000000000000000000, 2048);
        lemma_mul_le(bary.v.n as int, tri.y.1 as int, 0x800000000000000000000, 2048);
        lemma_mul_le(bary.v.n as int, tri.y.2 as int, 0x800000000000000000000, 2048);
        lemma_mul_le(bary.u.d as int, tri.o.0 as int, 0x800000000000000000000, 1024);
        lemma_mul_le(bary.u.d as int, tri.o.1 as int, 0x800000000000000000000, 1024);
        lemma_mul_le(bary.u.d as int, tri.o.2 as int, 0x800000000000000000000, 1024);
    }
    let den: i128 = bary.u.d;
    let nx: i128 = bary.u.n * (tri.x.0 as i128) + bary.v.n * (tri.y.0 as i128) + den * (
    tri.o.0 as i128);
    let ny: i128 = bary.u.n * (tri.x.1 as i128) + bary.v.n * (tri.y.1 as i128) + den * (
    tri.o.1 as i128);
    let nz: i128 = bary.u.n * (tri.x.2 as i128) + bary.v.n * (tri.y.2 as i128) + den * (
    tri.o.2 as i128);
    Point(
        clamp128(div_trunc(nx, den), COORD_LIMIT),
        clamp128(div_trunc(ny, den), COORD_LIMIT),
        clamp128(div_trunc(nz, den), COORD_LIMIT),
    )
}

/// The demo tracer: a scene of `PbrMaterial` objects, an ambient color that
/// missing rays report, and a cube-map environment.
pub struct DemoRayTracer {
    s: Scene<PbrMaterial>,
    ambient: Color,
    skybox: Vec<Image>,
    skybox_samp: CubeSampler,
}

impl DemoRayTracer {
    /// Bind a tracer to a scene. The sampler's face-count demand is a
    /// precondition: a mismatched skybox is rejected before any trace.
    pub fn new(s: Scene<PbrMaterial>, ambient: Color, skybox: Vec<Image>) -> (r: DemoRayTracer)
        requires
            scene_ok(s),
            skybox@.len() == 6,
        ensures
            r.spec_scene() == s,
            r.ready(),
            r.miss_color() == ambient,
            forall|ray: Ray, p: DemoPayload| #[trigger] r.miss_val(ray, p) == ambient,
    {
        let skybox_samp = CubeSampler();
        DemoRayTracer { s, ambient, skybox, skybox_samp }
    }

    /// The ambient color a missing ray reports.
    pub closed spec fn miss_color(&self) -> Color {
        self.ambient
    }

    /// Trace one ray with the demo shading, recursion bounded by the
    /// payload's counter: a ray that hits nothing reports the ambient color,
    /// and the counters never pass the bounce limit.
    pub fn demo_trace(&self, ray: Ray, payload: &mut DemoPayload) -> (r: Color)
        requires
            self.ready(),
            ray_ok(ray),
            counters_ok(*old(payload)),
        ensures
            counters_ok(*final(payload)),
            final(payload).peak >= old(payload).peak,
            (forall|a: int, b: int| !hit_at(self, ray, *old(payload), a, b)) ==> r
                == self.miss_color(),
        decreases BOUNCE_LIMIT - payload.depth, 1int,
    {
        let hit = crate::rt::scan(self, &ray, payload);
        match hit {
            Option::Some(q) => {
                proof {
                    crate::rt::lemma_tri_at_wf(self, q.0 as int, q.1 as int);
                }
                let scene = &self.s;
                let mat = &scene.objs[q.0].mat;
                self.demo_closest(&ray, &q.2, &q.3, payload, mat)
            },
            Option::None => self.ambient,
        }
    }

    /// Shade the nearest hit: emission plus ambient once the bounce budget is
    /// spent; otherwise emission plus the albedo-modulated blend of the
    /// mirrored ray and the Monte-Carlo diffuse average.
    fn demo_closest(
        &self,
        ray: &Ray,
        tri: &Triangle,
        itx: &Intersection<Barycentric>,
        payload: &mut DemoPayload,
        mat: &PbrMaterial,
    ) -> (r: Color)
        requires
            self.ready(),
            ray_ok(*ray),
            tri_wf(*tri),
            cast_s(*ray, *tri) == (Some(*itx)),
            counters_ok(*old(payload)),
        ensures
            counters_ok(*final(payload)),
            final(payload).peak >= old(payload).peak,
            old(payload).depth >= BOUNCE_LIMIT ==> r == sat_add_s(mat.emit, self.miss_color())
                && *final(payload) == *old(payload),
            old(payload).depth < BOUNCE_LIMIT ==> final(payload).depth == old(payload).depth + 1
                && (exists|b: Color| r == sat_add_s(mat.emit, sat_modulate_s(mat.albedo, b))),
        decreases BOUNCE_LIMIT - payload.depth, 0int,
    {
        proof {
            lemma_tri_normal_ok(*tri);
            lemma_dot_bounds(
                tri.x.0 as int, tri.x.1 as int, tri.x.2 as int,
                tri.x.0 as int, tri.x.1 as int, tri.x.2 as int, 2048, 2048);
            lemma_dot_bounds(
                tri.x.0 as int, tri.x.1 as int, tri.x.2 as int,
                tri.y.0 as int, tri.y.1 as int, tri.y.2 as int, 2048, 2048);
            lemma_dot_bounds(
                tri.y.0 as int, tri.y.1 as int, tri.y.2 as int,
                tri.y.0 as int, tri.y.1 as int, tri.y.2 as int, 2048, 2048);
            lemma_dot_bounds(
                ray.v.0 as int, ray.v.1 as int, ray.v.2 as int,
                tri.n.0 as int, tri.n.1 as int, tri.n.2 as int, 1024, 8388608);
            lemma_mul_le(
                crate::geom::dot_s(tri.x, tri.x),
                crate::geom::dot_s(tri.y, tri.y),
                12582912,
                12582912,
            );
            lemma_mul_le(
                crate::geom::dot_s(tri.x, tri.y),
                crate::geom::dot_s(tri.x, tri.y),
                12582912,
                12582912,
            );
            let g: int = gram_det(*tri);
            let rr: int = ray_r(*ray, *tri);
            let w: int = if rr >= 0 {
                rr
            } else {
                -rr
            };
            assert(cast_s(*ray, *tri) is Some);
            assert(g > 0);
            assert(rr != 0) by (nonlinear_arith)
                requires
                    crate::tri::ray_d(*ray, *tri) * rr < 0,
            ;
            lemma_mul_le(g, w, 316659348799488, 25769803776);
            assert(g * w >= 1) by (nonlinear_arith)
                requires
                    g >= 1,
                    w >= 1,
            ;
        }
        let bary = itx.attr;
        let p = hit_point(tri, &bary);
        let refl = reflect(ray.v, tri.n);
        let rdir = refl.neg().rescale();
        let refl_ray = Ray { o: p, v: rdir };
        if payload.depth < BOUNCE_LIMIT {
            let d1: i32 = payload.depth + 1;
            payload.depth = d1;
            if d1 > payload.peak {
                payload.peak = d1;
            }
            let specular = self.demo_trace(refl_ray, payload);
            payload.depth = d1;
            let ut = tri.y.rescale();
            let nr = tri.n.rescale();
            proof {
                lemma_mul_le(nr.1 as int, ut.2 as int, 1024, 1024);
                lemma_mul_le(nr.2 as int, ut.1 as int, 1024, 1024);
                lemma_mul_le(nr.2 as int, ut.0 as int, 1024, 1024);
                lemma_mul_le(nr.0 as int, ut.2 as int, 1024, 1024);
                lemma_mul_le(nr.0 as int, ut.1 as int, 1024, 1024);
                lemma_mul_le(nr.1 as int, ut.0 as int, 1024, 1024);
            }
            let vt = nr.cross(ut);
            let vr = vt.rescale();
            let mut acc = Color(0, 0, 0, 0);
            let mut k: u32 = 0;
            while k < 32
                invariant
                    self.ready(),
                    point_ok(p),
                    vec_ok(ut),
                    vec_ok(vr),
                    vec_ok(nr),
                    payload.depth == d1,
                    0 <= d1 <= BOUNCE_LIMIT,
                    0 <= payload.peak <= BOUNCE_LIMIT,
                    payload.peak >= old(payload).peak,
                    BOUNCE_LIMIT - d1 < BOUNCE_LIMIT - old(payload).depth,
                decreases 32 - k,
            {
                let lk = rng_below(payload, 16);
                let ak = rng_below(payload, 8);
                let (cl, sl) = circle_dir(lk);
                let (ca, sa) = semi_dir(ak);
                proof {
                    lemma_mul_le(ut.0 as int, cl as int, 1024, 256);
                    lemma_mul_le(ut.1 as int, cl as int, 1024, 256);
                    lemma_mul_le(ut.2 as int, cl as int, 1024, 256);
                    lemma_mul_le(vr.0 as int, sl as int, 1024, 256);
                    lemma_mul_le(vr.1 as int, sl as int, 1024, 256);
                    lemma_mul_le(vr.2 as int, sl as int, 1024, 256);
                    lemma_mul_le(nr.0 as int, ca as int, 1024, 256);
                    lemma_mul_le(nr.1 as int, ca as int, 1024, 256);
                    lemma_mul_le(nr.2 as int, ca as int, 1024, 256);
                }
                let d0 = ut.mul(cl).add(vr.mul(sl));
                proof {
                    lemma_mul_le(d0.0 as int, sa as int, 524288, 256);
                    lemma_mul_le(d0.1 as int, sa as int, 524288, 256);
                    lemma_mul_le(d0.2 as int, sa as int, 524288, 256);
                }
                let dm = d0.mul(sa).add(nr.mul(ca).mul(256));
                let dv = dm.rescale();
                let dray = Ray { o: p, v: dv };
                let cur = self.demo_trace(dray, payload);
                payload.depth = d1;
                acc = acc.sat_add(cur);
                k += 1;
            }
            let diffuse = acc.sat_scale(1, 32);
            let blend = diffuse.sat_add(specular.sat_scale(1, 25));
            mat.emit.sat_add(mat.albedo.sat_modulate(blend))
        } else {
            mat.emit.sat_add(self.ambient)
        }
    }
}

impl RayCaster for DemoRayTracer {
    type Material = PbrMaterial;

    type Payload = DemoPayload;

    type Ray = Ray;

    type RayAttr = Barycentric;

    closed spec fn spec_scene(&self) -> Scene<PbrMaterial> {
        self.s
    }

    closed spec fn ready(&self) -> bool {
        scene_ok(self.s)
    }

    open spec fn ray_valid(&self, ray: Ray) -> bool {
        ray_ok(ray)
    }

    open spec fn isect(&self, ray: Ray, tri: Triangle, mat: PbrMaterial) -> Option<
        Intersection<Barycentric>,
    > {
        cast_s(ray, tri)
    }

    open spec fn accepts(
        &self,
        ray: Ray,
        tri: Triangle,
        itx: Intersection<Barycentric>,
        payload: DemoPayload,
        mat: PbrMaterial,
    ) -> bool {
        itx.kind == HitKind::Front
    }

    fn intersect(&self, ray: &Ray, tri: &Triangle, mat: &PbrMaterial) -> (r: Option<
        Intersection<Barycentric>,
    >) {
        ray_cast_tri(ray, tri)
    }

    fn any_hit(
        &self,
        ray: &Ray,
        tri: &Triangle,
        itx: &Intersection<Barycentric>,
        payload: &mut DemoPayload,
        mat: &PbrMaterial,
    ) -> (r: bool) {
        itx.kind == HitKind::Front
    }

    fn scene(&self) -> (r: &Scene<PbrMaterial>) {
        &self.s
    }
}

impl RayTracer for DemoRayTracer {
    closed spec fn miss_val(&self, ray: Ray, payload: DemoPayload) -> Color {
        self.ambient
    }

    /// The recursion counter and its peak never pass the bounce limit.
    open spec fn payload_ok(&self, payload: DemoPayload) -> bool {
        counters_ok(payload)
    }

    fn ray_gen(&self, x: u32, y: u32, w: u32, h: u32) -> (r: Color)
        ensures
            self.spec_scene().objs@.len() == 0 ==> r == frame_avg(self.miss_color()),
    {
        proof {
            lemma_mul_le(x as int, h as int, 0xffffffff, 0xffffffff);
        }
        let seed: u64 = (x as u64) * (h as u64) + (y as u64);
        let mut payload = DemoPayload::new(seed);
        let numx: u64 = 2 * (x as u64) * 512;
        let numy: u64 = 2 * (y as u64) * 512;
        proof {
            vstd::arithmetic::div_mod::lemma_div_nonincreasing(numx as int, w as int);
            vstd::arithmetic::div_mod::lemma_div_pos_is_pos(numx as int, w as int);
            vstd::arithmetic::div_mod::lemma_div_nonincreasing(numy as int, h as int);
            vstd::arithmetic::div_mod::lemma_div_pos_is_pos(numy as int, h as int);
            vstd::arithmetic::div_mod::lemma_div_nonincreasing(1024, 3 * (w as int));
            vstd::arithmetic::div_mod::lemma_div_pos_is_pos(1024, 3 * (w as int));
            vstd::arithmetic::div_mod::lemma_div_nonincreasing(1024, 3 * (h as int));
            vstd::arithmetic::div_mod::lemma_div_pos_is_pos(1024, 3 * (h as int));
        }
        let sx: i64 = ((numx / (w as u64)) as i64) - 512;
        let sy: i64 = ((numy / (h as u64)) as i64) - 512;
        let stepx: i64 = (1024u64 / (3 * (w as u64))) as i64;
        let stepy: i64 = (1024u64 / (3 * (h as u64))) as i64;
        let mut acc = Color(0, 0, 0, 0);
        let mut ii: u32 = 0;
        while ii < 3
            invariant
                self.ready(),
                counters_ok(payload),
                ii <= 3,
                -0x80000000000i64 <= sx <= 0x80000000000i64,
                -0x80000000000i64 <= sy <= 0x80000000000i64,
                0 <= stepx <= 1024,
                0 <= stepy <= 1024,
                self.spec_scene().objs@.len() == 0 ==> acc == accum_s(
                    self.miss_color(),
                    (3 * ii) as nat,
                ),
            decreases 3 - ii,
        {
            let mut jj: u32 = 0;
            while jj < 3
                invariant
                    self.ready(),
                    counters_ok(payload),
                    ii < 3,
                    jj <= 3,
                    -0x80000000000i64 <= sx <= 0x80000000000i64,
                    -0x80000000000i64 <= sy <= 0x80000000000i64,
                    0 <= stepx <= 1024,
                    0 <= stepy <= 1024,
                    self.spec_scene().objs@.len() == 0 ==> acc == accum_s(
                        self.miss_color(),
                        (3 * ii + jj) as nat,
                    ),
                decreases 3 - jj,
            {
                proof {
                    lemma_mul_le(ii as int, stepx as int, 4, 1024);
                    lemma_mul_le(jj as int, stepy as int, 4, 1024);
                }
                let ox: i64 = clamp128((sx as i128) + (ii as i128) * (stepx as i128), COORD_LIMIT);
                let oy: i64 = clamp128((sy as i128) + (jj as i128) * (stepy as i128), COORD_LIMIT);
                let ray = Ray { o: Point(ox, oy, 0), v: Vector(0, 0, 512) };
                payload.depth = 0;
                proof {
                    if self.spec_scene().objs@.len() == 0 {
                        assert(forall|a: int, b: int| !hit_at(self, ray, payload, a, b));
                    }
                }
                let cur = self.demo_trace(ray, &mut payload);
                acc = acc.sat_add(cur);
                jj += 1;
            }
            ii += 1;
        }
        acc.sat_scale(1, 9)
    }

    fn miss(&self, ray: &Ray, payload: &mut DemoPayload) -> (r: Color) {
        self.ambient
    }

    fn closest_hit(
        &self,
        ray: &Ray,
        tri: &Triangle,
        itx: &Intersection<Barycentric>,
        payload: &mut DemoPayload,
        mat: &PbrMaterial,
    ) -> (r: Color)
        ensures
            !can_recurse(*old(payload)) ==> r == sat_add_s(mat.emit, self.miss_color())
                && *final(payload) == *old(payload),
            can_recurse(*old(payload)) ==> counters_ok(*final(payload)) && final(payload).depth
                == old(payload).depth + 1 && (exists|b: Color|
                r == sat_add_s(mat.emit, sat_modulate_s(mat.albedo, b))),
    {
        if 0 <= payload.depth && payload.depth < BOUNCE_LIMIT && 0 <= payload.peak
            && payload.peak <= BOUNCE_LIMIT {
            self.demo_closest(ray, tri, itx, payload, mat)
        } else {
            // Budget spent (or a payload outside the invariant): the
            // non-recursive fallback term.
            mat.emit.sat_add(self.ambient)
        }
    }
}

} // verus!
