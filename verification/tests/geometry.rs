use raytrace::geom::CHAN_CAP;
use raytrace::geom::COORD_LIMIT;
use raytrace::geom::Color;
use raytrace::geom::Point;
use raytrace::geom::Ray;
use raytrace::geom::Vector;
use raytrace::rt::HitKind;
use raytrace::tri::Barycentric;
use raytrace::tri::Triangle;
use raytrace::tri::ray_cast_tri;
use raytrace::tri::reflect;
use raytrace::xform::Transform;

fn ground_tri() -> Triangle {
    // Lies in the z = 0 plane; its normal is (0, 0, -10000).
    Triangle::new(Point(0, 0, 0), Point(100, 0, 0), Point(0, 100, 0))
}

#[test]
fn parallel_ray_misses() {
    let tri = ground_tri();
    let ray = Ray { o: Point(0, 0, 10), v: Vector(1, 0, 0) };
    assert!(ray_cast_tri(&ray, &tri).is_none());
}

#[test]
fn wrong_side_approach_misses() {
    let tri = ground_tri();
    // Wants to hit the front face (the -z side) but starts behind it and
    // moves away: d and r share a sign, so the cast rejects.
    let ray = Ray { o: Point(30, 30, -50), v: Vector(0, 0, -1) };
    assert!(ray_cast_tri(&ray, &tri).is_none());
}

#[test]
fn front_hit_with_exact_distance() {
    let tri = ground_tri();
    // From the outward-normal side (-z), straight at the face.
    let ray = Ray { o: Point(30, 30, -50), v: Vector(0, 0, 1) };
    let itx = ray_cast_tri(&ray, &tri).expect("must hit");
    assert_eq!(itx.kind, HitKind::Front);
    // Barycentric weights are strictly inside: u = v = 3/10.
    assert!(itx.attr.u.n > 0 && itx.attr.v.n > 0);
    assert!(itx.attr.u.n + itx.attr.v.n < itx.attr.u.d);
    assert_eq!(itx.attr.u.n * 10, 3 * itx.attr.u.d);
    assert_eq!(itx.attr.v.n * 10, 3 * itx.attr.v.d);
    // Squared perpendicular distance is exactly 50^2.
    assert_eq!(itx.t.n, 2500 * itx.t.d);
}

#[test]
fn back_hit_from_the_other_side() {
    let tri = ground_tri();
    let ray = Ray { o: Point(30, 30, 50), v: Vector(0, 0, -1) };
    let itx = ray_cast_tri(&ray, &tri).expect("must hit");
    assert_eq!(itx.kind, HitKind::Back);
    assert_eq!(itx.t.n, 2500 * itx.t.d);
}

#[test]
fn barycentric_round_trip_concrete() {
    let tri = ground_tri();
    // The point built from weights (3/10, 3/10) yields them back exactly.
    let p = Point(30, 30, 0);
    let b = Barycentric::new(&p, &tri).expect("inside");
    assert_eq!(b.u.n * 10, 3 * b.u.d);
    assert_eq!(b.v.n * 10, 3 * b.v.d);
}

#[test]
fn barycentric_outside_and_degenerate() {
    let tri = ground_tri();
    assert!(Barycentric::new(&Point(90, 90, 0), &tri).is_none());
    assert!(Barycentric::new(&Point(-10, 0, 0), &tri).is_none());
    // A zero-area triangle contains no point.
    let degenerate = Triangle::new(Point(0, 0, 0), Point(100, 0, 0), Point(200, 0, 0));
    assert!(Barycentric::new(&Point(50, 0, 0), &degenerate).is_none());
}

#[test]
fn reflect_matches_its_formula() {
    // For i and n unit vectors along the same axis the formula
    // -2 (i - (i.n) n) collapses to zero: straight-on incidence does not
    // reverse, by design of the formula.
    let r = reflect(Vector(0, 0, 512), Vector(0, 0, -8));
    assert_eq!((r.0, r.1, r.2), (0, 0, 0));
    // A grazing direction picks up twice its tangential part, scaled by the
    // squared normal length (64): -2 * (64 * 512) = -65536.
    let g = reflect(Vector(512, 0, 0), Vector(0, 0, -8));
    assert_eq!((g.0, g.1, g.2), (-65536, 0, 0));
}

#[test]
fn transform_builders_compose() {
    let t = Transform::eye().translate(Vector(3, -4, 5));
    let p = t.apply_point(Point(1, 1, 1));
    assert_eq!((p.0, p.1, p.2), (4, -3, 6));
    let s = Transform::eye().scale(Vector(2, 3, 4), 1);
    let q = s.apply_point(Point(10, 10, 10));
    assert_eq!((q.0, q.1, q.2), (20, 30, 40));
    // Rotate 90 degrees about z: sin = 1, cos = 0, denominator 1.
    let r = Transform::eye().rotate(1, 0, 1, Vector(0, 0, 1), 1);
    let v = r.apply_vector(Vector(10, 0, 0));
    assert_eq!((v.0, v.1, v.2), (0, 10, 0));
    let (c1, c2, c3) = r.to_cols();
    assert_eq!((c1.0, c1.1, c1.2), (0, 1, 0));
    assert_eq!((c2.0, c2.1, c2.2), (-1, 0, 0));
    assert_eq!((c3.0, c3.1, c3.2), (0, 0, 1));
}

#[test]
fn inverse_cancels_for_fixed_translation() {
    // A 3-4-5 rotation about z followed by a uniform scale; no translation,
    // so the cofactor inverse is the true inverse map.
    let t = Transform::eye().rotate(3, 4, 5, Vector(0, 0, 1), 1).scale(Vector(2, 2, 2), 1);
    let ti = t.inverse();
    let c = t.mul(ti);
    for p in [Point(7, -13, 29), Point(100, 200, -300), Point(0, 0, 0)] {
        let q = c.apply_point(p);
        assert_eq!((q.0, q.1, q.2), (p.0, p.1, p.2));
    }
    // Translations alone cancel too.
    let t2 = Transform::eye().translate(Vector(11, -7, 2));
    let c2 = t2.mul(t2.inverse());
    let q2 = c2.apply_point(Point(5, 5, 5));
    assert_eq!((q2.0, q2.1, q2.2), (5, 5, 5));
}

#[test]
fn inverse_translation_is_only_negated() {
    // The documented sharp edge: translate then rotate does not cancel,
    // because the inverse negates the translation without rotating it back.
    let t = Transform::eye().translate(Vector(10, 0, 0)).rotate(1, 0, 1, Vector(0, 0, 1), 1);
    let c = t.mul(t.inverse());
    let q = c.apply_point(Point(0, 0, 0));
    assert_ne!((q.0, q.1, q.2), (0, 0, 0));
}

#[test]
fn color_byte_round_trip() {
    let c = Color::from_rgb8([10, 20, 30]);
    assert_eq!(c.to_rgb8(), [10, 20, 30]);
    let d = Color::from_rgba8([0, 128, 255, 7]);
    assert_eq!(d.to_rgba8(), [0, 128, 255, 7]);
    // Saturation on out-of-range channels.
    let e = Color(-5, 70000, 65280, 0);
    assert_eq!(e.to_rgb8(), [0, 255, 255]);
}

#[test]
fn color_arithmetic_is_exact() {
    let a = Color(100, 200, 300, 400);
    let b = Color(1, 2, 3, 4);
    let s = a.add(b);
    assert_eq!((s.0, s.1, s.2, s.3), (101, 202, 303, 404));
    let d = a.sub(b);
    assert_eq!((d.0, d.1, d.2, d.3), (99, 198, 297, 396));
    let m = a.mul(3, 2);
    assert_eq!((m.0, m.1, m.2, m.3), (150, 300, 450, 600));
    // Truncation is toward zero.
    let t = Color(-3, 3, -7, 7).mul(1, 2);
    assert_eq!((t.0, t.1, t.2, t.3), (-1, 1, -3, 3));
}

#[test]
fn vector_ops() {
    let a = Vector(1, 2, 3);
    let b = Vector(4, 5, 6);
    assert_eq!(a.dot(b), 32);
    let c = a.cross(b);
    assert_eq!((c.0, c.1, c.2), (-3, 6, -3));
    let n = a.neg();
    assert_eq!((n.0, n.1, n.2), (-1, -2, -3));
    let d = Vector(-7, 8, 9).div(2);
    assert_eq!((d.0, d.1, d.2), (-3, 4, 4));
    let r = Vector(4096, 0, -2048).rescale();
    // Divisor is 4096 / 512 + 1 = 9.
    assert_eq!((r.0, r.1, r.2), (455, 0, -227));
}

#[test]
fn saturating_color_operations() {
    let big = Color(CHAN_CAP - 1, 0, -CHAN_CAP + 1, 0);
    let s = big.sat_add(Color(100, 5, -100, 7));
    assert_eq!((s.0, s.1, s.2, s.3), (CHAN_CAP, 5, -CHAN_CAP, 7));
    let m = Color(1000, -1000, 7, 0).sat_scale(3, 2);
    assert_eq!((m.0, m.1, m.2, m.3), (1500, -1500, 10, 0));
    // Modulation is on the full-intensity scale: full white leaves a color
    // unchanged.
    let full = Color::from_rgb8([255, 255, 255]);
    let c = Color::from_rgb8([12, 34, 56]);
    let out = full.sat_modulate(c);
    assert_eq!((out.0, out.1, out.2), (c.0, c.1, c.2));
}

#[test]
fn map_vertex_truncates_and_clamps() {
    // Halving transform: rows scaled by 1/2 through the denominator.
    let t = Transform::eye().scale(Vector(1, 1, 1), 2);
    let p = t.map_vertex(Point(101, -101, 7));
    assert_eq!((p.0, p.1, p.2), (50, -50, 3));
    // A point pushed outside the working volume clamps onto its boundary.
    let far = Transform::eye().translate(Vector(5000, 0, 0));
    let q = far.map_vertex(Point(0, 0, 0));
    assert_eq!((q.0, q.1, q.2), (COORD_LIMIT, 0, 0));
}

#[test]
fn default_color_is_transparent_black() {
    let c: Color = Default::default();
    assert_eq!(c, Color(0, 0, 0, 0));
}
