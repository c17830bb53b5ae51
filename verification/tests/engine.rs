use raytrace::demo::BOUNCE_LIMIT;
use raytrace::demo::DemoPayload;
use raytrace::demo::DemoRayTracer;
use raytrace::demo::PbrMaterial;
use raytrace::geom::Color;
use raytrace::geom::Point;
use raytrace::geom::Ray;
use raytrace::geom::Vector;
use raytrace::img::Image;
use raytrace::model::make_cube;
use raytrace::model::make_pln;
use raytrace::rt::Framebuffer;
use raytrace::rt::HitKind;
use raytrace::rt::draw;
use raytrace::rt::scan;
use raytrace::rt::trace;
use raytrace::sampler::CubeSampler;
use raytrace::sampler::Sampler;
use raytrace::scene::Object;
use raytrace::scene::Scene;
use raytrace::xform::Transform;

fn ambient() -> Color {
    Color::from_rgb8([50, 50, 50])
}

fn blank_skybox() -> Vec<Image> {
    (0..6).map(|_| Image::new(3, 3)).collect()
}

fn ground_object(mat: PbrMaterial) -> Object<PbrMaterial> {
    Object {
        verts: vec![Point(0, 0, 0), Point(100, 0, 0), Point(0, 100, 0)],
        idxs: vec![(0, 1, 2)],
        mat,
        obj2world: Transform::eye(),
        world2obj: Transform::eye(),
    }
}

#[test]
fn empty_scene_always_misses() {
    let demo = DemoRayTracer::new(Scene { objs: vec![] }, ambient(), blank_skybox());
    let mut payload = DemoPayload::new(1);
    let ray = Ray { o: Point(0, 0, -100), v: Vector(0, 0, 1) };
    let c = trace(&demo, ray, &mut payload);
    assert_eq!(c, ambient());
}

#[test]
fn single_triangle_scan_reports_the_hit() {
    let demo = DemoRayTracer::new(
        Scene { objs: vec![ground_object(PbrMaterial::default())] },
        ambient(),
        blank_skybox(),
    );
    let mut payload = DemoPayload::new(2);
    let ray = Ray { o: Point(30, 30, -50), v: Vector(0, 0, 1) };
    let q = scan(&demo, &ray, &mut payload).expect("must hit");
    assert_eq!(q.0, 0);
    assert_eq!(q.1, 0);
    assert_eq!(q.3.kind, HitKind::Front);
    assert_eq!(q.3.t.n, 2500 * q.3.t.d);
    // The scan saw the world-space triangle built from the object.
    assert_eq!(q.2.o, Point(0, 0, 0));
}

#[test]
fn back_side_hits_are_filtered_out() {
    // The demo's acceptance filter keeps front hits only, so a ray from the
    // back side traverses to a miss.
    let demo = DemoRayTracer::new(
        Scene { objs: vec![ground_object(PbrMaterial::default())] },
        ambient(),
        blank_skybox(),
    );
    let mut payload = DemoPayload::new(3);
    let ray = Ray { o: Point(30, 30, 50), v: Vector(0, 0, -1) };
    assert!(scan(&demo, &ray, &mut payload).is_none());
}

#[test]
fn tie_breaks_to_the_first_candidate() {
    let obj = Object {
        verts: vec![Point(0, 0, 0), Point(100, 0, 0), Point(0, 100, 0)],
        idxs: vec![(0, 1, 2), (0, 1, 2)],
        mat: PbrMaterial::default(),
        obj2world: Transform::eye(),
        world2obj: Transform::eye(),
    };
    let demo = DemoRayTracer::new(Scene { objs: vec![obj] }, ambient(), blank_skybox());
    let mut payload = DemoPayload::new(4);
    let ray = Ray { o: Point(30, 30, -50), v: Vector(0, 0, 1) };
    let q = scan(&demo, &ray, &mut payload).expect("must hit");
    assert_eq!((q.0, q.1), (0, 0));
}

#[test]
fn recursion_never_exceeds_the_bounce_limit() {
    let mut mat = PbrMaterial::default();
    mat.albedo = Color::from_rgb8([200, 200, 200]);
    mat.emit = Color::from_rgb8([10, 10, 10]);
    let demo = DemoRayTracer::new(
        Scene { objs: vec![ground_object(mat)] },
        ambient(),
        blank_skybox(),
    );
    let mut payload = DemoPayload::new(5);
    let ray = Ray { o: Point(30, 30, -50), v: Vector(0, 0, 1) };
    let _ = trace(&demo, ray, &mut payload);
    assert!(payload.peak >= 1);
    assert!(payload.peak <= BOUNCE_LIMIT);
    assert!(payload.depth <= BOUNCE_LIMIT);
}

#[test]
fn cube_sampler_center_pixel_on_positive_z() {
    let mut imgs = blank_skybox();
    let c = Color::from_rgb8([9, 8, 7]);
    imgs[4].store_px(1, 1, c);
    let samp = CubeSampler();
    assert!(samp.validate(&imgs[..]));
    // A direction exactly along +z selects face index 4 and its center.
    let got = samp.sample_px(&imgs[..], Vector(0, 0, 5));
    assert_eq!(got, c);
}

#[test]
fn cube_sampler_other_faces() {
    let mut imgs = blank_skybox();
    let cx = Color::from_rgb8([1, 0, 0]);
    let cnx = Color::from_rgb8([2, 0, 0]);
    let cy = Color::from_rgb8([3, 0, 0]);
    imgs[0].store_px(1, 1, cx);
    imgs[1].store_px(1, 1, cnx);
    imgs[2].store_px(1, 1, cy);
    let samp = CubeSampler();
    assert_eq!(samp.sample_px(&imgs[..], Vector(7, 0, 0)), cx);
    assert_eq!(samp.sample_px(&imgs[..], Vector(-7, 0, 0)), cnx);
    assert_eq!(samp.sample_px(&imgs[..], Vector(0, 7, 0)), cy);
    // An off-center direction moves off the center pixel: +z face, u = x/m
    // = 1 maps to the last column.
    let mut imgs2 = blank_skybox();
    let ce = Color::from_rgb8([4, 0, 0]);
    imgs2[4].store_px(2, 1, ce);
    assert_eq!(samp.sample_px(&imgs2[..], Vector(5, 0, 5)), ce);
}

#[test]
fn sampler_validate_counts_faces() {
    let samp = CubeSampler();
    let five: Vec<Image> = (0..5).map(|_| Image::new(2, 2)).collect();
    assert!(!samp.validate(&five[..]));
    assert!(samp.validate(&blank_skybox()[..]));
}

#[test]
fn image_store_and_load() {
    let mut img = Image::new(4, 3);
    assert_eq!(img.width(), 4);
    assert_eq!(img.height(), 3);
    assert_eq!(img.load_px(3, 2), Color(0, 0, 0, 0));
    let c = Color::from_rgb8([100, 150, 200]);
    img.store_px(2, 1, c);
    assert_eq!(img.load_px(2, 1), c);
    assert_eq!(img.load_px(1, 2), Color(0, 0, 0, 0));
}

struct TestFb {
    w: u32,
    h: u32,
    data: Vec<Color>,
}

impl Framebuffer for TestFb {
    fn spec_width(&self) -> u32 {
        self.w
    }

    fn spec_height(&self) -> u32 {
        self.h
    }

    fn stored(&self, _x: u32, _y: u32) -> bool {
        true
    }

    fn width(&self) -> u32 {
        self.w
    }

    fn height(&self) -> u32 {
        self.h
    }

    fn store(&mut self, x: u32, y: u32, color: Color) {
        let i = (x + self.w * y) as usize;
        self.data[i] = color;
    }
}

#[test]
fn draw_stores_every_pixel() {
    let demo = DemoRayTracer::new(Scene { objs: vec![] }, ambient(), blank_skybox());
    let mut fb = TestFb { w: 2, h: 2, data: vec![Color(-1, -1, -1, -1); 4] };
    draw(&demo, &mut fb);
    for px in fb.data.iter() {
        // Nine averaged misses give the ambient color exactly.
        assert_eq!(*px, ambient());
    }
}

#[test]
fn canned_shapes_have_their_tables() {
    let cube = make_cube(PbrMaterial::default(), Transform::eye());
    assert_eq!(cube.verts.len(), 8);
    assert_eq!(cube.idxs.len(), 12);
    assert_eq!(cube.verts[0], Point(-256, 256, -256));
    assert_eq!(cube.verts[6], Point(256, -256, 256));
    assert_eq!(cube.idxs[0], (5, 4, 0));
    assert_eq!(cube.obj2world, Transform::eye());
    let pln = make_pln(PbrMaterial::default(), Transform::eye());
    assert_eq!(pln.verts.len(), 4);
    assert_eq!(pln.idxs, vec![(0, 1, 2), (0, 2, 3)]);
}

#[test]
fn placed_object_is_traversed_through_its_transform() {
    // A plane shifted to z = 10 by its traversal transform; a ray down +z
    // from z = 0 hits the back side, from z = 30 the front side.
    let w2o = Transform::eye().translate(Vector(0, 0, 10));
    let obj = make_pln(PbrMaterial::default(), w2o);
    let demo = DemoRayTracer::new(Scene { objs: vec![obj] }, ambient(), blank_skybox());
    let mut payload = DemoPayload::new(6);
    let ray = Ray { o: Point(0, -30, 10), v: Vector(0, 1, 0) };
    let q = scan(&demo, &ray, &mut payload);
    assert!(q.is_some());
}

#[test]
fn fresh_payload_starts_at_depth_zero() {
    let p = DemoPayload::new(42);
    assert_eq!(p.depth, 0);
    assert_eq!(p.peak, 0);
}

#[test]
fn sampler_through_the_trait_object_interface() {
    let mut imgs = blank_skybox();
    let c = Color::from_rgb8([77, 66, 55]);
    imgs[5].store_px(1, 1, c);
    let samp = CubeSampler();
    // -z selects the last face.
    assert_eq!(samp.sample(&imgs[..], Vector(0, 0, -9)), c);
}

#[test]
fn nearest_hit_wins_across_objects() {
    // Two parallel planes; the ray meets the nearer one first even though
    // it is listed second.
    let far = ground_object(PbrMaterial::default());
    let mut near = ground_object(PbrMaterial::default());
    near.world2obj = Transform::eye().translate(Vector(0, 0, -20));
    let demo = DemoRayTracer::new(
        Scene { objs: vec![far, near] },
        ambient(),
        blank_skybox(),
    );
    let mut payload = DemoPayload::new(7);
    let ray = Ray { o: Point(30, 30, -50), v: Vector(0, 0, 1) };
    let q = scan(&demo, &ray, &mut payload).expect("must hit");
    assert_eq!(q.0, 1);
    // Squared distance 30^2 to the plane shifted to z = -20.
    assert_eq!(q.3.t.n, 900 * q.3.t.d);
}
