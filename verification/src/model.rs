//! Canned shapes: a cube and a plane as indexed meshes, half a lattice unit
//! (256 coordinates) on each side of the origin.

use vstd::prelude::*;

use crate::geom::Point;
use crate::scene::Object;
use crate::scene::obj_ok;
use crate::xform::Transform;
use crate::xform::det;
use crate::xform::inverse_fits;
use crate::xform::inverse_s;
use crate::xform::tf_ok;

verus! {

/// A cube of side 512 centred on the origin, with the given material and
/// placement; the inverse placement is derived by `Transform::inverse`.
pub fn make_cube<M>(mat: M, world2obj: Transform) -> (r: Object<M>)
    requires
        tf_ok(world2obj),
        det(world2obj) != 0,
        inverse_fits(world2obj),
    ensures
        r.mat == mat,
        r.world2obj == world2obj,
        r.obj2world == inverse_s(world2obj),
        r.verts@.len() == 8,
        r.idxs@.len() == 12,
        r.verts@[0] == (Point(-256i64, 256i64, -256i64)) && r.verts@[1] == (Point(-256i64, 256i64, 256i64)),
        r.verts@[2] == (Point(256i64, 256i64, 256i64)) && r.verts@[3] == (Point(256i64, 256i64, -256i64)),
        r.verts@[4] == (Point(-256i64, -256i64, -256i64)) && r.verts@[5] == (Point(-256i64, -256i64, 256i64)),
        r.verts@[6] == (Point(256i64, -256i64, 256i64)) && r.verts@[7] == (Point(256i64, -256i64, -256i64)),
        r.idxs@[0] == ((5usize, 4usize, 0usize)) && r.idxs@[1] == ((5usize, 0usize, 1usize)),
        r.idxs@[2] == ((6usize, 5usize, 1usize)) && r.idxs@[3] == ((6usize, 1usize, 2usize)),
        r.idxs@[4] == ((7usize, 6usize, 2usize)) && r.idxs@[5] == ((7usize, 2usize, 3usize)),
        r.idxs@[6] == ((4usize, 7usize, 3usize)) && r.idxs@[7] == ((4usize, 3usize, 0usize)),
        r.idxs@[8] == ((0usize, 3usize, 2usize)) && r.idxs@[9] == ((0usize, 2usize, 1usize)),
        r.idxs@[10] == ((4usize, 5usize, 6usize)) && r.idxs@[11] == ((4usize, 6usize, 7usize)),
        obj_ok(r),
{
    let obj2world = world2obj.inverse();
    let verts: Vec<Point> = vec![
        Point(-256, 256, -256),
        Point(-256, 256, 256),
        Point(256, 256, 256),
        Point(256, 256, -256),
        Point(-256, -256, -256),
        Point(-256, -256, 256),
        Point(256, -256, 256),
        Point(256, -256, -256),
    ];
    let idxs: Vec<(usize, usize, usize)> = vec![
        (5, 4, 0),
        (5, 0, 1),
        (6, 5, 1),
        (6, 1, 2),
        (7, 6, 2),
        (7, 2, 3),
        (4, 7, 3),
        (4, 3, 0),
        (0, 3, 2),
        (0, 2, 1),
        (4, 5, 6),
        (4, 6, 7),
    ];
    Object { verts, idxs, mat, obj2world, world2obj }
}

/// A unit plane in the y = 0 plane, with the given material and placement.
pub fn make_pln<M>(mat: M, world2obj: Transform) -> (r: Object<M>)
    requires
        tf_ok(world2obj),
        det(world2obj) != 0,
        inverse_fits(world2obj),
    ensures
        r.mat == mat,
        r.world2obj == world2obj,
        r.obj2world == inverse_s(world2obj),
        r.verts@.len() == 4,
        r.idxs@.len() == 2,
        r.verts@[0] == (Point(-256i64, 0i64, -256i64)) && r.verts@[1] == (Point(-256i64, 0i64, 256i64)),
        r.verts@[2] == (Point(256i64, 0i64, 256i64)) && r.verts@[3] == (Point(256i64, 0i64, -256i64)),
        r.idxs@[0] == ((0usize, 1usize, 2usize)) && r.idxs@[1] == ((0usize, 2usize, 3usize)),
        obj_ok(r),
{
    let obj2world = world2obj.inverse();
    let verts: Vec<Point> = vec![
        Point(-256, 0, -256),
        Point(-256, 0, 256),
        Point(256, 0, 256),
        Point(256, 0, -256),
    ];
    let idxs: Vec<(usize, usize, usize)> = vec![(0, 1, 2), (0, 2, 3)];
    Object { verts, idxs, mat, obj2world, world2obj }
}

} // verus!
