//! The scene model: objects as indexed triangle meshes in object space, each
//! with its transform pair and a caller-chosen material.

use vstd::prelude::*;

use crate::geom::Point;
use crate::geom::point_ok;
use crate::xform::Transform;
use crate::xform::tf_ok;

verus! {

/// An indexed triangle mesh with a material and its placement transforms.
/// The tracer reads `world2obj`; the pair being mutual inverses is the scene
/// author's responsibility and is not re-derived at trace time.
pub struct Object<Material> {
    /// Object-space vertices.
    pub verts: Vec<Point>,
    /// Ordered triangles: three vertex indices each, winding determines
    /// facing.
    pub idxs: Vec<(usize, usize, usize)>,
    /// The material value carried to the shading callbacks.
    pub mat: Material,
    /// Placement of the object.
    pub obj2world: Transform,
    /// The inverse placement, applied to the vertices during traversal.
    pub world2obj: Transform,
}

/// An ordered collection of objects; the scene owns them all.
pub struct Scene<Material> {
    pub objs: Vec<Object<Material>>,
}

/// What the tracer requires of an object: vertices inside the working
/// volume, triangle indices in range, and a traversal transform whose
/// numbers compose safely.
pub open spec fn obj_ok<Material>(o: Object<Material>) -> bool {
    &&& tf_ok(o.world2obj)
    &&& forall|k: int| 0 <= k < o.verts@.len() ==> point_ok(#[trigger] o.verts@[k])
    &&& forall|k: int|
        0 <= k < o.idxs@.len() ==> (#[trigger] o.idxs@[k]).0 < o.verts@.len()
            && o.idxs@[k].1 < o.verts@.len() && o.idxs@[k].2 < o.verts@.len()
}

pub open spec fn scene_ok<Material>(s: Scene<Material>) -> bool {
    forall|i: int| 0 <= i < s.objs@.len() ==> obj_ok(#[trigger] s.objs@[i])
}

} // verus!
