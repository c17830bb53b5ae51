pub mod demo;
pub mod geom;
pub mod img;
pub mod model;
pub mod num;
pub mod rt;
pub mod sampler;
pub mod scene;
pub mod tri;
pub mod xform;
