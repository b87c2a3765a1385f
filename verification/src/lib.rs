//! Integer and text logic of an interactive path tracer: decimal and PPM
//! text, the pixel raster, the viewer's event handling, the BVH split plan
//! and the xorshift random source.

pub mod decimal;
pub mod raster;
pub mod viewer;
pub mod ppm;
pub mod bvh_plan;
pub mod rng;
