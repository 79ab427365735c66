//! Verified core of a 3-D model thumbnail renderer.
//!
//! The library ingests triangle-soup geometry from STL, OBJ and 3MF model
//! data, maintains a running bounding box, derives per-triangle normals,
//! computes the transform that fits a mesh into the canonical view volume,
//! decides which rendering-context strategy to try next, and settles the
//! output image format.  Geometry is carried in signed fixed-point
//! coordinates (16 fractional bits) so that every geometric claim is exact.

pub mod config;
pub mod context;
pub mod error;
pub mod fixed;
pub mod geom;
pub mod imgbuf;
pub mod mesh;
pub mod present;
pub mod text;
pub mod transform;
