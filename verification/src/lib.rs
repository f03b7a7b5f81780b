//! Turns declarative 3D shape descriptions into an interchange document:
//! procedural indexed triangle meshes under a shared transform pipeline, and
//! a scene assembler that packs them into flat buffer/accessor tables.
//!
//! Floating-point values are carried everywhere as their IEEE 754 single
//! precision bit patterns (`u32`), so that the numeric pipeline can be
//! reasoned about exactly; the arithmetic itself is delegated to trusted
//! wrappers over the host float unit.
use vstd::prelude::*;

pub mod assembler;
pub mod error;
pub mod fbits;
pub mod geometry;
pub mod geometry_buffer;
pub mod gltf;
pub mod matrix;
pub mod model;
pub mod names;
pub mod nodes;
pub mod rng;

pub use assembler::{assemble, Assembled};
pub use error::GltfError;
pub use geometry::{GenerateGeometry, Geometry, Plane, Triangle};
pub use geometry::cone::Cone;
pub use geometry::cube::{Cube, CubeVertexOffset};
pub use geometry::cylinder::Cylinder;
pub use geometry::deform::Deform;
pub use geometry::icosphere::Icosphere;
pub use geometry::uv_sphere::UvSphere;
pub use geometry_buffer::GeometryBuffer;
pub use model::{Animation, Channel, Material, Mesh, Model, Node, Primitive, Target, Vector3};
