//! The parsed scene description: a node forest, meshes built from shape
//! descriptors, materials, and animation channels, all referring to one
//! another by name.
use vstd::prelude::*;

use crate::fbits::{
    add_bits, div_bits, f_add, f_div, f_max, f_min, f_mul, f_sub, max_bits, min_bits, mul_bits,
    sub_bits, F_MINUS_ONE, F_ONE,
};
use crate::geometry::Geometry;

verus! {

/// A three-component vector whose components are IEEE 754 single-precision
/// bit patterns. All componentwise arithmetic is exact over the named bit
/// operations of `fbits`.
#[derive(Clone, Copy, Debug, PartialEq, Eq, Structural)]
pub struct Vector3 {
    pub x: u32,
    pub y: u32,
    pub z: u32,
}

impl Vector3 {
    /// The vector with the given component bit patterns.
    pub fn new(x: u32, y: u32, z: u32) -> (r: Vector3)
        ensures
            r == (Vector3 { x, y, z }),
    {
        Vector3 { x, y, z }
    }

    /// The all-one vector.
    pub fn one() -> (r: Vector3)
        ensures
            r == (Vector3 { x: F_ONE, y: F_ONE, z: F_ONE }),
    {
        Vector3 { x: F_ONE, y: F_ONE, z: F_ONE }
    }

    /// The all-minus-one vector.
    pub fn minus_one() -> (r: Vector3)
        ensures
            r == (Vector3 { x: F_MINUS_ONE, y: F_MINUS_ONE, z: F_MINUS_ONE }),
    {
        Vector3 { x: F_MINUS_ONE, y: F_MINUS_ONE, z: F_MINUS_ONE }
    }

    /// Overwrites all three components.
    pub fn set(&mut self, x: u32, y: u32, z: u32)
        ensures
            *final(self) == (Vector3 { x, y, z }),
    {
        self.x = x;
        self.y = y;
        self.z = z;
    }

    /// Componentwise `f32::max`.
    pub fn max(&self, other: Vector3) -> (r: Vector3)
        ensures
            r == spec_max3(*self, other),
    {
        Vector3 { x: f_max(self.x, other.x), y: f_max(self.y, other.y), z: f_max(self.z, other.z) }
    }

    /// Componentwise `f32::min`.
    pub fn min(&self, other: Vector3) -> (r: Vector3)
        ensures
            r == spec_min3(*self, other),
    {
        Vector3 { x: f_min(self.x, other.x), y: f_min(self.y, other.y), z: f_min(self.z, other.z) }
    }

    /// Componentwise IEEE 754 sum.
    pub fn plus(self, rhs: Vector3) -> (r: Vector3)
        ensures
            r == spec_add3(self, rhs),
    {
        Vector3 { x: f_add(self.x, rhs.x), y: f_add(self.y, rhs.y), z: f_add(self.z, rhs.z) }
    }

    /// Componentwise IEEE 754 difference.
    pub fn minus(self, rhs: Vector3) -> (r: Vector3)
        ensures
            r == spec_sub3(self, rhs),
    {
        Vector3 { x: f_sub(self.x, rhs.x), y: f_sub(self.y, rhs.y), z: f_sub(self.z, rhs.z) }
    }

    /// Componentwise IEEE 754 product.
    pub fn times(self, rhs: Vector3) -> (r: Vector3)
        ensures
            r == spec_mul3(self, rhs),
    {
        Vector3 { x: f_mul(self.x, rhs.x), y: f_mul(self.y, rhs.y), z: f_mul(self.z, rhs.z) }
    }

    /// Componentwise IEEE 754 quotient.
    pub fn over(self, rhs: Vector3) -> (r: Vector3)
        ensures
            r == spec_div3(self, rhs),
    {
        Vector3 { x: f_div(self.x, rhs.x), y: f_div(self.y, rhs.y), z: f_div(self.z, rhs.z) }
    }
}

/// Componentwise `max_bits`.
pub open spec fn spec_max3(a: Vector3, b: Vector3) -> Vector3 {
    Vector3 { x: max_bits(a.x, b.x), y: max_bits(a.y, b.y), z: max_bits(a.z, b.z) }
}

/// Componentwise `min_bits`.
pub open spec fn spec_min3(a: Vector3, b: Vector3) -> Vector3 {
    Vector3 { x: min_bits(a.x, b.x), y: min_bits(a.y, b.y), z: min_bits(a.z, b.z) }
}

/// Componentwise `add_bits`.
pub open spec fn spec_add3(a: Vector3, b: Vector3) -> Vector3 {
    Vector3 { x: add_bits(a.x, b.x), y: add_bits(a.y, b.y), z: add_bits(a.z, b.z) }
}

/// Componentwise `sub_bits`.
pub open spec fn spec_sub3(a: Vector3, b: Vector3) -> Vector3 {
    Vector3 { x: sub_bits(a.x, b.x), y: sub_bits(a.y, b.y), z: sub_bits(a.z, b.z) }
}

/// Componentwise `mul_bits`.
pub open spec fn spec_mul3(a: Vector3, b: Vector3) -> Vector3 {
    Vector3 { x: mul_bits(a.x, b.x), y: mul_bits(a.y, b.y), z: mul_bits(a.z, b.z) }
}

/// Componentwise `div_bits`.
pub open spec fn spec_div3(a: Vector3, b: Vector3) -> Vector3 {
    Vector3 { x: div_bits(a.x, b.x), y: div_bits(a.y, b.y), z: div_bits(a.z, b.z) }
}

/// The scene root: everything one description file declares.
pub struct Model {
    pub meshes: Vec<Mesh>,
    pub nodes: Vec<Node>,
    pub animations: Vec<Animation>,
    pub materials: Vec<Material>,
}

/// A named mesh: a list of primitives that are packed one after another.
pub struct Mesh {
    pub name: String,
    pub primitives: Vec<Primitive>,
}

/// One drawable piece of a mesh: the geometry that fills it and the
/// material name it resolves against.
pub struct Primitive {
    pub material: Option<String>,
    pub geometry: Vec<Geometry>,
}

/// A node of the scene forest, with optional local transform fields and an
/// optional mesh reference by name. Children are owned.
pub struct Node {
    pub name: String,
    pub mesh: Option<String>,
    pub offset: Option<Vector3>,
    pub rotation: Option<Vector3>,
    pub scale: Option<Vector3>,
    pub children: Vec<Node>,
}

/// A named set of animation channels.
pub struct Animation {
    pub name: String,
    pub channels: Vec<Channel>,
}

/// One animated property on a set of named nodes, with its keyframes
/// ordered by time. A keyframe is a `(time, value)` pair; rotation values
/// are Euler angles in degrees.
pub struct Channel {
    pub nodes: Vec<String>,
    pub target: Target,
    pub keyframes: Vec<(u32, Vector3)>,
}

/// A named material with a four-channel base color and scalar
/// metallic/roughness factors, all as bit patterns.
pub struct Material {
    pub name: String,
    pub base_color: [u32; 4],
    pub metallic: u32,
    pub roughness: u32,
}

/// Which node property an animation channel drives.
#[derive(Clone, Copy, Debug, PartialEq, Eq, Structural)]
pub enum Target {
    Translation,
    Rotation,
    Scale,
}

} // verus!
