//! The cone generator, built on an outside mesh library: an N-gon rim, a
//! tip vertex per subdivision, and a closed bottom disc.
use vstd::prelude::*;

use genmesh::generators::{IndexedPolygon, SharedVertex};

use crate::error::GltfError;
use crate::fbits::{F_HALF, F_ZERO};
use crate::geometry_buffer::GeometryBuffer;
use crate::geometry::{mesh_from_parts, spec_index_tris};
use crate::matrix::{euler_mat_bits, spec_scale_mat, spec_transform_pt};
use crate::model::Vector3;

verus! {

/// Bit pattern of `-90.0f32`, the fixed axis re-orientation every cone
/// gets after generation.
pub const F_MINUS_NINETY: u32 = 0xC2B4_0000;

/// A cone with `divides` subdivisions around its radius.
pub struct Cone {
    pub divides: u32,
    pub size: Option<Vector3>,
    pub rotation: Option<Vector3>,
    pub position: Option<Vector3>,
}

/// The subdivision count a cone gets when none is declared.
pub fn default_divides() -> (r: u32)
    ensures
        r == 1u32,
{
    1
}

/// The shared vertices of the outside library's cone with `u` subdivisions,
/// as component bit patterns, in iteration order.
pub uninterp spec fn cone_verts(u: u32) -> Seq<Vector3>;

/// The indexed triangles of the outside library's cone with `u`
/// subdivisions, in iteration order.
pub uninterp spec fn cone_tris(u: u32) -> Seq<(usize, usize, usize)>;

/// Relies on `genmesh::generators::Cone`: for `u >= 2` the generator is a
/// pure function of `u` that yields `3u + 1` shared vertices and `2u`
/// indexed triangles; the iterator maps only convert each item to plain
/// values, and the upper bound keeps the allocation within the index
/// ceiling.
#[verifier::external_body]
fn cone_mesh(u: u32) -> (r: (Vec<Vector3>, Vec<(usize, usize, usize)>))
    requires
        2 <= u,
        u <= 21844,
    ensures
        r.0@ == cone_verts(u),
        r.1@ == cone_tris(u),
        r.0@.len() == 3 * u + 1,
        r.1@.len() == 2 * u,
{
    let cone = genmesh::generators::Cone::new(u as usize);
    let verts = cone
        .shared_vertex_iter().map(|v| {
        let b: [u32; 3] = bytemuck::cast([v.pos.x, v.pos.y, v.pos.z]);
        Vector3 { x: b[0], y: b[1], z: b[2] }
    }).collect();
    let tris = cone.indexed_polygon_iter().map(|t| (t.x, t.y, t.z)).collect();
    (verts, tris)
}

/// The vertex positions a finished cone reports: the library's canonical
/// cone scaled to one half and re-oriented by minus ninety degrees about
/// the z axis.
pub open spec fn spec_cone_final_verts(u: u32) -> Seq<Vector3> {
    let half = Vector3 { x: F_HALF, y: F_HALF, z: F_HALF };
    cone_verts(u).map_values(|v: Vector3| spec_transform_pt(spec_scale_mat(half), v)).map_values(
        |v: Vector3| spec_transform_pt(euler_mat_bits(F_ZERO, F_ZERO, F_MINUS_NINETY), v),
    )
}

impl Cone {
    /// Builds the cone mesh: the outside generator's vertices and
    /// triangles, validated triple by triple, then the fixed one-half scale
    /// and minus-ninety-degree re-orientation.
    ///
    /// Fewer than two subdivisions cannot form a rim and are rejected;
    /// more than 21844 would overflow the 16-bit index stream. In between,
    /// the result is the validated mesh, or the first invalid triple's
    /// error.
    pub fn generate_geometry(&self) -> (r: Result<GeometryBuffer, GltfError>)
        ensures
            self.divides < 2 ==> (r matches Err(e) && e == GltfError::InvalidShapeParameter),
            self.divides > 21844 ==> (r matches Err(e) && e == GltfError::TooManyVertices),
            (2 <= self.divides && self.divides <= 21844) ==> match spec_index_tris(
                (3 * self.divides + 1) as nat,
                cone_tris(self.divides),
            ) {
                Ok(ts) => r matches Ok(b) && {
                    &&& b.vertices@ == spec_cone_final_verts(self.divides)
                    &&& b.triangles@ == ts
                    &&& b.wf()
                },
                Err(e) => r matches Err(e2) && e2 == e,
            },
    {
        if self.divides < 2 {
            return Err(GltfError::InvalidShapeParameter);
        }
        if self.divides > 21844 {
            return Err(GltfError::TooManyVertices);
        }
        let (verts, tris) = cone_mesh(self.divides);
        let mut buf = mesh_from_parts(&verts, &tris)?;
        buf.scale(Vector3 { x: F_HALF, y: F_HALF, z: F_HALF });
        buf.rotate(Vector3 { x: F_ZERO, y: F_ZERO, z: F_MINUS_NINETY });
        Ok(buf)
    }
}

} // verus!
