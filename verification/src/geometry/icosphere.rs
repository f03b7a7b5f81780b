//! The icosphere generator, built on an outside mesh library: a subdivided
//! icosahedron.
use vstd::prelude::*;

use genmesh::generators::{IndexedPolygon, SharedVertex};

use crate::error::GltfError;
use crate::fbits::{F_HALF, F_ZERO};
use crate::geometry_buffer::{GeometryBuffer, MAX_VERTICES};
use crate::geometry::{mesh_from_parts, spec_index_tris};
use crate::matrix::{euler_mat_bits, spec_scale_mat, spec_transform_pt};
use crate::model::Vector3;

verus! {

/// Bit pattern of `90.0f32`, the fixed axis re-orientation every icosphere
/// gets after generation.
pub const F_NINETY_ICO: u32 = 0x42B4_0000;

/// The most subdivision rounds an icosphere accepts: the face count grows
/// four-fold per round, and the seventh round's shared vertices already
/// outnumber the 16-bit index ceiling.
pub const MAX_SUBDIVIDES: u32 = 6;

/// A subdivided icosahedron; `divides` is the number of subdivision
/// rounds.
pub struct Icosphere {
    pub divides: u32,
    pub size: Option<Vector3>,
    pub rotation: Option<Vector3>,
    pub position: Option<Vector3>,
}

/// The subdivision count an icosphere gets when none is declared.
pub fn default_divides() -> (r: u32)
    ensures
        r == 0u32,
{
    0
}

/// The shared vertices of the outside library's icosphere after `n`
/// subdivision rounds, as component bit patterns, in iteration order.
pub uninterp spec fn icosphere_verts(n: u32) -> Seq<Vector3>;

/// The indexed triangles of the outside library's icosphere after `n`
/// subdivision rounds, in iteration order.
pub uninterp spec fn icosphere_tris(n: u32) -> Seq<(usize, usize, usize)>;

/// Relies on `genmesh::generators::IcoSphere::subdivide`: the mesh is a
/// pure function of the subdivision count; the iterator maps only convert
/// each item to plain values, and the bound keeps the allocation small.
#[verifier::external_body]
fn icosphere_mesh(n: u32) -> (r: (Vec<Vector3>, Vec<(usize, usize, usize)>))
    requires
        n <= MAX_SUBDIVIDES,
    ensures
        r.0@ == icosphere_verts(n),
        r.1@ == icosphere_tris(n),
{
    let sphere = genmesh::generators::IcoSphere::subdivide(n as usize);
    let verts = sphere
        .shared_vertex_iter().map(|v| {
        let b: [u32; 3] = bytemuck::cast([v.pos.x, v.pos.y, v.pos.z]);
        Vector3 { x: b[0], y: b[1], z: b[2] }
    }).collect();
    let tris = sphere.indexed_polygon_iter().map(|t| (t.x, t.y, t.z)).collect();
    (verts, tris)
}

/// The vertex positions a finished icosphere reports: the library's unit
/// sphere scaled to one half and re-oriented by ninety degrees about the z
/// axis.
pub open spec fn spec_icosphere_final_verts(n: u32) -> Seq<Vector3> {
    let half = Vector3 { x: F_HALF, y: F_HALF, z: F_HALF };
    icosphere_verts(n).map_values(
        |v: Vector3| spec_transform_pt(spec_scale_mat(half), v),
    ).map_values(|v: Vector3| spec_transform_pt(euler_mat_bits(F_ZERO, F_ZERO, F_NINETY_ICO), v))
}

impl Icosphere {
    /// Builds the icosphere mesh: the outside generator's vertices and
    /// triangles, validated triple by triple, then the fixed one-half scale
    /// and ninety-degree re-orientation.
    ///
    /// More than `MAX_SUBDIVIDES` rounds, or a generated vertex list over
    /// the index ceiling, fail with the capacity error; otherwise the
    /// result is the validated mesh, or the first invalid triple's error.
    pub fn generate_geometry(&self) -> (r: Result<GeometryBuffer, GltfError>)
        ensures
            self.divides > MAX_SUBDIVIDES ==> (r matches Err(e) && e == GltfError::TooManyVertices),
            (self.divides <= MAX_SUBDIVIDES && icosphere_verts(self.divides).len()
                > MAX_VERTICES) ==> (r matches Err(e) && e == GltfError::TooManyVertices),
            (self.divides <= MAX_SUBDIVIDES && icosphere_verts(self.divides).len()
                <= MAX_VERTICES) ==> match spec_index_tris(
                icosphere_verts(self.divides).len(),
                icosphere_tris(self.divides),
            ) {
                Ok(ts) => r matches Ok(b) && {
                    &&& b.vertices@ == spec_icosphere_final_verts(self.divides)
                    &&& b.triangles@ == ts
                    &&& b.wf()
                },
                Err(e) => r matches Err(e2) && e2 == e,
            },
    {
        if self.divides > MAX_SUBDIVIDES {
            return Err(GltfError::TooManyVertices);
        }
        let (verts, tris) = icosphere_mesh(self.divides);
        if verts.len() > MAX_VERTICES {
            return Err(GltfError::TooManyVertices);
        }
        let mut buf = mesh_from_parts(&verts, &tris)?;
        buf.scale(Vector3 { x: F_HALF, y: F_HALF, z: F_HALF });
        buf.rotate(Vector3 { x: F_ZERO, y: F_ZERO, z: F_NINETY_ICO });
        Ok(buf)
    }
}

} // verus!
