//! The latitude-longitude sphere generator, built on an outside mesh
//! library: triangles at the poles, quads in between, each quad split into
//! two triangles along a fixed diagonal.
use vstd::prelude::*;

use genmesh::generators::{IndexedPolygon, SharedVertex};

use crate::error::GltfError;
use crate::fbits::{F_HALF, F_ZERO};
use crate::geometry_buffer::{GeometryBuffer, MAX_VERTICES};
use crate::geometry::{mesh_from_parts, spec_index_tris};
use crate::matrix::{euler_mat_bits, spec_scale_mat, spec_transform_pt};
use crate::model::Vector3;

verus! {

/// Bit pattern of `90.0f32`, the fixed axis re-orientation every sphere
/// gets after generation.
pub const F_NINETY_UV: u32 = 0x42B4_0000;

/// A latitude-longitude sphere with `u` points around the equator and `v`
/// points from pole to pole.
pub struct UvSphere {
    pub u: u32,
    pub v: u32,
    pub size: Option<Vector3>,
    pub rotation: Option<Vector3>,
    pub position: Option<Vector3>,
}

/// The equator point count a sphere gets when none is declared.
pub fn default_u() -> (r: u32)
    ensures
        r == 8u32,
{
    8
}

/// The pole-to-pole point count a sphere gets when none is declared.
pub fn default_v() -> (r: u32)
    ensures
        r == 8u32,
{
    8
}

/// The shared vertices of the outside library's sphere with `u` equator
/// and `v` pole-to-pole points, as component bit patterns, in iteration
/// order.
pub uninterp spec fn uv_sphere_verts(u: u32, v: u32) -> Seq<Vector3>;

/// The indexed polygons of the outside library's sphere, in iteration
/// order: a triangle as its three indices, a quad with its fourth index in
/// the last position.
pub uninterp spec fn uv_sphere_polys(u: u32, v: u32) -> Seq<(usize, usize, usize, Option<usize>)>;

/// Relies on `genmesh::generators::SphereUv`: for `u, v >= 2` the mesh is
/// a pure function of the two point counts, with `(v - 1) * u + 2` shared
/// vertices and `v * u` indexed polygons; the iterator maps only convert
/// each item to plain values, telling the two polygon variants apart, and
/// the vertex bound keeps the allocation within the index ceiling.
#[verifier::external_body]
fn uv_sphere_mesh(u: u32, v: u32) -> (r: (
    Vec<Vector3>,
    Vec<(usize, usize, usize, Option<usize>)>,
))
    requires
        2 <= u,
        2 <= v,
        (v - 1) * u + 2 <= 65536,
    ensures
        r.0@ == uv_sphere_verts(u, v),
        r.1@ == uv_sphere_polys(u, v),
        r.0@.len() == (v - 1) * u + 2,
        r.1@.len() == v * u,
{
    let sphere = genmesh::generators::SphereUv::new(u as usize, v as usize);
    let verts = sphere.shared_vertex_iter().map(|vx| {
        let b: [u32; 3] = bytemuck::cast([vx.pos.x, vx.pos.y, vx.pos.z]);
        Vector3 { x: b[0], y: b[1], z: b[2] }
    }).collect();
    let polys = sphere.indexed_polygon_iter().map(|p| match p {
        genmesh::Polygon::PolyTri(t) => (t.x, t.y, t.z, None),
        genmesh::Polygon::PolyQuad(q) => (q.x, q.y, q.z, Some(q.w)),
    }).collect();
    (verts, polys)
}

/// The polygons expanded to triangles, in order: a triangle stays itself, a
/// quad becomes its two halves along the first-to-third diagonal.
pub open spec fn spec_expand_polys(polys: Seq<(usize, usize, usize, Option<usize>)>) -> Seq<
    (usize, usize, usize),
>
    decreases polys.len(),
{
    if polys.len() == 0 {
        Seq::empty()
    } else {
        let p = polys.last();
        spec_expand_polys(polys.drop_last()) + match p.3 {
            None => seq![(p.0, p.1, p.2)],
            Some(w) => seq![(p.0, p.1, p.2), (p.0, p.2, w)],
        }
    }
}

/// The vertex positions a finished sphere reports: the library's unit
/// sphere scaled to one half and re-oriented by ninety degrees about the z
/// axis.
pub open spec fn spec_uv_sphere_final_verts(u: u32, v: u32) -> Seq<Vector3> {
    let half = Vector3 { x: F_HALF, y: F_HALF, z: F_HALF };
    uv_sphere_verts(u, v).map_values(
        |p: Vector3| spec_transform_pt(spec_scale_mat(half), p),
    ).map_values(|p: Vector3| spec_transform_pt(euler_mat_bits(F_ZERO, F_ZERO, F_NINETY_UV), p))
}

impl UvSphere {
    /// Builds the sphere mesh: the outside generator's vertices, its
    /// polygons expanded to triangles and validated triple by triple, then
    /// the fixed one-half scale and ninety-degree re-orientation.
    ///
    /// Fewer than two points in either direction cannot form a band and
    /// are rejected; a vertex count over the index ceiling fails with the
    /// capacity error. Otherwise the result is the validated mesh, or the
    /// first invalid triple's error.
    pub fn generate_geometry(&self) -> (r: Result<GeometryBuffer, GltfError>)
        ensures
            (self.u < 2 || self.v < 2) ==> (r matches Err(e) && e == GltfError::InvalidShapeParameter),
            (2 <= self.u && 2 <= self.v && (self.v - 1) * self.u + 2 > MAX_VERTICES) ==> (
            r matches Err(e) && e == GltfError::TooManyVertices),
            (2 <= self.u && 2 <= self.v && (self.v - 1) * self.u + 2 <= MAX_VERTICES)
                ==> match spec_index_tris(
                ((self.v - 1) * self.u + 2) as nat,
                spec_expand_polys(uv_sphere_polys(self.u, self.v)),
            ) {
                Ok(ts) => r matches Ok(b) && {
                    &&& b.vertices@ == spec_uv_sphere_final_verts(self.u, self.v)
                    &&& b.triangles@ == ts
                    &&& b.wf()
                },
                Err(e) => r matches Err(e2) && e2 == e,
            },
    {
        if self.u < 2 || self.v < 2 {
            return Err(GltfError::InvalidShapeParameter);
        }
        proof {
            let vv = self.v as int;
            let uu = self.u as int;
            assert((vv - 1) * uu + 2 <= 0xffff_ffff_ffff_ffff) by (nonlinear_arith)
                requires
                    2 <= vv < 0x1_0000_0000,
                    2 <= uu < 0x1_0000_0000,
            ;
        }
        let count: u64 = (self.v as u64 - 1) * (self.u as u64) + 2;
        if count > MAX_VERTICES as u64 {
            return Err(GltfError::TooManyVertices);
        }
        let (verts, polys) = uv_sphere_mesh(self.u, self.v);

        let mut tris: Vec<(usize, usize, usize)> = Vec::new();
        let n = polys.len();
        for i in 0..n
            invariant
                n == polys@.len(),
                tris@ == spec_expand_polys(polys@.take(i as int)),
        {
            let p = polys[i];
            proof {
                assert(polys@.take(i + 1).drop_last() =~= polys@.take(i as int));
                assert(polys@.take(i + 1).last() == polys@[i as int]);
            }
            match p.3 {
                None => {
                    tris.push((p.0, p.1, p.2));
                },
                Some(w) => {
                    tris.push((p.0, p.1, p.2));
                    tris.push((p.0, p.2, w));
                },
            }
        }
        proof {
            assert(polys@.take(n as int) =~= polys@);
        }

        let mut buf = mesh_from_parts(&verts, &tris)?;
        buf.scale(Vector3 { x: F_HALF, y: F_HALF, z: F_HALF });
        buf.rotate(Vector3 { x: F_ZERO, y: F_ZERO, z: F_NINETY_UV });
        Ok(buf)
    }
}

} // verus!
