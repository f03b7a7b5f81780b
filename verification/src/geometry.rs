//! The closed sum of shape descriptors and the shared post-generation
//! transform pipeline: every shape produces a mesh in a canonical local
//! frame, then the declared scale, rotation and translation are applied in
//! that fixed order.
use vstd::prelude::*;

use crate::error::GltfError;
use crate::fbits::{F_ONE, F_TWO, F_ZERO};
use crate::geometry_buffer::{
    spec_deform, GeometryBuffer, Triangle as IndexTriangle, MAX_VERTICES,
};
use crate::matrix::{euler_mat_bits, spec_scale_mat, spec_transform_pt, spec_translation_mat};
use crate::model::{spec_add3, spec_div3, spec_sub3, Vector3};

pub mod cone;
pub mod cube;
pub mod cylinder;
pub mod deform;
pub mod icosphere;
pub mod uv_sphere;

use cone::Cone;
use cube::Cube;
use cylinder::Cylinder;
use deform::Deform;
use icosphere::Icosphere;
use uv_sphere::UvSphere;

verus! {

/// One shape descriptor. `Deform` wraps an arbitrary nested geometry.
pub enum Geometry {
    Cone(Cone),
    Cube(Cube),
    Cylinder(Cylinder),
    Deform(Box<Deform>),
    Icosphere(Icosphere),
    Plane(Plane),
    Triangle(Triangle),
    UvSphere(UvSphere),
}

/// A flat two-triangle rectangle in the XZ plane.
pub struct Plane {
    pub position: Vector3,
    pub size: Vector3,
    pub rotation: Option<Vector3>,
}

/// A single triangle given by its three corner positions.
pub struct Triangle {
    pub points: [Vector3; 3],
    pub rotation: Option<Vector3>,
}

/// The index triple `t` truncated to the 16-bit index width, as every
/// index from an outside generator is before insertion.
pub open spec fn spec_tri_of(t: (usize, usize, usize)) -> IndexTriangle {
    IndexTriangle([t.0 as u16, t.1 as u16, t.2 as u16])
}

/// The triangle table built by inserting the index triples in order into a
/// buffer of `n` vertices, with the first failure's error: exactly the
/// validation `GeometryBuffer::triangle` performs, triple by triple.
pub open spec fn spec_index_tris(n: nat, tris: Seq<(usize, usize, usize)>) -> Result<
    Seq<IndexTriangle>,
    GltfError,
>
    decreases tris.len(),
{
    if tris.len() == 0 {
        Ok(Seq::empty())
    } else {
        match spec_index_tris(n, tris.drop_last()) {
            Err(e) => Err(e),
            Ok(s) => {
                let t = spec_tri_of(tris.last());
                if t.0[0] == t.0[1] || t.0[1] == t.0[2] || t.0[2] == t.0[0] {
                    Err(GltfError::DegenerateTriangle { a: t.0[0], b: t.0[1], c: t.0[2] })
                } else if (t.0[0] as nat) >= n {
                    Err(GltfError::IndexOutOfRange { index: t.0[0] })
                } else if (t.0[1] as nat) >= n {
                    Err(GltfError::IndexOutOfRange { index: t.0[1] })
                } else if (t.0[2] as nat) >= n {
                    Err(GltfError::IndexOutOfRange { index: t.0[2] })
                } else {
                    Ok(s.push(t))
                }
            },
        }
    }
}

/// A failure among the first `i` triples is the failure of the whole
/// insertion.
pub proof fn lemma_index_tris_prefix_err(n: nat, tris: Seq<(usize, usize, usize)>, i: int)
    requires
        0 <= i <= tris.len(),
        spec_index_tris(n, tris.take(i)) is Err,
    ensures
        spec_index_tris(n, tris) == spec_index_tris(n, tris.take(i)),
    decreases tris.len() - i,
{
    if i < tris.len() {
        assert(tris.take(i + 1).drop_last() =~= tris.take(i));
        lemma_index_tris_prefix_err(n, tris, i + 1);
    } else {
        assert(tris.take(i) =~= tris);
    }
}

/// Builds a buffer from a vertex list and raw index triples: the vertices
/// are taken as they are, and each triple is validated and inserted in
/// order. Returns the buffer exactly when every triple is a valid triangle,
/// and the first offending triple's error otherwise.
pub fn mesh_from_parts(verts: &Vec<Vector3>, tris: &Vec<(usize, usize, usize)>) -> (r: Result<
    GeometryBuffer,
    GltfError,
>)
    requires
        verts@.len() <= MAX_VERTICES,
    ensures
        match spec_index_tris(verts@.len(), tris@) {
            Ok(ts) => r matches Ok(b) && b.vertices@ == verts@ && b.triangles@ == ts && b.wf(),
            Err(e) => r matches Err(e2) && e2 == e,
        },
{
    let mut vcopy: Vec<Vector3> = Vec::new();
    let vn = verts.len();
    for i in 0..vn
        invariant
            vn == verts@.len(),
            vcopy@ == verts@.take(i as int),
    {
        vcopy.push(verts[i]);
        proof {
            assert(verts@.take(i + 1).drop_last() =~= verts@.take(i as int));
        }
    }
    proof {
        assert(verts@.take(vn as int) =~= verts@);
    }
    let mut buf = GeometryBuffer { vertices: vcopy, triangles: Vec::new() };
    let ghost vseq = verts@;
    let n = tris.len();
    for i in 0..n
        invariant
            n == tris@.len(),
            vseq == verts@,
            buf.vertices@ == vseq,
            vseq.len() <= MAX_VERTICES,
            spec_index_tris(vseq.len(), tris@.take(i as int)) matches Ok(s) && s
                == buf.triangles@,
            buf.wf(),
    {
        let t = tris[i];
        proof {
            assert(tris@.take(i + 1).drop_last() =~= tris@.take(i as int));
            assert(tris@.take(i + 1).last() == tris@[i as int]);
        }
        let a = #[verifier::truncate] (t.0 as u16);
        let b = #[verifier::truncate] (t.1 as u16);
        let c = #[verifier::truncate] (t.2 as u16);
        match buf.triangle(a, b, c) {
            Ok(u) => {},
            Err(e) => {
                proof {
                    lemma_index_tris_prefix_err(vseq.len(), tris@, i + 1);
                }
                return Err(e);
            },
        }
    }
    proof {
        assert(tris@.take(n as int) =~= tris@);
    }
    Ok(buf)
}

/// Anything that can populate a fresh mesh buffer from its own parameters.
pub trait GenerateGeometry {
    /// Builds the shape's mesh. An `Ok` buffer always satisfies the buffer
    /// invariant.
    fn generate_geometry(&self) -> (r: Result<GeometryBuffer, GltfError>)
        ensures
            r matches Ok(b) ==> b.wf(),
    ;
}

/// The declared scale, rotation and translation applied to a vertex
/// sequence, always in that order; an absent field applies nothing.
pub open spec fn spec_pipeline(
    verts: Seq<Vector3>,
    scale: Option<Vector3>,
    rot: Option<Vector3>,
    trans: Option<Vector3>,
) -> Seq<Vector3> {
    let v1 = match scale {
        Some(s) => verts.map_values(|p: Vector3| spec_transform_pt(spec_scale_mat(s), p)),
        None => verts,
    };
    let v2 = match rot {
        Some(r) => v1.map_values(
            |p: Vector3| spec_transform_pt(euler_mat_bits(r.x, r.y, r.z), p),
        ),
        None => v1,
    };
    match trans {
        Some(t) => v2.map_values(|p: Vector3| spec_transform_pt(spec_translation_mat(t), p)),
        None => v2,
    }
}

/// The four corners of a plane: its rectangle centered on `position`, laid
/// flat so that the rectangle's second axis runs along z.
pub open spec fn spec_plane_verts(p: Plane) -> Seq<Vector3> {
    let two = Vector3 { x: F_TWO, y: F_TWO, z: F_TWO };
    let min = spec_sub3(p.position, spec_div3(p.size, two));
    let max = spec_add3(min, p.size);
    seq![
        Vector3 { x: min.x, y: F_ZERO, z: min.y },
        Vector3 { x: min.x, y: F_ZERO, z: max.y },
        Vector3 { x: max.x, y: F_ZERO, z: min.y },
        Vector3 { x: max.x, y: F_ZERO, z: max.y },
    ]
}

/// The two triangles of a plane.
pub open spec fn spec_plane_tris() -> Seq<IndexTriangle> {
    seq![IndexTriangle([0u16, 2u16, 1u16]), IndexTriangle([1u16, 2u16, 3u16])]
}

/// What generating a geometry descriptor yields: the shape's mesh in its
/// canonical local frame, with the declared scale, rotation and translation
/// applied in that fixed order — or the shape's validation error. Every
/// numeric step is pinned down over the named bit operations.
pub open spec fn spec_geometry_result(g: Geometry) -> Result<
    (Seq<Vector3>, Seq<IndexTriangle>),
    GltfError,
>
    decreases g,
{
    match g {
        Geometry::Cone(c) => {
            if c.divides < 2 {
                Err(GltfError::InvalidShapeParameter)
            } else if c.divides > 21844 {
                Err(GltfError::TooManyVertices)
            } else {
                match spec_index_tris((3 * c.divides + 1) as nat, cone::cone_tris(c.divides)) {
                    Err(e) => Err(e),
                    Ok(ts) => Ok(
                        (
                            spec_pipeline(
                                cone::spec_cone_final_verts(c.divides),
                                c.size,
                                c.rotation,
                                c.position,
                            ),
                            ts,
                        ),
                    ),
                }
            }
        },
        Geometry::Cube(b) => Ok(
            (
                spec_pipeline(
                    cube::spec_cube_verts(b),
                    Some(b.size),
                    b.rotation,
                    Some(b.position),
                ),
                cube::spec_cube_tris(),
            ),
        ),
        Geometry::Cylinder(c) => {
            if c.points == 0 {
                Err(GltfError::InvalidShapeParameter)
            } else if c.points == 1 {
                Err(GltfError::DegenerateTriangle { a: 2, b: 2, c: 0 })
            } else if c.points > 32766 {
                Err(GltfError::TooManyVertices)
            } else {
                Ok(
                    (
                        spec_pipeline(
                            cylinder::spec_cyl_verts(c.points, c.points as int).map_values(
                                |v: Vector3| spec_transform_pt(
                                    euler_mat_bits(F_ZERO, F_ZERO, cylinder::F_NINETY),
                                    v,
                                ),
                            ),
                            Some(c.size),
                            c.rotation,
                            Some(c.position),
                        ),
                        cylinder::spec_cyl_tris(c.points, c.points as int),
                    ),
                )
            }
        },
        Geometry::Deform(d) => {
            match spec_geometry_result(d.geometry) {
                Err(e) => Err(e),
                Ok((v, t)) => Ok(
                    (
                        spec_deform(
                            v,
                            d.min,
                            d.max,
                            Vector3 { x: F_ONE, y: F_ONE, z: F_ONE },
                            d.seed,
                        ),
                        t,
                    ),
                ),
            }
        },
        Geometry::Icosphere(i) => {
            if i.divides > icosphere::MAX_SUBDIVIDES {
                Err(GltfError::TooManyVertices)
            } else if icosphere::icosphere_verts(i.divides).len() > MAX_VERTICES {
                Err(GltfError::TooManyVertices)
            } else {
                match spec_index_tris(
                    icosphere::icosphere_verts(i.divides).len(),
                    icosphere::icosphere_tris(i.divides),
                ) {
                    Err(e) => Err(e),
                    Ok(ts) => Ok(
                        (
                            spec_pipeline(
                                icosphere::spec_icosphere_final_verts(i.divides),
                                i.size,
                                i.rotation,
                                i.position,
                            ),
                            ts,
                        ),
                    ),
                }
            }
        },
        Geometry::Plane(p) => Ok(
            (spec_pipeline(spec_plane_verts(p), None, p.rotation, None), spec_plane_tris()),
        ),
        Geometry::Triangle(t) => Ok(
            (
                spec_pipeline(
                    seq![t.points[0], t.points[1], t.points[2]],
                    None,
                    t.rotation,
                    None,
                ),
                seq![IndexTriangle([0u16, 1u16, 2u16])],
            ),
        ),
        Geometry::UvSphere(s) => {
            if s.u < 2 || s.v < 2 {
                Err(GltfError::InvalidShapeParameter)
            } else if (s.v - 1) * s.u + 2 > MAX_VERTICES {
                Err(GltfError::TooManyVertices)
            } else {
                match spec_index_tris(
                    ((s.v - 1) * s.u + 2) as nat,
                    uv_sphere::spec_expand_polys(uv_sphere::uv_sphere_polys(s.u, s.v)),
                ) {
                    Err(e) => Err(e),
                    Ok(ts) => Ok(
                        (
                            spec_pipeline(
                                uv_sphere::spec_uv_sphere_final_verts(s.u, s.v),
                                s.size,
                                s.rotation,
                                s.position,
                            ),
                            ts,
                        ),
                    ),
                }
            }
        },
    }
}

impl Geometry {
    /// Dispatches to the selected shape's generator, then applies the
    /// declared scale, rotation and translation in that fixed order. The
    /// result, error cases included, is exactly `spec_geometry_result`.
    pub fn generate_geometry(&self) -> (r: Result<GeometryBuffer, GltfError>)
        ensures
            match spec_geometry_result(*self) {
                Ok((v, t)) => r matches Ok(b) && b.vertices@ == v && b.triangles@ == t && b.wf(),
                Err(e) => r matches Err(e2) && e2 == e,
            },
        decreases *self,
    {
        let rotation: Option<Vector3>;
        let scale: Option<Vector3>;
        let translation: Option<Vector3>;

        let mut buf: GeometryBuffer;

        match self {
            Geometry::Cone(c) => {
                buf = c.generate_geometry()?;
                rotation = c.rotation;
                scale = c.size;
                translation = c.position;
            },
            Geometry::Cube(b) => {
                buf = b.generate_geometry();
                rotation = b.rotation;
                scale = Some(b.size);
                translation = Some(b.position);
            },
            Geometry::Cylinder(c) => {
                buf = c.generate_geometry()?;
                rotation = c.rotation;
                scale = Some(c.size);
                translation = Some(c.position);
            },
            Geometry::Deform(i) => {
                buf = i.generate_geometry()?;
                rotation = None;
                scale = None;
                translation = None;
            },
            Geometry::Icosphere(i) => {
                buf = i.generate_geometry()?;
                rotation = i.rotation;
                scale = i.size;
                translation = i.position;
            },
            Geometry::Plane(p) => {
                buf = GeometryBuffer::new();
                let two = Vector3 { x: F_TWO, y: F_TWO, z: F_TWO };
                let min = p.position.minus(p.size.over(two));
                let max = min.plus(p.size);

                let v00 = buf.push_vertex(Vector3 { x: min.x, y: F_ZERO, z: min.y });
                let v01 = buf.push_vertex(Vector3 { x: min.x, y: F_ZERO, z: max.y });
                let v10 = buf.push_vertex(Vector3 { x: max.x, y: F_ZERO, z: min.y });
                let v11 = buf.push_vertex(Vector3 { x: max.x, y: F_ZERO, z: max.y });

                buf.push_triangle(v00, v10, v01);
                buf.push_triangle(v01, v10, v11);

                proof {
                    assert(buf.vertices@ =~= spec_plane_verts(*p));
                    assert(buf.triangles@ =~= spec_plane_tris());
                }
                rotation = p.rotation;
                scale = None;
                translation = None;
            },
            Geometry::Triangle(triangle) => {
                buf = GeometryBuffer::new();
                let v0 = buf.push_vertex(triangle.points[0]);
                let v1 = buf.push_vertex(triangle.points[1]);
                let v2 = buf.push_vertex(triangle.points[2]);

                buf.push_triangle(v0, v1, v2);

                proof {
                    assert(buf.vertices@ =~= seq![
                        triangle.points[0],
                        triangle.points[1],
                        triangle.points[2],
                    ]);
                    assert(buf.triangles@ =~= seq![IndexTriangle([0u16, 1u16, 2u16])]);
                }
                rotation = triangle.rotation;
                scale = None;
                translation = None;
            },
            Geometry::UvSphere(i) => {
                buf = i.generate_geometry()?;
                rotation = i.rotation;
                scale = i.size;
                translation = i.position;
            },
        }

        if let Some(matrix) = scale {
            buf.scale(matrix);
        }
        if let Some(rot) = rotation {
            buf.rotate(rot);
        }
        if let Some(trans) = translation {
            buf.translate(trans);
        }
        Ok(buf)
    }
}

impl Deform {
    /// Generates the nested geometry, then displaces its vertices by the
    /// seeded uniform samples within the declared bounds at unit scale.
    pub fn generate_geometry(&self) -> (r: Result<GeometryBuffer, GltfError>)
        ensures
            match spec_geometry_result(Geometry::Deform(Box::new(*self))) {
                Ok((v, t)) => r matches Ok(b) && b.vertices@ == v && b.triangles@ == t && b.wf(),
                Err(e) => r matches Err(e2) && e2 == e,
            },
        decreases *self,
    {
        let mut buf = self.geometry.generate_geometry()?;
        buf.deform(self.min, self.max, Vector3 { x: F_ONE, y: F_ONE, z: F_ONE }, self.seed);
        Ok(buf)
    }
}

impl GenerateGeometry for Geometry {
    fn generate_geometry(&self) -> (r: Result<GeometryBuffer, GltfError>) {
        Geometry::generate_geometry(self)
    }
}

impl GenerateGeometry for Cone {
    fn generate_geometry(&self) -> (r: Result<GeometryBuffer, GltfError>) {
        Cone::generate_geometry(self)
    }
}

impl GenerateGeometry for Cylinder {
    fn generate_geometry(&self) -> (r: Result<GeometryBuffer, GltfError>) {
        Cylinder::generate_geometry(self)
    }
}

impl GenerateGeometry for Deform {
    fn generate_geometry(&self) -> (r: Result<GeometryBuffer, GltfError>) {
        Deform::generate_geometry(self)
    }
}

impl GenerateGeometry for Icosphere {
    fn generate_geometry(&self) -> (r: Result<GeometryBuffer, GltfError>) {
        Icosphere::generate_geometry(self)
    }
}

impl GenerateGeometry for UvSphere {
    fn generate_geometry(&self) -> (r: Result<GeometryBuffer, GltfError>) {
        UvSphere::generate_geometry(self)
    }
}

} // verus!
