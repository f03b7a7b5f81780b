//! The cylinder generator: an N-gon cross-section swept between two caps,
//! with a shared center vertex per cap.
use vstd::prelude::*;

use crate::error::GltfError;
use crate::fbits::{
    cos_bits, div_bits, f_cos, f_div, f_mul, f_of_u32, f_sin, float_of_int_bits, mul_bits,
    sin_bits, F_HALF, F_MINUS_HALF, F_ZERO,
};
use crate::geometry_buffer::{GeometryBuffer, Triangle};
use crate::model::Vector3;

verus! {

/// Bit pattern of `2.0 * PI` in single precision, the full turn the
/// cross-section points divide evenly.
pub const F_TWO_PI: u32 = 0x40C9_0FDB;

/// Bit pattern of `90.0f32`, the fixed axis re-orientation every cylinder
/// gets after generation.
pub const F_NINETY: u32 = 0x42B4_0000;

/// A cylinder with `points` cross-section points.
pub struct Cylinder {
    pub position: Vector3,
    pub size: Vector3,
    pub points: u32,
    pub rotation: Option<Vector3>,
}

/// The angle of cross-section point `i` of `points`: `i` times the full
/// turn, divided by the point count, all in single precision.
pub open spec fn spec_cyl_angle(points: u32, i: u32) -> u32 {
    div_bits(mul_bits(float_of_int_bits(i), F_TWO_PI), float_of_int_bits(points))
}

/// Cross-section point `i`, on the bottom rim (`top == false`) or the top
/// rim: cosine and sine of its angle scaled to radius one half.
pub open spec fn spec_cyl_vert(points: u32, i: u32, top: bool) -> Vector3 {
    let a = spec_cyl_angle(points, i);
    Vector3 {
        x: mul_bits(cos_bits(a), F_HALF),
        y: mul_bits(sin_bits(a), F_HALF),
        z: if top {
            F_HALF
        } else {
            F_MINUS_HALF
        },
    }
}

/// The vertex sequence after the first `i` cross-section points: the two
/// cap centers, then a bottom/top pair per point.
pub open spec fn spec_cyl_verts(points: u32, i: int) -> Seq<Vector3>
    decreases i,
{
    if i <= 0 {
        seq![
            Vector3 { x: F_ZERO, y: F_ZERO, z: F_MINUS_HALF },
            Vector3 { x: F_ZERO, y: F_ZERO, z: F_HALF },
        ]
    } else {
        spec_cyl_verts(points, i - 1) + seq![
            spec_cyl_vert(points, (i - 1) as u32, false),
            spec_cyl_vert(points, (i - 1) as u32, true),
        ]
    }
}

/// The next cross-section point after `i`, wrapping at `points`.
pub open spec fn spec_cyl_next(points: u32, i: int) -> int {
    if i + 1 == points {
        0
    } else {
        i + 1
    }
}

/// The four triangles that connect cross-section point `i` to its
/// successor: one per cap, two for the side quad.
pub open spec fn spec_cyl_quad(points: u32, i: int) -> Seq<Triangle> {
    let n = spec_cyl_next(points, i);
    let b0 = (2 + 2 * i) as u16;
    let t0 = (3 + 2 * i) as u16;
    let b1 = (2 + 2 * n) as u16;
    let t1 = (3 + 2 * n) as u16;
    seq![
        Triangle([b0, b1, 0u16]),
        Triangle([t0, t1, 1u16]),
        Triangle([b0, b1, t1]),
        Triangle([b0, t0, t1]),
    ]
}

/// The triangle sequence after the first `i` cross-section points.
pub open spec fn spec_cyl_tris(points: u32, i: int) -> Seq<Triangle>
    decreases i,
{
    if i <= 0 {
        Seq::empty()
    } else {
        spec_cyl_tris(points, i - 1) + spec_cyl_quad(points, i - 1)
    }
}

impl Cylinder {
    /// Builds the cylinder mesh in its canonical local frame and applies
    /// the fixed ninety-degree re-orientation.
    ///
    /// Succeeds exactly when the cross-section has at least two points and
    /// the vertices fit the capacity ceiling: zero points cannot divide the
    /// full turn, one point closes no quad and is rejected as the
    /// degenerate triangle it would insert, and more than 32766 points
    /// overflow the 16-bit index stream.
    pub fn generate_geometry(&self) -> (r: Result<GeometryBuffer, GltfError>)
        ensures
            self.points == 0 ==> (r matches Err(e) && e == GltfError::InvalidShapeParameter),
            self.points == 1 ==> (r matches Err(e) && e == (GltfError::DegenerateTriangle { a: 2u16, b: 2u16, c: 0u16 })),
            self.points > 32766 ==> (r matches Err(e) && e == GltfError::TooManyVertices),
            (2 <= self.points && self.points <= 32766) ==> (r matches Ok(b) && {
                &&& b.vertices@ == spec_cyl_verts(self.points, self.points as int).map_values(
                    |v: Vector3| crate::matrix::spec_transform_pt(
                        crate::matrix::euler_mat_bits(F_ZERO, F_ZERO, F_NINETY),
                        v,
                    ),
                )
                &&& b.triangles@ == spec_cyl_tris(self.points, self.points as int)
                &&& b.wf()
            }),
    {
        if self.points == 0 {
            return Err(GltfError::InvalidShapeParameter);
        }
        if self.points == 1 {
            return Err(GltfError::DegenerateTriangle { a: 2, b: 2, c: 0 });
        }
        if self.points > 32766 {
            return Err(GltfError::TooManyVertices);
        }
        let points = self.points;
        let mut buf = GeometryBuffer::new();

        buf.push_vertex(Vector3 { x: F_ZERO, y: F_ZERO, z: F_MINUS_HALF });
        buf.push_vertex(Vector3 { x: F_ZERO, y: F_ZERO, z: F_HALF });

        proof {
            assert(buf.vertices@ =~= spec_cyl_verts(points, 0));
        }
        let fp = f_of_u32(points);
        for i in 0..points
            invariant
                2 <= points <= 32766,
                fp == float_of_int_bits(points),
                buf.vertices@ == spec_cyl_verts(points, i as int),
                buf.vertices@.len() == 2 + 2 * i,
                buf.triangles@.len() == 0,
                buf.wf(),
        {
            let radians = f_div(f_mul(f_of_u32(i), F_TWO_PI), fp);
            let x0 = f_mul(f_cos(radians), F_HALF);
            let y0 = f_mul(f_sin(radians), F_HALF);

            buf.push_vertex(Vector3 { x: x0, y: y0, z: F_MINUS_HALF });
            buf.push_vertex(Vector3 { x: x0, y: y0, z: F_HALF });
            proof {
                assert(buf.vertices@ =~= spec_cyl_verts(points, i + 1));
            }
        }

        for i in 0..points
            invariant
                2 <= points <= 32766,
                buf.vertices@ == spec_cyl_verts(points, points as int),
                buf.vertices@.len() == 2 + 2 * points,
                buf.triangles@ == spec_cyl_tris(points, i as int),
                buf.wf(),
        {
            let next: u32 = if i + 1 == points {
                0
            } else {
                i + 1
            };
            let v000 = (2 + 2 * i as usize) as u16;
            let v001 = (3 + 2 * i as usize) as u16;
            let v110 = (2 + 2 * next as usize) as u16;
            let v111 = (3 + 2 * next as usize) as u16;

            buf.push_triangle(v000, v110, 0);
            buf.push_triangle(v001, v111, 1);

            buf.push_triangle(v000, v110, v111);
            buf.push_triangle(v000, v001, v111);
            proof {
                assert(buf.triangles@ =~= spec_cyl_tris(points, i + 1));
            }
        }

        buf.rotate(Vector3 { x: F_ZERO, y: F_ZERO, z: F_NINETY });
        Ok(buf)
    }
}

} // verus!
