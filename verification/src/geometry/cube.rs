//! The box generator: eight displaceable corners, twelve triangles with a
//! consistent outward winding.
use vstd::prelude::*;

use crate::fbits::{F_MINUS_HALF, F_ONE};
use crate::geometry_buffer::{GeometryBuffer, Triangle};
use crate::model::{spec_add3, spec_div3, spec_mul3, Vector3};

verus! {

/// A box: a unit cube centered at the origin, scaled by `size`, rotated,
/// then moved to `position` by the composite pipeline; each corner may
/// carry its own offset.
pub struct Cube {
    pub position: Vector3,
    pub size: Vector3,
    pub rotation: Option<Vector3>,
    pub offsets: Option<CubeVertexOffset>,
}

/// Per-corner displacement of a box, named by corner coordinate.
#[derive(Clone, Copy, Debug, PartialEq, Eq, Structural)]
pub struct CubeVertexOffset {
    pub v000: Vector3,
    pub v001: Vector3,
    pub v010: Vector3,
    pub v011: Vector3,
    pub v100: Vector3,
    pub v101: Vector3,
    pub v110: Vector3,
    pub v111: Vector3,
}

impl CubeVertexOffset {
    /// The zero displacement of every corner.
    pub fn none() -> (r: CubeVertexOffset)
        ensures
            r == spec_no_offset(),
    {
        let z = Vector3 { x: crate::fbits::F_ZERO, y: crate::fbits::F_ZERO, z: crate::fbits::F_ZERO };
        CubeVertexOffset {
            v000: z,
            v001: z,
            v010: z,
            v011: z,
            v100: z,
            v101: z,
            v110: z,
            v111: z,
        }
    }
}

/// The all-zero corner displacement.
pub open spec fn spec_no_offset() -> CubeVertexOffset {
    let z = Vector3 { x: crate::fbits::F_ZERO, y: crate::fbits::F_ZERO, z: crate::fbits::F_ZERO };
    CubeVertexOffset {
        v000: z,
        v001: z,
        v010: z,
        v011: z,
        v100: z,
        v101: z,
        v110: z,
        v111: z,
    }
}

/// The corner displacement a cube declares, or zero when it declares none.
pub open spec fn spec_offset_of(c: Cube) -> CubeVertexOffset {
    match c.offsets {
        Some(o) => o,
        None => spec_no_offset(),
    }
}

/// The eight corner positions of the cube `c` in its canonical local frame:
/// the unit cube corners at one half from the origin, each displaced by its
/// declared offset; all but the first offset are divided by `size` first.
pub open spec fn spec_cube_verts(c: Cube) -> Seq<Vector3> {
    let off = spec_offset_of(c);
    let min = Vector3 { x: F_MINUS_HALF, y: F_MINUS_HALF, z: F_MINUS_HALF };
    let one = Vector3 { x: F_ONE, y: F_ONE, z: F_ONE };
    let max = spec_add3(min, one);
    let os = spec_div3(one, c.size);
    seq![
        spec_add3(min, off.v000),
        spec_add3(Vector3 { x: min.x, y: min.y, z: max.z }, spec_mul3(off.v001, os)),
        spec_add3(Vector3 { x: min.x, y: max.y, z: min.z }, spec_mul3(off.v010, os)),
        spec_add3(Vector3 { x: min.x, y: max.y, z: max.z }, spec_mul3(off.v011, os)),
        spec_add3(Vector3 { x: max.x, y: min.y, z: min.z }, spec_mul3(off.v100, os)),
        spec_add3(Vector3 { x: max.x, y: min.y, z: max.z }, spec_mul3(off.v101, os)),
        spec_add3(Vector3 { x: max.x, y: max.y, z: min.z }, spec_mul3(off.v110, os)),
        spec_add3(Vector3 { x: max.x, y: max.y, z: max.z }, spec_mul3(off.v111, os)),
    ]
}

/// The twelve triangles of a box: two per face, outward winding.
pub open spec fn spec_cube_tris() -> Seq<Triangle> {
    seq![
        Triangle([0u16, 2u16, 4u16]),
        Triangle([2u16, 6u16, 4u16]),
        Triangle([1u16, 5u16, 3u16]),
        Triangle([3u16, 5u16, 7u16]),
        Triangle([0u16, 4u16, 1u16]),
        Triangle([4u16, 5u16, 1u16]),
        Triangle([2u16, 3u16, 6u16]),
        Triangle([6u16, 3u16, 7u16]),
        Triangle([0u16, 1u16, 2u16]),
        Triangle([1u16, 3u16, 2u16]),
        Triangle([4u16, 6u16, 5u16]),
        Triangle([5u16, 6u16, 7u16]),
    ]
}

impl Cube {
    /// Builds the box mesh in its canonical local frame: the eight corners
    /// of `spec_cube_verts` and the twelve triangles of `spec_cube_tris`.
    /// Never fails: the counts are fixed and every index is valid.
    pub fn generate_geometry(&self) -> (r: GeometryBuffer)
        ensures
            r.vertices@ == spec_cube_verts(*self),
            r.triangles@ == spec_cube_tris(),
            r.wf(),
    {
        let mut buf = GeometryBuffer::new();

        let min = Vector3 { x: F_MINUS_HALF, y: F_MINUS_HALF, z: F_MINUS_HALF };
        let one = Vector3 { x: F_ONE, y: F_ONE, z: F_ONE };
        let max = min.plus(one);

        let offset = match &self.offsets {
            Some(o) => *o,
            None => CubeVertexOffset::none(),
        };
        let os = one.over(self.size);

        let p000 = buf.push_vertex(min.plus(offset.v000));
        let p001 = buf.push_vertex(
            Vector3 { x: min.x, y: min.y, z: max.z }.plus(offset.v001.times(os)),
        );
        let p010 = buf.push_vertex(
            Vector3 { x: min.x, y: max.y, z: min.z }.plus(offset.v010.times(os)),
        );
        let p011 = buf.push_vertex(
            Vector3 { x: min.x, y: max.y, z: max.z }.plus(offset.v011.times(os)),
        );
        let p100 = buf.push_vertex(
            Vector3 { x: max.x, y: min.y, z: min.z }.plus(offset.v100.times(os)),
        );
        let p101 = buf.push_vertex(
            Vector3 { x: max.x, y: min.y, z: max.z }.plus(offset.v101.times(os)),
        );
        let p110 = buf.push_vertex(
            Vector3 { x: max.x, y: max.y, z: min.z }.plus(offset.v110.times(os)),
        );
        let p111 = buf.push_vertex(
            Vector3 { x: max.x, y: max.y, z: max.z }.plus(offset.v111.times(os)),
        );

        buf.push_triangle(p000, p010, p100);
        buf.push_triangle(p010, p110, p100);

        buf.push_triangle(p001, p101, p011);
        buf.push_triangle(p011, p101, p111);

        buf.push_triangle(p000, p100, p001);
        buf.push_triangle(p100, p101, p001);

        buf.push_triangle(p010, p011, p110);
        buf.push_triangle(p110, p011, p111);

        buf.push_triangle(p000, p001, p010);
        buf.push_triangle(p001, p011, p010);

        buf.push_triangle(p100, p110, p101);
        buf.push_triangle(p101, p110, p111);

        proof {
            assert(buf.vertices@ =~= spec_cube_verts(*self));
            assert(buf.triangles@ =~= spec_cube_tris());
        }
        buf
    }
}

} // verus!
