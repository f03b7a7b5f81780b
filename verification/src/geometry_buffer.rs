//! The indexed triangle-mesh container every generator writes into: an
//! ordered vertex sequence and an ordered sequence of index triples.
use vstd::prelude::*;

use crate::error::GltfError;
use crate::fbits::{add_bits, f_add, f_max, f_min, f_mul, f_sub, mul_bits, sub_bits};
use crate::matrix::{euler_mat_bits, spec_scale_mat, spec_transform_pt, spec_translation_mat,
    transform_point, Mat4Bits};
use crate::model::{spec_add3, spec_max3, spec_min3, Vector3};
use crate::rng::{sample_bits, unit_sample};

verus! {

/// Bit pattern of `f32::MAX`, the starting accumulator of `min_position`.
pub const F_LARGEST: u32 = 0x7F7F_FFFF;

/// Bit pattern of `f32::MIN`, the starting accumulator of `max_position`.
pub const F_SMALLEST: u32 = 0xFF7F_FFFF;

/// Three vertex indices, in winding order.
#[derive(Clone, Copy, Debug)]
pub struct Triangle(pub [u16; 3]);

/// The most vertices a buffer may hold: the ceiling of a 16-bit index
/// stream.
pub const MAX_VERTICES: usize = 65535;

/// An indexed triangle mesh. The invariant `wf` states that every triangle
/// index addresses a vertex, that no triangle is degenerate, and that the
/// vertex count stays under the 16-bit ceiling; every operation of this
/// type preserves it.
pub struct GeometryBuffer {
    pub vertices: Vec<Vector3>,
    pub triangles: Vec<Triangle>,
}

/// The `j`-th index of triangle `t`, for `j` in `0..3`.
pub open spec fn tri_index(t: Triangle, j: int) -> u16 {
    if j == 0 {
        t.0[0]
    } else if j == 1 {
        t.0[1]
    } else {
        t.0[2]
    }
}

/// The redundant vertex stream of an indexed mesh: each triangle expanded
/// to its three corner positions, in triangle order.
pub open spec fn spec_flatten(verts: Seq<Vector3>, tris: Seq<Triangle>) -> Seq<Vector3>
    decreases tris.len(),
{
    if tris.len() == 0 {
        Seq::empty()
    } else {
        let t = tris.last();
        spec_flatten(verts, tris.drop_last()) + seq![
            verts[tri_index(t, 0) as int],
            verts[tri_index(t, 1) as int],
            verts[tri_index(t, 2) as int],
        ]
    }
}

/// The flattened stream holds exactly three vertices per triangle.
pub proof fn lemma_flatten_len(verts: Seq<Vector3>, tris: Seq<Triangle>)
    ensures
        spec_flatten(verts, tris).len() == 3 * tris.len(),
    decreases tris.len(),
{
    if tris.len() > 0 {
        lemma_flatten_len(verts, tris.drop_last());
    }
}

/// The componentwise minimum (`f32::min` per axis) of `init` and the
/// vertices, folded left to right.
pub open spec fn spec_min_fold(init: Vector3, verts: Seq<Vector3>) -> Vector3
    decreases verts.len(),
{
    if verts.len() == 0 {
        init
    } else {
        spec_min3(spec_min_fold(init, verts.drop_last()), verts.last())
    }
}

/// The componentwise maximum (`f32::max` per axis) of `init` and the
/// vertices, folded left to right.
pub open spec fn spec_max_fold(init: Vector3, verts: Seq<Vector3>) -> Vector3
    decreases verts.len(),
{
    if verts.len() == 0 {
        init
    } else {
        spec_max3(spec_max_fold(init, verts.drop_last()), verts.last())
    }
}

/// The displacement `deform` adds to the vertex at position `i`: per axis,
/// the scaled lower bound plus a unit sample times the scaled range. The
/// range of the x axis mixes in `scale.y`, exactly as the pipeline has
/// always computed it.
pub open spec fn spec_deform_offset(
    min: Vector3,
    max: Vector3,
    scale: Vector3,
    seed: u64,
    i: int,
) -> Vector3 {
    let min_x = mul_bits(min.x, scale.x);
    let x_range = sub_bits(mul_bits(max.x, scale.y), min_x);
    let min_y = mul_bits(min.y, scale.y);
    let y_range = sub_bits(mul_bits(max.y, scale.y), min_y);
    let min_z = mul_bits(min.z, scale.z);
    let z_range = sub_bits(mul_bits(max.z, scale.z), min_z);
    Vector3 {
        x: add_bits(min_x, mul_bits(sample_bits(seed, (3 * i) as u64), x_range)),
        y: add_bits(min_y, mul_bits(sample_bits(seed, (3 * i + 1) as u64), y_range)),
        z: add_bits(min_z, mul_bits(sample_bits(seed, (3 * i + 2) as u64), z_range)),
    }
}

/// The vertex sequence after deformation: every vertex displaced by the
/// offset drawn for its position, a pure function of the inputs and `seed`.
pub open spec fn spec_deform(
    verts: Seq<Vector3>,
    min: Vector3,
    max: Vector3,
    scale: Vector3,
    seed: u64,
) -> Seq<Vector3> {
    Seq::new(verts.len(), |i: int| spec_add3(verts[i], spec_deform_offset(min, max, scale, seed, i)))
}

/// Law: deformation is deterministic. Equal vertex sequences deformed with
/// equal bounds, scale and seed yield bit-identical vertex sequences.
pub proof fn lemma_deform_deterministic(
    v1: Seq<Vector3>,
    v2: Seq<Vector3>,
    min: Vector3,
    max: Vector3,
    scale: Vector3,
    seed: u64,
)
    requires
        v1 == v2,
    ensures
        spec_deform(v1, min, max, scale, seed) == spec_deform(v2, min, max, scale, seed),
{
}

/// The three indices of `t` address vertices of a buffer with `n` vertices
/// and are pairwise distinct.
pub open spec fn triangle_ok(t: Triangle, n: nat) -> bool {
    &&& (t.0[0] as nat) < n
    &&& (t.0[1] as nat) < n
    &&& (t.0[2] as nat) < n
    &&& t.0[0] != t.0[1]
    &&& t.0[1] != t.0[2]
    &&& t.0[2] != t.0[0]
}

impl GeometryBuffer {
    /// The buffer's invariant: capacity respected, all triangles valid.
    pub open spec fn wf(self) -> bool {
        &&& self.vertices@.len() <= MAX_VERTICES
        &&& forall|i: int|
            0 <= i < self.triangles@.len() ==> triangle_ok(
                #[trigger] self.triangles@[i],
                self.vertices@.len(),
            )
    }

    /// An empty buffer.
    pub fn new() -> (r: GeometryBuffer)
        ensures
            r.vertices@ == Seq::<Vector3>::empty(),
            r.triangles@ == Seq::<Triangle>::empty(),
            r.wf(),
    {
        GeometryBuffer { vertices: Vec::new(), triangles: Vec::new() }
    }

    /// Appends a vertex and returns its index. Fails with the capacity
    /// error exactly when the buffer already holds 65535 vertices; the
    /// buffer is unchanged on failure.
    pub fn vertex(&mut self, pos: Vector3) -> (r: Result<u16, GltfError>)
        ensures
            old(self).vertices@.len() < MAX_VERTICES ==> {
                &&& r matches Ok(i) && i as nat == old(self).vertices@.len()
                &&& final(self).vertices@ == old(self).vertices@.push(pos)
            },
            old(self).vertices@.len() >= MAX_VERTICES ==> {
                &&& r matches Err(e) && e is TooManyVertices
                &&& final(self).vertices@ == old(self).vertices@
            },
            final(self).triangles@ == old(self).triangles@,
            old(self).wf() ==> final(self).wf(),
    {
        let index = self.vertices.len();
        if index >= MAX_VERTICES {
            return Err(GltfError::TooManyVertices);
        }
        self.vertices.push(pos);
        Ok(index as u16)
    }

    /// Appends the triangle `(a, b, c)`. Fails with the degenerate-triangle
    /// error exactly when two of the indices coincide, and with the
    /// out-of-range error exactly when the indices are distinct but one of
    /// them addresses no vertex; the buffer is unchanged on failure.
    pub fn triangle(&mut self, a: u16, b: u16, c: u16) -> (r: Result<(), GltfError>)
        ensures
            final(self).vertices@ == old(self).vertices@,
            (a == b || b == c || c == a) ==> {
                &&& r matches Err(e) && e matches GltfError::DegenerateTriangle {
                    a: ea,
                    b: eb,
                    c: ec,
                } && ea == a && eb == b && ec == c
                &&& final(self).triangles@ == old(self).triangles@
            },
            (a != b && b != c && c != a && !triangle_ok(
                Triangle([a, b, c]),
                old(self).vertices@.len(),
            )) ==> {
                &&& r matches Err(e) && e == (GltfError::IndexOutOfRange {
                    index: if (a as nat) >= old(self).vertices@.len() {
                        a
                    } else if (b as nat) >= old(self).vertices@.len() {
                        b
                    } else {
                        c
                    },
                })
                &&& final(self).triangles@ == old(self).triangles@
            },
            triangle_ok(Triangle([a, b, c]), old(self).vertices@.len()) ==> {
                &&& r matches Ok(u)
                &&& final(self).triangles@ == old(self).triangles@.push(Triangle([a, b, c]))
            },
            old(self).wf() ==> final(self).wf(),
    {
        if a == b || b == c || c == a {
            return Err(GltfError::DegenerateTriangle { a, b, c });
        }
        let n = self.vertices.len();
        if a as usize >= n {
            return Err(GltfError::IndexOutOfRange { index: a });
        }
        if b as usize >= n {
            return Err(GltfError::IndexOutOfRange { index: b });
        }
        if c as usize >= n {
            return Err(GltfError::IndexOutOfRange { index: c });
        }
        self.triangles.push(Triangle([a, b, c]));
        Ok(())
    }

    /// Removes the triangle at `index`, shifting the later ones down.
    pub fn remove_triangle(&mut self, index: usize)
        requires
            index < old(self).triangles@.len(),
        ensures
            final(self).vertices@ == old(self).vertices@,
            final(self).triangles@ == old(self).triangles@.remove(index as int),
            old(self).wf() ==> final(self).wf(),
    {
        self.triangles.remove(index);
    }

    /// Replaces the triangle at `index` by the three triangles that connect
    /// its edges to the vertex `p_index`. Fails with the degenerate-triangle
    /// error when `p_index` is a corner of that triangle, and with the
    /// out-of-range error when `p_index` addresses no vertex; the buffer is
    /// unchanged on failure.
    pub fn split_triangle(&mut self, index: usize, p_index: u16) -> (r: Result<(), GltfError>)
        requires
            index < old(self).triangles@.len(),
        ensures
            final(self).vertices@ == old(self).vertices@,
            ({
                let t = old(self).triangles@[index as int];
                &&& (p_index == t.0[0] || p_index == t.0[1] || p_index == t.0[2]) ==> {
                    &&& r matches Err(e) && e is DegenerateTriangle
                    &&& final(self).triangles@ == old(self).triangles@
                }
                &&& (p_index != t.0[0] && p_index != t.0[1] && p_index != t.0[2] && p_index as nat
                    >= old(self).vertices@.len()) ==> {
                    &&& r matches Err(e) && e is IndexOutOfRange
                    &&& final(self).triangles@ == old(self).triangles@
                }
                &&& (p_index != t.0[0] && p_index != t.0[1] && p_index != t.0[2] && (
                p_index as nat) < old(self).vertices@.len()) ==> {
                    &&& r matches Ok(u)
                    &&& final(self).triangles@ == old(self).triangles@.remove(index as int).push(
                        Triangle([t.0[0], t.0[1], p_index]),
                    ).push(Triangle([t.0[1], t.0[2], p_index])).push(
                        Triangle([t.0[2], p_index, t.0[0]]),
                    )
                }
            }),
            old(self).wf() ==> final(self).wf(),
    {
        let t = self.triangles[index];
        if p_index == t.0[0] || p_index == t.0[1] || p_index == t.0[2] {
            return Err(GltfError::DegenerateTriangle { a: t.0[0], b: t.0[1], c: p_index });
        }
        if p_index as usize >= self.vertices.len() {
            return Err(GltfError::IndexOutOfRange { index: p_index });
        }
        self.triangles.remove(index);
        self.triangles.push(Triangle([t.0[0], t.0[1], p_index]));
        self.triangles.push(Triangle([t.0[1], t.0[2], p_index]));
        self.triangles.push(Triangle([t.0[2], p_index, t.0[0]]));
        Ok(())
    }

    /// Appends a vertex below the capacity ceiling: the error-free form of
    /// `vertex`, for callers that have already established room.
    pub fn push_vertex(&mut self, pos: Vector3) -> (r: u16)
        requires
            old(self).vertices@.len() < MAX_VERTICES,
        ensures
            r as nat == old(self).vertices@.len(),
            final(self).vertices@ == old(self).vertices@.push(pos),
            final(self).triangles@ == old(self).triangles@,
            old(self).wf() ==> final(self).wf(),
    {
        match self.vertex(pos) {
            Ok(i) => i,
            Err(_) => {
                proof {
                    assert(false);
                }
                0
            },
        }
    }

    /// Appends a triangle whose validity is already established: the
    /// error-free form of `triangle`.
    pub fn push_triangle(&mut self, a: u16, b: u16, c: u16)
        requires
            triangle_ok(Triangle([a, b, c]), old(self).vertices@.len()),
        ensures
            final(self).vertices@ == old(self).vertices@,
            final(self).triangles@ == old(self).triangles@.push(Triangle([a, b, c])),
            old(self).wf() ==> final(self).wf(),
    {
        match self.triangle(a, b, c) {
            Ok(u) => u,
            Err(_) => {
                proof {
                    assert(false);
                }
            },
        }
    }

    /// Expands the indexed triangles into a flat, redundant vertex stream:
    /// three vertices per triangle, in triangle insertion order.
    pub fn make_redundant(&self) -> (r: Vec<Vector3>)
        requires
            self.wf(),
        ensures
            r@ == spec_flatten(self.vertices@, self.triangles@),
            r@.len() == 3 * self.triangles@.len(),
    {
        let mut output: Vec<Vector3> = Vec::new();
        let n = self.triangles.len();
        for i in 0..n
            invariant
                n == self.triangles@.len(),
                self.wf(),
                output@ == spec_flatten(self.vertices@, self.triangles@.take(i as int)),
        {
            let t = self.triangles[i];
            assert(triangle_ok(t, self.vertices@.len()));
            output.push(self.vertices[t.0[0] as usize]);
            output.push(self.vertices[t.0[1] as usize]);
            output.push(self.vertices[t.0[2] as usize]);
            proof {
                let pre = self.triangles@.take(i as int);
                let cur = self.triangles@.take(i + 1);
                assert(cur.drop_last() =~= pre);
                assert(cur.last() == self.triangles@[i as int]);
            }
        }
        proof {
            assert(self.triangles@.take(n as int) =~= self.triangles@);
            lemma_flatten_len(self.vertices@, self.triangles@);
        }
        output
    }

    /// The componentwise maximum of the vertices, folded from `f32::MIN`.
    /// An empty buffer therefore reports the smallest finite value per
    /// axis.
    pub fn max_position(&self) -> (r: Vector3)
        ensures
            r == spec_max_fold(
                Vector3 { x: F_SMALLEST, y: F_SMALLEST, z: F_SMALLEST },
                self.vertices@,
            ),
    {
        let mut max = Vector3 { x: F_SMALLEST, y: F_SMALLEST, z: F_SMALLEST };
        let n = self.vertices.len();
        for i in 0..n
            invariant
                n == self.vertices@.len(),
                max == spec_max_fold(
                    Vector3 { x: F_SMALLEST, y: F_SMALLEST, z: F_SMALLEST },
                    self.vertices@.take(i as int),
                ),
        {
            let v = self.vertices[i];
            max = Vector3 { x: f_max(max.x, v.x), y: f_max(max.y, v.y), z: f_max(max.z, v.z) };
            proof {
                let cur = self.vertices@.take(i + 1);
                assert(cur.drop_last() =~= self.vertices@.take(i as int));
                assert(cur.last() == self.vertices@[i as int]);
            }
        }
        proof {
            assert(self.vertices@.take(n as int) =~= self.vertices@);
        }
        max
    }

    /// The componentwise minimum of the vertices, folded from `f32::MAX`.
    /// An empty buffer therefore reports the largest finite value per axis.
    pub fn min_position(&self) -> (r: Vector3)
        ensures
            r == spec_min_fold(
                Vector3 { x: F_LARGEST, y: F_LARGEST, z: F_LARGEST },
                self.vertices@,
            ),
    {
        let mut min = Vector3 { x: F_LARGEST, y: F_LARGEST, z: F_LARGEST };
        let n = self.vertices.len();
        for i in 0..n
            invariant
                n == self.vertices@.len(),
                min == spec_min_fold(
                    Vector3 { x: F_LARGEST, y: F_LARGEST, z: F_LARGEST },
                    self.vertices@.take(i as int),
                ),
        {
            let v = self.vertices[i];
            min = Vector3 { x: f_min(min.x, v.x), y: f_min(min.y, v.y), z: f_min(min.z, v.z) };
            proof {
                let cur = self.vertices@.take(i + 1);
                assert(cur.drop_last() =~= self.vertices@.take(i as int));
                assert(cur.last() == self.vertices@[i as int]);
            }
        }
        proof {
            assert(self.vertices@.take(n as int) =~= self.vertices@);
        }
        min
    }

    /// Applies an affine matrix to every vertex, in place.
    pub fn apply_transform(&mut self, matrix: &Mat4Bits)
        ensures
            final(self).vertices@ == old(self).vertices@.map_values(
                |v: Vector3| spec_transform_pt(matrix.m@, v),
            ),
            final(self).triangles@ == old(self).triangles@,
            old(self).wf() ==> final(self).wf(),
    {
        let n = self.vertices.len();
        for i in 0..n
            invariant
                n == self.vertices@.len(),
                self.vertices@.len() == old(self).vertices@.len(),
                self.triangles@ == old(self).triangles@,
                forall|j: int|
                    0 <= j < i ==> self.vertices@[j] == spec_transform_pt(
                        matrix.m@,
                        #[trigger] old(self).vertices@[j],
                    ),
                forall|j: int| i <= j < n ==> self.vertices@[j] == #[trigger] old(self).vertices@[j],
        {
            let v0 = self.vertices[i];
            let v2 = transform_point(matrix, v0);
            self.vertices[i].set(v2.x, v2.y, v2.z);
        }
        proof {
            assert(self.vertices@ =~= old(self).vertices@.map_values(
                |v: Vector3| spec_transform_pt(matrix.m@, v),
            ));
            if old(self).wf() {
                assert forall|i: int| 0 <= i < self.triangles@.len() implies triangle_ok(
                    #[trigger] self.triangles@[i],
                    self.vertices@.len(),
                ) by {
                    assert(triangle_ok(old(self).triangles@[i], old(self).vertices@.len()));
                }
            }
        }
    }

    /// Scales every vertex componentwise, through the scale matrix.
    pub fn scale(&mut self, scale: Vector3)
        ensures
            final(self).vertices@ == old(self).vertices@.map_values(
                |v: Vector3| spec_transform_pt(spec_scale_mat(scale), v),
            ),
            final(self).triangles@ == old(self).triangles@,
            old(self).wf() ==> final(self).wf(),
    {
        let matrix = Mat4Bits::scale(scale);
        self.apply_transform(&matrix);
    }

    /// Rotates every vertex by the Euler angles in degrees (intrinsic
    /// Z-Y-X), through the rotation matrix.
    pub fn rotate(&mut self, rot: Vector3)
        ensures
            final(self).vertices@ == old(self).vertices@.map_values(
                |v: Vector3| spec_transform_pt(euler_mat_bits(rot.x, rot.y, rot.z), v),
            ),
            final(self).triangles@ == old(self).triangles@,
            old(self).wf() ==> final(self).wf(),
    {
        let matrix = Mat4Bits::rotation(rot);
        self.apply_transform(&matrix);
    }

    /// Translates every vertex, through the translation matrix.
    pub fn translate(&mut self, trans: Vector3)
        ensures
            final(self).vertices@ == old(self).vertices@.map_values(
                |v: Vector3| spec_transform_pt(spec_translation_mat(trans), v),
            ),
            final(self).triangles@ == old(self).triangles@,
            old(self).wf() ==> final(self).wf(),
    {
        let matrix = Mat4Bits::translation(trans);
        self.apply_transform(&matrix);
    }

    /// Displaces every vertex by a fresh uniform sample per axis, drawn
    /// from the stream seeded with `seed`. The output is a pure function of
    /// the vertices, bounds, scale and seed, so equal inputs reproduce
    /// bit-identical output.
    pub fn deform(&mut self, min: Vector3, max: Vector3, scale: Vector3, seed: u64)
        requires
            old(self).vertices@.len() <= MAX_VERTICES,
        ensures
            final(self).vertices@ == spec_deform(old(self).vertices@, min, max, scale, seed),
            final(self).triangles@ == old(self).triangles@,
            old(self).wf() ==> final(self).wf(),
    {
        let n = self.vertices.len();
        for i in 0..n
            invariant
                n == self.vertices@.len(),
                n <= MAX_VERTICES,
                self.vertices@.len() == old(self).vertices@.len(),
                self.triangles@ == old(self).triangles@,
                forall|j: int|
                    0 <= j < i ==> self.vertices@[j] == spec_add3(
                        #[trigger] old(self).vertices@[j],
                        spec_deform_offset(min, max, scale, seed, j),
                    ),
                forall|j: int| i <= j < n ==> self.vertices@[j] == #[trigger] old(self).vertices@[j],
        {
            let min_x = f_mul(min.x, scale.x);
            let x_range = f_sub(f_mul(max.x, scale.y), min_x);
            let x_offset = f_add(min_x, f_mul(unit_sample(seed, 3 * (i as u64)), x_range));

            let min_y = f_mul(min.y, scale.y);
            let y_range = f_sub(f_mul(max.y, scale.y), min_y);
            let y_offset = f_add(min_y, f_mul(unit_sample(seed, 3 * (i as u64) + 1), y_range));

            let min_z = f_mul(min.z, scale.z);
            let z_range = f_sub(f_mul(max.z, scale.z), min_z);
            let z_offset = f_add(min_z, f_mul(unit_sample(seed, 3 * (i as u64) + 2), z_range));

            let v = self.vertices[i];
            let moved = v.plus(Vector3 { x: x_offset, y: y_offset, z: z_offset });
            self.vertices[i].set(moved.x, moved.y, moved.z);
        }
        proof {
            assert(self.vertices@ =~= spec_deform(old(self).vertices@, min, max, scale, seed));
            if old(self).wf() {
                assert forall|i: int| 0 <= i < self.triangles@.len() implies triangle_ok(
                    #[trigger] self.triangles@[i],
                    self.vertices@.len(),
                ) by {
                    assert(triangle_ok(old(self).triangles@[i], old(self).vertices@.len()));
                }
            }
        }
    }
}

} // verus!
