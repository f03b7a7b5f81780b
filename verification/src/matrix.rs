//! Affine 4x4 transform matrices over bit patterns, column-major.
//!
//! Scale and translation matrices are pure component placement and are
//! built and specified exactly here; only the Euler rotation matrix comes
//! from the outside math library, under a named result. Applying a matrix
//! to a point is verified arithmetic over the named scalar operations.
use vstd::prelude::*;

use crate::fbits::{add_bits, f_add, f_mul, mul_bits, F_ONE, F_ZERO};
use crate::model::Vector3;

verus! {

/// A 4x4 matrix of IEEE 754 bit patterns, column-major: entry `(row r,
/// column c)` lives at `m[4 * c + r]`.
pub struct Mat4Bits {
    pub m: [u32; 16],
}

/// The scale matrix: `scale` on the diagonal, one in the corner.
pub open spec fn spec_scale_mat(s: Vector3) -> Seq<u32> {
    seq![
        s.x, F_ZERO, F_ZERO, F_ZERO,
        F_ZERO, s.y, F_ZERO, F_ZERO,
        F_ZERO, F_ZERO, s.z, F_ZERO,
        F_ZERO, F_ZERO, F_ZERO, F_ONE,
    ]
}

/// The translation matrix: identity with `t` in the last column.
pub open spec fn spec_translation_mat(t: Vector3) -> Seq<u32> {
    seq![
        F_ONE, F_ZERO, F_ZERO, F_ZERO,
        F_ZERO, F_ONE, F_ZERO, F_ZERO,
        F_ZERO, F_ZERO, F_ONE, F_ZERO,
        t.x, t.y, t.z, F_ONE,
    ]
}

/// The column-major bit patterns of the rotation matrix built from the
/// given Euler angles (degrees, intrinsic Z-Y-X order).
pub uninterp spec fn euler_mat_bits(x: u32, y: u32, z: u32) -> Seq<u32>;

impl Mat4Bits {
    /// The matrix that scales by `s` componentwise.
    pub fn scale(s: Vector3) -> (r: Mat4Bits)
        ensures
            r.m@ == spec_scale_mat(s),
    {
        let m = Mat4Bits {
            m: [
                s.x, F_ZERO, F_ZERO, F_ZERO,
                F_ZERO, s.y, F_ZERO, F_ZERO,
                F_ZERO, F_ZERO, s.z, F_ZERO,
                F_ZERO, F_ZERO, F_ZERO, F_ONE,
            ],
        };
        proof {
            assert(m.m@ =~= spec_scale_mat(s));
        }
        m
    }

    /// The matrix that translates by `t`.
    pub fn translation(t: Vector3) -> (r: Mat4Bits)
        ensures
            r.m@ == spec_translation_mat(t),
    {
        let m = Mat4Bits {
            m: [
                F_ONE, F_ZERO, F_ZERO, F_ZERO,
                F_ZERO, F_ONE, F_ZERO, F_ZERO,
                F_ZERO, F_ZERO, F_ONE, F_ZERO,
                t.x, t.y, t.z, F_ONE,
            ],
        };
        proof {
            assert(m.m@ =~= spec_translation_mat(t));
        }
        m
    }

    /// The rotation matrix for Euler angles in degrees, composed
    /// intrinsically Z, then Y, then X.
    ///
    /// Relies on `glam::Mat4::from_euler` (with `f32::to_radians` on each
    /// angle): the matrix depends on the three angle bit patterns alone.
    #[verifier::external_body]
    pub fn rotation(deg: Vector3) -> (r: Mat4Bits)
        ensures
            r.m@ == euler_mat_bits(deg.x, deg.y, deg.z),
    {
        let v: glam::Vec3 = bytemuck::cast([deg.x, deg.y, deg.z]);
        let mat = glam::Mat4::from_euler(
            glam::EulerRot::ZYX,
            v.x.to_radians(),
            v.y.to_radians(),
            v.z.to_radians(),
        );
        let bits: [u32; 16] = bytemuck::cast(mat);
        Mat4Bits { m: bits }
    }
}

/// The affine image of point `p` under the matrix with entries `m`:
/// per component, `m` times `(p, 1)`, with the products accumulated in the
/// x, y, z, w column order the mesh pipeline uses.
pub open spec fn spec_transform_pt(m: Seq<u32>, p: Vector3) -> Vector3 {
    Vector3 {
        x: add_bits(
            m[12],
            add_bits(mul_bits(m[8], p.z), add_bits(mul_bits(m[4], p.y), mul_bits(m[0], p.x))),
        ),
        y: add_bits(
            m[13],
            add_bits(mul_bits(m[9], p.z), add_bits(mul_bits(m[5], p.y), mul_bits(m[1], p.x))),
        ),
        z: add_bits(
            m[14],
            add_bits(mul_bits(m[10], p.z), add_bits(mul_bits(m[6], p.y), mul_bits(m[2], p.x))),
        ),
    }
}

/// Applies the matrix to one point: the verified counterpart of an affine
/// matrix-point product, componentwise over the named scalar operations.
pub fn transform_point(m: &Mat4Bits, p: Vector3) -> (r: Vector3)
    ensures
        r == spec_transform_pt(m.m@, p),
{
    let rx = f_mul(m.m[0], p.x);
    let rx = f_add(f_mul(m.m[4], p.y), rx);
    let rx = f_add(f_mul(m.m[8], p.z), rx);
    let rx = f_add(m.m[12], rx);

    let ry = f_mul(m.m[1], p.x);
    let ry = f_add(f_mul(m.m[5], p.y), ry);
    let ry = f_add(f_mul(m.m[9], p.z), ry);
    let ry = f_add(m.m[13], ry);

    let rz = f_mul(m.m[2], p.x);
    let rz = f_add(f_mul(m.m[6], p.y), rz);
    let rz = f_add(f_mul(m.m[10], p.z), rz);
    let rz = f_add(m.m[14], rz);

    Vector3 { x: rx, y: ry, z: rz }
}

/// The component bit patterns `(x, y, z, w)` of the normalized quaternion
/// built from the given Euler angles (degrees, intrinsic Z-Y-X order).
pub uninterp spec fn quat_bits(x: u32, y: u32, z: u32) -> Seq<u32>;

/// Relies on `glam::Quat::from_euler` and `Quat::normalize` (with
/// `f32::to_radians` on each angle): the quaternion depends on the three
/// angle bit patterns alone. The angles must be finite: sine and cosine of
/// a finite angle are finite and give a quaternion of norm close to one,
/// so the normalization is well defined.
#[verifier::external_body]
pub fn quat_of_euler_deg(deg: Vector3) -> (r: [u32; 4])
    requires
        crate::fbits::is_finite_bits(deg.x),
        crate::fbits::is_finite_bits(deg.y),
        crate::fbits::is_finite_bits(deg.z),
    ensures
        r@ == quat_bits(deg.x, deg.y, deg.z),
{
    let v: glam::Vec3 = bytemuck::cast([deg.x, deg.y, deg.z]);
    let q = glam::Quat::from_euler(
        glam::EulerRot::ZYX,
        v.x.to_radians(),
        v.y.to_radians(),
        v.z.to_radians(),
    ).normalize();
    bytemuck::cast(q)
}

} // verus!
