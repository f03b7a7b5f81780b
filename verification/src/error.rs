//! The failures the library reports instead of repairing geometry or
//! emitting a partial document.
use vstd::prelude::*;

verus! {

/// Why a mesh operation or the scene assembly was aborted.
///
/// Validation failures (degenerate triangles, the vertex-capacity ceiling,
/// malformed shape parameters) and reference-resolution failures (a name
/// that is missing from its table, or declared twice) are all fatal: the
/// caller receives the error and no partial result.
#[derive(Debug, Clone)]
pub enum GltfError {
    /// Two of a triangle's three vertex indices coincide.
    DegenerateTriangle { a: u16, b: u16, c: u16 },
    /// A triangle refers to a vertex index that is not in the buffer.
    /// Storing it would break the mesh invariant that every index
    /// addresses a vertex, so the insertion is refused instead.
    IndexOutOfRange { index: u16 },
    /// The buffer already holds 65535 vertices, the most a 16-bit index
    /// stream can address.
    TooManyVertices,
    /// A shape was declared with too few cross-section points or divisions
    /// to form any geometry.
    InvalidShapeParameter,
    /// A primitive names a material that the materials table does not hold.
    UnknownMaterial { name: String },
    /// A node names a mesh that the meshes table does not hold.
    UnknownMesh { name: String },
    /// An animation channel names a node that the node forest does not hold.
    UnknownNode { name: String },
    /// Two entries of one namespace (mesh, material or node) share a name,
    /// so references into that namespace cannot be resolved.
    DuplicateName { name: String },
    /// An animation channel carries no keyframes, so no track can be
    /// serialized for it.
    EmptyChannel,
    /// A rotation holds an infinite or NaN angle, which no normalized
    /// quaternion can represent; rejecting it is deliberate, since the
    /// document would otherwise carry NaN rotation components.
    NonFiniteRotation,
    /// The packed binary data outgrew the 32-bit byte offsets of the
    /// document's buffer views.
    BufferTooLarge,
}

} // verus!
