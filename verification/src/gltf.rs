//! The document model: the flat, id-indexed tables of the interchange
//! schema. Pure data with no behavior; every cross-reference is an integer
//! id, never a name, and every floating-point quantity is a bit pattern.
use vstd::prelude::*;

verus! {

/// The document's format version marker.
pub struct Asset {
    pub version: String,
}

/// The root document: every table the schema defines, plus the default
/// scene index.
pub struct Gltf {
    pub scene: u32,
    pub scenes: Vec<Scene>,
    pub nodes: Vec<Node>,
    pub meshes: Vec<Mesh>,
    pub buffers: Vec<Buffer>,
    pub buffer_views: Vec<BufferView>,
    pub accessors: Vec<Accessor>,
    pub materials: Vec<Material>,
    pub animations: Vec<Animation>,
    pub asset: Asset,
}

/// A scene: the ids of its root nodes.
pub struct Scene {
    pub nodes: Vec<u32>,
}

/// A flattened node: child ids, an optional mesh id, and optional local
/// transform fields. An absent field is omitted from the document, not
/// defaulted.
pub struct Node {
    pub mesh: Option<u32>,
    pub children: Vec<u32>,
    pub translation: Option<[u32; 3]>,
    pub rotation: Option<[u32; 4]>,
    pub scale: Option<[u32; 3]>,
}

/// A mesh: its primitives.
pub struct Mesh {
    pub primitives: Vec<Primitive>,
}

/// One primitive: its vertex attributes and an optional material id.
pub struct Primitive {
    pub attributes: Attributes,
    pub material: Option<u32>,
}

/// The vertex attributes of a primitive: the id of its position accessor.
pub struct Attributes {
    pub position: Option<u32>,
}

/// A raw binary buffer: its encoded location and its exact byte length.
pub struct Buffer {
    pub uri: String,
    pub byte_length: u32,
}

/// A byte range within a buffer, with an optional usage target hint.
pub struct BufferView {
    pub buffer: u32,
    pub byte_offset: u32,
    pub byte_length: u32,
    pub target: Option<u32>,
}

/// The element shape an accessor reads: a scalar, or a vector of three or
/// four components.
#[derive(Clone, Copy, Debug, PartialEq, Eq, Structural)]
pub enum AccessorType {
    Scalar,
    Vec3,
    Vec4,
}

/// How to read a byte range of a buffer view as typed numeric data. The
/// byte offset is relative to the start of the view, never the buffer, and
/// the bounds are always populated.
pub struct Accessor {
    pub buffer_view: u32,
    pub byte_offset: u32,
    pub component_type: u32,
    pub count: u32,
    pub accessor_type: AccessorType,
    pub max: Vec<u32>,
    pub min: Vec<u32>,
}

/// A material in document form.
pub struct Material {
    pub name: String,
    pub pbr_metallic_roughness: PBRMetallicRoughness,
    pub double_sided: bool,
}

/// The metallic-roughness parameters of a material, as bit patterns.
pub struct PBRMetallicRoughness {
    pub base_color_factor: [u32; 4],
    pub metallic_factor: u32,
    pub roughness_factor: u32,
}

/// An animation: its samplers and the channels that bind them to nodes.
pub struct Animation {
    pub name: String,
    pub samplers: Vec<Sampler>,
    pub channels: Vec<Channel>,
}

/// One sampler: the accessor ids of its time and value tracks.
pub struct Sampler {
    pub input: u32,
    pub output: u32,
    pub interpolation: Interpolation,
}

/// One channel: a sampler id and the node property it drives.
pub struct Channel {
    pub sampler: u32,
    pub target: Target,
}

/// The node and property an animation channel drives.
pub struct Target {
    pub node: u32,
    pub path: Path,
}

/// A node as the specs see it: sequences in place of vectors and arrays.
pub struct NodeV {
    pub mesh: Option<u32>,
    pub children: Seq<u32>,
    pub translation: Option<Seq<u32>>,
    pub rotation: Option<Seq<u32>>,
    pub scale: Option<Seq<u32>>,
}

impl View for Node {
    type V = NodeV;

    open spec fn view(&self) -> NodeV {
        NodeV {
            mesh: self.mesh,
            children: self.children@,
            translation: match self.translation {
                Some(a) => Some(a@),
                None => None,
            },
            rotation: match self.rotation {
                Some(a) => Some(a@),
                None => None,
            },
            scale: match self.scale {
                Some(a) => Some(a@),
                None => None,
            },
        }
    }
}

/// An accessor as the specs see it.
pub struct AccessorV {
    pub buffer_view: u32,
    pub byte_offset: u32,
    pub component_type: u32,
    pub count: u32,
    pub accessor_type: AccessorType,
    pub max: Seq<u32>,
    pub min: Seq<u32>,
}

impl View for Accessor {
    type V = AccessorV;

    open spec fn view(&self) -> AccessorV {
        AccessorV {
            buffer_view: self.buffer_view,
            byte_offset: self.byte_offset,
            component_type: self.component_type,
            count: self.count,
            accessor_type: self.accessor_type,
            max: self.max@,
            min: self.min@,
        }
    }
}

impl View for Mesh {
    type V = Seq<Primitive>;

    open spec fn view(&self) -> Seq<Primitive> {
        self.primitives@
    }
}

impl View for Scene {
    type V = Seq<u32>;

    open spec fn view(&self) -> Seq<u32> {
        self.nodes@
    }
}

/// A material as the specs see it: the metallic-roughness block flattened,
/// the name and color by their views.
pub struct MaterialV {
    pub name: Seq<char>,
    pub base_color_factor: Seq<u32>,
    pub metallic_factor: u32,
    pub roughness_factor: u32,
    pub double_sided: bool,
}

impl View for Material {
    type V = MaterialV;

    open spec fn view(&self) -> MaterialV {
        MaterialV {
            name: self.name@,
            base_color_factor: self.pbr_metallic_roughness.base_color_factor@,
            metallic_factor: self.pbr_metallic_roughness.metallic_factor,
            roughness_factor: self.pbr_metallic_roughness.roughness_factor,
            double_sided: self.double_sided,
        }
    }
}

/// An animation as the specs see it.
pub struct AnimationV {
    pub name: Seq<char>,
    pub samplers: Seq<Sampler>,
    pub channels: Seq<Channel>,
}

impl View for Animation {
    type V = AnimationV;

    open spec fn view(&self) -> AnimationV {
        AnimationV { name: self.name@, samplers: self.samplers@, channels: self.channels@ }
    }
}

/// How sampled values are interpolated between keyframes.
#[derive(Clone, Copy, Debug, PartialEq, Eq, Structural)]
pub enum Interpolation {
    Linear,
    Step,
    CubicSpline,
}

/// Which transform property a channel animates.
#[derive(Clone, Copy, Debug, PartialEq, Eq, Structural)]
pub enum Path {
    Rotation,
    Scale,
    Translation,
}

} // verus!
