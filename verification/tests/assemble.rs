//! The scene assembler: materials, meshes, node ids, animations and the
//! end-to-end document.
use gltfgen::assembler::normalize_color;
use gltfgen::gltf::AccessorType;
use gltfgen::{
    assemble, Animation, Channel, Cube, Geometry, GltfError, Material, Mesh, Model, Node,
    Primitive, Target, Vector3,
};

fn v(x: f32, y: f32, z: f32) -> Vector3 {
    Vector3::new(x.to_bits(), y.to_bits(), z.to_bits())
}

fn bits4(c: [f32; 4]) -> [u32; 4] {
    [c[0].to_bits(), c[1].to_bits(), c[2].to_bits(), c[3].to_bits()]
}

fn node(name: &str, children: Vec<Node>) -> Node {
    Node {
        name: name.to_string(),
        mesh: None,
        offset: None,
        rotation: None,
        scale: None,
        children,
    }
}

fn empty_model() -> Model {
    Model { meshes: vec![], nodes: vec![], animations: vec![], materials: vec![] }
}

#[test]
fn byte_scaled_color_is_rescaled() {
    let out = normalize_color(bits4([255.0, 128.0, 0.0, 255.0]));
    assert_eq!(f32::from_bits(out[0]), 1.0);
    assert_eq!(out[1], (128.0f32 / 255.0f32).to_bits());
    assert!((f32::from_bits(out[1]) - 0.502).abs() < 1e-3);
    assert_eq!(f32::from_bits(out[2]), 0.0);
    assert_eq!(f32::from_bits(out[3]), 1.0);
}

#[test]
fn unit_color_is_left_unchanged() {
    let c = bits4([0.2, 0.4, 0.6, 1.0]);
    assert_eq!(normalize_color(c), c);
}

#[test]
fn child_ids_are_below_parent_ids() {
    // the forest A -> [B, C] gets post-order ids: children first
    let mut model = empty_model();
    model.nodes = vec![node("A", vec![node("B", vec![]), node("C", vec![])])];
    let doc = assemble(&model).unwrap();
    assert_eq!(doc.gltf.nodes.len(), 3);
    // A is the root and must carry the largest id; both children reference
    // already-assigned smaller ids
    let a_id = doc.gltf.scenes[0].nodes[0];
    assert_eq!(a_id, 2);
    let a = &doc.gltf.nodes[a_id as usize];
    assert_eq!(a.children, vec![0, 1]);
    for &c in &a.children {
        assert!(c < a_id);
    }
}

#[test]
fn duplicate_node_name_is_rejected() {
    let mut model = empty_model();
    model.nodes = vec![node("A", vec![]), node("A", vec![])];
    assert!(matches!(assemble(&model), Err(GltfError::DuplicateName { .. })));
}

#[test]
fn unknown_material_is_reported() {
    let mut model = empty_model();
    model.meshes = vec![Mesh {
        name: "m".to_string(),
        primitives: vec![Primitive {
            material: Some("missing".to_string()),
            geometry: vec![cube_geometry(1.0)],
        }],
    }];
    match assemble(&model) {
        Err(GltfError::UnknownMaterial { name }) => assert_eq!(name, "missing"),
        other => panic!("expected an unknown-material failure, got {:?}", other.map(|_| ())),
    }
}

fn cube_geometry(size: f32) -> Geometry {
    Geometry::Cube(Cube {
        position: v(0.0, 0.0, 0.0),
        size: v(size, size, size),
        rotation: None,
        offsets: None,
    })
}

#[test]
fn box_end_to_end() {
    // one unit box at the origin: one buffer view, one accessor of count
    // 36, bounds at half a unit in every direction
    let mut model = empty_model();
    model.meshes = vec![Mesh {
        name: "box".to_string(),
        primitives: vec![Primitive { material: None, geometry: vec![cube_geometry(1.0)] }],
    }];
    let doc = assemble(&model).unwrap();
    assert_eq!(doc.gltf.buffer_views.len(), 1);
    assert_eq!(doc.gltf.accessors.len(), 1);
    let acc = &doc.gltf.accessors[0];
    assert_eq!(acc.count, 36);
    assert_eq!(acc.accessor_type, AccessorType::Vec3);
    assert_eq!(acc.component_type, 5126);
    let min: Vec<f32> = acc.min.iter().map(|&b| f32::from_bits(b)).collect();
    let max: Vec<f32> = acc.max.iter().map(|&b| f32::from_bits(b)).collect();
    assert_eq!(min, vec![-0.5, -0.5, -0.5]);
    assert_eq!(max, vec![0.5, 0.5, 0.5]);
    let view = &doc.gltf.buffer_views[0];
    assert_eq!(view.buffer, 0);
    assert_eq!(view.byte_offset, 0);
    assert_eq!(view.byte_length, 36 * 12);
    assert_eq!(doc.gltf.buffers.len(), 1);
    assert_eq!(doc.gltf.buffers[0].byte_length, 36 * 12);
    assert_eq!(doc.vertex_data.len(), 36);
    assert_eq!(doc.gltf.asset.version, "2.0");
}

#[test]
fn rotation_channel_packs_quaternions() {
    // one rotation channel with two keyframes on one node: a vec4 output
    // accessor of count 2 whose bounds box the two quaternions
    let mut model = empty_model();
    model.nodes = vec![node("spinner", vec![])];
    model.animations = vec![Animation {
        name: "spin".to_string(),
        channels: vec![Channel {
            nodes: vec!["spinner".to_string()],
            target: Target::Rotation,
            keyframes: vec![(0f32.to_bits(), v(0.0, 0.0, 0.0)), (1f32.to_bits(), v(90.0, 0.0, 0.0))],
        }],
    }];
    let doc = assemble(&model).unwrap();

    assert_eq!(doc.gltf.animations.len(), 1);
    let anim = &doc.gltf.animations[0];
    assert_eq!(anim.samplers.len(), 1);
    assert_eq!(anim.channels.len(), 1);
    let output = &doc.gltf.accessors[anim.samplers[0].output as usize];
    assert_eq!(output.accessor_type, AccessorType::Vec4);
    assert_eq!(output.count, 2);

    let q0 = glam::Quat::from_euler(glam::EulerRot::ZYX, 0f32.to_radians(), 0.0, 0.0).normalize();
    let q1 = glam::Quat::from_euler(glam::EulerRot::ZYX, 90f32.to_radians(), 0.0, 0.0).normalize();
    let expect_min = [
        1f32.min(q0.x).min(q1.x),
        1f32.min(q0.y).min(q1.y),
        1f32.min(q0.z).min(q1.z),
        1f32.min(q0.w).min(q1.w),
    ];
    let expect_max = [
        (-1f32).max(q0.x).max(q1.x),
        (-1f32).max(q0.y).max(q1.y),
        (-1f32).max(q0.z).max(q1.z),
        (-1f32).max(q0.w).max(q1.w),
    ];
    for i in 0..4 {
        assert_eq!(output.min[i], expect_min[i].to_bits());
        assert_eq!(output.max[i], expect_max[i].to_bits());
    }

    let input = &doc.gltf.accessors[anim.samplers[0].input as usize];
    assert_eq!(input.accessor_type, AccessorType::Scalar);
    assert_eq!(input.count, 2);
    assert_eq!(input.max, vec![1f32.to_bits()]);
    assert_eq!(input.min, vec![0f32.to_bits()]);

    // time track then quaternion track, in one view of the animation buffer
    assert_eq!(doc.animation_data.len(), 2 + 2 * 4);
    assert_eq!(doc.animation_data[0], 0f32.to_bits());
    assert_eq!(doc.animation_data[1], 1f32.to_bits());
    assert_eq!(doc.animation_data[2], q0.x.to_bits());
    assert_eq!(doc.animation_data[6], q1.x.to_bits());
    assert_eq!(doc.gltf.buffers.len(), 2);
    assert_eq!(doc.gltf.buffers[1].byte_length, (doc.animation_data.len() * 4) as u32);
}

#[test]
fn empty_channel_is_rejected() {
    let mut model = empty_model();
    model.nodes = vec![node("n", vec![])];
    model.animations = vec![Animation {
        name: "a".to_string(),
        channels: vec![Channel {
            nodes: vec!["n".to_string()],
            target: Target::Scale,
            keyframes: vec![],
        }],
    }];
    assert!(matches!(assemble(&model), Err(GltfError::EmptyChannel)));
}

#[test]
fn unknown_animation_node_is_reported() {
    let mut model = empty_model();
    model.animations = vec![Animation {
        name: "a".to_string(),
        channels: vec![Channel {
            nodes: vec!["ghostly".to_string()],
            target: Target::Translation,
            keyframes: vec![(0f32.to_bits(), v(0.0, 0.0, 0.0))],
        }],
    }];
    match assemble(&model) {
        Err(GltfError::UnknownNode { name }) => assert_eq!(name, "ghostly"),
        other => panic!("expected an unknown-node failure, got {:?}", other.map(|_| ())),
    }
}

#[test]
fn non_finite_rotation_is_rejected() {
    let mut model = empty_model();
    model.nodes = vec![Node {
        name: "n".to_string(),
        mesh: None,
        offset: None,
        rotation: Some(v(f32::NAN, 0.0, 0.0)),
        scale: None,
        children: vec![],
    }];
    assert!(matches!(assemble(&model), Err(GltfError::NonFiniteRotation)));
}

#[test]
fn translation_channel_tracks_componentwise_bounds() {
    let mut model = empty_model();
    model.nodes = vec![node("n", vec![])];
    model.animations = vec![Animation {
        name: "slide".to_string(),
        channels: vec![Channel {
            nodes: vec!["n".to_string()],
            target: Target::Translation,
            keyframes: vec![
                (0f32.to_bits(), v(1.0, -2.0, 3.0)),
                (0.5f32.to_bits(), v(-1.0, 4.0, 0.0)),
            ],
        }],
    }];
    let doc = assemble(&model).unwrap();
    let anim = &doc.gltf.animations[0];
    let output = &doc.gltf.accessors[anim.samplers[0].output as usize];
    assert_eq!(output.accessor_type, AccessorType::Vec3);
    let min: Vec<f32> = output.min.iter().map(|&b| f32::from_bits(b)).collect();
    let max: Vec<f32> = output.max.iter().map(|&b| f32::from_bits(b)).collect();
    assert_eq!(min, vec![-1.0, -2.0, 0.0]);
    assert_eq!(max, vec![1.0, 4.0, 3.0]);
}

#[test]
fn materials_get_sequential_ids() {
    let mut model = empty_model();
    model.materials = vec![
        Material {
            name: "red".to_string(),
            base_color: bits4([255.0, 0.0, 0.0, 255.0]),
            metallic: 0.5f32.to_bits(),
            roughness: 0.25f32.to_bits(),
        },
        Material {
            name: "blue".to_string(),
            base_color: bits4([0.0, 0.0, 1.0, 1.0]),
            metallic: 0f32.to_bits(),
            roughness: 1f32.to_bits(),
        },
    ];
    model.meshes = vec![Mesh {
        name: "m".to_string(),
        primitives: vec![Primitive {
            material: Some("blue".to_string()),
            geometry: vec![cube_geometry(1.0)],
        }],
    }];
    let doc = assemble(&model).unwrap();
    assert_eq!(doc.gltf.materials.len(), 2);
    assert_eq!(doc.gltf.materials[0].name, "red");
    assert!(doc.gltf.materials[0].double_sided);
    // the byte-scaled red was normalized, the unit blue kept
    assert_eq!(
        f32::from_bits(doc.gltf.materials[0].pbr_metallic_roughness.base_color_factor[0]),
        1.0
    );
    assert_eq!(
        f32::from_bits(doc.gltf.materials[1].pbr_metallic_roughness.base_color_factor[2]),
        1.0
    );
    assert_eq!(doc.gltf.meshes[0].primitives[0].material, Some(1));
}

#[test]
fn bounds_cover_only_the_primitive() {
    // a box away from the origin, with a negative axis: the accessor
    // bounds are the primitive's own componentwise bounds, not clipped to
    // any fixed window — and they equal what the flattened vertex run
    // itself reports through min_position/max_position
    let mut model = empty_model();
    model.meshes = vec![Mesh {
        name: "near".to_string(),
        primitives: vec![Primitive { material: None, geometry: vec![cube_geometry(1.0)] }],
    }, Mesh {
        name: "far".to_string(),
        primitives: vec![Primitive {
            material: None,
            geometry: vec![Geometry::Cube(Cube {
                position: v(300.0, -2.0, 0.0),
                size: v(1.0, 1.0, 1.0),
                rotation: None,
                offsets: None,
            })],
        }],
    }];
    let doc = assemble(&model).unwrap();
    assert_eq!(doc.gltf.accessors.len(), 2);

    // the second accessor covers the far box alone
    let acc = &doc.gltf.accessors[1];
    let min: Vec<f32> = acc.min.iter().map(|&b| f32::from_bits(b)).collect();
    let max: Vec<f32> = acc.max.iter().map(|&b| f32::from_bits(b)).collect();
    assert_eq!(min, vec![299.5, -2.5, -0.5]);
    assert_eq!(max, vec![300.5, -1.5, 0.5]);

    // and the first still covers the near box alone
    let acc0 = &doc.gltf.accessors[0];
    let min0: Vec<f32> = acc0.min.iter().map(|&b| f32::from_bits(b)).collect();
    let max0: Vec<f32> = acc0.max.iter().map(|&b| f32::from_bits(b)).collect();
    assert_eq!(min0, vec![-0.5, -0.5, -0.5]);
    assert_eq!(max0, vec![0.5, 0.5, 0.5]);

    // agreement with the mesh buffer's own bounds over the same run
    let far = Geometry::Cube(Cube {
        position: v(300.0, -2.0, 0.0),
        size: v(1.0, 1.0, 1.0),
        rotation: None,
        offsets: None,
    })
        .generate_geometry()
        .unwrap();
    let run = gltfgen::GeometryBuffer { vertices: far.make_redundant(), triangles: vec![] };
    let lo = run.min_position();
    let hi = run.max_position();
    assert_eq!(acc.min, vec![lo.x, lo.y, lo.z]);
    assert_eq!(acc.max, vec![hi.x, hi.y, hi.z]);
}
