//! The shape generators and the composite transform pipeline.
use genmesh::generators::{IndexedPolygon, SharedVertex};
use gltfgen::{
    Cone, Cube, Cylinder, Deform, GenerateGeometry, Geometry, GltfError, Icosphere, UvSphere,
    Vector3,
};

fn v(x: f32, y: f32, z: f32) -> Vector3 {
    Vector3::new(x.to_bits(), y.to_bits(), z.to_bits())
}

fn fv(p: &Vector3) -> glam::Vec3 {
    glam::Vec3::new(f32::from_bits(p.x), f32::from_bits(p.y), f32::from_bits(p.z))
}

#[test]
fn cube_has_eight_corners_and_twelve_triangles() {
    let cube = Cube {
        position: v(0.0, 0.0, 0.0),
        size: v(1.0, 1.0, 1.0),
        rotation: None,
        offsets: None,
    };
    let buf = cube.generate_geometry();
    assert_eq!(buf.vertices.len(), 8);
    assert_eq!(buf.triangles.len(), 12);
    assert_eq!(fv(&buf.vertices[0]), glam::Vec3::new(-0.5, -0.5, -0.5));
    assert_eq!(fv(&buf.vertices[7]), glam::Vec3::new(0.5, 0.5, 0.5));
    for t in &buf.triangles {
        assert!(t.0[0] != t.0[1] && t.0[1] != t.0[2] && t.0[2] != t.0[0]);
        assert!(t.0.iter().all(|&i| (i as usize) < 8));
    }
}

#[test]
fn transform_order_is_scale_rotate_translate() {
    // a declared scale, rotation and translation are applied in that fixed
    // order: the result matches T * R * S applied to each local corner
    let cube = Cube {
        position: v(5.0, 0.0, 0.0),
        size: v(2.0, 1.0, 1.0),
        rotation: Some(v(0.0, 0.0, 90.0)),
        offsets: None,
    };
    let base = Cube {
        position: v(0.0, 0.0, 0.0),
        size: v(1.0, 1.0, 1.0),
        rotation: None,
        offsets: None,
    }
        .generate_geometry();
    let buf = Geometry::Cube(cube).generate_geometry().unwrap();

    let s = glam::Mat4::from_scale(glam::Vec3::new(2.0, 1.0, 1.0));
    let r = glam::Mat4::from_euler(
        glam::EulerRot::ZYX,
        0f32.to_radians(),
        0f32.to_radians(),
        90f32.to_radians(),
    );
    let t = glam::Mat4::from_translation(glam::Vec3::new(5.0, 0.0, 0.0));
    for (out, local) in buf.vertices.iter().zip(base.vertices.iter()) {
        // bit-exact against the sequential application the pipeline performs
        let seq = t.transform_point3(r.transform_point3(s.transform_point3(fv(local))));
        assert_eq!(fv(out).x.to_bits(), seq.x.to_bits());
        assert_eq!(fv(out).y.to_bits(), seq.y.to_bits());
        assert_eq!(fv(out).z.to_bits(), seq.z.to_bits());
        // and within rounding of the composed matrix product T * R * S
        let prod = (t * r * s).transform_point3(fv(local));
        assert!((fv(out) - prod).length() < 1e-5);
        // the reversed order would land far away
        let wrong = (s * r * t).transform_point3(fv(local));
        assert!((fv(out) - wrong).length() > 1.0);
    }
}

#[test]
fn cylinder_counts_and_rim() {
    let cyl = Cylinder {
        position: v(0.0, 0.0, 0.0),
        size: v(1.0, 1.0, 1.0),
        points: 8,
        rotation: None,
    };
    let buf = cyl.generate_geometry().unwrap();
    assert_eq!(buf.vertices.len(), 2 + 2 * 8);
    assert_eq!(buf.triangles.len(), 4 * 8);
    // before re-orientation the first rim point is (cos 0 * 0.5, sin 0 * 0.5, -0.5);
    // the fixed ninety-degree turn about z maps (x, y, z) to (-y, x, z)
    let rot = glam::Mat4::from_euler(
        glam::EulerRot::ZYX,
        0f32.to_radians(),
        0f32.to_radians(),
        90f32.to_radians(),
    );
    let expect = rot.transform_point3(glam::Vec3::new(0.5, 0.0, -0.5));
    assert_eq!(fv(&buf.vertices[2]).x.to_bits(), expect.x.to_bits());
    assert_eq!(fv(&buf.vertices[2]).y.to_bits(), expect.y.to_bits());
    assert_eq!(fv(&buf.vertices[2]).z.to_bits(), expect.z.to_bits());
}

#[test]
fn cylinder_rejects_bad_point_counts() {
    let mut cyl = Cylinder {
        position: v(0.0, 0.0, 0.0),
        size: v(1.0, 1.0, 1.0),
        points: 0,
        rotation: None,
    };
    assert!(matches!(cyl.generate_geometry(), Err(GltfError::InvalidShapeParameter)));
    cyl.points = 1;
    assert!(matches!(cyl.generate_geometry(), Err(GltfError::DegenerateTriangle { .. })));
    cyl.points = 40000;
    assert!(matches!(cyl.generate_geometry(), Err(GltfError::TooManyVertices)));
}

#[test]
fn cone_counts_match_the_generator() {
    let cone = Cone { divides: 8, size: None, rotation: None, position: None };
    let buf = cone.generate_geometry().unwrap();
    assert_eq!(buf.vertices.len(), 3 * 8 + 1);
    assert_eq!(buf.triangles.len(), 2 * 8);
    let few = Cone { divides: 1, size: None, rotation: None, position: None };
    assert!(matches!(few.generate_geometry(), Err(GltfError::InvalidShapeParameter)));
}

#[test]
fn icosphere_counts() {
    let ico = Icosphere { divides: 0, size: None, rotation: None, position: None };
    let buf = ico.generate_geometry().unwrap();
    assert_eq!(buf.vertices.len(), 12);
    assert_eq!(buf.triangles.len(), 20);
    let deep = Icosphere { divides: 9, size: None, rotation: None, position: None };
    assert!(matches!(deep.generate_geometry(), Err(GltfError::TooManyVertices)));
}

#[test]
fn uv_sphere_counts() {
    let sphere = UvSphere { u: 8, v: 8, size: None, rotation: None, position: None };
    let buf = sphere.generate_geometry().unwrap();
    assert_eq!(buf.vertices.len(), (8 - 1) * 8 + 2);
    // 8 polar triangles per pole, quads in between split into two
    assert_eq!(buf.triangles.len(), 8 + 8 + 2 * (8 * 8 - 16));
    let flat = UvSphere { u: 1, v: 8, size: None, rotation: None, position: None };
    assert!(matches!(flat.generate_geometry(), Err(GltfError::InvalidShapeParameter)));
}

#[test]
fn deform_geometry_wraps_its_inner_shape() {
    let inner = Geometry::Cube(Cube {
        position: v(0.0, 0.0, 0.0),
        size: v(1.0, 1.0, 1.0),
        rotation: None,
        offsets: None,
    });
    let plain = inner_copy().generate_geometry().unwrap();
    let deformed = Geometry::Deform(Box::new(Deform {
        seed: 3,
        min: v(-1.0, -1.0, -1.0),
        max: v(1.0, 1.0, 1.0),
        geometry: inner,
    }))
        .generate_geometry()
        .unwrap();
    assert_eq!(deformed.vertices.len(), plain.vertices.len());
    assert_eq!(deformed.triangles.len(), plain.triangles.len());
    // the displacement really moved the corners
    assert!(deformed.vertices.iter().zip(plain.vertices.iter()).any(|(a, b)| a.x != b.x));
}

fn inner_copy() -> Geometry {
    Geometry::Cube(Cube {
        position: v(0.0, 0.0, 0.0),
        size: v(1.0, 1.0, 1.0),
        rotation: None,
        offsets: None,
    })
}

#[test]
fn plane_and_triangle_shapes() {
    let plane = Geometry::Plane(gltfgen::Plane {
        position: v(0.0, 0.0, 0.0),
        size: v(2.0, 4.0, 0.0),
        rotation: None,
    });
    let buf = plane.generate_geometry().unwrap();
    assert_eq!(buf.vertices.len(), 4);
    assert_eq!(buf.triangles.len(), 2);
    assert_eq!(fv(&buf.vertices[0]), glam::Vec3::new(-1.0, 0.0, -2.0));
    assert_eq!(fv(&buf.vertices[3]), glam::Vec3::new(1.0, 0.0, 2.0));

    let tri = Geometry::Triangle(gltfgen::Triangle {
        points: [v(0.0, 0.0, 0.0), v(1.0, 0.0, 0.0), v(0.0, 1.0, 0.0)],
        rotation: None,
    });
    let buf = tri.generate_geometry().unwrap();
    assert_eq!(buf.vertices.len(), 3);
    assert_eq!(buf.triangles.len(), 1);
    assert_eq!(buf.triangles[0].0, [0, 1, 2]);
}

#[test]
fn cone_matches_the_outside_generator() {
    // the packed cone is the outside generator's mesh, scaled to one half
    // and turned minus ninety degrees about z — checked vertex by vertex
    let cone = Cone { divides: 5, size: None, rotation: None, position: None };
    let buf = cone.generate_geometry().unwrap();

    let reference = genmesh::generators::Cone::new(5);
    let scale = glam::Mat4::from_scale(glam::Vec3::splat(0.5));
    let turn = glam::Mat4::from_euler(
        glam::EulerRot::ZYX,
        0f32.to_radians(),
        0f32.to_radians(),
        (-90f32).to_radians(),
    );
    let expected: Vec<glam::Vec3> = reference
        .shared_vertex_iter()
        .map(|v| {
            turn.transform_point3(
                scale.transform_point3(glam::Vec3::new(v.pos.x, v.pos.y, v.pos.z)),
            )
        })
        .collect();
    assert_eq!(buf.vertices.len(), expected.len());
    for (got, want) in buf.vertices.iter().zip(expected.iter()) {
        assert_eq!(fv(got).x.to_bits(), want.x.to_bits());
        assert_eq!(fv(got).y.to_bits(), want.y.to_bits());
        assert_eq!(fv(got).z.to_bits(), want.z.to_bits());
    }
    let tris: Vec<[u16; 3]> = reference
        .indexed_polygon_iter()
        .map(|t| [t.x as u16, t.y as u16, t.z as u16])
        .collect();
    assert_eq!(buf.triangles.len(), tris.len());
    for (got, want) in buf.triangles.iter().zip(tris.iter()) {
        assert_eq!(got.0, *want);
    }
}

#[test]
fn generators_share_one_trait() {
    let shape = Icosphere { divides: 1, size: None, rotation: None, position: None };
    let by_trait = GenerateGeometry::generate_geometry(&shape).unwrap();
    let direct = shape.generate_geometry().unwrap();
    assert_eq!(by_trait.vertices.len(), direct.vertices.len());
    assert_eq!(by_trait.triangles.len(), direct.triangles.len());
}
