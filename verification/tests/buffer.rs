//! The mesh buffer: capacity, triangle validation, flattening, bounds,
//! splitting and removal.
use gltfgen::{GeometryBuffer, GltfError, Vector3};

fn v(x: f32, y: f32, z: f32) -> Vector3 {
    Vector3::new(x.to_bits(), y.to_bits(), z.to_bits())
}

#[test]
fn vertex_returns_sequential_indices() {
    let mut buf = GeometryBuffer::new();
    assert_eq!(buf.vertex(v(0.0, 0.0, 0.0)).unwrap(), 0);
    assert_eq!(buf.vertex(v(1.0, 0.0, 0.0)).unwrap(), 1);
    assert_eq!(buf.vertex(v(0.0, 1.0, 0.0)).unwrap(), 2);
}

#[test]
fn vertex_capacity_ceiling() {
    let mut buf = GeometryBuffer::new();
    for i in 0..65534 {
        buf.vertex(v(i as f32, 0.0, 0.0)).unwrap();
    }
    // the 65535th vertex still fits ...
    assert_eq!(buf.vertex(v(1.0, 2.0, 3.0)).unwrap(), 65534);
    // ... and the 65536th fails with the capacity error
    assert!(matches!(buf.vertex(v(9.0, 9.0, 9.0)), Err(GltfError::TooManyVertices)));
    assert_eq!(buf.vertices.len(), 65535);
}

#[test]
fn degenerate_triangle_rejected() {
    let mut buf = GeometryBuffer::new();
    for _ in 0..6 {
        buf.vertex(v(0.0, 0.0, 0.0)).unwrap();
    }
    assert!(matches!(
        buf.triangle(2, 2, 5),
        Err(GltfError::DegenerateTriangle { a: 2, b: 2, c: 5 })
    ));
    assert!(buf.triangle(0, 1, 2).is_ok());
    assert_eq!(buf.triangles.len(), 1);
}

#[test]
fn out_of_range_triangle_rejected() {
    let mut buf = GeometryBuffer::new();
    buf.vertex(v(0.0, 0.0, 0.0)).unwrap();
    buf.vertex(v(1.0, 0.0, 0.0)).unwrap();
    assert!(matches!(
        buf.triangle(0, 1, 7),
        Err(GltfError::IndexOutOfRange { index: 7 })
    ));
}

#[test]
fn make_redundant_three_per_triangle() {
    let mut buf = GeometryBuffer::new();
    let a = buf.vertex(v(0.0, 0.0, 0.0)).unwrap();
    let b = buf.vertex(v(1.0, 0.0, 0.0)).unwrap();
    let c = buf.vertex(v(0.0, 1.0, 0.0)).unwrap();
    let d = buf.vertex(v(0.0, 0.0, 1.0)).unwrap();
    buf.triangle(a, b, c).unwrap();
    buf.triangle(b, c, d).unwrap();
    let flat = buf.make_redundant();
    assert_eq!(flat.len(), 3 * buf.triangles.len());
    assert_eq!(flat[0], buf.vertices[0]);
    assert_eq!(flat[1], buf.vertices[1]);
    assert_eq!(flat[2], buf.vertices[2]);
    assert_eq!(flat[3], buf.vertices[1]);
    assert_eq!(flat[4], buf.vertices[2]);
    assert_eq!(flat[5], buf.vertices[3]);
}

#[test]
fn flatten_matches_generator_output() {
    // every generator's flattened stream is three vertices per triangle
    let cube = gltfgen::Cube {
        position: v(0.0, 0.0, 0.0),
        size: v(1.0, 1.0, 1.0),
        rotation: None,
        offsets: None,
    };
    let buf = cube.generate_geometry();
    assert_eq!(buf.make_redundant().len(), 3 * buf.triangles.len());

    let cyl = gltfgen::Cylinder {
        position: v(0.0, 0.0, 0.0),
        size: v(1.0, 1.0, 1.0),
        points: 7,
        rotation: None,
    };
    let buf = cyl.generate_geometry().unwrap();
    assert_eq!(buf.make_redundant().len(), 3 * buf.triangles.len());
}

#[test]
fn bounds_of_points() {
    let mut buf = GeometryBuffer::new();
    buf.vertex(v(-1.0, 4.0, 0.5)).unwrap();
    buf.vertex(v(2.0, -3.0, 0.25)).unwrap();
    let min = buf.min_position();
    let max = buf.max_position();
    assert_eq!(f32::from_bits(min.x), -1.0);
    assert_eq!(f32::from_bits(min.y), -3.0);
    assert_eq!(f32::from_bits(min.z), 0.25);
    assert_eq!(f32::from_bits(max.x), 2.0);
    assert_eq!(f32::from_bits(max.y), 4.0);
    assert_eq!(f32::from_bits(max.z), 0.5);
}

#[test]
fn bounds_of_empty_buffer() {
    let buf = GeometryBuffer::new();
    let min = buf.min_position();
    let max = buf.max_position();
    assert_eq!(f32::from_bits(min.x), f32::MAX);
    assert_eq!(f32::from_bits(max.x), f32::MIN);
}

#[test]
fn split_and_remove_triangle() {
    let mut buf = GeometryBuffer::new();
    for _ in 0..4 {
        buf.vertex(v(0.0, 0.0, 0.0)).unwrap();
    }
    buf.triangle(0, 1, 2).unwrap();
    buf.split_triangle(0, 3).unwrap();
    assert_eq!(buf.triangles.len(), 3);
    assert_eq!(buf.triangles[0].0, [0, 1, 3]);
    assert_eq!(buf.triangles[1].0, [1, 2, 3]);
    assert_eq!(buf.triangles[2].0, [2, 3, 0]);
    assert!(matches!(
        buf.split_triangle(0, 1),
        Err(GltfError::DegenerateTriangle { .. })
    ));
    buf.remove_triangle(1);
    assert_eq!(buf.triangles.len(), 2);
    assert_eq!(buf.triangles[1].0, [2, 3, 0]);
}
