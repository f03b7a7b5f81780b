//! Seeded deformation: reproducibility and agreement with the underlying
//! pseudo-random stream.
use gltfgen::{GeometryBuffer, Vector3};
use rand::{Rng, SeedableRng};

fn v(x: f32, y: f32, z: f32) -> Vector3 {
    Vector3::new(x.to_bits(), y.to_bits(), z.to_bits())
}

fn filled_buffer() -> GeometryBuffer {
    let mut buf = GeometryBuffer::new();
    buf.vertex(v(0.25, -1.5, 3.0)).unwrap();
    buf.vertex(v(-2.0, 0.0, 0.125)).unwrap();
    buf.vertex(v(7.5, 2.5, -0.75)).unwrap();
    buf
}

#[test]
fn deform_is_deterministic() {
    // identical inputs and seed give bit-identical vertex positions
    for seed in [0u64, 1, 42, 0xDEAD_BEEF, u64::MAX] {
        let mut b1 = filled_buffer();
        let mut b2 = filled_buffer();
        b1.deform(v(-1.0, -1.0, -1.0), v(1.0, 1.0, 1.0), v(1.0, 1.0, 1.0), seed);
        b2.deform(v(-1.0, -1.0, -1.0), v(1.0, 1.0, 1.0), v(1.0, 1.0, 1.0), seed);
        assert_eq!(b1.vertices.len(), b2.vertices.len());
        for (p, q) in b1.vertices.iter().zip(b2.vertices.iter()) {
            assert_eq!((p.x, p.y, p.z), (q.x, q.y, q.z));
        }
    }
}

#[test]
fn different_seeds_differ() {
    let mut b1 = filled_buffer();
    let mut b2 = filled_buffer();
    b1.deform(v(-1.0, -1.0, -1.0), v(1.0, 1.0, 1.0), v(1.0, 1.0, 1.0), 1);
    b2.deform(v(-1.0, -1.0, -1.0), v(1.0, 1.0, 1.0), v(1.0, 1.0, 1.0), 2);
    assert!(b1.vertices.iter().zip(b2.vertices.iter()).any(|(p, q)| p.x != q.x));
}

#[test]
fn deform_matches_the_seeded_stream() {
    // the offsets come from Pcg64 seeded once, three unit samples per
    // vertex in x, y, z order, with the historical scale mix on the x range
    let seed = 7u64;
    let min = v(-0.5, -1.0, 2.0);
    let max = v(0.5, 3.0, 4.0);
    let scale = v(2.0, 0.25, 1.5);
    let mut buf = filled_buffer();
    let before: Vec<(f32, f32, f32)> = buf
        .vertices
        .iter()
        .map(|p| (f32::from_bits(p.x), f32::from_bits(p.y), f32::from_bits(p.z)))
        .collect();
    buf.deform(min, max, scale, seed);

    let (min_f, max_f, sc_f) = (
        (-0.5f32, -1.0f32, 2.0f32),
        (0.5f32, 3.0f32, 4.0f32),
        (2.0f32, 0.25f32, 1.5f32),
    );
    let mut rng = rand_pcg::Pcg64::seed_from_u64(seed);
    for (i, p) in buf.vertices.iter().enumerate() {
        let min_x = min_f.0 * sc_f.0;
        let x_range = (max_f.0 * sc_f.1) - min_x;
        let x_offset = min_x + rng.gen::<f32>() * x_range;

        let min_y = min_f.1 * sc_f.1;
        let y_range = (max_f.1 * sc_f.1) - min_y;
        let y_offset = min_y + rng.gen::<f32>() * y_range;

        let min_z = min_f.2 * sc_f.2;
        let z_range = (max_f.2 * sc_f.2) - min_z;
        let z_offset = min_z + rng.gen::<f32>() * z_range;

        assert_eq!(f32::from_bits(p.x).to_bits(), (before[i].0 + x_offset).to_bits());
        assert_eq!(f32::from_bits(p.y).to_bits(), (before[i].1 + y_offset).to_bits());
        assert_eq!(f32::from_bits(p.z).to_bits(), (before[i].2 + z_offset).to_bits());
    }
}
