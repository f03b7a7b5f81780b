//! The seeded uniform sampler behind `deform`.
//!
//! The pseudo-random stream is a pure function of the seed, which is what
//! makes deformation reproducible. Each sample is named by its position in
//! the stream, so contracts above can state exactly which sample lands on
//! which vertex axis.
use vstd::prelude::*;

verus! {

/// The bit pattern of the `k`-th unit-interval sample of the stream seeded
/// with `seed`.
pub uninterp spec fn sample_bits(seed: u64, k: u64) -> u32;

/// Relies on `rand_pcg::Pcg64`: `seed_from_u64` derives the generator state
/// from the seed alone, `advance(k)` is documented as equivalent to `k`
/// output steps, and drawing an `f32` through `rand::Rng::gen` consumes one
/// step; the sample therefore depends on `seed` and `k` alone. The `glam`
/// vector and `bytemuck::cast` only reinterpret the sample's bits.
#[verifier::external_body]
pub fn unit_sample(seed: u64, k: u64) -> (r: u32)
    ensures
        r == sample_bits(seed, k),
{
    let mut rng = <rand_pcg::Pcg64 as rand::SeedableRng>::seed_from_u64(seed);
    rng.advance(k as u128);
    let v = glam::Vec3::splat(rand::Rng::gen(&mut rng));
    let b: [u32; 3] = bytemuck::cast(v);
    b[0]
}

} // verus!
