//! The deform decorator: seeded pseudo-random per-vertex displacement of a
//! nested geometry.
use vstd::prelude::*;

use crate::geometry::Geometry;
use crate::model::Vector3;

verus! {

/// A nested geometry whose vertices are displaced by uniform samples drawn
/// from a generator seeded with `seed`, within `min..max` per axis.
pub struct Deform {
    pub seed: u64,
    pub min: Vector3,
    pub max: Vector3,
    pub geometry: Geometry,
}

} // verus!
