//! Point lights with optional distance attenuation.

use vstd::prelude::*;
use crate::vec3::Vec3;

verus! {

/// A point light. A missing attenuation means no falloff
/// (constant 1, linear 0, quadratic 0).
#[derive(Clone, Copy, Debug)]
pub struct Light {
    pub position: Vec3,
    pub color: Vec3,
    pub intensity: i128,
    pub attenuation: Option<(i128, i128, i128)>,
}

/// The attenuation triple the shading formula uses: the stored one, or the
/// no-falloff default.
pub open spec fn attenuation_of(l: Light) -> (int, int, int) {
    match l.attenuation {
        Some((c, li, q)) => (c as int, li as int, q as int),
        None => (crate::fixed::SCALE as int, 0, 0),
    }
}

} // verus!
