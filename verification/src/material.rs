//! The closed set of shading behaviours a hit can carry.

use vstd::prelude::*;
use crate::vec3::Vec3;

verus! {

/// How a surface turns a hit into a color.
///
/// `BlinnPhong`'s `intensity` is the specular exponent, a whole number.
#[derive(Clone, Copy, Debug, PartialEq, Eq, Structural)]
pub enum Material {
    DebugPosition,
    DebugNormals,
    DebugShadows,
    Emissive { color: Vec3 },
    Mirror,
    BlinnPhong { ambient: Vec3, diffuse: Vec3, specular: Vec3, intensity: u32 },
}

} // verus!
