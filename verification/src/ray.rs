//! Rays and what they hit.

use vstd::prelude::*;
use crate::material::Material;
use crate::math::Vector3;
use crate::scalar::Scalar;

verus! {

/// A half-line: the points `origin + t * direction` for `t >= 0`.
/// The direction need not have length one.
#[derive(Clone, Copy, Debug, PartialEq, Eq, Structural)]
pub struct Ray {
    pub origin: Vector3,
    pub direction: Vector3,
}

/// Where a ray meets a surface: the point, the normal of the surface at it,
/// the parameter `t` of the point along the ray, and the material there.
#[derive(Clone, Copy, Debug, PartialEq, Eq, Structural)]
pub struct Hit {
    pub position: Vector3,
    pub normal: Vector3,
    pub distance: Scalar,
    pub material: Material,
}

} // verus!
