//! Vectors of three scalars.

use vstd::prelude::*;
use crate::scalar::Scalar;

verus! {

/// A point or a direction in space.
#[derive(Clone, Copy, Debug, PartialEq, Eq, Structural)]
pub struct Vector3 {
    pub x: Scalar,
    pub y: Scalar,
    pub z: Scalar,
}

impl Vector3 {
    /// The vector of the three coordinates given.
    pub fn new(x: Scalar, y: Scalar, z: Scalar) -> (v: Vector3)
        ensures
            v == (Vector3 { x, y, z }),
    {
        Vector3 { x, y, z }
    }
}

impl Vector3 {
    /// The vector turned around: each coordinate with the opposite sign.
    pub open spec fn negate_spec(self) -> Vector3 {
        Vector3 { x: self.x.negate_spec(), y: self.y.negate_spec(), z: self.z.negate_spec() }
    }

    /// The vector turned around.
    #[verifier::when_used_as_spec(negate_spec)]
    pub fn negate(self) -> (v: Vector3)
        ensures
            v == self.negate_spec(),
    {
        Vector3 { x: self.x.negate(), y: self.y.negate(), z: self.z.negate() }
    }
}

impl Default for Vector3 {
    /// The origin.
    fn default() -> (v: Vector3)
        ensures
            v.x.bits == 0,
            v.y.bits == 0,
            v.z.bits == 0,
    {
        Vector3::new(Scalar::zero(), Scalar::zero(), Scalar::zero())
    }
}

} // verus!
