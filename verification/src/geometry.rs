//! Spheres as such: where a line through space meets one.

use vstd::prelude::*;
use crate::color::Color;
use crate::math::Vector3;
use crate::scalar::{Scalar, INFINITY_BITS};
use crate::sdf::Roots;

verus! {

/// A sphere of one color.
#[derive(Clone, Copy, Debug, PartialEq, Eq, Structural)]
pub struct Sphere {
    /// Center of the sphere
    pub center: Vector3,
    /// Radius of the sphere
    pub radius: Scalar,
    pub color: Color,
}

impl Sphere {
    /// The sphere of the center, radius and color given.
    pub fn new(center: Vector3, radius: Scalar, color: Color) -> (sphere: Sphere)
        ensures
            sphere == (Sphere { center, radius, color }),
    {
        Sphere { center, radius, color }
    }

    /// The two parameters at which a solved quadratic says the ray meets
    /// the sphere: its roots, or infinity twice where its discriminant is
    /// negative.
    pub open spec fn meeting_points(q: Roots) -> (Scalar, Scalar) {
        if q.delta.lt_spec(Scalar { bits: 0 }) {
            (Scalar { bits: INFINITY_BITS }, Scalar { bits: INFINITY_BITS })
        } else {
            (q.t1, q.t2)
        }
    }

    /// Whether `r` are parameters at which the ray from `o` along `d` meets
    /// the sphere, with the kernel given.
    pub open spec fn intersects<R: Fn(&Sphere, Vector3, Vector3) -> Roots>(
        &self,
        o: Vector3,
        d: Vector3,
        roots: &R,
        r: (Scalar, Scalar),
    ) -> bool {
        exists|q: Roots| #[trigger] roots.ensures((self, o, d), q) && r == Self::meeting_points(q)
    }

    /// The two parameters at which the ray from `o` along `d` meets the
    /// sphere; infinity twice where it misses. `roots` solves the quadratic.
    pub fn intersect_ray<R: Fn(&Sphere, Vector3, Vector3) -> Roots>(
        &self,
        o: Vector3,
        d: Vector3,
        roots: &R,
    ) -> (r: (Scalar, Scalar))
        requires
            roots.requires((self, o, d)),
        ensures
            self.intersects(o, d, roots, r),
    {
        let q = roots(self, o, d);
        if q.delta.lt(Scalar::zero()) {
            return (Scalar::from_bits(INFINITY_BITS), Scalar::from_bits(INFINITY_BITS));
        }
        (q.t1, q.t2)
    }

    /// The smaller of the two parameters at which the ray from `o` along
    /// `d` meets the sphere; infinity where it misses.
    pub fn distance_to<R: Fn(&Sphere, Vector3, Vector3) -> Roots>(
        &self,
        o: Vector3,
        d: Vector3,
        roots: &R,
    ) -> (r: Scalar)
        requires
            roots.requires((self, o, d)),
        ensures
            exists|pair: (Scalar, Scalar)| #[trigger]
                self.intersects(o, d, roots, pair) && r == pair.0.min_spec(pair.1),
    {
        // Search the two intersect points
        let (t1, t2) = self.intersect_ray(o, d, roots);

        // Return the nearest
        t1.min(t2)
    }
}

/// A ray that misses a sphere meets it at infinity: farther away than any
/// number, so that whatever else the ray hits is nearer.
pub proof fn lemma_miss_is_farthest(q: Roots, other: Scalar)
    requires
        q.delta.lt_spec(Scalar { bits: 0 }),
    ensures
        Sphere::meeting_points(q).0.min_spec(Sphere::meeting_points(q).1) == (Scalar {
            bits: INFINITY_BITS,
        }),
        !(Scalar { bits: INFINITY_BITS }).lt_spec(other),
{
    let infinity = Scalar { bits: INFINITY_BITS };
    if !other.is_nan_spec() {
        crate::scalar::lemma_rank_orders_as_value(infinity, other);
    }
}

} // verus!
