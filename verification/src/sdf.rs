//! The scene graph: spheres, and unions of nodes.
//!
//! A node answers one question: where does a ray hit it first, if at all.
//! A sphere answers from the two roots of its quadratic, which the caller's
//! `roots` kernel solves, and from the point and normal that the caller's
//! `surface` kernel computes for the root chosen. A union asks each child in
//! turn and keeps the nearest answer.

use vstd::prelude::*;
use crate::material::Material;
use crate::math::Vector3;
use crate::ray::{Hit, Ray};
use crate::scalar::Scalar;

verus! {

/// The quadratic of a ray and a sphere, solved: its discriminant and its
/// two roots, which are parameters along the ray.
///
/// A `roots` kernel is meant to solve `|o + t d - c|^2 = r^2` for `t`, for
/// the ray from `o` along `d` and the sphere of center `c` and radius `r`:
/// with `a = d.d`, `b = 2 (o - c).d` and `k = |o - c|^2 - r^2`, `delta` is
/// `b^2 - 4 a k`, `t1` is `(-b + sqrt(delta)) / 2a` and `t2` is
/// `(-b - sqrt(delta)) / 2a`. A direction of length zero has no roots, and
/// must not be asked for.
///
/// A `surface` kernel is meant to give, for a root `t`, the point
/// `o + t d` and the normal there: the vector from the center to the
/// point, made of length one.
#[derive(Clone, Copy, Debug, PartialEq, Eq, Structural)]
pub struct Roots {
    pub delta: Scalar,
    pub t1: Scalar,
    pub t2: Scalar,
}

/// A sphere: a leaf of the scene graph.
#[derive(Clone, Copy, Debug, PartialEq, Eq, Structural)]
pub struct SphereNode {
    pub position: Vector3,
    pub radius: Scalar,
    pub material: Material,
}

/// The union of its children: a ray hits it where it first hits one of them.
#[derive(Debug)]
pub struct UnionNode {
    pub nodes: Vec<Node>,
}

/// An element of the scene graph.
#[derive(Debug)]
pub enum Node {
    Sphere(SphereNode),
    Union(UnionNode),
}

/// The nearer of two answers. Of two hits the first wins only where its
/// distance is less than the second's; no hit gives way to a hit.
pub open spec fn nearer_spec(a: Option<Hit>, b: Option<Hit>) -> Option<Hit> {
    match (a, b) {
        (Some(x), Some(y)) => if x.distance.lt_spec(y.distance) {
            a
        } else {
            b
        },
        (Some(_), None) => a,
        (None, _) => b,
    }
}

/// The nearest of a sequence of answers, taken from the left.
pub open spec fn nearest_of(outs: Seq<Option<Hit>>) -> Option<Hit>
    decreases outs.len(),
{
    if outs.len() == 0 {
        None
    } else {
        nearer_spec(nearest_of(outs.drop_last()), outs.last())
    }
}

/// The nearer of two answers.
#[verifier::when_used_as_spec(nearer_spec)]
pub fn nearer(a: Option<Hit>, b: Option<Hit>) -> (r: Option<Hit>)
    ensures
        r == nearer_spec(a, b),
{
    match (a, b) {
        (Some(x), Some(y)) => if x.distance.lt(y.distance) {
            a
        } else {
            b
        },
        (Some(_), None) => a,
        (None, _) => b,
    }
}

impl Roots {
    /// The parameter at which the ray enters the sphere, if it does so in
    /// front of its origin.
    ///
    /// There is none where the discriminant is negative: the ray misses.
    /// Else it is the smaller root, unless that one is negative: the larger
    /// root is not tried, so a ray that starts inside the sphere hits nothing.
    pub open spec fn entry_distance_spec(self) -> Option<Scalar> {
        let zero = Scalar { bits: 0 };
        let nearest = self.t1.min_spec(self.t2);
        if self.delta.lt_spec(zero) || nearest.lt_spec(zero) {
            None
        } else {
            Some(nearest)
        }
    }

    /// The parameter at which the ray enters the sphere, if it does so in
    /// front of its origin.
    pub fn entry_distance(self) -> (r: Option<Scalar>)
        ensures
            r == self.entry_distance_spec(),
    {
        if self.delta.lt(Scalar::zero()) {
            return None;
        }
        let nearest = self.t1.min(self.t2);
        if nearest.lt(Scalar::zero()) {
            return None;
        }
        Some(nearest)
    }
}

impl SphereNode {
    /// Whether `r` is an answer of this sphere to `ray`, with the kernels
    /// given: either the roots admit no entry and `r` is no hit, or `r` is
    /// the hit at the entry distance, with the point and normal that
    /// `surface` gives there and the sphere's material.
    pub open spec fn hits<R, S>(&self, ray: &Ray, roots: &R, surface: &S, r: Option<Hit>) -> bool where
        R: Fn(&SphereNode, &Ray) -> Roots,
        S: Fn(&SphereNode, &Ray, Scalar) -> (Vector3, Vector3),
     {
        exists|q: Roots| #[trigger]
            roots.ensures((self, ray), q) && match q.entry_distance_spec() {
                None => r is None,
                Some(d) => {
                    &&& r matches Some(h)
                    &&& h.distance == d
                    &&& h.material == self.material
                    &&& surface.ensures((self, ray, d), (h.position, h.normal))
                },
            }
    }

    /// Where `ray` first hits the sphere, if it does.
    pub fn hit<R, S>(&self, ray: &Ray, roots: &R, surface: &S) -> (r: Option<Hit>) where
        R: Fn(&SphereNode, &Ray) -> Roots,
        S: Fn(&SphereNode, &Ray, Scalar) -> (Vector3, Vector3),

        requires
            roots.requires((self, ray)),
            forall|d: Scalar| surface.requires((self, ray, d)),
        ensures
            self.hits(ray, roots, surface, r),
    {
        let q = roots(self, ray);
        match q.entry_distance() {
            None => None,
            Some(distance) => {
                let (position, normal) = surface(self, ray, distance);
                Some(Hit { position, normal, distance, material: self.material })
            },
        }
    }
}

impl UnionNode {
    /// Whether `r` is an answer of this union to `ray`: the nearest of some
    /// answers of its children, one of each, in their order.
    pub open spec fn hits<R, S>(&self, ray: &Ray, roots: &R, surface: &S, r: Option<Hit>) -> bool where
        R: Fn(&SphereNode, &Ray) -> Roots,
        S: Fn(&SphereNode, &Ray, Scalar) -> (Vector3, Vector3),

        decreases self, 0nat,
    {
        exists|outs: Seq<Option<Hit>>|
            {
                &&& outs.len() == self.nodes@.len()
                &&& forall|i: int|
                    0 <= i < outs.len() ==> (#[trigger] self.nodes@[i]).hits(
                        ray,
                        roots,
                        surface,
                        outs[i],
                    )
                &&& r == nearest_of(outs)
            }
    }

    /// Where `ray` first hits one of the children, if it hits any.
    pub fn hit<R, S>(&self, ray: &Ray, roots: &R, surface: &S) -> (r: Option<Hit>) where
        R: Fn(&SphereNode, &Ray) -> Roots,
        S: Fn(&SphereNode, &Ray, Scalar) -> (Vector3, Vector3),

        requires
            forall|s: &SphereNode| roots.requires((s, ray)),
            forall|s: &SphereNode, d: Scalar| surface.requires((s, ray, d)),
        ensures
            self.hits(ray, roots, surface, r),
            self.nodes@.len() == 0 ==> r is None,
        decreases self, 0nat,
    {
        let mut best: Option<Hit> = None;
        let ghost mut outs: Seq<Option<Hit>> = Seq::empty();
        let mut i: usize = 0;
        while i < self.nodes.len()
            invariant
                i <= self.nodes.len(),
                forall|s: &SphereNode| roots.requires((s, ray)),
                forall|s: &SphereNode, d: Scalar| surface.requires((s, ray, d)),
                outs.len() == i,
                forall|j: int|
                    0 <= j < i ==> (#[trigger] self.nodes@[j]).hits(ray, roots, surface, outs[j]),
                best == nearest_of(outs),
            decreases self.nodes.len() - i,
        {
            let found = self.nodes[i].hit(ray, roots, surface);
            proof {
                assert(outs.push(found).drop_last() == outs);
                outs = outs.push(found);
            }
            best = nearer(best, found);
            i += 1;
        }
        best
    }
}

impl Node {
    /// Whether `r` is an answer of this node to `ray`, with the kernels given.
    pub open spec fn hits<R, S>(&self, ray: &Ray, roots: &R, surface: &S, r: Option<Hit>) -> bool where
        R: Fn(&SphereNode, &Ray) -> Roots,
        S: Fn(&SphereNode, &Ray, Scalar) -> (Vector3, Vector3),

        decreases self, 1nat,
    {
        match self {
            Node::Sphere(sphere) => sphere.hits(ray, roots, surface, r),
            Node::Union(union) => union.hits(ray, roots, surface, r),
        }
    }

    /// Where `ray` first hits the node, if it does.
    pub fn hit<R, S>(&self, ray: &Ray, roots: &R, surface: &S) -> (r: Option<Hit>) where
        R: Fn(&SphereNode, &Ray) -> Roots,
        S: Fn(&SphereNode, &Ray, Scalar) -> (Vector3, Vector3),

        requires
            forall|s: &SphereNode| roots.requires((s, ray)),
            forall|s: &SphereNode, d: Scalar| surface.requires((s, ray, d)),
        ensures
            self.hits(ray, roots, surface, r),
        decreases self, 1nat,
    {
        match self {
            Node::Sphere(sphere) => sphere.hit(ray, roots, surface),
            Node::Union(union) => union.hit(ray, roots, surface),
        }
    }
}

/// The nearest of a sequence of answers is no hit exactly where none of
/// them is a hit: of no answers at all, no hit.
pub proof fn lemma_nearest_of_none(outs: Seq<Option<Hit>>)
    ensures
        nearest_of(outs) is None <==> forall|i: int| 0 <= i < outs.len() ==> outs[i] is None,
    decreases outs.len(),
{
    if outs.len() > 0 {
        let front = outs.drop_last();
        lemma_nearest_of_none(front);
        if nearest_of(outs) is None {
            assert forall|i: int| 0 <= i < outs.len() implies outs[i] is None by {
                if i < front.len() {
                    assert(front[i] is None);
                }
            }
        } else if outs.last() is None {
            let i = choose|i: int| 0 <= i < front.len() && front[i] is Some;
            assert(outs[i] is Some);
        }
    }
}

/// The nearest of a sequence of answers, where it is a hit, is one of them.
pub proof fn lemma_nearest_of_is_member(outs: Seq<Option<Hit>>)
    requires
        nearest_of(outs) is Some,
    ensures
        exists|i: int| 0 <= i < outs.len() && outs[i] == nearest_of(outs),
    decreases outs.len(),
{
    let front = outs.drop_last();
    if nearest_of(outs) == outs.last() {
        assert(outs[outs.len() - 1] == nearest_of(outs));
    } else {
        lemma_nearest_of_is_member(front);
        let i = choose|i: int| 0 <= i < front.len() && front[i] == nearest_of(front);
        assert(outs[i] == nearest_of(outs));
    }
}

/// No answer is nearer than the nearest: where no distance among the hits
/// is a NaN, none of them is less than the distance of the hit chosen.
pub proof fn lemma_nearest_of_is_nearest(outs: Seq<Option<Hit>>, i: int)
    requires
        forall|k: int|
            0 <= k < outs.len() && outs[k] is Some ==> !(#[trigger] outs[k])->0.distance.is_nan_spec(),
        0 <= i < outs.len(),
        outs[i] is Some,
    ensures
        nearest_of(outs) is Some,
        !outs[i]->0.distance.lt_spec(nearest_of(outs)->0.distance),
    decreases outs.len(),
{
    let front = outs.drop_last();
    lemma_nearest_of_none(outs);
    if nearest_of(front) is Some {
        lemma_nearest_of_is_member(front);
        let m = choose|m: int| 0 <= m < front.len() && front[m] == nearest_of(front);
        assert(outs[m] == front[m]);
    }
    if i < front.len() {
        assert(front[i] == outs[i]);
        assert forall|k: int| 0 <= k < front.len() && front[k] is Some implies !(
        #[trigger] front[k])->0.distance.is_nan_spec() by {
            assert(front[k] == outs[k]);
        }
        lemma_nearest_of_is_nearest(front, i);
    }
}

/// A union without children is hit by no ray.
pub proof fn lemma_empty_union_hits_nothing<R, S>(
    union: &UnionNode,
    ray: &Ray,
    roots: &R,
    surface: &S,
    r: Option<Hit>,
) where
    R: Fn(&SphereNode, &Ray) -> Roots,
    S: Fn(&SphereNode, &Ray, Scalar) -> (Vector3, Vector3),

    requires
        union.nodes@.len() == 0,
        union.hits(ray, roots, surface, r),
    ensures
        r is None,
{
}

/// A union that is hit is hit where one of its children is.
pub proof fn lemma_union_hit_is_a_child_hit<R, S>(
    union: &UnionNode,
    ray: &Ray,
    roots: &R,
    surface: &S,
    r: Option<Hit>,
) where
    R: Fn(&SphereNode, &Ray) -> Roots,
    S: Fn(&SphereNode, &Ray, Scalar) -> (Vector3, Vector3),

    requires
        union.hits(ray, roots, surface, r),
        r is Some,
    ensures
        exists|i: int|
            0 <= i < union.nodes@.len() && (#[trigger] union.nodes@[i]).hits(ray, roots, surface, r),
{
    let outs = choose|outs: Seq<Option<Hit>>|
        {
            &&& outs.len() == union.nodes@.len()
            &&& forall|i: int|
                0 <= i < outs.len() ==> (#[trigger] union.nodes@[i]).hits(
                    ray,
                    roots,
                    surface,
                    outs[i],
                )
            &&& r == nearest_of(outs)
        };
    lemma_nearest_of_is_member(outs);
    let i = choose|i: int| 0 <= i < outs.len() && outs[i] == nearest_of(outs);
    assert(union.nodes@[i].hits(ray, roots, surface, outs[i]));
}

/// A ray whose quadratic has a negative discriminant misses the sphere.
pub proof fn lemma_negative_discriminant_misses<R, S>(
    sphere: &SphereNode,
    ray: &Ray,
    roots: &R,
    surface: &S,
    r: Option<Hit>,
) where
    R: Fn(&SphereNode, &Ray) -> Roots,
    S: Fn(&SphereNode, &Ray, Scalar) -> (Vector3, Vector3),

    requires
        sphere.hits(ray, roots, surface, r),
        forall|q: Roots| #[trigger]
            roots.ensures((sphere, ray), q) ==> q.delta.lt_spec(Scalar { bits: 0 }),
    ensures
        r is None,
{
}

/// A sphere is hit at the smaller root of its quadratic, and the hit
/// carries the sphere's material.
pub proof fn lemma_sphere_hit_is_at_smaller_root<R, S>(
    sphere: &SphereNode,
    ray: &Ray,
    roots: &R,
    surface: &S,
    hit: Hit,
) where
    R: Fn(&SphereNode, &Ray) -> Roots,
    S: Fn(&SphereNode, &Ray, Scalar) -> (Vector3, Vector3),

    requires
        sphere.hits(ray, roots, surface, Some(hit)),
    ensures
        hit.material == sphere.material,
        !hit.distance.lt_spec(Scalar { bits: 0 }),
        exists|q: Roots| #[trigger]
            roots.ensures((sphere, ray), q) && hit.distance == q.t1.min_spec(q.t2),
{
    let q = choose|q: Roots| #[trigger]
        roots.ensures((sphere, ray), q) && match q.entry_distance_spec() {
            None => false,
            Some(d) => hit.distance == d && hit.material == sphere.material,
        };
    assert(roots.ensures((sphere, ray), q) && hit.distance == q.t1.min_spec(q.t2));
}

/// A ray that starts inside a sphere does not hit it: where the smaller
/// root is negative, the larger one is not tried.
pub proof fn lemma_negative_root_is_not_replaced(q: Roots)
    requires
        q.t1.min_spec(q.t2).lt_spec(Scalar { bits: 0 }),
    ensures
        q.entry_distance_spec() is None,
{
}

/// Whether `roots` gives one answer only to each question.
pub open spec fn roots_is_function<R: Fn(&SphereNode, &Ray) -> Roots>(roots: &R) -> bool {
    forall|sphere: &SphereNode, ray: &Ray, a: Roots, b: Roots|
        #![trigger roots.ensures((sphere, ray), a), roots.ensures((sphere, ray), b)]
        roots.ensures((sphere, ray), a) && roots.ensures((sphere, ray), b) ==> a == b
}

/// Whether `surface` gives one answer only to each question.
pub open spec fn surface_is_function<S: Fn(&SphereNode, &Ray, Scalar) -> (Vector3, Vector3)>(
    surface: &S,
) -> bool {
    forall|sphere: &SphereNode, ray: &Ray, d: Scalar, a: (Vector3, Vector3), b: (Vector3, Vector3)|
        #![trigger surface.ensures((sphere, ray, d), a), surface.ensures((sphere, ray, d), b)]
        surface.ensures((sphere, ray, d), a) && surface.ensures((sphere, ray, d), b) ==> a == b
}

/// With kernels that are functions, a node has one answer only to a ray.
pub proof fn lemma_hit_is_function<R, S>(
    node: &Node,
    ray: &Ray,
    roots: &R,
    surface: &S,
    a: Option<Hit>,
    b: Option<Hit>,
) where
    R: Fn(&SphereNode, &Ray) -> Roots,
    S: Fn(&SphereNode, &Ray, Scalar) -> (Vector3, Vector3),

    requires
        roots_is_function(roots),
        surface_is_function(surface),
        node.hits(ray, roots, surface, a),
        node.hits(ray, roots, surface, b),
    ensures
        a == b,
    decreases node,
{
    match node {
        Node::Sphere(sphere) => {
            let qa = choose|q: Roots| #[trigger]
                roots.ensures((sphere, ray), q) && match q.entry_distance_spec() {
                    None => a is None,
                    Some(d) => {
                        &&& a matches Some(h)
                        &&& h.distance == d
                        &&& h.material == sphere.material
                        &&& surface.ensures((sphere, ray, d), (h.position, h.normal))
                    },
                };
            let qb = choose|q: Roots| #[trigger]
                roots.ensures((sphere, ray), q) && match q.entry_distance_spec() {
                    None => b is None,
                    Some(d) => {
                        &&& b matches Some(h)
                        &&& h.distance == d
                        &&& h.material == sphere.material
                        &&& surface.ensures((sphere, ray, d), (h.position, h.normal))
                    },
                };
            assert(qa == qb);
            if let Some(d) = qa.entry_distance_spec() {
                let ha = a->0;
                let hb = b->0;
                assert(surface.ensures((sphere, ray, d), (ha.position, ha.normal)));
                assert(surface.ensures((sphere, ray, d), (hb.position, hb.normal)));
                assert((ha.position, ha.normal) == (hb.position, hb.normal));
            }
        },
        Node::Union(union) => {
            let outs_a = choose|outs: Seq<Option<Hit>>|
                {
                    &&& outs.len() == union.nodes@.len()
                    &&& forall|i: int|
                        0 <= i < outs.len() ==> (#[trigger] union.nodes@[i]).hits(
                            ray,
                            roots,
                            surface,
                            outs[i],
                        )
                    &&& a == nearest_of(outs)
                };
            let outs_b = choose|outs: Seq<Option<Hit>>|
                {
                    &&& outs.len() == union.nodes@.len()
                    &&& forall|i: int|
                        0 <= i < outs.len() ==> (#[trigger] union.nodes@[i]).hits(
                            ray,
                            roots,
                            surface,
                            outs[i],
                        )
                    &&& b == nearest_of(outs)
                };
            assert forall|i: int| 0 <= i < outs_a.len() implies outs_a[i] == outs_b[i] by {
                assert(union.nodes@[i].hits(ray, roots, surface, outs_a[i]));
                assert(union.nodes@[i].hits(ray, roots, surface, outs_b[i]));
                lemma_hit_is_function(&union.nodes@[i], ray, roots, surface, outs_a[i], outs_b[i]);
            }
            assert(outs_a =~= outs_b);
        },
    }
}

} // verus!
