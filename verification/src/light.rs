//! Lights, and how much of each reaches a hit.
//!
//! An ambient light gives its intensity to every hit. A point light and a
//! directional light give a diffuse term where they strike the front of the
//! surface, and a highlight where the material has one and the reflected
//! light runs toward the eye. The terms themselves are arithmetic, supplied
//! by the caller's kernels; which of them count, and in what order they are
//! added up, is decided here.

use vstd::prelude::*;
use crate::math::Vector3;
use crate::ray::Hit;
use crate::scalar::Scalar;

verus! {

/// A light that reaches every surface alike.
#[derive(Clone, Copy, Debug, PartialEq, Eq, Structural)]
pub struct AmbiantLight {
    pub intensity: Scalar,
}

/// A point source: its light comes from `position`.
#[derive(Clone, Copy, Debug, PartialEq, Eq, Structural)]
pub struct OmniDirectionalLight {
    pub position: Vector3,
    pub intensity: Scalar,
}

/// A source at infinity: `direction` is the vector toward it, the same for
/// every hit.
#[derive(Clone, Copy, Debug, PartialEq, Eq, Structural)]
pub struct DirectionalLight {
    pub direction: Vector3,
    pub intensity: Scalar,
}

/// A light of the scene.
#[derive(Clone, Copy, Debug, PartialEq, Eq, Structural)]
pub enum Light {
    Ambiant(AmbiantLight),
    OmniDirectional(OmniDirectionalLight),
    Directional(DirectionalLight),
}

/// The two terms of a directed light at a hit, each with the dot product
/// that decides whether it counts.
///
/// A `terms` kernel is meant to compute them for a light of intensity `i`:
/// with `n` the normal, `l` the vector toward the light, `v` the vector
/// toward the eye, `s` the exponent of the material and `r = 2 (n.l) n - l`
/// the reflection of `l` about `n`, `n_dot_l` is `n.l`, `diffuse` is
/// `i (n.l) / (|n| |l|)`, `r_dot_v` is `r.v` and `specular` is
/// `i (r.v / (|r| |v|))^s`.
#[derive(Clone, Copy, Debug, PartialEq, Eq, Structural)]
pub struct Terms {
    pub n_dot_l: Scalar,
    pub diffuse: Scalar,
    pub r_dot_v: Scalar,
    pub specular: Scalar,
}

impl Terms {
    /// Whether the light strikes the front of the surface.
    pub open spec fn lit(self) -> bool {
        (Scalar { bits: 0 }).lt_spec(self.n_dot_l)
    }

    /// Whether the highlight counts at `hit`: the material has one, and the
    /// reflected light runs toward the eye.
    pub open spec fn shiny(self, hit: &Hit) -> bool {
        hit.material.has_specular_spec() && (Scalar { bits: 0 }).lt_spec(self.r_dot_v)
    }

    /// Whether `i` is the sum after the diffuse term: zero plus the term
    /// where the light strikes the front, zero itself where it does not.
    pub open spec fn diffuse_sum<A: Fn(Scalar, Scalar) -> Scalar>(self, plus: &A, i: Scalar) -> bool {
        let zero = Scalar { bits: 0 };
        if self.lit() {
            plus.ensures((zero, self.diffuse), i)
        } else {
            i == zero
        }
    }

    /// Whether `r` is what the terms add up to at `hit`: zero, then the
    /// diffuse term if it counts, then the highlight if it counts.
    pub open spec fn adds_up_to<A: Fn(Scalar, Scalar) -> Scalar>(
        self,
        hit: &Hit,
        plus: &A,
        r: Scalar,
    ) -> bool {
        exists|i: Scalar| #[trigger]
            self.diffuse_sum(plus, i) && if self.shiny(hit) {
                plus.ensures((i, self.specular), r)
            } else {
                r == i
            }
    }
}

/// Whether `r` is the intensity that a light of `intensity` from `direction`
/// gives to `hit`, seen from `inverse_direction`, with the kernels given.
pub open spec fn directional_light_intensity<T, A>(
    intensity: Scalar,
    direction: Vector3,
    hit: &Hit,
    inverse_direction: Vector3,
    terms: &T,
    plus: &A,
    r: Scalar,
) -> bool where
    T: Fn(Scalar, Vector3, &Hit, Vector3) -> Terms,
    A: Fn(Scalar, Scalar) -> Scalar,
 {
    exists|t: Terms| #[trigger]
        terms.ensures((intensity, direction, hit, inverse_direction), t) && t.adds_up_to(
            hit,
            plus,
            r,
        )
}

/// The intensity that a light of `intensity` from `direction` gives to
/// `hit`, seen from `inverse_direction`.
///
/// `terms` computes the two terms; `plus` adds two intensities.
pub fn compute_directional_light_intensity<T, A>(
    intensity: Scalar,
    direction: Vector3,
    hit: &Hit,
    inverse_direction: Vector3,
    terms: &T,
    plus: &A,
) -> (r: Scalar) where
    T: Fn(Scalar, Vector3, &Hit, Vector3) -> Terms,
    A: Fn(Scalar, Scalar) -> Scalar,

    requires
        terms.requires((intensity, direction, hit, inverse_direction)),
        forall|a: Scalar, b: Scalar| plus.requires((a, b)),
    ensures
        directional_light_intensity(intensity, direction, hit, inverse_direction, terms, plus, r),
{
    let t = terms(intensity, direction, hit, inverse_direction);
    let mut i = Scalar::zero();
    if t.n_dot_l.gt(Scalar::zero()) {
        i = plus(i, t.diffuse);
    }
    let ghost diffuse_only = i;
    if hit.material.has_specular() {
        if t.r_dot_v.gt(Scalar::zero()) {
            i = plus(i, t.specular);
        }
    }
    proof {
        assert(t.diffuse_sum(plus, diffuse_only));
    }
    i
}

impl AmbiantLight {
    /// The light's intensity, wherever the hit is and whatever it looks like.
    pub fn compute_intensity(&self, hit: &Hit, inverse_direction: Vector3) -> (r: Scalar)
        ensures
            r == self.intensity,
    {
        self.intensity
    }
}

impl OmniDirectionalLight {
    /// Whether `r` is the intensity that the light gives to `hit`.
    pub open spec fn shines<O, T, A>(
        &self,
        hit: &Hit,
        inverse_direction: Vector3,
        toward: &O,
        terms: &T,
        plus: &A,
        r: Scalar,
    ) -> bool where
        O: Fn(&OmniDirectionalLight, &Hit) -> Vector3,
        T: Fn(Scalar, Vector3, &Hit, Vector3) -> Terms,
        A: Fn(Scalar, Scalar) -> Scalar,
     {
        exists|direction: Vector3| #[trigger]
            toward.ensures((self, hit), direction) && directional_light_intensity(
                self.intensity,
                direction,
                hit,
                inverse_direction,
                terms,
                plus,
                r,
            )
    }

    /// The intensity that the light gives to `hit`, seen from
    /// `inverse_direction`. `toward` computes the vector from the hit to the
    /// light, which is used as it is, not made of length one.
    pub fn compute_intensity<O, T, A>(
        &self,
        hit: &Hit,
        inverse_direction: Vector3,
        toward: &O,
        terms: &T,
        plus: &A,
    ) -> (r: Scalar) where
        O: Fn(&OmniDirectionalLight, &Hit) -> Vector3,
        T: Fn(Scalar, Vector3, &Hit, Vector3) -> Terms,
        A: Fn(Scalar, Scalar) -> Scalar,

        requires
            toward.requires((self, hit)),
            forall|l: Vector3| terms.requires((self.intensity, l, hit, inverse_direction)),
            forall|a: Scalar, b: Scalar| plus.requires((a, b)),
        ensures
            self.shines(hit, inverse_direction, toward, terms, plus, r),
    {
        let direction = toward(self, hit);
        compute_directional_light_intensity(
            self.intensity,
            direction,
            hit,
            inverse_direction,
            terms,
            plus,
        )
    }
}

impl DirectionalLight {
    /// The intensity that the light gives to `hit`, seen from
    /// `inverse_direction`.
    pub fn compute_intensity<T, A>(
        &self,
        hit: &Hit,
        inverse_direction: Vector3,
        terms: &T,
        plus: &A,
    ) -> (r: Scalar) where
        T: Fn(Scalar, Vector3, &Hit, Vector3) -> Terms,
        A: Fn(Scalar, Scalar) -> Scalar,

        requires
            terms.requires((self.intensity, self.direction, hit, inverse_direction)),
            forall|a: Scalar, b: Scalar| plus.requires((a, b)),
        ensures
            directional_light_intensity(
                self.intensity,
                self.direction,
                hit,
                inverse_direction,
                terms,
                plus,
                r,
            ),
    {
        compute_directional_light_intensity(
            self.intensity,
            self.direction,
            hit,
            inverse_direction,
            terms,
            plus,
        )
    }
}

impl Light {
    /// Whether `r` is the intensity that the light gives to `hit`, seen from
    /// `inverse_direction`, with the kernels given.
    pub open spec fn shines<O, T, A>(
        &self,
        hit: &Hit,
        inverse_direction: Vector3,
        toward: &O,
        terms: &T,
        plus: &A,
        r: Scalar,
    ) -> bool where
        O: Fn(&OmniDirectionalLight, &Hit) -> Vector3,
        T: Fn(Scalar, Vector3, &Hit, Vector3) -> Terms,
        A: Fn(Scalar, Scalar) -> Scalar,
     {
        match self {
            Light::Ambiant(light) => r == light.intensity,
            Light::OmniDirectional(light) => light.shines(
                hit,
                inverse_direction,
                toward,
                terms,
                plus,
                r,
            ),
            Light::Directional(light) => directional_light_intensity(
                light.intensity,
                light.direction,
                hit,
                inverse_direction,
                terms,
                plus,
                r,
            ),
        }
    }

    /// The intensity that the light gives to `hit`, seen from
    /// `inverse_direction`.
    pub fn compute_intensity<O, T, A>(
        &self,
        hit: &Hit,
        inverse_direction: Vector3,
        toward: &O,
        terms: &T,
        plus: &A,
    ) -> (r: Scalar) where
        O: Fn(&OmniDirectionalLight, &Hit) -> Vector3,
        T: Fn(Scalar, Vector3, &Hit, Vector3) -> Terms,
        A: Fn(Scalar, Scalar) -> Scalar,

        requires
            forall|o: &OmniDirectionalLight| toward.requires((o, hit)),
            forall|i: Scalar, l: Vector3| terms.requires((i, l, hit, inverse_direction)),
            forall|a: Scalar, b: Scalar| plus.requires((a, b)),
        ensures
            self.shines(hit, inverse_direction, toward, terms, plus, r),
    {
        match self {
            Light::Ambiant(light) => light.compute_intensity(hit, inverse_direction),
            Light::OmniDirectional(light) => light.compute_intensity(
                hit,
                inverse_direction,
                toward,
                terms,
                plus,
            ),
            Light::Directional(light) => light.compute_intensity(
                hit,
                inverse_direction,
                terms,
                plus,
            ),
        }
    }
}

/// Whether `sums` are the running sums of `parts`: zero first, and after
/// each part what `plus` makes of the sum before it and the part.
pub open spec fn running_sums<A: Fn(Scalar, Scalar) -> Scalar>(
    parts: Seq<Scalar>,
    plus: &A,
    sums: Seq<Scalar>,
) -> bool {
    &&& sums.len() == parts.len() + 1
    &&& sums[0] == (Scalar { bits: 0 })
    &&& forall|k: int|
        0 <= k < parts.len() ==> plus.ensures((#[trigger] sums[k], parts[k]), sums[k + 1])
}

/// Whether `r` is the sum of `parts`: zero, and each part added in turn.
pub open spec fn sums_to<A: Fn(Scalar, Scalar) -> Scalar>(
    parts: Seq<Scalar>,
    plus: &A,
    r: Scalar,
) -> bool {
    exists|sums: Seq<Scalar>| #[trigger] running_sums(parts, plus, sums) && r == sums.last()
}

/// Whether `r` is the intensity that `lights` together give to `hit`: the
/// sum of what each gives, in their order.
pub open spec fn light_intensity<O, T, A>(
    lights: Seq<Light>,
    hit: &Hit,
    inverse_direction: Vector3,
    toward: &O,
    terms: &T,
    plus: &A,
    r: Scalar,
) -> bool where
    O: Fn(&OmniDirectionalLight, &Hit) -> Vector3,
    T: Fn(Scalar, Vector3, &Hit, Vector3) -> Terms,
    A: Fn(Scalar, Scalar) -> Scalar,
 {
    exists|parts: Seq<Scalar>|
        {
            &&& parts.len() == lights.len()
            &&& forall|k: int|
                0 <= k < parts.len() ==> (#[trigger] lights[k]).shines(
                    hit,
                    inverse_direction,
                    toward,
                    terms,
                    plus,
                    parts[k],
                )
            &&& sums_to(parts, plus, r)
        }
}

/// An ambient light alone gives every hit its own intensity, whatever the
/// hit and the direction it is seen from, provided that adding that
/// intensity to zero gives it back.
pub proof fn lemma_ambient_alone_gives_its_intensity<O, T, A>(
    light: AmbiantLight,
    hit: &Hit,
    inverse_direction: Vector3,
    toward: &O,
    terms: &T,
    plus: &A,
    r: Scalar,
) where
    O: Fn(&OmniDirectionalLight, &Hit) -> Vector3,
    T: Fn(Scalar, Vector3, &Hit, Vector3) -> Terms,
    A: Fn(Scalar, Scalar) -> Scalar,

    requires
        forall|y: Scalar| #[trigger]
            plus.ensures((Scalar { bits: 0 }, light.intensity), y) ==> y == light.intensity,
        light_intensity(
            seq![Light::Ambiant(light)],
            hit,
            inverse_direction,
            toward,
            terms,
            plus,
            r,
        ),
    ensures
        r == light.intensity,
{
    let lights = seq![Light::Ambiant(light)];
    let parts = choose|parts: Seq<Scalar>|
        {
            &&& parts.len() == lights.len()
            &&& forall|k: int|
                0 <= k < parts.len() ==> (#[trigger] lights[k]).shines(
                    hit,
                    inverse_direction,
                    toward,
                    terms,
                    plus,
                    parts[k],
                )
            &&& sums_to(parts, plus, r)
        };
    assert(lights[0].shines(hit, inverse_direction, toward, terms, plus, parts[0]));
    let sums = choose|sums: Seq<Scalar>| #[trigger] running_sums(parts, plus, sums) && r == sums.last();
    assert(plus.ensures((sums[0], parts[0]), sums[1]));
}

/// No lights give no light: the intensity is zero.
pub proof fn lemma_no_light_gives_nothing<O, T, A>(
    hit: &Hit,
    inverse_direction: Vector3,
    toward: &O,
    terms: &T,
    plus: &A,
    r: Scalar,
) where
    O: Fn(&OmniDirectionalLight, &Hit) -> Vector3,
    T: Fn(Scalar, Vector3, &Hit, Vector3) -> Terms,
    A: Fn(Scalar, Scalar) -> Scalar,

    requires
        light_intensity(Seq::<Light>::empty(), hit, inverse_direction, toward, terms, plus, r),
    ensures
        r == (Scalar { bits: 0 }),
{
}

/// A directed light gives nothing, exactly zero, to a hit that it does not
/// strike from the front, where the highlight does not count either: the
/// material has none, or the reflected light runs away from the eye.
pub proof fn lemma_unlit_hit_gets_nothing<T, A>(
    intensity: Scalar,
    direction: Vector3,
    hit: &Hit,
    inverse_direction: Vector3,
    terms: &T,
    plus: &A,
    r: Scalar,
) where
    T: Fn(Scalar, Vector3, &Hit, Vector3) -> Terms,
    A: Fn(Scalar, Scalar) -> Scalar,

    requires
        directional_light_intensity(intensity, direction, hit, inverse_direction, terms, plus, r),
        forall|t: Terms| #[trigger]
            terms.ensures((intensity, direction, hit, inverse_direction), t) ==> !t.lit()
                && !t.shiny(hit),
    ensures
        r == (Scalar { bits: 0 }),
{
    let t = choose|t: Terms| #[trigger]
        terms.ensures((intensity, direction, hit, inverse_direction), t) && t.adds_up_to(
            hit,
            plus,
            r,
        );
    let i = choose|i: Scalar| #[trigger]
        t.diffuse_sum(plus, i) && if t.shiny(hit) {
            plus.ensures((i, t.specular), r)
        } else {
            r == i
        };
}

/// Whether `toward` gives one answer only to each question.
pub open spec fn toward_is_function<O: Fn(&OmniDirectionalLight, &Hit) -> Vector3>(
    toward: &O,
) -> bool {
    forall|light: &OmniDirectionalLight, hit: &Hit, a: Vector3, b: Vector3|
        #![trigger toward.ensures((light, hit), a), toward.ensures((light, hit), b)]
        toward.ensures((light, hit), a) && toward.ensures((light, hit), b) ==> a == b
}

/// Whether `terms` gives one answer only to each question.
pub open spec fn terms_is_function<T: Fn(Scalar, Vector3, &Hit, Vector3) -> Terms>(
    terms: &T,
) -> bool {
    forall|intensity: Scalar, l: Vector3, hit: &Hit, v: Vector3, a: Terms, b: Terms|
        #![trigger terms.ensures((intensity, l, hit, v), a), terms.ensures((intensity, l, hit, v), b)]
        terms.ensures((intensity, l, hit, v), a) && terms.ensures((intensity, l, hit, v), b) ==> a
            == b
}

/// Whether `plus` gives one answer only to each question.
pub open spec fn plus_is_function<A: Fn(Scalar, Scalar) -> Scalar>(plus: &A) -> bool {
    forall|x: Scalar, y: Scalar, a: Scalar, b: Scalar|
        #![trigger plus.ensures((x, y), a), plus.ensures((x, y), b)]
        plus.ensures((x, y), a) && plus.ensures((x, y), b) ==> a == b
}

/// With kernels that are functions, a light of a given intensity and
/// direction gives a hit one intensity only.
pub proof fn lemma_directional_light_intensity_is_function<T, A>(
    intensity: Scalar,
    direction: Vector3,
    hit: &Hit,
    inverse_direction: Vector3,
    terms: &T,
    plus: &A,
    a: Scalar,
    b: Scalar,
) where
    T: Fn(Scalar, Vector3, &Hit, Vector3) -> Terms,
    A: Fn(Scalar, Scalar) -> Scalar,

    requires
        terms_is_function(terms),
        plus_is_function(plus),
        directional_light_intensity(intensity, direction, hit, inverse_direction, terms, plus, a),
        directional_light_intensity(intensity, direction, hit, inverse_direction, terms, plus, b),
    ensures
        a == b,
{
    let ta = choose|t: Terms| #[trigger]
        terms.ensures((intensity, direction, hit, inverse_direction), t) && t.adds_up_to(
            hit,
            plus,
            a,
        );
    let tb = choose|t: Terms| #[trigger]
        terms.ensures((intensity, direction, hit, inverse_direction), t) && t.adds_up_to(
            hit,
            plus,
            b,
        );
    assert(ta == tb);
    let ia = choose|i: Scalar| #[trigger]
        ta.diffuse_sum(plus, i) && if ta.shiny(hit) {
            plus.ensures((i, ta.specular), a)
        } else {
            a == i
        };
    let ib = choose|i: Scalar| #[trigger]
        ta.diffuse_sum(plus, i) && if ta.shiny(hit) {
            plus.ensures((i, ta.specular), b)
        } else {
            b == i
        };
    assert(ia == ib);
}

/// With kernels that are functions, a light gives a hit one intensity only.
pub proof fn lemma_light_shines_one_way<O, T, A>(
    light: Light,
    hit: &Hit,
    inverse_direction: Vector3,
    toward: &O,
    terms: &T,
    plus: &A,
    a: Scalar,
    b: Scalar,
) where
    O: Fn(&OmniDirectionalLight, &Hit) -> Vector3,
    T: Fn(Scalar, Vector3, &Hit, Vector3) -> Terms,
    A: Fn(Scalar, Scalar) -> Scalar,

    requires
        toward_is_function(toward),
        terms_is_function(terms),
        plus_is_function(plus),
        light.shines(hit, inverse_direction, toward, terms, plus, a),
        light.shines(hit, inverse_direction, toward, terms, plus, b),
    ensures
        a == b,
{
    match light {
        Light::Ambiant(_) => {},
        Light::OmniDirectional(omni) => {
            let da = choose|direction: Vector3| #[trigger]
                toward.ensures((&omni, hit), direction) && directional_light_intensity(
                    omni.intensity,
                    direction,
                    hit,
                    inverse_direction,
                    terms,
                    plus,
                    a,
                );
            let db = choose|direction: Vector3| #[trigger]
                toward.ensures((&omni, hit), direction) && directional_light_intensity(
                    omni.intensity,
                    direction,
                    hit,
                    inverse_direction,
                    terms,
                    plus,
                    b,
                );
            assert(da == db);
            lemma_directional_light_intensity_is_function(
                omni.intensity,
                da,
                hit,
                inverse_direction,
                terms,
                plus,
                a,
                b,
            );
        },
        Light::Directional(sun) => {
            lemma_directional_light_intensity_is_function(
                sun.intensity,
                sun.direction,
                hit,
                inverse_direction,
                terms,
                plus,
                a,
                b,
            );
        },
    }
}

/// With a `plus` that is a function, the running sums of some parts are
/// what they are.
pub proof fn lemma_running_sums_are_function<A: Fn(Scalar, Scalar) -> Scalar>(
    parts: Seq<Scalar>,
    plus: &A,
    a: Seq<Scalar>,
    b: Seq<Scalar>,
    k: int,
)
    requires
        plus_is_function(plus),
        running_sums(parts, plus, a),
        running_sums(parts, plus, b),
        0 <= k <= parts.len(),
    ensures
        a[k] == b[k],
    decreases k,
{
    if k > 0 {
        lemma_running_sums_are_function(parts, plus, a, b, k - 1);
        assert(plus.ensures((a[k - 1], parts[k - 1]), a[k - 1 + 1]));
        assert(plus.ensures((b[k - 1], parts[k - 1]), b[k - 1 + 1]));
    }
}

/// With kernels that are functions, some lights together give a hit one
/// intensity only.
pub proof fn lemma_light_intensity_is_function<O, T, A>(
    lights: Seq<Light>,
    hit: &Hit,
    inverse_direction: Vector3,
    toward: &O,
    terms: &T,
    plus: &A,
    a: Scalar,
    b: Scalar,
) where
    O: Fn(&OmniDirectionalLight, &Hit) -> Vector3,
    T: Fn(Scalar, Vector3, &Hit, Vector3) -> Terms,
    A: Fn(Scalar, Scalar) -> Scalar,

    requires
        toward_is_function(toward),
        terms_is_function(terms),
        plus_is_function(plus),
        light_intensity(lights, hit, inverse_direction, toward, terms, plus, a),
        light_intensity(lights, hit, inverse_direction, toward, terms, plus, b),
    ensures
        a == b,
{
    let parts_a = choose|parts: Seq<Scalar>|
        {
            &&& parts.len() == lights.len()
            &&& forall|k: int|
                0 <= k < parts.len() ==> (#[trigger] lights[k]).shines(
                    hit,
                    inverse_direction,
                    toward,
                    terms,
                    plus,
                    parts[k],
                )
            &&& sums_to(parts, plus, a)
        };
    let parts_b = choose|parts: Seq<Scalar>|
        {
            &&& parts.len() == lights.len()
            &&& forall|k: int|
                0 <= k < parts.len() ==> (#[trigger] lights[k]).shines(
                    hit,
                    inverse_direction,
                    toward,
                    terms,
                    plus,
                    parts[k],
                )
            &&& sums_to(parts, plus, b)
        };
    assert forall|k: int| 0 <= k < parts_a.len() implies parts_a[k] == parts_b[k] by {
        assert(lights[k].shines(hit, inverse_direction, toward, terms, plus, parts_a[k]));
        assert(lights[k].shines(hit, inverse_direction, toward, terms, plus, parts_b[k]));
        lemma_light_shines_one_way(
            lights[k],
            hit,
            inverse_direction,
            toward,
            terms,
            plus,
            parts_a[k],
            parts_b[k],
        );
    }
    assert(parts_a =~= parts_b);
    let sums_a = choose|sums: Seq<Scalar>| #[trigger]
        running_sums(parts_a, plus, sums) && a == sums.last();
    let sums_b = choose|sums: Seq<Scalar>| #[trigger]
        running_sums(parts_a, plus, sums) && b == sums.last();
    lemma_running_sums_are_function(parts_a, plus, sums_a, sums_b, parts_a.len() as int);
}

} // verus!
