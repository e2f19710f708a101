//! The renderer that computes every pixel itself.

use vstd::prelude::*;
use crate::camera::ViewPort;
use crate::canvas::Canvas;
use crate::color::Color;
use crate::light::{
    lemma_light_intensity_is_function, light_intensity, plus_is_function, running_sums,
    terms_is_function, toward_is_function, Light, OmniDirectionalLight, Terms,
};
use crate::math::Vector3;
use crate::ray::{Hit, Ray};
use crate::scalar::Scalar;
use crate::scene::Scene;
use crate::sdf::{lemma_hit_is_function, roots_is_function, surface_is_function, Roots, SphereNode};

verus! {

/// Renders by casting one ray per pixel and searching the scene for what it
/// hits first. A ray hits wherever its parameter is not negative: nothing
/// is cut off in front of the view port.
#[derive(Clone, Copy, Debug)]
pub struct SoftwareRenderer {}

impl SoftwareRenderer {
    /// Whether `color` is the color of `hit` as `ray` sees it under the
    /// lights of `scene`: the color of its material, scaled by the light
    /// that reaches it, seen from against the ray.
    pub open spec fn shades<O, T, A, W>(
        scene: &Scene,
        hit: &Hit,
        ray: &Ray,
        toward: &O,
        terms: &T,
        plus: &A,
        scale: &W,
        color: Color,
    ) -> bool where
        O: Fn(&OmniDirectionalLight, &Hit) -> Vector3,
        T: Fn(Scalar, Vector3, &Hit, Vector3) -> Terms,
        A: Fn(Scalar, Scalar) -> Scalar,
        W: Fn(Color, Scalar) -> Color,
     {
        exists|intensity: Scalar|
            {
                &&& light_intensity(
                    scene.lights@,
                    hit,
                    ray.direction.negate(),
                    toward,
                    terms,
                    plus,
                    intensity,
                )
                &&& #[trigger] scale.ensures((hit.material.color, intensity), color)
            }
    }

    /// Whether `color` is a color that `ray` sees in `scene`: white where
    /// the ray hits nothing, else the color of the nearest hit.
    pub open spec fn colors<R, S, O, T, A, W>(
        scene: &Scene,
        ray: &Ray,
        roots: &R,
        surface: &S,
        toward: &O,
        terms: &T,
        plus: &A,
        scale: &W,
        color: Color,
    ) -> bool where
        R: Fn(&SphereNode, &Ray) -> Roots,
        S: Fn(&SphereNode, &Ray, Scalar) -> (Vector3, Vector3),
        O: Fn(&OmniDirectionalLight, &Hit) -> Vector3,
        T: Fn(Scalar, Vector3, &Hit, Vector3) -> Terms,
        A: Fn(Scalar, Scalar) -> Scalar,
        W: Fn(Color, Scalar) -> Color,
     {
        exists|found: Option<Hit>| #[trigger]
            scene.root.hits(ray, roots, surface, found) && match found {
                None => color == Color::white(),
                Some(hit) => Self::shades(scene, &hit, ray, toward, terms, plus, scale, color),
            }
    }

    /// Whether `color` is a color of the pixel in column `u` of row `v`, on
    /// a canvas of `width` by `height`: one that the ray sees which runs
    /// from the camera through the point of the view port that `aim` gives
    /// the pixel.
    pub open spec fn pixel_colors<M, R, S, O, T, A, W>(
        scene: &Scene,
        u: u32,
        v: u32,
        width: u32,
        height: u32,
        aim: &M,
        roots: &R,
        surface: &S,
        toward: &O,
        terms: &T,
        plus: &A,
        scale: &W,
        color: Color,
    ) -> bool where
        M: Fn(&ViewPort, u32, u32, u32, u32) -> (Scalar, Scalar),
        R: Fn(&SphereNode, &Ray) -> Roots,
        S: Fn(&SphereNode, &Ray, Scalar) -> (Vector3, Vector3),
        O: Fn(&OmniDirectionalLight, &Hit) -> Vector3,
        T: Fn(Scalar, Vector3, &Hit, Vector3) -> Terms,
        A: Fn(Scalar, Scalar) -> Scalar,
        W: Fn(Color, Scalar) -> Color,
     {
        exists|across: (Scalar, Scalar)| #[trigger]
            aim.ensures((&scene.camera.view_port, u, v, width, height), across) && Self::colors(
                scene,
                &Self::ray_through(scene, across),
                roots, surface, toward, terms, plus, scale,
                color,
            )
    }

    /// The ray through the point of the view port that lies `across.0` to
    /// the right of its center and `across.1` above it: it starts at the
    /// camera and runs to the point, the view port's distance ahead.
    pub open spec fn ray_through(scene: &Scene, across: (Scalar, Scalar)) -> Ray {
        Ray {
            origin: scene.camera.position,
            direction: Vector3 { x: across.0, y: across.1, z: scene.camera.view_port.distance },
        }
    }

    /// The intensity that `lights` together give to `hit`, seen from
    /// `inverse_direction`. The sum starts from zero and is not clamped: it
    /// may exceed one.
    pub fn compute_light<O, T, A>(
        &self,
        lights: &Vec<Light>,
        hit: &Hit,
        inverse_direction: Vector3,
        toward: &O,
        terms: &T,
        plus: &A,
    ) -> (r: Scalar) where
        O: Fn(&OmniDirectionalLight, &Hit) -> Vector3,
        T: Fn(Scalar, Vector3, &Hit, Vector3) -> Terms,
        A: Fn(Scalar, Scalar) -> Scalar,

        requires
            forall|o: &OmniDirectionalLight| toward.requires((o, hit)),
            forall|i: Scalar, l: Vector3| terms.requires((i, l, hit, inverse_direction)),
            forall|a: Scalar, b: Scalar| plus.requires((a, b)),
        ensures
            light_intensity(lights@, hit, inverse_direction, toward, terms, plus, r),
    {
        let mut total = Scalar::zero();
        let ghost mut parts: Seq<Scalar> = Seq::empty();
        let ghost mut sums: Seq<Scalar> = seq![total];
        let mut k: usize = 0;
        while k < lights.len()
            invariant
                k <= lights.len(),
                forall|o: &OmniDirectionalLight| toward.requires((o, hit)),
                forall|i: Scalar, l: Vector3| terms.requires((i, l, hit, inverse_direction)),
                forall|a: Scalar, b: Scalar| plus.requires((a, b)),
                parts.len() == k,
                forall|j: int|
                    0 <= j < k ==> (#[trigger] lights@[j]).shines(
                        hit,
                        inverse_direction,
                        toward,
                        terms,
                        plus,
                        parts[j],
                    ),
                running_sums(parts, plus, sums),
                total == sums.last(),
            decreases lights.len() - k,
        {
            let part = lights[k].compute_intensity(hit, inverse_direction, toward, terms, plus);
            total = plus(total, part);
            proof {
                let longer = sums.push(total);
                assert forall|j: int| 0 <= j < parts.len() + 1 implies plus.ensures(
                    (#[trigger] longer[j], parts.push(part)[j]),
                    longer[j + 1],
                ) by {
                    if j < parts.len() {
                        assert(longer[j] == sums[j]);
                    }
                }
                parts = parts.push(part);
                sums = longer;
            }
            k += 1;
        }
        total
    }

    /// The color that `ray` sees in `scene`: white where it hits nothing,
    /// else the color of the material at the nearest hit, scaled by the
    /// light that the lights of the scene give the hit.
    pub fn compute_color<R, S, O, T, A, W>(
        &self,
        scene: &Scene,
        ray: &Ray,
        roots: &R,
        surface: &S,
        toward: &O,
        terms: &T,
        plus: &A,
        scale: &W,
    ) -> (color: Color) where
        R: Fn(&SphereNode, &Ray) -> Roots,
        S: Fn(&SphereNode, &Ray, Scalar) -> (Vector3, Vector3),
        O: Fn(&OmniDirectionalLight, &Hit) -> Vector3,
        T: Fn(Scalar, Vector3, &Hit, Vector3) -> Terms,
        A: Fn(Scalar, Scalar) -> Scalar,
        W: Fn(Color, Scalar) -> Color,

        requires
            forall|s: &SphereNode, ray: &Ray| roots.requires((s, ray)),
            forall|s: &SphereNode, ray: &Ray, d: Scalar| surface.requires((s, ray, d)),
            forall|o: &OmniDirectionalLight, hit: &Hit| toward.requires((o, hit)),
            forall|i: Scalar, l: Vector3, hit: &Hit, v: Vector3| terms.requires((i, l, hit, v)),
            forall|a: Scalar, b: Scalar| plus.requires((a, b)),
            forall|c: Color, i: Scalar| scale.requires((c, i)),
        ensures
            Self::colors(scene, ray, roots, surface, toward, terms, plus, scale, color),
    {
        match scene.root.hit(ray, roots, surface) {
            Some(hit) => {
                let inverse_direction = ray.direction.negate();
                let intensity = self.compute_light(
                    &scene.lights,
                    &hit,
                    inverse_direction,
                    toward,
                    terms,
                    plus,
                );
                let color = scale(hit.material.color, intensity);
                assert(Self::shades(scene, &hit, ray, toward, terms, plus, scale, color));
                color
            },
            None => Color::white(),
        }
    }

    /// The color of the pixel in column `u` of row `v`, on a canvas of
    /// `width` by `height`.
    pub fn render_pixel<M, R, S, O, T, A, W>(
        &self,
        scene: &Scene,
        u: u32,
        v: u32,
        width: u32,
        height: u32,
        aim: &M,
        roots: &R,
        surface: &S,
        toward: &O,
        terms: &T,
        plus: &A,
        scale: &W,
    ) -> (color: Color) where
        M: Fn(&ViewPort, u32, u32, u32, u32) -> (Scalar, Scalar),
        R: Fn(&SphereNode, &Ray) -> Roots,
        S: Fn(&SphereNode, &Ray, Scalar) -> (Vector3, Vector3),
        O: Fn(&OmniDirectionalLight, &Hit) -> Vector3,
        T: Fn(Scalar, Vector3, &Hit, Vector3) -> Terms,
        A: Fn(Scalar, Scalar) -> Scalar,
        W: Fn(Color, Scalar) -> Color,

        requires
            aim.requires((&scene.camera.view_port, u, v, width, height)),
            forall|s: &SphereNode, ray: &Ray| roots.requires((s, ray)),
            forall|s: &SphereNode, ray: &Ray, d: Scalar| surface.requires((s, ray, d)),
            forall|o: &OmniDirectionalLight, hit: &Hit| toward.requires((o, hit)),
            forall|i: Scalar, l: Vector3, hit: &Hit, v: Vector3| terms.requires((i, l, hit, v)),
            forall|a: Scalar, b: Scalar| plus.requires((a, b)),
            forall|c: Color, i: Scalar| scale.requires((c, i)),
        ensures
            Self::pixel_colors(scene, u, v, width, height, aim, roots, surface, toward, terms, plus, scale, color),
    {
        let (x, y) = aim(&scene.camera.view_port, u, v, width, height);
        let ray = Ray {
            origin: scene.camera.position,
            direction: Vector3::new(x, y, scene.camera.view_port.distance),
        };
        assert(ray == Self::ray_through(scene, (x, y)));
        self.compute_color(scene, &ray, roots, surface, toward, terms, plus, scale)
    }

    /// Draws every pixel of `canvas` once, row after row from the bottom
    /// one up: the color that the ray through the pixel sees in `scene`.
    pub fn render<C, M, R, S, O, T, A, W>(
        &self,
        scene: &Scene,
        canvas: &mut C,
        aim: &M,
        roots: &R,
        surface: &S,
        toward: &O,
        terms: &T,
        plus: &A,
        scale: &W,
    ) where
        C: Canvas,
        M: Fn(&ViewPort, u32, u32, u32, u32) -> (Scalar, Scalar),
        R: Fn(&SphereNode, &Ray) -> Roots,
        S: Fn(&SphereNode, &Ray, Scalar) -> (Vector3, Vector3),
        O: Fn(&OmniDirectionalLight, &Hit) -> Vector3,
        T: Fn(Scalar, Vector3, &Hit, Vector3) -> Terms,
        A: Fn(Scalar, Scalar) -> Scalar,
        W: Fn(Color, Scalar) -> Color,

        requires
            forall|u: u32, v: u32|
                u < old(canvas).width_spec() && v < old(canvas).height_spec() ==> aim.requires(
                    (&scene.camera.view_port, u, v, old(canvas).width_spec(), old(canvas).height_spec()),
                ),
            forall|s: &SphereNode, ray: &Ray| roots.requires((s, ray)),
            forall|s: &SphereNode, ray: &Ray, d: Scalar| surface.requires((s, ray, d)),
            forall|o: &OmniDirectionalLight, hit: &Hit| toward.requires((o, hit)),
            forall|i: Scalar, l: Vector3, hit: &Hit, v: Vector3| terms.requires((i, l, hit, v)),
            forall|a: Scalar, b: Scalar| plus.requires((a, b)),
            forall|c: Color, i: Scalar| scale.requires((c, i)),
        ensures
            final(canvas).width_spec() == old(canvas).width_spec(),
            final(canvas).height_spec() == old(canvas).height_spec(),
            forall|u: u32, v: u32|
                u < old(canvas).width_spec() && v < old(canvas).height_spec()
                    ==> Self::pixel_colors(
                    scene,
                    u,
                    v,
                    old(canvas).width_spec(),
                    old(canvas).height_spec(),
                    aim,
                    roots, surface, toward, terms, plus, scale,
                    #[trigger] final(canvas).pixel(u, v),
                ),
    {
        let width = canvas.width();
        let height = canvas.height();
        let mut v: u32 = 0;
        while v < height
            invariant
                v <= height,
                width == canvas.width_spec(),
                height == canvas.height_spec(),
                forall|i: u32, j: u32|
                    i < width && j < height ==> aim.requires(
                        (&scene.camera.view_port, i, j, width, height),
                    ),
                forall|s: &SphereNode, ray: &Ray| roots.requires((s, ray)),
                forall|s: &SphereNode, ray: &Ray, d: Scalar| surface.requires((s, ray, d)),
                forall|o: &OmniDirectionalLight, hit: &Hit| toward.requires((o, hit)),
                forall|i: Scalar, l: Vector3, hit: &Hit, v: Vector3| terms.requires((i, l, hit, v)),
                forall|a: Scalar, b: Scalar| plus.requires((a, b)),
                forall|c: Color, i: Scalar| scale.requires((c, i)),
                forall|i: u32, j: u32|
                    i < width && j < v ==> Self::pixel_colors(
                        scene,
                        i,
                        j,
                        width,
                        height,
                        aim,
                        roots, surface, toward, terms, plus, scale,
                        #[trigger] canvas.pixel(i, j),
                    ),
            decreases height - v,
        {
            let mut u: u32 = 0;
            while u < width
                invariant
                    u <= width,
                    v < height,
                    width == canvas.width_spec(),
                    height == canvas.height_spec(),
                    forall|i: u32, j: u32|
                        i < width && j < height ==> aim.requires(
                            (&scene.camera.view_port, i, j, width, height),
                        ),
                    forall|s: &SphereNode, ray: &Ray| roots.requires((s, ray)),
                    forall|s: &SphereNode, ray: &Ray, d: Scalar| surface.requires((s, ray, d)),
                    forall|o: &OmniDirectionalLight, hit: &Hit| toward.requires((o, hit)),
                    forall|i: Scalar, l: Vector3, hit: &Hit, v: Vector3| terms.requires((i, l, hit, v)),
                    forall|a: Scalar, b: Scalar| plus.requires((a, b)),
                    forall|c: Color, i: Scalar| scale.requires((c, i)),
                    forall|i: u32, j: u32|
                        i < width && (j < v || (j == v && i < u)) ==> Self::pixel_colors(
                            scene,
                            i,
                            j,
                            width,
                            height,
                            aim,
                            roots, surface, toward, terms, plus, scale,
                            #[trigger] canvas.pixel(i, j),
                        ),
                decreases width - u,
            {
                let color = self.render_pixel(
                    scene,
                    u,
                    v,
                    width,
                    height,
                    aim,
                    roots, surface, toward, terms, plus, scale,
                );
                canvas.set_pixel(u, v, color);
                u += 1;
            }
            v += 1;
        }
    }
}

/// Whether `aim` gives one answer only to each question.
pub open spec fn aim_is_function<M: Fn(&ViewPort, u32, u32, u32, u32) -> (Scalar, Scalar)>(aim: &M) -> bool {
    forall|view_port: &ViewPort, u: u32, v: u32, width: u32, height: u32, a: (Scalar, Scalar), b: (
        Scalar,
        Scalar,
    )|
        #![trigger aim.ensures((view_port, u, v, width, height), a), aim.ensures((view_port, u, v, width, height), b)]
        aim.ensures((view_port, u, v, width, height), a) && aim.ensures(
            (view_port, u, v, width, height),
            b,
        ) ==> a == b
}

/// Whether `scale` gives one answer only to each question.
pub open spec fn scale_is_function<W: Fn(Color, Scalar) -> Color>(scale: &W) -> bool {
    forall|color: Color, intensity: Scalar, a: Color, b: Color|
        #![trigger scale.ensures((color, intensity), a), scale.ensures((color, intensity), b)]
        scale.ensures((color, intensity), a) && scale.ensures((color, intensity), b) ==> a == b
}

/// Whether all the kernels of the pipeline are functions: each gives one
/// answer only to each question.
pub open spec fn kernels_are_functions<M, R, S, O, T, A, W>(
    aim: &M,
    roots: &R,
    surface: &S,
    toward: &O,
    terms: &T,
    plus: &A,
    scale: &W,
) -> bool where
    M: Fn(&ViewPort, u32, u32, u32, u32) -> (Scalar, Scalar),
    R: Fn(&SphereNode, &Ray) -> Roots,
    S: Fn(&SphereNode, &Ray, Scalar) -> (Vector3, Vector3),
    O: Fn(&OmniDirectionalLight, &Hit) -> Vector3,
    T: Fn(Scalar, Vector3, &Hit, Vector3) -> Terms,
    A: Fn(Scalar, Scalar) -> Scalar,
    W: Fn(Color, Scalar) -> Color,
 {
    &&& aim_is_function(aim)
    &&& roots_is_function(roots)
    &&& surface_is_function(surface)
    &&& toward_is_function(toward)
    &&& terms_is_function(terms)
    &&& plus_is_function(plus)
    &&& scale_is_function(scale)
}

/// With kernels that are functions, a pixel has one color only.
pub proof fn lemma_pixel_color_is_function<M, R, S, O, T, A, W>(
    scene: &Scene,
    u: u32,
    v: u32,
    width: u32,
    height: u32,
    aim: &M,
    roots: &R,
    surface: &S,
    toward: &O,
    terms: &T,
    plus: &A,
    scale: &W,
    a: Color,
    b: Color,
) where
    M: Fn(&ViewPort, u32, u32, u32, u32) -> (Scalar, Scalar),
    R: Fn(&SphereNode, &Ray) -> Roots,
    S: Fn(&SphereNode, &Ray, Scalar) -> (Vector3, Vector3),
    O: Fn(&OmniDirectionalLight, &Hit) -> Vector3,
    T: Fn(Scalar, Vector3, &Hit, Vector3) -> Terms,
    A: Fn(Scalar, Scalar) -> Scalar,
    W: Fn(Color, Scalar) -> Color,

    requires
        kernels_are_functions(aim, roots, surface, toward, terms, plus, scale),
        SoftwareRenderer::pixel_colors(scene, u, v, width, height, aim, roots, surface, toward, terms, plus, scale, a),
        SoftwareRenderer::pixel_colors(scene, u, v, width, height, aim, roots, surface, toward, terms, plus, scale, b),
    ensures
        a == b,
{
    let across_a = choose|across: (Scalar, Scalar)| #[trigger]
        aim.ensures((&scene.camera.view_port, u, v, width, height), across)
            && SoftwareRenderer::colors(
            scene,
            &SoftwareRenderer::ray_through(scene, across),
            roots, surface, toward, terms, plus, scale,
            a,
        );
    let across_b = choose|across: (Scalar, Scalar)| #[trigger]
        aim.ensures((&scene.camera.view_port, u, v, width, height), across)
            && SoftwareRenderer::colors(
            scene,
            &SoftwareRenderer::ray_through(scene, across),
            roots, surface, toward, terms, plus, scale,
            b,
        );
    assert(across_a == across_b);
    let the_ray = SoftwareRenderer::ray_through(scene, across_a);
    let ray = &the_ray;
    let found_a = choose|found: Option<Hit>| #[trigger]
        scene.root.hits(ray, roots, surface, found) && match found {
            None => a == Color::white(),
            Some(hit) => SoftwareRenderer::shades(
                scene,
                &hit,
                ray,
                toward,
                terms,
                plus,
                scale,
                a,
            ),
        };
    let found_b = choose|found: Option<Hit>| #[trigger]
        scene.root.hits(ray, roots, surface, found) && match found {
            None => b == Color::white(),
            Some(hit) => SoftwareRenderer::shades(
                scene,
                &hit,
                ray,
                toward,
                terms,
                plus,
                scale,
                b,
            ),
        };
    lemma_hit_is_function(&scene.root, ray, roots, surface, found_a, found_b);
    if let Some(hit) = found_a {
        lemma_shade_is_function(scene, &hit, ray, toward, terms, plus, scale, a, b);
    }
}

/// With kernels that are functions, a hit has one color only.
pub proof fn lemma_shade_is_function<O, T, A, W>(
    scene: &Scene,
    hit: &Hit,
    ray: &Ray,
    toward: &O,
    terms: &T,
    plus: &A,
    scale: &W,
    a: Color,
    b: Color,
) where
    O: Fn(&OmniDirectionalLight, &Hit) -> Vector3,
    T: Fn(Scalar, Vector3, &Hit, Vector3) -> Terms,
    A: Fn(Scalar, Scalar) -> Scalar,
    W: Fn(Color, Scalar) -> Color,

    requires
        toward_is_function(toward),
        terms_is_function(terms),
        plus_is_function(plus),
        scale_is_function(scale),
        SoftwareRenderer::shades(scene, hit, ray, toward, terms, plus, scale, a),
        SoftwareRenderer::shades(scene, hit, ray, toward, terms, plus, scale, b),
    ensures
        a == b,
{
    let intensity_a = choose|intensity: Scalar|
        {
            &&& light_intensity(
                scene.lights@,
                hit,
                ray.direction.negate(),
                toward,
                terms,
                plus,
                intensity,
            )
            &&& #[trigger] scale.ensures((hit.material.color, intensity), a)
        };
    let intensity_b = choose|intensity: Scalar|
        {
            &&& light_intensity(
                scene.lights@,
                hit,
                ray.direction.negate(),
                toward,
                terms,
                plus,
                intensity,
            )
            &&& #[trigger] scale.ensures((hit.material.color, intensity), b)
        };
    lemma_light_intensity_is_function(
        scene.lights@,
        hit,
        ray.direction.negate(),
        toward,
        terms,
        plus,
        intensity_a,
        intensity_b,
    );
}

/// Rendering is repeatable: with kernels that are functions, two canvases
/// of one size on which the same scene was rendered agree in every pixel.
pub proof fn lemma_render_is_repeatable<C1, C2, M, R, S, O, T, A, W>(
    scene: &Scene,
    first: &C1,
    second: &C2,
    aim: &M,
    roots: &R,
    surface: &S,
    toward: &O,
    terms: &T,
    plus: &A,
    scale: &W,
) where
    C1: Canvas,
    C2: Canvas,
    M: Fn(&ViewPort, u32, u32, u32, u32) -> (Scalar, Scalar),
    R: Fn(&SphereNode, &Ray) -> Roots,
    S: Fn(&SphereNode, &Ray, Scalar) -> (Vector3, Vector3),
    O: Fn(&OmniDirectionalLight, &Hit) -> Vector3,
    T: Fn(Scalar, Vector3, &Hit, Vector3) -> Terms,
    A: Fn(Scalar, Scalar) -> Scalar,
    W: Fn(Color, Scalar) -> Color,

    requires
        kernels_are_functions(aim, roots, surface, toward, terms, plus, scale),
        first.width_spec() == second.width_spec(),
        first.height_spec() == second.height_spec(),
        forall|u: u32, v: u32|
            u < first.width_spec() && v < first.height_spec() ==> SoftwareRenderer::pixel_colors(
                scene,
                u,
                v,
                first.width_spec(),
                first.height_spec(),
                aim,
                roots, surface, toward, terms, plus, scale,
                #[trigger] first.pixel(u, v),
            ),
        forall|u: u32, v: u32|
            u < first.width_spec() && v < first.height_spec() ==> SoftwareRenderer::pixel_colors(
                scene,
                u,
                v,
                first.width_spec(),
                first.height_spec(),
                aim,
                roots, surface, toward, terms, plus, scale,
                #[trigger] second.pixel(u, v),
            ),
    ensures
        forall|u: u32, v: u32|
            u < first.width_spec() && v < first.height_spec() ==> #[trigger] first.pixel(u, v)
                == second.pixel(u, v),
{
    assert forall|u: u32, v: u32|
        u < first.width_spec() && v < first.height_spec() implies #[trigger] first.pixel(u, v)
        == second.pixel(u, v) by {
        lemma_pixel_color_is_function(
            scene,
            u,
            v,
            first.width_spec(),
            first.height_spec(),
            aim,
            roots, surface, toward, terms, plus, scale,
            first.pixel(u, v),
            second.pixel(u, v),
        );
    }
}

} // verus!
