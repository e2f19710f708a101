//! Rendering a scene onto a canvas.
//!
//! For each pixel of the canvas a ray is cast from the camera; the color
//! of the pixel is the color of what the ray hits first, under the lights of
//! the scene, or white where it hits nothing.

use vstd::prelude::*;
use crate::camera::ViewPort;
use crate::canvas::Canvas;
use crate::color::Color;
use crate::light::{OmniDirectionalLight, Terms};
use crate::math::Vector3;
use crate::ray::{Hit, Ray};
use crate::scalar::Scalar;
use crate::scene::Scene;
use crate::sdf::{Roots, SphereNode};
use crate::render::software::SoftwareRenderer;

pub mod software;

verus! {

/// The renderers that a host may offer.
#[derive(Clone, Copy, Debug, PartialEq, Eq, Structural)]
pub enum RendererType {
    Software,
    OpenGL,
}

/// Draws every pixel of `canvas` once: the color that the ray through the
/// pixel sees in `scene`.
///
/// `aim` gives the point of the view port that a pixel looks through, as
/// its offsets to the right of the center and above it; `roots` and
/// `surface` intersect a ray with a sphere; `toward`, `terms` and `plus`
/// compute the light that reaches a hit; `scale` scales a color by an
/// intensity.
///
/// For the pixel in column `u` of row `v`, on a canvas of `w` by `h` and
/// through a view port of `vw` by `vh`, `aim` is meant to give the offsets
/// `(u - w/2) vw / w` and `(v' - h/2) vh / h`, where `v'` is the scaled
/// row of `v` (see `camera::scaled_row`). The ray then runs from the camera
/// to that point of the view port; its direction is used as it is, not
/// made of length one.
pub fn render<C, M, R, S, O, T, A, W>(
    scene: &Scene,
    canvas: &mut C,
    aim: &M,
    roots: &R,
    surface: &S,
    toward: &O,
    terms: &T,
    plus: &A,
    scale: &W,
) where
    C: Canvas,
    M: Fn(&ViewPort, u32, u32, u32, u32) -> (Scalar, Scalar),
    R: Fn(&SphereNode, &Ray) -> Roots,
    S: Fn(&SphereNode, &Ray, Scalar) -> (Vector3, Vector3),
    O: Fn(&OmniDirectionalLight, &Hit) -> Vector3,
    T: Fn(Scalar, Vector3, &Hit, Vector3) -> Terms,
    A: Fn(Scalar, Scalar) -> Scalar,
    W: Fn(Color, Scalar) -> Color,

    requires
        forall|u: u32, v: u32|
            u < old(canvas).width_spec() && v < old(canvas).height_spec() ==> aim.requires(
                (&scene.camera.view_port, u, v, old(canvas).width_spec(), old(canvas).height_spec()),
            ),
        forall|s: &SphereNode, ray: &Ray| roots.requires((s, ray)),
        forall|s: &SphereNode, ray: &Ray, d: Scalar| surface.requires((s, ray, d)),
        forall|o: &OmniDirectionalLight, hit: &Hit| toward.requires((o, hit)),
        forall|i: Scalar, l: Vector3, hit: &Hit, v: Vector3| terms.requires((i, l, hit, v)),
        forall|a: Scalar, b: Scalar| plus.requires((a, b)),
        forall|c: Color, i: Scalar| scale.requires((c, i)),
    ensures
        final(canvas).width_spec() == old(canvas).width_spec(),
        final(canvas).height_spec() == old(canvas).height_spec(),
        forall|u: u32, v: u32|
            u < old(canvas).width_spec() && v < old(canvas).height_spec()
                ==> SoftwareRenderer::pixel_colors(
                scene,
                u,
                v,
                old(canvas).width_spec(),
                old(canvas).height_spec(),
                aim,
                roots, surface, toward, terms, plus, scale,
                #[trigger] final(canvas).pixel(u, v),
            ),
{
    let renderer = SoftwareRenderer {  };
    renderer.render(scene, canvas, aim, roots, surface, toward, terms, plus, scale);
}

} // verus!
