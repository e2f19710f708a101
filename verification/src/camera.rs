//! The camera and its image plane.

use vstd::prelude::*;
use crate::math::Vector3;
use crate::scalar::{Scalar, ONE_BITS};

verus! {

/// The rectangle through which the camera looks: `width` by `height`,
/// centered on the view axis, `distance` away from the camera.
#[derive(Clone, Copy, Debug, PartialEq, Eq, Structural)]
pub struct ViewPort {
    pub width: Scalar,
    pub height: Scalar,
    pub distance: Scalar,
}

/// Where the rays start, and the view port they pass through.
#[derive(Clone, Copy, Debug, PartialEq, Eq, Structural)]
pub struct Camera {
    pub position: Vector3,
    pub view_port: ViewPort,
}

impl Camera {
    /// The camera at `position` that looks through `view_port`.
    pub fn new(position: Vector3, view_port: ViewPort) -> (c: Camera)
        ensures
            c == (Camera { position, view_port }),
    {
        Camera { position, view_port }
    }
}

impl Default for Camera {
    /// The camera at the origin, with a view port of one by one at distance one.
    fn default() -> (c: Camera)
        ensures
            c.position == (Vector3 { x: Scalar { bits: 0 }, y: Scalar { bits: 0 }, z: Scalar { bits: 0 } }),
            c.view_port == (ViewPort {
                width: Scalar { bits: ONE_BITS },
                height: Scalar { bits: ONE_BITS },
                distance: Scalar { bits: ONE_BITS },
            }),
    {
        Camera::new(
            Vector3::new(Scalar::zero(), Scalar::zero(), Scalar::zero()),
            ViewPort { width: Scalar::one(), height: Scalar::one(), distance: Scalar::one() },
        )
    }
}

/// The row of the view port that the canvas row `v` looks through, on a
/// canvas of `width` by `height`: the rows are scaled by `height / width`
/// before they are centered, and a fraction of a row is dropped.
pub fn scaled_row(v: u32, width: u32, height: u32) -> (row: u32)
    requires
        width > 0,
        v * height <= u32::MAX,
    ensures
        row == (v * height) / (width as int),
{
    v * height / width
}

/// The scaled rows keep the order of the canvas rows, and on a canvas that
/// is at least as wide as it is high none lies above its canvas row.
pub proof fn lemma_scaled_rows_in_order(v: u32, w: u32, width: u32, height: u32)
    requires
        width > 0,
        v <= w,
    ensures
        (v * height) / (width as int) <= (w * height) / (width as int),
        height <= width ==> (v * height) / (width as int) <= v,
{
    assert(v * height <= w * height) by (nonlinear_arith)
        requires
            v <= w,
            0 <= height,
    ;
    vstd::arithmetic::div_mod::lemma_div_is_ordered(v * height, w * height, width as int);
    if height <= width {
        assert(v * height <= v * width) by (nonlinear_arith)
            requires
                height <= width,
                0 <= v,
        ;
        vstd::arithmetic::div_mod::lemma_div_is_ordered(v * height, v * width, width as int);
        vstd::arithmetic::div_mod::lemma_div_multiples_vanish(v as int, width as int);
    }
}

} // verus!
