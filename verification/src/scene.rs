//! The scene: what is rendered.

use vstd::prelude::*;
use crate::camera::Camera;
use crate::light::Light;
use crate::sdf::Node;

verus! {

/// A camera, the tree of nodes it looks at, and the lights that shine on
/// them. A scene is built once and only read while it is rendered.
#[derive(Debug)]
pub struct Scene {
    pub camera: Camera,
    pub root: Node,
    pub lights: Vec<Light>,
}

} // verus!
