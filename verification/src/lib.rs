//! A ray caster: a scene of spheres and unions of them, lit by ambient,
//! point and directional lights, rendered one ray per pixel onto a canvas.
//!
//! The crate holds the scene model, the nearest-hit search, the lighting
//! rules, the rendering pipeline, the canvas, and the formats in which a
//! scene is read and written.
//!
//! Numbers are carried as IEEE 754 single-precision bit patterns
//! ([`scalar::Scalar`]). The crate orders them, turns their sign, cuts
//! them to bytes and carries them about; it does no arithmetic on them. What a formula computes is asked of the
//! caller, who passes each formula in as a closure, a kernel:
//!
//! - `aim`: the point of the view port that a pixel looks through;
//! - `roots` and `surface`: the quadratic of a ray and a sphere, and the
//!   point and normal of a hit;
//! - `toward`, `terms` and `plus`: the vector to a point light, the diffuse
//!   term and the highlight of a light, and the sum of two intensities;
//! - `scale`: a color scaled by an intensity;
//! - `stretch`: a channel taken from zero to one to 0 to 255;
//! - `number`: the number that a text denotes.
//!
//! What the crate decides with them is stated relative to them: which root
//! counts as a hit, which child of a union is hit first, which terms of a
//! light count, which color a pixel gets and where its bytes go.

pub mod scalar;
pub mod math;
pub mod color;
pub mod material;
pub mod ray;
pub mod camera;
pub mod sdf;
pub mod geometry;
pub mod canvas;
pub mod light;
pub mod scene;
pub mod render;
pub mod image;
pub mod saver;
pub mod loader;
