//! Colors: three unclamped channels.

use vstd::prelude::*;
use crate::scalar::{Scalar, ONE_BITS};

verus! {

/// A color by its red, green and blue channels. A channel is not clamped:
/// lighting may push it above one before it is quantized for display.
#[derive(Clone, Copy, Debug, PartialEq, Eq, Structural)]
pub struct Color {
    pub r: Scalar,
    pub g: Scalar,
    pub b: Scalar,
}

impl Color {
    /// The color whose channels have the bit patterns given.
    pub open spec fn of_bits(r: u32, g: u32, b: u32) -> Color {
        Color { r: Scalar { bits: r }, g: Scalar { bits: g }, b: Scalar { bits: b } }
    }

    pub open spec fn black_spec() -> Color {
        Color::of_bits(0, 0, 0)
    }

    /// Black.
    #[verifier::when_used_as_spec(black_spec)]
    pub fn black() -> (c: Color)
        ensures
            c == Color::black_spec(),
    {
        Color::new(Scalar::zero(), Scalar::zero(), Scalar::zero())
    }

    pub open spec fn white_spec() -> Color {
        Color::of_bits(ONE_BITS, ONE_BITS, ONE_BITS)
    }

    /// White, the color of a ray that hits nothing.
    #[verifier::when_used_as_spec(white_spec)]
    pub fn white() -> (c: Color)
        ensures
            c == Color::white_spec(),
    {
        Color::new(Scalar::one(), Scalar::one(), Scalar::one())
    }

    pub open spec fn red_spec() -> Color {
        Color::of_bits(ONE_BITS, 0, 0)
    }

    /// Red.
    #[verifier::when_used_as_spec(red_spec)]
    pub fn red() -> (c: Color)
        ensures
            c == Color::red_spec(),
    {
        Color::new(Scalar::one(), Scalar::zero(), Scalar::zero())
    }

    pub open spec fn green_spec() -> Color {
        Color::of_bits(0, ONE_BITS, 0)
    }

    /// Green.
    #[verifier::when_used_as_spec(green_spec)]
    pub fn green() -> (c: Color)
        ensures
            c == Color::green_spec(),
    {
        Color::new(Scalar::zero(), Scalar::one(), Scalar::zero())
    }

    pub open spec fn blue_spec() -> Color {
        Color::of_bits(0, 0, ONE_BITS)
    }

    /// Blue.
    #[verifier::when_used_as_spec(blue_spec)]
    pub fn blue() -> (c: Color)
        ensures
            c == Color::blue_spec(),
    {
        Color::new(Scalar::zero(), Scalar::zero(), Scalar::one())
    }

    pub open spec fn yellow_spec() -> Color {
        Color::of_bits(ONE_BITS, ONE_BITS, 0)
    }

    /// Yellow.
    #[verifier::when_used_as_spec(yellow_spec)]
    pub fn yellow() -> (c: Color)
        ensures
            c == Color::yellow_spec(),
    {
        Color::new(Scalar::one(), Scalar::one(), Scalar::zero())
    }

    pub open spec fn cyan_spec() -> Color {
        Color::of_bits(0, ONE_BITS, ONE_BITS)
    }

    /// Cyan.
    #[verifier::when_used_as_spec(cyan_spec)]
    pub fn cyan() -> (c: Color)
        ensures
            c == Color::cyan_spec(),
    {
        Color::new(Scalar::zero(), Scalar::one(), Scalar::one())
    }

    pub open spec fn magenta_spec() -> Color {
        Color::of_bits(ONE_BITS, 0, ONE_BITS)
    }

    /// Magenta, the color of a pixel that nothing has drawn yet.
    #[verifier::when_used_as_spec(magenta_spec)]
    pub fn magenta() -> (c: Color)
        ensures
            c == Color::magenta_spec(),
    {
        Color::new(Scalar::one(), Scalar::zero(), Scalar::one())
    }

    /// The color of the three channels given.
    pub fn new(r: Scalar, g: Scalar, b: Scalar) -> (c: Color)
        ensures
            c == (Color { r, g, b }),
    {
        Color { r, g, b }
    }
}

} // verus!
