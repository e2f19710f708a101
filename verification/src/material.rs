//! Surface materials.

use vstd::prelude::*;
use crate::color::Color;
use crate::scalar::{Scalar, MINUS_ONE_BITS, ONE_BITS};

verus! {

/// What a surface looks like: its color and its shininess.
///
/// `specular` is the exponent of the highlight. An exponent that is not
/// greater than minus one switches the highlight off.
#[derive(Clone, Copy, Debug, PartialEq, Eq, Structural)]
pub struct Material {
    pub color: Color,
    pub specular: Scalar,
}

impl Material {
    /// A material that is easy to spot: magenta, with a highlight of
    /// exponent zero.
    pub fn debug_material() -> (m: Material)
        ensures
            m == (Material { color: Color::magenta(), specular: Scalar { bits: 0 } }),
    {
        Material { color: Color::magenta(), specular: Scalar::zero() }
    }

    /// Whether the material shows a highlight: its exponent is above the
    /// sentinel, minus one.
    pub open spec fn has_specular_spec(&self) -> bool {
        (Scalar { bits: MINUS_ONE_BITS }).lt_spec(self.specular)
    }

    /// Whether the material shows a highlight.
    pub fn has_specular(&self) -> (r: bool)
        ensures
            r == self.has_specular_spec(),
    {
        self.specular.gt(Scalar::minus_one())
    }
}

/// A material whose exponent is minus one shows no highlight, and neither
/// does one whose exponent is less, or is a NaN; one whose exponent is zero
/// or one shows it.
pub proof fn lemma_sentinel_switches_highlight_off(material: Material)
    ensures
        material.specular.bits == MINUS_ONE_BITS ==> !material.has_specular_spec(),
        material.specular.lt_spec(Scalar { bits: MINUS_ONE_BITS }) ==> !material.has_specular_spec(),
        material.specular.is_nan_spec() ==> !material.has_specular_spec(),
        material.specular.bits == 0 || material.specular.bits == ONE_BITS
            ==> material.has_specular_spec(),
{
    crate::scalar::lemma_named_values();
    vstd::arithmetic::power2::lemma_pow2_pos(149);
}

} // verus!
