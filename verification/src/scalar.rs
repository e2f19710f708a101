//! Single-precision numbers as plain values.
//!
//! A [`Scalar`] carries an IEEE 754 binary32 number as its 32-bit pattern.
//! Arithmetic on scalars is left to the host's floating-point unit; what this
//! module decides is their order, which every nearest-hit search and every
//! threshold test in the crate goes through.

use vstd::prelude::*;
use vstd::arithmetic::power2::{pow2, lemma_pow2_pos, lemma_pow2_adds, lemma_pow2_strictly_increases, lemma2_to64};
use vstd::arithmetic::mul::{lemma_mul_inequality, lemma_mul_strict_inequality};
use vstd::arithmetic::div_mod::{lemma_basic_div, lemma_div_is_ordered, lemma_div_multiples_vanish_quotient};
use vstd::bits::lemma_u32_shr_is_div;

verus! {

/// Bit pattern of the sign bit alone; also the pattern of negative zero.
pub const SIGN_BIT: u32 = 0x8000_0000;

/// Bit pattern of positive infinity: every larger magnitude is a NaN.
pub const INFINITY_BITS: u32 = 0x7f80_0000;

/// Bit pattern of the number one.
pub const ONE_BITS: u32 = 0x3f80_0000;

/// Bit pattern of the number minus one.
pub const MINUS_ONE_BITS: u32 = 0xbf80_0000;

/// Number of distinct fractions per exponent, `2^23`.
pub const FRACTION_SPAN: u32 = 0x80_0000;

/// An IEEE 754 binary32 number, held as its bit pattern.
///
/// `==` compares the patterns, not the numbers: the two zeros differ, and
/// a NaN equals itself. Numbers are compared by [`Scalar::lt`].
#[derive(Clone, Copy, Debug, PartialEq, Eq, Structural)]
pub struct Scalar {
    pub bits: u32,
}

impl Scalar {
    /// The bit pattern without its sign bit.
    pub open spec fn magnitude(self) -> int {
        if self.bits >= SIGN_BIT {
            self.bits - SIGN_BIT
        } else {
            self.bits as int
        }
    }

    /// Whether the sign bit is set (true of negative zero too).
    pub open spec fn sign_negative(self) -> bool {
        self.bits >= SIGN_BIT
    }

    /// Whether the pattern is a NaN.
    pub open spec fn is_nan_spec(self) -> bool {
        self.magnitude() > INFINITY_BITS
    }

    /// The biased exponent field, `0..=255`.
    pub open spec fn exponent(self) -> int {
        self.magnitude() / (FRACTION_SPAN as int)
    }

    /// The fraction field, `0..2^23`.
    pub open spec fn fraction(self) -> int {
        self.magnitude() % (FRACTION_SPAN as int)
    }

    /// The absolute value of the number denoted, counted in units of `2^-149`.
    ///
    /// Subnormals are their fraction; a normal number is its significand
    /// shifted by its exponent. Infinity comes out as `2^277`, above every
    /// finite value. The result is meaningful for patterns that are no NaN.
    pub open spec fn abs_value(self) -> int {
        if self.exponent() == 0 {
            self.fraction()
        } else {
            (FRACTION_SPAN + self.fraction()) * pow2((self.exponent() - 1) as nat)
        }
    }

    /// The number denoted, counted in units of `2^-149`; both zeros are `0`.
    pub open spec fn value(self) -> int {
        if self.sign_negative() {
            -self.abs_value()
        } else {
            self.abs_value()
        }
    }

    /// `self < other` as IEEE 754 orders numbers: false when either is a NaN.
    pub open spec fn lt_spec(self, other: Scalar) -> bool {
        !self.is_nan_spec() && !other.is_nan_spec() && self.value() < other.value()
    }

    /// The smaller of two numbers, a NaN giving way to the other argument;
    /// of two equal numbers `self`.
    pub open spec fn min_spec(self, other: Scalar) -> Scalar {
        if self.is_nan_spec() {
            other
        } else if other.lt_spec(self) {
            other
        } else {
            self
        }
    }

    /// The number with the opposite sign: the same pattern but for its sign
    /// bit. A zero becomes the other zero, a NaN stays a NaN.
    pub open spec fn negate_spec(self) -> Scalar {
        if self.bits >= SIGN_BIT {
            Scalar { bits: (self.bits - SIGN_BIT) as u32 }
        } else {
            Scalar { bits: (self.bits + SIGN_BIT) as u32 }
        }
    }

    /// The number as a byte, as a cast makes one of it: its whole part, or
    /// the nearer end of the bytes where that lies outside them; of a NaN,
    /// nothing.
    pub open spec fn to_u8_spec(self) -> u8 {
        if self.is_nan_spec() || self.value() < 0 {
            0
        } else if self.value() >= 256 * pow2(149) {
            255
        } else {
            (self.value() / (pow2(149) as int)) as u8
        }
    }

    /// The signed magnitude: an integer that orders as `value` does.
    pub open spec fn rank(self) -> int {
        if self.sign_negative() {
            -self.magnitude()
        } else {
            self.magnitude()
        }
    }

    /// Positive zero.
    pub fn zero() -> (r: Scalar)
        ensures
            r.bits == 0,
    {
        Scalar { bits: 0 }
    }

    /// The number one.
    pub fn one() -> (r: Scalar)
        ensures
            r.bits == ONE_BITS,
    {
        Scalar { bits: ONE_BITS }
    }

    /// The number minus one.
    pub fn minus_one() -> (r: Scalar)
        ensures
            r.bits == MINUS_ONE_BITS,
    {
        Scalar { bits: MINUS_ONE_BITS }
    }

    /// Wraps a bit pattern.
    pub fn from_bits(bits: u32) -> (r: Scalar)
        ensures
            r.bits == bits,
    {
        Scalar { bits }
    }

    /// The bit pattern.
    pub fn to_bits(self) -> (bits: u32)
        ensures
            bits == self.bits,
    {
        self.bits
    }

    fn magnitude_bits(self) -> (m: u32)
        ensures
            m == self.magnitude(),
    {
        if self.bits >= SIGN_BIT {
            self.bits - SIGN_BIT
        } else {
            self.bits
        }
    }

    /// Whether the pattern is a NaN.
    pub fn is_nan(self) -> (r: bool)
        ensures
            r == self.is_nan_spec(),
    {
        self.magnitude_bits() > INFINITY_BITS
    }

    fn rank_bits(self) -> (k: i64)
        ensures
            k == self.rank(),
    {
        let m: i64 = self.magnitude_bits() as i64;
        if self.bits >= SIGN_BIT {
            -m
        } else {
            m
        }
    }

    /// `self < other`; false when either is a NaN.
    pub fn lt(self, other: Scalar) -> (r: bool)
        ensures
            r == self.lt_spec(other),
    {
        if self.is_nan() || other.is_nan() {
            false
        } else {
            proof {
                lemma_rank_orders_as_value(self, other);
            }
            self.rank_bits() < other.rank_bits()
        }
    }

    /// `self > other`; false when either is a NaN.
    pub fn gt(self, other: Scalar) -> (r: bool)
        ensures
            r == other.lt_spec(self),
    {
        other.lt(self)
    }

    /// The number as a byte: its whole part, or the nearer end of the
    /// bytes where that lies outside them; of a NaN, nothing.
    pub fn to_u8(self) -> (byte: u8)
        ensures
            byte == self.to_u8_spec(),
    {
        let m = self.magnitude_bits();
        proof {
            lemma2_to64();
            lemma_pow2_pos(149);
            lemma_abs_value_bounds(self);
            lemma_basic_div(0, pow2(149) as int);
        }
        if self.bits >= SIGN_BIT || m > INFINITY_BITS {
            return 0;
        }
        let e: u32 = m / FRACTION_SPAN;
        let f: u32 = m % FRACTION_SPAN;
        if e < 127 {
            proof {
                if e + 23 < 149 {
                    lemma_pow2_strictly_increases((e + 23) as nat, 149);
                }
                lemma_basic_div(self.value(), pow2(149) as int);
            }
            0
        } else if e > 134 {
            proof {
                lemma_pow2_adds(8, 149);
                if 157 < e + 22 {
                    lemma_pow2_strictly_increases(157, (e + 22) as nat);
                }
            }
            255
        } else {
            let significand: u32 = FRACTION_SPAN + f;
            let shift: u32 = 150 - e;
            proof {
                // The value is `significand * 2^(e - 1)`, and `2^149` is
                // `2^(e - 1) * 2^shift`: the whole part is the significand
                // without its last `shift` bits.
                let c = pow2((e - 1) as nat) as int;
                let d = pow2(shift as nat) as int;
                lemma_pow2_pos((e - 1) as nat);
                lemma_pow2_adds((e - 1) as nat, shift as nat);
                assert(self.value() == c * significand) by (nonlinear_arith)
                    requires
                        self.value() == significand * c,
                ;
                lemma_div_multiples_vanish_quotient(c, significand as int, d);
                lemma_u32_shr_is_div(significand, shift);
                lemma_whole_part_is_a_byte(significand as int, shift as nat);
                assert(self.value() < 256 * pow2(149)) by (nonlinear_arith)
                    requires
                        self.value() == c * significand,
                        significand < 256 * d,
                        pow2(149) == c * d,
                        c > 0,
                ;
            }
            (significand >> shift) as u8
        }
    }

    /// The number with the opposite sign.
    #[verifier::when_used_as_spec(negate_spec)]
    pub fn negate(self) -> (r: Scalar)
        ensures
            r == self.negate_spec(),
    {
        if self.bits >= SIGN_BIT {
            Scalar { bits: self.bits - SIGN_BIT }
        } else {
            Scalar { bits: self.bits + SIGN_BIT }
        }
    }

    /// The smaller of two numbers; a NaN gives way to the other argument.
    pub fn min(self, other: Scalar) -> (r: Scalar)
        ensures
            r == self.min_spec(other),
    {
        if self.is_nan() {
            other
        } else if other.lt(self) {
            other
        } else {
            self
        }
    }
}

/// A significand without its last sixteen bits or more is a byte.
proof fn lemma_whole_part_is_a_byte(significand: int, shift: nat)
    requires
        0 <= significand < 0x100_0000,
        16 <= shift,
    ensures
        significand < 256 * pow2(shift),
        0 <= significand / (pow2(shift) as int) < 256,
{
    let d = pow2(shift) as int;
    lemma2_to64();
    if 16 < shift {
        lemma_pow2_strictly_increases(16, shift);
    }
    vstd::arithmetic::div_mod::lemma_div_pos_is_pos(significand, d);
    lemma_div_is_ordered(significand, 0xff_ffffint, d);
    assert(0xff_ffffint / d < 256) by (nonlinear_arith)
        requires
            d >= 0x10000,
    ;
}

/// A greater magnitude denotes a greater absolute value, NaNs left aside.
proof fn lemma_abs_value_monotone(a: Scalar, b: Scalar)
    requires
        !a.is_nan_spec(),
        !b.is_nan_spec(),
        a.magnitude() < b.magnitude(),
    ensures
        0 <= a.abs_value() < b.abs_value(),
{
    let span: int = FRACTION_SPAN as int;
    let (ea, fa) = (a.exponent(), a.fraction());
    let (eb, fb) = (b.exponent(), b.fraction());
    assert(a.magnitude() == span * ea + fa && 0 <= fa < span) by {
        vstd::arithmetic::div_mod::lemma_fundamental_div_mod(a.magnitude(), span);
    }
    assert(b.magnitude() == span * eb + fb && 0 <= fb < span) by {
        vstd::arithmetic::div_mod::lemma_fundamental_div_mod(b.magnitude(), span);
    }
    assert(0 <= ea <= eb <= 255);
    lemma_abs_value_bounds(a);
    lemma_abs_value_bounds(b);
    if ea == eb {
        assert(fa < fb);
        if ea > 0 {
            let p: int = pow2((ea - 1) as nat) as int;
            lemma_pow2_pos((ea - 1) as nat);
            lemma_mul_strict_inequality(span + fa, span + fb, p);
        }
    } else {
        // a lies below 2^(ea + 23), and b at or above 2^(eb + 22).
        lemma2_to64();
        if ea + 23 < eb + 22 {
            lemma_pow2_strictly_increases((ea + 23) as nat, (eb + 22) as nat);
        }
    }
}

/// Where a number of exponent `e` lies: from `2^(e + 22)` (from `0` for a
/// subnormal) up to, but not at, `2^(e + 23)`.
proof fn lemma_abs_value_bounds(a: Scalar)
    ensures
        0 <= a.abs_value() < pow2((a.exponent() + 23) as nat),
        a.exponent() > 0 ==> a.abs_value() >= pow2((a.exponent() + 22) as nat),
{
    let span: int = FRACTION_SPAN as int;
    let e = a.exponent();
    let f = a.fraction();
    assert(0 <= f < span && 0 <= e);
    lemma2_to64();
    assert(pow2(23) == span);
    assert(pow2(24) == 2 * span);
    if e == 0 {
    } else {
        let p: int = pow2((e - 1) as nat) as int;
        lemma_pow2_pos((e - 1) as nat);
        lemma_pow2_adds(23, (e - 1) as nat);
        lemma_pow2_adds(24, (e - 1) as nat);
        assert(pow2((e + 22) as nat) == span * p);
        assert(pow2((e + 23) as nat) == 2 * span * p);
        lemma_mul_inequality(span, span + f, p);
        lemma_mul_strict_inequality(span + f, 2 * span, p);
    }
}

/// The signed magnitude orders two numbers as their values do.
pub proof fn lemma_rank_orders_as_value(a: Scalar, b: Scalar)
    requires
        !a.is_nan_spec(),
        !b.is_nan_spec(),
    ensures
        a.rank() < b.rank() <==> a.value() < b.value(),
        a.rank() == b.rank() <==> a.value() == b.value(),
{
    let zero = Scalar { bits: 0 };
    assert(zero.abs_value() == 0);
    if a.magnitude() > 0 {
        lemma_abs_value_monotone(zero, a);
    } else {
        assert(a.abs_value() == 0);
    }
    if b.magnitude() > 0 {
        lemma_abs_value_monotone(zero, b);
    } else {
        assert(b.abs_value() == 0);
    }
    if a.magnitude() < b.magnitude() {
        lemma_abs_value_monotone(a, b);
    } else if b.magnitude() < a.magnitude() {
        lemma_abs_value_monotone(b, a);
    } else {
        assert(a.abs_value() == b.abs_value());
    }
}

/// The order is strict: no number is less than itself, and of two numbers
/// at most one is less than the other.
pub proof fn lemma_lt_is_strict(a: Scalar, b: Scalar)
    ensures
        !a.lt_spec(a),
        a.lt_spec(b) ==> !b.lt_spec(a),
{
}

/// The order is transitive.
pub proof fn lemma_lt_is_transitive(a: Scalar, b: Scalar, c: Scalar)
    requires
        a.lt_spec(b),
        b.lt_spec(c),
    ensures
        a.lt_spec(c),
{
}

/// Two numbers that are no NaNs are ordered, or denote the same number;
/// and they denote the same number exactly where their bits agree or both
/// are zeros.
pub proof fn lemma_lt_is_total(a: Scalar, b: Scalar)
    requires
        !a.is_nan_spec(),
        !b.is_nan_spec(),
    ensures
        a.lt_spec(b) || b.lt_spec(a) || a.value() == b.value(),
        a.value() == b.value() <==> a.bits == b.bits || (a.magnitude() == 0 && b.magnitude() == 0),
{
    lemma_rank_orders_as_value(a, b);
}

/// A NaN is not less than any number, and no number is less than it.
pub proof fn lemma_nan_is_unordered(a: Scalar, b: Scalar)
    requires
        a.is_nan_spec(),
    ensures
        !a.lt_spec(b),
        !b.lt_spec(a),
{
}

/// The smaller of two numbers is one of them, and where neither is a NaN
/// neither is less than it.
pub proof fn lemma_min_is_least(a: Scalar, b: Scalar)
    ensures
        a.min_spec(b) == a || a.min_spec(b) == b,
        !a.is_nan_spec() && !b.is_nan_spec() ==> !a.lt_spec(a.min_spec(b)) && !b.lt_spec(
            a.min_spec(b),
        ),
        a.is_nan_spec() ==> a.min_spec(b) == b,
        b.is_nan_spec() && !a.is_nan_spec() ==> a.min_spec(b) == a,
{
}

/// Negation turns the sign of the number around and nothing else, and
/// twice it changes nothing.
pub proof fn lemma_negate_turns_the_sign(a: Scalar)
    ensures
        a.negate_spec().value() == -a.value(),
        a.negate_spec().magnitude() == a.magnitude(),
        a.negate_spec().is_nan_spec() == a.is_nan_spec(),
        a.negate_spec().negate_spec() == a,
{
}

/// Negation turns the order around.
pub proof fn lemma_negate_turns_the_order(a: Scalar, b: Scalar)
    ensures
        a.lt_spec(b) <==> b.negate_spec().lt_spec(a.negate_spec()),
{
    lemma_negate_turns_the_sign(a);
    lemma_negate_turns_the_sign(b);
}

/// What the patterns with a name denote: both zeros nothing, one and minus
/// one `2^149` units of `2^-149` with their signs, infinity more than any
/// finite number.
pub proof fn lemma_named_values()
    ensures
        (Scalar { bits: 0 }).value() == 0,
        (Scalar { bits: SIGN_BIT }).value() == 0,
        (Scalar { bits: ONE_BITS }).value() == pow2(149),
        (Scalar { bits: MINUS_ONE_BITS }).value() == -pow2(149),
        (Scalar { bits: INFINITY_BITS }).value() == pow2(277),
        !(Scalar { bits: INFINITY_BITS }).is_nan_spec(),
{
    lemma2_to64();
    let one = Scalar { bits: ONE_BITS };
    assert(one.exponent() == 127 && one.fraction() == 0);
    lemma_pow2_adds(23, 126);
    let minus_one = Scalar { bits: MINUS_ONE_BITS };
    assert(minus_one.magnitude() == ONE_BITS);
    assert(minus_one.exponent() == 127 && minus_one.fraction() == 0);
    let infinity = Scalar { bits: INFINITY_BITS };
    assert(infinity.exponent() == 255 && infinity.fraction() == 0);
    lemma_pow2_adds(23, 254);
}

} // verus!
