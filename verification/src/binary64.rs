//! IEEE 754 binary64 numbers as 64-bit encodings.
//!
//! From the most significant bit down an encoding holds one sign bit, eleven exponent bits
//! and fifty-two fraction bits. The classification below looks only at the encoding
//! without its sign, the `magnitude`: it is ordered as the absolute values of the numbers
//! are, with the infinities above every finite number and the NaNs above those.

use vstd::arithmetic::mul::{lemma_mul_inequality, lemma_mul_strict_inequality};
use vstd::arithmetic::power2::{lemma2_to64, lemma_pow2_pos, lemma_pow2_strictly_increases, lemma_pow2_unfold, pow2};
use vstd::prelude::*;

verus! {

/// The sign bit of an encoding.
pub const SIGN_BIT: u64 = 0x8000_0000_0000_0000;

/// Every bit of an encoding but its sign.
pub const MAGNITUDE_MASK: u64 = 0x7fff_ffff_ffff_ffff;

/// The encoding of positive infinity: all exponent bits set, no fraction bit set.
pub const POSITIVE_INFINITY: u64 = 0x7ff0_0000_0000_0000;

/// Two to the power fifty-two: the weight of the lowest exponent bit, and the leading bit
/// of a normal number's significand.
pub const HIDDEN_BIT: u64 = 0x0010_0000_0000_0000;

/// A binary64 number, given by its encoding.
#[derive(Clone, Copy, Debug)]
pub struct Binary64 {
    pub bits: u64,
}

impl Binary64 {
    /// The encoding with the sign bit cleared.
    pub open spec fn magnitude(self) -> u64 {
        if self.bits >= SIGN_BIT {
            (self.bits - SIGN_BIT) as u64
        } else {
            self.bits
        }
    }

    /// The sign bit is set. Zeros, infinities and NaNs carry a sign too.
    pub open spec fn sign_negative(self) -> bool {
        self.bits >= SIGN_BIT
    }

    /// Not a number: all exponent bits set and some fraction bit set.
    pub open spec fn nan(self) -> bool {
        self.magnitude() > POSITIVE_INFINITY
    }

    /// Positive or negative zero.
    pub open spec fn zero(self) -> bool {
        self.magnitude() == 0
    }

    /// Neither an infinity nor a NaN: some exponent bit is clear.
    pub open spec fn finite(self) -> bool {
        self.magnitude() < POSITIVE_INFINITY
    }

    /// The exponent field.
    pub open spec fn exponent(self) -> nat {
        (self.magnitude() / HIDDEN_BIT) as nat
    }

    /// The fraction field.
    pub open spec fn fraction(self) -> nat {
        (self.magnitude() % HIDDEN_BIT) as nat
    }

    /// The significand as an integer: the fraction, and above it the hidden bit unless the
    /// exponent field is zero (a zero or a subnormal number).
    pub open spec fn significand(self) -> nat {
        if self.exponent() == 0 {
            self.fraction()
        } else {
            HIDDEN_BIT as nat + self.fraction()
        }
    }

    /// The power of two that the significand is scaled by, counted from that of the
    /// subnormal numbers.
    pub open spec fn scale(self) -> nat {
        if self.exponent() == 0 {
            0
        } else {
            (self.exponent() - 1) as nat
        }
    }

    /// The absolute value of a finite number, as a multiple of the least positive number.
    pub open spec fn abs_units(self) -> nat
        recommends
            self.finite(),
    {
        self.significand() * pow2(self.scale())
    }

    /// The value of a finite number, as a multiple of the least positive number. Every
    /// finite number is a whole multiple of it.
    pub open spec fn units(self) -> int
        recommends
            self.finite(),
    {
        if self.sign_negative() {
            -(self.abs_units() as int)
        } else {
            self.abs_units() as int
        }
    }

    /// Equality of numbers: a NaN equals nothing, itself included; the two zeros are equal;
    /// any other two numbers are equal exactly when their encodings are.
    pub open spec fn same_number(self, other: Binary64) -> bool {
        &&& !self.nan()
        &&& !other.nan()
        &&& (self.bits == other.bits || (self.zero() && other.zero()))
    }

    /// The number with the given encoding.
    pub fn from_bits(bits: u64) -> (r: Binary64)
        ensures
            r.bits == bits,
    {
        Binary64 { bits }
    }

    /// The encoding of the number.
    pub fn to_bits(self) -> (bits: u64)
        ensures
            bits == self.bits,
    {
        self.bits
    }

    /// The encoding without its sign bit.
    fn abs_bits(self) -> (m: u64)
        ensures
            m == self.magnitude(),
    {
        let bits: u64 = self.bits;
        assert(bits & MAGNITUDE_MASK == if bits >= SIGN_BIT {
            (bits - SIGN_BIT) as u64
        } else {
            bits
        }) by (bit_vector);
        bits & MAGNITUDE_MASK
    }

    /// Whether the number is a NaN.
    pub fn is_nan(self) -> (r: bool)
        ensures
            r == self.nan(),
    {
        self.abs_bits() > POSITIVE_INFINITY
    }

    /// Whether the number is zero, of either sign.
    pub fn is_zero(self) -> (r: bool)
        ensures
            r == self.zero(),
    {
        self.abs_bits() == 0
    }
}

impl PartialEq for Binary64 {
    /// `==` compares as numbers, not as encodings.
    fn eq(&self, other: &Binary64) -> (r: bool) {
        if self.is_nan() || other.is_nan() {
            false
        } else if self.is_zero() && other.is_zero() {
            true
        } else {
            self.bits == other.bits
        }
    }
}

impl vstd::std_specs::cmp::PartialEqSpecImpl for Binary64 {
    open spec fn obeys_eq_spec() -> bool {
        true
    }

    open spec fn eq_spec(&self, other: &Binary64) -> bool {
        self.same_number(*other)
    }
}

/// Among finite numbers, the encodings without their signs are ordered as the absolute
/// values are.
pub proof fn magnitude_orders_abs_units(a: Binary64, b: Binary64)
    requires
        a.finite(),
        b.finite(),
        a.magnitude() < b.magnitude(),
    ensures
        a.abs_units() < b.abs_units(),
{
    let pa = pow2(a.scale()) as int;
    let pb = pow2(b.scale()) as int;
    let sa = a.significand() as int;
    let sb = b.significand() as int;
    let h = HIDDEN_BIT as int;
    lemma_pow2_pos(a.scale());
    lemma_pow2_pos(b.scale());
    if a.exponent() == b.exponent() {
        lemma_mul_strict_inequality(sa, sb, pa);
    } else {
        lemma_mul_inequality(h, sb, pb);
        if a.exponent() == 0 {
            lemma2_to64();
            assert(sa * pa == sa);
            assert(h * pb >= h) by (nonlinear_arith)
                requires
                    pb >= 1,
                    h >= 0,
            ;
        } else {
            let next = pow2(a.scale() + 1) as int;
            lemma_pow2_unfold(a.scale() + 1);
            assert(next == 2 * pa);
            if a.scale() + 1 < b.scale() {
                lemma_pow2_strictly_increases(a.scale() + 1, b.scale());
            }
            assert(next <= pb);
            lemma_mul_strict_inequality(sa, 2 * h, pa);
            assert((2 * h) * pa == h * next) by (nonlinear_arith)
                requires
                    next == 2 * pa,
            ;
            assert(h * next <= h * pb) by (nonlinear_arith)
                requires
                    next <= pb,
                    h >= 0,
            ;
        }
    }
}

/// Two finite numbers are equal exactly when they have the same value.
pub proof fn finite_numbers_equal_iff_same_value(a: Binary64, b: Binary64)
    requires
        a.finite(),
        b.finite(),
    ensures
        a.same_number(b) <==> a.units() == b.units(),
{
    let zero = Binary64 { bits: 0 };
    assert(zero.abs_units() == 0) by {
        assert(zero.significand() == 0);
        assert(0 * pow2(zero.scale()) == 0) by (nonlinear_arith);
    }
    if a.magnitude() > 0 {
        magnitude_orders_abs_units(zero, a);
    } else {
        assert(a.significand() == 0);
        assert(0 * pow2(a.scale()) == 0) by (nonlinear_arith);
    }
    if b.magnitude() > 0 {
        magnitude_orders_abs_units(zero, b);
    } else {
        assert(b.significand() == 0);
        assert(0 * pow2(b.scale()) == 0) by (nonlinear_arith);
    }
    if a.magnitude() < b.magnitude() {
        magnitude_orders_abs_units(a, b);
    }
    if b.magnitude() < a.magnitude() {
        magnitude_orders_abs_units(b, a);
    }
}

/// A finite number is zero exactly when its value is.
pub proof fn zero_iff_value_is_zero(a: Binary64)
    requires
        a.finite(),
    ensures
        a.zero() <==> a.units() == 0,
{
    let zero = Binary64 { bits: 0 };
    assert(zero.units() == 0) by {
        assert(zero.significand() == 0);
        assert(0 * pow2(zero.scale()) == 0) by (nonlinear_arith);
    }
    finite_numbers_equal_iff_same_value(a, zero);
}

/// Equality of numbers is symmetric and transitive; a number equals itself unless it is a
/// NaN.
pub proof fn equality_is_a_partial_equivalence(a: Binary64, b: Binary64, c: Binary64)
    ensures
        a.same_number(b) == b.same_number(a),
        a.same_number(b) && b.same_number(c) ==> a.same_number(c),
        a.same_number(a) == !a.nan(),
{
}

} // verus!
