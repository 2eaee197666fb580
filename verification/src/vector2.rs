//! The vector type: construction, equality and normalisation.

use crate::binary64::Binary64;
use vstd::prelude::*;

verus! {

/// A point or displacement in the plane. Both components may be any binary64 number,
/// infinities and NaNs included.
#[derive(Clone, Copy, Debug)]
pub struct Vector2 {
    pub x: Binary64,
    pub y: Binary64,
}

/// A vector that is to be divided, component by component, by a number.
#[derive(Clone, Copy, Debug)]
pub struct Quotient {
    pub dividend: Vector2,
    pub divisor: Binary64,
}

impl Vector2 {
    /// The vector of two positive zeros.
    pub open spec fn spec_origin() -> Vector2 {
        Vector2 { x: Binary64 { bits: 0 }, y: Binary64 { bits: 0 } }
    }

    /// Both components are equal as numbers.
    pub open spec fn same_vector(self, other: Vector2) -> bool {
        self.x.same_number(other.x) && self.y.same_number(other.y)
    }

    /// The vector with the given components, kept as they are.
    pub fn new(x: Binary64, y: Binary64) -> (v: Vector2)
        ensures
            v.x == x,
            v.y == y,
    {
        Vector2 { x, y }
    }

    /// The vector `(0, 0)`.
    #[verifier::when_used_as_spec(spec_origin)]
    pub fn origin() -> (v: Vector2)
        ensures
            v == Self::spec_origin(),
    {
        Vector2 { x: Binary64::from_bits(0), y: Binary64::from_bits(0) }
    }

    /// Normalisation, given the vector's length `norm`.
    ///
    /// A vector of length zero has no direction: the result is then the error, and its
    /// payload is the origin. Otherwise the unit vector is this vector divided by its
    /// length, and the result says so; the division is the caller's to carry out.
    pub fn unit(&self, norm: Binary64) -> (r: Result<Quotient, Vector2>)
        ensures
            norm.zero() ==> r == Err::<Quotient, Vector2>(Self::spec_origin()),
            !norm.zero() ==> r == Ok::<Quotient, Vector2>(
                (Quotient { dividend: *self, divisor: norm }),
            ),
    {
        if norm.is_zero() {
            Err(Vector2::origin())
        } else {
            Ok(Quotient { dividend: *self, divisor: norm })
        }
    }
}

impl PartialEq for Vector2 {
    /// Two vectors are equal when their components are, as numbers.
    fn eq(&self, other: &Vector2) -> (r: bool) {
        self.x == other.x && self.y == other.y
    }
}

impl vstd::std_specs::cmp::PartialEqSpecImpl for Vector2 {
    open spec fn obeys_eq_spec() -> bool {
        true
    }

    open spec fn eq_spec(&self, other: &Vector2) -> bool {
        self.same_vector(*other)
    }
}

/// Equality of vectors is symmetric and transitive; a vector equals itself unless one of
/// its components is a NaN.
pub proof fn equality_is_a_partial_equivalence(a: Vector2, b: Vector2, c: Vector2)
    ensures
        a.same_vector(b) == b.same_vector(a),
        a.same_vector(b) && b.same_vector(c) ==> a.same_vector(c),
        a.same_vector(a) == (!a.x.nan() && !a.y.nan()),
{
}

/// The vectors equal to the origin are those whose components are zeros, of either sign.
pub proof fn equals_origin_iff_components_are_zero(v: Vector2)
    ensures
        v.same_vector(Vector2::spec_origin()) == (v.x.zero() && v.y.zero()),
{
}

} // verus!
