//! The numbers a homography is computed over.
//!
//! The estimation pipeline never looks inside a coordinate: it only negates,
//! subtracts and multiplies, and needs the two constants zero and one. A
//! [`Scalar`] names exactly these operations twice, once for specifications
//! and once for running code, so that every entry of a constraint block can be
//! stated as an expression over the inputs.
use vstd::prelude::*;

verus! {

/// A number type with the operations the constraint formulas use.
///
/// No algebraic law is asked of an implementation: the contracts of this
/// crate say which operation is applied to which operands, and nothing about
/// rounding. Each executable operation returns what its specification twin
/// names.
pub trait Scalar: Copy + Sized {
    /// The additive identity.
    spec fn zero_value() -> Self;

    /// The multiplicative identity.
    spec fn one_value() -> Self;

    /// `-self`.
    spec fn negation(self) -> Self;

    /// `self - other`.
    spec fn difference(self, other: Self) -> Self;

    /// `self * other`.
    spec fn product(self, other: Self) -> Self;

    fn zero() -> (r: Self)
        ensures
            r == Self::zero_value(),
    ;

    fn one() -> (r: Self)
        ensures
            r == Self::one_value(),
    ;

    fn negate(self) -> (r: Self)
        ensures
            r == self.negation(),
    ;

    fn minus(self, other: Self) -> (r: Self)
        ensures
            r == self.difference(other),
    ;

    fn times(self, other: Self) -> (r: Self)
        ensures
            r == self.product(other),
    ;
}

/// Machine integers, with arithmetic modulo 2^64: exact whenever the true
/// result fits, which it does for pixel coordinates by a wide margin.
impl Scalar for i64 {
    open spec fn zero_value() -> i64 {
        0
    }

    open spec fn one_value() -> i64 {
        1
    }

    open spec fn negation(self) -> i64 {
        0i64.wrapping_sub(self)
    }

    open spec fn difference(self, other: i64) -> i64 {
        self.wrapping_sub(other)
    }

    open spec fn product(self, other: i64) -> i64 {
        self.wrapping_mul(other)
    }

    fn zero() -> (r: i64) {
        0
    }

    fn one() -> (r: i64) {
        1
    }

    fn negate(self) -> (r: i64) {
        0i64.wrapping_sub(self)
    }

    fn minus(self, other: i64) -> (r: i64) {
        self.wrapping_sub(other)
    }

    fn times(self, other: i64) -> (r: i64) {
        self.wrapping_mul(other)
    }
}

/// Where nothing overflows, the integer operations are the mathematical ones.
pub proof fn integer_operations_exact(a: i64, b: i64)
    ensures
        i64::MIN < a ==> a.negation() == -a,
        i64::MIN <= a - b <= i64::MAX ==> a.difference(b) == a - b,
        i64::MIN <= a * b <= i64::MAX ==> a.product(b) == a * b,
{
}

} // verus!
