//! The numbers that tensors hold.
//!
//! Every operator is written against these two traits, so that the same
//! verified code serves any number type whose arithmetic is a function of
//! its operands. A value of such a type is its own mathematical model.

use vstd::prelude::*;

verus! {

/// A number with addition, subtraction, multiplication and an order.
///
/// Each executable operation returns exactly what its specification
/// function names. No algebraic identity is asked of an implementor:
/// where a theorem needs one, it says so in its hypotheses.
pub trait Scalar: Copy + Sized {
    /// The additive identity.
    spec fn zero_spec() -> Self;

    /// The multiplicative identity.
    spec fn one_spec() -> Self;

    /// The sum of two numbers.
    spec fn add_spec(self, rhs: Self) -> Self;

    /// The difference of two numbers.
    spec fn sub_spec(self, rhs: Self) -> Self;

    /// The product of two numbers.
    spec fn mul_spec(self, rhs: Self) -> Self;

    /// Whether `self` is strictly below `rhs`.
    spec fn lt_spec(self, rhs: Self) -> bool;

    /// Whether the number carries a positive sign; zero counts as positive.
    spec fn sign_positive_spec(self) -> bool;

    fn zero() -> (z: Self)
        ensures
            z == Self::zero_spec(),
    ;

    fn one() -> (o: Self)
        ensures
            o == Self::one_spec(),
    ;

    fn add(self, rhs: Self) -> (sum: Self)
        ensures
            sum == self.add_spec(rhs),
    ;

    fn sub(self, rhs: Self) -> (difference: Self)
        ensures
            difference == self.sub_spec(rhs),
    ;

    fn mul(self, rhs: Self) -> (product: Self)
        ensures
            product == self.mul_spec(rhs),
    ;

    fn lt(self, rhs: Self) -> (below: bool)
        ensures
            below == self.lt_spec(rhs),
    ;

    fn is_sign_positive(self) -> (positive: bool)
        ensures
            positive == self.sign_positive_spec(),
    ;
}

/// A number that can stand for a fractional coordinate: it can be
/// divided, rounded to a whole coordinate and has a square root.
pub trait Real: Scalar {
    /// One half.
    spec fn half_spec() -> Self;

    /// The number that stands for an index.
    spec fn from_index_spec(index: usize) -> Self;

    /// The number that stands for a whole coordinate.
    spec fn from_whole_spec(whole: i64) -> Self;

    /// The quotient of two numbers.
    spec fn div_spec(self, rhs: Self) -> Self;

    /// The square root of the number.
    spec fn sqrt_spec(self) -> Self;

    /// The greatest whole coordinate that is not above the number.
    spec fn floor_spec(self) -> i64;

    /// The least whole coordinate that is not below the number.
    spec fn ceil_spec(self) -> i64;

    fn half() -> (h: Self)
        ensures
            h == Self::half_spec(),
    ;

    fn from_index(index: usize) -> (number: Self)
        ensures
            number == Self::from_index_spec(index),
    ;

    fn from_whole(whole: i64) -> (number: Self)
        ensures
            number == Self::from_whole_spec(whole),
    ;

    fn div(self, rhs: Self) -> (quotient: Self)
        ensures
            quotient == self.div_spec(rhs),
    ;

    fn sqrt(self) -> (root: Self)
        ensures
            root == self.sqrt_spec(),
    ;

    fn floor(self) -> (whole: i64)
        ensures
            whole == self.floor_spec(),
    ;

    fn ceil(self) -> (whole: i64)
        ensures
            whole == self.ceil_spec(),
    ;
}

} // verus!
