//! The algebra of accumulated parameter updates.
//!
//! Updates are summed over a batch and scaled by a learning rate before
//! they are applied, so every update type offers addition, and most offer
//! a zero to start a sum from.

use crate::each::{sum_is_unique, zero_is_unique};
use crate::fixed::{lemma_fixed_exact, Fixed};
use crate::ndeep::Ndeep;
use crate::scalar::Scalar;
use crate::tensor::Tensor2;
use vstd::prelude::*;

verus! {

/// An update that can be added to another of the same shape.
pub trait Delta: Sized {
    /// Whether the two updates have the same shape.
    spec fn fits(&self, other: &Self) -> bool;

    /// Whether `self` is the sum of the two updates.
    spec fn sum_of(&self, left: &Self, right: &Self) -> bool;

    /// Whether `self` is the product, part by part, of the two updates.
    spec fn product_of(&self, left: &Self, right: &Self) -> bool;

    fn add(self, rhs: Self) -> (sum: Self)
        requires
            self.fits(&rhs),
        ensures
            sum.sum_of(&self, &rhs),
    ;

    fn mul(self, rhs: Self) -> (product: Self)
        requires
            self.fits(&rhs),
        ensures
            product.product_of(&self, &rhs),
    ;
}

/// An update type with a zero and a one that fit every update.
pub trait DeltaUnit: Delta {
    /// Whether `self` is the zero update.
    spec fn is_zero_spec(&self) -> bool;

    /// Whether `self` is the update whose every part is one.
    spec fn is_one_spec(&self) -> bool;

    /// In such a type all updates have one shape.
    proof fn lemma_fits(left: &Self, right: &Self)
        ensures
            left.fits(right),
    ;

    fn zero() -> (z: Self)
        ensures
            z.is_zero_spec(),
    ;

    fn one() -> (o: Self)
        ensures
            o.is_one_spec(),
    ;

    fn is_zero(&self) -> (zero: bool)
        ensures
            zero == self.is_zero_spec(),
    ;
}

/// An update that can be scaled, or shifted part by part, by a number.
pub trait Scale<S>: Sized {
    /// Whether the update is in a state to be scaled.
    spec fn sound(&self) -> bool;

    /// Whether `self` is `of` with every part multiplied by `by`.
    spec fn scaled_from(&self, of: &Self, by: S) -> bool;

    /// Whether `self` is `of` with `by` added to every part.
    spec fn shifted_from(&self, of: &Self, by: S) -> bool;

    fn scale(self, by: S) -> (scaled: Self)
        requires
            self.sound(),
        ensures
            scaled.scaled_from(&self, by),
    ;

    fn shift(self, by: S) -> (shifted: Self)
        requires
            self.sound(),
        ensures
            shifted.shifted_from(&self, by),
    ;
}

/// The update of an operator that has nothing to train.
#[derive(Clone, Copy, Debug, Default, PartialEq, Eq, Structural)]
pub struct EmptyData;

impl Delta for EmptyData {
    open spec fn fits(&self, other: &EmptyData) -> bool {
        true
    }

    open spec fn sum_of(&self, left: &EmptyData, right: &EmptyData) -> bool {
        true
    }

    open spec fn product_of(&self, left: &EmptyData, right: &EmptyData) -> bool {
        true
    }

    fn add(self, rhs: EmptyData) -> (sum: EmptyData) {
        EmptyData
    }

    fn mul(self, rhs: EmptyData) -> (product: EmptyData) {
        EmptyData
    }
}

impl DeltaUnit for EmptyData {
    open spec fn is_zero_spec(&self) -> bool {
        true
    }

    open spec fn is_one_spec(&self) -> bool {
        true
    }

    proof fn lemma_fits(left: &EmptyData, right: &EmptyData) {
    }

    fn zero() -> (z: EmptyData) {
        EmptyData
    }

    fn one() -> (o: EmptyData) {
        EmptyData
    }

    fn is_zero(&self) -> (zero: bool) {
        true
    }
}

impl<S> Scale<S> for EmptyData {
    open spec fn sound(&self) -> bool {
        true
    }

    open spec fn scaled_from(&self, of: &EmptyData, by: S) -> bool {
        true
    }

    open spec fn shifted_from(&self, of: &EmptyData, by: S) -> bool {
        true
    }

    fn scale(self, by: S) -> (scaled: EmptyData) {
        EmptyData
    }

    fn shift(self, by: S) -> (shifted: EmptyData) {
        EmptyData
    }
}

/// The update of two operators that were put together: one part each.
#[derive(Clone, Debug, Default, PartialEq, Eq)]
pub struct ChainData<A, B>(pub A, pub B);

impl<A: Delta, B: Delta> Delta for ChainData<A, B> {
    open spec fn fits(&self, other: &ChainData<A, B>) -> bool {
        self.0.fits(&other.0) && self.1.fits(&other.1)
    }

    open spec fn sum_of(&self, left: &ChainData<A, B>, right: &ChainData<A, B>) -> bool {
        self.0.sum_of(&left.0, &right.0) && self.1.sum_of(&left.1, &right.1)
    }

    open spec fn product_of(&self, left: &ChainData<A, B>, right: &ChainData<A, B>) -> bool {
        self.0.product_of(&left.0, &right.0) && self.1.product_of(&left.1, &right.1)
    }

    fn add(self, rhs: ChainData<A, B>) -> (sum: ChainData<A, B>) {
        ChainData(self.0.add(rhs.0), self.1.add(rhs.1))
    }

    fn mul(self, rhs: ChainData<A, B>) -> (product: ChainData<A, B>) {
        ChainData(self.0.mul(rhs.0), self.1.mul(rhs.1))
    }
}

impl<A: DeltaUnit, B: DeltaUnit> DeltaUnit for ChainData<A, B> {
    open spec fn is_zero_spec(&self) -> bool {
        self.0.is_zero_spec() && self.1.is_zero_spec()
    }

    open spec fn is_one_spec(&self) -> bool {
        self.0.is_one_spec() && self.1.is_one_spec()
    }

    proof fn lemma_fits(left: &ChainData<A, B>, right: &ChainData<A, B>) {
        A::lemma_fits(&left.0, &right.0);
        B::lemma_fits(&left.1, &right.1);
    }

    fn zero() -> (z: ChainData<A, B>) {
        ChainData(A::zero(), B::zero())
    }

    fn one() -> (o: ChainData<A, B>) {
        ChainData(A::one(), B::one())
    }

    fn is_zero(&self) -> (zero: bool) {
        self.0.is_zero() && self.1.is_zero()
    }
}

impl<S: Copy, A: Scale<S>, B: Scale<S>> Scale<S> for ChainData<A, B> {
    open spec fn sound(&self) -> bool {
        self.0.sound() && self.1.sound()
    }

    open spec fn scaled_from(&self, of: &ChainData<A, B>, by: S) -> bool {
        self.0.scaled_from(&of.0, by) && self.1.scaled_from(&of.1, by)
    }

    open spec fn shifted_from(&self, of: &ChainData<A, B>, by: S) -> bool {
        self.0.shifted_from(&of.0, by) && self.1.shifted_from(&of.1, by)
    }

    fn scale(self, by: S) -> (scaled: ChainData<A, B>) {
        ChainData(self.0.scale(by), self.1.scale(by))
    }

    fn shift(self, by: S) -> (shifted: ChainData<A, B>) {
        ChainData(self.0.shift(by), self.1.shift(by))
    }
}

impl Delta for Fixed {
    open spec fn fits(&self, other: &Fixed) -> bool {
        true
    }

    open spec fn sum_of(&self, left: &Fixed, right: &Fixed) -> bool {
        *self == left.add_spec(*right)
    }

    open spec fn product_of(&self, left: &Fixed, right: &Fixed) -> bool {
        *self == left.mul_spec(*right)
    }

    fn add(self, rhs: Fixed) -> (sum: Fixed) {
        Scalar::add(self, rhs)
    }

    fn mul(self, rhs: Fixed) -> (product: Fixed) {
        Scalar::mul(self, rhs)
    }
}

impl DeltaUnit for Fixed {
    open spec fn is_zero_spec(&self) -> bool {
        *self == <Fixed as Scalar>::zero_spec()
    }

    open spec fn is_one_spec(&self) -> bool {
        *self == <Fixed as Scalar>::one_spec()
    }

    proof fn lemma_fits(left: &Fixed, right: &Fixed) {
    }

    fn zero() -> (z: Fixed) {
        Fixed { raw: 0 }
    }

    fn one() -> (o: Fixed) {
        Fixed { raw: 65536 }
    }

    fn is_zero(&self) -> (zero: bool) {
        self.raw == 0
    }
}

impl Scale<Fixed> for Fixed {
    open spec fn sound(&self) -> bool {
        true
    }

    open spec fn scaled_from(&self, of: &Fixed, by: Fixed) -> bool {
        *self == of.mul_spec(by)
    }

    open spec fn shifted_from(&self, of: &Fixed, by: Fixed) -> bool {
        *self == of.add_spec(by)
    }

    fn scale(self, by: Fixed) -> (scaled: Fixed) {
        Scalar::mul(self, by)
    }

    fn shift(self, by: Fixed) -> (shifted: Fixed) {
        Scalar::add(self, by)
    }
}

/// Fixed-point numbers have one sum and one zero.
pub proof fn lemma_fixed_sums_are_unique()
    ensures
        sum_is_unique::<Fixed>(),
        zero_is_unique::<Fixed>(),
{
}

/// The empty update has one sum and one zero.
pub proof fn lemma_empty_sums_are_unique()
    ensures
        sum_is_unique::<EmptyData>(),
        zero_is_unique::<EmptyData>(),
{
}

/// Whether a sum does not depend on the order of its two updates.
pub open spec fn sum_commutes<D: Delta>() -> bool {
    forall|left: D, right: D, sum: D| #[trigger] sum.sum_of(&left, &right) ==> sum.sum_of(&right, &left)
}

/// Whether adding a zero leaves an update as it is.
pub open spec fn zero_is_neutral<D: DeltaUnit>() -> bool {
    forall|update: D, zero: D, sum: D|
        zero.is_zero_spec() && #[trigger] sum.sum_of(&update, &zero) ==> sum == update
}

/// Sums of fixed-point numbers commute, and zero is neutral.
pub proof fn lemma_fixed_sum_commutes()
    ensures
        sum_commutes::<Fixed>(),
        zero_is_neutral::<Fixed>(),
{
}

/// Sums of empty updates commute, and the empty update is neutral.
pub proof fn lemma_empty_sum_commutes()
    ensures
        sum_commutes::<EmptyData>(),
        zero_is_neutral::<EmptyData>(),
{
}

/// Where the sums of both parts commute, so do the sums of the whole.
pub proof fn lemma_chain_data_sum_commutes<A: Delta, B: Delta>()
    requires
        sum_commutes::<A>(),
        sum_commutes::<B>(),
    ensures
        sum_commutes::<ChainData<A, B>>(),
{
    assert forall|left: ChainData<A, B>, right: ChainData<A, B>, sum: ChainData<A, B>| #[trigger]
        sum.sum_of(&left, &right) implies sum.sum_of(&right, &left) by {
        assert(sum.0.sum_of(&left.0, &right.0));
        assert(sum.1.sum_of(&left.1, &right.1));
    }
}

/// Where zero is neutral in both parts, it is neutral in the whole.
pub proof fn lemma_chain_data_zero_is_neutral<A: DeltaUnit, B: DeltaUnit>()
    requires
        zero_is_neutral::<A>(),
        zero_is_neutral::<B>(),
    ensures
        zero_is_neutral::<ChainData<A, B>>(),
{
    assert forall|update: ChainData<A, B>, zero: ChainData<A, B>, sum: ChainData<A, B>|
        zero.is_zero_spec() && #[trigger] sum.sum_of(&update, &zero) implies sum == update by {
        assert(sum.0.sum_of(&update.0, &zero.0));
        assert(sum.1.sum_of(&update.1, &zero.1));
    }
}

/// Sums of fixed-point numbers associate as long as nothing saturates.
pub proof fn lemma_fixed_sum_associates(a: Fixed, b: Fixed, c: Fixed)
    requires
        i64::MIN <= a.raw + b.raw <= i64::MAX,
        i64::MIN <= b.raw + c.raw <= i64::MAX,
        i64::MIN <= a.raw + b.raw + c.raw <= i64::MAX,
    ensures
        a.add_spec(b).add_spec(c) == a.add_spec(b.add_spec(c)),
{
}

/// An update of fixed-point numbers, scaled by zero, is a zero of its
/// shape: added to an update of that shape it leaves every cell as it
/// is. So a sum over a batch can start from any update times zero.
pub proof fn lemma_scaled_by_zero_is_neutral(
    update: Ndeep<Tensor2<Fixed>>,
    zero: Ndeep<Tensor2<Fixed>>,
    other: Ndeep<Tensor2<Fixed>>,
    sum: Ndeep<Tensor2<Fixed>>,
)
    requires
        zero.scaled_from(&update, <Fixed as Scalar>::zero_spec()),
        other.0.wf(),
        other.0.same_shape(&update.0),
        sum.sum_of(&other, &zero),
    ensures
        sum.0.same_shape(&other.0),
        forall|r: int, c: int| other.0.holds(r, c) ==> #[trigger] sum.0.at(r, c) == other.0.at(r, c),
{
    assert forall|r: int, c: int| other.0.holds(r, c) implies #[trigger] sum.0.at(r, c) == other.0.at(
        r,
        c,
    ) by {
        assert(update.0.holds(r, c));
        lemma_fixed_exact(update.0.at(r, c));
        lemma_fixed_exact(other.0.at(r, c));
        assert(update.0.at(r, c).raw * 0 == 0) by (nonlinear_arith);
        assert(zero.0.at(r, c) == <Fixed as Scalar>::zero_spec());
    }
}

} // verus!
