//! Operators on single numbers, to be mapped over tensors.

use crate::delta::{ChainData, EmptyData};
use crate::each::update_is_unique;
use crate::operator::{Backward, Forward, Train};
use crate::norm::{ratio, ratio_spec};
use crate::scalar::{Real, Scalar};
use core::marker::PhantomData;
use vstd::prelude::*;

verus! {

/// The ramp: zero below zero, the number itself from zero on.
pub open spec fn relu_spec<T: Scalar>(n: T) -> T {
    if n.lt_spec(T::zero_spec()) {
        T::zero_spec()
    } else {
        n
    }
}

/// The step: one for a number of positive sign, zero for another.
pub open spec fn heaviside_spec<T: Scalar>(n: T) -> T {
    if n.sign_positive_spec() {
        T::one_spec()
    } else {
        T::zero_spec()
    }
}

/// The number without its sign.
pub open spec fn abs_spec<T: Scalar>(n: T) -> T {
    if n.sign_positive_spec() {
        n
    } else {
        T::zero_spec().sub_spec(n)
    }
}

/// One for a number of positive sign, minus one for another.
pub open spec fn signum_spec<T: Scalar>(n: T) -> T {
    if n.sign_positive_spec() {
        T::one_spec()
    } else {
        T::zero_spec().sub_spec(T::one_spec())
    }
}

/// The ramp.
pub fn relu<T: Scalar>(n: T) -> (out: T)
    ensures
        out == relu_spec(n),
{
    if n.lt(T::zero()) {
        T::zero()
    } else {
        n
    }
}

/// The step, taken as the slope of the ramp.
pub fn heaviside<T: Scalar>(n: T) -> (out: T)
    ensures
        out == heaviside_spec(n),
{
    if n.is_sign_positive() {
        T::one()
    } else {
        T::zero()
    }
}

/// The ramp as an operator.
#[derive(Debug)]
pub struct Relu<T>(pub PhantomData<T>);

/// The absolute value as an operator.
#[derive(Debug)]
pub struct Abs<T>(pub PhantomData<T>);

/// The square as an operator.
#[derive(Debug)]
pub struct Square<T>(pub PhantomData<T>);

/// A single trainable number that is added to the input.
#[derive(Clone, Copy, Debug)]
pub struct SingleBias<T>(pub T);

impl<T> Relu<T> {
    pub fn new() -> (operator: Relu<T>) {
        Relu(PhantomData)
    }
}

impl<T> Abs<T> {
    pub fn new() -> (operator: Abs<T>) {
        Abs(PhantomData)
    }
}

impl<T> Square<T> {
    pub fn new() -> (operator: Square<T>) {
        Square(PhantomData)
    }
}

impl<T: Scalar> Forward for Relu<T> {
    type Input = T;

    type Internal = EmptyData;

    type Output = T;

    open spec fn accepts(&self, input: &T) -> bool {
        true
    }

    open spec fn yields(&self, input: &T, internal: &EmptyData, output: &T) -> bool {
        *output == relu_spec(*input)
    }

    fn forward(&self, input: &T) -> (both: (EmptyData, T)) {
        (EmptyData, relu(*input))
    }
}

impl<T: Scalar> Backward for Relu<T> {
    type OutputDelta = T;

    type InputDelta = T;

    type TrainDelta = EmptyData;

    open spec fn accepts_back(&self, input: &T, internal: &EmptyData, output_delta: &T) -> bool {
        true
    }

    /// The gradient passes where the input has a positive sign.
    open spec fn sends_back(
        &self,
        input: &T,
        internal: &EmptyData,
        output_delta: &T,
        input_delta: &T,
        train_delta: &EmptyData,
    ) -> bool {
        *input_delta == heaviside_spec(*input).mul_spec(*output_delta)
    }

    fn backward(&self, input: &T, internal: &EmptyData, output_delta: &T) -> (both: (T, EmptyData)) {
        (heaviside(*input).mul(*output_delta), EmptyData)
    }
}

impl<T: Scalar> Train for Relu<T> {
    open spec fn accepts_update(&self, train_delta: &EmptyData) -> bool {
        true
    }

    /// There is nothing to train: the operator stays as it is.
    open spec fn trains_to(&self, train_delta: &EmptyData, after: &Self) -> bool {
        *after == *self
    }

    fn train(&mut self, train_delta: &EmptyData) {
    }
}

impl<T: Scalar> Forward for Abs<T> {
    type Input = T;

    type Internal = EmptyData;

    type Output = T;

    open spec fn accepts(&self, input: &T) -> bool {
        true
    }

    open spec fn yields(&self, input: &T, internal: &EmptyData, output: &T) -> bool {
        *output == abs_spec(*input)
    }

    fn forward(&self, input: &T) -> (both: (EmptyData, T)) {
        let output: T = if input.is_sign_positive() {
            *input
        } else {
            T::zero().sub(*input)
        };
        (EmptyData, output)
    }
}

impl<T: Scalar> Backward for Abs<T> {
    type OutputDelta = T;

    type InputDelta = T;

    type TrainDelta = EmptyData;

    open spec fn accepts_back(&self, input: &T, internal: &EmptyData, output_delta: &T) -> bool {
        true
    }

    /// The gradient keeps or changes its sign with the input's sign.
    open spec fn sends_back(
        &self,
        input: &T,
        internal: &EmptyData,
        output_delta: &T,
        input_delta: &T,
        train_delta: &EmptyData,
    ) -> bool {
        *input_delta == signum_spec(*input).mul_spec(*output_delta)
    }

    fn backward(&self, input: &T, internal: &EmptyData, output_delta: &T) -> (both: (T, EmptyData)) {
        let slope: T = if input.is_sign_positive() {
            T::one()
        } else {
            T::zero().sub(T::one())
        };
        (slope.mul(*output_delta), EmptyData)
    }
}

impl<T: Scalar> Train for Abs<T> {
    open spec fn accepts_update(&self, train_delta: &EmptyData) -> bool {
        true
    }

    /// There is nothing to train: the operator stays as it is.
    open spec fn trains_to(&self, train_delta: &EmptyData, after: &Self) -> bool {
        *after == *self
    }

    fn train(&mut self, train_delta: &EmptyData) {
    }
}

impl<T: Scalar> Forward for Square<T> {
    type Input = T;

    type Internal = EmptyData;

    type Output = T;

    open spec fn accepts(&self, input: &T) -> bool {
        true
    }

    open spec fn yields(&self, input: &T, internal: &EmptyData, output: &T) -> bool {
        *output == input.mul_spec(*input)
    }

    fn forward(&self, input: &T) -> (both: (EmptyData, T)) {
        (EmptyData, input.mul(*input))
    }
}

impl<T: Scalar> Backward for Square<T> {
    type OutputDelta = T;

    type InputDelta = T;

    type TrainDelta = EmptyData;

    open spec fn accepts_back(&self, input: &T, internal: &EmptyData, output_delta: &T) -> bool {
        true
    }

    /// The gradient is multiplied by twice the input.
    open spec fn sends_back(
        &self,
        input: &T,
        internal: &EmptyData,
        output_delta: &T,
        input_delta: &T,
        train_delta: &EmptyData,
    ) -> bool {
        *input_delta == T::one_spec().add_spec(T::one_spec()).mul_spec(*input).mul_spec(
            *output_delta,
        )
    }

    fn backward(&self, input: &T, internal: &EmptyData, output_delta: &T) -> (both: (T, EmptyData)) {
        (T::one().add(T::one()).mul(*input).mul(*output_delta), EmptyData)
    }
}

impl<T: Scalar> Train for Square<T> {
    open spec fn accepts_update(&self, train_delta: &EmptyData) -> bool {
        true
    }

    /// There is nothing to train: the operator stays as it is.
    open spec fn trains_to(&self, train_delta: &EmptyData, after: &Self) -> bool {
        *after == *self
    }

    fn train(&mut self, train_delta: &EmptyData) {
    }
}

impl<T: Scalar> Forward for SingleBias<T> {
    type Input = T;

    type Internal = EmptyData;

    type Output = T;

    open spec fn accepts(&self, input: &T) -> bool {
        true
    }

    open spec fn yields(&self, input: &T, internal: &EmptyData, output: &T) -> bool {
        *output == input.add_spec(self.0)
    }

    fn forward(&self, input: &T) -> (both: (EmptyData, T)) {
        (EmptyData, input.add(self.0))
    }
}

impl<T: Scalar> Backward for SingleBias<T> {
    type OutputDelta = T;

    type InputDelta = T;

    type TrainDelta = T;

    open spec fn accepts_back(&self, input: &T, internal: &EmptyData, output_delta: &T) -> bool {
        true
    }

    /// The gradient passes unchanged, to the input and to the bias.
    open spec fn sends_back(
        &self,
        input: &T,
        internal: &EmptyData,
        output_delta: &T,
        input_delta: &T,
        train_delta: &T,
    ) -> bool {
        *input_delta == *output_delta && *train_delta == *output_delta
    }

    fn backward(&self, input: &T, internal: &EmptyData, output_delta: &T) -> (both: (T, T)) {
        (*output_delta, *output_delta)
    }
}

impl<T: Scalar> Train for SingleBias<T> {
    open spec fn accepts_update(&self, train_delta: &T) -> bool {
        true
    }

    open spec fn trains_to(&self, train_delta: &T, after: &Self) -> bool {
        after.0 == self.0.add_spec(*train_delta)
    }

    fn train(&mut self, train_delta: &T) {
        self.0 = self.0.add(*train_delta);
    }
}

/// What a single bias sends back decides its update.
pub proof fn lemma_single_bias_update_is_unique<T: Scalar>(bias: SingleBias<T>)
    ensures
        update_is_unique(&bias),
{
}

/// A bendable unit: `beta * (sqrt(x * x + alpha * alpha + e) - alpha) + x`
/// with a small `e`, one thousandth, that keeps the root away from zero.
#[derive(Clone, Copy, Debug)]
pub struct Blu<T> {
    pub alpha: T,
    pub beta: T,
}

/// The root that the bendable unit is built on.
pub open spec fn blu_root<T: Real>(a: T, x: T) -> T {
    x.mul_spec(x).add_spec(a.mul_spec(a)).add_spec(ratio_spec(1, 1000)).sqrt_spec()
}

/// The bendable unit.
pub open spec fn blu_spec<T: Real>(a: T, b: T, x: T) -> T {
    b.mul_spec(blu_root(a, x).sub_spec(a)).add_spec(x)
}

/// How the bendable unit changes with its input.
pub open spec fn dblu_dx_spec<T: Real>(a: T, b: T, x: T) -> T {
    b.mul_spec(x).div_spec(blu_root(a, x)).add_spec(T::one_spec())
}

/// How the bendable unit changes with `alpha`.
pub open spec fn dblu_da_spec<T: Real>(a: T, b: T, x: T) -> T {
    b.mul_spec(a.div_spec(blu_root(a, x)).sub_spec(T::one_spec()))
}

/// How the bendable unit changes with `beta`.
pub open spec fn dblu_db_spec<T: Real>(a: T, x: T) -> T {
    blu_root(a, x).sub_spec(a)
}

fn root<T: Real>(a: T, x: T) -> (out: T)
    ensures
        out == blu_root(a, x),
{
    x.mul(x).add(a.mul(a)).add(ratio(1, 1000)).sqrt()
}

/// The bendable unit.
pub fn blu<T: Real>(a: T, b: T, x: T) -> (out: T)
    ensures
        out == blu_spec(a, b, x),
{
    b.mul(root(a, x).sub(a)).add(x)
}

/// How the bendable unit changes with its input.
pub fn dblu_dx<T: Real>(a: T, b: T, x: T) -> (out: T)
    ensures
        out == dblu_dx_spec(a, b, x),
{
    b.mul(x).div(root(a, x)).add(T::one())
}

/// How the bendable unit changes with `alpha`.
pub fn dblu_da<T: Real>(a: T, b: T, x: T) -> (out: T)
    ensures
        out == dblu_da_spec(a, b, x),
{
    b.mul(a.div(root(a, x)).sub(T::one()))
}

/// How the bendable unit changes with `beta`.
pub fn dblu_db<T: Real>(a: T, x: T) -> (out: T)
    ensures
        out == dblu_db_spec(a, x),
{
    root(a, x).sub(a)
}

impl<T> Blu<T> {
    pub fn new(alpha: T, beta: T) -> (operator: Blu<T>)
        ensures
            operator.alpha == alpha,
            operator.beta == beta,
    {
        Blu { alpha, beta }
    }
}

impl<T: Real> Forward for Blu<T> {
    type Input = T;

    type Internal = EmptyData;

    type Output = T;

    open spec fn accepts(&self, input: &T) -> bool {
        true
    }

    open spec fn yields(&self, input: &T, internal: &EmptyData, output: &T) -> bool {
        *output == blu_spec(self.alpha, self.beta, *input)
    }

    fn forward(&self, input: &T) -> (both: (EmptyData, T)) {
        (EmptyData, blu(self.alpha, self.beta, *input))
    }
}

impl<T: Real> Backward for Blu<T> {
    type OutputDelta = T;

    type InputDelta = T;

    type TrainDelta = ChainData<T, T>;

    open spec fn accepts_back(&self, input: &T, internal: &EmptyData, output_delta: &T) -> bool {
        true
    }

    /// The update holds the gradient of `alpha` and that of `beta`.
    open spec fn sends_back(
        &self,
        input: &T,
        internal: &EmptyData,
        output_delta: &T,
        input_delta: &T,
        train_delta: &ChainData<T, T>,
    ) -> bool {
        &&& *input_delta == dblu_dx_spec(self.alpha, self.beta, *input).mul_spec(*output_delta)
        &&& train_delta.0 == dblu_da_spec(self.alpha, self.beta, *input).mul_spec(*output_delta)
        &&& train_delta.1 == dblu_db_spec(self.alpha, *input).mul_spec(*output_delta)
    }

    fn backward(&self, input: &T, internal: &EmptyData, output_delta: &T) -> (both: (
        T,
        ChainData<T, T>,
    )) {
        (
            dblu_dx(self.alpha, self.beta, *input).mul(*output_delta),
            ChainData(
                dblu_da(self.alpha, self.beta, *input).mul(*output_delta),
                dblu_db(self.alpha, *input).mul(*output_delta),
            ),
        )
    }
}

impl<T: Real> Train for Blu<T> {
    open spec fn accepts_update(&self, train_delta: &ChainData<T, T>) -> bool {
        true
    }

    open spec fn trains_to(&self, train_delta: &ChainData<T, T>, after: &Blu<T>) -> bool {
        &&& after.alpha == self.alpha.add_spec(train_delta.0)
        &&& after.beta == self.beta.add_spec(train_delta.1)
    }

    fn train(&mut self, train_delta: &ChainData<T, T>) {
        self.alpha = self.alpha.add(train_delta.0);
        self.beta = self.beta.add(train_delta.1);
    }
}

} // verus!
