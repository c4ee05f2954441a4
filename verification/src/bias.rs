//! Trainable tensors that are added to, multiplied with, or stand in for
//! the input.

use crate::cellwise::CellOp;
use crate::delta::EmptyData;
use crate::ndeep::Ndeep;
use crate::operator::{Backward, Forward, Train};
use crate::scalar::Scalar;
use crate::tensor::{Array, Tensor1};
use vstd::prelude::*;

verus! {

/// A tensor of biases: the output is the input with the bias at each
/// place added.
#[derive(Debug)]
pub struct Bias<T, D>(pub Array<T, D>);

/// Biases for an input of one axis.
#[derive(Debug)]
pub struct Bias1<T>(pub Tensor1<T>);

/// A tensor of weights: the output is the input with the weight at each
/// place multiplied in.
#[derive(Debug)]
pub struct Weight<T, D>(pub Array<T, D>);

/// A trainable tensor that takes no input and puts itself out.
#[derive(Debug)]
pub struct Variable<T, D>(pub Array<T, D>);

impl<T, D> Bias<T, D> {
    pub fn new(biases: Array<T, D>) -> (operator: Bias<T, D>)
        ensures
            operator.0 == biases,
    {
        Bias(biases)
    }
}

impl<T> Bias1<T> {
    pub fn new(biases: Tensor1<T>) -> (operator: Bias1<T>)
        ensures
            operator.0 == biases,
    {
        Bias1(biases)
    }
}

impl<T, D> Weight<T, D> {
    pub fn new(weights: Array<T, D>) -> (operator: Weight<T, D>)
        ensures
            operator.0 == weights,
    {
        Weight(weights)
    }
}

impl<T: Scalar, D: Copy> Forward for Bias<T, D> {
    type Input = Array<T, D>;

    type Internal = EmptyData;

    type Output = Array<T, D>;

    open spec fn accepts(&self, input: &Array<T, D>) -> bool {
        input.same_shape(&self.0)
    }

    open spec fn yields(&self, input: &Array<T, D>, internal: &EmptyData, output: &Array<T, D>) -> bool {
        output.zipped_from(CellOp::Sum, &self.0, input)
    }

    fn forward(&self, input: &Array<T, D>) -> (both: (EmptyData, Array<T, D>)) {
        let mut output: Array<T, D> = self.0.duplicate();
        output.zip_with(CellOp::Sum, input);
        (EmptyData, output)
    }
}

impl<T: Scalar, D: Copy> Backward for Bias<T, D> {
    type OutputDelta = Array<T, D>;

    type InputDelta = Array<T, D>;

    type TrainDelta = Ndeep<Array<T, D>>;

    open spec fn accepts_back(
        &self,
        input: &Array<T, D>,
        internal: &EmptyData,
        output_delta: &Array<T, D>,
    ) -> bool {
        output_delta.same_shape(&self.0)
    }

    /// The gradient passes unchanged, to the input and to the biases.
    open spec fn sends_back(
        &self,
        input: &Array<T, D>,
        internal: &EmptyData,
        output_delta: &Array<T, D>,
        input_delta: &Array<T, D>,
        train_delta: &Ndeep<Array<T, D>>,
    ) -> bool {
        &&& input_delta.shape == output_delta.shape
        &&& input_delta.data@ == output_delta.data@
        &&& train_delta.0.shape == output_delta.shape
        &&& train_delta.0.data@ == output_delta.data@
    }

    fn backward(&self, input: &Array<T, D>, internal: &EmptyData, output_delta: &Array<T, D>) -> (both: (
        Array<T, D>,
        Ndeep<Array<T, D>>,
    )) {
        (output_delta.duplicate(), Ndeep(output_delta.duplicate()))
    }
}

impl<T: Scalar, D: Copy> Train for Bias<T, D> {
    open spec fn accepts_update(&self, train_delta: &Ndeep<Array<T, D>>) -> bool {
        self.0.same_shape(&train_delta.0)
    }

    open spec fn trains_to(&self, train_delta: &Ndeep<Array<T, D>>, after: &Bias<T, D>) -> bool {
        after.0.zipped_from(CellOp::Sum, &self.0, &train_delta.0)
    }

    fn train(&mut self, train_delta: &Ndeep<Array<T, D>>) {
        self.0.zip_with(CellOp::Sum, &train_delta.0);
    }
}

impl<T: Scalar> Forward for Bias1<T> {
    type Input = Tensor1<T>;

    type Internal = ();

    type Output = Tensor1<T>;

    open spec fn accepts(&self, input: &Tensor1<T>) -> bool {
        input.len() == self.0.len()
    }

    open spec fn yields(&self, input: &Tensor1<T>, internal: &(), output: &Tensor1<T>) -> bool {
        output.zipped_from(CellOp::Sum, &self.0, input)
    }

    fn forward(&self, input: &Tensor1<T>) -> (both: ((), Tensor1<T>)) {
        let mut output: Tensor1<T> = self.0.duplicate();
        output.zip_with(CellOp::Sum, input);
        ((), output)
    }
}

impl<T: Scalar> Backward for Bias1<T> {
    type OutputDelta = Tensor1<T>;

    type InputDelta = Tensor1<T>;

    type TrainDelta = Ndeep<Tensor1<T>>;

    open spec fn accepts_back(&self, input: &Tensor1<T>, internal: &(), output_delta: &Tensor1<T>) -> bool {
        output_delta.len() == self.0.len()
    }

    /// The gradient passes unchanged, to the input and to the biases.
    open spec fn sends_back(
        &self,
        input: &Tensor1<T>,
        internal: &(),
        output_delta: &Tensor1<T>,
        input_delta: &Tensor1<T>,
        train_delta: &Ndeep<Tensor1<T>>,
    ) -> bool {
        &&& input_delta@ == output_delta@
        &&& train_delta.0@ == output_delta@
    }

    fn backward(&self, input: &Tensor1<T>, internal: &(), output_delta: &Tensor1<T>) -> (both: (
        Tensor1<T>,
        Ndeep<Tensor1<T>>,
    )) {
        (output_delta.duplicate(), Ndeep(output_delta.duplicate()))
    }
}

impl<T: Scalar> Train for Bias1<T> {
    open spec fn accepts_update(&self, train_delta: &Ndeep<Tensor1<T>>) -> bool {
        self.0.len() == train_delta.0.len()
    }

    open spec fn trains_to(&self, train_delta: &Ndeep<Tensor1<T>>, after: &Bias1<T>) -> bool {
        after.0.zipped_from(CellOp::Sum, &self.0, &train_delta.0)
    }

    fn train(&mut self, train_delta: &Ndeep<Tensor1<T>>) {
        self.0.zip_with(CellOp::Sum, &train_delta.0);
    }
}

impl<T: Scalar, D: Copy> Forward for Weight<T, D> {
    type Input = Array<T, D>;

    type Internal = EmptyData;

    type Output = Array<T, D>;

    open spec fn accepts(&self, input: &Array<T, D>) -> bool {
        input.same_shape(&self.0)
    }

    open spec fn yields(&self, input: &Array<T, D>, internal: &EmptyData, output: &Array<T, D>) -> bool {
        output.zipped_from(CellOp::Product, &self.0, input)
    }

    fn forward(&self, input: &Array<T, D>) -> (both: (EmptyData, Array<T, D>)) {
        let mut output: Array<T, D> = self.0.duplicate();
        output.zip_with(CellOp::Product, input);
        (EmptyData, output)
    }
}

impl<T: Scalar, D: Copy> Backward for Weight<T, D> {
    type OutputDelta = Array<T, D>;

    type InputDelta = Array<T, D>;

    type TrainDelta = Ndeep<Array<T, D>>;

    open spec fn accepts_back(
        &self,
        input: &Array<T, D>,
        internal: &EmptyData,
        output_delta: &Array<T, D>,
    ) -> bool {
        &&& input.same_shape(&self.0)
        &&& output_delta.same_shape(&self.0)
    }

    /// The input's gradient is the output's times the weights; the
    /// weights' gradient is the output's times the input.
    open spec fn sends_back(
        &self,
        input: &Array<T, D>,
        internal: &EmptyData,
        output_delta: &Array<T, D>,
        input_delta: &Array<T, D>,
        train_delta: &Ndeep<Array<T, D>>,
    ) -> bool {
        &&& input_delta.zipped_from(CellOp::Product, output_delta, &self.0)
        &&& train_delta.0.zipped_from(CellOp::Product, output_delta, input)
    }

    fn backward(&self, input: &Array<T, D>, internal: &EmptyData, output_delta: &Array<T, D>) -> (both: (
        Array<T, D>,
        Ndeep<Array<T, D>>,
    )) {
        let mut input_delta: Array<T, D> = output_delta.duplicate();
        input_delta.zip_with(CellOp::Product, &self.0);
        let mut train_delta: Array<T, D> = output_delta.duplicate();
        train_delta.zip_with(CellOp::Product, input);
        (input_delta, Ndeep(train_delta))
    }
}

impl<T: Scalar, D: Copy> Train for Weight<T, D> {
    open spec fn accepts_update(&self, train_delta: &Ndeep<Array<T, D>>) -> bool {
        self.0.same_shape(&train_delta.0)
    }

    open spec fn trains_to(&self, train_delta: &Ndeep<Array<T, D>>, after: &Weight<T, D>) -> bool {
        after.0.zipped_from(CellOp::Sum, &self.0, &train_delta.0)
    }

    fn train(&mut self, train_delta: &Ndeep<Array<T, D>>) {
        self.0.zip_with(CellOp::Sum, &train_delta.0);
    }
}

impl<T: Scalar, D: Copy> Forward for Variable<T, D> {
    type Input = EmptyData;

    type Internal = EmptyData;

    type Output = Array<T, D>;

    open spec fn accepts(&self, input: &EmptyData) -> bool {
        true
    }

    open spec fn yields(&self, input: &EmptyData, internal: &EmptyData, output: &Array<T, D>) -> bool {
        &&& output.shape == self.0.shape
        &&& output.data@ == self.0.data@
    }

    fn forward(&self, input: &EmptyData) -> (both: (EmptyData, Array<T, D>)) {
        (EmptyData, self.0.duplicate())
    }
}

impl<T: Scalar, D: Copy> Backward for Variable<T, D> {
    type OutputDelta = Array<T, D>;

    type InputDelta = EmptyData;

    type TrainDelta = Ndeep<Array<T, D>>;

    open spec fn accepts_back(
        &self,
        input: &EmptyData,
        internal: &EmptyData,
        output_delta: &Array<T, D>,
    ) -> bool {
        output_delta.same_shape(&self.0)
    }

    /// The gradient is the update of the tensor.
    open spec fn sends_back(
        &self,
        input: &EmptyData,
        internal: &EmptyData,
        output_delta: &Array<T, D>,
        input_delta: &EmptyData,
        train_delta: &Ndeep<Array<T, D>>,
    ) -> bool {
        &&& train_delta.0.shape == output_delta.shape
        &&& train_delta.0.data@ == output_delta.data@
    }

    fn backward(&self, input: &EmptyData, internal: &EmptyData, output_delta: &Array<T, D>) -> (both: (
        EmptyData,
        Ndeep<Array<T, D>>,
    )) {
        (EmptyData, Ndeep(output_delta.duplicate()))
    }
}

impl<T: Scalar, D: Copy> Train for Variable<T, D> {
    open spec fn accepts_update(&self, train_delta: &Ndeep<Array<T, D>>) -> bool {
        self.0.same_shape(&train_delta.0)
    }

    open spec fn trains_to(&self, train_delta: &Ndeep<Array<T, D>>, after: &Variable<T, D>) -> bool {
        after.0.zipped_from(CellOp::Sum, &self.0, &train_delta.0)
    }

    fn train(&mut self, train_delta: &Ndeep<Array<T, D>>) {
        self.0.zip_with(CellOp::Sum, &train_delta.0);
    }
}

} // verus!
