//! Convolution of a signal of three axes with one trainable filter.

use crate::cellwise::CellOp;
use crate::conv::{back_convolve3, block_sum, convolve3, flipped3, padded3, slides};
use crate::delta::EmptyData;
use crate::ndeep::Ndeep;
use crate::operator::{Backward, Forward, Train};
use crate::scalar::Scalar;
use crate::tensor::Tensor3;
use vstd::prelude::*;

verus! {

/// A filter of three axes that slides through its input.
#[derive(Debug)]
pub struct Conv3<T>(pub Tensor3<T>);

impl<T> Conv3<T> {
    pub fn new(filter: Tensor3<T>) -> (operator: Conv3<T>)
        ensures
            operator.0 == filter,
    {
        Conv3(filter)
    }
}

impl<T: Scalar> Forward for Conv3<T> {
    type Input = Tensor3<T>;

    type Internal = EmptyData;

    type Output = Tensor3<T>;

    open spec fn accepts(&self, input: &Tensor3<T>) -> bool {
        &&& self.0.wf()
        &&& input.wf()
        &&& slides(self.0.depth, input.depth)
        &&& slides(self.0.rows, input.rows)
        &&& slides(self.0.cols, input.cols)
    }

    open spec fn yields(&self, input: &Tensor3<T>, internal: &EmptyData, output: &Tensor3<T>) -> bool {
        &&& output.wf()
        &&& output.depth == input.depth - self.0.depth + 1
        &&& output.rows == input.rows - self.0.rows + 1
        &&& output.cols == input.cols - self.0.cols + 1
        &&& forall|d: int, r: int, c: int|
            output.holds(d, r, c) ==> #[trigger] output.at(d, r, c) == block_sum(
                input@,
                self.0@,
                d,
                r,
                c,
            )
    }

    fn forward(&self, input: &Tensor3<T>) -> (both: (EmptyData, Tensor3<T>)) {
        (EmptyData, convolve3(input, &self.0))
    }
}

impl<T: Scalar> Backward for Conv3<T> {
    type OutputDelta = Tensor3<T>;

    type InputDelta = Tensor3<T>;

    type TrainDelta = Ndeep<Tensor3<T>>;

    /// The gradient has the shape of the output. A filter with an axis of
    /// extent one sends nothing back.
    open spec fn accepts_back(
        &self,
        input: &Tensor3<T>,
        internal: &EmptyData,
        output_delta: &Tensor3<T>,
    ) -> bool {
        &&& self.accepts(input)
        &&& output_delta.wf()
        &&& output_delta.depth == input.depth - self.0.depth + 1
        &&& output_delta.rows == input.rows - self.0.rows + 1
        &&& output_delta.cols == input.cols - self.0.cols + 1
        &&& self.0.depth >= 2
        &&& self.0.rows >= 2
        &&& self.0.cols >= 2
    }

    /// The input's gradient is the turned filter slid through the padded
    /// gradient of the output; the filter's gradient is the gradient of
    /// the output slid through the input.
    open spec fn sends_back(
        &self,
        input: &Tensor3<T>,
        internal: &EmptyData,
        output_delta: &Tensor3<T>,
        input_delta: &Tensor3<T>,
        train_delta: &Ndeep<Tensor3<T>>,
    ) -> bool {
        &&& input_delta.wf()
        &&& input_delta.same_shape(input)
        &&& forall|d: int, r: int, c: int|
            input_delta.holds(d, r, c) ==> #[trigger] input_delta.at(d, r, c) == block_sum(
                padded3(
                    output_delta@,
                    output_delta.depth as int,
                    output_delta.rows as int,
                    output_delta.cols as int,
                    self.0.depth - 1,
                    self.0.rows - 1,
                    self.0.cols - 1,
                ),
                flipped3(self.0@),
                d,
                r,
                c,
            )
        &&& train_delta.0.wf()
        &&& train_delta.0.same_shape(&self.0)
        &&& forall|p: int, i: int, j: int|
            train_delta.0.holds(p, i, j) ==> #[trigger] train_delta.0.at(p, i, j) == block_sum(
                input@,
                output_delta@,
                p,
                i,
                j,
            )
    }

    fn backward(&self, input: &Tensor3<T>, internal: &EmptyData, output_delta: &Tensor3<T>) -> (both: (
        Tensor3<T>,
        Ndeep<Tensor3<T>>,
    )) {
        let input_delta: Tensor3<T> = back_convolve3(output_delta, &self.0);
        let train_delta: Tensor3<T> = convolve3(input, output_delta);
        (input_delta, Ndeep(train_delta))
    }
}

impl<T: Scalar> Train for Conv3<T> {
    open spec fn accepts_update(&self, train_delta: &Ndeep<Tensor3<T>>) -> bool {
        &&& self.0.wf()
        &&& train_delta.0.wf()
        &&& self.0.same_shape(&train_delta.0)
    }

    open spec fn trains_to(&self, train_delta: &Ndeep<Tensor3<T>>, after: &Conv3<T>) -> bool {
        after.0.zipped_from(CellOp::Sum, &self.0, &train_delta.0)
    }

    fn train(&mut self, train_delta: &Ndeep<Tensor3<T>>) {
        self.0.zip_with(CellOp::Sum, &train_delta.0);
    }
}

} // verus!
