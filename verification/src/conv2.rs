//! Convolution of a signal of two axes with one trainable filter.

use crate::cellwise::CellOp;
use crate::conv::{back_convolve2, convolve2, flipped2, padded2, slides, window_sum};
use crate::delta::EmptyData;
use crate::ndeep::Ndeep;
use crate::operator::{Backward, Forward, Train};
use crate::scalar::Scalar;
use crate::tensor::Tensor2;
use vstd::prelude::*;

verus! {

/// A filter that slides over its input.
#[derive(Debug)]
pub struct Conv2<T>(pub Tensor2<T>);

impl<T> Conv2<T> {
    pub fn new(filter: Tensor2<T>) -> (operator: Conv2<T>)
        ensures
            operator.0 == filter,
    {
        Conv2(filter)
    }
}

impl<T: Scalar> Forward for Conv2<T> {
    type Input = Tensor2<T>;

    type Internal = EmptyData;

    type Output = Tensor2<T>;

    open spec fn accepts(&self, input: &Tensor2<T>) -> bool {
        &&& self.0.wf()
        &&& input.wf()
        &&& slides(self.0.rows, input.rows)
        &&& slides(self.0.cols, input.cols)
    }

    open spec fn yields(&self, input: &Tensor2<T>, internal: &EmptyData, output: &Tensor2<T>) -> bool {
        &&& output.wf()
        &&& output.rows == input.rows - self.0.rows + 1
        &&& output.cols == input.cols - self.0.cols + 1
        &&& forall|r: int, c: int|
            output.holds(r, c) ==> #[trigger] output.at(r, c) == window_sum(input@, self.0@, r, c)
    }

    fn forward(&self, input: &Tensor2<T>) -> (both: (EmptyData, Tensor2<T>)) {
        (EmptyData, convolve2(input, &self.0))
    }
}

impl<T: Scalar> Backward for Conv2<T> {
    type OutputDelta = Tensor2<T>;

    type InputDelta = Tensor2<T>;

    type TrainDelta = Ndeep<Tensor2<T>>;

    /// The gradient has the shape of the output. A filter with an axis of
    /// extent one sends nothing back.
    open spec fn accepts_back(
        &self,
        input: &Tensor2<T>,
        internal: &EmptyData,
        output_delta: &Tensor2<T>,
    ) -> bool {
        &&& self.accepts(input)
        &&& output_delta.wf()
        &&& output_delta.rows == input.rows - self.0.rows + 1
        &&& output_delta.cols == input.cols - self.0.cols + 1
        &&& self.0.rows >= 2
        &&& self.0.cols >= 2
    }

    /// The input's gradient is the turned filter slid over the padded
    /// gradient of the output; the filter's gradient is the gradient of
    /// the output slid over the input.
    open spec fn sends_back(
        &self,
        input: &Tensor2<T>,
        internal: &EmptyData,
        output_delta: &Tensor2<T>,
        input_delta: &Tensor2<T>,
        train_delta: &Ndeep<Tensor2<T>>,
    ) -> bool {
        &&& input_delta.wf()
        &&& input_delta.same_shape(input)
        &&& forall|r: int, c: int|
            input_delta.holds(r, c) ==> #[trigger] input_delta.at(r, c) == window_sum(
                padded2(
                    output_delta@,
                    output_delta.rows as int,
                    output_delta.cols as int,
                    self.0.rows - 1,
                    self.0.cols - 1,
                ),
                flipped2(self.0@),
                r,
                c,
            )
        &&& train_delta.0.wf()
        &&& train_delta.0.same_shape(&self.0)
        &&& forall|i: int, j: int|
            train_delta.0.holds(i, j) ==> #[trigger] train_delta.0.at(i, j) == window_sum(
                input@,
                output_delta@,
                i,
                j,
            )
    }

    fn backward(&self, input: &Tensor2<T>, internal: &EmptyData, output_delta: &Tensor2<T>) -> (both: (
        Tensor2<T>,
        Ndeep<Tensor2<T>>,
    )) {
        let input_delta: Tensor2<T> = back_convolve2(output_delta, &self.0);
        let train_delta: Tensor2<T> = convolve2(input, output_delta);
        (input_delta, Ndeep(train_delta))
    }
}

impl<T: Scalar> Train for Conv2<T> {
    open spec fn accepts_update(&self, train_delta: &Ndeep<Tensor2<T>>) -> bool {
        &&& self.0.wf()
        &&& train_delta.0.wf()
        &&& self.0.same_shape(&train_delta.0)
    }

    open spec fn trains_to(&self, train_delta: &Ndeep<Tensor2<T>>, after: &Conv2<T>) -> bool {
        after.0.zipped_from(CellOp::Sum, &self.0, &train_delta.0)
    }

    fn train(&mut self, train_delta: &Ndeep<Tensor2<T>>) {
        self.0.zip_with(CellOp::Sum, &train_delta.0);
    }
}

} // verus!
