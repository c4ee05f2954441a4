//! Convolution of a signal of two axes with a stack of trainable filters.

use crate::cellwise::CellOp;
use crate::conv::{back_convolve2n, block_sum, convolve2n, flipped_planes, padded3, slides, window_sum};
use crate::ndeep::Ndeep;
use crate::operator::{Backward, Forward, Train};
use crate::scalar::Scalar;
use crate::tensor::{Tensor2, Tensor3};
use vstd::prelude::*;

verus! {

/// A stack of filters that slide over the same input. Its axes are the
/// filter, the row and the column.
#[derive(Debug)]
pub struct Conv2n<T>(pub Tensor3<T>);

impl<T> Conv2n<T> {
    pub fn new(filters: Tensor3<T>) -> (operator: Conv2n<T>)
        ensures
            operator.0 == filters,
    {
        Conv2n(filters)
    }
}

impl<T: Scalar> Forward for Conv2n<T> {
    type Input = Tensor2<T>;

    type Internal = ();

    type Output = Tensor3<T>;

    open spec fn accepts(&self, input: &Tensor2<T>) -> bool {
        &&& self.0.wf()
        &&& input.wf()
        &&& slides(self.0.rows, input.rows)
        &&& slides(self.0.cols, input.cols)
    }

    open spec fn yields(&self, input: &Tensor2<T>, internal: &(), output: &Tensor3<T>) -> bool {
        &&& output.wf()
        &&& output.depth == self.0.depth
        &&& output.rows == input.rows - self.0.rows + 1
        &&& output.cols == input.cols - self.0.cols + 1
        &&& forall|f: int, r: int, c: int|
            output.holds(f, r, c) ==> #[trigger] output.at(f, r, c) == window_sum(
                input@,
                self.0@[f],
                r,
                c,
            )
    }

    fn forward(&self, input: &Tensor2<T>) -> (both: ((), Tensor3<T>)) {
        ((), convolve2n(input, &self.0))
    }
}

impl<T: Scalar> Backward for Conv2n<T> {
    type OutputDelta = Tensor3<T>;

    type InputDelta = Tensor2<T>;

    type TrainDelta = Ndeep<Tensor3<T>>;

    /// The gradient has the shape of the output, and there is a filter.
    /// Filters with an axis of extent one send nothing back.
    open spec fn accepts_back(&self, input: &Tensor2<T>, internal: &(), output_delta: &Tensor3<T>) -> bool {
        &&& self.accepts(input)
        &&& output_delta.wf()
        &&& output_delta.depth == self.0.depth
        &&& output_delta.rows == input.rows - self.0.rows + 1
        &&& output_delta.cols == input.cols - self.0.cols + 1
        &&& self.0.depth >= 1
        &&& self.0.rows >= 2
        &&& self.0.cols >= 2
    }

    /// The input's gradient sums, over the stack, each turned filter slid
    /// over the padded gradient of its feature map; the gradient of each
    /// filter is the gradient of its feature map slid over the input.
    open spec fn sends_back(
        &self,
        input: &Tensor2<T>,
        internal: &(),
        output_delta: &Tensor3<T>,
        input_delta: &Tensor2<T>,
        train_delta: &Ndeep<Tensor3<T>>,
    ) -> bool {
        &&& input_delta.wf()
        &&& input_delta.same_shape(input)
        &&& forall|r: int, c: int|
            input_delta.holds(r, c) ==> #[trigger] input_delta.at(r, c) == block_sum(
                padded3(
                    output_delta@,
                    output_delta.depth as int,
                    output_delta.rows as int,
                    output_delta.cols as int,
                    0,
                    self.0.rows - 1,
                    self.0.cols - 1,
                ),
                flipped_planes(self.0@),
                0,
                r,
                c,
            )
        &&& train_delta.0.wf()
        &&& train_delta.0.same_shape(&self.0)
        &&& forall|f: int, i: int, j: int|
            train_delta.0.holds(f, i, j) ==> #[trigger] train_delta.0.at(f, i, j) == window_sum(
                input@,
                output_delta@[f],
                i,
                j,
            )
    }

    fn backward(&self, input: &Tensor2<T>, internal: &(), output_delta: &Tensor3<T>) -> (both: (
        Tensor2<T>,
        Ndeep<Tensor3<T>>,
    )) {
        let input_delta: Tensor2<T> = back_convolve2n(output_delta, &self.0);
        let train_delta: Tensor3<T> = convolve2n(input, output_delta);
        (input_delta, Ndeep(train_delta))
    }
}

impl<T: Scalar> Train for Conv2n<T> {
    open spec fn accepts_update(&self, train_delta: &Ndeep<Tensor3<T>>) -> bool {
        &&& self.0.wf()
        &&& train_delta.0.wf()
        &&& self.0.same_shape(&train_delta.0)
    }

    open spec fn trains_to(&self, train_delta: &Ndeep<Tensor3<T>>, after: &Conv2n<T>) -> bool {
        after.0.zipped_from(CellOp::Sum, &self.0, &train_delta.0)
    }

    fn train(&mut self, train_delta: &Ndeep<Tensor3<T>>) {
        self.0.zip_with(CellOp::Sum, &train_delta.0);
    }
}

} // verus!
