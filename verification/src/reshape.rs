//! Dropping the leading axis of a tensor whose leading extent is one.

use crate::delta::EmptyData;
use crate::operator::{Backward, Forward, Train};
use crate::tensor::{Tensor2, Tensor3};
use core::marker::PhantomData;
use vstd::prelude::*;

verus! {

/// Takes the first plane of a tensor of three axes; sends a gradient back
/// as a tensor of depth one. It has nothing to train.
#[derive(Debug)]
pub struct Reshape3to2<T>(pub PhantomData<T>);

impl<T> Reshape3to2<T> {
    pub fn new() -> (operator: Reshape3to2<T>) {
        Reshape3to2(PhantomData)
    }
}

impl<T> Default for Reshape3to2<T> {
    fn default() -> (operator: Reshape3to2<T>) {
        Reshape3to2(PhantomData)
    }
}

impl<T: Copy> Forward for Reshape3to2<T> {
    type Input = Tensor3<T>;

    type Internal = ();

    type Output = Tensor2<T>;

    open spec fn accepts(&self, input: &Tensor3<T>) -> bool {
        input.wf() && input.depth >= 1
    }

    open spec fn yields(&self, input: &Tensor3<T>, internal: &(), output: &Tensor2<T>) -> bool {
        &&& output.wf()
        &&& output.rows == input.rows
        &&& output.cols == input.cols
        &&& output@ == input@[0]
    }

    fn forward(&self, input: &Tensor3<T>) -> (both: ((), Tensor2<T>)) {
        ((), input.plane(0))
    }
}

impl<T: Copy> Backward for Reshape3to2<T> {
    type OutputDelta = Tensor2<T>;

    type InputDelta = Tensor3<T>;

    type TrainDelta = EmptyData;

    /// The input has depth one, and the gradient the shape of its plane.
    open spec fn accepts_back(&self, input: &Tensor3<T>, internal: &(), output_delta: &Tensor2<T>) -> bool {
        &&& input.wf()
        &&& input.depth == 1
        &&& output_delta.wf()
        &&& output_delta.rows == input.rows
        &&& output_delta.cols == input.cols
    }

    open spec fn sends_back(
        &self,
        input: &Tensor3<T>,
        internal: &(),
        output_delta: &Tensor2<T>,
        input_delta: &Tensor3<T>,
        train_delta: &EmptyData,
    ) -> bool {
        &&& input_delta.wf()
        &&& input_delta.same_shape(input)
        &&& input_delta@ == seq![output_delta@]
    }

    fn backward(&self, input: &Tensor3<T>, internal: &(), output_delta: &Tensor2<T>) -> (both: (
        Tensor3<T>,
        EmptyData,
    )) {
        (Tensor3::from_plane(output_delta), EmptyData)
    }
}

impl<T: Copy> Train for Reshape3to2<T> {
    open spec fn accepts_update(&self, train_delta: &EmptyData) -> bool {
        true
    }

    /// There is nothing to train: the operator stays as it is.
    open spec fn trains_to(&self, train_delta: &EmptyData, after: &Self) -> bool {
        *after == *self
    }

    fn train(&mut self, train_delta: &EmptyData) {
    }
}

} // verus!
