//! A block whose input is added to what the block makes of it.

use crate::cellwise::CellOp;
use crate::operator::{Backward, Forward, Train};
use crate::scalar::Scalar;
use crate::tensor::Tensor1;
use vstd::prelude::*;

verus! {

/// An operator on tensors of one axis, with a shortcut around it: the
/// output is the input plus the operator's output.
#[derive(Clone, Debug)]
pub struct ResidualBlock1<G>(pub G);

impl<G> ResidualBlock1<G> {
    pub fn new(graph: G) -> (block: ResidualBlock1<G>)
        ensures
            block.0 == graph,
    {
        ResidualBlock1(graph)
    }
}

impl<G, T> Forward for ResidualBlock1<G> where
    T: Scalar,
    G: Forward<Input = Tensor1<T>, Output = Tensor1<T>>,
 {
    type Input = Tensor1<T>;

    type Internal = G::Internal;

    type Output = Tensor1<T>;

    /// The inner operator takes the input and puts out as many cells as
    /// it was given.
    open spec fn accepts(&self, input: &Tensor1<T>) -> bool {
        &&& self.0.accepts(input)
        &&& forall|internal: G::Internal, output: Tensor1<T>| #[trigger]
            self.0.yields(input, &internal, &output) ==> output.len() == input.len()
    }

    open spec fn yields(&self, input: &Tensor1<T>, internal: &G::Internal, output: &Tensor1<T>) -> bool {
        exists|inner: Tensor1<T>|
            {
                &&& #[trigger] self.0.yields(input, internal, &inner)
                &&& output.zipped_from(CellOp::Sum, input, &inner)
            }
    }

    fn forward(&self, input: &Tensor1<T>) -> (both: (G::Internal, Tensor1<T>)) {
        let (internal, inner) = self.0.forward(input);
        assert(self.0.yields(input, &internal, &inner));
        let mut output: Tensor1<T> = input.duplicate();
        output.zip_with(CellOp::Sum, &inner);
        let both = (internal, output);
        assert(self.0.yields(input, &both.0, &inner) && both.1.zipped_from(CellOp::Sum, input, &inner));
        both
    }
}

impl<G, T> Backward for ResidualBlock1<G> where
    T: Scalar,
    G: Forward<Input = Tensor1<T>, Output = Tensor1<T>> + Backward<
        OutputDelta = Tensor1<T>,
        InputDelta = Tensor1<T>,
    >,
 {
    type OutputDelta = Tensor1<T>;

    type InputDelta = Tensor1<T>;

    type TrainDelta = G::TrainDelta;

    /// The inner operator takes the gradient and sends back as many cells
    /// as it was given.
    open spec fn accepts_back(
        &self,
        input: &Tensor1<T>,
        internal: &G::Internal,
        output_delta: &Tensor1<T>,
    ) -> bool {
        &&& self.0.accepts_back(input, internal, output_delta)
        &&& forall|given: Tensor1<T>, update: G::TrainDelta| #[trigger]
            self.0.sends_back(input, internal, output_delta, &given, &update) ==> given.len()
                == output_delta.len()
    }

    /// The input's gradient is what the inner operator sends back plus
    /// the gradient itself, which took the shortcut.
    open spec fn sends_back(
        &self,
        input: &Tensor1<T>,
        internal: &G::Internal,
        output_delta: &Tensor1<T>,
        input_delta: &Tensor1<T>,
        train_delta: &G::TrainDelta,
    ) -> bool {
        exists|inner: Tensor1<T>|
            {
                &&& #[trigger] self.0.sends_back(input, internal, output_delta, &inner, train_delta)
                &&& input_delta.zipped_from(CellOp::Sum, &inner, output_delta)
            }
    }

    fn backward(&self, input: &Tensor1<T>, internal: &G::Internal, output_delta: &Tensor1<T>) -> (both: (
        Tensor1<T>,
        G::TrainDelta,
    )) {
        let (inner, train_delta) = self.0.backward(input, internal, output_delta);
        assert(self.0.sends_back(input, internal, output_delta, &inner, &train_delta));
        let ghost sent = inner;
        let mut input_delta: Tensor1<T> = inner;
        input_delta.zip_with(CellOp::Sum, output_delta);
        let both = (input_delta, train_delta);
        assert(self.0.sends_back(input, internal, output_delta, &sent, &both.1)
            && both.0.zipped_from(CellOp::Sum, &sent, output_delta));
        both
    }
}

impl<G, T> Train for ResidualBlock1<G> where
    T: Scalar,
    G: Forward<Input = Tensor1<T>, Output = Tensor1<T>> + Backward<
        OutputDelta = Tensor1<T>,
        InputDelta = Tensor1<T>,
    > + Train,
 {
    open spec fn accepts_update(&self, train_delta: &G::TrainDelta) -> bool {
        self.0.accepts_update(train_delta)
    }

    open spec fn trains_to(&self, train_delta: &G::TrainDelta, after: &Self) -> bool {
        self.0.trains_to(train_delta, &after.0)
    }

    fn train(&mut self, train_delta: &G::TrainDelta) {
        self.0.train(train_delta);
    }
}

} // verus!
