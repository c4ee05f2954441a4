//! The operator contract: evaluation, gradient propagation, update.
//!
//! An operator is described by relations between what it is given and
//! what it hands back. `accepts` says which inputs have the shape the
//! operator was built for; calling an operator on anything else is a
//! wiring mistake, so the executable methods demand it of the caller.

use crate::chain::Chain;
use vstd::prelude::*;

verus! {

/// An operator that can be evaluated.
pub trait Forward {
    type Input;

    type Internal;

    type Output;

    /// Whether the input has the shape this operator takes.
    spec fn accepts(&self, input: &Self::Input) -> bool;

    /// Whether `internal` and `output` are the cache and the result of
    /// evaluating the operator, with its current parameters, on `input`.
    spec fn yields(
        &self,
        input: &Self::Input,
        internal: &Self::Internal,
        output: &Self::Output,
    ) -> bool;

    /// Evaluates the operator, keeping what the backward pass will need.
    fn forward(&self, input: &Self::Input) -> (both: (Self::Internal, Self::Output))
        requires
            self.accepts(input),
        ensures
            self.yields(input, &both.0, &both.1),
    ;

    /// Evaluates the operator and drops the cache.
    fn run(&self, input: &Self::Input) -> (output: Self::Output)
        requires
            self.accepts(input),
        ensures
            exists|internal: Self::Internal| self.yields(input, &internal, &output),
    {
        let both = self.forward(input);
        assert(self.yields(input, &both.0, &both.1));
        both.1
    }
}

/// An operator through which a gradient can be sent back.
pub trait Backward: Forward {
    type OutputDelta;

    type InputDelta;

    type TrainDelta;

    /// Whether the gradient from downstream fits the input and the cache.
    spec fn accepts_back(
        &self,
        input: &Self::Input,
        internal: &Self::Internal,
        output_delta: &Self::OutputDelta,
    ) -> bool;

    /// Whether `input_delta` and `train_delta` are the gradients with
    /// respect to the input and to the parameters.
    spec fn sends_back(
        &self,
        input: &Self::Input,
        internal: &Self::Internal,
        output_delta: &Self::OutputDelta,
        input_delta: &Self::InputDelta,
        train_delta: &Self::TrainDelta,
    ) -> bool;

    /// Sends the gradient back through the operator, which stays as it is.
    fn backward(
        &self,
        input: &Self::Input,
        internal: &Self::Internal,
        output_delta: &Self::OutputDelta,
    ) -> (both: (Self::InputDelta, Self::TrainDelta))
        requires
            self.accepts_back(input, internal, output_delta),
        ensures
            self.sends_back(input, internal, output_delta, &both.0, &both.1),
    ;

    /// The gradient with respect to the input alone.
    fn backward_input(
        &self,
        input: &Self::Input,
        internal: &Self::Internal,
        output_delta: &Self::OutputDelta,
    ) -> (input_delta: Self::InputDelta)
        requires
            self.accepts_back(input, internal, output_delta),
        ensures
            exists|train_delta: Self::TrainDelta|
                self.sends_back(input, internal, output_delta, &input_delta, &train_delta),
    {
        let both = self.backward(input, internal, output_delta);
        assert(self.sends_back(input, internal, output_delta, &both.0, &both.1));
        both.0
    }

    /// The gradient with respect to the parameters alone.
    fn backward_train(
        &self,
        input: &Self::Input,
        internal: &Self::Internal,
        output_delta: &Self::OutputDelta,
    ) -> (train_delta: Self::TrainDelta)
        requires
            self.accepts_back(input, internal, output_delta),
        ensures
            exists|input_delta: Self::InputDelta|
                self.sends_back(input, internal, output_delta, &input_delta, &train_delta),
    {
        let both = self.backward(input, internal, output_delta);
        assert(self.sends_back(input, internal, output_delta, &both.0, &both.1));
        both.1
    }
}

/// An operator whose parameters can be updated.
pub trait Train: Backward {
    /// Whether the update has the shape of the parameters.
    spec fn accepts_update(&self, train_delta: &Self::TrainDelta) -> bool;

    /// Whether `after` is this operator with the update added to its
    /// parameters.
    spec fn trains_to(&self, train_delta: &Self::TrainDelta, after: &Self) -> bool;

    /// Adds the update to the parameters.
    fn train(&mut self, train_delta: &Self::TrainDelta)
        requires
            old(self).accepts_update(train_delta),
        ensures
            old(self).trains_to(train_delta, final(self)),
    ;

    /// Sends the gradient back and applies the update at once.
    fn propogate(
        &mut self,
        input: &Self::Input,
        internal: &Self::Internal,
        output_delta: &Self::OutputDelta,
    ) -> (input_delta: Self::InputDelta)
        requires
            old(self).accepts_back(input, internal, output_delta),
            forall|given: Self::InputDelta, update: Self::TrainDelta| #[trigger]
                old(self).sends_back(input, internal, output_delta, &given, &update) ==> old(
                    self,
                ).accepts_update(&update),
        ensures
            exists|train_delta: Self::TrainDelta|
                old(self).sends_back(input, internal, output_delta, &input_delta, &train_delta)
                    && old(self).trains_to(&train_delta, final(self)),
    {
        let both = self.backward(input, internal, output_delta);
        assert(old(self).sends_back(input, internal, output_delta, &both.0, &both.1));
        self.train(&both.1);
        assert(old(self).sends_back(input, internal, output_delta, &both.0, &both.1) && old(
            self,
        ).trains_to(&both.1, self));
        both.0
    }
}

/// A trainable operator that can be put in front of another.
pub trait Graph: Train + Sized {
    /// The pipeline that runs `self` and then `other`.
    fn chain<U>(self, other: U) -> (pipeline: Chain<Self, U>)
        ensures
            pipeline.0 == self,
            pipeline.1 == other,
    {
        Chain(self, other)
    }
}

impl<T: Train> Graph for T {

}

} // verus!
