//! Parallel composition.

use crate::delta::ChainData;
use crate::operator::{Backward, Forward, Train};
use vstd::prelude::*;

verus! {

/// Two operators side by side: each works on its own half of the input
/// and knows nothing of the other.
#[derive(Clone, Debug)]
pub struct Zip<T, U>(pub T, pub U);

impl<T: Forward, U: Forward> Forward for Zip<T, U> {
    type Input = (T::Input, U::Input);

    type Internal = (T::Internal, U::Internal);

    type Output = (T::Output, U::Output);

    open spec fn accepts(&self, input: &Self::Input) -> bool {
        self.0.accepts(&input.0) && self.1.accepts(&input.1)
    }

    open spec fn yields(
        &self,
        input: &Self::Input,
        internal: &Self::Internal,
        output: &Self::Output,
    ) -> bool {
        &&& self.0.yields(&input.0, &internal.0, &output.0)
        &&& self.1.yields(&input.1, &internal.1, &output.1)
    }

    fn forward(&self, input: &Self::Input) -> (both: (Self::Internal, Self::Output)) {
        let (t_internal, t_output) = self.0.forward(&input.0);
        let (u_internal, u_output) = self.1.forward(&input.1);
        ((t_internal, u_internal), (t_output, u_output))
    }
}

impl<T: Backward, U: Backward> Backward for Zip<T, U> {
    type OutputDelta = (T::OutputDelta, U::OutputDelta);

    type InputDelta = (T::InputDelta, U::InputDelta);

    type TrainDelta = ChainData<T::TrainDelta, U::TrainDelta>;

    open spec fn accepts_back(
        &self,
        input: &Self::Input,
        internal: &Self::Internal,
        output_delta: &Self::OutputDelta,
    ) -> bool {
        &&& self.0.accepts_back(&input.0, &internal.0, &output_delta.0)
        &&& self.1.accepts_back(&input.1, &internal.1, &output_delta.1)
    }

    open spec fn sends_back(
        &self,
        input: &Self::Input,
        internal: &Self::Internal,
        output_delta: &Self::OutputDelta,
        input_delta: &Self::InputDelta,
        train_delta: &Self::TrainDelta,
    ) -> bool {
        &&& self.0.sends_back(&input.0, &internal.0, &output_delta.0, &input_delta.0, &train_delta.0)
        &&& self.1.sends_back(&input.1, &internal.1, &output_delta.1, &input_delta.1, &train_delta.1)
    }

    fn backward(
        &self,
        input: &Self::Input,
        internal: &Self::Internal,
        output_delta: &Self::OutputDelta,
    ) -> (both: (Self::InputDelta, Self::TrainDelta)) {
        let (t_input_delta, t_train_delta) = self.0.backward(&input.0, &internal.0, &output_delta.0);
        let (u_input_delta, u_train_delta) = self.1.backward(&input.1, &internal.1, &output_delta.1);
        ((t_input_delta, u_input_delta), ChainData(t_train_delta, u_train_delta))
    }
}

impl<T: Train, U: Train> Train for Zip<T, U> {
    open spec fn accepts_update(&self, train_delta: &Self::TrainDelta) -> bool {
        self.0.accepts_update(&train_delta.0) && self.1.accepts_update(&train_delta.1)
    }

    open spec fn trains_to(&self, train_delta: &Self::TrainDelta, after: &Self) -> bool {
        self.0.trains_to(&train_delta.0, &after.0) && self.1.trains_to(&train_delta.1, &after.1)
    }

    fn train(&mut self, train_delta: &Self::TrainDelta) {
        self.0.train(&train_delta.0);
        self.1.train(&train_delta.1);
    }
}

} // verus!
