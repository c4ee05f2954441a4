//! Operators applied to every cell of a tensor of any number of axes.

use crate::delta::{DeltaUnit, EmptyData};
use crate::each::{
    backward_row, backward_row_many, backward_row_static, folds, forward_row, forward_row_many,
    train_row,
};
use crate::operator::{Backward, Forward, Train};
use crate::tensor::Array;
use core::marker::PhantomData;
use vstd::prelude::*;

verus! {

/// A shared operator, applied cell by cell. The updates of the cells are
/// summed, since they all belong to the one operator.
#[derive(Debug)]
pub struct MapOne<G, D>(pub G, pub PhantomData<D>);

/// A shared operator, applied cell by cell, that is never trained.
#[derive(Debug)]
pub struct MapStatic<G, D>(pub G, pub PhantomData<D>);

/// A tensor of operators, each applied to the cell at its place and
/// trained by the update at its place.
#[derive(Debug)]
pub struct MapMany<G, D>(pub Array<G, D>, pub PhantomData<D>);

impl<G, D> MapOne<G, D> {
    pub fn new(g: G) -> (adapter: MapOne<G, D>)
        ensures
            adapter.0 == g,
    {
        MapOne(g, PhantomData)
    }
}

impl<G, D> MapStatic<G, D> {
    pub fn new(g: G) -> (adapter: MapStatic<G, D>)
        ensures
            adapter.0 == g,
    {
        MapStatic(g, PhantomData)
    }
}

impl<G, D> MapMany<G, D> {
    pub fn new(gs: Array<G, D>) -> (adapter: MapMany<G, D>)
        ensures
            adapter.0 == gs,
    {
        MapMany(gs, PhantomData)
    }
}

impl<G: Forward, D: Copy> Forward for MapOne<G, D> {
    type Input = Array<G::Input, D>;

    type Internal = Array<G::Internal, D>;

    type Output = Array<G::Output, D>;

    open spec fn accepts(&self, input: &Self::Input) -> bool {
        forall|i: int| input.holds(i) ==> self.0.accepts(#[trigger] &input.at(i))
    }

    open spec fn yields(
        &self,
        input: &Self::Input,
        internal: &Self::Internal,
        output: &Self::Output,
    ) -> bool {
        &&& internal.same_shape(input)
        &&& output.same_shape(input)
        &&& forall|i: int|
            input.holds(i) ==> self.0.yields(&input.at(i), &internal.at(i), #[trigger] &output.at(i))
    }

    fn forward(&self, input: &Self::Input) -> (both: (Self::Internal, Self::Output)) {
        proof {
            assert forall|i: int| 0 <= i < input.data@.len() implies self.0.accepts(
                #[trigger] &input.data@[i],
            ) by {
                assert(self.0.accepts(&input.at(i)));
            }
        }
        let (internals, outputs) = forward_row(&self.0, &input.data);
        let both = (
            Array { shape: input.shape, data: internals },
            Array { shape: input.shape, data: outputs },
        );
        proof {
            assert forall|i: int| input.holds(i) implies self.0.yields(
                &input.at(i),
                &both.0.at(i),
                #[trigger] &both.1.at(i),
            ) by {
                assert(self.0.yields(&input.data@[i], &both.0.data@[i], &both.1.data@[i]));
            }
        }
        both
    }
}

impl<G: Backward, D: Copy> Backward for MapOne<G, D> where G::TrainDelta: DeltaUnit {
    type OutputDelta = Array<G::OutputDelta, D>;

    type InputDelta = Array<G::InputDelta, D>;

    type TrainDelta = G::TrainDelta;

    open spec fn accepts_back(
        &self,
        input: &Self::Input,
        internal: &Self::Internal,
        output_delta: &Self::OutputDelta,
    ) -> bool {
        &&& internal.same_shape(input)
        &&& output_delta.same_shape(input)
        &&& forall|i: int|
            input.holds(i) ==> self.0.accepts_back(
                &input.at(i),
                &internal.at(i),
                #[trigger] &output_delta.at(i),
            )
    }

    /// Every cell's gradient goes back through the operator, and the
    /// update is the sum, from zero and in storage order, of the updates
    /// that the cells give.
    open spec fn sends_back(
        &self,
        input: &Self::Input,
        internal: &Self::Internal,
        output_delta: &Self::OutputDelta,
        input_delta: &Self::InputDelta,
        train_delta: &Self::TrainDelta,
    ) -> bool {
        &&& input_delta.same_shape(input)
        &&& exists|parts: Seq<G::TrainDelta>, zero: G::TrainDelta|
            {
                &&& parts.len() == input.len()
                &&& forall|i: int|
                    input.holds(i) ==> self.0.sends_back(
                        &input.at(i),
                        &internal.at(i),
                        &output_delta.at(i),
                        #[trigger] &input_delta.at(i),
                        &parts[i],
                    )
                &&& zero.is_zero_spec()
                &&& #[trigger] folds(zero, parts, *train_delta)
            }
    }

    fn backward(
        &self,
        input: &Self::Input,
        internal: &Self::Internal,
        output_delta: &Self::OutputDelta,
    ) -> (both: (Self::InputDelta, Self::TrainDelta)) {
        proof {
            assert forall|i: int| 0 <= i < input.data@.len() implies self.0.accepts_back(
                &input.data@[i],
                &internal.data@[i],
                #[trigger] &output_delta.data@[i],
            ) by {
                assert(self.0.accepts_back(&input.at(i), &internal.at(i), &output_delta.at(i)));
            }
        }
        let zero: G::TrainDelta = G::TrainDelta::zero();
        let ghost start = zero;
        let (input_deltas, total, Ghost(parts)) = backward_row(
            &self.0,
            &input.data,
            &internal.data,
            &output_delta.data,
            zero,
        );
        let both = (Array { shape: input.shape, data: input_deltas }, total);
        proof {
            assert forall|i: int| input.holds(i) implies self.0.sends_back(
                &input.at(i),
                &internal.at(i),
                &output_delta.at(i),
                #[trigger] &both.0.at(i),
                &parts[i],
            ) by {
                assert(self.0.sends_back(
                    &input.data@[i],
                    &internal.data@[i],
                    &output_delta.data@[i],
                    &both.0.data@[i],
                    &parts[i],
                ));
            }
            assert(folds(start, parts, both.1));
        }
        both
    }
}

impl<G: Train, D: Copy> Train for MapOne<G, D> where G::TrainDelta: DeltaUnit {
    open spec fn accepts_update(&self, train_delta: &Self::TrainDelta) -> bool {
        self.0.accepts_update(train_delta)
    }

    open spec fn trains_to(&self, train_delta: &Self::TrainDelta, after: &Self) -> bool {
        self.0.trains_to(train_delta, &after.0)
    }

    fn train(&mut self, train_delta: &Self::TrainDelta) {
        self.0.train(train_delta);
    }
}

impl<G: Forward, D: Copy> Forward for MapStatic<G, D> {
    type Input = Array<G::Input, D>;

    type Internal = Array<G::Internal, D>;

    type Output = Array<G::Output, D>;

    open spec fn accepts(&self, input: &Self::Input) -> bool {
        forall|i: int| input.holds(i) ==> self.0.accepts(#[trigger] &input.at(i))
    }

    open spec fn yields(
        &self,
        input: &Self::Input,
        internal: &Self::Internal,
        output: &Self::Output,
    ) -> bool {
        &&& internal.same_shape(input)
        &&& output.same_shape(input)
        &&& forall|i: int|
            input.holds(i) ==> self.0.yields(&input.at(i), &internal.at(i), #[trigger] &output.at(i))
    }

    fn forward(&self, input: &Self::Input) -> (both: (Self::Internal, Self::Output)) {
        proof {
            assert forall|i: int| 0 <= i < input.data@.len() implies self.0.accepts(
                #[trigger] &input.data@[i],
            ) by {
                assert(self.0.accepts(&input.at(i)));
            }
        }
        let (internals, outputs) = forward_row(&self.0, &input.data);
        let both = (
            Array { shape: input.shape, data: internals },
            Array { shape: input.shape, data: outputs },
        );
        proof {
            assert forall|i: int| input.holds(i) implies self.0.yields(
                &input.at(i),
                &both.0.at(i),
                #[trigger] &both.1.at(i),
            ) by {
                assert(self.0.yields(&input.data@[i], &both.0.data@[i], &both.1.data@[i]));
            }
        }
        both
    }
}

impl<G: Backward, D: Copy> Backward for MapStatic<G, D> {
    type OutputDelta = Array<G::OutputDelta, D>;

    type InputDelta = Array<G::InputDelta, D>;

    type TrainDelta = EmptyData;

    open spec fn accepts_back(
        &self,
        input: &Self::Input,
        internal: &Self::Internal,
        output_delta: &Self::OutputDelta,
    ) -> bool {
        &&& internal.same_shape(input)
        &&& output_delta.same_shape(input)
        &&& forall|i: int|
            input.holds(i) ==> self.0.accepts_back(
                &input.at(i),
                &internal.at(i),
                #[trigger] &output_delta.at(i),
            )
    }

    /// Every cell's gradient goes back through the operator; what the
    /// operator would have been updated by is dropped.
    open spec fn sends_back(
        &self,
        input: &Self::Input,
        internal: &Self::Internal,
        output_delta: &Self::OutputDelta,
        input_delta: &Self::InputDelta,
        train_delta: &EmptyData,
    ) -> bool {
        &&& input_delta.same_shape(input)
        &&& exists|parts: Seq<G::TrainDelta>|
            {
                &&& #[trigger] parts.len() == input.len()
                &&& forall|i: int|
                    input.holds(i) ==> self.0.sends_back(
                        &input.at(i),
                        &internal.at(i),
                        &output_delta.at(i),
                        #[trigger] &input_delta.at(i),
                        &parts[i],
                    )
            }
    }

    fn backward(
        &self,
        input: &Self::Input,
        internal: &Self::Internal,
        output_delta: &Self::OutputDelta,
    ) -> (both: (Self::InputDelta, EmptyData)) {
        proof {
            assert forall|i: int| 0 <= i < input.data@.len() implies self.0.accepts_back(
                &input.data@[i],
                &internal.data@[i],
                #[trigger] &output_delta.data@[i],
            ) by {
                assert(self.0.accepts_back(&input.at(i), &internal.at(i), &output_delta.at(i)));
            }
        }
        let (input_deltas, Ghost(parts)) = backward_row_static(
            &self.0,
            &input.data,
            &internal.data,
            &output_delta.data,
        );
        let both = (Array { shape: input.shape, data: input_deltas }, EmptyData);
        proof {
            assert forall|i: int| input.holds(i) implies self.0.sends_back(
                &input.at(i),
                &internal.at(i),
                &output_delta.at(i),
                #[trigger] &both.0.at(i),
                &parts[i],
            ) by {
                assert(self.0.sends_back(
                    &input.data@[i],
                    &internal.data@[i],
                    &output_delta.data@[i],
                    &both.0.data@[i],
                    &parts[i],
                ));
            }
            assert(parts.len() == input.len());
        }
        both
    }
}

impl<G: Train, D: Copy> Train for MapStatic<G, D> {
    open spec fn accepts_update(&self, train_delta: &EmptyData) -> bool {
        true
    }

    /// The operator stays as it is.
    open spec fn trains_to(&self, train_delta: &EmptyData, after: &Self) -> bool {
        *after == *self
    }

    fn train(&mut self, train_delta: &EmptyData) {
    }
}

impl<G: Forward, D: Copy> Forward for MapMany<G, D> {
    type Input = Array<G::Input, D>;

    type Internal = Array<G::Internal, D>;

    type Output = Array<G::Output, D>;

    /// The input has the shape of the tensor of operators.
    open spec fn accepts(&self, input: &Self::Input) -> bool {
        &&& input.same_shape(&self.0)
        &&& forall|i: int| input.holds(i) ==> self.0.at(i).accepts(#[trigger] &input.at(i))
    }

    open spec fn yields(
        &self,
        input: &Self::Input,
        internal: &Self::Internal,
        output: &Self::Output,
    ) -> bool {
        &&& internal.same_shape(input)
        &&& output.same_shape(input)
        &&& forall|i: int|
            input.holds(i) ==> self.0.at(i).yields(
                &input.at(i),
                &internal.at(i),
                #[trigger] &output.at(i),
            )
    }

    fn forward(&self, input: &Self::Input) -> (both: (Self::Internal, Self::Output)) {
        proof {
            assert forall|i: int| 0 <= i < self.0.data@.len() implies self.0.data@[i].accepts(
                #[trigger] &input.data@[i],
            ) by {
                assert(self.0.at(i).accepts(&input.at(i)));
            }
        }
        let (internals, outputs) = forward_row_many(&self.0.data, &input.data);
        let both = (
            Array { shape: input.shape, data: internals },
            Array { shape: input.shape, data: outputs },
        );
        proof {
            assert forall|i: int| input.holds(i) implies self.0.at(i).yields(
                &input.at(i),
                &both.0.at(i),
                #[trigger] &both.1.at(i),
            ) by {
                assert(self.0.data@[i].yields(&input.data@[i], &both.0.data@[i], &both.1.data@[i]));
            }
        }
        both
    }
}

impl<G: Backward, D: Copy> Backward for MapMany<G, D> {
    type OutputDelta = Array<G::OutputDelta, D>;

    type InputDelta = Array<G::InputDelta, D>;

    type TrainDelta = Array<G::TrainDelta, D>;

    open spec fn accepts_back(
        &self,
        input: &Self::Input,
        internal: &Self::Internal,
        output_delta: &Self::OutputDelta,
    ) -> bool {
        &&& input.same_shape(&self.0)
        &&& internal.same_shape(input)
        &&& output_delta.same_shape(input)
        &&& forall|i: int|
            input.holds(i) ==> self.0.at(i).accepts_back(
                &input.at(i),
                &internal.at(i),
                #[trigger] &output_delta.at(i),
            )
    }

    /// Every cell's gradient goes back through the operator at its
    /// place; the update holds, at every place, that operator's update.
    open spec fn sends_back(
        &self,
        input: &Self::Input,
        internal: &Self::Internal,
        output_delta: &Self::OutputDelta,
        input_delta: &Self::InputDelta,
        train_delta: &Self::TrainDelta,
    ) -> bool {
        &&& input_delta.same_shape(input)
        &&& train_delta.same_shape(input)
        &&& forall|i: int|
            input.holds(i) ==> self.0.at(i).sends_back(
                &input.at(i),
                &internal.at(i),
                &output_delta.at(i),
                #[trigger] &input_delta.at(i),
                &train_delta.at(i),
            )
    }

    fn backward(
        &self,
        input: &Self::Input,
        internal: &Self::Internal,
        output_delta: &Self::OutputDelta,
    ) -> (both: (Self::InputDelta, Self::TrainDelta)) {
        proof {
            assert forall|i: int| 0 <= i < self.0.data@.len() implies self.0.data@[i].accepts_back(
                &input.data@[i],
                &internal.data@[i],
                #[trigger] &output_delta.data@[i],
            ) by {
                assert(self.0.at(i).accepts_back(&input.at(i), &internal.at(i), &output_delta.at(i)));
            }
        }
        let (input_deltas, train_deltas) = backward_row_many(
            &self.0.data,
            &input.data,
            &internal.data,
            &output_delta.data,
        );
        let both = (
            Array { shape: input.shape, data: input_deltas },
            Array { shape: input.shape, data: train_deltas },
        );
        proof {
            assert forall|i: int| input.holds(i) implies self.0.at(i).sends_back(
                &input.at(i),
                &internal.at(i),
                &output_delta.at(i),
                #[trigger] &both.0.at(i),
                &both.1.at(i),
            ) by {
                assert(self.0.data@[i].sends_back(
                    &input.data@[i],
                    &internal.data@[i],
                    &output_delta.data@[i],
                    &both.0.data@[i],
                    &both.1.data@[i],
                ));
            }
        }
        both
    }
}

impl<G: Train, D: Copy> Train for MapMany<G, D> {
    open spec fn accepts_update(&self, train_delta: &Self::TrainDelta) -> bool {
        &&& train_delta.same_shape(&self.0)
        &&& forall|i: int|
            self.0.holds(i) ==> (#[trigger] self.0.at(i)).accepts_update(&train_delta.at(i))
    }

    open spec fn trains_to(&self, train_delta: &Self::TrainDelta, after: &Self) -> bool {
        &&& after.0.same_shape(&self.0)
        &&& forall|i: int|
            self.0.holds(i) ==> self.0.at(i).trains_to(&train_delta.at(i), #[trigger] &after.0.at(i))
    }

    fn train(&mut self, train_delta: &Self::TrainDelta) {
        proof {
            assert forall|i: int| 0 <= i < self.0.data@.len() implies (#[trigger] self.0.data@[i]).accepts_update(
            &train_delta.data@[i]) by {
                assert(self.0.at(i).accepts_update(&train_delta.at(i)));
            }
        }
        train_row(&mut self.0.data, &train_delta.data);
        proof {
            assert forall|i: int| old(self).0.holds(i) implies old(self).0.at(i).trains_to(
                &train_delta.at(i),
                #[trigger] &self.0.at(i),
            ) by {
                assert(old(self).0.data@[i].trains_to(&train_delta.data@[i], &self.0.data@[i]));
            }
        }
    }
}

} // verus!
