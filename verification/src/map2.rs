//! Operators applied to every cell of a tensor of two axes.

use crate::delta::{DeltaUnit, EmptyData};
use crate::each::{
    backward_grid, backward_grid_many, backward_grid_shared, folds, forward_grid,
    forward_grid_many, train_grid,
};
use crate::ndeep::Ndeep;
use crate::operator::{Backward, Forward, Train};
use crate::tensor::Tensor2;
use vstd::prelude::*;

verus! {

/// A shared operator, applied cell by cell. The updates of the cells are
/// summed, since they all belong to the one operator.
#[derive(Clone, Debug)]
pub struct Map2One<G>(pub G);

/// A shared operator without parameters, applied cell by cell.
#[derive(Clone, Debug)]
pub struct Map2Static<G>(pub G);

/// A tensor of operators, each applied to the cell at its place and
/// trained by the update at its place.
#[derive(Debug)]
pub struct Map2Many<G>(pub Tensor2<G>);

impl<G: Forward> Forward for Map2One<G> {
    type Input = Tensor2<G::Input>;

    type Internal = Tensor2<G::Internal>;

    type Output = Tensor2<G::Output>;

    open spec fn accepts(&self, input: &Self::Input) -> bool {
        &&& input.wf()
        &&& forall|r: int, c: int| input.holds(r, c) ==> self.0.accepts(#[trigger] &input.at(r, c))
    }

    open spec fn yields(
        &self,
        input: &Self::Input,
        internal: &Self::Internal,
        output: &Self::Output,
    ) -> bool {
        &&& internal.wf()
        &&& internal.same_shape(input)
        &&& output.wf()
        &&& output.same_shape(input)
        &&& forall|r: int, c: int|
            input.holds(r, c) ==> self.0.yields(
                &input.at(r, c),
                &internal.at(r, c),
                #[trigger] &output.at(r, c),
            )
    }

    fn forward(&self, input: &Self::Input) -> (both: (Self::Internal, Self::Output)) {
        proof {
            assert forall|r: int, c: int| 0 <= r < input.data@.len() && 0 <= c < input.data@[r]@.len() implies self.0.accepts(
                #[trigger] &input.data@[r]@[c],
            ) by {
                assert(input.holds(r, c));
                assert(self.0.accepts(&input.at(r, c)));
            }
        }
        let (internals, outputs) = forward_grid(&self.0, &input.data);
        let both = (
            Tensor2 { rows: input.rows, cols: input.cols, data: internals },
            Tensor2 { rows: input.rows, cols: input.cols, data: outputs },
        );
        proof {
            assert forall|r: int, c: int| input.holds(r, c) implies self.0.yields(
                &input.at(r, c),
                &both.0.at(r, c),
                #[trigger] &both.1.at(r, c),
            ) by {
                assert(self.0.yields(&input.data@[r]@[c], &both.0.data@[r]@[c], &both.1.data@[r]@[c]));
            }
        }
        both
    }
}

impl<G: Backward> Backward for Map2One<G> where G::TrainDelta: DeltaUnit {
    type OutputDelta = Tensor2<G::OutputDelta>;

    type InputDelta = Tensor2<G::InputDelta>;

    type TrainDelta = G::TrainDelta;

    open spec fn accepts_back(
        &self,
        input: &Self::Input,
        internal: &Self::Internal,
        output_delta: &Self::OutputDelta,
    ) -> bool {
        &&& input.wf()
        &&& internal.wf()
        &&& internal.same_shape(input)
        &&& output_delta.wf()
        &&& output_delta.same_shape(input)
        &&& forall|r: int, c: int|
            input.holds(r, c) ==> self.0.accepts_back(
                &input.at(r, c),
                &internal.at(r, c),
                #[trigger] &output_delta.at(r, c),
            )
    }

    /// Every cell's gradient goes back through the operator, and the
    /// update is the sum, from zero and in storage order, of the updates
    /// that the cells give.
    open spec fn sends_back(
        &self,
        input: &Self::Input,
        internal: &Self::Internal,
        output_delta: &Self::OutputDelta,
        input_delta: &Self::InputDelta,
        train_delta: &Self::TrainDelta,
    ) -> bool {
        &&& input_delta.wf()
        &&& input_delta.same_shape(input)
        &&& exists|parts: Seq<Seq<G::TrainDelta>>, zero: G::TrainDelta|
            {
                &&& parts.len() == input.rows
                &&& forall|r: int| 0 <= r < input.rows ==> (#[trigger] parts[r]).len() == input.cols
                &&& forall|r: int, c: int|
                    input.holds(r, c) ==> self.0.sends_back(
                        &input.at(r, c),
                        &internal.at(r, c),
                        &output_delta.at(r, c),
                        #[trigger] &input_delta.at(r, c),
                        &parts[r][c],
                    )
                &&& zero.is_zero_spec()
                &&& #[trigger] folds(zero, parts.flatten(), *train_delta)
            }
    }

    fn backward(
        &self,
        input: &Self::Input,
        internal: &Self::Internal,
        output_delta: &Self::OutputDelta,
    ) -> (both: (Self::InputDelta, Self::TrainDelta)) {
        proof {
            assert forall|r: int, c: int| 0 <= r < input.data@.len() && 0 <= c < input.data@[r]@.len() implies self.0.accepts_back(
                &input.data@[r]@[c],
                &internal.data@[r]@[c],
                #[trigger] &output_delta.data@[r]@[c],
            ) by {
                assert(input.holds(r, c));
                assert(self.0.accepts_back(&input.at(r, c), &internal.at(r, c), &output_delta.at(r, c)));
            }
        }
        let zero: G::TrainDelta = G::TrainDelta::zero();
        let ghost start = zero;
        let (input_deltas, total, Ghost(parts)) = backward_grid(
            &self.0,
            &input.data,
            &internal.data,
            &output_delta.data,
            zero,
        );
        let both = (Tensor2 { rows: input.rows, cols: input.cols, data: input_deltas }, total);
        proof {
            assert forall|r: int, c: int| input.holds(r, c) implies self.0.sends_back(
                &input.at(r, c),
                &internal.at(r, c),
                &output_delta.at(r, c),
                #[trigger] &both.0.at(r, c),
                &parts[r][c],
            ) by {
                assert(self.0.sends_back(
                    &input.data@[r]@[c],
                    &internal.data@[r]@[c],
                    &output_delta.data@[r]@[c],
                    &both.0.data@[r]@[c],
                    &parts[r][c],
                ));
            }
            assert(start.is_zero_spec());
            assert(folds(start, parts.flatten(), both.1));
        }
        both
    }
}

impl<G: Train> Train for Map2One<G> where G::TrainDelta: DeltaUnit {
    open spec fn accepts_update(&self, train_delta: &Self::TrainDelta) -> bool {
        self.0.accepts_update(train_delta)
    }

    open spec fn trains_to(&self, train_delta: &Self::TrainDelta, after: &Self) -> bool {
        self.0.trains_to(train_delta, &after.0)
    }

    fn train(&mut self, train_delta: &Self::TrainDelta) {
        self.0.train(train_delta);
    }
}

impl<G: Forward<Internal = EmptyData>> Forward for Map2Static<G> {
    type Input = Tensor2<G::Input>;

    type Internal = EmptyData;

    type Output = Tensor2<G::Output>;

    open spec fn accepts(&self, input: &Self::Input) -> bool {
        &&& input.wf()
        &&& forall|r: int, c: int| input.holds(r, c) ==> self.0.accepts(#[trigger] &input.at(r, c))
    }

    open spec fn yields(&self, input: &Self::Input, internal: &EmptyData, output: &Self::Output) -> bool {
        &&& output.wf()
        &&& output.same_shape(input)
        &&& forall|r: int, c: int|
            input.holds(r, c) ==> self.0.yields(&input.at(r, c), &EmptyData, #[trigger] &output.at(r, c))
    }

    fn forward(&self, input: &Self::Input) -> (both: (EmptyData, Self::Output)) {
        proof {
            assert forall|r: int, c: int| 0 <= r < input.data@.len() && 0 <= c < input.data@[r]@.len() implies self.0.accepts(
                #[trigger] &input.data@[r]@[c],
            ) by {
                assert(input.holds(r, c));
                assert(self.0.accepts(&input.at(r, c)));
            }
        }
        let (internals, outputs) = forward_grid(&self.0, &input.data);
        let both = (EmptyData, Tensor2 { rows: input.rows, cols: input.cols, data: outputs });
        proof {
            assert forall|r: int, c: int| input.holds(r, c) implies self.0.yields(
                &input.at(r, c),
                &EmptyData,
                #[trigger] &both.1.at(r, c),
            ) by {
                assert(self.0.yields(&input.data@[r]@[c], &internals@[r]@[c], &both.1.data@[r]@[c]));
            }
        }
        both
    }
}

impl<G> Backward for Map2Static<G> where
    G: Backward<TrainDelta = EmptyData> + Forward<Internal = EmptyData>,
 {
    type OutputDelta = Tensor2<G::OutputDelta>;

    type InputDelta = Tensor2<G::InputDelta>;

    type TrainDelta = EmptyData;

    open spec fn accepts_back(
        &self,
        input: &Self::Input,
        internal: &EmptyData,
        output_delta: &Self::OutputDelta,
    ) -> bool {
        &&& input.wf()
        &&& output_delta.wf()
        &&& output_delta.same_shape(input)
        &&& forall|r: int, c: int|
            input.holds(r, c) ==> self.0.accepts_back(
                &input.at(r, c),
                &EmptyData,
                #[trigger] &output_delta.at(r, c),
            )
    }

    open spec fn sends_back(
        &self,
        input: &Self::Input,
        internal: &EmptyData,
        output_delta: &Self::OutputDelta,
        input_delta: &Self::InputDelta,
        train_delta: &EmptyData,
    ) -> bool {
        &&& input_delta.wf()
        &&& input_delta.same_shape(input)
        &&& forall|r: int, c: int|
            input.holds(r, c) ==> self.0.sends_back(
                &input.at(r, c),
                &EmptyData,
                &output_delta.at(r, c),
                #[trigger] &input_delta.at(r, c),
                &EmptyData,
            )
    }

    fn backward(&self, input: &Self::Input, internal: &EmptyData, output_delta: &Self::OutputDelta) -> (both:
        (Self::InputDelta, EmptyData)) {
        proof {
            assert forall|r: int, c: int| 0 <= r < input.data@.len() && 0 <= c < input.data@[r]@.len() implies self.0.accepts_back(
                &input.data@[r]@[c],
                &EmptyData,
                #[trigger] &output_delta.data@[r]@[c],
            ) by {
                assert(input.holds(r, c));
                assert(self.0.accepts_back(&input.at(r, c), &EmptyData, &output_delta.at(r, c)));
            }
        }
        let (input_deltas, Ghost(parts)) = backward_grid_shared(
            &self.0,
            &input.data,
            &EmptyData,
            &output_delta.data,
        );
        let both = (Tensor2 { rows: input.rows, cols: input.cols, data: input_deltas }, EmptyData);
        proof {
            assert forall|r: int, c: int| input.holds(r, c) implies self.0.sends_back(
                &input.at(r, c),
                &EmptyData,
                &output_delta.at(r, c),
                #[trigger] &both.0.at(r, c),
                &EmptyData,
            ) by {
                assert(self.0.sends_back(
                    &input.data@[r]@[c],
                    &EmptyData,
                    &output_delta.data@[r]@[c],
                    &both.0.data@[r]@[c],
                    &parts[r][c],
                ));
            }
        }
        both
    }
}

impl<G> Train for Map2Static<G> where
    G: Backward<TrainDelta = EmptyData> + Forward<Internal = EmptyData>,
 {
    open spec fn accepts_update(&self, train_delta: &EmptyData) -> bool {
        true
    }

    /// There is nothing to train: the operator stays as it is.
    open spec fn trains_to(&self, train_delta: &EmptyData, after: &Self) -> bool {
        *after == *self
    }

    fn train(&mut self, train_delta: &EmptyData) {
    }
}

impl<G: Forward> Forward for Map2Many<G> {
    type Input = Tensor2<G::Input>;

    type Internal = Tensor2<G::Internal>;

    type Output = Tensor2<G::Output>;

    /// The input has the shape of the tensor of operators.
    open spec fn accepts(&self, input: &Self::Input) -> bool {
        &&& self.0.wf()
        &&& input.wf()
        &&& input.same_shape(&self.0)
        &&& forall|r: int, c: int| input.holds(r, c) ==> self.0.at(r, c).accepts(#[trigger] &input.at(r, c))
    }

    open spec fn yields(
        &self,
        input: &Self::Input,
        internal: &Self::Internal,
        output: &Self::Output,
    ) -> bool {
        &&& internal.wf()
        &&& internal.same_shape(input)
        &&& output.wf()
        &&& output.same_shape(input)
        &&& forall|r: int, c: int|
            input.holds(r, c) ==> self.0.at(r, c).yields(
                &input.at(r, c),
                &internal.at(r, c),
                #[trigger] &output.at(r, c),
            )
    }

    fn forward(&self, input: &Self::Input) -> (both: (Self::Internal, Self::Output)) {
        proof {
            assert forall|r: int, c: int| 0 <= r < self.0.data@.len() && 0 <= c < self.0.data@[r]@.len() implies self.0.data@[r]@[c].accepts(
                #[trigger] &input.data@[r]@[c],
            ) by {
                assert(input.holds(r, c));
                assert(self.0.at(r, c).accepts(&input.at(r, c)));
            }
        }
        let (internals, outputs) = forward_grid_many(&self.0.data, &input.data);
        let both = (
            Tensor2 { rows: input.rows, cols: input.cols, data: internals },
            Tensor2 { rows: input.rows, cols: input.cols, data: outputs },
        );
        proof {
            assert forall|r: int, c: int| input.holds(r, c) implies self.0.at(r, c).yields(
                &input.at(r, c),
                &both.0.at(r, c),
                #[trigger] &both.1.at(r, c),
            ) by {
                assert(self.0.data@[r]@[c].yields(&input.data@[r]@[c], &both.0.data@[r]@[c], &both.1.data@[r]@[c]));
            }
        }
        both
    }
}

impl<G: Backward> Backward for Map2Many<G> {
    type OutputDelta = Tensor2<G::OutputDelta>;

    type InputDelta = Tensor2<G::InputDelta>;

    type TrainDelta = Ndeep<Tensor2<G::TrainDelta>>;

    open spec fn accepts_back(
        &self,
        input: &Self::Input,
        internal: &Self::Internal,
        output_delta: &Self::OutputDelta,
    ) -> bool {
        &&& self.0.wf()
        &&& input.wf()
        &&& input.same_shape(&self.0)
        &&& internal.wf()
        &&& internal.same_shape(input)
        &&& output_delta.wf()
        &&& output_delta.same_shape(input)
        &&& forall|r: int, c: int|
            input.holds(r, c) ==> self.0.at(r, c).accepts_back(
                &input.at(r, c),
                &internal.at(r, c),
                #[trigger] &output_delta.at(r, c),
            )
    }

    /// Every cell's gradient goes back through the operator at its
    /// place; the update holds, at every place, that operator's update.
    open spec fn sends_back(
        &self,
        input: &Self::Input,
        internal: &Self::Internal,
        output_delta: &Self::OutputDelta,
        input_delta: &Self::InputDelta,
        train_delta: &Self::TrainDelta,
    ) -> bool {
        &&& input_delta.wf()
        &&& input_delta.same_shape(input)
        &&& train_delta.0.wf()
        &&& train_delta.0.same_shape(input)
        &&& forall|r: int, c: int|
            input.holds(r, c) ==> self.0.at(r, c).sends_back(
                &input.at(r, c),
                &internal.at(r, c),
                &output_delta.at(r, c),
                #[trigger] &input_delta.at(r, c),
                &train_delta.0.at(r, c),
            )
    }

    fn backward(
        &self,
        input: &Self::Input,
        internal: &Self::Internal,
        output_delta: &Self::OutputDelta,
    ) -> (both: (Self::InputDelta, Self::TrainDelta)) {
        proof {
            assert forall|r: int, c: int| 0 <= r < self.0.data@.len() && 0 <= c < self.0.data@[r]@.len() implies self.0.data@[r]@[c].accepts_back(
                &input.data@[r]@[c],
                &internal.data@[r]@[c],
                #[trigger] &output_delta.data@[r]@[c],
            ) by {
                assert(input.holds(r, c));
                assert(self.0.at(r, c).accepts_back(&input.at(r, c), &internal.at(r, c), &output_delta.at(r, c)));
            }
        }
        let (input_deltas, train_deltas) = backward_grid_many(
            &self.0.data,
            &input.data,
            &internal.data,
            &output_delta.data,
        );
        let both = (
            Tensor2 { rows: input.rows, cols: input.cols, data: input_deltas },
            Ndeep(Tensor2 { rows: input.rows, cols: input.cols, data: train_deltas }),
        );
        proof {
            assert forall|r: int, c: int| input.holds(r, c) implies self.0.at(r, c).sends_back(
                &input.at(r, c),
                &internal.at(r, c),
                &output_delta.at(r, c),
                #[trigger] &both.0.at(r, c),
                &both.1.0.at(r, c),
            ) by {
                assert(self.0.data@[r]@[c].sends_back(
                    &input.data@[r]@[c],
                    &internal.data@[r]@[c],
                    &output_delta.data@[r]@[c],
                    &both.0.data@[r]@[c],
                    &both.1.0.data@[r]@[c],
                ));
            }
        }
        both
    }
}

impl<G: Train> Train for Map2Many<G> {
    open spec fn accepts_update(&self, train_delta: &Self::TrainDelta) -> bool {
        &&& self.0.wf()
        &&& train_delta.0.wf()
        &&& train_delta.0.same_shape(&self.0)
        &&& forall|r: int, c: int|
            self.0.holds(r, c) ==> (#[trigger] self.0.at(r, c)).accepts_update(&train_delta.0.at(r, c))
    }

    open spec fn trains_to(&self, train_delta: &Self::TrainDelta, after: &Self) -> bool {
        &&& after.0.wf()
        &&& after.0.same_shape(&self.0)
        &&& forall|r: int, c: int|
            self.0.holds(r, c) ==> self.0.at(r, c).trains_to(
                &train_delta.0.at(r, c),
                #[trigger] &after.0.at(r, c),
            )
    }

    fn train(&mut self, train_delta: &Self::TrainDelta) {
        proof {
            assert forall|r: int, c: int| 0 <= r < self.0.data@.len() && 0 <= c < self.0.data@[r]@.len() implies (#[trigger] self.0.data@[r]@[c]).accepts_update(
                &train_delta.0.data@[r]@[c],
            ) by {
                assert(self.0.holds(r, c));
                assert(self.0.at(r, c).accepts_update(&train_delta.0.at(r, c)));
            }
        }
        train_grid(&mut self.0.data, &train_delta.0.data);
        proof {
            assert forall|r: int, c: int| old(self).0.holds(r, c) implies old(self).0.at(r, c).trains_to(
                &train_delta.0.at(r, c),
                #[trigger] &self.0.at(r, c),
            ) by {
                assert(old(self).0.data@[r]@[c].trains_to(&train_delta.0.data@[r]@[c], &self.0.data@[r]@[c]));
            }
        }
    }
}

} // verus!
