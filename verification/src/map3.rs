//! Operators applied to every cell of a tensor of three axes.

use crate::delta::{DeltaUnit, EmptyData};
use crate::each::{
    backward_block, backward_block_many, backward_block_shared, folds, forward_block,
    forward_block_many, train_block,
};
use crate::ndeep::Ndeep;
use crate::operator::{Backward, Forward, Train};
use crate::tensor::Tensor3;
use vstd::prelude::*;

verus! {

/// A shared operator, applied cell by cell. The updates of the cells are
/// summed, since they all belong to the one operator.
#[derive(Clone, Debug)]
pub struct Map3One<G>(pub G);

/// A shared operator without parameters, applied cell by cell.
#[derive(Clone, Debug)]
pub struct Map3Static<G>(pub G);

/// A tensor of operators, each applied to the cell at its place and
/// trained by the update at its place.
#[derive(Debug)]
pub struct Map3Many<G>(pub Tensor3<G>);

impl<G: Forward> Forward for Map3One<G> {
    type Input = Tensor3<G::Input>;

    type Internal = Tensor3<G::Internal>;

    type Output = Tensor3<G::Output>;

    open spec fn accepts(&self, input: &Self::Input) -> bool {
        &&& input.wf()
        &&& forall|d: int, r: int, c: int| input.holds(d, r, c) ==> self.0.accepts(#[trigger] &input.at(d, r, c))
    }

    open spec fn yields(
        &self,
        input: &Self::Input,
        internal: &Self::Internal,
        output: &Self::Output,
    ) -> bool {
        &&& internal.wf()
        &&& internal.same_shape(input)
        &&& output.wf()
        &&& output.same_shape(input)
        &&& forall|d: int, r: int, c: int|
            input.holds(d, r, c) ==> self.0.yields(
                &input.at(d, r, c),
                &internal.at(d, r, c),
                #[trigger] &output.at(d, r, c),
            )
    }

    fn forward(&self, input: &Self::Input) -> (both: (Self::Internal, Self::Output)) {
        proof {
            assert forall|d: int, r: int, c: int| 0 <= d < input.data@.len() && 0 <= r < input.data@[d]@.len() && 0 <= c < input.data@[d]@[r]@.len() implies self.0.accepts(
                #[trigger] &input.data@[d]@[r]@[c],
            ) by {
                assert(input.holds(d, r, c));
                assert(self.0.accepts(&input.at(d, r, c)));
            }
        }
        let (internals, outputs) = forward_block(&self.0, &input.data);
        let both = (
            Tensor3 { depth: input.depth, rows: input.rows, cols: input.cols, data: internals },
            Tensor3 { depth: input.depth, rows: input.rows, cols: input.cols, data: outputs },
        );
        proof {
            assert forall|d: int, r: int, c: int| input.holds(d, r, c) implies self.0.yields(
                &input.at(d, r, c),
                &both.0.at(d, r, c),
                #[trigger] &both.1.at(d, r, c),
            ) by {
                assert(self.0.yields(&input.data@[d]@[r]@[c], &both.0.data@[d]@[r]@[c], &both.1.data@[d]@[r]@[c]));
            }
        }
        both
    }
}

impl<G: Backward> Backward for Map3One<G> where G::TrainDelta: DeltaUnit {
    type OutputDelta = Tensor3<G::OutputDelta>;

    type InputDelta = Tensor3<G::InputDelta>;

    type TrainDelta = G::TrainDelta;

    open spec fn accepts_back(
        &self,
        input: &Self::Input,
        internal: &Self::Internal,
        output_delta: &Self::OutputDelta,
    ) -> bool {
        &&& input.wf()
        &&& internal.wf()
        &&& internal.same_shape(input)
        &&& output_delta.wf()
        &&& output_delta.same_shape(input)
        &&& forall|d: int, r: int, c: int|
            input.holds(d, r, c) ==> self.0.accepts_back(
                &input.at(d, r, c),
                &internal.at(d, r, c),
                #[trigger] &output_delta.at(d, r, c),
            )
    }

    /// Every cell's gradient goes back through the operator, and the
    /// update is the sum, from zero and in storage order, of the updates
    /// that the cells give.
    open spec fn sends_back(
        &self,
        input: &Self::Input,
        internal: &Self::Internal,
        output_delta: &Self::OutputDelta,
        input_delta: &Self::InputDelta,
        train_delta: &Self::TrainDelta,
    ) -> bool {
        &&& input_delta.wf()
        &&& input_delta.same_shape(input)
        &&& exists|parts: Seq<Seq<Seq<G::TrainDelta>>>, zero: G::TrainDelta|
            {
                &&& parts.len() == input.depth
                &&& forall|d: int| 0 <= d < input.depth ==> (#[trigger] parts[d]).len() == input.rows
                &&& forall|d: int, r: int|
                    0 <= d < input.depth && 0 <= r < input.rows ==> (#[trigger] parts[d][r]).len()
                        == input.cols
                &&& forall|d: int, r: int, c: int|
                    input.holds(d, r, c) ==> self.0.sends_back(
                        &input.at(d, r, c),
                        &internal.at(d, r, c),
                        &output_delta.at(d, r, c),
                        #[trigger] &input_delta.at(d, r, c),
                        &parts[d][r][c],
                    )
                &&& zero.is_zero_spec()
                &&& #[trigger] folds(zero, parts.flatten().flatten(), *train_delta)
            }
    }

    fn backward(
        &self,
        input: &Self::Input,
        internal: &Self::Internal,
        output_delta: &Self::OutputDelta,
    ) -> (both: (Self::InputDelta, Self::TrainDelta)) {
        proof {
            assert forall|d: int, r: int, c: int| 0 <= d < input.data@.len() && 0 <= r < input.data@[d]@.len() && 0 <= c < input.data@[d]@[r]@.len() implies self.0.accepts_back(
                &input.data@[d]@[r]@[c],
                &internal.data@[d]@[r]@[c],
                #[trigger] &output_delta.data@[d]@[r]@[c],
            ) by {
                assert(input.holds(d, r, c));
                assert(self.0.accepts_back(&input.at(d, r, c), &internal.at(d, r, c), &output_delta.at(d, r, c)));
            }
        }
        let zero: G::TrainDelta = G::TrainDelta::zero();
        let ghost start = zero;
        let (input_deltas, total, Ghost(parts)) = backward_block(
            &self.0,
            &input.data,
            &internal.data,
            &output_delta.data,
            zero,
        );
        let both = (Tensor3 { depth: input.depth, rows: input.rows, cols: input.cols, data: input_deltas }, total);
        proof {
            assert forall|d: int, r: int, c: int| input.holds(d, r, c) implies self.0.sends_back(
                &input.at(d, r, c),
                &internal.at(d, r, c),
                &output_delta.at(d, r, c),
                #[trigger] &both.0.at(d, r, c),
                &parts[d][r][c],
            ) by {
                assert(self.0.sends_back(
                    &input.data@[d]@[r]@[c],
                    &internal.data@[d]@[r]@[c],
                    &output_delta.data@[d]@[r]@[c],
                    &both.0.data@[d]@[r]@[c],
                    &parts[d][r][c],
                ));
            }
            assert(start.is_zero_spec());
            assert(folds(start, parts.flatten().flatten(), both.1));
        }
        both
    }
}

impl<G: Train> Train for Map3One<G> where G::TrainDelta: DeltaUnit {
    open spec fn accepts_update(&self, train_delta: &Self::TrainDelta) -> bool {
        self.0.accepts_update(train_delta)
    }

    open spec fn trains_to(&self, train_delta: &Self::TrainDelta, after: &Self) -> bool {
        self.0.trains_to(train_delta, &after.0)
    }

    fn train(&mut self, train_delta: &Self::TrainDelta) {
        self.0.train(train_delta);
    }
}

impl<G: Forward<Internal = EmptyData>> Forward for Map3Static<G> {
    type Input = Tensor3<G::Input>;

    type Internal = EmptyData;

    type Output = Tensor3<G::Output>;

    open spec fn accepts(&self, input: &Self::Input) -> bool {
        &&& input.wf()
        &&& forall|d: int, r: int, c: int| input.holds(d, r, c) ==> self.0.accepts(#[trigger] &input.at(d, r, c))
    }

    open spec fn yields(&self, input: &Self::Input, internal: &EmptyData, output: &Self::Output) -> bool {
        &&& output.wf()
        &&& output.same_shape(input)
        &&& forall|d: int, r: int, c: int|
            input.holds(d, r, c) ==> self.0.yields(&input.at(d, r, c), &EmptyData, #[trigger] &output.at(d, r, c))
    }

    fn forward(&self, input: &Self::Input) -> (both: (EmptyData, Self::Output)) {
        proof {
            assert forall|d: int, r: int, c: int| 0 <= d < input.data@.len() && 0 <= r < input.data@[d]@.len() && 0 <= c < input.data@[d]@[r]@.len() implies self.0.accepts(
                #[trigger] &input.data@[d]@[r]@[c],
            ) by {
                assert(input.holds(d, r, c));
                assert(self.0.accepts(&input.at(d, r, c)));
            }
        }
        let (internals, outputs) = forward_block(&self.0, &input.data);
        let both = (EmptyData, Tensor3 { depth: input.depth, rows: input.rows, cols: input.cols, data: outputs });
        proof {
            assert forall|d: int, r: int, c: int| input.holds(d, r, c) implies self.0.yields(
                &input.at(d, r, c),
                &EmptyData,
                #[trigger] &both.1.at(d, r, c),
            ) by {
                assert(self.0.yields(&input.data@[d]@[r]@[c], &internals@[d]@[r]@[c], &both.1.data@[d]@[r]@[c]));
            }
        }
        both
    }
}

impl<G> Backward for Map3Static<G> where
    G: Backward<TrainDelta = EmptyData> + Forward<Internal = EmptyData>,
 {
    type OutputDelta = Tensor3<G::OutputDelta>;

    type InputDelta = Tensor3<G::InputDelta>;

    type TrainDelta = EmptyData;

    open spec fn accepts_back(
        &self,
        input: &Self::Input,
        internal: &EmptyData,
        output_delta: &Self::OutputDelta,
    ) -> bool {
        &&& input.wf()
        &&& output_delta.wf()
        &&& output_delta.same_shape(input)
        &&& forall|d: int, r: int, c: int|
            input.holds(d, r, c) ==> self.0.accepts_back(
                &input.at(d, r, c),
                &EmptyData,
                #[trigger] &output_delta.at(d, r, c),
            )
    }

    open spec fn sends_back(
        &self,
        input: &Self::Input,
        internal: &EmptyData,
        output_delta: &Self::OutputDelta,
        input_delta: &Self::InputDelta,
        train_delta: &EmptyData,
    ) -> bool {
        &&& input_delta.wf()
        &&& input_delta.same_shape(input)
        &&& forall|d: int, r: int, c: int|
            input.holds(d, r, c) ==> self.0.sends_back(
                &input.at(d, r, c),
                &EmptyData,
                &output_delta.at(d, r, c),
                #[trigger] &input_delta.at(d, r, c),
                &EmptyData,
            )
    }

    fn backward(&self, input: &Self::Input, internal: &EmptyData, output_delta: &Self::OutputDelta) -> (both:
        (Self::InputDelta, EmptyData)) {
        proof {
            assert forall|d: int, r: int, c: int| 0 <= d < input.data@.len() && 0 <= r < input.data@[d]@.len() && 0 <= c < input.data@[d]@[r]@.len() implies self.0.accepts_back(
                &input.data@[d]@[r]@[c],
                &EmptyData,
                #[trigger] &output_delta.data@[d]@[r]@[c],
            ) by {
                assert(input.holds(d, r, c));
                assert(self.0.accepts_back(&input.at(d, r, c), &EmptyData, &output_delta.at(d, r, c)));
            }
        }
        let (input_deltas, Ghost(parts)) = backward_block_shared(
            &self.0,
            &input.data,
            &EmptyData,
            &output_delta.data,
        );
        let both = (Tensor3 { depth: input.depth, rows: input.rows, cols: input.cols, data: input_deltas }, EmptyData);
        proof {
            assert forall|d: int, r: int, c: int| input.holds(d, r, c) implies self.0.sends_back(
                &input.at(d, r, c),
                &EmptyData,
                &output_delta.at(d, r, c),
                #[trigger] &both.0.at(d, r, c),
                &EmptyData,
            ) by {
                assert(self.0.sends_back(
                    &input.data@[d]@[r]@[c],
                    &EmptyData,
                    &output_delta.data@[d]@[r]@[c],
                    &both.0.data@[d]@[r]@[c],
                    &parts[d][r][c],
                ));
            }
        }
        both
    }
}

impl<G> Train for Map3Static<G> where
    G: Backward<TrainDelta = EmptyData> + Forward<Internal = EmptyData>,
 {
    open spec fn accepts_update(&self, train_delta: &EmptyData) -> bool {
        true
    }

    /// There is nothing to train: the operator stays as it is.
    open spec fn trains_to(&self, train_delta: &EmptyData, after: &Self) -> bool {
        *after == *self
    }

    fn train(&mut self, train_delta: &EmptyData) {
    }
}

impl<G: Forward> Forward for Map3Many<G> {
    type Input = Tensor3<G::Input>;

    type Internal = Tensor3<G::Internal>;

    type Output = Tensor3<G::Output>;

    /// The input has the shape of the tensor of operators.
    open spec fn accepts(&self, input: &Self::Input) -> bool {
        &&& self.0.wf()
        &&& input.wf()
        &&& input.same_shape(&self.0)
        &&& forall|d: int, r: int, c: int| input.holds(d, r, c) ==> self.0.at(d, r, c).accepts(#[trigger] &input.at(d, r, c))
    }

    open spec fn yields(
        &self,
        input: &Self::Input,
        internal: &Self::Internal,
        output: &Self::Output,
    ) -> bool {
        &&& internal.wf()
        &&& internal.same_shape(input)
        &&& output.wf()
        &&& output.same_shape(input)
        &&& forall|d: int, r: int, c: int|
            input.holds(d, r, c) ==> self.0.at(d, r, c).yields(
                &input.at(d, r, c),
                &internal.at(d, r, c),
                #[trigger] &output.at(d, r, c),
            )
    }

    fn forward(&self, input: &Self::Input) -> (both: (Self::Internal, Self::Output)) {
        proof {
            assert forall|d: int, r: int, c: int| 0 <= d < self.0.data@.len() && 0 <= r < self.0.data@[d]@.len() && 0 <= c < self.0.data@[d]@[r]@.len() implies self.0.data@[d]@[r]@[c].accepts(
                #[trigger] &input.data@[d]@[r]@[c],
            ) by {
                assert(input.holds(d, r, c));
                assert(self.0.at(d, r, c).accepts(&input.at(d, r, c)));
            }
        }
        let (internals, outputs) = forward_block_many(&self.0.data, &input.data);
        let both = (
            Tensor3 { depth: input.depth, rows: input.rows, cols: input.cols, data: internals },
            Tensor3 { depth: input.depth, rows: input.rows, cols: input.cols, data: outputs },
        );
        proof {
            assert forall|d: int, r: int, c: int| input.holds(d, r, c) implies self.0.at(d, r, c).yields(
                &input.at(d, r, c),
                &both.0.at(d, r, c),
                #[trigger] &both.1.at(d, r, c),
            ) by {
                assert(self.0.data@[d]@[r]@[c].yields(&input.data@[d]@[r]@[c], &both.0.data@[d]@[r]@[c], &both.1.data@[d]@[r]@[c]));
            }
        }
        both
    }
}

impl<G: Backward> Backward for Map3Many<G> {
    type OutputDelta = Tensor3<G::OutputDelta>;

    type InputDelta = Tensor3<G::InputDelta>;

    type TrainDelta = Ndeep<Tensor3<G::TrainDelta>>;

    open spec fn accepts_back(
        &self,
        input: &Self::Input,
        internal: &Self::Internal,
        output_delta: &Self::OutputDelta,
    ) -> bool {
        &&& self.0.wf()
        &&& input.wf()
        &&& input.same_shape(&self.0)
        &&& internal.wf()
        &&& internal.same_shape(input)
        &&& output_delta.wf()
        &&& output_delta.same_shape(input)
        &&& forall|d: int, r: int, c: int|
            input.holds(d, r, c) ==> self.0.at(d, r, c).accepts_back(
                &input.at(d, r, c),
                &internal.at(d, r, c),
                #[trigger] &output_delta.at(d, r, c),
            )
    }

    /// Every cell's gradient goes back through the operator at its
    /// place; the update holds, at every place, that operator's update.
    open spec fn sends_back(
        &self,
        input: &Self::Input,
        internal: &Self::Internal,
        output_delta: &Self::OutputDelta,
        input_delta: &Self::InputDelta,
        train_delta: &Self::TrainDelta,
    ) -> bool {
        &&& input_delta.wf()
        &&& input_delta.same_shape(input)
        &&& train_delta.0.wf()
        &&& train_delta.0.same_shape(input)
        &&& forall|d: int, r: int, c: int|
            input.holds(d, r, c) ==> self.0.at(d, r, c).sends_back(
                &input.at(d, r, c),
                &internal.at(d, r, c),
                &output_delta.at(d, r, c),
                #[trigger] &input_delta.at(d, r, c),
                &train_delta.0.at(d, r, c),
            )
    }

    fn backward(
        &self,
        input: &Self::Input,
        internal: &Self::Internal,
        output_delta: &Self::OutputDelta,
    ) -> (both: (Self::InputDelta, Self::TrainDelta)) {
        proof {
            assert forall|d: int, r: int, c: int| 0 <= d < self.0.data@.len() && 0 <= r < self.0.data@[d]@.len() && 0 <= c < self.0.data@[d]@[r]@.len() implies self.0.data@[d]@[r]@[c].accepts_back(
                &input.data@[d]@[r]@[c],
                &internal.data@[d]@[r]@[c],
                #[trigger] &output_delta.data@[d]@[r]@[c],
            ) by {
                assert(input.holds(d, r, c));
                assert(self.0.at(d, r, c).accepts_back(&input.at(d, r, c), &internal.at(d, r, c), &output_delta.at(d, r, c)));
            }
        }
        let (input_deltas, train_deltas) = backward_block_many(
            &self.0.data,
            &input.data,
            &internal.data,
            &output_delta.data,
        );
        let both = (
            Tensor3 { depth: input.depth, rows: input.rows, cols: input.cols, data: input_deltas },
            Ndeep(Tensor3 { depth: input.depth, rows: input.rows, cols: input.cols, data: train_deltas }),
        );
        proof {
            assert forall|d: int, r: int, c: int| input.holds(d, r, c) implies self.0.at(d, r, c).sends_back(
                &input.at(d, r, c),
                &internal.at(d, r, c),
                &output_delta.at(d, r, c),
                #[trigger] &both.0.at(d, r, c),
                &both.1.0.at(d, r, c),
            ) by {
                assert(self.0.data@[d]@[r]@[c].sends_back(
                    &input.data@[d]@[r]@[c],
                    &internal.data@[d]@[r]@[c],
                    &output_delta.data@[d]@[r]@[c],
                    &both.0.data@[d]@[r]@[c],
                    &both.1.0.data@[d]@[r]@[c],
                ));
            }
        }
        both
    }
}

impl<G: Train> Train for Map3Many<G> {
    open spec fn accepts_update(&self, train_delta: &Self::TrainDelta) -> bool {
        &&& self.0.wf()
        &&& train_delta.0.wf()
        &&& train_delta.0.same_shape(&self.0)
        &&& forall|d: int, r: int, c: int|
            self.0.holds(d, r, c) ==> (#[trigger] self.0.at(d, r, c)).accepts_update(&train_delta.0.at(d, r, c))
    }

    open spec fn trains_to(&self, train_delta: &Self::TrainDelta, after: &Self) -> bool {
        &&& after.0.wf()
        &&& after.0.same_shape(&self.0)
        &&& forall|d: int, r: int, c: int|
            self.0.holds(d, r, c) ==> self.0.at(d, r, c).trains_to(
                &train_delta.0.at(d, r, c),
                #[trigger] &after.0.at(d, r, c),
            )
    }

    fn train(&mut self, train_delta: &Self::TrainDelta) {
        proof {
            assert forall|d: int, r: int, c: int| 0 <= d < self.0.data@.len() && 0 <= r < self.0.data@[d]@.len() && 0 <= c < self.0.data@[d]@[r]@.len() implies (#[trigger] self.0.data@[d]@[r]@[c]).accepts_update(
                &train_delta.0.data@[d]@[r]@[c],
            ) by {
                assert(self.0.holds(d, r, c));
                assert(self.0.at(d, r, c).accepts_update(&train_delta.0.at(d, r, c)));
            }
        }
        train_block(&mut self.0.data, &train_delta.0.data);
        proof {
            assert forall|d: int, r: int, c: int| old(self).0.holds(d, r, c) implies old(self).0.at(d, r, c).trains_to(
                &train_delta.0.at(d, r, c),
                #[trigger] &self.0.at(d, r, c),
            ) by {
                assert(old(self).0.data@[d]@[r]@[c].trains_to(&train_delta.0.data@[d]@[r]@[c], &self.0.data@[d]@[r]@[c]));
            }
        }
    }
}

} // verus!
