//! One operator applied to every cell of a tensor of one axis.

use crate::delta::{DeltaUnit, EmptyData};
use crate::each::{
    backward_row, folds, forward_row, lemma_folds_unique, sum_is_unique, update_is_unique,
    zero_is_unique,
};
use crate::operator::{Backward, Forward, Train};
use crate::tensor::Tensor1;
use vstd::prelude::*;

verus! {

/// A shared operator, applied cell by cell. The updates of the cells are
/// summed, since they all belong to the one operator.
#[derive(Clone, Debug)]
pub struct Map1One<G>(pub G);

/// A shared operator without parameters, applied cell by cell.
#[derive(Clone, Debug)]
pub struct Map1Static<G>(pub G);

impl<G: Forward> Forward for Map1One<G> {
    type Input = Tensor1<G::Input>;

    type Internal = Tensor1<G::Internal>;

    type Output = Tensor1<G::Output>;

    open spec fn accepts(&self, input: &Self::Input) -> bool {
        forall|i: int| input.holds(i) ==> self.0.accepts(#[trigger] &input.at(i))
    }

    open spec fn yields(
        &self,
        input: &Self::Input,
        internal: &Self::Internal,
        output: &Self::Output,
    ) -> bool {
        &&& internal.len() == input.len()
        &&& output.len() == input.len()
        &&& forall|i: int|
            input.holds(i) ==> self.0.yields(&input.at(i), &internal.at(i), #[trigger] &output.at(i))
    }

    fn forward(&self, input: &Self::Input) -> (both: (Self::Internal, Self::Output)) {
        proof {
            assert forall|i: int| 0 <= i < input.data@.len() implies self.0.accepts(
                #[trigger] &input.data@[i],
            ) by {
                assert(self.0.accepts(&input.at(i)));
            }
        }
        let (internals, outputs) = forward_row(&self.0, &input.data);
        let both = (Tensor1 { data: internals }, Tensor1 { data: outputs });
        proof {
            assert forall|i: int| input.holds(i) implies self.0.yields(
                &input.at(i),
                &both.0.at(i),
                #[trigger] &both.1.at(i),
            ) by {
                assert(self.0.yields(&input.data@[i], &both.0.data@[i], &both.1.data@[i]));
            }
        }
        both
    }
}

impl<G: Backward> Backward for Map1One<G> where G::TrainDelta: DeltaUnit {
    type OutputDelta = Tensor1<G::OutputDelta>;

    type InputDelta = Tensor1<G::InputDelta>;

    type TrainDelta = G::TrainDelta;

    open spec fn accepts_back(
        &self,
        input: &Self::Input,
        internal: &Self::Internal,
        output_delta: &Self::OutputDelta,
    ) -> bool {
        &&& internal.len() == input.len()
        &&& output_delta.len() == input.len()
        &&& forall|i: int|
            input.holds(i) ==> self.0.accepts_back(
                &input.at(i),
                &internal.at(i),
                #[trigger] &output_delta.at(i),
            )
    }

    /// Every cell's gradient goes back through the operator, and the
    /// update is the sum, from zero and in the cells' order, of the
    /// updates that the cells give.
    open spec fn sends_back(
        &self,
        input: &Self::Input,
        internal: &Self::Internal,
        output_delta: &Self::OutputDelta,
        input_delta: &Self::InputDelta,
        train_delta: &Self::TrainDelta,
    ) -> bool {
        &&& input_delta.len() == input.len()
        &&& exists|parts: Seq<G::TrainDelta>, zero: G::TrainDelta|
            {
                &&& parts.len() == input.len()
                &&& forall|i: int|
                    input.holds(i) ==> self.0.sends_back(
                        &input.at(i),
                        &internal.at(i),
                        &output_delta.at(i),
                        #[trigger] &input_delta.at(i),
                        &parts[i],
                    )
                &&& zero.is_zero_spec()
                &&& #[trigger] folds(zero, parts, *train_delta)
            }
    }

    fn backward(
        &self,
        input: &Self::Input,
        internal: &Self::Internal,
        output_delta: &Self::OutputDelta,
    ) -> (both: (Self::InputDelta, Self::TrainDelta)) {
        proof {
            assert forall|i: int| 0 <= i < input.data@.len() implies self.0.accepts_back(
                &input.data@[i],
                &internal.data@[i],
                #[trigger] &output_delta.data@[i],
            ) by {
                assert(self.0.accepts_back(&input.at(i), &internal.at(i), &output_delta.at(i)));
            }
        }
        let zero: G::TrainDelta = G::TrainDelta::zero();
        let ghost start = zero;
        let (input_deltas, total, Ghost(parts)) = backward_row(
            &self.0,
            &input.data,
            &internal.data,
            &output_delta.data,
            zero,
        );
        let both = (Tensor1 { data: input_deltas }, total);
        proof {
            assert forall|i: int| input.holds(i) implies self.0.sends_back(
                &input.at(i),
                &internal.at(i),
                &output_delta.at(i),
                #[trigger] &both.0.at(i),
                &parts[i],
            ) by {
                assert(self.0.sends_back(
                    &input.data@[i],
                    &internal.data@[i],
                    &output_delta.data@[i],
                    &both.0.data@[i],
                    &parts[i],
                ));
            }
            assert(folds(start, parts, both.1));
        }
        both
    }
}

impl<G: Train> Train for Map1One<G> where G::TrainDelta: DeltaUnit {
    open spec fn accepts_update(&self, train_delta: &Self::TrainDelta) -> bool {
        self.0.accepts_update(train_delta)
    }

    open spec fn trains_to(&self, train_delta: &Self::TrainDelta, after: &Self) -> bool {
        self.0.trains_to(train_delta, &after.0)
    }

    fn train(&mut self, train_delta: &Self::TrainDelta) {
        self.0.train(train_delta);
    }
}

impl<G: Forward<Internal = EmptyData>> Forward for Map1Static<G> {
    type Input = Tensor1<G::Input>;

    type Internal = EmptyData;

    type Output = Tensor1<G::Output>;

    open spec fn accepts(&self, input: &Self::Input) -> bool {
        forall|i: int| input.holds(i) ==> self.0.accepts(#[trigger] &input.at(i))
    }

    open spec fn yields(&self, input: &Self::Input, internal: &EmptyData, output: &Self::Output) -> bool {
        &&& output.len() == input.len()
        &&& forall|i: int|
            input.holds(i) ==> self.0.yields(&input.at(i), &EmptyData, #[trigger] &output.at(i))
    }

    fn forward(&self, input: &Self::Input) -> (both: (EmptyData, Self::Output)) {
        proof {
            assert forall|i: int| 0 <= i < input.data@.len() implies self.0.accepts(
                #[trigger] &input.data@[i],
            ) by {
                assert(self.0.accepts(&input.at(i)));
            }
        }
        let (internals, outputs) = forward_row(&self.0, &input.data);
        let both = (EmptyData, Tensor1 { data: outputs });
        proof {
            assert forall|i: int| input.holds(i) implies self.0.yields(
                &input.at(i),
                &EmptyData,
                #[trigger] &both.1.at(i),
            ) by {
                assert(self.0.yields(&input.data@[i], &internals@[i], &both.1.data@[i]));
            }
        }
        both
    }
}

impl<G> Backward for Map1Static<G> where
    G: Backward<TrainDelta = EmptyData> + Forward<Internal = EmptyData>,
 {
    type OutputDelta = Tensor1<G::OutputDelta>;

    type InputDelta = Tensor1<G::InputDelta>;

    type TrainDelta = EmptyData;

    open spec fn accepts_back(
        &self,
        input: &Self::Input,
        internal: &EmptyData,
        output_delta: &Self::OutputDelta,
    ) -> bool {
        &&& output_delta.len() == input.len()
        &&& forall|i: int|
            input.holds(i) ==> self.0.accepts_back(
                &input.at(i),
                &EmptyData,
                #[trigger] &output_delta.at(i),
            )
    }

    open spec fn sends_back(
        &self,
        input: &Self::Input,
        internal: &EmptyData,
        output_delta: &Self::OutputDelta,
        input_delta: &Self::InputDelta,
        train_delta: &EmptyData,
    ) -> bool {
        &&& input_delta.len() == input.len()
        &&& forall|i: int|
            input.holds(i) ==> self.0.sends_back(
                &input.at(i),
                &EmptyData,
                &output_delta.at(i),
                #[trigger] &input_delta.at(i),
                &EmptyData,
            )
    }

    fn backward(&self, input: &Self::Input, internal: &EmptyData, output_delta: &Self::OutputDelta) -> (both:
        (Self::InputDelta, EmptyData)) {
        let mut input_deltas: Vec<G::InputDelta> = Vec::new();
        let n: usize = input.data.len();
        let mut i: usize = 0;
        while i < n
            invariant
                i <= n,
                n == input.len(),
                self.accepts_back(input, internal, output_delta),
                input_deltas@.len() == i,
                forall|k: int|
                    0 <= k < i ==> self.0.sends_back(
                        &input.at(k),
                        &EmptyData,
                        &output_delta.at(k),
                        #[trigger] &input_deltas@[k],
                        &EmptyData,
                    ),
            decreases n - i,
        {
            assert(self.0.accepts_back(&input.at(i as int), &EmptyData, &output_delta.at(i as int)));
            let (input_delta, train_delta) = self.0.backward(
                input.get(i),
                &EmptyData,
                output_delta.get(i),
            );
            input_deltas.push(input_delta);
            i += 1;
        }
        let both = (Tensor1 { data: input_deltas }, EmptyData);
        proof {
            assert forall|k: int| input.holds(k) implies self.0.sends_back(
                &input.at(k),
                &EmptyData,
                &output_delta.at(k),
                #[trigger] &both.0.at(k),
                &EmptyData,
            ) by {
                assert(self.0.sends_back(
                    &input.at(k),
                    &EmptyData,
                    &output_delta.at(k),
                    &both.0.data@[k],
                    &EmptyData,
                ));
            }
        }
        both
    }
}

impl<G> Train for Map1Static<G> where
    G: Backward<TrainDelta = EmptyData> + Forward<Internal = EmptyData>,
 {
    open spec fn accepts_update(&self, train_delta: &EmptyData) -> bool {
        true
    }

    /// There is nothing to train: the operator stays as it is.
    open spec fn trains_to(&self, train_delta: &EmptyData, after: &Self) -> bool {
        *after == *self
    }

    fn train(&mut self, train_delta: &EmptyData) {
    }
}

/// The sum of the updates that the shared operator gives for the single
/// cells is an update of the mapped operator: send every cell's gradient
/// back on its own, add what comes back to zero in the cells' order, and
/// the result is what the mapped operator sends back.
pub proof fn lemma_map_one_sends_the_sum<G: Backward>(
    map: Map1One<G>,
    input: Tensor1<G::Input>,
    internal: Tensor1<G::Internal>,
    output_delta: Tensor1<G::OutputDelta>,
    input_delta: Tensor1<G::InputDelta>,
    parts: Seq<G::TrainDelta>,
    zero: G::TrainDelta,
    total: G::TrainDelta,
) where G::TrainDelta: DeltaUnit
    requires
        input_delta.len() == input.len(),
        parts.len() == input.len(),
        forall|i: int|
            input.holds(i) ==> map.0.sends_back(
                &input.at(i),
                &internal.at(i),
                &output_delta.at(i),
                #[trigger] &input_delta.at(i),
                &parts[i],
            ),
        zero.is_zero_spec(),
        folds(zero, parts, total),
    ensures
        map.sends_back(&input, &internal, &output_delta, &input_delta, &total),
{
}

/// Where sums, the zero and the shared operator's updates are unique,
/// the update of the mapped operator equals the sum of the updates that
/// the shared operator gives for the single cells.
pub proof fn lemma_map_one_reduction<G: Backward>(
    map: Map1One<G>,
    input: Tensor1<G::Input>,
    internal: Tensor1<G::Internal>,
    output_delta: Tensor1<G::OutputDelta>,
    input_delta: Tensor1<G::InputDelta>,
    train_delta: G::TrainDelta,
    parts: Seq<G::TrainDelta>,
    zero: G::TrainDelta,
    total: G::TrainDelta,
) where G::TrainDelta: DeltaUnit
    requires
        sum_is_unique::<G::TrainDelta>(),
        zero_is_unique::<G::TrainDelta>(),
        update_is_unique(&map.0),
        map.sends_back(&input, &internal, &output_delta, &input_delta, &train_delta),
        parts.len() == input.len(),
        forall|i: int|
            input.holds(i) ==> exists|given: G::InputDelta| #[trigger]
                map.0.sends_back(
                    &input.at(i),
                    &internal.at(i),
                    &output_delta.at(i),
                    &given,
                    &parts[i],
                ),
        zero.is_zero_spec(),
        folds(zero, parts, total),
    ensures
        total == train_delta,
{
    let (own_parts, own_zero) = choose|own_parts: Seq<G::TrainDelta>, own_zero: G::TrainDelta|
        {
            &&& own_parts.len() == input.len()
            &&& forall|i: int|
                input.holds(i) ==> map.0.sends_back(
                    &input.at(i),
                    &internal.at(i),
                    &output_delta.at(i),
                    #[trigger] &input_delta.at(i),
                    &own_parts[i],
                )
            &&& own_zero.is_zero_spec()
            &&& #[trigger] folds(own_zero, own_parts, train_delta)
        };
    assert forall|i: int| 0 <= i < parts.len() implies parts[i] == own_parts[i] by {
        assert(input.holds(i));
        let given = choose|given: G::InputDelta| #[trigger]
            map.0.sends_back(&input.at(i), &internal.at(i), &output_delta.at(i), &given, &parts[i]);
        assert(map.0.sends_back(
            &input.at(i),
            &internal.at(i),
            &output_delta.at(i),
            &input_delta.at(i),
            &own_parts[i],
        ));
    }
    assert(parts =~= own_parts);
    lemma_folds_unique(zero, parts, total, train_delta);
}

} // verus!
