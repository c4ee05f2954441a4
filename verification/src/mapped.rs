//! Sequential composition whose update is a `ChainData`.

use crate::delta::ChainData;
use crate::operator::{Backward, Forward, Train};
use vstd::prelude::*;

verus! {

/// The operator that runs the first operator and feeds its output to the
/// second. Its update holds the two updates as parts that can be summed
/// and scaled together.
#[derive(Clone, Debug)]
pub struct Mapped<T, U>(pub T, pub U);

impl<T, U> Forward for Mapped<T, U> where T: Forward, U: Forward<Input = T::Output> {
    type Input = T::Input;

    type Internal = (T::Internal, T::Output, U::Internal);

    type Output = U::Output;

    open spec fn accepts(&self, input: &Self::Input) -> bool {
        &&& self.0.accepts(input)
        &&& forall|cache: T::Internal, middle: T::Output| #[trigger]
            self.0.yields(input, &cache, &middle) ==> self.1.accepts(&middle)
    }

    open spec fn yields(
        &self,
        input: &Self::Input,
        internal: &Self::Internal,
        output: &Self::Output,
    ) -> bool {
        &&& self.0.yields(input, &internal.0, &internal.1)
        &&& self.1.yields(&internal.1, &internal.2, output)
    }

    fn forward(&self, input: &Self::Input) -> (both: (Self::Internal, Self::Output)) {
        let (t_internal, t_output) = self.0.forward(input);
        assert(self.0.yields(input, &t_internal, &t_output));
        let (u_internal, u_output) = self.1.forward(&t_output);
        ((t_internal, t_output, u_internal), u_output)
    }
}

impl<T, U, O> Backward for Mapped<T, U> where
    T: Backward<OutputDelta = U::InputDelta> + Forward<Output = O>,
    U: Backward + Forward<Input = O>,
 {
    type OutputDelta = U::OutputDelta;

    type InputDelta = T::InputDelta;

    type TrainDelta = ChainData<T::TrainDelta, U::TrainDelta>;

    open spec fn accepts_back(
        &self,
        input: &Self::Input,
        internal: &Self::Internal,
        output_delta: &Self::OutputDelta,
    ) -> bool {
        &&& self.1.accepts_back(&internal.1, &internal.2, output_delta)
        &&& forall|middle: U::InputDelta, update: U::TrainDelta| #[trigger]
            self.1.sends_back(&internal.1, &internal.2, output_delta, &middle, &update)
                ==> self.0.accepts_back(input, &internal.0, &middle)
    }

    open spec fn sends_back(
        &self,
        input: &Self::Input,
        internal: &Self::Internal,
        output_delta: &Self::OutputDelta,
        input_delta: &Self::InputDelta,
        train_delta: &Self::TrainDelta,
    ) -> bool {
        exists|middle: U::InputDelta|
            {
                &&& #[trigger] self.1.sends_back(
                    &internal.1,
                    &internal.2,
                    output_delta,
                    &middle,
                    &train_delta.1,
                )
                &&& self.0.sends_back(input, &internal.0, &middle, input_delta, &train_delta.0)
            }
    }

    fn backward(
        &self,
        input: &Self::Input,
        internal: &Self::Internal,
        output_delta: &Self::OutputDelta,
    ) -> (both: (Self::InputDelta, Self::TrainDelta)) {
        let (u_input_delta, u_train_delta) = self.1.backward(&internal.1, &internal.2, output_delta);
        assert(self.1.sends_back(
            &internal.1,
            &internal.2,
            output_delta,
            &u_input_delta,
            &u_train_delta,
        ));
        let (t_input_delta, t_train_delta) = self.0.backward(input, &internal.0, &u_input_delta);
        let both = (t_input_delta, ChainData(t_train_delta, u_train_delta));
        assert(self.1.sends_back(&internal.1, &internal.2, output_delta, &u_input_delta, &both.1.1));
        assert(self.0.sends_back(input, &internal.0, &u_input_delta, &both.0, &both.1.0));
        both
    }
}

impl<T, U, O> Train for Mapped<T, U> where
    T: Train + Backward<OutputDelta = U::InputDelta> + Forward<Output = O>,
    U: Train + Backward + Forward<Input = O>,
 {
    open spec fn accepts_update(&self, train_delta: &Self::TrainDelta) -> bool {
        self.0.accepts_update(&train_delta.0) && self.1.accepts_update(&train_delta.1)
    }

    open spec fn trains_to(&self, train_delta: &Self::TrainDelta, after: &Self) -> bool {
        self.0.trains_to(&train_delta.0, &after.0) && self.1.trains_to(&train_delta.1, &after.1)
    }

    fn train(&mut self, train_delta: &Self::TrainDelta) {
        self.0.train(&train_delta.0);
        self.1.train(&train_delta.1);
    }
}

/// Chaining is associative in what it accepts and puts out: `(a, b)`
/// followed by `c` takes the same inputs and yields the same output as
/// `a` followed by `(b, c)`, the caches holding the same values in
/// another nesting.
pub proof fn lemma_mapped_associative_forward<A, B, C>(
    a: A,
    b: B,
    c: C,
    input: A::Input,
    a_internal: A::Internal,
    a_output: A::Output,
    b_internal: B::Internal,
    b_output: B::Output,
    c_internal: C::Internal,
    output: C::Output,
) where A: Forward, B: Forward<Input = A::Output>, C: Forward<Input = B::Output>
    ensures
        Mapped(Mapped(a, b), c).accepts(&input) <==> Mapped(a, Mapped(b, c)).accepts(&input),
        Mapped(Mapped(a, b), c).yields(
            &input,
            &((a_internal, a_output, b_internal), b_output, c_internal),
            &output,
        ) <==> Mapped(a, Mapped(b, c)).yields(
            &input,
            &(a_internal, a_output, (b_internal, b_output, c_internal)),
            &output,
        ),
{
    let left = Mapped(Mapped(a, b), c);
    let right = Mapped(a, Mapped(b, c));
    if left.accepts(&input) {
        assert forall|cache: A::Internal, middle: A::Output| #[trigger]
            a.yields(&input, &cache, &middle) implies right.1.accepts(&middle) by {
            assert(b.accepts(&middle));
            assert forall|inner: B::Internal, next: B::Output| #[trigger]
                b.yields(&middle, &inner, &next) implies c.accepts(&next) by {
                assert(left.0.yields(&input, &(cache, middle, inner), &next));
            }
        }
    }
    if right.accepts(&input) {
        assert forall|cache: A::Internal, middle: A::Output| #[trigger]
            a.yields(&input, &cache, &middle) implies b.accepts(&middle) by {
            assert(right.1.accepts(&middle));
        }
        assert forall|cache: (A::Internal, A::Output, B::Internal), middle: B::Output| #[trigger]
            left.0.yields(&input, &cache, &middle) implies c.accepts(&middle) by {
            assert(a.yields(&input, &cache.0, &cache.1));
            assert(right.1.accepts(&cache.1));
            assert(b.yields(&cache.1, &cache.2, &middle));
        }
    }
}

/// Chaining is associative in what it sends back: both nestings give the
/// same gradient of the input and the same three updates, nested the way
/// the operators are.
pub proof fn lemma_mapped_associative_backward<A, B, C, O, P>(
    a: A,
    b: B,
    c: C,
    input: A::Input,
    a_internal: A::Internal,
    a_output: O,
    b_internal: B::Internal,
    b_output: P,
    c_internal: C::Internal,
    output_delta: C::OutputDelta,
    input_delta: A::InputDelta,
    a_update: A::TrainDelta,
    b_update: B::TrainDelta,
    c_update: C::TrainDelta,
) where
    A: Backward<OutputDelta = B::InputDelta> + Forward<Output = O>,
    B: Backward<OutputDelta = C::InputDelta> + Forward<Input = O, Output = P>,
    C: Backward + Forward<Input = P>,

    ensures
        Mapped(Mapped(a, b), c).sends_back(
            &input,
            &((a_internal, a_output, b_internal), b_output, c_internal),
            &output_delta,
            &input_delta,
            &ChainData(ChainData(a_update, b_update), c_update),
        ) <==> Mapped(a, Mapped(b, c)).sends_back(
            &input,
            &(a_internal, a_output, (b_internal, b_output, c_internal)),
            &output_delta,
            &input_delta,
            &ChainData(a_update, ChainData(b_update, c_update)),
        ),
{
    let left = Mapped(Mapped(a, b), c);
    let right = Mapped(a, Mapped(b, c));
    let left_internal = ((a_internal, a_output, b_internal), b_output, c_internal);
    let right_internal = (a_internal, a_output, (b_internal, b_output, c_internal));
    let left_update = ChainData(ChainData(a_update, b_update), c_update);
    let right_update = ChainData(a_update, ChainData(b_update, c_update));
    if left.sends_back(&input, &left_internal, &output_delta, &input_delta, &left_update) {
        let from_c = choose|from_c: C::InputDelta|
            {
                &&& #[trigger] c.sends_back(&b_output, &c_internal, &output_delta, &from_c, &c_update)
                &&& left.0.sends_back(
                    &input,
                    &left_internal.0,
                    &from_c,
                    &input_delta,
                    &left_update.0,
                )
            };
        let from_b = choose|from_b: B::InputDelta|
            {
                &&& #[trigger] b.sends_back(&a_output, &b_internal, &from_c, &from_b, &b_update)
                &&& a.sends_back(&input, &a_internal, &from_b, &input_delta, &a_update)
            };
        let inner = right_internal.2;
        let inner_update = right_update.1;
        assert(right.1.1.sends_back(&inner.1, &inner.2, &output_delta, &from_c, &inner_update.1)
            && right.1.0.sends_back(&a_output, &inner.0, &from_c, &from_b, &inner_update.0));
        assert(right.1.sends_back(
            &a_output,
            &right_internal.2,
            &output_delta,
            &from_b,
            &right_update.1,
        ));
        assert(right.1.sends_back(
            &right_internal.1,
            &right_internal.2,
            &output_delta,
            &from_b,
            &right_update.1,
        ) && right.0.sends_back(&input, &right_internal.0, &from_b, &input_delta, &right_update.0));
    }
    if right.sends_back(&input, &right_internal, &output_delta, &input_delta, &right_update) {
        let from_b = choose|from_b: B::InputDelta|
            {
                &&& #[trigger] right.1.sends_back(
                    &a_output,
                    &right_internal.2,
                    &output_delta,
                    &from_b,
                    &right_update.1,
                )
                &&& a.sends_back(&input, &a_internal, &from_b, &input_delta, &a_update)
            };
        let from_c = choose|from_c: C::InputDelta|
            {
                &&& #[trigger] c.sends_back(&b_output, &c_internal, &output_delta, &from_c, &c_update)
                &&& b.sends_back(&a_output, &b_internal, &from_c, &from_b, &b_update)
            };
        let inner = left_internal.0;
        let inner_update = left_update.0;
        assert(left.0.1.sends_back(&inner.1, &inner.2, &from_c, &from_b, &inner_update.1)
            && left.0.0.sends_back(&input, &inner.0, &from_b, &input_delta, &inner_update.0));
        assert(left.0.sends_back(&input, &left_internal.0, &from_c, &input_delta, &left_update.0));
        assert(left.1.sends_back(
            &left_internal.1,
            &left_internal.2,
            &output_delta,
            &from_c,
            &left_update.1,
        ) && left.0.sends_back(&input, &left_internal.0, &from_c, &input_delta, &left_update.0));
    }
}

} // verus!
