//! Normalisation of a whole layer.

use crate::delta::{ChainData, EmptyData};
use crate::operator::{Backward, Forward, Train};
use crate::scalar::{Real, Scalar};
use crate::tensor::Array;
use core::marker::PhantomData;
use vstd::prelude::*;

verus! {

/// The terms added one after the other, from zero.
pub open spec fn seq_sum<T: Scalar>(terms: Seq<T>) -> T
    decreases terms.len(),
{
    if terms.len() == 0 {
        T::zero_spec()
    } else {
        seq_sum(terms.drop_last()).add_spec(terms.last())
    }
}

/// The products of the cells at the same places.
pub open spec fn products<T: Scalar>(left: Seq<T>, right: Seq<T>) -> Seq<T> {
    Seq::new(left.len(), |i: int| left[i].mul_spec(right[i]))
}

/// The quotient of two whole numbers.
pub open spec fn ratio_spec<T: Real>(numerator: i64, denominator: i64) -> T {
    T::from_whole_spec(numerator).div_spec(T::from_whole_spec(denominator))
}

/// One over a number.
pub open spec fn recip_spec<T: Real>(n: T) -> T {
    T::one_spec().div_spec(n)
}

/// One over the root of the mean of the squares, with a small number
/// added under the root so that it is never zero. The mean is taken by
/// multiplying with `share`, which is one over the number of cells.
pub open spec fn recip_rms<T: Real>(cells: Seq<T>, share: T) -> T {
    recip_spec(
        seq_sum(products(cells, cells)).mul_spec(share).add_spec(ratio_spec(1, 100_000)).sqrt_spec(),
    )
}

/// One over the root of the mean of the squares, the mean taken by
/// dividing by the number of cells.
pub open spec fn recip_deviation<T: Real>(cells: Seq<T>) -> T {
    recip_spec(
        seq_sum(products(cells, cells)).div_spec(T::from_index_spec(cells.len() as usize)).add_spec(
            ratio_spec(1, 100_000),
        ).sqrt_spec(),
    )
}

/// The mean of the cells.
pub open spec fn mean<T: Real>(cells: Seq<T>) -> T {
    seq_sum(cells).div_spec(T::from_index_spec(cells.len() as usize))
}

/// The quotient of two whole numbers.
pub fn ratio<T: Real>(numerator: i64, denominator: i64) -> (out: T)
    ensures
        out == ratio_spec::<T>(numerator, denominator),
{
    T::from_whole(numerator).div(T::from_whole(denominator))
}

/// The sum of the cells, from zero and in their order.
pub fn sum_cells<T: Scalar>(cells: &Vec<T>) -> (sum: T)
    ensures
        sum == seq_sum(cells@),
{
    let mut acc: T = T::zero();
    let n: usize = cells.len();
    let mut i: usize = 0;
    while i < n
        invariant
            i <= n,
            n == cells@.len(),
            acc == seq_sum(cells@.take(i as int)),
        decreases n - i,
    {
        assert(cells@.take(i + 1).drop_last() =~= cells@.take(i as int));
        acc = acc.add(cells[i]);
        i += 1;
    }
    assert(cells@.take(n as int) =~= cells@);
    acc
}

/// The sum of the products of the cells at the same places.
pub fn sum_products<T: Scalar>(left: &Vec<T>, right: &Vec<T>) -> (sum: T)
    requires
        left@.len() == right@.len(),
    ensures
        sum == seq_sum(products(left@, right@)),
{
    let ghost terms = products(left@, right@);
    let mut acc: T = T::zero();
    let n: usize = left.len();
    let mut i: usize = 0;
    while i < n
        invariant
            i <= n,
            n == left@.len(),
            n == right@.len(),
            terms == products(left@, right@),
            acc == seq_sum(terms.take(i as int)),
        decreases n - i,
    {
        assert(terms.take(i + 1).drop_last() =~= terms.take(i as int));
        acc = acc.add(left[i].mul(right[i]));
        i += 1;
    }
    assert(terms.take(n as int) =~= terms);
    acc
}

/// Normalises the layer and applies one trainable line, `gamma * n +
/// beta`, to every normalised cell.
#[derive(Debug)]
pub struct LayerNorm<T, D> {
    pub gamma: T,
    pub beta: T,
    pub phantom: PhantomData<D>,
}

/// Divides the layer by the root of the mean of its squares.
#[derive(Debug)]
pub struct RmsNorm<T, D> {
    pub phantom: PhantomData<(T, D)>,
}

impl<T, D> LayerNorm<T, D> {
    pub fn new_with_params(gamma: T, beta: T) -> (operator: LayerNorm<T, D>)
        ensures
            operator.gamma == gamma,
            operator.beta == beta,
    {
        LayerNorm { gamma, beta, phantom: PhantomData }
    }
}

impl<T: Scalar, D> LayerNorm<T, D> {
    /// The operator whose line is the identity.
    pub fn new() -> (operator: LayerNorm<T, D>)
        ensures
            operator.gamma == T::one_spec(),
            operator.beta == T::zero_spec(),
    {
        LayerNorm { gamma: T::one(), beta: T::zero(), phantom: PhantomData }
    }
}

impl<T: Scalar, D> Default for LayerNorm<T, D> {
    fn default() -> (operator: LayerNorm<T, D>)
        ensures
            operator.gamma == T::one_spec(),
            operator.beta == T::zero_spec(),
    {
        LayerNorm { gamma: T::one(), beta: T::zero(), phantom: PhantomData }
    }
}

impl<T, D> RmsNorm<T, D> {
    pub fn new() -> (operator: RmsNorm<T, D>) {
        RmsNorm { phantom: PhantomData }
    }
}

impl<T, D> Default for RmsNorm<T, D> {
    fn default() -> (operator: RmsNorm<T, D>) {
        RmsNorm { phantom: PhantomData }
    }
}

impl<T: Real, D> LayerNorm<T, D> {
    /// What a cell of the input is normalised to.
    pub open spec fn normalized(cells: Seq<T>, i: int) -> T {
        cells[i].sub_spec(mean(cells)).mul_spec(recip_deviation(cells))
    }

    /// The gradient of a normalised cell.
    pub open spec fn norm_deltas(&self, delta: Seq<T>) -> Seq<T> {
        Seq::new(delta.len(), |i: int| self.gamma.mul_spec(delta[i]))
    }

    /// The gradient of an input cell: that of its normalised cell, less
    /// the mean of those gradients, less the cell's share in how they go
    /// with the normalised cells.
    pub open spec fn input_gradient(&self, norms: Seq<T>, delta: Seq<T>, i: int) -> T {
        let count = T::from_index_spec(delta.len() as usize);
        let deltas = self.norm_deltas(delta);
        deltas[i].sub_spec(seq_sum(deltas).div_spec(count)).sub_spec(
            norms[i].mul_spec(seq_sum(products(norms, deltas)).div_spec(count)),
        )
    }
}

impl<T: Real, D: Copy> Forward for LayerNorm<T, D> {
    type Input = Array<T, D>;

    type Internal = Array<T, D>;

    type Output = Array<T, D>;

    open spec fn accepts(&self, input: &Array<T, D>) -> bool {
        true
    }

    /// The cache holds the normalised input.
    open spec fn yields(&self, input: &Array<T, D>, internal: &Array<T, D>, output: &Array<T, D>) -> bool {
        &&& internal.same_shape(input)
        &&& output.same_shape(input)
        &&& forall|i: int|
            input.holds(i) ==> #[trigger] internal.at(i) == Self::normalized(input.data@, i)
        &&& forall|i: int|
            input.holds(i) ==> #[trigger] output.at(i) == Self::normalized(
                input.data@,
                i,
            ).mul_spec(self.gamma).add_spec(self.beta)
    }

    fn forward(&self, input: &Array<T, D>) -> (both: (Array<T, D>, Array<T, D>)) {
        let n: usize = input.data.len();
        let count: T = T::from_index(n);
        let variance: T = sum_products(&input.data, &input.data).div(count);
        let middle: T = sum_cells(&input.data).div(count);
        let recip_std: T = T::one().div(variance.add(ratio(1, 100_000)).sqrt());
        let mut normalized: Vec<T> = Vec::new();
        let mut output: Vec<T> = Vec::new();
        let mut i: usize = 0;
        while i < n
            invariant
                i <= n,
                n == input.data@.len(),
                middle == mean(input.data@),
                recip_std == recip_deviation(input.data@),
                normalized@.len() == i,
                output@.len() == i,
                forall|k: int|
                    0 <= k < i ==> #[trigger] normalized@[k] == Self::normalized(input.data@, k),
                forall|k: int|
                    0 <= k < i ==> #[trigger] output@[k] == Self::normalized(
                        input.data@,
                        k,
                    ).mul_spec(self.gamma).add_spec(self.beta),
            decreases n - i,
        {
            let cell: T = input.data[i].sub(middle).mul(recip_std);
            normalized.push(cell);
            output.push(cell.mul(self.gamma).add(self.beta));
            i += 1;
        }
        (Array { shape: input.shape, data: normalized }, Array { shape: input.shape, data: output })
    }
}

impl<T: Real, D: Copy> Backward for LayerNorm<T, D> {
    type OutputDelta = Array<T, D>;

    type InputDelta = Array<T, D>;

    type TrainDelta = ChainData<T, T>;

    open spec fn accepts_back(
        &self,
        input: &Array<T, D>,
        internal: &Array<T, D>,
        output_delta: &Array<T, D>,
    ) -> bool {
        internal.same_shape(output_delta)
    }

    /// The update of `gamma` sums the gradients, each times its
    /// normalised cell; that of `beta` sums the gradients.
    open spec fn sends_back(
        &self,
        input: &Array<T, D>,
        internal: &Array<T, D>,
        output_delta: &Array<T, D>,
        input_delta: &Array<T, D>,
        train_delta: &ChainData<T, T>,
    ) -> bool {
        &&& input_delta.same_shape(output_delta)
        &&& forall|i: int|
            output_delta.holds(i) ==> #[trigger] input_delta.at(i) == self.input_gradient(
                internal.data@,
                output_delta.data@,
                i,
            )
        &&& train_delta.0 == seq_sum(products(internal.data@, output_delta.data@))
        &&& train_delta.1 == seq_sum(output_delta.data@)
    }

    fn backward(&self, input: &Array<T, D>, internal: &Array<T, D>, output_delta: &Array<T, D>) -> (both: (
        Array<T, D>,
        ChainData<T, T>,
    )) {
        let n: usize = output_delta.data.len();
        let gamma_delta: T = sum_products(&internal.data, &output_delta.data);
        let beta_delta: T = sum_cells(&output_delta.data);
        let count: T = T::from_index(n);
        let mut deltas: Vec<T> = Vec::new();
        let mut i: usize = 0;
        while i < n
            invariant
                i <= n,
                n == output_delta.data@.len(),
                deltas@.len() == i,
                forall|k: int|
                    0 <= k < i ==> #[trigger] deltas@[k] == self.gamma.mul_spec(output_delta.data@[k]),
            decreases n - i,
        {
            deltas.push(self.gamma.mul(output_delta.data[i]));
            i += 1;
        }
        assert(deltas@ =~= self.norm_deltas(output_delta.data@));
        let mean_delta: T = sum_cells(&deltas).div(count);
        let mean_norm_delta: T = sum_products(&internal.data, &deltas).div(count);
        let mut input_delta: Vec<T> = Vec::new();
        let mut j: usize = 0;
        while j < n
            invariant
                j <= n,
                n == output_delta.data@.len(),
                n == internal.data@.len(),
                deltas@ == self.norm_deltas(output_delta.data@),
                count == T::from_index_spec(n),
                mean_delta == seq_sum(deltas@).div_spec(count),
                mean_norm_delta == seq_sum(products(internal.data@, deltas@)).div_spec(count),
                input_delta@.len() == j,
                forall|k: int|
                    0 <= k < j ==> #[trigger] input_delta@[k] == self.input_gradient(
                        internal.data@,
                        output_delta.data@,
                        k,
                    ),
            decreases n - j,
        {
            input_delta.push(
                deltas[j].sub(mean_delta).sub(internal.data[j].mul(mean_norm_delta)),
            );
            j += 1;
        }
        (
            Array { shape: output_delta.shape, data: input_delta },
            ChainData(gamma_delta, beta_delta),
        )
    }
}

impl<T: Real, D: Copy> Train for LayerNorm<T, D> {
    open spec fn accepts_update(&self, train_delta: &ChainData<T, T>) -> bool {
        true
    }

    open spec fn trains_to(&self, train_delta: &ChainData<T, T>, after: &LayerNorm<T, D>) -> bool {
        &&& after.gamma == self.gamma.add_spec(train_delta.0)
        &&& after.beta == self.beta.add_spec(train_delta.1)
    }

    fn train(&mut self, train_delta: &ChainData<T, T>) {
        self.gamma = self.gamma.add(train_delta.0);
        self.beta = self.beta.add(train_delta.1);
    }
}

impl<T: Real, D: Copy> Forward for RmsNorm<T, D> {
    type Input = Array<T, D>;

    type Internal = ChainData<T, T>;

    type Output = Array<T, D>;

    open spec fn accepts(&self, input: &Array<T, D>) -> bool {
        true
    }

    /// The cache holds what every cell was multiplied by, and one over
    /// the number of cells.
    open spec fn yields(
        &self,
        input: &Array<T, D>,
        internal: &ChainData<T, T>,
        output: &Array<T, D>,
    ) -> bool {
        &&& internal.1 == recip_spec(T::from_index_spec(input.len() as usize))
        &&& internal.0 == recip_rms(input.data@, internal.1)
        &&& output.same_shape(input)
        &&& forall|i: int| input.holds(i) ==> #[trigger] output.at(i) == input.at(i).mul_spec(internal.0)
    }

    fn forward(&self, input: &Array<T, D>) -> (both: (ChainData<T, T>, Array<T, D>)) {
        let n: usize = input.data.len();
        let recip_len: T = T::one().div(T::from_index(n));
        let variance: T = sum_products(&input.data, &input.data).mul(recip_len);
        let recip_std: T = T::one().div(variance.add(ratio(1, 100_000)).sqrt());
        let mut output: Vec<T> = Vec::new();
        let mut i: usize = 0;
        while i < n
            invariant
                i <= n,
                n == input.data@.len(),
                output@.len() == i,
                forall|k: int| 0 <= k < i ==> #[trigger] output@[k] == input.at(k).mul_spec(recip_std),
            decreases n - i,
        {
            output.push(input.data[i].mul(recip_std));
            i += 1;
        }
        (ChainData(recip_std, recip_len), Array { shape: input.shape, data: output })
    }
}

impl<T: Real, D: Copy> Backward for RmsNorm<T, D> {
    type OutputDelta = Array<T, D>;

    type InputDelta = Array<T, D>;

    type TrainDelta = EmptyData;

    open spec fn accepts_back(
        &self,
        input: &Array<T, D>,
        internal: &ChainData<T, T>,
        output_delta: &Array<T, D>,
    ) -> bool {
        output_delta.same_shape(input)
    }

    /// Every cell gets its gradient times the factor, less its own value
    /// times how the gradients go with the input, scaled by the third
    /// power of the factor and the share of one cell.
    open spec fn sends_back(
        &self,
        input: &Array<T, D>,
        internal: &ChainData<T, T>,
        output_delta: &Array<T, D>,
        input_delta: &Array<T, D>,
        train_delta: &EmptyData,
    ) -> bool {
        &&& input_delta.same_shape(input)
        &&& forall|i: int|
            input.holds(i) ==> #[trigger] input_delta.at(i) == internal.0.mul_spec(
                output_delta.at(i),
            ).sub_spec(
                internal.0.mul_spec(internal.0).mul_spec(internal.0).mul_spec(internal.1).mul_spec(
                    input.at(i),
                ).mul_spec(seq_sum(products(output_delta.data@, input.data@))),
            )
    }

    fn backward(
        &self,
        input: &Array<T, D>,
        internal: &ChainData<T, T>,
        output_delta: &Array<T, D>,
    ) -> (both: (Array<T, D>, EmptyData)) {
        let n: usize = input.data.len();
        let recip_std: T = internal.0;
        let recip_factor: T = recip_std.mul(recip_std).mul(recip_std).mul(internal.1);
        let sum_dot: T = sum_products(&output_delta.data, &input.data);
        let mut input_delta: Vec<T> = Vec::new();
        let mut i: usize = 0;
        while i < n
            invariant
                i <= n,
                n == input.data@.len(),
                n == output_delta.data@.len(),
                recip_std == internal.0,
                recip_factor == internal.0.mul_spec(internal.0).mul_spec(internal.0).mul_spec(
                    internal.1,
                ),
                sum_dot == seq_sum(products(output_delta.data@, input.data@)),
                input_delta@.len() == i,
                forall|k: int|
                    0 <= k < i ==> #[trigger] input_delta@[k] == recip_std.mul_spec(
                        output_delta.at(k),
                    ).sub_spec(recip_factor.mul_spec(input.at(k)).mul_spec(sum_dot)),
            decreases n - i,
        {
            input_delta.push(
                recip_std.mul(output_delta.data[i]).sub(
                    recip_factor.mul(input.data[i]).mul(sum_dot),
                ),
            );
            i += 1;
        }
        let both = (Array { shape: input.shape, data: input_delta }, EmptyData);
        assert forall|k: int| input.holds(k) implies #[trigger] both.0.at(k) == internal.0.mul_spec(
            output_delta.at(k),
        ).sub_spec(
            internal.0.mul_spec(internal.0).mul_spec(internal.0).mul_spec(internal.1).mul_spec(
                input.at(k),
            ).mul_spec(seq_sum(products(output_delta.data@, input.data@))),
        ) by {
            assert(both.0.at(k) == both.0.data@[k]);
        }
        both
    }
}

impl<T: Real, D: Copy> Train for RmsNorm<T, D> {
    open spec fn accepts_update(&self, train_delta: &EmptyData) -> bool {
        true
    }

    /// There is nothing to train: the operator stays as it is.
    open spec fn trains_to(&self, train_delta: &EmptyData, after: &Self) -> bool {
        *after == *self
    }

    fn train(&mut self, train_delta: &EmptyData) {
    }
}

} // verus!
