//! Applying operators along a row of cells: the common core of the
//! adapters that map an operator over a tensor.

use crate::delta::{Delta, DeltaUnit};
use crate::operator::{Backward, Forward, Train};
use vstd::prelude::*;

verus! {

/// Whether `end` is `start` with the updates added to it one after the
/// other, in their order.
pub open spec fn folds<D: Delta>(start: D, deltas: Seq<D>, end: D) -> bool
    decreases deltas.len(),
{
    if deltas.len() == 0 {
        end == start
    } else {
        exists|before: D|
            folds(start, deltas.drop_last(), before) && #[trigger] end.sum_of(
                &before,
                &deltas.last(),
            )
    }
}

/// Adding one more update extends a fold.
pub proof fn lemma_folds_push<D: Delta>(start: D, deltas: Seq<D>, before: D, next: D, end: D)
    requires
        folds(start, deltas, before),
        end.sum_of(&before, &next),
    ensures
        folds(start, deltas.push(next), end),
{
    assert(deltas.push(next).drop_last() =~= deltas);
    assert(deltas.push(next).last() == next);
}

/// One fold after another is the fold over both runs of updates.
pub proof fn lemma_folds_append<D: Delta>(start: D, first: Seq<D>, middle: D, second: Seq<D>, end: D)
    requires
        folds(start, first, middle),
        folds(middle, second, end),
    ensures
        folds(start, first + second, end),
    decreases second.len(),
{
    if second.len() == 0 {
        assert(first + second =~= first);
    } else {
        let before = choose|before: D|
            folds(middle, second.drop_last(), before) && #[trigger] end.sum_of(
                &before,
                &second.last(),
            );
        lemma_folds_append(start, first, middle, second.drop_last(), before);
        assert((first + second).drop_last() =~= first + second.drop_last());
        assert((first + second).last() == second.last());
    }
}

/// Whether two updates have one sum only.
pub open spec fn sum_is_unique<D: Delta>() -> bool {
    forall|left: D, right: D, one: D, other: D|
        #![trigger one.sum_of(&left, &right), other.sum_of(&left, &right)]
        one.sum_of(&left, &right) && other.sum_of(&left, &right) ==> one == other
}

/// Whether the update type has one zero only.
pub open spec fn zero_is_unique<D: DeltaUnit>() -> bool {
    forall|one: D, other: D|
        #![trigger one.is_zero_spec(), other.is_zero_spec()]
        one.is_zero_spec() && other.is_zero_spec() ==> one == other
}

/// Whether what the operator sends back decides the update: the same
/// input, cache and gradient never give two updates.
pub open spec fn update_is_unique<G: Backward>(g: &G) -> bool {
    forall|
        input: G::Input,
        internal: G::Internal,
        delta: G::OutputDelta,
        given: G::InputDelta,
        update: G::TrainDelta,
        given_too: G::InputDelta,
        update_too: G::TrainDelta,
    |
        #![trigger g.sends_back(&input, &internal, &delta, &given, &update), g.sends_back(&input, &internal, &delta, &given_too, &update_too)]
        g.sends_back(&input, &internal, &delta, &given, &update) && g.sends_back(
            &input,
            &internal,
            &delta,
            &given_too,
            &update_too,
        ) ==> update == update_too
}

/// Where sums are unique, so is the end of a fold.
pub proof fn lemma_folds_unique<D: Delta>(start: D, deltas: Seq<D>, end: D, end_too: D)
    requires
        sum_is_unique::<D>(),
        folds(start, deltas, end),
        folds(start, deltas, end_too),
    ensures
        end == end_too,
    decreases deltas.len(),
{
    if deltas.len() > 0 {
        let before = choose|before: D|
            folds(start, deltas.drop_last(), before) && #[trigger] end.sum_of(
                &before,
                &deltas.last(),
            );
        let before_too = choose|before: D|
            folds(start, deltas.drop_last(), before) && #[trigger] end_too.sum_of(
                &before,
                &deltas.last(),
            );
        lemma_folds_unique(start, deltas.drop_last(), before, before_too);
    }
}

/// Evaluates one operator on every cell of a row.
pub fn forward_row<G: Forward>(g: &G, inputs: &Vec<G::Input>) -> (both: (
    Vec<G::Internal>,
    Vec<G::Output>,
))
    requires
        forall|i: int| 0 <= i < inputs@.len() ==> g.accepts(#[trigger] &inputs@[i]),
    ensures
        both.0@.len() == inputs@.len(),
        both.1@.len() == inputs@.len(),
        forall|i: int|
            0 <= i < inputs@.len() ==> g.yields(&inputs@[i], #[trigger] &both.0@[i], &both.1@[i]),
{
    let mut internals: Vec<G::Internal> = Vec::new();
    let mut outputs: Vec<G::Output> = Vec::new();
    let n: usize = inputs.len();
    let mut i: usize = 0;
    while i < n
        invariant
            i <= n,
            n == inputs@.len(),
            forall|k: int| 0 <= k < inputs@.len() ==> g.accepts(#[trigger] &inputs@[k]),
            internals@.len() == i,
            outputs@.len() == i,
            forall|k: int|
                0 <= k < i ==> g.yields(&inputs@[k], #[trigger] &internals@[k], &outputs@[k]),
        decreases n - i,
    {
        let (internal, output) = g.forward(&inputs[i]);
        internals.push(internal);
        outputs.push(output);
        i += 1;
    }
    (internals, outputs)
}

/// Sends a row of gradients back through one operator and adds the
/// updates of the cells, in their order, to `acc`.
pub(crate) fn backward_row<G: Backward>(
    g: &G,
    inputs: &Vec<G::Input>,
    internals: &Vec<G::Internal>,
    deltas: &Vec<G::OutputDelta>,
    acc: G::TrainDelta,
) -> (out: (Vec<G::InputDelta>, G::TrainDelta, Ghost<Seq<G::TrainDelta>>)) where
    G::TrainDelta: DeltaUnit,

    requires
        internals@.len() == inputs@.len(),
        deltas@.len() == inputs@.len(),
        forall|i: int|
            0 <= i < inputs@.len() ==> g.accepts_back(
                &inputs@[i],
                &internals@[i],
                #[trigger] &deltas@[i],
            ),
    ensures
        out.0@.len() == inputs@.len(),
        out.2@.len() == inputs@.len(),
        forall|i: int|
            0 <= i < inputs@.len() ==> g.sends_back(
                &inputs@[i],
                &internals@[i],
                &deltas@[i],
                #[trigger] &out.0@[i],
                &out.2@[i],
            ),
        folds(acc, out.2@, out.1),
{
    let mut input_deltas: Vec<G::InputDelta> = Vec::new();
    let mut total: G::TrainDelta = acc;
    let ghost mut parts: Seq<G::TrainDelta> = Seq::empty();
    let n: usize = inputs.len();
    let mut i: usize = 0;
    while i < n
        invariant
            i <= n,
            n == inputs@.len(),
            internals@.len() == n,
            deltas@.len() == n,
            forall|k: int|
                0 <= k < inputs@.len() ==> g.accepts_back(
                    &inputs@[k],
                    &internals@[k],
                    #[trigger] &deltas@[k],
                ),
            input_deltas@.len() == i,
            parts.len() == i,
            forall|k: int|
                0 <= k < i ==> g.sends_back(
                    &inputs@[k],
                    &internals@[k],
                    &deltas@[k],
                    #[trigger] &input_deltas@[k],
                    &parts[k],
                ),
            folds(acc, parts, total),
        decreases n - i,
    {
        let (input_delta, train_delta) = g.backward(&inputs[i], &internals[i], &deltas[i]);
        let ghost before = total;
        let ghost part = train_delta;
        proof {
            <G::TrainDelta as DeltaUnit>::lemma_fits(&total, &train_delta);
        }
        total = total.add(train_delta);
        proof {
            lemma_folds_push(acc, parts, before, part, total);
            parts = parts.push(part);
        }
        input_deltas.push(input_delta);
        i += 1;
    }
    (input_deltas, total, Ghost(parts))
}

/// Trains every operator of a row with the update at the same place.
pub fn train_row<G: Train>(ops: &mut Vec<G>, deltas: &Vec<G::TrainDelta>)
    requires
        deltas@.len() == old(ops)@.len(),
        forall|i: int|
            0 <= i < old(ops)@.len() ==> (#[trigger] old(ops)@[i]).accepts_update(&deltas@[i]),
    ensures
        final(ops)@.len() == old(ops)@.len(),
        forall|i: int|
            0 <= i < old(ops)@.len() ==> old(ops)@[i].trains_to(&deltas@[i], #[trigger] &final(ops)@[i]),
{
    let n: usize = ops.len();
    let mut i: usize = 0;
    while i < n
        invariant
            i <= n,
            n == ops@.len(),
            old(ops)@.len() == n,
            deltas@.len() == n,
            forall|k: int|
                0 <= k < n ==> (#[trigger] old(ops)@[k]).accepts_update(&deltas@[k]),
            forall|k: int| i <= k < n ==> #[trigger] ops@[k] == old(ops)@[k],
            forall|k: int|
                0 <= k < i ==> old(ops)@[k].trains_to(&deltas@[k], #[trigger] &ops@[k]),
        decreases n - i,
    {
        ops[i].train(&deltas[i]);
        i += 1;
    }
}

/// Whether two nested rows have the same number of rows, each of the
/// same length as its counterpart.
pub open spec fn alike<A, B>(left: &Vec<Vec<A>>, right: &Vec<Vec<B>>) -> bool {
    &&& left@.len() == right@.len()
    &&& forall|r: int| 0 <= r < left@.len() ==> (#[trigger] left@[r])@.len() == right@[r]@.len()
}

/// Whether two nested planes have the same number of planes, each like
/// its counterpart.
pub open spec fn alike3<A, B>(left: &Vec<Vec<Vec<A>>>, right: &Vec<Vec<Vec<B>>>) -> bool {
    &&& left@.len() == right@.len()
    &&& forall|d: int| 0 <= d < left@.len() ==> alike(#[trigger] &left@[d], &right@[d])
}

/// Evaluates one operator on every cell of a grid.
pub fn forward_grid<G: Forward>(g: &G, inputs: &Vec<Vec<G::Input>>) -> (both: (
    Vec<Vec<G::Internal>>,
    Vec<Vec<G::Output>>,
))
    requires
        forall|r: int, c: int|
            0 <= r < inputs@.len() && 0 <= c < inputs@[r]@.len() ==> g.accepts(
                #[trigger] &inputs@[r]@[c],
            ),
    ensures
        alike(&both.0, inputs),
        alike(&both.1, inputs),
        forall|r: int, c: int|
            0 <= r < inputs@.len() && 0 <= c < inputs@[r]@.len() ==> g.yields(
                &inputs@[r]@[c],
                &both.0@[r]@[c],
                #[trigger] &both.1@[r]@[c],
            ),
{
    let mut internals: Vec<Vec<G::Internal>> = Vec::new();
    let mut outputs: Vec<Vec<G::Output>> = Vec::new();
    let n: usize = inputs.len();
    let mut r: usize = 0;
    while r < n
        invariant
            r <= n,
            n == inputs@.len(),
            forall|i: int, j: int|
                0 <= i < inputs@.len() && 0 <= j < inputs@[i]@.len() ==> g.accepts(
                    #[trigger] &inputs@[i]@[j],
                ),
            internals@.len() == r,
            outputs@.len() == r,
            forall|i: int| 0 <= i < r ==> (#[trigger] internals@[i])@.len() == inputs@[i]@.len(),
            forall|i: int| 0 <= i < r ==> (#[trigger] outputs@[i])@.len() == inputs@[i]@.len(),
            forall|i: int, j: int|
                0 <= i < r && 0 <= j < inputs@[i]@.len() ==> g.yields(
                    &inputs@[i]@[j],
                    &internals@[i]@[j],
                    #[trigger] &outputs@[i]@[j],
                ),
        decreases n - r,
    {
        let (internal_row, output_row) = forward_row(g, &inputs[r]);
        internals.push(internal_row);
        outputs.push(output_row);
        r += 1;
    }
    (internals, outputs)
}

/// Evaluates one operator on every cell of a block.
pub fn forward_block<G: Forward>(g: &G, inputs: &Vec<Vec<Vec<G::Input>>>) -> (both: (
    Vec<Vec<Vec<G::Internal>>>,
    Vec<Vec<Vec<G::Output>>>,
))
    requires
        forall|d: int, r: int, c: int|
            0 <= d < inputs@.len() && 0 <= r < inputs@[d]@.len() && 0 <= c < inputs@[d]@[r]@.len()
                ==> g.accepts(#[trigger] &inputs@[d]@[r]@[c]),
    ensures
        alike3(&both.0, inputs),
        alike3(&both.1, inputs),
        forall|d: int, r: int, c: int|
            0 <= d < inputs@.len() && 0 <= r < inputs@[d]@.len() && 0 <= c < inputs@[d]@[r]@.len()
                ==> g.yields(
                &inputs@[d]@[r]@[c],
                &both.0@[d]@[r]@[c],
                #[trigger] &both.1@[d]@[r]@[c],
            ),
{
    let mut internals: Vec<Vec<Vec<G::Internal>>> = Vec::new();
    let mut outputs: Vec<Vec<Vec<G::Output>>> = Vec::new();
    let n: usize = inputs.len();
    let mut d: usize = 0;
    while d < n
        invariant
            d <= n,
            n == inputs@.len(),
            forall|p: int, i: int, j: int|
                0 <= p < inputs@.len() && 0 <= i < inputs@[p]@.len() && 0 <= j
                    < inputs@[p]@[i]@.len() ==> g.accepts(#[trigger] &inputs@[p]@[i]@[j]),
            internals@.len() == d,
            outputs@.len() == d,
            forall|p: int| 0 <= p < d ==> alike(#[trigger] &internals@[p], &inputs@[p]),
            forall|p: int| 0 <= p < d ==> alike(#[trigger] &outputs@[p], &inputs@[p]),
            forall|p: int, i: int, j: int|
                0 <= p < d && 0 <= i < inputs@[p]@.len() && 0 <= j < inputs@[p]@[i]@.len()
                    ==> g.yields(
                    &inputs@[p]@[i]@[j],
                    &internals@[p]@[i]@[j],
                    #[trigger] &outputs@[p]@[i]@[j],
                ),
        decreases n - d,
    {
        let (internal_plane, output_plane) = forward_grid(g, &inputs[d]);
        internals.push(internal_plane);
        outputs.push(output_plane);
        d += 1;
    }
    (internals, outputs)
}

/// Sends a grid of gradients back through one operator and adds the
/// updates of the cells, in storage order, to `acc`.
pub(crate) fn backward_grid<G: Backward>(
    g: &G,
    inputs: &Vec<Vec<G::Input>>,
    internals: &Vec<Vec<G::Internal>>,
    deltas: &Vec<Vec<G::OutputDelta>>,
    acc: G::TrainDelta,
) -> (out: (Vec<Vec<G::InputDelta>>, G::TrainDelta, Ghost<Seq<Seq<G::TrainDelta>>>)) where
    G::TrainDelta: DeltaUnit,

    requires
        alike(internals, inputs),
        alike(deltas, inputs),
        forall|r: int, c: int|
            0 <= r < inputs@.len() && 0 <= c < inputs@[r]@.len() ==> g.accepts_back(
                &inputs@[r]@[c],
                &internals@[r]@[c],
                #[trigger] &deltas@[r]@[c],
            ),
    ensures
        alike(&out.0, inputs),
        out.2@.len() == inputs@.len(),
        forall|r: int| 0 <= r < inputs@.len() ==> (#[trigger] out.2@[r]).len() == inputs@[r]@.len(),
        forall|r: int, c: int|
            0 <= r < inputs@.len() && 0 <= c < inputs@[r]@.len() ==> g.sends_back(
                &inputs@[r]@[c],
                &internals@[r]@[c],
                &deltas@[r]@[c],
                #[trigger] &out.0@[r]@[c],
                &out.2@[r][c],
            ),
        folds(acc, out.2@.flatten(), out.1),
{
    let mut input_deltas: Vec<Vec<G::InputDelta>> = Vec::new();
    let mut total: G::TrainDelta = acc;
    let ghost mut parts: Seq<Seq<G::TrainDelta>> = Seq::empty();
    let n: usize = inputs.len();
    let mut r: usize = 0;
    while r < n
        invariant
            r <= n,
            n == inputs@.len(),
            alike(internals, inputs),
            alike(deltas, inputs),
            forall|i: int, j: int|
                0 <= i < inputs@.len() && 0 <= j < inputs@[i]@.len() ==> g.accepts_back(
                    &inputs@[i]@[j],
                    &internals@[i]@[j],
                    #[trigger] &deltas@[i]@[j],
                ),
            input_deltas@.len() == r,
            parts.len() == r,
            forall|i: int| 0 <= i < r ==> (#[trigger] input_deltas@[i])@.len() == inputs@[i]@.len(),
            forall|i: int| 0 <= i < r ==> (#[trigger] parts[i]).len() == inputs@[i]@.len(),
            forall|i: int, j: int|
                0 <= i < r && 0 <= j < inputs@[i]@.len() ==> g.sends_back(
                    &inputs@[i]@[j],
                    &internals@[i]@[j],
                    &deltas@[i]@[j],
                    #[trigger] &input_deltas@[i]@[j],
                    &parts[i][j],
                ),
            folds(acc, parts.flatten(), total),
        decreases n - r,
    {
        let ghost before = total;
        assert(internals@[r as int]@.len() == inputs@[r as int]@.len());
        assert(deltas@[r as int]@.len() == inputs@[r as int]@.len());
        let (row, sum, Ghost(row_parts)) = backward_row(
            g,
            &inputs[r],
            &internals[r],
            &deltas[r],
            total,
        );
        total = sum;
        proof {
            lemma_folds_append(acc, parts.flatten(), before, row_parts, total);
            parts.lemma_flatten_push(row_parts);
            parts = parts.push(row_parts);
        }
        input_deltas.push(row);
        r += 1;
    }
    (input_deltas, total, Ghost(parts))
}

/// Sends a block of gradients back through one operator and adds the
/// updates of the cells, in storage order, to `acc`.
pub(crate) fn backward_block<G: Backward>(
    g: &G,
    inputs: &Vec<Vec<Vec<G::Input>>>,
    internals: &Vec<Vec<Vec<G::Internal>>>,
    deltas: &Vec<Vec<Vec<G::OutputDelta>>>,
    acc: G::TrainDelta,
) -> (out: (Vec<Vec<Vec<G::InputDelta>>>, G::TrainDelta, Ghost<Seq<Seq<Seq<G::TrainDelta>>>>)) where
    G::TrainDelta: DeltaUnit,

    requires
        alike3(internals, inputs),
        alike3(deltas, inputs),
        forall|d: int, r: int, c: int|
            0 <= d < inputs@.len() && 0 <= r < inputs@[d]@.len() && 0 <= c < inputs@[d]@[r]@.len()
                ==> g.accepts_back(
                &inputs@[d]@[r]@[c],
                &internals@[d]@[r]@[c],
                #[trigger] &deltas@[d]@[r]@[c],
            ),
    ensures
        alike3(&out.0, inputs),
        out.2@.len() == inputs@.len(),
        forall|d: int| 0 <= d < inputs@.len() ==> (#[trigger] out.2@[d]).len() == inputs@[d]@.len(),
        forall|d: int, r: int|
            0 <= d < inputs@.len() && 0 <= r < inputs@[d]@.len() ==> (#[trigger] out.2@[d][r]).len()
                == inputs@[d]@[r]@.len(),
        forall|d: int, r: int, c: int|
            0 <= d < inputs@.len() && 0 <= r < inputs@[d]@.len() && 0 <= c < inputs@[d]@[r]@.len()
                ==> g.sends_back(
                &inputs@[d]@[r]@[c],
                &internals@[d]@[r]@[c],
                &deltas@[d]@[r]@[c],
                #[trigger] &out.0@[d]@[r]@[c],
                &out.2@[d][r][c],
            ),
        folds(acc, out.2@.flatten().flatten(), out.1),
{
    let mut input_deltas: Vec<Vec<Vec<G::InputDelta>>> = Vec::new();
    let mut total: G::TrainDelta = acc;
    let ghost mut parts: Seq<Seq<Seq<G::TrainDelta>>> = Seq::empty();
    let n: usize = inputs.len();
    let mut d: usize = 0;
    while d < n
        invariant
            d <= n,
            n == inputs@.len(),
            alike3(internals, inputs),
            alike3(deltas, inputs),
            forall|p: int, i: int, j: int|
                0 <= p < inputs@.len() && 0 <= i < inputs@[p]@.len() && 0 <= j
                    < inputs@[p]@[i]@.len() ==> g.accepts_back(
                    &inputs@[p]@[i]@[j],
                    &internals@[p]@[i]@[j],
                    #[trigger] &deltas@[p]@[i]@[j],
                ),
            input_deltas@.len() == d,
            parts.len() == d,
            forall|p: int| 0 <= p < d ==> alike(#[trigger] &input_deltas@[p], &inputs@[p]),
            forall|p: int| 0 <= p < d ==> (#[trigger] parts[p]).len() == inputs@[p]@.len(),
            forall|p: int, i: int|
                0 <= p < d && 0 <= i < inputs@[p]@.len() ==> (#[trigger] parts[p][i]).len()
                    == inputs@[p]@[i]@.len(),
            forall|p: int, i: int, j: int|
                0 <= p < d && 0 <= i < inputs@[p]@.len() && 0 <= j < inputs@[p]@[i]@.len()
                    ==> g.sends_back(
                    &inputs@[p]@[i]@[j],
                    &internals@[p]@[i]@[j],
                    &deltas@[p]@[i]@[j],
                    #[trigger] &input_deltas@[p]@[i]@[j],
                    &parts[p][i][j],
                ),
            folds(acc, parts.flatten().flatten(), total),
        decreases n - d,
    {
        let ghost before = total;
        assert(alike(&internals@[d as int], &inputs@[d as int]));
        assert(alike(&deltas@[d as int], &inputs@[d as int]));
        let (plane, sum, Ghost(plane_parts)) = backward_grid(
            g,
            &inputs[d],
            &internals[d],
            &deltas[d],
            total,
        );
        total = sum;
        proof {
            lemma_folds_append(acc, parts.flatten().flatten(), before, plane_parts.flatten(), total);
            parts.lemma_flatten_push(plane_parts);
            vstd::seq_lib::lemma_flatten_concat(parts.flatten(), plane_parts);
            parts = parts.push(plane_parts);
        }
        input_deltas.push(plane);
        d += 1;
    }
    (input_deltas, total, Ghost(parts))
}

/// Evaluates every operator of a row on the cell at its place.
pub fn forward_row_many<G: Forward>(ops: &Vec<G>, inputs: &Vec<G::Input>) -> (both: (
    Vec<G::Internal>,
    Vec<G::Output>,
))
    requires
        inputs@.len() == ops@.len(),
        forall|i: int| 0 <= i < ops@.len() ==> ops@[i].accepts(#[trigger] &inputs@[i]),
    ensures
        both.0@.len() == ops@.len(),
        both.1@.len() == ops@.len(),
        forall|i: int|
            0 <= i < ops@.len() ==> ops@[i].yields(&inputs@[i], &both.0@[i], #[trigger] &both.1@[i]),
{
    let mut internals: Vec<G::Internal> = Vec::new();
    let mut outputs: Vec<G::Output> = Vec::new();
    let n: usize = ops.len();
    let mut i: usize = 0;
    while i < n
        invariant
            i <= n,
            n == ops@.len(),
            inputs@.len() == n,
            forall|k: int| 0 <= k < ops@.len() ==> ops@[k].accepts(#[trigger] &inputs@[k]),
            internals@.len() == i,
            outputs@.len() == i,
            forall|k: int|
                0 <= k < i ==> ops@[k].yields(&inputs@[k], &internals@[k], #[trigger] &outputs@[k]),
        decreases n - i,
    {
        let (internal, output) = ops[i].forward(&inputs[i]);
        internals.push(internal);
        outputs.push(output);
        i += 1;
    }
    (internals, outputs)
}

/// Evaluates every operator of a grid on the cell at its place.
pub fn forward_grid_many<G: Forward>(ops: &Vec<Vec<G>>, inputs: &Vec<Vec<G::Input>>) -> (both: (
    Vec<Vec<G::Internal>>,
    Vec<Vec<G::Output>>,
))
    requires
        alike(inputs, ops),
        forall|r: int, c: int|
            0 <= r < ops@.len() && 0 <= c < ops@[r]@.len() ==> ops@[r]@[c].accepts(
                #[trigger] &inputs@[r]@[c],
            ),
    ensures
        alike(&both.0, ops),
        alike(&both.1, ops),
        forall|r: int, c: int|
            0 <= r < ops@.len() && 0 <= c < ops@[r]@.len() ==> ops@[r]@[c].yields(
                &inputs@[r]@[c],
                &both.0@[r]@[c],
                #[trigger] &both.1@[r]@[c],
            ),
{
    let mut internals: Vec<Vec<G::Internal>> = Vec::new();
    let mut outputs: Vec<Vec<G::Output>> = Vec::new();
    let n: usize = ops.len();
    let mut r: usize = 0;
    while r < n
        invariant
            r <= n,
            n == ops@.len(),
            alike(inputs, ops),
            forall|i: int, j: int|
                0 <= i < ops@.len() && 0 <= j < ops@[i]@.len() ==> ops@[i]@[j].accepts(
                    #[trigger] &inputs@[i]@[j],
                ),
            internals@.len() == r,
            outputs@.len() == r,
            forall|i: int| 0 <= i < r ==> (#[trigger] internals@[i])@.len() == ops@[i]@.len(),
            forall|i: int| 0 <= i < r ==> (#[trigger] outputs@[i])@.len() == ops@[i]@.len(),
            forall|i: int, j: int|
                0 <= i < r && 0 <= j < ops@[i]@.len() ==> ops@[i]@[j].yields(
                    &inputs@[i]@[j],
                    &internals@[i]@[j],
                    #[trigger] &outputs@[i]@[j],
                ),
        decreases n - r,
    {
        assert(inputs@[r as int]@.len() == ops@[r as int]@.len());
        let (internal_row, output_row) = forward_row_many(&ops[r], &inputs[r]);
        internals.push(internal_row);
        outputs.push(output_row);
        r += 1;
    }
    (internals, outputs)
}

/// Evaluates every operator of a block on the cell at its place.
pub fn forward_block_many<G: Forward>(ops: &Vec<Vec<Vec<G>>>, inputs: &Vec<Vec<Vec<G::Input>>>) -> (both:
    (Vec<Vec<Vec<G::Internal>>>, Vec<Vec<Vec<G::Output>>>))
    requires
        alike3(inputs, ops),
        forall|d: int, r: int, c: int|
            0 <= d < ops@.len() && 0 <= r < ops@[d]@.len() && 0 <= c < ops@[d]@[r]@.len()
                ==> ops@[d]@[r]@[c].accepts(#[trigger] &inputs@[d]@[r]@[c]),
    ensures
        alike3(&both.0, ops),
        alike3(&both.1, ops),
        forall|d: int, r: int, c: int|
            0 <= d < ops@.len() && 0 <= r < ops@[d]@.len() && 0 <= c < ops@[d]@[r]@.len()
                ==> ops@[d]@[r]@[c].yields(
                &inputs@[d]@[r]@[c],
                &both.0@[d]@[r]@[c],
                #[trigger] &both.1@[d]@[r]@[c],
            ),
{
    let mut internals: Vec<Vec<Vec<G::Internal>>> = Vec::new();
    let mut outputs: Vec<Vec<Vec<G::Output>>> = Vec::new();
    let n: usize = ops.len();
    let mut d: usize = 0;
    while d < n
        invariant
            d <= n,
            n == ops@.len(),
            alike3(inputs, ops),
            forall|p: int, i: int, j: int|
                0 <= p < ops@.len() && 0 <= i < ops@[p]@.len() && 0 <= j < ops@[p]@[i]@.len()
                    ==> ops@[p]@[i]@[j].accepts(#[trigger] &inputs@[p]@[i]@[j]),
            internals@.len() == d,
            outputs@.len() == d,
            forall|p: int| 0 <= p < d ==> alike(#[trigger] &internals@[p], &ops@[p]),
            forall|p: int| 0 <= p < d ==> alike(#[trigger] &outputs@[p], &ops@[p]),
            forall|p: int, i: int, j: int|
                0 <= p < d && 0 <= i < ops@[p]@.len() && 0 <= j < ops@[p]@[i]@.len()
                    ==> ops@[p]@[i]@[j].yields(
                    &inputs@[p]@[i]@[j],
                    &internals@[p]@[i]@[j],
                    #[trigger] &outputs@[p]@[i]@[j],
                ),
        decreases n - d,
    {
        assert(alike(&inputs@[d as int], &ops@[d as int]));
        let (internal_plane, output_plane) = forward_grid_many(&ops[d], &inputs[d]);
        internals.push(internal_plane);
        outputs.push(output_plane);
        d += 1;
    }
    (internals, outputs)
}

/// Sends every gradient of a row back through the operator at its place.
pub fn backward_row_many<G: Backward>(
    ops: &Vec<G>,
    inputs: &Vec<G::Input>,
    internals: &Vec<G::Internal>,
    deltas: &Vec<G::OutputDelta>,
) -> (both: (Vec<G::InputDelta>, Vec<G::TrainDelta>))
    requires
        inputs@.len() == ops@.len(),
        internals@.len() == ops@.len(),
        deltas@.len() == ops@.len(),
        forall|i: int|
            0 <= i < ops@.len() ==> ops@[i].accepts_back(
                &inputs@[i],
                &internals@[i],
                #[trigger] &deltas@[i],
            ),
    ensures
        both.0@.len() == ops@.len(),
        both.1@.len() == ops@.len(),
        forall|i: int|
            0 <= i < ops@.len() ==> ops@[i].sends_back(
                &inputs@[i],
                &internals@[i],
                &deltas@[i],
                #[trigger] &both.0@[i],
                &both.1@[i],
            ),
{
    let mut input_deltas: Vec<G::InputDelta> = Vec::new();
    let mut train_deltas: Vec<G::TrainDelta> = Vec::new();
    let n: usize = ops.len();
    let mut i: usize = 0;
    while i < n
        invariant
            i <= n,
            n == ops@.len(),
            inputs@.len() == n,
            internals@.len() == n,
            deltas@.len() == n,
            forall|k: int|
                0 <= k < ops@.len() ==> ops@[k].accepts_back(
                    &inputs@[k],
                    &internals@[k],
                    #[trigger] &deltas@[k],
                ),
            input_deltas@.len() == i,
            train_deltas@.len() == i,
            forall|k: int|
                0 <= k < i ==> ops@[k].sends_back(
                    &inputs@[k],
                    &internals@[k],
                    &deltas@[k],
                    #[trigger] &input_deltas@[k],
                    &train_deltas@[k],
                ),
        decreases n - i,
    {
        let (input_delta, train_delta) = ops[i].backward(&inputs[i], &internals[i], &deltas[i]);
        input_deltas.push(input_delta);
        train_deltas.push(train_delta);
        i += 1;
    }
    (input_deltas, train_deltas)
}

/// Sends every gradient of a grid back through the operator at its place.
pub fn backward_grid_many<G: Backward>(
    ops: &Vec<Vec<G>>,
    inputs: &Vec<Vec<G::Input>>,
    internals: &Vec<Vec<G::Internal>>,
    deltas: &Vec<Vec<G::OutputDelta>>,
) -> (both: (Vec<Vec<G::InputDelta>>, Vec<Vec<G::TrainDelta>>))
    requires
        alike(inputs, ops),
        alike(internals, ops),
        alike(deltas, ops),
        forall|r: int, c: int|
            0 <= r < ops@.len() && 0 <= c < ops@[r]@.len() ==> ops@[r]@[c].accepts_back(
                &inputs@[r]@[c],
                &internals@[r]@[c],
                #[trigger] &deltas@[r]@[c],
            ),
    ensures
        alike(&both.0, ops),
        alike(&both.1, ops),
        forall|r: int, c: int|
            0 <= r < ops@.len() && 0 <= c < ops@[r]@.len() ==> ops@[r]@[c].sends_back(
                &inputs@[r]@[c],
                &internals@[r]@[c],
                &deltas@[r]@[c],
                #[trigger] &both.0@[r]@[c],
                &both.1@[r]@[c],
            ),
{
    let mut input_deltas: Vec<Vec<G::InputDelta>> = Vec::new();
    let mut train_deltas: Vec<Vec<G::TrainDelta>> = Vec::new();
    let n: usize = ops.len();
    let mut r: usize = 0;
    while r < n
        invariant
            r <= n,
            n == ops@.len(),
            alike(inputs, ops),
            alike(internals, ops),
            alike(deltas, ops),
            forall|i: int, j: int|
                0 <= i < ops@.len() && 0 <= j < ops@[i]@.len() ==> ops@[i]@[j].accepts_back(
                    &inputs@[i]@[j],
                    &internals@[i]@[j],
                    #[trigger] &deltas@[i]@[j],
                ),
            input_deltas@.len() == r,
            train_deltas@.len() == r,
            forall|i: int| 0 <= i < r ==> (#[trigger] input_deltas@[i])@.len() == ops@[i]@.len(),
            forall|i: int| 0 <= i < r ==> (#[trigger] train_deltas@[i])@.len() == ops@[i]@.len(),
            forall|i: int, j: int|
                0 <= i < r && 0 <= j < ops@[i]@.len() ==> ops@[i]@[j].sends_back(
                    &inputs@[i]@[j],
                    &internals@[i]@[j],
                    &deltas@[i]@[j],
                    #[trigger] &input_deltas@[i]@[j],
                    &train_deltas@[i]@[j],
                ),
        decreases n - r,
    {
        assert(inputs@[r as int]@.len() == ops@[r as int]@.len());
        assert(internals@[r as int]@.len() == ops@[r as int]@.len());
        assert(deltas@[r as int]@.len() == ops@[r as int]@.len());
        let (input_row, train_row) = backward_row_many(&ops[r], &inputs[r], &internals[r], &deltas[r]);
        input_deltas.push(input_row);
        train_deltas.push(train_row);
        r += 1;
    }
    (input_deltas, train_deltas)
}

/// Sends every gradient of a block back through the operator at its
/// place.
pub fn backward_block_many<G: Backward>(
    ops: &Vec<Vec<Vec<G>>>,
    inputs: &Vec<Vec<Vec<G::Input>>>,
    internals: &Vec<Vec<Vec<G::Internal>>>,
    deltas: &Vec<Vec<Vec<G::OutputDelta>>>,
) -> (both: (Vec<Vec<Vec<G::InputDelta>>>, Vec<Vec<Vec<G::TrainDelta>>>))
    requires
        alike3(inputs, ops),
        alike3(internals, ops),
        alike3(deltas, ops),
        forall|d: int, r: int, c: int|
            0 <= d < ops@.len() && 0 <= r < ops@[d]@.len() && 0 <= c < ops@[d]@[r]@.len()
                ==> ops@[d]@[r]@[c].accepts_back(
                &inputs@[d]@[r]@[c],
                &internals@[d]@[r]@[c],
                #[trigger] &deltas@[d]@[r]@[c],
            ),
    ensures
        alike3(&both.0, ops),
        alike3(&both.1, ops),
        forall|d: int, r: int, c: int|
            0 <= d < ops@.len() && 0 <= r < ops@[d]@.len() && 0 <= c < ops@[d]@[r]@.len()
                ==> ops@[d]@[r]@[c].sends_back(
                &inputs@[d]@[r]@[c],
                &internals@[d]@[r]@[c],
                &deltas@[d]@[r]@[c],
                #[trigger] &both.0@[d]@[r]@[c],
                &both.1@[d]@[r]@[c],
            ),
{
    let mut input_deltas: Vec<Vec<Vec<G::InputDelta>>> = Vec::new();
    let mut train_deltas: Vec<Vec<Vec<G::TrainDelta>>> = Vec::new();
    let n: usize = ops.len();
    let mut d: usize = 0;
    while d < n
        invariant
            d <= n,
            n == ops@.len(),
            alike3(inputs, ops),
            alike3(internals, ops),
            alike3(deltas, ops),
            forall|p: int, i: int, j: int|
                0 <= p < ops@.len() && 0 <= i < ops@[p]@.len() && 0 <= j < ops@[p]@[i]@.len()
                    ==> ops@[p]@[i]@[j].accepts_back(
                    &inputs@[p]@[i]@[j],
                    &internals@[p]@[i]@[j],
                    #[trigger] &deltas@[p]@[i]@[j],
                ),
            input_deltas@.len() == d,
            train_deltas@.len() == d,
            forall|p: int| 0 <= p < d ==> alike(#[trigger] &input_deltas@[p], &ops@[p]),
            forall|p: int| 0 <= p < d ==> alike(#[trigger] &train_deltas@[p], &ops@[p]),
            forall|p: int, i: int, j: int|
                0 <= p < d && 0 <= i < ops@[p]@.len() && 0 <= j < ops@[p]@[i]@.len()
                    ==> ops@[p]@[i]@[j].sends_back(
                    &inputs@[p]@[i]@[j],
                    &internals@[p]@[i]@[j],
                    &deltas@[p]@[i]@[j],
                    #[trigger] &input_deltas@[p]@[i]@[j],
                    &train_deltas@[p]@[i]@[j],
                ),
        decreases n - d,
    {
        assert(alike(&inputs@[d as int], &ops@[d as int]));
        assert(alike(&internals@[d as int], &ops@[d as int]));
        assert(alike(&deltas@[d as int], &ops@[d as int]));
        let (input_plane, train_plane) = backward_grid_many(
            &ops[d],
            &inputs[d],
            &internals[d],
            &deltas[d],
        );
        input_deltas.push(input_plane);
        train_deltas.push(train_plane);
        d += 1;
    }
    (input_deltas, train_deltas)
}

/// Trains every operator of a grid with the update at the same place.
pub fn train_grid<G: Train>(ops: &mut Vec<Vec<G>>, deltas: &Vec<Vec<G::TrainDelta>>)
    requires
        alike(deltas, old(ops)),
        forall|r: int, c: int|
            0 <= r < old(ops)@.len() && 0 <= c < old(ops)@[r]@.len() ==> (#[trigger] old(
                ops,
            )@[r]@[c]).accepts_update(&deltas@[r]@[c]),
    ensures
        alike(final(ops), old(ops)),
        forall|r: int, c: int|
            0 <= r < old(ops)@.len() && 0 <= c < old(ops)@[r]@.len() ==> old(ops)@[r]@[c].trains_to(
                &deltas@[r]@[c],
                #[trigger] &final(ops)@[r]@[c],
            ),
{
    let n: usize = ops.len();
    let mut r: usize = 0;
    while r < n
        invariant
            r <= n,
            n == ops@.len(),
            old(ops)@.len() == n,
            alike(deltas, old(ops)),
            forall|i: int, j: int|
                0 <= i < old(ops)@.len() && 0 <= j < old(ops)@[i]@.len() ==> (#[trigger] old(
                    ops,
                )@[i]@[j]).accepts_update(&deltas@[i]@[j]),
            forall|i: int| r <= i < n ==> #[trigger] ops@[i] == old(ops)@[i],
            forall|i: int| 0 <= i < r ==> (#[trigger] ops@[i])@.len() == old(ops)@[i]@.len(),
            forall|i: int, j: int|
                0 <= i < r && 0 <= j < old(ops)@[i]@.len() ==> old(ops)@[i]@[j].trains_to(
                    &deltas@[i]@[j],
                    #[trigger] &ops@[i]@[j],
                ),
        decreases n - r,
    {
        assert(deltas@[r as int]@.len() == old(ops)@[r as int]@.len());
        train_row(&mut ops[r], &deltas[r]);
        r += 1;
    }
}

/// Trains every operator of a block with the update at the same place.
pub fn train_block<G: Train>(ops: &mut Vec<Vec<Vec<G>>>, deltas: &Vec<Vec<Vec<G::TrainDelta>>>)
    requires
        alike3(deltas, old(ops)),
        forall|d: int, r: int, c: int|
            0 <= d < old(ops)@.len() && 0 <= r < old(ops)@[d]@.len() && 0 <= c < old(
                ops,
            )@[d]@[r]@.len() ==> (#[trigger] old(ops)@[d]@[r]@[c]).accepts_update(
                &deltas@[d]@[r]@[c],
            ),
    ensures
        alike3(final(ops), old(ops)),
        forall|d: int, r: int, c: int|
            0 <= d < old(ops)@.len() && 0 <= r < old(ops)@[d]@.len() && 0 <= c < old(
                ops,
            )@[d]@[r]@.len() ==> old(ops)@[d]@[r]@[c].trains_to(
                &deltas@[d]@[r]@[c],
                #[trigger] &final(ops)@[d]@[r]@[c],
            ),
{
    let n: usize = ops.len();
    let mut d: usize = 0;
    while d < n
        invariant
            d <= n,
            n == ops@.len(),
            old(ops)@.len() == n,
            alike3(deltas, old(ops)),
            forall|p: int, i: int, j: int|
                0 <= p < old(ops)@.len() && 0 <= i < old(ops)@[p]@.len() && 0 <= j < old(
                    ops,
                )@[p]@[i]@.len() ==> (#[trigger] old(ops)@[p]@[i]@[j]).accepts_update(
                    &deltas@[p]@[i]@[j],
                ),
            forall|p: int| d <= p < n ==> #[trigger] ops@[p] == old(ops)@[p],
            forall|p: int| 0 <= p < d ==> alike(#[trigger] &ops@[p], &old(ops)@[p]),
            forall|p: int, i: int, j: int|
                0 <= p < d && 0 <= i < old(ops)@[p]@.len() && 0 <= j < old(ops)@[p]@[i]@.len()
                    ==> old(ops)@[p]@[i]@[j].trains_to(
                    &deltas@[p]@[i]@[j],
                    #[trigger] &ops@[p]@[i]@[j],
                ),
        decreases n - d,
    {
        assert(alike(&deltas@[d as int], &old(ops)@[d as int]));
        train_grid(&mut ops[d], &deltas[d]);
        d += 1;
    }
}

/// Sends a row of gradients back through one operator whose cache is the
/// same for every cell, and drops the updates.
pub(crate) fn backward_row_shared<G: Backward>(
    g: &G,
    inputs: &Vec<G::Input>,
    internal: &G::Internal,
    deltas: &Vec<G::OutputDelta>,
) -> (out: (Vec<G::InputDelta>, Ghost<Seq<G::TrainDelta>>))
    requires
        deltas@.len() == inputs@.len(),
        forall|i: int|
            0 <= i < inputs@.len() ==> g.accepts_back(&inputs@[i], internal, #[trigger] &deltas@[i]),
    ensures
        out.0@.len() == inputs@.len(),
        out.1@.len() == inputs@.len(),
        forall|i: int|
            0 <= i < inputs@.len() ==> g.sends_back(
                &inputs@[i],
                internal,
                &deltas@[i],
                #[trigger] &out.0@[i],
                &out.1@[i],
            ),
{
    let mut input_deltas: Vec<G::InputDelta> = Vec::new();
    let ghost mut parts: Seq<G::TrainDelta> = Seq::empty();
    let n: usize = inputs.len();
    let mut i: usize = 0;
    while i < n
        invariant
            i <= n,
            n == inputs@.len(),
            deltas@.len() == n,
            forall|k: int|
                0 <= k < inputs@.len() ==> g.accepts_back(
                    &inputs@[k],
                    internal,
                    #[trigger] &deltas@[k],
                ),
            input_deltas@.len() == i,
            parts.len() == i,
            forall|k: int|
                0 <= k < i ==> g.sends_back(
                    &inputs@[k],
                    internal,
                    &deltas@[k],
                    #[trigger] &input_deltas@[k],
                    &parts[k],
                ),
        decreases n - i,
    {
        let (input_delta, train_delta) = g.backward(&inputs[i], internal, &deltas[i]);
        proof {
            parts = parts.push(train_delta);
        }
        input_deltas.push(input_delta);
        i += 1;
    }
    (input_deltas, Ghost(parts))
}

/// Sends a grid of gradients back through one operator whose cache is
/// the same for every cell, and drops the updates.
pub(crate) fn backward_grid_shared<G: Backward>(
    g: &G,
    inputs: &Vec<Vec<G::Input>>,
    internal: &G::Internal,
    deltas: &Vec<Vec<G::OutputDelta>>,
) -> (out: (Vec<Vec<G::InputDelta>>, Ghost<Seq<Seq<G::TrainDelta>>>))
    requires
        alike(deltas, inputs),
        forall|r: int, c: int|
            0 <= r < inputs@.len() && 0 <= c < inputs@[r]@.len() ==> g.accepts_back(
                &inputs@[r]@[c],
                internal,
                #[trigger] &deltas@[r]@[c],
            ),
    ensures
        alike(&out.0, inputs),
        out.1@.len() == inputs@.len(),
        forall|r: int| 0 <= r < inputs@.len() ==> (#[trigger] out.1@[r]).len() == inputs@[r]@.len(),
        forall|r: int, c: int|
            0 <= r < inputs@.len() && 0 <= c < inputs@[r]@.len() ==> g.sends_back(
                &inputs@[r]@[c],
                internal,
                &deltas@[r]@[c],
                #[trigger] &out.0@[r]@[c],
                &out.1@[r][c],
            ),
{
    let mut input_deltas: Vec<Vec<G::InputDelta>> = Vec::new();
    let ghost mut parts: Seq<Seq<G::TrainDelta>> = Seq::empty();
    let n: usize = inputs.len();
    let mut r: usize = 0;
    while r < n
        invariant
            r <= n,
            n == inputs@.len(),
            alike(deltas, inputs),
            forall|i: int, j: int|
                0 <= i < inputs@.len() && 0 <= j < inputs@[i]@.len() ==> g.accepts_back(
                    &inputs@[i]@[j],
                    internal,
                    #[trigger] &deltas@[i]@[j],
                ),
            input_deltas@.len() == r,
            parts.len() == r,
            forall|i: int| 0 <= i < r ==> (#[trigger] input_deltas@[i])@.len() == inputs@[i]@.len(),
            forall|i: int| 0 <= i < r ==> (#[trigger] parts[i]).len() == inputs@[i]@.len(),
            forall|i: int, j: int|
                0 <= i < r && 0 <= j < inputs@[i]@.len() ==> g.sends_back(
                    &inputs@[i]@[j],
                    internal,
                    &deltas@[i]@[j],
                    #[trigger] &input_deltas@[i]@[j],
                    &parts[i][j],
                ),
        decreases n - r,
    {
        assert(deltas@[r as int]@.len() == inputs@[r as int]@.len());
        let (row, Ghost(row_parts)) = backward_row_shared(g, &inputs[r], internal, &deltas[r]);
        proof {
            parts = parts.push(row_parts);
        }
        input_deltas.push(row);
        r += 1;
    }
    (input_deltas, Ghost(parts))
}

/// Sends a block of gradients back through one operator whose cache is
/// the same for every cell, and drops the updates.
pub(crate) fn backward_block_shared<G: Backward>(
    g: &G,
    inputs: &Vec<Vec<Vec<G::Input>>>,
    internal: &G::Internal,
    deltas: &Vec<Vec<Vec<G::OutputDelta>>>,
) -> (out: (Vec<Vec<Vec<G::InputDelta>>>, Ghost<Seq<Seq<Seq<G::TrainDelta>>>>))
    requires
        alike3(deltas, inputs),
        forall|d: int, r: int, c: int|
            0 <= d < inputs@.len() && 0 <= r < inputs@[d]@.len() && 0 <= c < inputs@[d]@[r]@.len()
                ==> g.accepts_back(&inputs@[d]@[r]@[c], internal, #[trigger] &deltas@[d]@[r]@[c]),
    ensures
        alike3(&out.0, inputs),
        out.1@.len() == inputs@.len(),
        forall|d: int| 0 <= d < inputs@.len() ==> (#[trigger] out.1@[d]).len() == inputs@[d]@.len(),
        forall|d: int, r: int|
            0 <= d < inputs@.len() && 0 <= r < inputs@[d]@.len() ==> (#[trigger] out.1@[d][r]).len()
                == inputs@[d]@[r]@.len(),
        forall|d: int, r: int, c: int|
            0 <= d < inputs@.len() && 0 <= r < inputs@[d]@.len() && 0 <= c < inputs@[d]@[r]@.len()
                ==> g.sends_back(
                &inputs@[d]@[r]@[c],
                internal,
                &deltas@[d]@[r]@[c],
                #[trigger] &out.0@[d]@[r]@[c],
                &out.1@[d][r][c],
            ),
{
    let mut input_deltas: Vec<Vec<Vec<G::InputDelta>>> = Vec::new();
    let ghost mut parts: Seq<Seq<Seq<G::TrainDelta>>> = Seq::empty();
    let n: usize = inputs.len();
    let mut d: usize = 0;
    while d < n
        invariant
            d <= n,
            n == inputs@.len(),
            alike3(deltas, inputs),
            forall|p: int, i: int, j: int|
                0 <= p < inputs@.len() && 0 <= i < inputs@[p]@.len() && 0 <= j
                    < inputs@[p]@[i]@.len() ==> g.accepts_back(
                    &inputs@[p]@[i]@[j],
                    internal,
                    #[trigger] &deltas@[p]@[i]@[j],
                ),
            input_deltas@.len() == d,
            parts.len() == d,
            forall|p: int| 0 <= p < d ==> alike(#[trigger] &input_deltas@[p], &inputs@[p]),
            forall|p: int| 0 <= p < d ==> (#[trigger] parts[p]).len() == inputs@[p]@.len(),
            forall|p: int, i: int|
                0 <= p < d && 0 <= i < inputs@[p]@.len() ==> (#[trigger] parts[p][i]).len()
                    == inputs@[p]@[i]@.len(),
            forall|p: int, i: int, j: int|
                0 <= p < d && 0 <= i < inputs@[p]@.len() && 0 <= j < inputs@[p]@[i]@.len()
                    ==> g.sends_back(
                    &inputs@[p]@[i]@[j],
                    internal,
                    &deltas@[p]@[i]@[j],
                    #[trigger] &input_deltas@[p]@[i]@[j],
                    &parts[p][i][j],
                ),
        decreases n - d,
    {
        assert(alike(&deltas@[d as int], &inputs@[d as int]));
        let (plane, Ghost(plane_parts)) = backward_grid_shared(g, &inputs[d], internal, &deltas[d]);
        proof {
            parts = parts.push(plane_parts);
        }
        input_deltas.push(plane);
        d += 1;
    }
    (input_deltas, Ghost(parts))
}

/// Sends a row of gradients back through one operator and drops the
/// updates.
pub(crate) fn backward_row_static<G: Backward>(
    g: &G,
    inputs: &Vec<G::Input>,
    internals: &Vec<G::Internal>,
    deltas: &Vec<G::OutputDelta>,
) -> (out: (Vec<G::InputDelta>, Ghost<Seq<G::TrainDelta>>))
    requires
        internals@.len() == inputs@.len(),
        deltas@.len() == inputs@.len(),
        forall|i: int|
            0 <= i < inputs@.len() ==> g.accepts_back(
                &inputs@[i],
                &internals@[i],
                #[trigger] &deltas@[i],
            ),
    ensures
        out.0@.len() == inputs@.len(),
        out.1@.len() == inputs@.len(),
        forall|i: int|
            0 <= i < inputs@.len() ==> g.sends_back(
                &inputs@[i],
                &internals@[i],
                &deltas@[i],
                #[trigger] &out.0@[i],
                &out.1@[i],
            ),
{
    let mut input_deltas: Vec<G::InputDelta> = Vec::new();
    let ghost mut parts: Seq<G::TrainDelta> = Seq::empty();
    let n: usize = inputs.len();
    let mut i: usize = 0;
    while i < n
        invariant
            i <= n,
            n == inputs@.len(),
            internals@.len() == n,
            deltas@.len() == n,
            forall|k: int|
                0 <= k < inputs@.len() ==> g.accepts_back(
                    &inputs@[k],
                    &internals@[k],
                    #[trigger] &deltas@[k],
                ),
            input_deltas@.len() == i,
            parts.len() == i,
            forall|k: int|
                0 <= k < i ==> g.sends_back(
                    &inputs@[k],
                    &internals@[k],
                    &deltas@[k],
                    #[trigger] &input_deltas@[k],
                    &parts[k],
                ),
        decreases n - i,
    {
        let (input_delta, train_delta) = g.backward(&inputs[i], &internals[i], &deltas[i]);
        proof {
            parts = parts.push(train_delta);
        }
        input_deltas.push(input_delta);
        i += 1;
    }
    (input_deltas, Ghost(parts))
}

} // verus!
