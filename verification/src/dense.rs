//! Fully connected layers: every output unit weighs the whole input.

use crate::cellwise::CellOp;
use crate::conv::{row_sum, window_sum};
use crate::delta::EmptyData;
use crate::ndeep::Ndeep;
use crate::operator::{Backward, Forward, Train};
use crate::scalar::Scalar;
use crate::tensor::{Tensor1, Tensor2, Tensor3};
use vstd::prelude::*;

verus! {

/// The gradients of the first `n` output units, each weighed by what ties
/// that unit to input cell `j`, summed from zero in the units' order.
pub open spec fn weighted_column<T: Scalar>(
    weights: &Tensor2<T>,
    delta: &Tensor1<T>,
    j: int,
    n: int,
) -> T
    decreases n,
{
    if n <= 0 {
        T::zero_spec()
    } else {
        weighted_column(weights, delta, j, n - 1).add_spec(
            weights.at(n - 1, j).mul_spec(delta.at(n - 1)),
        )
    }
}

/// The gradients of the first `n` output units, each weighed by what ties
/// that unit to input cell `(r, c)`, summed from zero in the units' order.
pub open spec fn weighted_cell<T: Scalar>(
    weights: &Tensor3<T>,
    delta: &Tensor1<T>,
    r: int,
    c: int,
    n: int,
) -> T
    decreases n,
{
    if n <= 0 {
        T::zero_spec()
    } else {
        weighted_cell(weights, delta, r, c, n - 1).add_spec(
            weights.at(n - 1, r, c).mul_spec(delta.at(n - 1)),
        )
    }
}

/// A layer from an input of one axis to output units. The weights' axes
/// are the unit and the input cell.
#[derive(Debug)]
pub struct Dense1<T>(pub Tensor2<T>);

/// A layer from an input of two axes to output units. The weights' axes
/// are the unit, the input row and the input column.
#[derive(Debug)]
pub struct Dense2<T>(pub Tensor3<T>);

impl<T> Dense1<T> {
    pub fn new(weights: Tensor2<T>) -> (layer: Dense1<T>)
        ensures
            layer.0 == weights,
    {
        Dense1(weights)
    }
}

impl<T> Dense2<T> {
    pub fn new(weights: Tensor3<T>) -> (layer: Dense2<T>)
        ensures
            layer.0 == weights,
    {
        Dense2(weights)
    }
}

impl<T: Scalar> Forward for Dense1<T> {
    type Input = Tensor1<T>;

    type Internal = EmptyData;

    type Output = Tensor1<T>;

    /// The input has as many cells as every unit has weights.
    open spec fn accepts(&self, input: &Tensor1<T>) -> bool {
        &&& self.0.wf()
        &&& input.len() == self.0.cols
    }

    /// Every unit puts out the sum of the input's cells, each multiplied
    /// by the unit's weight for it.
    open spec fn yields(&self, input: &Tensor1<T>, internal: &EmptyData, output: &Tensor1<T>) -> bool {
        &&& output.len() == self.0.rows
        &&& forall|o: int|
            0 <= o < self.0.rows ==> #[trigger] output.at(o) == row_sum(
                T::zero_spec(),
                input@,
                self.0@[o],
                0,
                self.0.cols as int,
            )
    }

    fn forward(&self, input: &Tensor1<T>) -> (both: (EmptyData, Tensor1<T>)) {
        let units: usize = self.0.rows;
        let width: usize = self.0.cols;
        let mut out: Vec<T> = Vec::new();
        let mut o: usize = 0;
        while o < units
            invariant
                o <= units,
                units == self.0.rows,
                width == self.0.cols,
                self.accepts(input),
                out@.len() == o,
                forall|k: int|
                    0 <= k < o ==> #[trigger] out@[k] == row_sum(
                        T::zero_spec(),
                        input@,
                        self.0@[k],
                        0,
                        width as int,
                    ),
            decreases units - o,
        {
            let mut acc: T = T::zero();
            let mut j: usize = 0;
            while j < width
                invariant
                    j <= width,
                    o < units,
                    units == self.0.rows,
                    width == self.0.cols,
                    self.accepts(input),
                    acc == row_sum(T::zero_spec(), input@, self.0@[o as int], 0, j as int),
                decreases width - j,
            {
                acc = acc.add(input.get(j).mul(*self.0.get(o, j)));
                j += 1;
            }
            out.push(acc);
            o += 1;
        }
        (EmptyData, Tensor1 { data: out })
    }
}

impl<T: Scalar> Backward for Dense1<T> {
    type OutputDelta = Tensor1<T>;

    type InputDelta = Tensor1<T>;

    type TrainDelta = Ndeep<Tensor2<T>>;

    open spec fn accepts_back(
        &self,
        input: &Tensor1<T>,
        internal: &EmptyData,
        output_delta: &Tensor1<T>,
    ) -> bool {
        &&& self.accepts(input)
        &&& output_delta.len() == self.0.rows
    }

    /// Every input cell gets the units' gradients, weighed by what ties
    /// them to it; every weight gets its input cell times its unit's
    /// gradient.
    open spec fn sends_back(
        &self,
        input: &Tensor1<T>,
        internal: &EmptyData,
        output_delta: &Tensor1<T>,
        input_delta: &Tensor1<T>,
        train_delta: &Ndeep<Tensor2<T>>,
    ) -> bool {
        &&& input_delta.len() == input.len()
        &&& forall|j: int|
            input.holds(j) ==> #[trigger] input_delta.at(j) == weighted_column(
                &self.0,
                output_delta,
                j,
                self.0.rows as int,
            )
        &&& train_delta.0.wf()
        &&& train_delta.0.same_shape(&self.0)
        &&& forall|o: int, j: int|
            self.0.holds(o, j) ==> #[trigger] train_delta.0.at(o, j) == input.at(j).mul_spec(
                output_delta.at(o),
            )
    }

    fn backward(&self, input: &Tensor1<T>, internal: &EmptyData, output_delta: &Tensor1<T>) -> (both: (
        Tensor1<T>,
        Ndeep<Tensor2<T>>,
    )) {
        let units: usize = self.0.rows;
        let width: usize = self.0.cols;
        let mut input_delta: Vec<T> = Vec::new();
        let mut j: usize = 0;
        while j < width
            invariant
                j <= width,
                units == self.0.rows,
                width == self.0.cols,
                self.accepts_back(input, internal, output_delta),
                input_delta@.len() == j,
                forall|k: int|
                    0 <= k < j ==> #[trigger] input_delta@[k] == weighted_column(
                        &self.0,
                        output_delta,
                        k,
                        units as int,
                    ),
            decreases width - j,
        {
            let mut acc: T = T::zero();
            let mut o: usize = 0;
            while o < units
                invariant
                    o <= units,
                    j < width,
                    units == self.0.rows,
                    width == self.0.cols,
                    self.accepts_back(input, internal, output_delta),
                    acc == weighted_column(&self.0, output_delta, j as int, o as int),
                decreases units - o,
            {
                acc = acc.add(self.0.get(o, j).mul(*output_delta.get(o)));
                o += 1;
            }
            input_delta.push(acc);
            j += 1;
        }
        let mut train_delta: Vec<Vec<T>> = Vec::new();
        let mut o: usize = 0;
        while o < units
            invariant
                o <= units,
                units == self.0.rows,
                width == self.0.cols,
                self.accepts_back(input, internal, output_delta),
                train_delta@.len() == o,
                forall|k: int| 0 <= k < o ==> (#[trigger] train_delta@[k])@.len() == width,
                forall|k: int, i: int|
                    0 <= k < o && 0 <= i < width ==> #[trigger] train_delta@[k]@[i] == input.at(
                        i,
                    ).mul_spec(output_delta.at(k)),
            decreases units - o,
        {
            let by: T = *output_delta.get(o);
            let mut row: Vec<T> = Vec::new();
            let mut i: usize = 0;
            while i < width
                invariant
                    i <= width,
                    o < units,
                    width == self.0.cols,
                    self.accepts_back(input, internal, output_delta),
                    by == output_delta.at(o as int),
                    row@.len() == i,
                    forall|k: int| 0 <= k < i ==> #[trigger] row@[k] == input.at(k).mul_spec(by),
                decreases width - i,
            {
                row.push(input.get(i).mul(by));
                i += 1;
            }
            train_delta.push(row);
            o += 1;
        }
        (Tensor1 { data: input_delta }, Ndeep(Tensor2 { rows: units, cols: width, data: train_delta }))
    }
}

impl<T: Scalar> Train for Dense1<T> {
    open spec fn accepts_update(&self, train_delta: &Ndeep<Tensor2<T>>) -> bool {
        &&& self.0.wf()
        &&& train_delta.0.wf()
        &&& self.0.same_shape(&train_delta.0)
    }

    open spec fn trains_to(&self, train_delta: &Ndeep<Tensor2<T>>, after: &Dense1<T>) -> bool {
        after.0.zipped_from(CellOp::Sum, &self.0, &train_delta.0)
    }

    fn train(&mut self, train_delta: &Ndeep<Tensor2<T>>) {
        self.0.zip_with(CellOp::Sum, &train_delta.0);
    }
}

impl<T: Scalar> Forward for Dense2<T> {
    type Input = Tensor2<T>;

    type Internal = EmptyData;

    type Output = Tensor1<T>;

    /// The input has the shape of every unit's weights.
    open spec fn accepts(&self, input: &Tensor2<T>) -> bool {
        &&& self.0.wf()
        &&& input.wf()
        &&& input.rows == self.0.rows
        &&& input.cols == self.0.cols
    }

    /// Every unit puts out the sum of the input's cells, each multiplied
    /// by the unit's weight for it.
    open spec fn yields(&self, input: &Tensor2<T>, internal: &EmptyData, output: &Tensor1<T>) -> bool {
        &&& output.len() == self.0.depth
        &&& forall|o: int|
            0 <= o < self.0.depth ==> #[trigger] output.at(o) == window_sum(input@, self.0@[o], 0, 0)
    }

    fn forward(&self, input: &Tensor2<T>) -> (both: (EmptyData, Tensor1<T>)) {
        let units: usize = self.0.depth;
        let rows: usize = self.0.rows;
        let cols: usize = self.0.cols;
        let mut out: Vec<T> = Vec::new();
        let mut o: usize = 0;
        while o < units
            invariant
                o <= units,
                units == self.0.depth,
                rows == self.0.rows,
                cols == self.0.cols,
                self.accepts(input),
                out@.len() == o,
                forall|k: int|
                    0 <= k < o ==> #[trigger] out@[k] == window_sum(input@, self.0@[k], 0, 0),
            decreases units - o,
        {
            let mut acc: T = T::zero();
            let mut r: usize = 0;
            while r < rows
                invariant
                    r <= rows,
                    o < units,
                    units == self.0.depth,
                    rows == self.0.rows,
                    cols == self.0.cols,
                    self.accepts(input),
                    acc == crate::conv::rows_sum(
                        T::zero_spec(),
                        input@,
                        self.0@[o as int],
                        0,
                        0,
                        r as int,
                    ),
                decreases rows - r,
            {
                let ghost before = acc;
                let mut c: usize = 0;
                while c < cols
                    invariant
                        c <= cols,
                        r < rows,
                        o < units,
                        units == self.0.depth,
                        rows == self.0.rows,
                        cols == self.0.cols,
                        self.accepts(input),
                        acc == row_sum(before, input@[r as int], self.0@[o as int][r as int], 0, c as int),
                    decreases cols - c,
                {
                    acc = acc.add(input.get(r, c).mul(*self.0.get(o, r, c)));
                    c += 1;
                }
                r += 1;
            }
            out.push(acc);
            o += 1;
        }
        (EmptyData, Tensor1 { data: out })
    }
}

impl<T: Scalar> Backward for Dense2<T> {
    type OutputDelta = Tensor1<T>;

    type InputDelta = Tensor2<T>;

    type TrainDelta = Ndeep<Tensor3<T>>;

    open spec fn accepts_back(
        &self,
        input: &Tensor2<T>,
        internal: &EmptyData,
        output_delta: &Tensor1<T>,
    ) -> bool {
        &&& self.accepts(input)
        &&& output_delta.len() == self.0.depth
    }

    /// Every input cell gets the units' gradients, weighed by what ties
    /// them to it; every weight gets its input cell times its unit's
    /// gradient.
    open spec fn sends_back(
        &self,
        input: &Tensor2<T>,
        internal: &EmptyData,
        output_delta: &Tensor1<T>,
        input_delta: &Tensor2<T>,
        train_delta: &Ndeep<Tensor3<T>>,
    ) -> bool {
        &&& input_delta.wf()
        &&& input_delta.same_shape(input)
        &&& forall|r: int, c: int|
            input.holds(r, c) ==> #[trigger] input_delta.at(r, c) == weighted_cell(
                &self.0,
                output_delta,
                r,
                c,
                self.0.depth as int,
            )
        &&& train_delta.0.wf()
        &&& train_delta.0.same_shape(&self.0)
        &&& forall|o: int, r: int, c: int|
            self.0.holds(o, r, c) ==> #[trigger] train_delta.0.at(o, r, c) == input.at(
                r,
                c,
            ).mul_spec(output_delta.at(o))
    }

    fn backward(&self, input: &Tensor2<T>, internal: &EmptyData, output_delta: &Tensor1<T>) -> (both: (
        Tensor2<T>,
        Ndeep<Tensor3<T>>,
    )) {
        let units: usize = self.0.depth;
        let rows: usize = self.0.rows;
        let cols: usize = self.0.cols;
        let mut input_delta: Vec<Vec<T>> = Vec::new();
        let mut r: usize = 0;
        while r < rows
            invariant
                r <= rows,
                units == self.0.depth,
                rows == self.0.rows,
                cols == self.0.cols,
                self.accepts_back(input, internal, output_delta),
                input_delta@.len() == r,
                forall|i: int| 0 <= i < r ==> (#[trigger] input_delta@[i])@.len() == cols,
                forall|i: int, j: int|
                    0 <= i < r && 0 <= j < cols ==> #[trigger] input_delta@[i]@[j] == weighted_cell(
                        &self.0,
                        output_delta,
                        i,
                        j,
                        units as int,
                    ),
            decreases rows - r,
        {
            let mut row: Vec<T> = Vec::new();
            let mut c: usize = 0;
            while c < cols
                invariant
                    c <= cols,
                    r < rows,
                    units == self.0.depth,
                    rows == self.0.rows,
                    cols == self.0.cols,
                    self.accepts_back(input, internal, output_delta),
                    row@.len() == c,
                    forall|j: int|
                        0 <= j < c ==> #[trigger] row@[j] == weighted_cell(
                            &self.0,
                            output_delta,
                            r as int,
                            j,
                            units as int,
                        ),
                decreases cols - c,
            {
                let mut acc: T = T::zero();
                let mut o: usize = 0;
                while o < units
                    invariant
                        o <= units,
                        r < rows,
                        c < cols,
                        units == self.0.depth,
                        rows == self.0.rows,
                        cols == self.0.cols,
                        self.accepts_back(input, internal, output_delta),
                        acc == weighted_cell(&self.0, output_delta, r as int, c as int, o as int),
                    decreases units - o,
                {
                    acc = acc.add(self.0.get(o, r, c).mul(*output_delta.get(o)));
                    o += 1;
                }
                row.push(acc);
                c += 1;
            }
            input_delta.push(row);
            r += 1;
        }
        let mut train_delta: Vec<Vec<Vec<T>>> = Vec::new();
        let mut o: usize = 0;
        while o < units
            invariant
                o <= units,
                units == self.0.depth,
                rows == self.0.rows,
                cols == self.0.cols,
                self.accepts_back(input, internal, output_delta),
                train_delta@.len() == o,
                forall|k: int| 0 <= k < o ==> (#[trigger] train_delta@[k])@.len() == rows,
                forall|k: int, i: int|
                    0 <= k < o && 0 <= i < rows ==> (#[trigger] train_delta@[k]@[i])@.len() == cols,
                forall|k: int, i: int, j: int|
                    0 <= k < o && 0 <= i < rows && 0 <= j < cols
                        ==> #[trigger] train_delta@[k]@[i]@[j] == input.at(i, j).mul_spec(
                        output_delta.at(k),
                    ),
            decreases units - o,
        {
            let by: T = *output_delta.get(o);
            let mut plane: Vec<Vec<T>> = Vec::new();
            let mut i: usize = 0;
            while i < rows
                invariant
                    i <= rows,
                    o < units,
                    rows == self.0.rows,
                    cols == self.0.cols,
                    self.accepts_back(input, internal, output_delta),
                    by == output_delta.at(o as int),
                    plane@.len() == i,
                    forall|k: int| 0 <= k < i ==> (#[trigger] plane@[k])@.len() == cols,
                    forall|k: int, j: int|
                        0 <= k < i && 0 <= j < cols ==> #[trigger] plane@[k]@[j] == input.at(
                            k,
                            j,
                        ).mul_spec(by),
                decreases rows - i,
            {
                let mut row: Vec<T> = Vec::new();
                let mut j: usize = 0;
                while j < cols
                    invariant
                        j <= cols,
                        i < rows,
                        rows == self.0.rows,
                        cols == self.0.cols,
                        self.accepts_back(input, internal, output_delta),
                        row@.len() == j,
                        forall|k: int|
                            0 <= k < j ==> #[trigger] row@[k] == input.at(i as int, k).mul_spec(by),
                    decreases cols - j,
                {
                    row.push(input.get(i, j).mul(by));
                    j += 1;
                }
                plane.push(row);
                i += 1;
            }
            train_delta.push(plane);
            o += 1;
        }
        (
            Tensor2 { rows, cols, data: input_delta },
            Ndeep(Tensor3 { depth: units, rows, cols, data: train_delta }),
        )
    }
}

impl<T: Scalar> Train for Dense2<T> {
    open spec fn accepts_update(&self, train_delta: &Ndeep<Tensor3<T>>) -> bool {
        &&& self.0.wf()
        &&& train_delta.0.wf()
        &&& self.0.same_shape(&train_delta.0)
    }

    open spec fn trains_to(&self, train_delta: &Ndeep<Tensor3<T>>, after: &Dense2<T>) -> bool {
        after.0.zipped_from(CellOp::Sum, &self.0, &train_delta.0)
    }

    fn train(&mut self, train_delta: &Ndeep<Tensor3<T>>) {
        self.0.zip_with(CellOp::Sum, &train_delta.0);
    }
}

} // verus!
