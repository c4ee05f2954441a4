//! Deformable convolution: every output cell reads the feature map at
//! learned, fractional places, by bilinear interpolation with zeros
//! outside the map.

use crate::conv::zeros2;
use crate::fixed::{lemma_fixed_exact, lemma_fixed_whole, whole_limit, Fixed};
use crate::ndeep::Ndeep;
use crate::operator::{Backward, Forward};
use crate::scalar::{Real, Scalar};
use crate::tensor::{extent_limit, lemma_grid_equal, Tensor1, Tensor2};
use vstd::prelude::*;

verus! {

/// The value at `t` on the line from `a` (at zero) to `b` (at one):
/// `(1 - t) * a + t * b`.
pub open spec fn lerp<T: Scalar>(a: T, b: T, t: T) -> T {
    T::one_spec().sub_spec(t).mul_spec(a).add_spec(t.mul_spec(b))
}

fn mix<T: Scalar>(a: T, b: T, t: T) -> (out: T)
    ensures
        out == lerp(a, b, t),
{
    T::one().sub(t).mul(a).add(t.mul(b))
}

/// The four whole places around a coordinate, row first: below-left,
/// below-right, above-left, above-right, where below is the floor and
/// above the ceiling.
pub open spec fn corners_spec<T: Real>(coordinate: [T; 2]) -> [[i64; 2]; 4] {
    [
        [coordinate[0].floor_spec(), coordinate[1].floor_spec()],
        [coordinate[0].floor_spec(), coordinate[1].ceil_spec()],
        [coordinate[0].ceil_spec(), coordinate[1].floor_spec()],
        [coordinate[0].ceil_spec(), coordinate[1].ceil_spec()],
    ]
}

/// How far a coordinate lies beyond its floor, along each axis.
pub open spec fn relative<T: Real>(coordinate: [T; 2]) -> [T; 2] {
    [
        coordinate[0].sub_spec(T::from_whole_spec(coordinate[0].floor_spec())),
        coordinate[1].sub_spec(T::from_whole_spec(coordinate[1].floor_spec())),
    ]
}

/// The place as indices, where it lies on a map of the given extents.
pub open spec fn in_bounds(corner: [i64; 2], rows: usize, cols: usize) -> Option<[usize; 2]> {
    if 0 <= corner[0] < rows && 0 <= corner[1] < cols {
        Some([corner[0] as usize, corner[1] as usize])
    } else {
        None
    }
}

/// The four corners of a coordinate, each as indices where it lies on the
/// map.
pub open spec fn validated<T: Real>(coordinate: [T; 2], rows: usize, cols: usize) -> [Option<
    [usize; 2],
>; 4] {
    [
        in_bounds(corners_spec(coordinate)[0], rows, cols),
        in_bounds(corners_spec(coordinate)[1], rows, cols),
        in_bounds(corners_spec(coordinate)[2], rows, cols),
        in_bounds(corners_spec(coordinate)[3], rows, cols),
    ]
}

/// What the map holds at a corner; zero for a corner outside it.
pub open spec fn corner_value<T: Scalar>(features: &Tensor2<T>, corner: Option<[usize; 2]>) -> T {
    match corner {
        Some(place) => features.at(place[0] as int, place[1] as int),
        None => T::zero_spec(),
    }
}

/// What the map holds at each of four corners.
pub open spec fn extracted<T: Scalar>(features: &Tensor2<T>, corners: [Option<[usize; 2]>; 4]) -> [T;
    4] {
    [
        corner_value(features, corners[0]),
        corner_value(features, corners[1]),
        corner_value(features, corners[2]),
        corner_value(features, corners[3]),
    ]
}

/// The four corner values interpolated along the rows and then along the
/// columns.
pub open spec fn interpolated<T: Scalar>(f: [T; 4], rc: [T; 2]) -> T {
    lerp(lerp(f[0], f[2], rc[0]), lerp(f[1], f[3], rc[0]), rc[1])
}

/// How the interpolated value changes with the place: for each axis, the
/// difference of the two values interpolated along the other axis.
pub open spec fn position_gradient<T: Scalar>(f: [T; 4], rc: [T; 2]) -> [T; 2] {
    [
        lerp(f[2], f[3], rc[1]).sub_spec(lerp(f[0], f[1], rc[1])),
        lerp(f[1], f[3], rc[0]).sub_spec(lerp(f[0], f[2], rc[0])),
    ]
}

/// The share of each corner in the interpolated value.
pub open spec fn coefficients<T: Scalar>(rc: [T; 2]) -> [T; 4] {
    [
        T::one_spec().sub_spec(rc[0]).mul_spec(T::one_spec().sub_spec(rc[1])),
        T::one_spec().sub_spec(rc[0]).mul_spec(rc[1]),
        rc[0].mul_spec(T::one_spec().sub_spec(rc[1])),
        rc[0].mul_spec(rc[1]),
    ]
}

/// The map read at a fractional place.
pub open spec fn bilinear_spec<T: Real>(features: &Tensor2<T>, coordinate: [T; 2]) -> T {
    interpolated(
        extracted(features, validated(coordinate, features.rows, features.cols)),
        relative(coordinate),
    )
}

/// The four whole places around a coordinate.
pub fn corners<T: Real>(coordinate: [T; 2]) -> (out: [[i64; 2]; 4])
    ensures
        out == corners_spec(coordinate),
{
    let c00: [i64; 2] = [coordinate[0].floor(), coordinate[1].floor()];
    let c11: [i64; 2] = [coordinate[0].ceil(), coordinate[1].ceil()];
    let c01: [i64; 2] = [c00[0], c11[1]];
    let c10: [i64; 2] = [c11[0], c00[1]];
    let out: [[i64; 2]; 4] = [c00, c01, c10, c11];
    assert(out[0] =~= corners_spec(coordinate)[0]);
    assert(out[1] =~= corners_spec(coordinate)[1]);
    assert(out[2] =~= corners_spec(coordinate)[2]);
    assert(out[3] =~= corners_spec(coordinate)[3]);
    assert(out =~= corners_spec(coordinate));
    out
}

/// How the interpolated value changes with the place.
pub fn bilinear_position_gradient<T: Scalar>(f: [T; 4], rc: [T; 2]) -> (out: [T; 2])
    ensures
        out == position_gradient(f, rc),
{
    let fx: [T; 2] = [mix(f[0], f[2], rc[0]), mix(f[1], f[3], rc[0])];
    let fy: [T; 2] = [mix(f[0], f[1], rc[1]), mix(f[2], f[3], rc[1])];
    let out: [T; 2] = [fy[1].sub(fy[0]), fx[1].sub(fx[0])];
    assert(out =~= position_gradient(f, rc));
    out
}

fn check_bounds(corner: [i64; 2], rows: usize, cols: usize) -> (out: Option<[usize; 2]>)
    requires
        rows <= extent_limit(),
        cols <= extent_limit(),
    ensures
        out == in_bounds(corner, rows, cols),
{
    let y: i64 = corner[0];
    let x: i64 = corner[1];
    if y < 0 || x < 0 || y as u64 >= rows as u64 || x as u64 >= cols as u64 {
        None
    } else {
        let place: [usize; 2] = [y as usize, x as usize];
        assert(place =~= [corner[0] as usize, corner[1] as usize]);
        Some(place)
    }
}

/// A feature map and the offsets of the taps that read it.
pub struct DefConvData<'a, T> {
    pub features: &'a Tensor2<T>,
    pub offsets: &'a Tensor2<T>,
}

impl<'a, T: Real> DefConvData<'a, T> {
    /// The corners of a coordinate that lie on the map, and how far the
    /// coordinate lies beyond its floor.
    pub fn validate_corners(&self, coordinate: [T; 2]) -> (out: ([Option<[usize; 2]>; 4], [T; 2]))
        requires
            self.features.wf(),
        ensures
            out.0 == validated(coordinate, self.features.rows, self.features.cols),
            out.1 == relative(coordinate),
    {
        let coords: [[i64; 2]; 4] = corners(coordinate);
        let rc: [T; 2] = [
            coordinate[0].sub(T::from_whole(coords[0][0])),
            coordinate[1].sub(T::from_whole(coords[0][1])),
        ];
        let rows: usize = self.features.rows;
        let cols: usize = self.features.cols;
        let found: [Option<[usize; 2]>; 4] = [
            check_bounds(coords[0], rows, cols),
            check_bounds(coords[1], rows, cols),
            check_bounds(coords[2], rows, cols),
            check_bounds(coords[3], rows, cols),
        ];
        assert(found =~= validated(coordinate, rows, cols));
        assert(rc =~= relative(coordinate));
        (found, rc)
    }

    /// What the map holds at each corner; zero for a corner outside it.
    pub fn extract_corners(&self, validated_corners: [Option<[usize; 2]>; 4]) -> (out: [T; 4])
        requires
            self.features.wf(),
            forall|k: int|
                0 <= k < 4 ==> (#[trigger] validated_corners[k] matches Some(place)
                    ==> self.features.holds(place[0] as int, place[1] as int)),
        ensures
            out == extracted(self.features, validated_corners),
    {
        let out: [T; 4] = [
            self.corner(validated_corners[0]),
            self.corner(validated_corners[1]),
            self.corner(validated_corners[2]),
            self.corner(validated_corners[3]),
        ];
        assert(out =~= extracted(self.features, validated_corners));
        out
    }

    fn corner(&self, corner: Option<[usize; 2]>) -> (out: T)
        requires
            self.features.wf(),
            corner matches Some(place) ==> self.features.holds(place[0] as int, place[1] as int),
        ensures
            out == corner_value(self.features, corner),
    {
        match corner {
            Some(place) => *self.features.get(place[0], place[1]),
            None => T::zero(),
        }
    }

    /// The map read at a fractional place: the four corners around it,
    /// interpolated; corners outside the map count as zero.
    pub fn bilinear(&self, coordinate: [T; 2]) -> (out: T)
        requires
            self.features.wf(),
        ensures
            out == bilinear_spec(self.features, coordinate),
    {
        let (validated_corners, rc) = self.validate_corners(coordinate);
        let f: [T; 4] = self.extract_corners(validated_corners);
        let fx: [T; 2] = [mix(f[0], f[2], rc[0]), mix(f[1], f[3], rc[0])];
        mix(fx[0], fx[1], rc[1])
    }
}

/// By how much an output coordinate is stretched along each axis to
/// reach the feature map: the map's extent over the output's.
pub open spec fn scale_factors<T: Real>(features: &Tensor2<T>, shape: [usize; 2]) -> [T; 2] {
    [
        T::from_index_spec(features.rows).div_spec(T::from_index_spec(shape[0])),
        T::from_index_spec(features.cols).div_spec(T::from_index_spec(shape[1])),
    ]
}

/// Where tap `k` reads the feature map for the output cell `(y, x)`: the
/// middle of the cell, moved by the tap's offset, then stretched.
pub open spec fn sample_point<T: Real>(
    offsets: &Tensor2<T>,
    factors: [T; 2],
    y: int,
    x: int,
    k: int,
) -> [T; 2] {
    [
        T::from_index_spec(y as usize).add_spec(T::half_spec()).add_spec(offsets.at(k, 0)).mul_spec(
            factors[0],
        ),
        T::from_index_spec(x as usize).add_spec(T::half_spec()).add_spec(offsets.at(k, 1)).mul_spec(
            factors[1],
        ),
    ]
}

/// The grid with `amount` added to the cell at `place`, if there is one.
pub open spec fn scatter<T: Scalar>(
    grid: Seq<Seq<T>>,
    place: Option<[usize; 2]>,
    amount: T,
) -> Seq<Seq<T>> {
    match place {
        Some(cell) => grid.update(
            cell[0] as int,
            grid[cell[0] as int].update(
                cell[1] as int,
                grid[cell[0] as int][cell[1] as int].add_spec(amount),
            ),
        ),
        None => grid,
    }
}

/// The grid after the first `n` corners of one reading have received
/// their share of the gradient.
pub open spec fn corner_scatter<T: Scalar>(
    grid: Seq<Seq<T>>,
    corners: [Option<[usize; 2]>; 4],
    shares: [T; 4],
    weight: T,
    delta: T,
    n: int,
) -> Seq<Seq<T>>
    decreases n,
{
    if n <= 0 {
        grid
    } else {
        scatter(
            corner_scatter(grid, corners, shares, weight, delta, n - 1),
            corners[n - 1],
            shares[n - 1].mul_spec(weight).mul_spec(delta),
        )
    }
}

/// Which of the gradients that belong to one tap is meant.
#[derive(Clone, Copy, Debug, PartialEq, Eq, Structural)]
pub enum TapPart {
    /// The gradient of the tap's weight.
    Weight,
    /// The gradient of the tap's offset along the rows.
    OffsetRow,
    /// The gradient of the tap's offset along the columns.
    OffsetCol,
}

fn sample<T: Real>(offsets: &Tensor2<T>, factors: [T; 2], y: usize, x: usize, k: usize) -> (out: [T; 2])
    requires
        offsets.wf(),
        offsets.cols == 2,
        k < offsets.rows,
    ensures
        out == sample_point(offsets, factors, y as int, x as int, k as int),
{
    let out: [T; 2] = [
        T::from_index(y).add(T::half()).add(*offsets.get(k, 0)).mul(factors[0]),
        T::from_index(x).add(T::half()).add(*offsets.get(k, 1)).mul(factors[1]),
    ];
    assert(out =~= sample_point(offsets, factors, y as int, x as int, k as int));
    out
}

fn factors_of<T: Real>(features: &Tensor2<T>, shape: [usize; 2]) -> (out: [T; 2])
    ensures
        out == scale_factors(features, shape),
{
    let out: [T; 2] = [
        T::from_index(features.rows).div(T::from_index(shape[0])),
        T::from_index(features.cols).div(T::from_index(shape[1])),
    ];
    assert(out =~= scale_factors(features, shape));
    out
}

fn shares_of<T: Scalar>(rc: [T; 2]) -> (out: [T; 4])
    ensures
        out == coefficients(rc),
{
    let out: [T; 4] = [
        T::one().sub(rc[0]).mul(T::one().sub(rc[1])),
        T::one().sub(rc[0]).mul(rc[1]),
        rc[0].mul(T::one().sub(rc[1])),
        rc[0].mul(rc[1]),
    ];
    assert(out =~= coefficients(rc));
    out
}

/// A deformable convolution: a weight per tap, and the shape of what it
/// puts out. The taps' offsets come in beside the feature map.
#[derive(Debug)]
pub struct DefConv2<T> {
    pub weights: Tensor1<T>,
    pub output_shape: [usize; 2],
}

impl<T: Real> DefConv2<T> {
    pub fn new(weights: Tensor1<T>, output_shape: [usize; 2]) -> (operator: DefConv2<T>)
        ensures
            operator.weights == weights,
            operator.output_shape == output_shape,
    {
        DefConv2 { weights, output_shape }
    }

    /// Where tap `k` reads the feature map for the output cell `(y, x)`.
    pub open spec fn point(&self, input: &(Tensor2<T>, Tensor2<T>), y: int, x: int, k: int) -> [T; 2] {
        sample_point(&input.1, scale_factors(&input.0, self.output_shape), y, x, k)
    }

    /// The weighted readings of the first `n` taps for the output cell
    /// `(y, x)`, summed in the taps' order.
    pub open spec fn taps_sum(&self, input: &(Tensor2<T>, Tensor2<T>), y: int, x: int, n: int) -> T
        decreases n,
    {
        if n <= 0 {
            T::zero_spec()
        } else {
            self.taps_sum(input, y, x, n - 1).add_spec(
                bilinear_spec(&input.0, self.point(input, y, x, n - 1)).mul_spec(
                    self.weights.at(n - 1),
                ),
            )
        }
    }

    /// What the output cell `(y, x)` adds to a gradient of tap `k`.
    pub open spec fn tap_term(
        &self,
        part: TapPart,
        input: &(Tensor2<T>, Tensor2<T>),
        delta: &Tensor2<T>,
        y: int,
        x: int,
        k: int,
    ) -> T {
        let place = self.point(input, y, x, k);
        let slope = position_gradient(
            extracted(&input.0, validated(place, input.0.rows, input.0.cols)),
            relative(place),
        );
        let factors = scale_factors(&input.0, self.output_shape);
        match part {
            TapPart::Weight => bilinear_spec(&input.0, place).mul_spec(delta.at(y, x)),
            TapPart::OffsetRow => factors[0].mul_spec(slope[0]).mul_spec(self.weights.at(k)).mul_spec(
                delta.at(y, x),
            ),
            TapPart::OffsetCol => factors[1].mul_spec(slope[1]).mul_spec(self.weights.at(k)).mul_spec(
                delta.at(y, x),
            ),
        }
    }

    /// `acc` plus what the first `n` cells of output row `y` add to a
    /// gradient of tap `k`.
    pub open spec fn tap_cols(
        &self,
        acc: T,
        part: TapPart,
        input: &(Tensor2<T>, Tensor2<T>),
        delta: &Tensor2<T>,
        k: int,
        y: int,
        n: int,
    ) -> T
        decreases n,
    {
        if n <= 0 {
            acc
        } else {
            self.tap_cols(acc, part, input, delta, k, y, n - 1).add_spec(
                self.tap_term(part, input, delta, y, n - 1, k),
            )
        }
    }

    /// What the first `n` output rows add up to in a gradient of tap `k`,
    /// cell after cell in storage order, starting from zero.
    pub open spec fn tap_rows(
        &self,
        part: TapPart,
        input: &(Tensor2<T>, Tensor2<T>),
        delta: &Tensor2<T>,
        k: int,
        n: int,
    ) -> T
        decreases n,
    {
        if n <= 0 {
            T::zero_spec()
        } else {
            self.tap_cols(
                self.tap_rows(part, input, delta, k, n - 1),
                part,
                input,
                delta,
                k,
                n - 1,
                self.output_shape[1] as int,
            )
        }
    }

    /// The grid after the first `n` taps of the output cell `(y, x)` have
    /// scattered their gradient over the corners they read.
    pub open spec fn tap_scatter(
        &self,
        grid: Seq<Seq<T>>,
        input: &(Tensor2<T>, Tensor2<T>),
        delta: &Tensor2<T>,
        y: int,
        x: int,
        n: int,
    ) -> Seq<Seq<T>>
        decreases n,
    {
        if n <= 0 {
            grid
        } else {
            let place = self.point(input, y, x, n - 1);
            corner_scatter(
                self.tap_scatter(grid, input, delta, y, x, n - 1),
                validated(place, input.0.rows, input.0.cols),
                coefficients(relative(place)),
                self.weights.at(n - 1),
                delta.at(y, x),
                4,
            )
        }
    }

    /// The grid after the first `n` cells of output row `y` have
    /// scattered their gradient.
    pub open spec fn col_scatter(
        &self,
        grid: Seq<Seq<T>>,
        input: &(Tensor2<T>, Tensor2<T>),
        delta: &Tensor2<T>,
        y: int,
        n: int,
    ) -> Seq<Seq<T>>
        decreases n,
    {
        if n <= 0 {
            grid
        } else {
            self.tap_scatter(
                self.col_scatter(grid, input, delta, y, n - 1),
                input,
                delta,
                y,
                n - 1,
                self.weights.len() as int,
            )
        }
    }

    /// The grid after the first `n` output rows have scattered their
    /// gradient.
    pub open spec fn row_scatter(
        &self,
        grid: Seq<Seq<T>>,
        input: &(Tensor2<T>, Tensor2<T>),
        delta: &Tensor2<T>,
        n: int,
    ) -> Seq<Seq<T>>
        decreases n,
    {
        if n <= 0 {
            grid
        } else {
            self.col_scatter(
                self.row_scatter(grid, input, delta, n - 1),
                input,
                delta,
                n - 1,
                self.output_shape[1] as int,
            )
        }
    }

    /// The gradient of the feature map: every reading of every output
    /// cell scattered over a map of zeros.
    pub open spec fn feature_gradient(
        &self,
        input: &(Tensor2<T>, Tensor2<T>),
        delta: &Tensor2<T>,
    ) -> Seq<Seq<T>> {
        self.row_scatter(
            zeros2(input.0.rows as int, input.0.cols as int),
            input,
            delta,
            self.output_shape[0] as int,
        )
    }
}

impl<T: Real> Forward for DefConv2<T> {
    type Input = (Tensor2<T>, Tensor2<T>);

    type Internal = ();

    type Output = Tensor2<T>;

    /// The input is a feature map and, for every tap, an offset of two
    /// parts.
    open spec fn accepts(&self, input: &(Tensor2<T>, Tensor2<T>)) -> bool {
        &&& input.0.wf()
        &&& input.1.wf()
        &&& input.1.rows == self.weights.len()
        &&& input.1.cols == 2
        &&& self.output_shape[0] <= extent_limit()
        &&& self.output_shape[1] <= extent_limit()
    }

    open spec fn yields(
        &self,
        input: &(Tensor2<T>, Tensor2<T>),
        internal: &(),
        output: &Tensor2<T>,
    ) -> bool {
        &&& output.wf()
        &&& output.rows == self.output_shape[0]
        &&& output.cols == self.output_shape[1]
        &&& forall|y: int, x: int|
            output.holds(y, x) ==> #[trigger] output.at(y, x) == self.taps_sum(
                input,
                y,
                x,
                self.weights.len() as int,
            )
    }

    fn forward(&self, input: &(Tensor2<T>, Tensor2<T>)) -> (both: ((), Tensor2<T>)) {
        let data = DefConvData { features: &input.0, offsets: &input.1 };
        let rows: usize = self.output_shape[0];
        let cols: usize = self.output_shape[1];
        let taps: usize = self.weights.extent();
        let factors: [T; 2] = factors_of(&input.0, self.output_shape);
        let mut out: Vec<Vec<T>> = Vec::new();
        let mut y: usize = 0;
        while y < rows
            invariant
                y <= rows,
                self.accepts(input),
                data.features == &input.0,
                data.offsets == &input.1,
                rows == self.output_shape[0],
                cols == self.output_shape[1],
                taps == self.weights.len(),
                factors == scale_factors(&input.0, self.output_shape),
                out@.len() == y,
                forall|i: int| 0 <= i < y ==> (#[trigger] out@[i])@.len() == cols,
                forall|i: int, j: int|
                    0 <= i < y && 0 <= j < cols ==> #[trigger] out@[i]@[j] == self.taps_sum(
                        input,
                        i,
                        j,
                        taps as int,
                    ),
            decreases rows - y,
        {
            let mut row: Vec<T> = Vec::new();
            let mut x: usize = 0;
            while x < cols
                invariant
                    x <= cols,
                    y < rows,
                    self.accepts(input),
                    data.features == &input.0,
                    data.offsets == &input.1,
                    rows == self.output_shape[0],
                    cols == self.output_shape[1],
                    taps == self.weights.len(),
                    factors == scale_factors(&input.0, self.output_shape),
                    row@.len() == x,
                    forall|j: int|
                        0 <= j < x ==> #[trigger] row@[j] == self.taps_sum(
                            input,
                            y as int,
                            j,
                            taps as int,
                        ),
                decreases cols - x,
            {
                let mut acc: T = T::zero();
                let mut k: usize = 0;
                while k < taps
                    invariant
                        k <= taps,
                        self.accepts(input),
                        data.features == &input.0,
                        data.offsets == &input.1,
                        taps == self.weights.len(),
                        factors == scale_factors(&input.0, self.output_shape),
                        acc == self.taps_sum(input, y as int, x as int, k as int),
                    decreases taps - k,
                {
                    let place: [T; 2] = sample(data.offsets, factors, y, x, k);
                    acc = acc.add(data.bilinear(place).mul(*self.weights.get(k)));
                    k += 1;
                }
                row.push(acc);
                x += 1;
            }
            out.push(row);
            y += 1;
        }
        ((), Tensor2 { rows, cols, data: out })
    }
}

/// A corner that was found on a map lies within the map's extents.
pub proof fn lemma_validated_holds<T: Real>(coordinate: [T; 2], rows: usize, cols: usize, k: int)
    requires
        0 <= k < 4,
    ensures
        validated(coordinate, rows, cols)[k] matches Some(place) ==> place[0] < rows && place[1]
            < cols,
{
    let found = validated(coordinate, rows, cols);
    let around = corners_spec(coordinate);
    if k == 0 {
        assert(found[0] == in_bounds(around[0], rows, cols));
    } else if k == 1 {
        assert(found[1] == in_bounds(around[1], rows, cols));
    } else if k == 2 {
        assert(found[2] == in_bounds(around[2], rows, cols));
    } else {
        assert(found[3] == in_bounds(around[3], rows, cols));
    }
}

impl<T: Real> DefConv2<T> {
    fn scatter_features(&self, input: &(Tensor2<T>, Tensor2<T>), delta: &Tensor2<T>) -> (out: Tensor2<T>)
        requires
            self.accepts(input),
            delta.wf(),
            delta.rows == self.output_shape[0],
            delta.cols == self.output_shape[1],
        ensures
            out.wf(),
            out.same_shape(&input.0),
            out@ == self.feature_gradient(input, delta),
    {
        let data = DefConvData { features: &input.0, offsets: &input.1 };
        let rows: usize = self.output_shape[0];
        let cols: usize = self.output_shape[1];
        let taps: usize = self.weights.extent();
        let factors: [T; 2] = factors_of(&input.0, self.output_shape);
        let mut out: Tensor2<T> = Tensor2::filled(input.0.rows, input.0.cols, T::zero());
        let ghost blank = zeros2::<T>(input.0.rows as int, input.0.cols as int);
        proof {
            assert forall|r: int, c: int| 0 <= r < out.rows && 0 <= c < out.cols implies out@[r][c]
                == blank[r][c] by {
                assert(out.holds(r, c));
                assert(out.at(r, c) == T::zero_spec());
            }
            lemma_grid_equal(out@, blank, out.rows as nat, out.cols as nat);
        }
        let mut y: usize = 0;
        while y < rows
            invariant
                y <= rows,
                self.accepts(input),
                delta.wf(),
                data.features == &input.0,
                data.offsets == &input.1,
                rows == self.output_shape[0] == delta.rows,
                cols == self.output_shape[1] == delta.cols,
                taps == self.weights.len(),
                factors == scale_factors(&input.0, self.output_shape),
                out.wf(),
                out.same_shape(&input.0),
                out@ == self.row_scatter(blank, input, delta, y as int),
            decreases rows - y,
        {
            let ghost row_start = out@;
            let mut x: usize = 0;
            while x < cols
                invariant
                    x <= cols,
                    y < rows,
                    self.accepts(input),
                    delta.wf(),
                    data.features == &input.0,
                    data.offsets == &input.1,
                    rows == self.output_shape[0] == delta.rows,
                    cols == self.output_shape[1] == delta.cols,
                    taps == self.weights.len(),
                    factors == scale_factors(&input.0, self.output_shape),
                    out.wf(),
                    out.same_shape(&input.0),
                    out@ == self.col_scatter(row_start, input, delta, y as int, x as int),
                decreases cols - x,
            {
                let ghost cell_start = out@;
                let amount_out: T = *delta.get(y, x);
                let mut k: usize = 0;
                while k < taps
                    invariant
                        k <= taps,
                        y < rows,
                        x < cols,
                        self.accepts(input),
                        delta.wf(),
                        data.features == &input.0,
                        data.offsets == &input.1,
                        rows == self.output_shape[0] == delta.rows,
                        cols == self.output_shape[1] == delta.cols,
                        taps == self.weights.len(),
                        factors == scale_factors(&input.0, self.output_shape),
                        amount_out == delta.at(y as int, x as int),
                        out.wf(),
                        out.same_shape(&input.0),
                        out@ == self.tap_scatter(cell_start, input, delta, y as int, x as int, k as int),
                    decreases taps - k,
                {
                    let place: [T; 2] = sample(data.offsets, factors, y, x, k);
                    let (found, rc) = data.validate_corners(place);
                    let shares: [T; 4] = shares_of(rc);
                    let weight: T = *self.weights.get(k);
                    let ghost tap_start = out@;
                    let mut n: usize = 0;
                    while n < 4
                        invariant
                            n <= 4,
                            found == validated(place, input.0.rows, input.0.cols),
                            out.wf(),
                            out.same_shape(&input.0),
                            out@ == corner_scatter(tap_start, found, shares, weight, amount_out, n as int),
                        decreases 4 - n,
                    {
                        let amount: T = shares[n].mul(weight).mul(amount_out);
                        let ghost before = out@;
                        proof {
                            lemma_validated_holds(place, input.0.rows, input.0.cols, n as int);
                        }
                        match found[n] {
                            Some(cell) => {
                                let now: T = out.get(cell[0], cell[1]).add(amount);
                                out.set(cell[0], cell[1], now);
                                proof {
                                    let after = scatter(before, found[n as int], amount);
                                    assert forall|r: int, c: int|
                                        0 <= r < out.rows && 0 <= c < out.cols implies out@[r][c]
                                        == after[r][c] by {
                                        assert(out.holds(r, c));
                                        assert(out.at(r, c) == out@[r][c]);
                                    }
                                    lemma_grid_equal(out@, after, out.rows as nat, out.cols as nat);
                                }
                            },
                            None => {},
                        }
                        n += 1;
                    }
                    k += 1;
                }
                x += 1;
            }
            y += 1;
        }
        out
    }

    fn tap_gradients(
        &self,
        input: &(Tensor2<T>, Tensor2<T>),
        delta: &Tensor2<T>,
        k: usize,
    ) -> (out: (T, T, T))
        requires
            self.accepts(input),
            delta.wf(),
            delta.rows == self.output_shape[0],
            delta.cols == self.output_shape[1],
            k < self.weights.len(),
        ensures
            out.0 == self.tap_rows(
                TapPart::Weight,
                input,
                delta,
                k as int,
                self.output_shape[0] as int,
            ),
            out.1 == self.tap_rows(
                TapPart::OffsetRow,
                input,
                delta,
                k as int,
                self.output_shape[0] as int,
            ),
            out.2 == self.tap_rows(
                TapPart::OffsetCol,
                input,
                delta,
                k as int,
                self.output_shape[0] as int,
            ),
    {
        let data = DefConvData { features: &input.0, offsets: &input.1 };
        let rows: usize = self.output_shape[0];
        let cols: usize = self.output_shape[1];
        let factors: [T; 2] = factors_of(&input.0, self.output_shape);
        let weight: T = *self.weights.get(k);
        let mut for_weight: T = T::zero();
        let mut for_row: T = T::zero();
        let mut for_col: T = T::zero();
        let mut y: usize = 0;
        while y < rows
            invariant
                y <= rows,
                self.accepts(input),
                delta.wf(),
                data.features == &input.0,
                data.offsets == &input.1,
                rows == self.output_shape[0] == delta.rows,
                cols == self.output_shape[1] == delta.cols,
                k < self.weights.len(),
                weight == self.weights.at(k as int),
                factors == scale_factors(&input.0, self.output_shape),
                for_weight == self.tap_rows(TapPart::Weight, input, delta, k as int, y as int),
                for_row == self.tap_rows(TapPart::OffsetRow, input, delta, k as int, y as int),
                for_col == self.tap_rows(TapPart::OffsetCol, input, delta, k as int, y as int),
            decreases rows - y,
        {
            let ghost weight_start = for_weight;
            let ghost row_start = for_row;
            let ghost col_start = for_col;
            let mut x: usize = 0;
            while x < cols
                invariant
                    x <= cols,
                    y < rows,
                    self.accepts(input),
                    delta.wf(),
                    data.features == &input.0,
                    data.offsets == &input.1,
                    rows == self.output_shape[0] == delta.rows,
                    cols == self.output_shape[1] == delta.cols,
                    k < self.weights.len(),
                    weight == self.weights.at(k as int),
                    factors == scale_factors(&input.0, self.output_shape),
                    for_weight == self.tap_cols(
                        weight_start,
                        TapPart::Weight,
                        input,
                        delta,
                        k as int,
                        y as int,
                        x as int,
                    ),
                    for_row == self.tap_cols(
                        row_start,
                        TapPart::OffsetRow,
                        input,
                        delta,
                        k as int,
                        y as int,
                        x as int,
                    ),
                    for_col == self.tap_cols(
                        col_start,
                        TapPart::OffsetCol,
                        input,
                        delta,
                        k as int,
                        y as int,
                        x as int,
                    ),
                decreases cols - x,
            {
                let amount_out: T = *delta.get(y, x);
                let place: [T; 2] = sample(data.offsets, factors, y, x, k);
                let (found, rc) = data.validate_corners(place);
                proof {
                    lemma_validated_holds(place, input.0.rows, input.0.cols, 0);
                    lemma_validated_holds(place, input.0.rows, input.0.cols, 1);
                    lemma_validated_holds(place, input.0.rows, input.0.cols, 2);
                    lemma_validated_holds(place, input.0.rows, input.0.cols, 3);
                }
                let f: [T; 4] = data.extract_corners(found);
                let slope: [T; 2] = bilinear_position_gradient(f, rc);
                for_row = for_row.add(factors[0].mul(slope[0]).mul(weight).mul(amount_out));
                for_col = for_col.add(factors[1].mul(slope[1]).mul(weight).mul(amount_out));
                for_weight = for_weight.add(data.bilinear(place).mul(amount_out));
                x += 1;
            }
            y += 1;
        }
        (for_weight, for_row, for_col)
    }
}

impl<T: Real> Backward for DefConv2<T> {
    type OutputDelta = Tensor2<T>;

    type InputDelta = (Tensor2<T>, Tensor2<T>);

    type TrainDelta = Ndeep<Tensor1<T>>;

    open spec fn accepts_back(
        &self,
        input: &(Tensor2<T>, Tensor2<T>),
        internal: &(),
        output_delta: &Tensor2<T>,
    ) -> bool {
        &&& self.accepts(input)
        &&& output_delta.wf()
        &&& output_delta.rows == self.output_shape[0]
        &&& output_delta.cols == self.output_shape[1]
    }

    /// Three gradients come back: that of the feature map, that of the
    /// offsets, both as the input's gradient, and that of the weights.
    open spec fn sends_back(
        &self,
        input: &(Tensor2<T>, Tensor2<T>),
        internal: &(),
        output_delta: &Tensor2<T>,
        input_delta: &(Tensor2<T>, Tensor2<T>),
        train_delta: &Ndeep<Tensor1<T>>,
    ) -> bool {
        &&& input_delta.0.wf()
        &&& input_delta.0.same_shape(&input.0)
        &&& input_delta.0@ == self.feature_gradient(input, output_delta)
        &&& input_delta.1.wf()
        &&& input_delta.1.same_shape(&input.1)
        &&& forall|k: int|
            0 <= k < self.weights.len() ==> #[trigger] input_delta.1.at(k, 0) == self.tap_rows(
                TapPart::OffsetRow,
                input,
                output_delta,
                k,
                self.output_shape[0] as int,
            )
        &&& forall|k: int|
            0 <= k < self.weights.len() ==> #[trigger] input_delta.1.at(k, 1) == self.tap_rows(
                TapPart::OffsetCol,
                input,
                output_delta,
                k,
                self.output_shape[0] as int,
            )
        &&& train_delta.0.len() == self.weights.len()
        &&& forall|k: int|
            0 <= k < self.weights.len() ==> #[trigger] train_delta.0.at(k) == self.tap_rows(
                TapPart::Weight,
                input,
                output_delta,
                k,
                self.output_shape[0] as int,
            )
    }

    fn backward(
        &self,
        input: &(Tensor2<T>, Tensor2<T>),
        internal: &(),
        output_delta: &Tensor2<T>,
    ) -> (both: ((Tensor2<T>, Tensor2<T>), Ndeep<Tensor1<T>>)) {
        let feature_deltas: Tensor2<T> = self.scatter_features(input, output_delta);
        let taps: usize = self.weights.extent();
        let mut offset_rows: Vec<Vec<T>> = Vec::new();
        let mut weight_deltas: Vec<T> = Vec::new();
        let mut k: usize = 0;
        while k < taps
            invariant
                k <= taps,
                taps == self.weights.len(),
                self.accepts_back(input, internal, output_delta),
                offset_rows@.len() == k,
                weight_deltas@.len() == k,
                forall|i: int| 0 <= i < k ==> (#[trigger] offset_rows@[i])@.len() == 2,
                forall|i: int|
                    0 <= i < k ==> (#[trigger] offset_rows@[i])@[0] == self.tap_rows(
                        TapPart::OffsetRow,
                        input,
                        output_delta,
                        i,
                        self.output_shape[0] as int,
                    ) && offset_rows@[i]@[1] == self.tap_rows(
                        TapPart::OffsetCol,
                        input,
                        output_delta,
                        i,
                        self.output_shape[0] as int,
                    ),
                forall|i: int|
                    0 <= i < k ==> #[trigger] weight_deltas@[i] == self.tap_rows(
                        TapPart::Weight,
                        input,
                        output_delta,
                        i,
                        self.output_shape[0] as int,
                    ),
            decreases taps - k,
        {
            let (for_weight, for_row, for_col) = self.tap_gradients(input, output_delta, k);
            let mut pair: Vec<T> = Vec::new();
            pair.push(for_row);
            pair.push(for_col);
            offset_rows.push(pair);
            weight_deltas.push(for_weight);
            k += 1;
        }
        let offset_deltas: Tensor2<T> = Tensor2 { rows: taps, cols: 2, data: offset_rows };
        ((feature_deltas, offset_deltas), Ndeep(Tensor1 { data: weight_deltas }))
    }
}

/// Whether multiplying by one, multiplying by zero and adding zero do to
/// the number what they do to a real number.
pub open spec fn exact_on<T: Scalar>(value: T) -> bool {
    &&& T::one_spec().mul_spec(value) == value
    &&& T::zero_spec().mul_spec(value) == T::zero_spec()
    &&& value.add_spec(T::zero_spec()) == value
}

/// Reading the map at a whole place gives what the map holds there: where
/// the coordinate is its own floor and ceiling, lies on the map, and the
/// arithmetic is exact on the cell's value, nothing is interpolated.
pub proof fn lemma_bilinear_exact<T: Real>(features: &Tensor2<T>, coordinate: [T; 2])
    requires
        features.wf(),
        coordinate[0].floor_spec() == coordinate[0].ceil_spec(),
        coordinate[1].floor_spec() == coordinate[1].ceil_spec(),
        relative(coordinate)[0] == T::zero_spec(),
        relative(coordinate)[1] == T::zero_spec(),
        0 <= coordinate[0].floor_spec() < features.rows,
        0 <= coordinate[1].floor_spec() < features.cols,
        T::one_spec().sub_spec(T::zero_spec()) == T::one_spec(),
        exact_on(features.at(coordinate[0].floor_spec() as int, coordinate[1].floor_spec() as int)),
    ensures
        bilinear_spec(features, coordinate) == features.at(
            coordinate[0].floor_spec() as int,
            coordinate[1].floor_spec() as int,
        ),
{
    let y = coordinate[0].floor_spec();
    let x = coordinate[1].floor_spec();
    let value = features.at(y as int, x as int);
    let around = corners_spec(coordinate);
    let found = validated(coordinate, features.rows, features.cols);
    let place: [usize; 2] = [y as usize, x as usize];
    assert(around[0] =~= [y, x]);
    assert(around[1] =~= [y, x]);
    assert(around[2] =~= [y, x]);
    assert(around[3] =~= [y, x]);
    assert(in_bounds([y, x], features.rows, features.cols) == Some(place));
    assert(found[0] == Some(place));
    assert(found[1] == Some(place));
    assert(found[2] == Some(place));
    assert(found[3] == Some(place));
    let f = extracted(features, found);
    assert(f[0] == value && f[1] == value && f[2] == value && f[3] == value);
    assert(lerp(value, value, T::zero_spec()) == value);
}

/// At a whole place the four corners are one cell, so the value does not
/// change with the place there: where a number minus itself is zero on
/// the cell's value, both parts of the position gradient are zero.
pub proof fn lemma_position_gradient_at_whole_place<T: Scalar>(value: T, rc: [T; 2])
    requires
        lerp(value, value, rc[0]).sub_spec(lerp(value, value, rc[0])) == T::zero_spec(),
        lerp(value, value, rc[1]).sub_spec(lerp(value, value, rc[1])) == T::zero_spec(),
    ensures
        position_gradient([value, value, value, value], rc)[0] == T::zero_spec(),
        position_gradient([value, value, value, value], rc)[1] == T::zero_spec(),
{
}

/// On a map of fixed-point numbers, reading at a whole place within the
/// map gives exactly what the map holds there.
pub proof fn lemma_fixed_bilinear_exact(features: &Tensor2<Fixed>, y: i64, x: i64)
    requires
        features.wf(),
        0 <= y < features.rows,
        0 <= x < features.cols,
        y <= whole_limit(),
        x <= whole_limit(),
    ensures
        bilinear_spec(features, [Fixed::from_whole_spec(y), Fixed::from_whole_spec(x)])
            == features.at(y as int, x as int),
{
    let coordinate: [Fixed; 2] = [Fixed::from_whole_spec(y), Fixed::from_whole_spec(x)];
    lemma_fixed_whole(y);
    lemma_fixed_whole(x);
    lemma_fixed_exact(features.at(y as int, x as int));
    assert(relative(coordinate)[0] == Fixed::zero_spec());
    assert(relative(coordinate)[1] == Fixed::zero_spec());
    lemma_bilinear_exact(features, coordinate);
}

} // verus!
