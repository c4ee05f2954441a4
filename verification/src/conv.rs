//! Valid-mode cross-correlation: a filter slides over a signal without
//! padding and without being flipped.
//!
//! The cells of a window are multiplied with the filter's and summed in
//! storage order, starting from zero.

use crate::scalar::Scalar;
use crate::tensor::{block, cuboid, extent_limit, grid, rect, Tensor2, Tensor3};
use vstd::prelude::*;

verus! {

/// `acc` plus the products of the first `n` filter cells of a row with the
/// signal cells from column `c` on.
pub open spec fn row_sum<T: Scalar>(acc: T, signal: Seq<T>, filter: Seq<T>, c: int, n: int) -> T
    decreases n,
{
    if n <= 0 {
        acc
    } else {
        row_sum(acc, signal, filter, c, n - 1).add_spec(signal[c + n - 1].mul_spec(filter[n - 1]))
    }
}

/// `acc` plus the products of the first `n` filter rows with the window of
/// the signal whose corner is `(r, c)`.
pub open spec fn rows_sum<T: Scalar>(
    acc: T,
    signal: Seq<Seq<T>>,
    filter: Seq<Seq<T>>,
    r: int,
    c: int,
    n: int,
) -> T
    decreases n,
{
    if n <= 0 {
        acc
    } else {
        row_sum(
            rows_sum(acc, signal, filter, r, c, n - 1),
            signal[r + n - 1],
            filter[n - 1],
            c,
            filter[n - 1].len() as int,
        )
    }
}

/// The filter laid on the signal with its corner at `(r, c)`: the sum of
/// the products of the cells that meet.
pub open spec fn window_sum<T: Scalar>(
    signal: Seq<Seq<T>>,
    filter: Seq<Seq<T>>,
    r: int,
    c: int,
) -> T {
    rows_sum(T::zero_spec(), signal, filter, r, c, filter.len() as int)
}

/// `acc` plus the products of the first `n` filter planes with the block
/// of the signal whose corner is `(d, r, c)`.
pub open spec fn planes_sum<T: Scalar>(
    acc: T,
    signal: Seq<Seq<Seq<T>>>,
    filter: Seq<Seq<Seq<T>>>,
    d: int,
    r: int,
    c: int,
    n: int,
) -> T
    decreases n,
{
    if n <= 0 {
        acc
    } else {
        rows_sum(
            planes_sum(acc, signal, filter, d, r, c, n - 1),
            signal[d + n - 1],
            filter[n - 1],
            r,
            c,
            filter[n - 1].len() as int,
        )
    }
}

/// The filter laid on the signal with its corner at `(d, r, c)`.
pub open spec fn block_sum<T: Scalar>(
    signal: Seq<Seq<Seq<T>>>,
    filter: Seq<Seq<Seq<T>>>,
    d: int,
    r: int,
    c: int,
) -> T {
    planes_sum(T::zero_spec(), signal, filter, d, r, c, filter.len() as int)
}

/// Whether a filter of extent `k` can slide along an axis of extent `n`.
pub open spec fn slides(k: usize, n: usize) -> bool {
    1 <= k <= n
}

/// `delta`, of the given extents, with `pr` rows of zeros above and below
/// and `pc` columns of zeros on either side.
pub open spec fn padded2<T: Scalar>(
    delta: Seq<Seq<T>>,
    rows: int,
    cols: int,
    pr: int,
    pc: int,
) -> Seq<Seq<T>> {
    Seq::new(
        (rows + 2 * pr) as nat,
        |r: int|
            Seq::new(
                (cols + 2 * pc) as nat,
                |c: int|
                    if pr <= r < pr + rows && pc <= c < pc + cols {
                        delta[r - pr][c - pc]
                    } else {
                        T::zero_spec()
                    },
            ),
    )
}

/// A grid of the given extents that holds zeros.
pub open spec fn zeros2<T: Scalar>(rows: int, cols: int) -> Seq<Seq<T>> {
    Seq::new(rows as nat, |r: int| Seq::new(cols as nat, |c: int| T::zero_spec()))
}

/// `delta`, of the given extents, with zeros around it: `pd` planes,
/// `pr` rows and `pc` columns on either side.
pub open spec fn padded3<T: Scalar>(
    delta: Seq<Seq<Seq<T>>>,
    depth: int,
    rows: int,
    cols: int,
    pd: int,
    pr: int,
    pc: int,
) -> Seq<Seq<Seq<T>>> {
    Seq::new(
        (depth + 2 * pd) as nat,
        |d: int|
            if pd <= d < pd + depth {
                padded2(delta[d - pd], rows, cols, pr, pc)
            } else {
                zeros2(rows + 2 * pr, cols + 2 * pc)
            },
    )
}

/// The filter turned round along both of its axes.
pub open spec fn flipped2<T>(filter: Seq<Seq<T>>) -> Seq<Seq<T>> {
    Seq::new(
        filter.len(),
        |i: int|
            Seq::new(
                filter[i].len(),
                |j: int| filter[filter.len() - 1 - i][filter[i].len() - 1 - j],
            ),
    )
}

/// Every plane of the filter turned round along its rows and columns; the
/// planes stay in their order.
pub open spec fn flipped_planes<T>(filter: Seq<Seq<Seq<T>>>) -> Seq<Seq<Seq<T>>> {
    Seq::new(filter.len(), |d: int| flipped2(filter[d]))
}

/// The filter turned round along all three of its axes.
pub open spec fn flipped3<T>(filter: Seq<Seq<Seq<T>>>) -> Seq<Seq<Seq<T>>> {
    Seq::new(filter.len(), |d: int| flipped2(filter[filter.len() - 1 - d]))
}

fn window_rows<T: Scalar>(
    start: T,
    signal: &Vec<Vec<T>>,
    filter: &Vec<Vec<T>>,
    r: usize,
    c: usize,
    kr: usize,
    kc: usize,
) -> (sum: T)
    requires
        rect(filter, kr as nat, kc as nat),
        r + kr <= signal@.len(),
        forall|i: int| r <= i < r + kr ==> c + kc <= (#[trigger] signal@[i])@.len(),
    ensures
        sum == rows_sum(start, grid(signal), grid(filter), r as int, c as int, kr as int),
{
    let rows: usize = signal.len();
    let mut acc: T = start;
    let mut i: usize = 0;
    while i < kr
        invariant
            i <= kr,
            rect(filter, kr as nat, kc as nat),
            r + kr <= rows == signal@.len(),
            forall|i: int| r <= i < r + kr ==> c + kc <= (#[trigger] signal@[i])@.len(),
            acc == rows_sum(start, grid(signal), grid(filter), r as int, c as int, i as int),
        decreases kr - i,
    {
        let ghost before = acc;
        let signal_row: &Vec<T> = &signal[r + i];
        let filter_row: &Vec<T> = &filter[i];
        let width: usize = signal_row.len();
        let mut j: usize = 0;
        while j < kc
            invariant
                j <= kc,
                filter_row@.len() == kc,
                c + kc <= width == signal_row@.len(),
                acc == row_sum(before, signal_row@, filter_row@, c as int, j as int),
            decreases kc - j,
        {
            acc = acc.add(signal_row[c + j].mul(filter_row[j]));
            j += 1;
        }
        i += 1;
    }
    acc
}

fn window_planes<T: Scalar>(
    signal: &Vec<Vec<Vec<T>>>,
    filter: &Vec<Vec<Vec<T>>>,
    d: usize,
    r: usize,
    c: usize,
    kd: usize,
    kr: usize,
    kc: usize,
) -> (sum: T)
    requires
        cuboid(filter, kd as nat, kr as nat, kc as nat),
        d + kd <= signal@.len(),
        forall|p: int| d <= p < d + kd ==> r + kr <= (#[trigger] signal@[p])@.len(),
        forall|p: int, i: int|
            d <= p < d + kd && r <= i < r + kr ==> c + kc <= (#[trigger] signal@[p]@[i])@.len(),
    ensures
        sum == block_sum(block(signal), block(filter), d as int, r as int, c as int),
{
    let planes: usize = signal.len();
    let mut acc: T = T::zero();
    let mut p: usize = 0;
    while p < kd
        invariant
            p <= kd,
            cuboid(filter, kd as nat, kr as nat, kc as nat),
            d + kd <= planes == signal@.len(),
            forall|p: int| d <= p < d + kd ==> r + kr <= (#[trigger] signal@[p])@.len(),
            forall|p: int, i: int|
                d <= p < d + kd && r <= i < r + kr ==> c + kc <= (#[trigger] signal@[p]@[i])@.len(),
            acc == planes_sum(
                T::zero_spec(),
                block(signal),
                block(filter),
                d as int,
                r as int,
                c as int,
                p as int,
            ),
        decreases kd - p,
    {
        acc = window_rows(acc, &signal[d + p], &filter[p], r, c, kr, kc);
        p += 1;
    }
    acc
}

fn correlate2<T: Scalar>(
    signal: &Vec<Vec<T>>,
    sr: usize,
    sc: usize,
    filter: &Vec<Vec<T>>,
    kr: usize,
    kc: usize,
) -> (out: Vec<Vec<T>>)
    requires
        rect(signal, sr as nat, sc as nat),
        rect(filter, kr as nat, kc as nat),
        slides(kr, sr),
        slides(kc, sc),
    ensures
        rect(&out, (sr - kr + 1) as nat, (sc - kc + 1) as nat),
        forall|r: int, c: int|
            0 <= r <= sr - kr && 0 <= c <= sc - kc ==> #[trigger] out@[r]@[c] == window_sum(
                grid(signal),
                grid(filter),
                r,
                c,
            ),
{
    let rows: usize = sr - (kr - 1);
    let cols: usize = sc - (kc - 1);
    let mut out: Vec<Vec<T>> = Vec::new();
    let mut r: usize = 0;
    while r < rows
        invariant
            r <= rows,
            rows == sr - kr + 1,
            cols == sc - kc + 1,
            rect(signal, sr as nat, sc as nat),
            rect(filter, kr as nat, kc as nat),
            slides(kr, sr),
            slides(kc, sc),
            out@.len() == r,
            forall|i: int| 0 <= i < r ==> (#[trigger] out@[i])@.len() == cols,
            forall|i: int, j: int|
                0 <= i < r && 0 <= j < cols ==> #[trigger] out@[i]@[j] == window_sum(
                    grid(signal),
                    grid(filter),
                    i,
                    j,
                ),
        decreases rows - r,
    {
        let mut row: Vec<T> = Vec::new();
        let mut c: usize = 0;
        while c < cols
            invariant
                c <= cols,
                r < rows,
                rows == sr - kr + 1,
                cols == sc - kc + 1,
                rect(signal, sr as nat, sc as nat),
                rect(filter, kr as nat, kc as nat),
                slides(kr, sr),
                slides(kc, sc),
                row@.len() == c,
                forall|j: int|
                    0 <= j < c ==> #[trigger] row@[j] == window_sum(
                        grid(signal),
                        grid(filter),
                        r as int,
                        j,
                    ),
            decreases cols - c,
        {
            let sum: T = window_rows(T::zero(), signal, filter, r, c, kr, kc);
            row.push(sum);
            c += 1;
        }
        out.push(row);
        r += 1;
    }
    out
}

/// Slides `filter` over `signal`. The result has one cell for every place
/// where the filter fits.
pub fn convolve2<T: Scalar>(signal: &Tensor2<T>, filter: &Tensor2<T>) -> (out: Tensor2<T>)
    requires
        signal.wf(),
        filter.wf(),
        slides(filter.rows, signal.rows),
        slides(filter.cols, signal.cols),
    ensures
        out.wf(),
        out.rows == signal.rows - filter.rows + 1,
        out.cols == signal.cols - filter.cols + 1,
        forall|r: int, c: int|
            out.holds(r, c) ==> #[trigger] out.at(r, c) == window_sum(signal@, filter@, r, c),
{
    let data: Vec<Vec<T>> = correlate2(
        &signal.data,
        signal.rows,
        signal.cols,
        &filter.data,
        filter.rows,
        filter.cols,
    );
    Tensor2 { rows: signal.rows - (filter.rows - 1), cols: signal.cols - (filter.cols - 1), data }
}

/// Slides a filter of three axes over a signal of three axes.
pub fn convolve3<T: Scalar>(signal: &Tensor3<T>, filter: &Tensor3<T>) -> (out: Tensor3<T>)
    requires
        signal.wf(),
        filter.wf(),
        slides(filter.depth, signal.depth),
        slides(filter.rows, signal.rows),
        slides(filter.cols, signal.cols),
    ensures
        out.wf(),
        out.depth == signal.depth - filter.depth + 1,
        out.rows == signal.rows - filter.rows + 1,
        out.cols == signal.cols - filter.cols + 1,
        forall|d: int, r: int, c: int|
            out.holds(d, r, c) ==> #[trigger] out.at(d, r, c) == block_sum(
                signal@,
                filter@,
                d,
                r,
                c,
            ),
{
    let data: Vec<Vec<Vec<T>>> = correlate3(
        &signal.data,
        signal.depth,
        signal.rows,
        signal.cols,
        &filter.data,
        filter.depth,
        filter.rows,
        filter.cols,
    );
    Tensor3 {
        depth: signal.depth - (filter.depth - 1),
        rows: signal.rows - (filter.rows - 1),
        cols: signal.cols - (filter.cols - 1),
        data,
    }
}

fn correlate3<T: Scalar>(
    signal: &Vec<Vec<Vec<T>>>,
    sd: usize,
    sr: usize,
    sc: usize,
    filter: &Vec<Vec<Vec<T>>>,
    kd: usize,
    kr: usize,
    kc: usize,
) -> (out: Vec<Vec<Vec<T>>>)
    requires
        cuboid(signal, sd as nat, sr as nat, sc as nat),
        cuboid(filter, kd as nat, kr as nat, kc as nat),
        slides(kd, sd),
        slides(kr, sr),
        slides(kc, sc),
    ensures
        cuboid(&out, (sd - kd + 1) as nat, (sr - kr + 1) as nat, (sc - kc + 1) as nat),
        forall|d: int, r: int, c: int|
            0 <= d <= sd - kd && 0 <= r <= sr - kr && 0 <= c <= sc - kc
                ==> #[trigger] out@[d]@[r]@[c] == block_sum(block(signal), block(filter), d, r, c),
{
    let depth: usize = sd - (kd - 1);
    let rows: usize = sr - (kr - 1);
    let cols: usize = sc - (kc - 1);
    let mut out: Vec<Vec<Vec<T>>> = Vec::new();
    let mut d: usize = 0;
    while d < depth
        invariant
            d <= depth,
            depth == sd - kd + 1,
            rows == sr - kr + 1,
            cols == sc - kc + 1,
            cuboid(signal, sd as nat, sr as nat, sc as nat),
            cuboid(filter, kd as nat, kr as nat, kc as nat),
            slides(kd, sd),
            slides(kr, sr),
            slides(kc, sc),
            out@.len() == d,
            forall|p: int| 0 <= p < d ==> (#[trigger] out@[p])@.len() == rows,
            forall|p: int, i: int|
                0 <= p < d && 0 <= i < rows ==> (#[trigger] out@[p]@[i])@.len() == cols,
            forall|p: int, i: int, j: int|
                0 <= p < d && 0 <= i < rows && 0 <= j < cols ==> #[trigger] out@[p]@[i]@[j]
                    == block_sum(block(signal), block(filter), p, i, j),
        decreases depth - d,
    {
        let mut plane: Vec<Vec<T>> = Vec::new();
        let mut r: usize = 0;
        while r < rows
            invariant
                r <= rows,
                d < depth,
                depth == sd - kd + 1,
                rows == sr - kr + 1,
                cols == sc - kc + 1,
                cuboid(signal, sd as nat, sr as nat, sc as nat),
                cuboid(filter, kd as nat, kr as nat, kc as nat),
                slides(kd, sd),
                slides(kr, sr),
                slides(kc, sc),
                plane@.len() == r,
                forall|i: int| 0 <= i < r ==> (#[trigger] plane@[i])@.len() == cols,
                forall|i: int, j: int|
                    0 <= i < r && 0 <= j < cols ==> #[trigger] plane@[i]@[j] == block_sum(
                        block(signal),
                        block(filter),
                        d as int,
                        i,
                        j,
                    ),
            decreases rows - r,
        {
            let mut row: Vec<T> = Vec::new();
            let mut c: usize = 0;
            while c < cols
                invariant
                    c <= cols,
                    r < rows,
                    d < depth,
                    depth == sd - kd + 1,
                    rows == sr - kr + 1,
                    cols == sc - kc + 1,
                    cuboid(signal, sd as nat, sr as nat, sc as nat),
                    cuboid(filter, kd as nat, kr as nat, kc as nat),
                    slides(kd, sd),
                    slides(kr, sr),
                    slides(kc, sc),
                    row@.len() == c,
                    forall|j: int|
                        0 <= j < c ==> #[trigger] row@[j] == block_sum(
                            block(signal),
                            block(filter),
                            d as int,
                            r as int,
                            j,
                        ),
                decreases cols - c,
            {
                let sum: T = window_planes(signal, filter, d, r, c, kd, kr, kc);
                row.push(sum);
                c += 1;
            }
            plane.push(row);
            r += 1;
        }
        out.push(plane);
        d += 1;
    }
    out
}

/// Slides each of the stacked filters over the signal. The result stacks
/// one feature map per filter, in the filters' order.
pub fn convolve2n<T: Scalar>(signal: &Tensor2<T>, filters: &Tensor3<T>) -> (out: Tensor3<T>)
    requires
        signal.wf(),
        filters.wf(),
        slides(filters.rows, signal.rows),
        slides(filters.cols, signal.cols),
    ensures
        out.wf(),
        out.depth == filters.depth,
        out.rows == signal.rows - filters.rows + 1,
        out.cols == signal.cols - filters.cols + 1,
        forall|f: int, r: int, c: int|
            out.holds(f, r, c) ==> #[trigger] out.at(f, r, c) == window_sum(
                signal@,
                filters@[f],
                r,
                c,
            ),
{
    let rows: usize = signal.rows - (filters.rows - 1);
    let cols: usize = signal.cols - (filters.cols - 1);
    let mut data: Vec<Vec<Vec<T>>> = Vec::new();
    let mut f: usize = 0;
    while f < filters.depth
        invariant
            f <= filters.depth,
            rows == signal.rows - filters.rows + 1,
            cols == signal.cols - filters.cols + 1,
            signal.wf(),
            filters.wf(),
            slides(filters.rows, signal.rows),
            slides(filters.cols, signal.cols),
            data@.len() == f,
            forall|p: int| 0 <= p < f ==> (#[trigger] data@[p])@.len() == rows,
            forall|p: int, i: int|
                0 <= p < f && 0 <= i < rows ==> (#[trigger] data@[p]@[i])@.len() == cols,
            forall|p: int, i: int, j: int|
                0 <= p < f && 0 <= i < rows && 0 <= j < cols ==> #[trigger] data@[p]@[i]@[j]
                    == window_sum(signal@, filters@[p], i, j),
        decreases filters.depth - f,
    {
        let plane: Vec<Vec<T>> = correlate2(
            &signal.data,
            signal.rows,
            signal.cols,
            &filters.data[f],
            filters.rows,
            filters.cols,
        );
        data.push(plane);
        f += 1;
    }
    Tensor3 { depth: filters.depth, rows, cols, data }
}

fn zero_pad2<T: Scalar>(delta: &Vec<Vec<T>>, rows: usize, cols: usize, pr: usize, pc: usize) -> (out:
    Vec<Vec<T>>)
    requires
        rect(delta, rows as nat, cols as nat),
        rows + 2 * pr <= usize::MAX,
        cols + 2 * pc <= usize::MAX,
    ensures
        rect(&out, (rows + 2 * pr) as nat, (cols + 2 * pc) as nat),
        grid(&out) == padded2(grid(delta), rows as int, cols as int, pr as int, pc as int),
{
    let out_rows: usize = rows + 2 * pr;
    let out_cols: usize = cols + 2 * pc;
    let mut out: Vec<Vec<T>> = Vec::new();
    let mut r: usize = 0;
    while r < out_rows
        invariant
            r <= out_rows,
            out_rows == rows + 2 * pr,
            out_cols == cols + 2 * pc,
            rect(delta, rows as nat, cols as nat),
            out@.len() == r,
            forall|i: int|
                0 <= i < r ==> (#[trigger] out@[i])@ == padded2(
                    grid(delta),
                    rows as int,
                    cols as int,
                    pr as int,
                    pc as int,
                )[i],
        decreases out_rows - r,
    {
        let mut row: Vec<T> = Vec::new();
        let mut c: usize = 0;
        while c < out_cols
            invariant
                c <= out_cols,
                r < out_rows,
                out_rows == rows + 2 * pr,
                out_cols == cols + 2 * pc,
                rect(delta, rows as nat, cols as nat),
                row@.len() == c,
                forall|j: int|
                    0 <= j < c ==> #[trigger] row@[j] == padded2(
                        grid(delta),
                        rows as int,
                        cols as int,
                        pr as int,
                        pc as int,
                    )[r as int][j],
            decreases out_cols - c,
        {
            let inside: bool = pr <= r && r - pr < rows && pc <= c && c - pc < cols;
            let value: T = if inside {
                delta[r - pr][c - pc]
            } else {
                T::zero()
            };
            row.push(value);
            c += 1;
        }
        assert(row@ =~= padded2(grid(delta), rows as int, cols as int, pr as int, pc as int)[r as int]);
        out.push(row);
        r += 1;
    }
    assert(grid(&out) =~= padded2(grid(delta), rows as int, cols as int, pr as int, pc as int));
    out
}

fn flip2<T: Scalar>(filter: &Vec<Vec<T>>, kr: usize, kc: usize) -> (out: Vec<Vec<T>>)
    requires
        rect(filter, kr as nat, kc as nat),
    ensures
        rect(&out, kr as nat, kc as nat),
        grid(&out) == flipped2(grid(filter)),
{
    let mut out: Vec<Vec<T>> = Vec::new();
    let mut i: usize = 0;
    while i < kr
        invariant
            i <= kr,
            rect(filter, kr as nat, kc as nat),
            out@.len() == i,
            forall|p: int| 0 <= p < i ==> (#[trigger] out@[p])@ == flipped2(grid(filter))[p],
        decreases kr - i,
    {
        let source: &Vec<T> = &filter[kr - 1 - i];
        let mut row: Vec<T> = Vec::new();
        let mut j: usize = 0;
        while j < kc
            invariant
                j <= kc,
                i < kr,
                rect(filter, kr as nat, kc as nat),
                source@ == filter@[kr - 1 - i]@,
                row@.len() == j,
                forall|q: int| 0 <= q < j ==> #[trigger] row@[q] == source@[kc - 1 - q],
            decreases kc - j,
        {
            row.push(source[kc - 1 - j]);
            j += 1;
        }
        assert(row@ =~= flipped2(grid(filter))[i as int]);
        out.push(row);
        i += 1;
    }
    assert(grid(&out) =~= flipped2(grid(filter)));
    out
}

/// The gradient that a sliding filter sends back to its signal: `delta`
/// is surrounded with zeros, one less than the filter's extent on every
/// side, and the filter, turned round, slides over it.
pub fn back_convolve2<T: Scalar>(delta: &Tensor2<T>, filter: &Tensor2<T>) -> (out: Tensor2<T>)
    requires
        delta.wf(),
        filter.wf(),
        1 <= delta.rows,
        1 <= delta.cols,
        1 <= filter.rows,
        1 <= filter.cols,
        delta.rows + filter.rows - 1 <= extent_limit(),
        delta.cols + filter.cols - 1 <= extent_limit(),
    ensures
        out.wf(),
        out.rows == delta.rows + filter.rows - 1,
        out.cols == delta.cols + filter.cols - 1,
        forall|r: int, c: int|
            out.holds(r, c) ==> #[trigger] out.at(r, c) == window_sum(
                padded2(
                    delta@,
                    delta.rows as int,
                    delta.cols as int,
                    filter.rows - 1,
                    filter.cols - 1,
                ),
                flipped2(filter@),
                r,
                c,
            ),
{
    let pr: usize = filter.rows - 1;
    let pc: usize = filter.cols - 1;
    let pad: Vec<Vec<T>> = zero_pad2(&delta.data, delta.rows, delta.cols, pr, pc);
    let turned: Vec<Vec<T>> = flip2(&filter.data, filter.rows, filter.cols);
    let data: Vec<Vec<T>> = correlate2(
        &pad,
        delta.rows + 2 * pr,
        delta.cols + 2 * pc,
        &turned,
        filter.rows,
        filter.cols,
    );
    Tensor2 { rows: delta.rows + pr, cols: delta.cols + pc, data }
}

fn zero_grid<T: Scalar>(rows: usize, cols: usize) -> (out: Vec<Vec<T>>)
    ensures
        rect(&out, rows as nat, cols as nat),
        grid(&out) == zeros2::<T>(rows as int, cols as int),
{
    let mut out: Vec<Vec<T>> = Vec::new();
    let mut r: usize = 0;
    while r < rows
        invariant
            r <= rows,
            out@.len() == r,
            forall|i: int|
                0 <= i < r ==> (#[trigger] out@[i])@ == zeros2::<T>(rows as int, cols as int)[i],
        decreases rows - r,
    {
        let mut row: Vec<T> = Vec::new();
        let mut c: usize = 0;
        while c < cols
            invariant
                c <= cols,
                row@.len() == c,
                forall|j: int| 0 <= j < c ==> #[trigger] row@[j] == T::zero_spec(),
            decreases cols - c,
        {
            row.push(T::zero());
            c += 1;
        }
        assert(row@ =~= zeros2::<T>(rows as int, cols as int)[r as int]);
        out.push(row);
        r += 1;
    }
    assert(grid(&out) =~= zeros2::<T>(rows as int, cols as int));
    out
}

fn zero_pad3<T: Scalar>(
    delta: &Vec<Vec<Vec<T>>>,
    depth: usize,
    rows: usize,
    cols: usize,
    pd: usize,
    pr: usize,
    pc: usize,
) -> (out: Vec<Vec<Vec<T>>>)
    requires
        cuboid(delta, depth as nat, rows as nat, cols as nat),
        depth + 2 * pd <= usize::MAX,
        rows + 2 * pr <= usize::MAX,
        cols + 2 * pc <= usize::MAX,
    ensures
        cuboid(&out, (depth + 2 * pd) as nat, (rows + 2 * pr) as nat, (cols + 2 * pc) as nat),
        block(&out) == padded3(
            block(delta),
            depth as int,
            rows as int,
            cols as int,
            pd as int,
            pr as int,
            pc as int,
        ),
{
    let out_depth: usize = depth + 2 * pd;
    let ghost want = padded3(
        block(delta),
        depth as int,
        rows as int,
        cols as int,
        pd as int,
        pr as int,
        pc as int,
    );
    let mut out: Vec<Vec<Vec<T>>> = Vec::new();
    let mut d: usize = 0;
    while d < out_depth
        invariant
            d <= out_depth,
            out_depth == depth + 2 * pd,
            rows + 2 * pr <= usize::MAX,
            cols + 2 * pc <= usize::MAX,
            cuboid(delta, depth as nat, rows as nat, cols as nat),
            want == padded3(
                block(delta),
                depth as int,
                rows as int,
                cols as int,
                pd as int,
                pr as int,
                pc as int,
            ),
            out@.len() == d,
            forall|p: int|
                0 <= p < d ==> rect(
                    #[trigger] &out@[p],
                    (rows + 2 * pr) as nat,
                    (cols + 2 * pc) as nat,
                ),
            forall|p: int| 0 <= p < d ==> grid(#[trigger] &out@[p]) == want[p],
        decreases out_depth - d,
    {
        let inside: bool = pd <= d && d - pd < depth;
        let plane: Vec<Vec<T>> = if inside {
            proof {
                assert(block(delta)[d - pd] == grid(&delta@[d - pd]));
            }
            zero_pad2(&delta[d - pd], rows, cols, pr, pc)
        } else {
            zero_grid(rows + 2 * pr, cols + 2 * pc)
        };
        out.push(plane);
        d += 1;
    }
    assert(block(&out) =~= want);
    out
}

fn flip3<T: Scalar>(filter: &Vec<Vec<Vec<T>>>, kd: usize, kr: usize, kc: usize, turn_planes: bool) -> (out:
    Vec<Vec<Vec<T>>>)
    requires
        cuboid(filter, kd as nat, kr as nat, kc as nat),
    ensures
        cuboid(&out, kd as nat, kr as nat, kc as nat),
        block(&out) == (if turn_planes {
            flipped3(block(filter))
        } else {
            flipped_planes(block(filter))
        }),
{
    let ghost want = if turn_planes {
        flipped3(block(filter))
    } else {
        flipped_planes(block(filter))
    };
    let mut out: Vec<Vec<Vec<T>>> = Vec::new();
    let mut d: usize = 0;
    while d < kd
        invariant
            d <= kd,
            cuboid(filter, kd as nat, kr as nat, kc as nat),
            want == (if turn_planes {
                flipped3(block(filter))
            } else {
                flipped_planes(block(filter))
            }),
            out@.len() == d,
            forall|p: int| 0 <= p < d ==> rect(#[trigger] &out@[p], kr as nat, kc as nat),
            forall|p: int| 0 <= p < d ==> grid(#[trigger] &out@[p]) == want[p],
        decreases kd - d,
    {
        let from: usize = if turn_planes {
            kd - 1 - d
        } else {
            d
        };
        proof {
            assert(block(filter)[from as int] == grid(&filter@[from as int]));
        }
        let plane: Vec<Vec<T>> = flip2(&filter[from], kr, kc);
        out.push(plane);
        d += 1;
    }
    assert(block(&out) =~= want);
    out
}

/// The gradient that a sliding filter of three axes sends back to its
/// signal.
pub fn back_convolve3<T: Scalar>(delta: &Tensor3<T>, filter: &Tensor3<T>) -> (out: Tensor3<T>)
    requires
        delta.wf(),
        filter.wf(),
        1 <= delta.depth,
        1 <= delta.rows,
        1 <= delta.cols,
        1 <= filter.depth,
        1 <= filter.rows,
        1 <= filter.cols,
        delta.depth + filter.depth - 1 <= extent_limit(),
        delta.rows + filter.rows - 1 <= extent_limit(),
        delta.cols + filter.cols - 1 <= extent_limit(),
    ensures
        out.wf(),
        out.depth == delta.depth + filter.depth - 1,
        out.rows == delta.rows + filter.rows - 1,
        out.cols == delta.cols + filter.cols - 1,
        forall|d: int, r: int, c: int|
            out.holds(d, r, c) ==> #[trigger] out.at(d, r, c) == block_sum(
                padded3(
                    delta@,
                    delta.depth as int,
                    delta.rows as int,
                    delta.cols as int,
                    filter.depth - 1,
                    filter.rows - 1,
                    filter.cols - 1,
                ),
                flipped3(filter@),
                d,
                r,
                c,
            ),
{
    let pd: usize = filter.depth - 1;
    let pr: usize = filter.rows - 1;
    let pc: usize = filter.cols - 1;
    let pad: Vec<Vec<Vec<T>>> = zero_pad3(
        &delta.data,
        delta.depth,
        delta.rows,
        delta.cols,
        pd,
        pr,
        pc,
    );
    let turned: Vec<Vec<Vec<T>>> = flip3(
        &filter.data,
        filter.depth,
        filter.rows,
        filter.cols,
        true,
    );
    let data: Vec<Vec<Vec<T>>> = correlate3(
        &pad,
        delta.depth + 2 * pd,
        delta.rows + 2 * pr,
        delta.cols + 2 * pc,
        &turned,
        filter.depth,
        filter.rows,
        filter.cols,
    );
    Tensor3 { depth: delta.depth + pd, rows: delta.rows + pr, cols: delta.cols + pc, data }
}

/// The gradient that a stack of sliding filters sends back to the one
/// signal they share: what each filter sends back, summed over the stack.
pub fn back_convolve2n<T: Scalar>(delta: &Tensor3<T>, filters: &Tensor3<T>) -> (out: Tensor2<T>)
    requires
        delta.wf(),
        filters.wf(),
        delta.depth == filters.depth,
        1 <= delta.depth,
        1 <= delta.rows,
        1 <= delta.cols,
        1 <= filters.rows,
        1 <= filters.cols,
        delta.rows + filters.rows - 1 <= extent_limit(),
        delta.cols + filters.cols - 1 <= extent_limit(),
    ensures
        out.wf(),
        out.rows == delta.rows + filters.rows - 1,
        out.cols == delta.cols + filters.cols - 1,
        forall|r: int, c: int|
            out.holds(r, c) ==> #[trigger] out.at(r, c) == block_sum(
                padded3(
                    delta@,
                    delta.depth as int,
                    delta.rows as int,
                    delta.cols as int,
                    0,
                    filters.rows - 1,
                    filters.cols - 1,
                ),
                flipped_planes(filters@),
                0,
                r,
                c,
            ),
{
    let pr: usize = filters.rows - 1;
    let pc: usize = filters.cols - 1;
    let pad: Vec<Vec<Vec<T>>> = zero_pad3(
        &delta.data,
        delta.depth,
        delta.rows,
        delta.cols,
        0,
        pr,
        pc,
    );
    let turned: Vec<Vec<Vec<T>>> = flip3(
        &filters.data,
        filters.depth,
        filters.rows,
        filters.cols,
        false,
    );
    let mut stack: Vec<Vec<Vec<T>>> = correlate3(
        &pad,
        delta.depth,
        delta.rows + 2 * pr,
        delta.cols + 2 * pc,
        &turned,
        filters.depth,
        filters.rows,
        filters.cols,
    );
    let data: Vec<Vec<T>> = stack.remove(0);
    Tensor2 { rows: delta.rows + pr, cols: delta.cols + pc, data }
}

} // verus!
