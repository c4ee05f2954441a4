//! Arithmetic that treats a tensor cell by cell.

use crate::scalar::Scalar;
use crate::tensor::{Array, Tensor1, Tensor2, Tensor3};
use vstd::prelude::*;

verus! {

/// Which operation is applied to each pair of cells.
#[derive(Clone, Copy, Debug, PartialEq, Eq, Structural)]
pub enum CellOp {
    Sum,
    Product,
}

/// What the operation makes of two numbers.
pub open spec fn combined<T: Scalar>(op: CellOp, left: T, right: T) -> T {
    match op {
        CellOp::Sum => left.add_spec(right),
        CellOp::Product => left.mul_spec(right),
    }
}

/// Applies the operation to two numbers.
pub fn combine<T: Scalar>(op: CellOp, left: T, right: T) -> (out: T)
    ensures
        out == combined(op, left, right),
{
    match op {
        CellOp::Sum => left.add(right),
        CellOp::Product => left.mul(right),
    }
}

impl<T: Scalar> Tensor1<T> {
    /// Whether every cell of `self` is the operation applied to the cells
    /// of `left` and `right` at the same place.
    pub open spec fn zipped_from(&self, op: CellOp, left: &Tensor1<T>, right: &Tensor1<T>) -> bool {
        &&& self.len() == left.len()
        &&& forall|i: int|
            left.holds(i) ==> #[trigger] self.at(i) == combined(op, left.at(i), right.at(i))
    }

    /// Whether every cell of `self` is the operation applied to the cell
    /// of `of` at the same place and to `by`.
    pub open spec fn mapped_from(&self, op: CellOp, of: &Tensor1<T>, by: T) -> bool {
        &&& self.len() == of.len()
        &&& forall|i: int| of.holds(i) ==> #[trigger] self.at(i) == combined(op, of.at(i), by)
    }

    /// Replaces every cell by the operation applied to it and to the cell
    /// of `rhs` at the same place.
    pub fn zip_with(&mut self, op: CellOp, rhs: &Tensor1<T>)
        requires
            old(self).len() == rhs.len(),
        ensures
            final(self).zipped_from(op, old(self), rhs),
    {
        let n: usize = self.data.len();
        let mut i: usize = 0;
        while i < n
            invariant
                i <= n,
                n == rhs.len(),
                self.len() == n,
                old(self).len() == n,
                forall|k: int| 0 <= k < i ==> #[trigger] self.at(k) == combined(op, old(self).at(k), rhs.at(k)),
                forall|k: int| i <= k < n ==> #[trigger] self.at(k) == old(self).at(k),
            decreases n - i,
        {
            let value: T = combine(op, *self.get(i), *rhs.get(i));
            self.set(i, value);
            i += 1;
        }
    }

    /// Replaces every cell by the operation applied to it and to `by`.
    pub fn map_with(&mut self, op: CellOp, by: T)
        ensures
            final(self).mapped_from(op, old(self), by),
    {
        let n: usize = self.data.len();
        let mut i: usize = 0;
        while i < n
            invariant
                i <= n,
                self.len() == n,
                old(self).len() == n,
                forall|k: int| 0 <= k < i ==> #[trigger] self.at(k) == combined(op, old(self).at(k), by),
                forall|k: int| i <= k < n ==> #[trigger] self.at(k) == old(self).at(k),
            decreases n - i,
        {
            let value: T = combine(op, *self.get(i), by);
            self.set(i, value);
            i += 1;
        }
    }
}

impl<T: Scalar> Tensor2<T> {
    /// Whether every cell of `self` is the operation applied to the cells
    /// of `left` and `right` at the same place.
    pub open spec fn zipped_from(&self, op: CellOp, left: &Tensor2<T>, right: &Tensor2<T>) -> bool {
        &&& self.wf()
        &&& self.same_shape(left)
        &&& forall|r: int, c: int|
            left.holds(r, c) ==> #[trigger] self.at(r, c) == combined(
                op,
                left.at(r, c),
                right.at(r, c),
            )
    }

    /// Whether every cell of `self` is the operation applied to the cell
    /// of `of` at the same place and to `by`.
    pub open spec fn mapped_from(&self, op: CellOp, of: &Tensor2<T>, by: T) -> bool {
        &&& self.wf()
        &&& self.same_shape(of)
        &&& forall|r: int, c: int|
            of.holds(r, c) ==> #[trigger] self.at(r, c) == combined(op, of.at(r, c), by)
    }

    /// Replaces every cell by the operation applied to it and to the cell
    /// of `rhs` at the same place.
    pub fn zip_with(&mut self, op: CellOp, rhs: &Tensor2<T>)
        requires
            old(self).wf(),
            rhs.wf(),
            old(self).same_shape(rhs),
        ensures
            final(self).zipped_from(op, old(self), rhs),
    {
        let rows: usize = self.rows;
        let cols: usize = self.cols;
        let mut r: usize = 0;
        while r < rows
            invariant
                r <= rows,
                self.wf(),
                rhs.wf(),
                self.same_shape(rhs),
                self.same_shape(old(self)),
                rows == self.rows,
                cols == self.cols,
                forall|i: int, j: int|
                    0 <= i < r && 0 <= j < cols ==> #[trigger] self.at(i, j) == combined(
                        op,
                        old(self).at(i, j),
                        rhs.at(i, j),
                    ),
                forall|i: int, j: int|
                    r <= i < rows && 0 <= j < cols ==> #[trigger] self.at(i, j) == old(self).at(i, j),
            decreases rows - r,
        {
            let mut c: usize = 0;
            while c < cols
                invariant
                    c <= cols,
                    r < rows,
                    self.wf(),
                    rhs.wf(),
                    self.same_shape(rhs),
                    self.same_shape(old(self)),
                    rows == self.rows,
                    cols == self.cols,
                    forall|i: int, j: int|
                        (0 <= i < r && 0 <= j < cols) || (i == r && 0 <= j < c) ==> #[trigger] self.at(
                            i,
                            j,
                        ) == combined(op, old(self).at(i, j), rhs.at(i, j)),
                    forall|i: int, j: int|
                        (r < i < rows && 0 <= j < cols) || (i == r && c <= j < cols)
                            ==> #[trigger] self.at(i, j) == old(self).at(i, j),
                decreases cols - c,
            {
                let value: T = combine(op, *self.get(r, c), *rhs.get(r, c));
                self.set(r, c, value);
                c += 1;
            }
            r += 1;
        }
    }

    /// Replaces every cell by the operation applied to it and to `by`.
    pub fn map_with(&mut self, op: CellOp, by: T)
        requires
            old(self).wf(),
        ensures
            final(self).mapped_from(op, old(self), by),
    {
        let rows: usize = self.rows;
        let cols: usize = self.cols;
        let mut r: usize = 0;
        while r < rows
            invariant
                r <= rows,
                self.wf(),
                self.same_shape(old(self)),
                rows == self.rows,
                cols == self.cols,
                forall|i: int, j: int|
                    0 <= i < r && 0 <= j < cols ==> #[trigger] self.at(i, j) == combined(
                        op,
                        old(self).at(i, j),
                        by,
                    ),
                forall|i: int, j: int|
                    r <= i < rows && 0 <= j < cols ==> #[trigger] self.at(i, j) == old(self).at(i, j),
            decreases rows - r,
        {
            let mut c: usize = 0;
            while c < cols
                invariant
                    c <= cols,
                    r < rows,
                    self.wf(),
                    self.same_shape(old(self)),
                    rows == self.rows,
                    cols == self.cols,
                    forall|i: int, j: int|
                        (0 <= i < r && 0 <= j < cols) || (i == r && 0 <= j < c) ==> #[trigger] self.at(
                            i,
                            j,
                        ) == combined(op, old(self).at(i, j), by),
                    forall|i: int, j: int|
                        (r < i < rows && 0 <= j < cols) || (i == r && c <= j < cols)
                            ==> #[trigger] self.at(i, j) == old(self).at(i, j),
                decreases cols - c,
            {
                let value: T = combine(op, *self.get(r, c), by);
                self.set(r, c, value);
                c += 1;
            }
            r += 1;
        }
    }
}

impl<T: Scalar> Tensor3<T> {
    /// Whether every cell of `self` is the operation applied to the cells
    /// of `left` and `right` at the same place.
    pub open spec fn zipped_from(&self, op: CellOp, left: &Tensor3<T>, right: &Tensor3<T>) -> bool {
        &&& self.wf()
        &&& self.same_shape(left)
        &&& forall|d: int, r: int, c: int|
            left.holds(d, r, c) ==> #[trigger] self.at(d, r, c) == combined(
                op,
                left.at(d, r, c),
                right.at(d, r, c),
            )
    }

    /// Whether every cell of `self` is the operation applied to the cell
    /// of `of` at the same place and to `by`.
    pub open spec fn mapped_from(&self, op: CellOp, of: &Tensor3<T>, by: T) -> bool {
        &&& self.wf()
        &&& self.same_shape(of)
        &&& forall|d: int, r: int, c: int|
            of.holds(d, r, c) ==> #[trigger] self.at(d, r, c) == combined(op, of.at(d, r, c), by)
    }

    /// Replaces every cell by the operation applied to it and to the cell
    /// of `rhs` at the same place.
    pub fn zip_with(&mut self, op: CellOp, rhs: &Tensor3<T>)
        requires
            old(self).wf(),
            rhs.wf(),
            old(self).same_shape(rhs),
        ensures
            final(self).zipped_from(op, old(self), rhs),
    {
        let depth: usize = self.depth;
        let rows: usize = self.rows;
        let cols: usize = self.cols;
        let mut d: usize = 0;
        while d < depth
            invariant
                d <= depth,
                self.wf(),
                rhs.wf(),
                self.same_shape(rhs),
                self.same_shape(old(self)),
                depth == self.depth,
                rows == self.rows,
                cols == self.cols,
                forall|p: int, i: int, j: int|
                    0 <= p < d && 0 <= i < rows && 0 <= j < cols ==> #[trigger] self.at(p, i, j)
                        == combined(op, old(self).at(p, i, j), rhs.at(p, i, j)),
                forall|p: int, i: int, j: int|
                    d <= p < depth && 0 <= i < rows && 0 <= j < cols ==> #[trigger] self.at(p, i, j)
                        == old(self).at(p, i, j),
            decreases depth - d,
        {
            let mut r: usize = 0;
            while r < rows
                invariant
                    r <= rows,
                    d < depth,
                    self.wf(),
                    rhs.wf(),
                    self.same_shape(rhs),
                    self.same_shape(old(self)),
                    depth == self.depth,
                    rows == self.rows,
                    cols == self.cols,
                    forall|p: int, i: int, j: int|
                        (0 <= p < d && 0 <= i < rows && 0 <= j < cols) || (p == d && 0 <= i < r && 0
                            <= j < cols) ==> #[trigger] self.at(p, i, j) == combined(
                            op,
                            old(self).at(p, i, j),
                            rhs.at(p, i, j),
                        ),
                    forall|p: int, i: int, j: int|
                        (d < p < depth && 0 <= i < rows && 0 <= j < cols) || (p == d && r <= i < rows
                            && 0 <= j < cols) ==> #[trigger] self.at(p, i, j) == old(self).at(p, i, j),
                decreases rows - r,
            {
                let mut c: usize = 0;
                while c < cols
                    invariant
                        c <= cols,
                        r < rows,
                        d < depth,
                        self.wf(),
                        rhs.wf(),
                        self.same_shape(rhs),
                        self.same_shape(old(self)),
                        depth == self.depth,
                        rows == self.rows,
                        cols == self.cols,
                        forall|p: int, i: int, j: int|
                            (0 <= p < d && 0 <= i < rows && 0 <= j < cols) || (p == d && 0 <= i < r
                                && 0 <= j < cols) || (p == d && i == r && 0 <= j < c)
                                ==> #[trigger] self.at(p, i, j) == combined(
                                op,
                                old(self).at(p, i, j),
                                rhs.at(p, i, j),
                            ),
                        forall|p: int, i: int, j: int|
                            (d < p < depth && 0 <= i < rows && 0 <= j < cols) || (p == d && r < i
                                < rows && 0 <= j < cols) || (p == d && i == r && c <= j < cols)
                                ==> #[trigger] self.at(p, i, j) == old(self).at(p, i, j),
                    decreases cols - c,
                {
                    let value: T = combine(op, *self.get(d, r, c), *rhs.get(d, r, c));
                    self.set(d, r, c, value);
                    c += 1;
                }
                r += 1;
            }
            d += 1;
        }
    }

    /// Replaces every cell by the operation applied to it and to `by`.
    pub fn map_with(&mut self, op: CellOp, by: T)
        requires
            old(self).wf(),
        ensures
            final(self).mapped_from(op, old(self), by),
    {
        let depth: usize = self.depth;
        let rows: usize = self.rows;
        let cols: usize = self.cols;
        let mut d: usize = 0;
        while d < depth
            invariant
                d <= depth,
                self.wf(),
                self.same_shape(old(self)),
                depth == self.depth,
                rows == self.rows,
                cols == self.cols,
                forall|p: int, i: int, j: int|
                    0 <= p < d && 0 <= i < rows && 0 <= j < cols ==> #[trigger] self.at(p, i, j)
                        == combined(op, old(self).at(p, i, j), by),
                forall|p: int, i: int, j: int|
                    d <= p < depth && 0 <= i < rows && 0 <= j < cols ==> #[trigger] self.at(p, i, j)
                        == old(self).at(p, i, j),
            decreases depth - d,
        {
            let mut r: usize = 0;
            while r < rows
                invariant
                    r <= rows,
                    d < depth,
                    self.wf(),
                    self.same_shape(old(self)),
                    depth == self.depth,
                    rows == self.rows,
                    cols == self.cols,
                    forall|p: int, i: int, j: int|
                        (0 <= p < d && 0 <= i < rows && 0 <= j < cols) || (p == d && 0 <= i < r && 0
                            <= j < cols) ==> #[trigger] self.at(p, i, j) == combined(
                            op,
                            old(self).at(p, i, j),
                            by,
                        ),
                    forall|p: int, i: int, j: int|
                        (d < p < depth && 0 <= i < rows && 0 <= j < cols) || (p == d && r <= i < rows
                            && 0 <= j < cols) ==> #[trigger] self.at(p, i, j) == old(self).at(p, i, j),
                decreases rows - r,
            {
                let mut c: usize = 0;
                while c < cols
                    invariant
                        c <= cols,
                        r < rows,
                        d < depth,
                        self.wf(),
                        self.same_shape(old(self)),
                        depth == self.depth,
                        rows == self.rows,
                        cols == self.cols,
                        forall|p: int, i: int, j: int|
                            (0 <= p < d && 0 <= i < rows && 0 <= j < cols) || (p == d && 0 <= i < r
                                && 0 <= j < cols) || (p == d && i == r && 0 <= j < c)
                                ==> #[trigger] self.at(p, i, j) == combined(
                                op,
                                old(self).at(p, i, j),
                                by,
                            ),
                        forall|p: int, i: int, j: int|
                            (d < p < depth && 0 <= i < rows && 0 <= j < cols) || (p == d && r < i
                                < rows && 0 <= j < cols) || (p == d && i == r && c <= j < cols)
                                ==> #[trigger] self.at(p, i, j) == old(self).at(p, i, j),
                    decreases cols - c,
                {
                    let value: T = combine(op, *self.get(d, r, c), by);
                    self.set(d, r, c, value);
                    c += 1;
                }
                r += 1;
            }
            d += 1;
        }
    }
}

impl<T: Scalar, D> Array<T, D> {
    /// Whether every cell of `self` is the operation applied to the cells
    /// of `left` and `right` at the same place.
    pub open spec fn zipped_from(&self, op: CellOp, left: &Array<T, D>, right: &Array<T, D>) -> bool {
        &&& self.same_shape(left)
        &&& forall|i: int|
            left.holds(i) ==> #[trigger] self.at(i) == combined(op, left.at(i), right.at(i))
    }

    /// Whether every cell of `self` is the operation applied to the cell
    /// of `of` at the same place and to `by`.
    pub open spec fn mapped_from(&self, op: CellOp, of: &Array<T, D>, by: T) -> bool {
        &&& self.same_shape(of)
        &&& forall|i: int| of.holds(i) ==> #[trigger] self.at(i) == combined(op, of.at(i), by)
    }

    /// Replaces every cell by the operation applied to it and to the cell
    /// of `rhs` at the same place.
    pub fn zip_with(&mut self, op: CellOp, rhs: &Array<T, D>)
        requires
            old(self).same_shape(rhs),
        ensures
            final(self).zipped_from(op, old(self), rhs),
    {
        let n: usize = self.data.len();
        let mut i: usize = 0;
        while i < n
            invariant
                i <= n,
                n == rhs.len(),
                self.len() == n,
                self.shape == old(self).shape,
                old(self).len() == n,
                forall|k: int| 0 <= k < i ==> #[trigger] self.at(k) == combined(op, old(self).at(k), rhs.at(k)),
                forall|k: int| i <= k < n ==> #[trigger] self.at(k) == old(self).at(k),
            decreases n - i,
        {
            let value: T = combine(op, *self.get(i), *rhs.get(i));
            self.set(i, value);
            i += 1;
        }
    }

    /// Replaces every cell by the operation applied to it and to `by`.
    pub fn map_with(&mut self, op: CellOp, by: T)
        ensures
            final(self).mapped_from(op, old(self), by),
    {
        let n: usize = self.data.len();
        let mut i: usize = 0;
        while i < n
            invariant
                i <= n,
                self.len() == n,
                self.shape == old(self).shape,
                old(self).len() == n,
                forall|k: int| 0 <= k < i ==> #[trigger] self.at(k) == combined(op, old(self).at(k), by),
                forall|k: int| i <= k < n ==> #[trigger] self.at(k) == old(self).at(k),
            decreases n - i,
        {
            let value: T = combine(op, *self.get(i), by);
            self.set(i, value);
            i += 1;
        }
    }
}

} // verus!
