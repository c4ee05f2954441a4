//! Rectangular arrays of one, two and three axes.
//!
//! A tensor keeps its extents beside its cells, so that an empty tensor
//! still has a shape. Cells are stored row by row.

use vstd::prelude::*;

verus! {

/// A tensor of one axis.
#[derive(Debug, PartialEq, Eq)]
pub struct Tensor1<T> {
    pub data: Vec<T>,
}

/// A tensor of two axes: `rows` by `cols`.
#[derive(Debug, PartialEq, Eq)]
pub struct Tensor2<T> {
    pub rows: usize,
    pub cols: usize,
    pub data: Vec<Vec<T>>,
}

/// A tensor of three axes: `depth` by `rows` by `cols`.
#[derive(Debug, PartialEq, Eq)]
pub struct Tensor3<T> {
    pub depth: usize,
    pub rows: usize,
    pub cols: usize,
    pub data: Vec<Vec<Vec<T>>>,
}

/// A tensor of any number of axes: its shape, and its cells in storage
/// order.
#[derive(Debug, PartialEq, Eq)]
pub struct Array<T, D> {
    pub shape: D,
    pub data: Vec<T>,
}

impl<T, D> Array<T, D> {
    /// The number of cells.
    pub open spec fn len(&self) -> nat {
        self.data@.len()
    }

    /// The cell at a place in storage order.
    pub open spec fn at(&self, i: int) -> T {
        self.data@[i]
    }

    /// Whether `i` names a cell.
    pub open spec fn holds(&self, i: int) -> bool {
        0 <= i < self.data@.len()
    }

    /// Whether the two tensors have the same shape and as many cells.
    pub open spec fn same_shape<U>(&self, other: &Array<U, D>) -> bool {
        self.shape == other.shape && self.len() == other.len()
    }

    pub fn new(shape: D, data: Vec<T>) -> (array: Array<T, D>)
        ensures
            array.shape == shape,
            array.data == data,
    {
        Array { shape, data }
    }

    pub fn get(&self, i: usize) -> (cell: &T)
        requires
            self.holds(i as int),
        ensures
            *cell == self.at(i as int),
    {
        &self.data[i]
    }

    pub fn set(&mut self, i: usize, value: T)
        requires
            old(self).holds(i as int),
        ensures
            final(self).same_shape(old(self)),
            forall|k: int|
                old(self).holds(k) ==> #[trigger] final(self).at(k) == (if k == i {
                    value
                } else {
                    old(self).at(k)
                }),
    {
        self.data[i] = value;
    }
}

/// The greatest extent that an axis of a well-formed tensor may have. No
/// array that fits in memory has a longer axis.
pub open spec fn extent_limit() -> nat {
    (usize::MAX / 2) as nat
}

/// Whether the nested rows are `rows` rows of `cols` cells each.
pub open spec fn rect<T>(data: &Vec<Vec<T>>, rows: nat, cols: nat) -> bool {
    &&& data@.len() == rows
    &&& forall|r: int| 0 <= r < rows ==> (#[trigger] data@[r])@.len() == cols
}

/// Whether the nested planes are `depth` planes of `rows` rows of `cols`
/// cells each.
pub open spec fn cuboid<T>(data: &Vec<Vec<Vec<T>>>, depth: nat, rows: nat, cols: nat) -> bool {
    &&& data@.len() == depth
    &&& forall|d: int| 0 <= d < depth ==> (#[trigger] data@[d])@.len() == rows
    &&& forall|d: int, r: int|
        0 <= d < depth && 0 <= r < rows ==> (#[trigger] data@[d]@[r])@.len() == cols
}

/// The rows in order, each as the sequence of its cells.
pub open spec fn grid<T>(data: &Vec<Vec<T>>) -> Seq<Seq<T>> {
    Seq::new(data@.len(), |r: int| data@[r]@)
}

/// The planes in order, each as the sequence of its rows.
pub open spec fn block<T>(data: &Vec<Vec<Vec<T>>>) -> Seq<Seq<Seq<T>>> {
    Seq::new(data@.len(), |d: int| grid(&data@[d]))
}

/// Two grids of the same extents that agree cell by cell are the same.
pub proof fn lemma_grid_equal<T>(left: Seq<Seq<T>>, right: Seq<Seq<T>>, rows: nat, cols: nat)
    requires
        left.len() == rows,
        right.len() == rows,
        forall|r: int| 0 <= r < rows ==> (#[trigger] left[r]).len() == cols,
        forall|r: int| 0 <= r < rows ==> (#[trigger] right[r]).len() == cols,
        forall|r: int, c: int| 0 <= r < rows && 0 <= c < cols ==> left[r][c] == right[r][c],
    ensures
        left == right,
{
    assert forall|r: int| 0 <= r < rows implies left[r] == right[r] by {
        assert(left[r].len() == cols);
        assert(right[r].len() == cols);
        assert(left[r] =~= right[r]);
    }
    assert(left =~= right);
}

impl<T> View for Tensor1<T> {
    type V = Seq<T>;

    /// The cells in order.
    open spec fn view(&self) -> Seq<T> {
        self.data@
    }
}

impl<T> View for Tensor2<T> {
    type V = Seq<Seq<T>>;

    /// The rows in order, each as the sequence of its cells.
    open spec fn view(&self) -> Seq<Seq<T>> {
        grid(&self.data)
    }
}

impl<T> View for Tensor3<T> {
    type V = Seq<Seq<Seq<T>>>;

    /// The planes in order, each as the sequence of its rows.
    open spec fn view(&self) -> Seq<Seq<Seq<T>>> {
        block(&self.data)
    }
}

impl<T> Tensor1<T> {
    /// The extent of the only axis.
    pub open spec fn len(&self) -> nat {
        self.data@.len()
    }

    /// The cell at an index.
    pub open spec fn at(&self, i: int) -> T {
        self.data@[i]
    }

    /// Whether `i` names a cell.
    pub open spec fn holds(&self, i: int) -> bool {
        0 <= i < self.data@.len()
    }

    pub fn from_vec(data: Vec<T>) -> (tensor: Tensor1<T>)
        ensures
            tensor.data == data,
    {
        Tensor1 { data }
    }

    pub fn extent(&self) -> (n: usize)
        ensures
            n == self.len(),
    {
        self.data.len()
    }

    pub fn get(&self, i: usize) -> (cell: &T)
        requires
            self.holds(i as int),
        ensures
            *cell == self.at(i as int),
    {
        &self.data[i]
    }

    pub fn set(&mut self, i: usize, value: T)
        requires
            old(self).holds(i as int),
        ensures
            final(self).len() == old(self).len(),
            forall|k: int|
                old(self).holds(k) ==> #[trigger] final(self).at(k) == (if k == i {
                    value
                } else {
                    old(self).at(k)
                }),
    {
        self.data[i] = value;
    }
}

impl<T: Copy> Tensor1<T> {
    /// A tensor of `len` cells that all hold `value`.
    pub fn filled(len: usize, value: T) -> (tensor: Tensor1<T>)
        ensures
            tensor.len() == len,
            forall|i: int| 0 <= i < len ==> #[trigger] tensor.at(i) == value,
    {
        let mut data: Vec<T> = Vec::new();
        let mut i: usize = 0;
        while i < len
            invariant
                i <= len,
                data@.len() == i,
                forall|k: int| 0 <= k < i ==> #[trigger] data@[k] == value,
            decreases len - i,
        {
            data.push(value);
            i += 1;
        }
        Tensor1 { data }
    }
}

impl<T> Tensor2<T> {
    /// Every row is stored and has `cols` cells, and no axis is longer
    /// than the limit.
    pub open spec fn wf(&self) -> bool {
        &&& rect(&self.data, self.rows as nat, self.cols as nat)
        &&& self.rows <= extent_limit()
        &&& self.cols <= extent_limit()
    }

    /// The cell at a row and a column.
    pub open spec fn at(&self, r: int, c: int) -> T {
        self.data@[r]@[c]
    }

    /// Whether `(r, c)` names a cell.
    pub open spec fn holds(&self, r: int, c: int) -> bool {
        0 <= r < self.rows && 0 <= c < self.cols
    }

    /// Whether the two tensors have the same extents.
    pub open spec fn same_shape<U>(&self, other: &Tensor2<U>) -> bool {
        self.rows == other.rows && self.cols == other.cols
    }

    /// The tensor whose rows are `data`; its width is that of the first
    /// row, or zero where there is none. `None` where the rows differ in
    /// length or an axis is longer than the limit.
    pub fn from_rows(data: Vec<Vec<T>>) -> (made: Option<Tensor2<T>>)
        ensures
            made is Some <==> {
                &&& data@.len() <= extent_limit()
                &&& forall|r: int|
                    0 <= r < data@.len() ==> (#[trigger] data@[r])@.len() == data@[0]@.len()
                &&& data@.len() > 0 ==> data@[0]@.len() <= extent_limit()
            },
            made matches Some(tensor) ==> {
                &&& tensor.wf()
                &&& tensor.data == data
                &&& tensor.rows == data@.len()
                &&& tensor.cols == (if data@.len() == 0 {
                    0
                } else {
                    data@[0]@.len()
                })
            },
    {
        let rows: usize = data.len();
        if rows == 0 {
            return Some(Tensor2 { rows: 0, cols: 0, data });
        }
        let cols: usize = data[0].len();
        if rows > usize::MAX / 2 || cols > usize::MAX / 2 {
            return None;
        }
        let mut r: usize = 0;
        while r < rows
            invariant
                r <= rows,
                rows == data@.len(),
                rows > 0,
                cols == data@[0]@.len(),
                forall|k: int| 0 <= k < r ==> (#[trigger] data@[k])@.len() == cols,
            decreases rows - r,
        {
            if data[r].len() != cols {
                return None;
            }
            r += 1;
        }
        Some(Tensor2 { rows, cols, data })
    }

    pub fn get(&self, r: usize, c: usize) -> (cell: &T)
        requires
            self.wf(),
            self.holds(r as int, c as int),
        ensures
            *cell == self.at(r as int, c as int),
    {
        &self.data[r][c]
    }

    pub fn set(&mut self, r: usize, c: usize, value: T)
        requires
            old(self).wf(),
            old(self).holds(r as int, c as int),
        ensures
            final(self).wf(),
            final(self).same_shape(old(self)),
            forall|i: int, j: int|
                old(self).holds(i, j) ==> #[trigger] final(self).at(i, j) == (if i == r && j == c {
                    value
                } else {
                    old(self).at(i, j)
                }),
    {
        self.data[r][c] = value;
    }
}

impl<T: Copy> Tensor2<T> {
    /// A tensor of the given extents whose cells all hold `value`.
    pub fn filled(rows: usize, cols: usize, value: T) -> (tensor: Tensor2<T>)
        requires
            rows <= extent_limit(),
            cols <= extent_limit(),
        ensures
            tensor.wf(),
            tensor.rows == rows,
            tensor.cols == cols,
            forall|r: int, c: int| tensor.holds(r, c) ==> #[trigger] tensor.at(r, c) == value,
    {
        let mut data: Vec<Vec<T>> = Vec::new();
        let mut r: usize = 0;
        while r < rows
            invariant
                r <= rows,
                data@.len() == r,
                forall|i: int| 0 <= i < r ==> (#[trigger] data@[i])@.len() == cols,
                forall|i: int, j: int| 0 <= i < r && 0 <= j < cols ==> #[trigger] data@[i]@[j] == value,
            decreases rows - r,
        {
            let row: Tensor1<T> = Tensor1::filled(cols, value);
            assert forall|j: int| 0 <= j < cols implies #[trigger] row.data@[j] == value by {
                assert(row.at(j) == value);
            }
            data.push(row.data);
            r += 1;
        }
        Tensor2 { rows, cols, data }
    }
}

impl<T> Tensor3<T> {
    /// Every plane and every row is stored, with the extents that the
    /// tensor names, and no axis is longer than the limit.
    pub open spec fn wf(&self) -> bool {
        &&& cuboid(&self.data, self.depth as nat, self.rows as nat, self.cols as nat)
        &&& self.depth <= extent_limit()
        &&& self.rows <= extent_limit()
        &&& self.cols <= extent_limit()
    }

    /// The cell at a plane, a row and a column.
    pub open spec fn at(&self, d: int, r: int, c: int) -> T {
        self.data@[d]@[r]@[c]
    }

    /// Whether `(d, r, c)` names a cell.
    pub open spec fn holds(&self, d: int, r: int, c: int) -> bool {
        0 <= d < self.depth && 0 <= r < self.rows && 0 <= c < self.cols
    }

    /// Whether the two tensors have the same extents.
    pub open spec fn same_shape<U>(&self, other: &Tensor3<U>) -> bool {
        self.depth == other.depth && self.rows == other.rows && self.cols == other.cols
    }

    /// The tensor whose planes are `data`; its other extents are those of
    /// the first plane and of that plane's first row, or zero where there
    /// is none. `None` where planes or rows differ in their extents, or an
    /// axis is longer than the limit.
    pub fn from_planes(data: Vec<Vec<Vec<T>>>) -> (made: Option<Tensor3<T>>)
        ensures
            made matches Some(tensor) ==> tensor.wf() && tensor.data == data,
            made is Some <==> exists|rows: nat, cols: nat|
                {
                    &&& #[trigger] cuboid(&data, data@.len(), rows, cols)
                    &&& data@.len() <= extent_limit()
                    &&& rows <= extent_limit()
                    &&& cols <= extent_limit()
                    &&& data@.len() == 0 ==> rows == 0
                    &&& (data@.len() == 0 || rows == 0) ==> cols == 0
                },
    {
        let depth: usize = data.len();
        let rows: usize = if depth == 0 {
            0
        } else {
            data[0].len()
        };
        let cols: usize = if rows == 0 {
            0
        } else {
            data[0][0].len()
        };
        if depth > usize::MAX / 2 || rows > usize::MAX / 2 || cols > usize::MAX / 2 {
            proof {
                assert forall|some_rows: nat, some_cols: nat| #[trigger]
                    cuboid(&data, data@.len(), some_rows, some_cols) && (data@.len() == 0
                        ==> some_rows == 0) && ((data@.len() == 0 || some_rows == 0) ==> some_cols
                        == 0) implies !(data@.len() <= extent_limit() && some_rows <= extent_limit()
                    && some_cols <= extent_limit()) by {
                    if depth > 0 {
                        assert(data@[0]@.len() == some_rows);
                        if rows > 0 {
                            assert(data@[0]@[0]@.len() == some_cols);
                        }
                    }
                }
            }
            return None;
        }
        let mut d: usize = 0;
        while d < depth
            invariant
                d <= depth,
                depth == data@.len(),
                depth > 0 ==> rows == data@[0]@.len(),
                depth > 0 && rows > 0 ==> cols == data@[0]@[0]@.len(),
                forall|p: int| 0 <= p < d ==> (#[trigger] data@[p])@.len() == rows,
                forall|p: int, i: int|
                    0 <= p < d && 0 <= i < rows ==> (#[trigger] data@[p]@[i])@.len() == cols,
            decreases depth - d,
        {
            if data[d].len() != rows {
                proof {
                    assert forall|some_rows: nat, some_cols: nat|
                        !#[trigger] cuboid(&data, data@.len(), some_rows, some_cols) by {
                        if cuboid(&data, data@.len(), some_rows, some_cols) {
                            assert(data@[0]@.len() == some_rows);
                            assert(data@[d as int]@.len() == some_rows);
                        }
                    }
                }
                return None;
            }
            let mut r: usize = 0;
            while r < rows
                invariant
                    r <= rows,
                    d < depth,
                    depth == data@.len(),
                    rows == data@[0]@.len(),
                    data@[d as int]@.len() == rows,
                    rows > 0 ==> cols == data@[0]@[0]@.len(),
                    forall|i: int| 0 <= i < r ==> (#[trigger] data@[d as int]@[i])@.len() == cols,
                decreases rows - r,
            {
                if data[d][r].len() != cols {
                    proof {
                        assert forall|some_rows: nat, some_cols: nat|
                            !#[trigger] cuboid(&data, data@.len(), some_rows, some_cols) by {
                            if cuboid(&data, data@.len(), some_rows, some_cols) {
                                assert(data@[0]@.len() == some_rows);
                                assert(data@[0]@[0]@.len() == some_cols);
                                assert(data@[d as int]@[r as int]@.len() == some_cols);
                            }
                        }
                    }
                    return None;
                }
                r += 1;
            }
            d += 1;
        }
        assert(cuboid(&data, data@.len(), rows as nat, cols as nat));
        Some(Tensor3 { depth, rows, cols, data })
    }

    pub fn get(&self, d: usize, r: usize, c: usize) -> (cell: &T)
        requires
            self.wf(),
            self.holds(d as int, r as int, c as int),
        ensures
            *cell == self.at(d as int, r as int, c as int),
    {
        &self.data[d][r][c]
    }

    pub fn set(&mut self, d: usize, r: usize, c: usize, value: T)
        requires
            old(self).wf(),
            old(self).holds(d as int, r as int, c as int),
        ensures
            final(self).wf(),
            final(self).same_shape(old(self)),
            forall|i: int, j: int, k: int|
                old(self).holds(i, j, k) ==> #[trigger] final(self).at(i, j, k) == (if i == d && j == r
                    && k == c {
                    value
                } else {
                    old(self).at(i, j, k)
                }),
    {
        self.data[d][r][c] = value;
    }
}

impl<T: Copy> Tensor3<T> {
    /// A tensor of the given extents whose cells all hold `value`.
    pub fn filled(depth: usize, rows: usize, cols: usize, value: T) -> (tensor: Tensor3<T>)
        requires
            depth <= extent_limit(),
            rows <= extent_limit(),
            cols <= extent_limit(),
        ensures
            tensor.wf(),
            tensor.depth == depth,
            tensor.rows == rows,
            tensor.cols == cols,
            forall|d: int, r: int, c: int|
                tensor.holds(d, r, c) ==> #[trigger] tensor.at(d, r, c) == value,
    {
        let mut data: Vec<Vec<Vec<T>>> = Vec::new();
        let mut d: usize = 0;
        while d < depth
            invariant
                d <= depth,
                rows <= extent_limit(),
                cols <= extent_limit(),
                data@.len() == d,
                forall|i: int| 0 <= i < d ==> (#[trigger] data@[i])@.len() == rows,
                forall|i: int, j: int|
                    0 <= i < d && 0 <= j < rows ==> (#[trigger] data@[i]@[j])@.len() == cols,
                forall|i: int, j: int, k: int|
                    0 <= i < d && 0 <= j < rows && 0 <= k < cols ==> #[trigger] data@[i]@[j]@[k]
                        == value,
            decreases depth - d,
        {
            let plane: Tensor2<T> = Tensor2::filled(rows, cols, value);
            assert forall|j: int, k: int| 0 <= j < rows && 0 <= k < cols implies #[trigger] plane.data@[j]@[k]
                == value by {
                assert(plane.at(j, k) == value);
            }
            data.push(plane.data);
            d += 1;
        }
        Tensor3 { depth, rows, cols, data }
    }
}

fn copy_row<T: Copy>(row: &Vec<T>) -> (out: Vec<T>)
    ensures
        out@ == row@,
{
    let mut out: Vec<T> = Vec::new();
    let n: usize = row.len();
    let mut i: usize = 0;
    while i < n
        invariant
            i <= n,
            n == row@.len(),
            out@.len() == i,
            forall|k: int| 0 <= k < i ==> #[trigger] out@[k] == row@[k],
        decreases n - i,
    {
        out.push(row[i]);
        i += 1;
    }
    assert(out@ =~= row@);
    out
}

fn copy_rows<T: Copy>(rows: &Vec<Vec<T>>) -> (out: Vec<Vec<T>>)
    ensures
        out@.len() == rows@.len(),
        forall|r: int| 0 <= r < rows@.len() ==> (#[trigger] out@[r])@ == rows@[r]@,
{
    let mut out: Vec<Vec<T>> = Vec::new();
    let n: usize = rows.len();
    let mut r: usize = 0;
    while r < n
        invariant
            r <= n,
            n == rows@.len(),
            out@.len() == r,
            forall|k: int| 0 <= k < r ==> (#[trigger] out@[k])@ == rows@[k]@,
        decreases n - r,
    {
        out.push(copy_row(&rows[r]));
        r += 1;
    }
    out
}

impl<T: Copy> Tensor1<T> {
    /// A tensor with the same cells.
    pub fn duplicate(&self) -> (copy: Tensor1<T>)
        ensures
            copy@ == self@,
    {
        Tensor1 { data: copy_row(&self.data) }
    }
}

impl<T: Copy, D: Copy> Array<T, D> {
    /// A tensor with the same shape and the same cells.
    pub fn duplicate(&self) -> (copy: Array<T, D>)
        ensures
            copy.shape == self.shape,
            copy.data@ == self.data@,
    {
        Array { shape: self.shape, data: copy_row(&self.data) }
    }
}

impl<T: Copy> Tensor2<T> {
    /// A tensor with the same extents and the same cells.
    pub fn duplicate(&self) -> (copy: Tensor2<T>)
        requires
            self.wf(),
        ensures
            copy.wf(),
            copy.same_shape(self),
            copy@ == self@,
    {
        let copy = Tensor2 { rows: self.rows, cols: self.cols, data: copy_rows(&self.data) };
        assert(copy@ =~= self@);
        copy
    }
}

impl<T: Copy> Tensor3<T> {
    /// The plane at depth `d`, as a tensor of two axes.
    pub fn plane(&self, d: usize) -> (out: Tensor2<T>)
        requires
            self.wf(),
            d < self.depth,
        ensures
            out.wf(),
            out.rows == self.rows,
            out.cols == self.cols,
            out@ == self@[d as int],
    {
        let out = Tensor2 { rows: self.rows, cols: self.cols, data: copy_rows(&self.data[d]) };
        assert(out@ =~= self@[d as int]);
        out
    }

    /// The tensor of depth one whose only plane is `plane`.
    pub fn from_plane(plane: &Tensor2<T>) -> (out: Tensor3<T>)
        requires
            plane.wf(),
        ensures
            out.wf(),
            out.depth == 1,
            out.rows == plane.rows,
            out.cols == plane.cols,
            out@ == seq![plane@],
    {
        let mut data: Vec<Vec<Vec<T>>> = Vec::new();
        data.push(copy_rows(&plane.data));
        let out = Tensor3 { depth: 1, rows: plane.rows, cols: plane.cols, data };
        assert(out@[0] =~= plane@);
        assert(out@ =~= seq![plane@]);
        out
    }
}

} // verus!
