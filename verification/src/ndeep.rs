//! Tensors as updates: every operation acts cell by cell.

use crate::cellwise::CellOp;
use crate::delta::{Delta, Scale};
use crate::scalar::Scalar;
use crate::tensor::{Array, Tensor1, Tensor2, Tensor3};
use vstd::prelude::*;

verus! {

/// A tensor taken as an update of a parameter tensor of the same shape.
#[derive(Debug, PartialEq, Eq)]
pub struct Ndeep<A>(pub A);

impl<T: Scalar> Delta for Ndeep<Tensor1<T>> {
    open spec fn fits(&self, other: &Ndeep<Tensor1<T>>) -> bool {
        self.0.len() == other.0.len()
    }

    open spec fn sum_of(&self, left: &Ndeep<Tensor1<T>>, right: &Ndeep<Tensor1<T>>) -> bool {
        self.0.zipped_from(CellOp::Sum, &left.0, &right.0)
    }

    open spec fn product_of(&self, left: &Ndeep<Tensor1<T>>, right: &Ndeep<Tensor1<T>>) -> bool {
        self.0.zipped_from(CellOp::Product, &left.0, &right.0)
    }

    fn add(self, rhs: Ndeep<Tensor1<T>>) -> (sum: Ndeep<Tensor1<T>>) {
        let mut sum = self;
        sum.0.zip_with(CellOp::Sum, &rhs.0);
        sum
    }

    fn mul(self, rhs: Ndeep<Tensor1<T>>) -> (product: Ndeep<Tensor1<T>>) {
        let mut product = self;
        product.0.zip_with(CellOp::Product, &rhs.0);
        product
    }
}

impl<T: Scalar> Scale<T> for Ndeep<Tensor1<T>> {
    open spec fn sound(&self) -> bool {
        true
    }

    open spec fn scaled_from(&self, of: &Ndeep<Tensor1<T>>, by: T) -> bool {
        self.0.mapped_from(CellOp::Product, &of.0, by)
    }

    open spec fn shifted_from(&self, of: &Ndeep<Tensor1<T>>, by: T) -> bool {
        self.0.mapped_from(CellOp::Sum, &of.0, by)
    }

    fn scale(self, by: T) -> (scaled: Ndeep<Tensor1<T>>) {
        let mut scaled = self;
        scaled.0.map_with(CellOp::Product, by);
        scaled
    }

    fn shift(self, by: T) -> (shifted: Ndeep<Tensor1<T>>) {
        let mut shifted = self;
        shifted.0.map_with(CellOp::Sum, by);
        shifted
    }
}

impl<T: Scalar> Delta for Ndeep<Tensor2<T>> {
    open spec fn fits(&self, other: &Ndeep<Tensor2<T>>) -> bool {
        self.0.wf() && other.0.wf() && self.0.same_shape(&other.0)
    }

    open spec fn sum_of(&self, left: &Ndeep<Tensor2<T>>, right: &Ndeep<Tensor2<T>>) -> bool {
        self.0.zipped_from(CellOp::Sum, &left.0, &right.0)
    }

    open spec fn product_of(&self, left: &Ndeep<Tensor2<T>>, right: &Ndeep<Tensor2<T>>) -> bool {
        self.0.zipped_from(CellOp::Product, &left.0, &right.0)
    }

    fn add(self, rhs: Ndeep<Tensor2<T>>) -> (sum: Ndeep<Tensor2<T>>) {
        let mut sum = self;
        sum.0.zip_with(CellOp::Sum, &rhs.0);
        sum
    }

    fn mul(self, rhs: Ndeep<Tensor2<T>>) -> (product: Ndeep<Tensor2<T>>) {
        let mut product = self;
        product.0.zip_with(CellOp::Product, &rhs.0);
        product
    }
}

impl<T: Scalar> Scale<T> for Ndeep<Tensor2<T>> {
    open spec fn sound(&self) -> bool {
        self.0.wf()
    }

    open spec fn scaled_from(&self, of: &Ndeep<Tensor2<T>>, by: T) -> bool {
        self.0.mapped_from(CellOp::Product, &of.0, by)
    }

    open spec fn shifted_from(&self, of: &Ndeep<Tensor2<T>>, by: T) -> bool {
        self.0.mapped_from(CellOp::Sum, &of.0, by)
    }

    fn scale(self, by: T) -> (scaled: Ndeep<Tensor2<T>>) {
        let mut scaled = self;
        scaled.0.map_with(CellOp::Product, by);
        scaled
    }

    fn shift(self, by: T) -> (shifted: Ndeep<Tensor2<T>>) {
        let mut shifted = self;
        shifted.0.map_with(CellOp::Sum, by);
        shifted
    }
}

impl<T: Scalar> Delta for Ndeep<Tensor3<T>> {
    open spec fn fits(&self, other: &Ndeep<Tensor3<T>>) -> bool {
        self.0.wf() && other.0.wf() && self.0.same_shape(&other.0)
    }

    open spec fn sum_of(&self, left: &Ndeep<Tensor3<T>>, right: &Ndeep<Tensor3<T>>) -> bool {
        self.0.zipped_from(CellOp::Sum, &left.0, &right.0)
    }

    open spec fn product_of(&self, left: &Ndeep<Tensor3<T>>, right: &Ndeep<Tensor3<T>>) -> bool {
        self.0.zipped_from(CellOp::Product, &left.0, &right.0)
    }

    fn add(self, rhs: Ndeep<Tensor3<T>>) -> (sum: Ndeep<Tensor3<T>>) {
        let mut sum = self;
        sum.0.zip_with(CellOp::Sum, &rhs.0);
        sum
    }

    fn mul(self, rhs: Ndeep<Tensor3<T>>) -> (product: Ndeep<Tensor3<T>>) {
        let mut product = self;
        product.0.zip_with(CellOp::Product, &rhs.0);
        product
    }
}

impl<T: Scalar> Scale<T> for Ndeep<Tensor3<T>> {
    open spec fn sound(&self) -> bool {
        self.0.wf()
    }

    open spec fn scaled_from(&self, of: &Ndeep<Tensor3<T>>, by: T) -> bool {
        self.0.mapped_from(CellOp::Product, &of.0, by)
    }

    open spec fn shifted_from(&self, of: &Ndeep<Tensor3<T>>, by: T) -> bool {
        self.0.mapped_from(CellOp::Sum, &of.0, by)
    }

    fn scale(self, by: T) -> (scaled: Ndeep<Tensor3<T>>) {
        let mut scaled = self;
        scaled.0.map_with(CellOp::Product, by);
        scaled
    }

    fn shift(self, by: T) -> (shifted: Ndeep<Tensor3<T>>) {
        let mut shifted = self;
        shifted.0.map_with(CellOp::Sum, by);
        shifted
    }
}

impl<T: Scalar, D> Delta for Ndeep<Array<T, D>> {
    open spec fn fits(&self, other: &Ndeep<Array<T, D>>) -> bool {
        self.0.same_shape(&other.0)
    }

    open spec fn sum_of(&self, left: &Ndeep<Array<T, D>>, right: &Ndeep<Array<T, D>>) -> bool {
        self.0.zipped_from(CellOp::Sum, &left.0, &right.0)
    }

    open spec fn product_of(&self, left: &Ndeep<Array<T, D>>, right: &Ndeep<Array<T, D>>) -> bool {
        self.0.zipped_from(CellOp::Product, &left.0, &right.0)
    }

    fn add(self, rhs: Ndeep<Array<T, D>>) -> (sum: Ndeep<Array<T, D>>) {
        let mut sum = self;
        sum.0.zip_with(CellOp::Sum, &rhs.0);
        sum
    }

    fn mul(self, rhs: Ndeep<Array<T, D>>) -> (product: Ndeep<Array<T, D>>) {
        let mut product = self;
        product.0.zip_with(CellOp::Product, &rhs.0);
        product
    }
}

impl<T: Scalar, D> Scale<T> for Ndeep<Array<T, D>> {
    open spec fn sound(&self) -> bool {
        true
    }

    open spec fn scaled_from(&self, of: &Ndeep<Array<T, D>>, by: T) -> bool {
        self.0.mapped_from(CellOp::Product, &of.0, by)
    }

    open spec fn shifted_from(&self, of: &Ndeep<Array<T, D>>, by: T) -> bool {
        self.0.mapped_from(CellOp::Sum, &of.0, by)
    }

    fn scale(self, by: T) -> (scaled: Ndeep<Array<T, D>>) {
        let mut scaled = self;
        scaled.0.map_with(CellOp::Product, by);
        scaled
    }

    fn shift(self, by: T) -> (shifted: Ndeep<Array<T, D>>) {
        let mut shifted = self;
        shifted.0.map_with(CellOp::Sum, by);
        shifted
    }
}

} // verus!
