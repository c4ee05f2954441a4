use mli::cellwise::{combine, CellOp};
use mli::delta::{ChainData, Delta, DeltaUnit, EmptyData, Scale};
use mli::fixed::Fixed;
use mli::ndeep::Ndeep;
use mli::tensor::{Array, Tensor1, Tensor2, Tensor3};

fn fx(n: i64) -> Fixed {
    Fixed::from_raw(n * 65536)
}

#[test]
fn empty_data_absorbs_everything() {
    assert_eq!(Delta::add(EmptyData, EmptyData), EmptyData);
    assert_eq!(Delta::mul(EmptyData, EmptyData), EmptyData);
    assert_eq!(<EmptyData as DeltaUnit>::zero(), EmptyData);
    assert_eq!(<EmptyData as DeltaUnit>::one(), EmptyData);
    assert!(EmptyData.is_zero());
    assert_eq!(EmptyData.scale(fx(3)), EmptyData);
    assert_eq!(EmptyData.shift(2.5f64), EmptyData);
}

#[test]
fn fixed_is_a_delta() {
    assert_eq!(Delta::add(fx(2), fx(3)), fx(5));
    assert_eq!(Delta::mul(fx(2), fx(3)), fx(6));
    assert_eq!(<Fixed as DeltaUnit>::zero(), fx(0));
    assert_eq!(<Fixed as DeltaUnit>::one(), fx(1));
    assert!(fx(0).is_zero());
    assert!(!fx(1).is_zero());
    assert_eq!(fx(2).scale(fx(3)), fx(6));
    assert_eq!(fx(2).shift(fx(3)), fx(5));
}

#[test]
fn chain_data_works_part_by_part() {
    let left = ChainData(fx(1), ChainData(fx(2), EmptyData));
    let right = ChainData(fx(10), ChainData(fx(20), EmptyData));
    assert_eq!(left.clone().add(right.clone()), ChainData(fx(11), ChainData(fx(22), EmptyData)));
    assert_eq!(left.clone().mul(right), ChainData(fx(10), ChainData(fx(40), EmptyData)));
    assert_eq!(left.clone().scale(fx(3)), ChainData(fx(3), ChainData(fx(6), EmptyData)));
    assert_eq!(left.shift(fx(3)), ChainData(fx(4), ChainData(fx(5), EmptyData)));
}

#[test]
fn chain_data_has_zero_and_one() {
    let zero = <ChainData<Fixed, Fixed> as DeltaUnit>::zero();
    assert_eq!(zero, ChainData(fx(0), fx(0)));
    assert!(zero.is_zero());
    let one = <ChainData<Fixed, Fixed> as DeltaUnit>::one();
    assert_eq!(one, ChainData(fx(1), fx(1)));
    assert!(!one.is_zero());
    assert!(!ChainData(fx(0), fx(1)).is_zero());
}

#[test]
fn sums_of_updates_commute_and_associate_on_whole_numbers() {
    let a = ChainData(fx(1), fx(-2));
    let b = ChainData(fx(30), fx(40));
    let c = ChainData(fx(-500), fx(600));
    assert_eq!(a.clone().add(b.clone()), b.clone().add(a.clone()));
    assert_eq!(a.clone().add(b.clone()).add(c.clone()), a.add(b.add(c)));
}

#[test]
fn combine_applies_the_operation() {
    assert_eq!(combine(CellOp::Sum, fx(2), fx(3)), fx(5));
    assert_eq!(combine(CellOp::Product, fx(2), fx(3)), fx(6));
}

#[test]
fn ndeep_adds_cell_by_cell() {
    let left = Ndeep(Tensor1::from_vec(vec![fx(1), fx(2)]));
    let right = Ndeep(Tensor1::from_vec(vec![fx(10), fx(20)]));
    assert_eq!(left.add(right).0.data, vec![fx(11), fx(22)]);
    let left = Ndeep(Tensor2::from_rows(vec![vec![fx(1), fx(2)], vec![fx(3), fx(4)]]).unwrap());
    let right = Ndeep(Tensor2::from_rows(vec![vec![fx(1), fx(0)], vec![fx(0), fx(1)]]).unwrap());
    assert_eq!(left.add(right).0.data, vec![vec![fx(2), fx(2)], vec![fx(3), fx(5)]]);
    let left = Ndeep(Tensor3::filled(1, 1, 2, fx(2)));
    let right = Ndeep(Tensor3::filled(1, 1, 2, fx(5)));
    assert_eq!(left.mul(right).0.data, vec![vec![vec![fx(10), fx(10)]]]);
    let left = Ndeep(Array::new([2usize], vec![fx(1), fx(2)]));
    let right = Ndeep(Array::new([2usize], vec![fx(3), fx(4)]));
    assert_eq!(left.mul(right).0.data, vec![fx(3), fx(8)]);
}

#[test]
fn ndeep_scales_and_shifts_every_cell() {
    let update = Ndeep(Tensor2::from_rows(vec![vec![fx(1), fx(2)], vec![fx(3), fx(4)]]).unwrap());
    let scaled = update.scale(fx(0));
    assert_eq!(scaled.0.data, vec![vec![fx(0), fx(0)], vec![fx(0), fx(0)]]);
    assert_eq!(scaled.shift(fx(7)).0.data, vec![vec![fx(7), fx(7)], vec![fx(7), fx(7)]]);
    let line = Ndeep(Tensor1::from_vec(vec![fx(1), fx(2)]));
    assert_eq!(line.scale(fx(-2)).0.data, vec![fx(-2), fx(-4)]);
    let cube = Ndeep(Tensor3::filled(1, 1, 1, fx(3)));
    assert_eq!(cube.shift(fx(1)).0.data, vec![vec![vec![fx(4)]]]);
    let flat = Ndeep(Array::new((), vec![fx(3), fx(4)]));
    assert_eq!(flat.scale(fx(2)).0.data, vec![fx(6), fx(8)]);
}
