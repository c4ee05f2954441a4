use mli::activation::{SingleBias, Square};
use mli::chain::Chain;
use mli::delta::{ChainData, EmptyData};
use mli::fixed::Fixed;
use mli::mapped::Mapped;
use mli::operator::{Backward, Forward, Graph, Train};
use mli::zip::Zip;

fn fx(n: i64) -> Fixed {
    Fixed::from_raw(n * 65536)
}

#[test]
fn chain_runs_the_first_and_then_the_second() {
    let mut chain = Chain(SingleBias(fx(1)), Square::<Fixed>::new());
    let (internal, output) = chain.forward(&fx(2));
    assert_eq!(output, fx(9));
    assert_eq!(internal, (EmptyData, fx(3), EmptyData));
    // The square sends 2 * 3 * 5 back, which passes the bias unchanged.
    let (input_delta, train_delta) = chain.backward(&fx(2), &internal, &fx(5));
    assert_eq!(input_delta, fx(30));
    assert_eq!(train_delta, (fx(30), EmptyData));
    chain.train(&train_delta);
    assert_eq!(chain.0 .0, fx(31));
}

#[test]
fn chain_is_associative() {
    let a = SingleBias(fx(1));
    let b = Square::<Fixed>::new();
    let c = SingleBias(fx(-4));
    let left = Chain(Chain(a, Square::<Fixed>::new()), c);
    let right = Chain(a, Chain(b, c));
    let input = fx(2);
    let (left_internal, left_output) = left.forward(&input);
    let (right_internal, right_output) = right.forward(&input);
    assert_eq!(left_output, fx(5));
    assert_eq!(left_output, right_output);
    let ((a_internal, a_output, b_internal), b_output, c_internal) = left_internal;
    assert_eq!(right_internal, (a_internal, a_output, (b_internal, b_output, c_internal)));
    let (left_delta, ((a_left, b_left), c_left)) = left.backward(&input, &left_internal, &fx(7));
    let (right_delta, (a_right, (b_right, c_right))) = right.backward(&input, &right_internal, &fx(7));
    assert_eq!(left_delta, fx(42));
    assert_eq!(left_delta, right_delta);
    assert_eq!((a_left, b_left, c_left), (a_right, b_right, c_right));
    assert_eq!((a_left, b_left, c_left), (fx(42), EmptyData, fx(7)));
}

#[test]
fn graph_chain_puts_one_operator_in_front_of_another() {
    let chain = SingleBias(fx(1)).chain(SingleBias(fx(2)));
    assert_eq!((chain.0 .0, chain.1 .0), (fx(1), fx(2)));
    assert_eq!(chain.run(&fx(10)), fx(13));
}

#[test]
fn mapped_gives_updates_that_can_be_summed() {
    let mut mapped = Mapped(SingleBias(fx(1)), SingleBias(fx(2)));
    let (internal, output) = mapped.forward(&fx(10));
    assert_eq!((internal, output), ((EmptyData, fx(11), EmptyData), fx(13)));
    let (input_delta, train_delta) = mapped.backward(&fx(10), &internal, &fx(3));
    assert_eq!(input_delta, fx(3));
    assert_eq!(train_delta, ChainData(fx(3), fx(3)));
    mapped.train(&train_delta);
    assert_eq!((mapped.0 .0, mapped.1 .0), (fx(4), fx(5)));
}

#[test]
fn zip_runs_two_operators_side_by_side() {
    let mut zip = Zip(SingleBias(fx(1)), Square::<Fixed>::new());
    let input = (fx(10), fx(3));
    let (internal, output) = zip.forward(&input);
    assert_eq!((internal, output), ((EmptyData, EmptyData), (fx(11), fx(9))));
    let (input_delta, train_delta) = zip.backward(&input, &internal, &(fx(2), fx(5)));
    assert_eq!(input_delta, (fx(2), fx(30)));
    assert_eq!(train_delta, ChainData(fx(2), EmptyData));
    zip.train(&train_delta);
    assert_eq!(zip.0 .0, fx(3));
}
