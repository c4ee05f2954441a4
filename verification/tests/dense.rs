use mli::delta::EmptyData;
use mli::dense::{Dense1, Dense2};
use mli::fixed::Fixed;
use mli::operator::{Backward, Forward, Train};
use mli::tensor::{Tensor1, Tensor2, Tensor3};

fn fx(n: i64) -> Fixed {
    Fixed::from_raw(n * 65536)
}

fn line(cells: &[i64]) -> Tensor1<Fixed> {
    Tensor1::from_vec(cells.iter().map(|&n| fx(n)).collect())
}

fn grid(rows: &[&[i64]]) -> Tensor2<Fixed> {
    Tensor2::from_rows(rows.iter().map(|row| row.iter().map(|&n| fx(n)).collect()).collect())
        .expect("the rows have one length")
}

fn cube(planes: &[&[&[i64]]]) -> Tensor3<Fixed> {
    Tensor3::from_planes(
        planes
            .iter()
            .map(|plane| plane.iter().map(|row| row.iter().map(|&n| fx(n)).collect()).collect())
            .collect(),
    )
    .expect("the planes have one shape")
}

#[test]
fn dense1_weighs_the_input() {
    let mut layer = Dense1::new(grid(&[&[1, 2, 3], &[4, 5, 6]]));
    let input = line(&[1, 0, -1]);
    let (internal, output) = layer.forward(&input);
    assert_eq!(internal, EmptyData);
    assert_eq!(output, line(&[-2, -2]));
    let (input_delta, train_delta) = layer.backward(&input, &EmptyData, &line(&[1, 2]));
    assert_eq!(input_delta, line(&[9, 12, 15]));
    assert_eq!(train_delta.0, grid(&[&[1, 0, -1], &[2, 0, -2]]));
    layer.train(&train_delta);
    assert_eq!(layer.0, grid(&[&[2, 2, 2], &[6, 5, 4]]));
}

#[test]
fn dense1_without_units_puts_out_nothing() {
    let layer = Dense1::new(Tensor2::<Fixed>::from_rows(vec![]).unwrap());
    let (_, output) = layer.forward(&line(&[]));
    assert_eq!(output, line(&[]));
}

#[test]
fn dense2_weighs_the_input() {
    let mut layer = Dense2::new(cube(&[&[&[1, 0], &[0, 1]], &[&[1, 1], &[1, 1]]]));
    let input = grid(&[&[1, 2], &[3, 4]]);
    let (_, output) = layer.forward(&input);
    assert_eq!(output, line(&[5, 10]));
    let (input_delta, train_delta) = layer.backward(&input, &EmptyData, &line(&[1, -1]));
    assert_eq!(input_delta, grid(&[&[0, -1], &[-1, 0]]));
    assert_eq!(train_delta.0, cube(&[&[&[1, 2], &[3, 4]], &[&[-1, -2], &[-3, -4]]]));
    layer.train(&train_delta);
    assert_eq!(layer.0, cube(&[&[&[2, 2], &[3, 5]], &[&[0, -1], &[-2, -3]]]));
}
