use mli::conv::{back_convolve2, back_convolve2n, back_convolve3, convolve2, convolve2n, convolve3};
use mli::conv2::Conv2;
use mli::conv2n::Conv2n;
use mli::conv3::Conv3;
use mli::delta::EmptyData;
use mli::fixed::Fixed;
use mli::operator::{Backward, Forward, Train};
use mli::tensor::{Tensor2, Tensor3};

fn fx(n: i64) -> Fixed {
    Fixed::from_raw(n * 65536)
}

fn grid(rows: &[&[i64]]) -> Tensor2<Fixed> {
    Tensor2::from_rows(rows.iter().map(|row| row.iter().map(|&n| fx(n)).collect()).collect())
        .expect("the rows have one length")
}

fn ints(tensor: &Tensor2<Fixed>) -> Vec<Vec<i64>> {
    tensor.data.iter().map(|row| row.iter().map(|cell| cell.raw / 65536).collect()).collect()
}

#[test]
fn conv2_three_by_three_with_ones() {
    let input = grid(&[&[1, 2, 3], &[4, 5, 6], &[7, 8, 9]]);
    let filter = grid(&[&[1, 1], &[1, 1]]);
    let conv = Conv2::new(filter);
    let (internal, output) = conv.forward(&input);
    assert_eq!(internal, EmptyData);
    assert_eq!(ints(&output), vec![vec![12, 16], vec![24, 28]]);
}

#[test]
fn conv2_backward_counts_filter_uses() {
    let input = grid(&[&[1, 1, 1], &[1, 1, 1], &[1, 1, 1]]);
    let conv = Conv2::new(grid(&[&[1, 1], &[1, 1]]));
    let delta = grid(&[&[1, 1], &[1, 1]]);
    let (input_delta, train_delta) = conv.backward(&input, &EmptyData, &delta);
    assert_eq!(ints(&train_delta.0), vec![vec![4, 4], vec![4, 4]]);
    assert_eq!(ints(&input_delta), vec![vec![1, 2, 1], vec![2, 4, 2], vec![1, 2, 1]]);
}

#[test]
fn conv2_train_adds_the_update() {
    let input = grid(&[&[1, 2, 3], &[4, 5, 6], &[7, 8, 9]]);
    let mut conv = Conv2::new(grid(&[&[1, 0], &[0, -1]]));
    let delta = grid(&[&[1, 0], &[0, 0]]);
    let (_, train_delta) = conv.backward(&input, &EmptyData, &delta);
    assert_eq!(ints(&train_delta.0), vec![vec![1, 2], vec![4, 5]]);
    conv.train(&train_delta);
    assert_eq!(ints(&conv.0), vec![vec![2, 2], vec![4, 4]]);
}

#[test]
fn convolve2_is_not_flipped() {
    let signal = grid(&[&[1, 2], &[3, 4]]);
    let filter = grid(&[&[1, 10], &[100, 1000]]);
    assert_eq!(ints(&convolve2(&signal, &filter)), vec![vec![4321]]);
}

fn cube(planes: &[&[&[i64]]]) -> Tensor3<Fixed> {
    Tensor3::from_planes(
        planes
            .iter()
            .map(|plane| plane.iter().map(|row| row.iter().map(|&n| fx(n)).collect()).collect())
            .collect(),
    )
    .expect("the planes have one shape")
}

fn ints3(tensor: &Tensor3<Fixed>) -> Vec<Vec<Vec<i64>>> {
    tensor
        .data
        .iter()
        .map(|plane| plane.iter().map(|row| row.iter().map(|cell| cell.raw / 65536).collect()).collect())
        .collect()
}

#[test]
fn conv2_shapes_for_every_filter_size() {
    for k in 1..=7usize {
        for n in k..=9usize {
            let input = Tensor2::filled(n, n + 1, fx(1));
            let conv = Conv2::new(Tensor2::filled(k, k, fx(1)));
            let (_, output) = conv.forward(&input);
            assert_eq!((output.rows, output.cols), (n - k + 1, n + 2 - k));
            assert!(output.data.iter().all(|row| row.len() == n + 2 - k));
            assert_eq!(output.data[0][0], fx((k * k) as i64));
            if k >= 2 {
                let (input_delta, train_delta) = conv.backward(&input, &EmptyData, &output);
                assert_eq!((input_delta.rows, input_delta.cols), (n, n + 1));
                assert_eq!((train_delta.0.rows, train_delta.0.cols), (k, k));
            }
        }
    }
}

#[test]
fn back_convolve2_pads_and_flips() {
    let delta = grid(&[&[1, 2]]);
    let filter = grid(&[&[1, 10], &[100, 1000]]);
    // Every cell of the gradient spreads the filter over the input cells that it read.
    assert_eq!(ints(&back_convolve2(&delta, &filter)), vec![vec![1, 12, 20], vec![100, 1200, 2000]]);
}

#[test]
fn convolve3_sums_blocks() {
    let signal = cube(&[&[&[1, 2], &[3, 4]], &[&[5, 6], &[7, 8]]]);
    let ones = cube(&[&[&[1, 1], &[1, 1]], &[&[1, 1], &[1, 1]]]);
    assert_eq!(ints3(&convolve3(&signal, &ones)), vec![vec![vec![36]]]);
    let picks = cube(&[&[&[1, 10]], &[&[100, 1000]]]);
    assert_eq!(ints3(&convolve3(&signal, &picks)), vec![vec![vec![6521], vec![8743]]]);
}

#[test]
fn conv3_forward_and_backward() {
    let input = cube(&[&[&[1, 2], &[3, 4]], &[&[5, 6], &[7, 8]]]);
    let mut conv = Conv3::new(cube(&[&[&[1, 1], &[1, 1]], &[&[1, 1], &[1, 1]]]));
    let (internal, output) = conv.forward(&input);
    assert_eq!(internal, EmptyData);
    assert_eq!(ints3(&output), vec![vec![vec![36]]]);
    let delta = cube(&[&[&[2]]]);
    let (input_delta, train_delta) = conv.backward(&input, &EmptyData, &delta);
    assert_eq!(ints3(&input_delta), vec![vec![vec![2, 2], vec![2, 2]], vec![vec![2, 2], vec![2, 2]]]);
    assert_eq!(
        ints3(&train_delta.0),
        vec![vec![vec![2, 4], vec![6, 8]], vec![vec![10, 12], vec![14, 16]]]
    );
    conv.train(&train_delta);
    assert_eq!(ints3(&conv.0), vec![vec![vec![3, 5], vec![7, 9]], vec![vec![11, 13], vec![15, 17]]]);
}

#[test]
fn back_convolve3_flips_all_axes() {
    let delta = cube(&[&[&[1]]]);
    let filter = cube(&[&[&[1, 2], &[3, 4]], &[&[5, 6], &[7, 8]]]);
    assert_eq!(
        ints3(&back_convolve3(&delta, &filter)),
        vec![vec![vec![1, 2], vec![3, 4]], vec![vec![5, 6], vec![7, 8]]]
    );
}

#[test]
fn convolve2n_stacks_one_map_per_filter() {
    let signal = grid(&[&[1, 2, 3], &[4, 5, 6], &[7, 8, 9]]);
    let filters = cube(&[&[&[1, 0], &[0, 0]], &[&[0, 0], &[0, 1]], &[&[1, 1], &[1, 1]]]);
    assert_eq!(
        ints3(&convolve2n(&signal, &filters)),
        vec![
            vec![vec![1, 2], vec![4, 5]],
            vec![vec![5, 6], vec![8, 9]],
            vec![vec![12, 16], vec![24, 28]]
        ]
    );
}

#[test]
fn conv2n_forward_and_backward() {
    let input = grid(&[&[1, 2, 3], &[4, 5, 6], &[7, 8, 9]]);
    let mut conv = Conv2n::new(cube(&[&[&[1, 0], &[0, 0]], &[&[0, 0], &[0, 1]]]));
    let (_, output) = conv.forward(&input);
    assert_eq!(ints3(&output), vec![vec![vec![1, 2], vec![4, 5]], vec![vec![5, 6], vec![8, 9]]]);
    let delta = cube(&[&[&[1, 0], &[0, 0]], &[&[0, 0], &[0, 1]]]);
    let (input_delta, train_delta) = conv.backward(&input, &(), &delta);
    assert_eq!(ints(&input_delta), vec![vec![1, 0, 0], vec![0, 0, 0], vec![0, 0, 1]]);
    assert_eq!(
        ints3(&train_delta.0),
        vec![vec![vec![1, 2], vec![4, 5]], vec![vec![5, 6], vec![8, 9]]]
    );
    conv.train(&train_delta);
    assert_eq!(ints3(&conv.0), vec![vec![vec![2, 2], vec![4, 5]], vec![vec![5, 6], vec![8, 10]]]);
}

#[test]
fn back_convolve2n_sums_over_the_stack() {
    let delta = cube(&[&[&[1]], &[&[10]]]);
    let filters = cube(&[&[&[1, 2], &[3, 4]], &[&[5, 6], &[7, 8]]]);
    assert_eq!(ints(&back_convolve2n(&delta, &filters)), vec![vec![51, 62], vec![73, 84]]);
}

#[test]
fn conv2_run_and_propogate() {
    let input = grid(&[&[1, 2, 3], &[4, 5, 6], &[7, 8, 9]]);
    let mut conv = Conv2::new(grid(&[&[1, 1], &[1, 1]]));
    assert_eq!(ints(&conv.run(&input)), vec![vec![12, 16], vec![24, 28]]);
    let delta = grid(&[&[1, 0], &[0, 0]]);
    assert_eq!(ints(&conv.backward_train(&input, &EmptyData, &delta).0), vec![vec![1, 2], vec![4, 5]]);
    let input_delta = conv.backward_input(&input, &EmptyData, &delta);
    assert_eq!(ints(&input_delta), vec![vec![1, 1, 0], vec![1, 1, 0], vec![0, 0, 0]]);
    let sent = conv.propogate(&input, &EmptyData, &delta);
    assert_eq!(sent, input_delta);
    assert_eq!(ints(&conv.0), vec![vec![2, 3], vec![5, 6]]);
}
