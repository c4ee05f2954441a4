use mli::defconv::{bilinear_position_gradient, corners, DefConv2, DefConvData};
use mli::fixed::Fixed;
use mli::operator::{Backward, Forward};
use mli::tensor::{Tensor1, Tensor2};

fn raws(rows: Vec<Vec<i64>>) -> Tensor2<Fixed> {
    Tensor2::from_rows(rows.into_iter().map(|row| row.into_iter().map(Fixed::from_raw).collect()).collect())
        .expect("the rows have one length")
}

/// A grid of numbers given in halves, so that `3` stands for 1.5.
fn halves(rows: &[&[i64]]) -> Tensor2<Fixed> {
    raws(rows.iter().map(|row| row.iter().map(|&n| n * 32768).collect()).collect())
}

/// A grid of numbers given in quarters, so that `5` stands for 1.25.
fn quarters(rows: &[&[i64]]) -> Tensor2<Fixed> {
    raws(rows.iter().map(|row| row.iter().map(|&n| n * 16384).collect()).collect())
}

fn half(n: i64) -> Fixed {
    Fixed::from_raw(n * 32768)
}

#[test]
fn corners_are_floor_and_ceiling() {
    assert_eq!(corners([half(3), half(-1)]), [[1, -1], [1, 0], [2, -1], [2, 0]]);
    assert_eq!(corners([half(4), half(6)]), [[2, 3], [2, 3], [2, 3], [2, 3]]);
}

#[test]
fn corners_outside_the_map_are_left_out() {
    let features = halves(&[&[2, 4], &[6, 8]]);
    let offsets = halves(&[&[0, 0]]);
    let data = DefConvData { features: &features, offsets: &offsets };
    let (found, rc) = data.validate_corners([half(3), half(-1)]);
    assert_eq!(found, [None, Some([1, 0]), None, None]);
    assert_eq!(rc, [half(1), half(1)]);
    assert_eq!(data.extract_corners(found), [half(0), half(6), half(0), half(0)]);
    let (found, rc) = data.validate_corners([half(1), half(1)]);
    assert_eq!(found, [Some([0, 0]), Some([0, 1]), Some([1, 0]), Some([1, 1])]);
    assert_eq!(rc, [half(1), half(1)]);
    assert_eq!(data.extract_corners(found), [half(2), half(4), half(6), half(8)]);
}

#[test]
fn bilinear_reads_cells_exactly_and_pads_with_zeros() {
    let features = halves(&[&[2, 4], &[6, 8]]);
    let offsets = halves(&[&[0, 0]]);
    let data = DefConvData { features: &features, offsets: &offsets };
    for (y, row) in [[2, 4], [6, 8]].iter().enumerate() {
        for (x, &cell) in row.iter().enumerate() {
            assert_eq!(data.bilinear([half(2 * y as i64), half(2 * x as i64)]), half(cell));
        }
    }
    assert_eq!(data.bilinear([half(1), half(1)]), half(5));
    assert_eq!(data.bilinear([half(1), half(3)]), half(3));
    assert_eq!(data.bilinear([half(3), half(1)]), Fixed::from_raw(7 * 16384));
    assert_eq!(data.bilinear([half(3), half(3)]), half(2));
    assert_eq!(data.bilinear([half(-2), half(0)]), half(0));
    assert_eq!(data.bilinear([half(0), half(4)]), half(0));
}

#[test]
fn position_gradient_is_the_difference_along_each_axis() {
    // Corner values 1, 2, 3, 4 at the middle of the cell.
    let slope = bilinear_position_gradient([half(2), half(4), half(6), half(8)], [half(1), half(1)]);
    assert_eq!(slope, [half(4), half(2)]);
    // At a whole place all corners are one cell, and nothing changes with the place.
    let flat = bilinear_position_gradient([half(6), half(6), half(6), half(6)], [half(0), half(0)]);
    assert_eq!(flat, [half(0), half(0)]);
}

#[test]
fn defconv_on_the_cells_copies_the_map() {
    let conv = DefConv2::new(Tensor1::from_vec(vec![half(2)]), [2, 2]);
    let input = (halves(&[&[2, 4], &[6, 8]]), halves(&[&[-1, -1]]));
    let (_, output) = conv.forward(&input);
    assert_eq!(output, raws(vec![vec![65536, 131072], vec![196608, 262144]]));
    let (input_delta, train_delta) = conv.backward(&input, &(), &halves(&[&[2, 2], &[2, 2]]));
    assert_eq!(input_delta.0, raws(vec![vec![65536, 65536], vec![65536, 65536]]));
    assert_eq!(input_delta.1, raws(vec![vec![0, 0]]));
    assert_eq!(train_delta.0, Tensor1::from_vec(vec![Fixed::from_raw(655360)]));
}

#[test]
fn defconv_between_the_cells_interpolates() {
    let conv = DefConv2::new(Tensor1::from_vec(vec![half(4)]), [2, 2]);
    let input = (halves(&[&[2, 4], &[6, 8]]), halves(&[&[0, 0]]));
    let (_, output) = conv.forward(&input);
    // 2 * [2.5, 1.5; 1.75, 1.0]
    assert_eq!(output, quarters(&[&[20, 12], &[14, 8]]));
    assert_eq!(output, raws(vec![vec![327680, 196608], vec![229376, 131072]]));
    let (input_delta, train_delta) = conv.backward(&input, &(), &halves(&[&[2, 0], &[0, 0]]));
    // The first output cell reads all four cells, a quarter of each, with weight 2.
    assert_eq!(input_delta.0, halves(&[&[1, 1], &[1, 1]]));
    assert_eq!(input_delta.0, raws(vec![vec![32768, 32768], vec![32768, 32768]]));
    // The value grows by 2 per row and by 1 per column, times the weight 2.
    assert_eq!(input_delta.1, halves(&[&[8, 4]]));
    assert_eq!(input_delta.1, raws(vec![vec![262144, 131072]]));
    assert_eq!(train_delta.0, Tensor1::from_vec(vec![half(5)]));
    assert_eq!(train_delta.0, Tensor1::from_vec(vec![Fixed::from_raw(163840)]));
}

#[test]
fn defconv_with_two_taps_and_a_coarser_output() {
    let features = halves(&[&[2, 4, 6, 8], &[10, 12, 14, 16], &[18, 20, 22, 24], &[26, 28, 30, 32]]);
    let offsets = quarters(&[&[-2, -2], &[1, -1]]);
    let conv = DefConv2::new(Tensor1::from_vec(vec![half(2), half(-6)]), [2, 2]);
    let input = (features, offsets);
    let (_, output) = conv.forward(&input);
    assert_eq!((output.rows, output.cols), (2, 2));
    assert_eq!(output, raws(vec![vec![-1409024, -1671168], vec![-737280, -802816]]));
    let (input_delta, train_delta) = conv.backward(&input, &(), &halves(&[&[2, 4], &[-2, 1]]));
    assert_eq!((input_delta.0.rows, input_delta.0.cols), (4, 4));
    assert_eq!((input_delta.1.rows, input_delta.1.cols), (2, 2));
    assert_eq!(input_delta.0, raws(vec![vec![65536, 0, 131072, 0], vec![-49152, -49152, -98304, -98304], vec![-114688, -49152, -65536, -98304], vec![49152, 49152, -24576, -24576]]));
    assert_eq!(input_delta.1, raws(vec![vec![0, 0], vec![-6979584, -1081344]]));
    assert_eq!(train_delta.0, Tensor1::from_vec(vec![Fixed::from_raw(229376), Fixed::from_raw(1548288)]));
}

#[test]
fn defconv_without_output_puts_out_nothing() {
    let conv = DefConv2::new(Tensor1::from_vec(vec![half(2)]), [0, 3]);
    let input = (halves(&[&[2, 4], &[6, 8]]), halves(&[&[0, 0]]));
    let (_, output) = conv.forward(&input);
    assert_eq!((output.rows, output.cols, output.data.len()), (0, 3, 0));
}
