use mli::activation::{blu, dblu_da, dblu_db, dblu_dx, heaviside, relu, Abs, Blu, Relu, SingleBias, Square};
use mli::bias::{Bias, Bias1, Variable, Weight};
use mli::delta::{ChainData, EmptyData};
use mli::fixed::Fixed;
use mli::norm::{ratio, sum_cells, sum_products, LayerNorm, RmsNorm};
use mli::operator::{Backward, Forward, Train};
use mli::reshape::Reshape3to2;
use mli::residual::ResidualBlock1;
use mli::tensor::{Array, Tensor1, Tensor2, Tensor3};

fn fx(n: i64) -> Fixed {
    Fixed::from_raw(n * 65536)
}

fn raw(n: i64) -> Fixed {
    Fixed::from_raw(n)
}

fn line(cells: &[i64]) -> Tensor1<Fixed> {
    Tensor1::from_vec(cells.iter().map(|&n| fx(n)).collect())
}

fn flat(cells: &[i64]) -> Array<Fixed, [usize; 1]> {
    Array::new([cells.len()], cells.iter().map(|&n| fx(n)).collect())
}

#[test]
fn relu_is_zero_below_zero() {
    assert_eq!((relu(fx(-3)), relu(fx(0)), relu(fx(3))), (fx(0), fx(0), fx(3)));
    assert_eq!((heaviside(fx(-3)), heaviside(fx(0)), heaviside(fx(3))), (fx(0), fx(1), fx(1)));
    let mut op = Relu::<Fixed>::new();
    assert_eq!(op.forward(&fx(-3)), (EmptyData, fx(0)));
    assert_eq!(op.forward(&fx(3)), (EmptyData, fx(3)));
    assert_eq!(op.backward(&fx(-3), &EmptyData, &fx(5)), (fx(0), EmptyData));
    assert_eq!(op.backward(&fx(3), &EmptyData, &fx(5)), (fx(5), EmptyData));
    op.train(&EmptyData);
}

#[test]
fn abs_drops_the_sign() {
    let mut op = Abs::<Fixed>::new();
    assert_eq!(op.forward(&fx(-3)), (EmptyData, fx(3)));
    assert_eq!(op.forward(&fx(3)), (EmptyData, fx(3)));
    assert_eq!(op.backward(&fx(-3), &EmptyData, &fx(5)), (fx(-5), EmptyData));
    assert_eq!(op.backward(&fx(0), &EmptyData, &fx(5)), (fx(5), EmptyData));
    op.train(&EmptyData);
}

#[test]
fn square_sends_back_twice_the_input() {
    let mut op = Square::<Fixed>::new();
    assert_eq!(op.forward(&fx(-3)), (EmptyData, fx(9)));
    assert_eq!(op.backward(&fx(-3), &EmptyData, &fx(5)), (fx(-30), EmptyData));
    op.train(&EmptyData);
}

#[test]
fn single_bias_learns_the_gradient() {
    let mut op = SingleBias(fx(2));
    assert_eq!(op.forward(&fx(5)), (EmptyData, fx(7)));
    assert_eq!(op.backward(&fx(5), &EmptyData, &fx(-3)), (fx(-3), fx(-3)));
    op.train(&fx(-3));
    assert_eq!(op.0, fx(-1));
}

#[test]
fn blu_bends_around_zero() {
    assert_eq!(ratio::<Fixed>(1, 1000), raw(65));
    assert_eq!(blu(fx(3), fx(2), fx(4)), raw(524300));
    assert_eq!(dblu_dx(fx(3), fx(2), fx(4)), raw(170391));
    assert_eq!(dblu_da(fx(3), fx(2), fx(4)), raw(-52432));
    assert_eq!(dblu_db(fx(3), fx(4)), raw(131078));
    let mut op = Blu::new(fx(3), fx(2));
    assert_eq!(op.forward(&fx(4)), (EmptyData, raw(524300)));
    let (input_delta, train_delta) = op.backward(&fx(4), &EmptyData, &fx(5));
    assert_eq!(input_delta, raw(851955));
    assert_eq!(train_delta, ChainData(raw(-262160), raw(655390)));
    op.train(&train_delta);
    assert_eq!((op.alpha, op.beta), (raw(-65552), raw(786462)));
}

#[test]
fn bias_adds_and_weight_multiplies() {
    let mut bias = Bias::new(flat(&[1, 2, 3]));
    let input = flat(&[10, 20, 30]);
    assert_eq!(bias.forward(&input), (EmptyData, flat(&[11, 22, 33])));
    let (input_delta, train_delta) = bias.backward(&input, &EmptyData, &flat(&[1, 0, -1]));
    assert_eq!((input_delta, &train_delta.0), (flat(&[1, 0, -1]), &flat(&[1, 0, -1])));
    bias.train(&train_delta);
    assert_eq!(bias.0, flat(&[2, 2, 2]));

    let mut weight = Weight::new(flat(&[1, 2, 3]));
    assert_eq!(weight.forward(&input), (EmptyData, flat(&[10, 40, 90])));
    let (input_delta, train_delta) = weight.backward(&input, &EmptyData, &flat(&[1, 0, -1]));
    assert_eq!((input_delta, &train_delta.0), (flat(&[1, 0, -3]), &flat(&[10, 0, -30])));
    weight.train(&train_delta);
    assert_eq!(weight.0, flat(&[11, 2, -27]));
}

#[test]
fn bias1_adds_to_a_line() {
    let mut bias = Bias1::new(line(&[1, 2]));
    assert_eq!(bias.forward(&line(&[10, 20])), ((), line(&[11, 22])));
    let (input_delta, train_delta) = bias.backward(&line(&[10, 20]), &(), &line(&[5, 6]));
    assert_eq!((input_delta, &train_delta.0), (line(&[5, 6]), &line(&[5, 6])));
    bias.train(&train_delta);
    assert_eq!(bias.0, line(&[6, 8]));
}

#[test]
fn variable_puts_itself_out() {
    let mut variable = Variable(flat(&[1, 2]));
    assert_eq!(variable.forward(&EmptyData), (EmptyData, flat(&[1, 2])));
    let (input_delta, train_delta) = variable.backward(&EmptyData, &EmptyData, &flat(&[5, 6]));
    assert_eq!((input_delta, &train_delta.0), (EmptyData, &flat(&[5, 6])));
    variable.train(&train_delta);
    assert_eq!(variable.0, flat(&[6, 8]));
}

#[test]
fn residual_block_adds_the_shortcut() {
    let mut block = ResidualBlock1::new(Bias1::new(line(&[1, 2])));
    let input = line(&[10, 20]);
    let (internal, output) = block.forward(&input);
    assert_eq!(output, line(&[21, 42]));
    let (input_delta, train_delta) = block.backward(&input, &internal, &line(&[5, 6]));
    assert_eq!((input_delta, &train_delta.0), (line(&[10, 12]), &line(&[5, 6])));
    block.train(&train_delta);
    assert_eq!(block.0 .0, line(&[6, 8]));
}

#[test]
fn reshape_drops_and_restores_the_leading_axis() {
    let mut reshape = Reshape3to2::<Fixed>::new();
    let input = Tensor3::from_planes(vec![vec![vec![fx(1), fx(2)], vec![fx(3), fx(4)]]]).unwrap();
    let plane = Tensor2::from_rows(vec![vec![fx(1), fx(2)], vec![fx(3), fx(4)]]).unwrap();
    assert_eq!(reshape.forward(&input), ((), plane));
    let delta = Tensor2::from_rows(vec![vec![fx(5), fx(6)], vec![fx(7), fx(8)]]).unwrap();
    let (input_delta, train_delta) = reshape.backward(&input, &(), &delta);
    assert_eq!((input_delta.depth, input_delta.rows, input_delta.cols), (1, 2, 2));
    assert_eq!(input_delta.data, vec![delta.data.clone()]);
    assert_eq!(train_delta, EmptyData);
    reshape.train(&EmptyData);
    let default: Reshape3to2<Fixed> = Default::default();
    assert_eq!(default.forward(&input).1.data, input.data[0]);
}

#[test]
fn sums_run_from_zero_in_order() {
    let cells = vec![fx(1), fx(2), fx(3)];
    assert_eq!(sum_cells(&cells), fx(6));
    assert_eq!(sum_products(&cells, &vec![fx(1), fx(10), fx(100)]), fx(321));
    assert_eq!(sum_cells::<Fixed>(&vec![]), fx(0));
    // A sum that saturates on the way does not come back.
    let big = vec![raw(i64::MAX), raw(1), raw(-1)];
    assert_eq!(sum_cells(&big), raw(i64::MAX - 1));
}

#[test]
fn layer_norm_normalises_and_applies_its_line() {
    let mut norm: LayerNorm<Fixed, [usize; 1]> = LayerNorm::new_with_params(fx(2), raw(32768));
    let input = flat(&[3, -3, 1, -1]);
    let (internal, output) = norm.forward(&input);
    assert_eq!(internal.data, vec![raw(87924), raw(-87924), raw(29308), raw(-29308)]);
    assert_eq!(output.data, vec![raw(208616), raw(-143080), raw(91384), raw(-25848)]);
    assert_eq!(output.shape, [4]);
    let (input_delta, train_delta) = norm.backward(&input, &internal, &flat(&[1, 0, -1, 3]));
    assert_eq!(input_delta.data, vec![raw(52429), raw(-117964), raw(-222822), raw(288359)]);
    assert_eq!(train_delta, ChainData(raw(-29308), raw(196608)));
    norm.train(&train_delta);
    assert_eq!((norm.gamma, norm.beta), (raw(101764), raw(229376)));
}

#[test]
fn layer_norm_starts_as_the_identity_line() {
    let norm: LayerNorm<Fixed, [usize; 1]> = LayerNorm::new();
    assert_eq!((norm.gamma, norm.beta), (fx(1), fx(0)));
    let default: LayerNorm<Fixed, [usize; 1]> = Default::default();
    assert_eq!((default.gamma, default.beta), (fx(1), fx(0)));
}

#[test]
fn rms_norm_divides_by_the_root_mean_square() {
    let mut norm: RmsNorm<Fixed, [usize; 1]> = RmsNorm::new();
    let input = flat(&[3, -3, 1, -1]);
    let (internal, output) = norm.forward(&input);
    assert_eq!(internal, ChainData(raw(29308), raw(16384)));
    assert_eq!(output.data, vec![raw(87924), raw(-87924), raw(29308), raw(-29308)]);
    let (input_delta, train_delta) = norm.backward(&input, &internal, &flat(&[1, 0, -1, 3]));
    assert_eq!(input_delta.data, vec![raw(33703), raw(-4395), raw(-27843), raw(86459)]);
    assert_eq!(train_delta, EmptyData);
    norm.train(&EmptyData);
    let default: RmsNorm<Fixed, [usize; 1]> = Default::default();
    assert_eq!(default.forward(&input).1.data, vec![raw(87924), raw(-87924), raw(29308), raw(-29308)]);
}
