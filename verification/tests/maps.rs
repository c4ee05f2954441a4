use mli::activation::{Relu, SingleBias, Square};
use mli::delta::{Delta, DeltaUnit, EmptyData};
use mli::fixed::Fixed;
use mli::map1::{Map1One, Map1Static};
use mli::map2::{Map2Many, Map2One, Map2Static};
use mli::map3::{Map3Many, Map3One, Map3Static};
use mli::mapd::{MapMany, MapOne, MapStatic};
use mli::operator::{Backward, Forward, Train};
use mli::tensor::{Array, Tensor1, Tensor2, Tensor3};

fn fx(n: i64) -> Fixed {
    Fixed::from_raw(n * 65536)
}

fn line(cells: &[i64]) -> Tensor1<Fixed> {
    Tensor1::from_vec(cells.iter().map(|&n| fx(n)).collect())
}

fn grid(rows: &[&[i64]]) -> Tensor2<Fixed> {
    Tensor2::from_rows(rows.iter().map(|row| row.iter().map(|&n| fx(n)).collect()).collect())
        .expect("the rows have one length")
}

fn cube(planes: &[&[&[i64]]]) -> Tensor3<Fixed> {
    Tensor3::from_planes(
        planes
            .iter()
            .map(|plane| plane.iter().map(|row| row.iter().map(|&n| fx(n)).collect()).collect())
            .collect(),
    )
    .expect("the planes have one shape")
}

fn flat(shape: [usize; 2], cells: &[i64]) -> Array<Fixed, [usize; 2]> {
    Array::new(shape, cells.iter().map(|&n| fx(n)).collect())
}

#[test]
fn map1_one_sums_the_updates_of_the_cells() {
    let mut map = Map1One(SingleBias(fx(10)));
    let input = line(&[1, 2, 3]);
    let (internal, output) = map.forward(&input);
    assert_eq!(output, line(&[11, 12, 13]));
    assert_eq!(internal.data, vec![EmptyData; 3]);
    let delta = line(&[1, 20, 300]);
    let (input_delta, train_delta) = map.backward(&input, &internal, &delta);
    assert_eq!(input_delta, delta);
    assert_eq!(train_delta, fx(321));
    map.train(&train_delta);
    assert_eq!(map.0 .0, fx(331));
}

#[test]
fn map1_one_update_is_the_sum_of_single_cell_updates() {
    let shared = SingleBias(fx(-4));
    let input = line(&[5, 6, 7, 8]);
    let delta = line(&[2, -3, 5, 7]);
    let singles = (0..4).map(|i| shared.backward(&input.data[i], &EmptyData, &delta.data[i]).1);
    let sum = singles.fold(<Fixed as DeltaUnit>::zero(), Delta::add);
    let map = Map1One(shared);
    let (internal, _) = map.forward(&input);
    assert_eq!(map.backward(&input, &internal, &delta).1, sum);
    assert_eq!(sum, fx(11));
}

#[test]
fn map1_one_over_nothing_gives_the_zero_update() {
    let map = Map1One(SingleBias(fx(1)));
    let input = line(&[]);
    let (internal, output) = map.forward(&input);
    assert_eq!(output, line(&[]));
    assert_eq!(map.backward(&input, &internal, &line(&[])).1, fx(0));
}

#[test]
fn map1_static_has_nothing_to_train() {
    let mut map = Map1Static(Relu::<Fixed>::new());
    let input = line(&[-2, 0, 3]);
    let (internal, output) = map.forward(&input);
    assert_eq!((internal, output), (EmptyData, line(&[0, 0, 3])));
    let (input_delta, train_delta) = map.backward(&input, &EmptyData, &line(&[5, 6, 7]));
    assert_eq!((input_delta, train_delta), (line(&[0, 6, 7]), EmptyData));
    map.train(&EmptyData);
    assert_eq!(map.forward(&input).1, line(&[0, 0, 3]));
}

#[test]
fn map2_one_keeps_the_shape_and_sums_in_storage_order() {
    let mut map = Map2One(SingleBias(fx(1)));
    let input = grid(&[&[1, 2, 3], &[4, 5, 6]]);
    let (internal, output) = map.forward(&input);
    assert_eq!(output, grid(&[&[2, 3, 4], &[5, 6, 7]]));
    assert_eq!((internal.rows, internal.cols), (2, 3));
    let delta = grid(&[&[1, 1, 1], &[10, 10, 10]]);
    let (input_delta, train_delta) = map.backward(&input, &internal, &delta);
    assert_eq!(input_delta, delta);
    assert_eq!(train_delta, fx(33));
    map.train(&train_delta);
    assert_eq!(map.0 .0, fx(34));
}

#[test]
fn map2_static_squares_every_cell() {
    let map = Map2Static(Square::<Fixed>::new());
    let input = grid(&[&[1, -2], &[3, 0]]);
    let (_, output) = map.forward(&input);
    assert_eq!(output, grid(&[&[1, 4], &[9, 0]]));
    let (input_delta, train_delta) = map.backward(&input, &EmptyData, &grid(&[&[1, 1], &[2, 5]]));
    assert_eq!((input_delta, train_delta), (grid(&[&[2, -4], &[12, 0]]), EmptyData));
}

#[test]
fn map2_many_trains_every_operator_with_its_own_update() {
    let ops = Tensor2::from_rows(vec![
        vec![SingleBias(fx(1)), SingleBias(fx(2))],
        vec![SingleBias(fx(3)), SingleBias(fx(4))],
    ])
    .unwrap();
    let mut map = Map2Many(ops);
    let input = grid(&[&[10, 20], &[30, 40]]);
    let (internal, output) = map.forward(&input);
    assert_eq!(output, grid(&[&[11, 22], &[33, 44]]));
    let delta = grid(&[&[1, 2], &[3, 4]]);
    let (input_delta, train_delta) = map.backward(&input, &internal, &delta);
    assert_eq!(input_delta, delta);
    assert_eq!(train_delta.0, delta);
    map.train(&train_delta);
    let biases: Vec<Vec<Fixed>> = map.0.data.iter().map(|row| row.iter().map(|op| op.0).collect()).collect();
    assert_eq!(biases, grid(&[&[2, 4], &[6, 8]]).data);
}

#[test]
fn map3_adapters_keep_the_shape() {
    let input = cube(&[&[&[1, -2]], &[&[-3, 4]]]);
    let one = Map3One(SingleBias(fx(1)));
    let (internal, output) = one.forward(&input);
    assert_eq!(output, cube(&[&[&[2, -1]], &[&[-2, 5]]]));
    let (input_delta, train_delta) = one.backward(&input, &internal, &input);
    assert_eq!((input_delta, train_delta), (cube(&[&[&[1, -2]], &[&[-3, 4]]]), fx(0)));
    let fixed = Map3Static(Relu::<Fixed>::new());
    assert_eq!(fixed.forward(&input).1, cube(&[&[&[1, 0]], &[&[0, 4]]]));
    let sent = fixed.backward(&input, &EmptyData, &cube(&[&[&[5, 6]], &[&[7, 8]]])).0;
    assert_eq!(sent, cube(&[&[&[5, 0]], &[&[0, 8]]]));
    let ops = Tensor3::from_planes(vec![
        vec![vec![SingleBias(fx(1)), SingleBias(fx(2))]],
        vec![vec![SingleBias(fx(3)), SingleBias(fx(4))]],
    ])
    .unwrap();
    let mut many = Map3Many(ops);
    let (internal, output) = many.forward(&input);
    assert_eq!(output, cube(&[&[&[2, 0]], &[&[0, 8]]]));
    let (_, train_delta) = many.backward(&input, &internal, &input);
    assert_eq!(train_delta.0, cube(&[&[&[1, -2]], &[&[-3, 4]]]));
    many.train(&train_delta);
    assert_eq!(many.0.data[1][0][1].0, fx(8));
    assert_eq!(many.0.data[0][0][1].0, fx(0));
}

#[test]
fn map_adapters_of_any_rank_keep_the_shape() {
    let input = flat([2, 2], &[1, -2, 3, -4]);
    let mut one: MapOne<SingleBias<Fixed>, [usize; 2]> = MapOne::new(SingleBias(fx(1)));
    let (internal, output) = one.forward(&input);
    assert_eq!(output, flat([2, 2], &[2, -1, 4, -3]));
    let (input_delta, train_delta) = one.backward(&input, &internal, &input);
    assert_eq!((input_delta, train_delta), (flat([2, 2], &[1, -2, 3, -4]), fx(-2)));
    one.train(&train_delta);
    assert_eq!(one.0 .0, fx(-1));

    let mut fixed: MapStatic<SingleBias<Fixed>, [usize; 2]> = MapStatic::new(SingleBias(fx(1)));
    let (internal, output) = fixed.forward(&input);
    assert_eq!(output, flat([2, 2], &[2, -1, 4, -3]));
    let (input_delta, train_delta) = fixed.backward(&input, &internal, &input);
    assert_eq!((input_delta, train_delta), (flat([2, 2], &[1, -2, 3, -4]), EmptyData));
    fixed.train(&EmptyData);
    assert_eq!(fixed.0 .0, fx(1));

    let ops = Array::new([2usize, 2], (1..=4).map(|n| SingleBias(fx(n))).collect());
    let mut many = MapMany::new(ops);
    let (internal, output) = many.forward(&input);
    assert_eq!(output, flat([2, 2], &[2, 0, 6, 0]));
    let (_, train_delta) = many.backward(&input, &internal, &input);
    assert_eq!(train_delta, flat([2, 2], &[1, -2, 3, -4]));
    many.train(&train_delta);
    let biases: Vec<Fixed> = many.0.data.iter().map(|op| op.0).collect();
    assert_eq!(biases, vec![fx(2), fx(0), fx(6), fx(0)]);
}
