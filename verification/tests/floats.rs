use mli::conv2::Conv2;
use mli::conv3::Conv3;
use mli::defconv::{DefConv2, DefConvData};
use mli::delta::EmptyData;
use mli::operator::{Backward, Forward};
use mli::scalar::{Real, Scalar};
use mli::tensor::{Tensor1, Tensor2, Tensor3};

/// A single-precision float as a number of the library.
#[derive(Clone, Copy, Debug, PartialEq)]
struct F(f32);

impl Scalar for F {
    fn zero_spec() -> F {
        F(0.0)
    }

    fn one_spec() -> F {
        F(1.0)
    }

    fn add_spec(self, rhs: F) -> F {
        F(self.0 + rhs.0)
    }

    fn sub_spec(self, rhs: F) -> F {
        F(self.0 - rhs.0)
    }

    fn mul_spec(self, rhs: F) -> F {
        F(self.0 * rhs.0)
    }

    fn lt_spec(self, rhs: F) -> bool {
        self.0 < rhs.0
    }

    fn sign_positive_spec(self) -> bool {
        self.0.is_sign_positive()
    }

    fn zero() -> F {
        F::zero_spec()
    }

    fn one() -> F {
        F::one_spec()
    }

    fn add(self, rhs: F) -> F {
        self.add_spec(rhs)
    }

    fn sub(self, rhs: F) -> F {
        self.sub_spec(rhs)
    }

    fn mul(self, rhs: F) -> F {
        self.mul_spec(rhs)
    }

    fn lt(self, rhs: F) -> bool {
        self.lt_spec(rhs)
    }

    fn is_sign_positive(self) -> bool {
        self.sign_positive_spec()
    }
}

impl Real for F {
    fn half_spec() -> F {
        F(0.5)
    }

    fn from_index_spec(index: usize) -> F {
        F(index as f32)
    }

    fn from_whole_spec(whole: i64) -> F {
        F(whole as f32)
    }

    fn div_spec(self, rhs: F) -> F {
        F(self.0 / rhs.0)
    }

    fn sqrt_spec(self) -> F {
        F(self.0.sqrt())
    }

    fn floor_spec(self) -> i64 {
        self.0.floor() as i64
    }

    fn ceil_spec(self) -> i64 {
        self.0.ceil() as i64
    }

    fn half() -> F {
        F::half_spec()
    }

    fn from_index(index: usize) -> F {
        F::from_index_spec(index)
    }

    fn from_whole(whole: i64) -> F {
        F::from_whole_spec(whole)
    }

    fn div(self, rhs: F) -> F {
        self.div_spec(rhs)
    }

    fn sqrt(self) -> F {
        self.sqrt_spec()
    }

    fn floor(self) -> i64 {
        self.floor_spec()
    }

    fn ceil(self) -> i64 {
        self.ceil_spec()
    }
}

fn grid(rows: &[&[f32]]) -> Tensor2<F> {
    Tensor2::from_rows(rows.iter().map(|row| row.iter().map(|&n| F(n)).collect()).collect())
        .expect("the rows have one length")
}

fn floats(tensor: &Tensor2<F>) -> Vec<Vec<f32>> {
    tensor.data.iter().map(|row| row.iter().map(|cell| cell.0).collect()).collect()
}

#[test]
fn float_conv2_sums_windows() {
    let input = grid(&[&[0.5, 1.5, 2.5], &[3.5, 4.5, 5.5], &[6.5, 7.5, 8.5]]);
    let conv = Conv2::new(grid(&[&[1.0, 1.0], &[1.0, 1.0]]));
    let (_, output) = conv.forward(&input);
    assert_eq!(floats(&output), vec![vec![10.0, 14.0], vec![22.0, 26.0]]);
}

#[test]
fn float_conv2_gradient_matches_finite_differences() {
    let input = grid(&[&[0.5, -1.0, 2.0], &[1.5, 0.25, -0.75], &[3.0, 1.0, 0.5]]);
    let filter = [[0.5f32, -1.5], [2.0, 0.25]];
    let conv = Conv2::new(grid(&[&filter[0], &filter[1]]));
    let delta = grid(&[&[1.0, 0.0], &[0.0, 0.0]]);
    let (input_delta, train_delta) = conv.backward(&input, &EmptyData, &delta);
    // The first output cell is the sum of input[r][c] * filter[r][c] over the first window.
    let first = |rows: &Tensor2<F>, with: &Conv2<F>| with.forward(rows).1.data[0][0].0;
    let step = 0.01f32;
    for r in 0..2 {
        for c in 0..2 {
            let mut moved = filter;
            moved[r][c] += step;
            let other = Conv2::new(grid(&[&moved[0], &moved[1]]));
            let estimate = (first(&input, &other) - first(&input, &conv)) / step;
            assert!((estimate - train_delta.0.data[r][c].0).abs() < 1e-3 * (1.0 + estimate.abs()));
        }
    }
    for r in 0..3 {
        for c in 0..3 {
            let mut cells = floats(&input);
            cells[r][c] += step;
            let moved = Tensor2::from_rows(
                cells.iter().map(|row| row.iter().map(|&n| F(n)).collect()).collect(),
            )
            .expect("the rows have one length");
            let estimate = (first(&moved, &conv) - first(&input, &conv)) / step;
            assert!((estimate - input_delta.data[r][c].0).abs() < 1e-3 * (1.0 + estimate.abs()));
        }
    }
}

#[test]
fn float_bilinear_is_exact_on_cells() {
    let features = grid(&[&[1.25, 2.5], &[-3.75, 4.0]]);
    let offsets = grid(&[&[0.0, 0.0]]);
    let data = DefConvData { features: &features, offsets: &offsets };
    assert_eq!(data.bilinear([F(0.0), F(0.0)]), F(1.25));
    assert_eq!(data.bilinear([F(1.0), F(0.0)]), F(-3.75));
    assert_eq!(data.bilinear([F(1.0), F(1.0)]), F(4.0));
    assert_eq!(data.bilinear([F(0.5), F(0.5)]), F(1.0));
}

fn cube(planes: &[Vec<Vec<f32>>]) -> Tensor3<F> {
    Tensor3::from_planes(
        planes
            .iter()
            .map(|plane| plane.iter().map(|row| row.iter().map(|&n| F(n)).collect()).collect())
            .collect(),
    )
    .expect("the planes have one shape")
}

fn close(estimate: f32, analytic: f32) -> bool {
    (estimate - analytic).abs() < 1e-3 * (1.0 + estimate.abs())
}

#[test]
fn float_conv3_gradient_matches_finite_differences() {
    let input = vec![
        vec![vec![0.5, -1.0, 2.0], vec![1.5, 0.25, -0.75]],
        vec![vec![3.0, 1.0, 0.5], vec![-2.0, 0.75, 1.25]],
    ];
    let filter = vec![vec![vec![0.5, -1.5], vec![2.0, 0.25]], vec![vec![1.0, -0.5], vec![0.75, 1.5]]];
    let delta = cube(&[vec![vec![1.0, -2.0]]]);
    // The loss is the output weighed by the gradient that comes from downstream.
    let loss = |input: &Vec<Vec<Vec<f32>>>, filter: &Vec<Vec<Vec<f32>>>| {
        let output = Conv3::new(cube(filter)).forward(&cube(input)).1;
        output.data[0][0][0].0 * 1.0 + output.data[0][0][1].0 * -2.0
    };
    let conv = Conv3::new(cube(&filter));
    let (input_delta, train_delta) = conv.backward(&cube(&input), &EmptyData, &delta);
    assert_eq!((input_delta.depth, input_delta.rows, input_delta.cols), (2, 2, 3));
    assert_eq!((train_delta.0.depth, train_delta.0.rows, train_delta.0.cols), (2, 2, 2));
    let step = 0.01f32;
    for d in 0..2 {
        for r in 0..2 {
            for c in 0..3 {
                let mut moved = input.clone();
                moved[d][r][c] += step;
                let estimate = (loss(&moved, &filter) - loss(&input, &filter)) / step;
                assert!(close(estimate, input_delta.data[d][r][c].0));
            }
            for c in 0..2 {
                let mut moved = filter.clone();
                moved[d][r][c] += step;
                let estimate = (loss(&input, &moved) - loss(&input, &filter)) / step;
                assert!(close(estimate, train_delta.0.data[d][r][c].0));
            }
        }
    }
}

#[test]
fn float_defconv_gradients_match_finite_differences() {
    let features = vec![
        vec![0.5f32, -1.0, 2.0, 1.0],
        vec![1.5, 0.25, -0.75, 0.5],
        vec![3.0, 1.0, 0.5, -1.5],
        vec![-2.0, 0.75, 1.25, 2.5],
    ];
    let offsets = vec![vec![0.1f32, 0.2], vec![-0.3, 0.15], vec![0.6, -0.65]];
    let weights = vec![0.5f32, -1.5, 2.0];
    let delta = [[1.0f32, -2.0], [0.5, 0.25]];
    let tensor = |rows: &Vec<Vec<f32>>| {
        Tensor2::from_rows(rows.iter().map(|row| row.iter().map(|&n| F(n)).collect()).collect()).unwrap()
    };
    let operator = |weights: &Vec<f32>| {
        DefConv2::new(Tensor1::from_vec(weights.iter().map(|&n| F(n)).collect()), [2, 2])
    };
    let loss = |features: &Vec<Vec<f32>>, offsets: &Vec<Vec<f32>>, weights: &Vec<f32>| {
        let output = operator(weights).forward(&(tensor(features), tensor(offsets))).1;
        let mut sum = 0.0f32;
        for y in 0..2 {
            for x in 0..2 {
                sum += output.data[y][x].0 * delta[y][x];
            }
        }
        sum
    };
    let input = (tensor(&features), tensor(&offsets));
    let given = tensor(&delta.iter().map(|row| row.to_vec()).collect());
    let (input_delta, train_delta) = operator(&weights).backward(&input, &(), &given);
    assert_eq!((input_delta.0.rows, input_delta.0.cols), (4, 4));
    assert_eq!((input_delta.1.rows, input_delta.1.cols), (3, 2));
    assert_eq!(train_delta.0.data.len(), 3);
    let base = loss(&features, &offsets, &weights);
    let step = 0.01f32;
    for r in 0..4 {
        for c in 0..4 {
            let mut moved = features.clone();
            moved[r][c] += step;
            let estimate = (loss(&moved, &offsets, &weights) - base) / step;
            assert!(close(estimate, input_delta.0.data[r][c].0));
        }
    }
    for k in 0..3 {
        for part in 0..2 {
            let mut moved = offsets.clone();
            moved[k][part] += step;
            let estimate = (loss(&features, &moved, &weights) - base) / step;
            assert!(close(estimate, input_delta.1.data[k][part].0));
        }
        let mut moved = weights.clone();
        moved[k] += step;
        let estimate = (loss(&features, &offsets, &moved) - base) / step;
        assert!(close(estimate, train_delta.0.data[k].0));
    }
}
