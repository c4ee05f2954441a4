use mli::tensor::{Array, Tensor1, Tensor2, Tensor3};

#[test]
fn from_rows_takes_rectangles() {
    let tensor = Tensor2::from_rows(vec![vec![1, 2, 3], vec![4, 5, 6]]).expect("a rectangle");
    assert_eq!((tensor.rows, tensor.cols), (2, 3));
    assert_eq!(*tensor.get(1, 2), 6);
}

#[test]
fn from_rows_refuses_ragged_rows() {
    assert_eq!(Tensor2::from_rows(vec![vec![1, 2, 3], vec![4, 5]]), None);
    assert_eq!(Tensor2::from_rows(vec![vec![], vec![4]]), None);
}

#[test]
fn from_rows_of_nothing_is_empty() {
    let tensor = Tensor2::<u8>::from_rows(vec![]).expect("no rows");
    assert_eq!((tensor.rows, tensor.cols), (0, 0));
    let flat = Tensor2::<u8>::from_rows(vec![vec![], vec![]]).expect("empty rows");
    assert_eq!((flat.rows, flat.cols), (2, 0));
}

#[test]
fn from_planes_takes_cuboids() {
    let tensor = Tensor3::from_planes(vec![vec![vec![1, 2], vec![3, 4]], vec![vec![5, 6], vec![7, 8]]])
        .expect("a cuboid");
    assert_eq!((tensor.depth, tensor.rows, tensor.cols), (2, 2, 2));
    assert_eq!(*tensor.get(1, 0, 1), 6);
}

#[test]
fn from_planes_refuses_ragged_planes() {
    assert_eq!(Tensor3::from_planes(vec![vec![vec![1, 2]], vec![vec![3, 4], vec![5, 6]]]), None);
    assert_eq!(Tensor3::from_planes(vec![vec![vec![1, 2], vec![3]]]), None);
    assert_eq!(Tensor3::from_planes(vec![vec![vec![1], vec![2]], vec![vec![3], vec![4, 5]]]), None);
}

#[test]
fn from_planes_of_nothing_is_empty() {
    let tensor = Tensor3::<u8>::from_planes(vec![]).expect("no planes");
    assert_eq!((tensor.depth, tensor.rows, tensor.cols), (0, 0, 0));
}

#[test]
fn filled_tensors_hold_the_value_everywhere() {
    assert_eq!(Tensor1::filled(3, 7).data, vec![7, 7, 7]);
    assert_eq!(Tensor2::filled(2, 2, 7).data, vec![vec![7, 7], vec![7, 7]]);
    let cube = Tensor3::filled(2, 1, 2, 7);
    assert_eq!(cube.data, vec![vec![vec![7, 7]], vec![vec![7, 7]]]);
    assert_eq!((cube.depth, cube.rows, cube.cols), (2, 1, 2));
}

#[test]
fn set_changes_one_cell() {
    let mut line = Tensor1::from_vec(vec![1, 2, 3]);
    line.set(1, 9);
    assert_eq!(line.data, vec![1, 9, 3]);
    assert_eq!(line.extent(), 3);
    let mut grid = Tensor2::filled(2, 2, 0);
    grid.set(1, 0, 5);
    assert_eq!(grid.data, vec![vec![0, 0], vec![5, 0]]);
    let mut cube = Tensor3::filled(1, 2, 2, 0);
    cube.set(0, 1, 1, 4);
    assert_eq!(cube.data, vec![vec![vec![0, 0], vec![0, 4]]]);
    let mut flat = Array::new([3usize], vec![1, 2, 3]);
    flat.set(2, 8);
    assert_eq!((*flat.get(2), flat.shape), (8, [3]));
}

#[test]
fn duplicates_are_equal() {
    let line = Tensor1::from_vec(vec![1, 2, 3]);
    assert_eq!(line.duplicate(), line);
    let grid = Tensor2::from_rows(vec![vec![1, 2], vec![3, 4]]).unwrap();
    assert_eq!(grid.duplicate(), grid);
    let flat = Array::new([2usize, 2], vec![1, 2, 3, 4]);
    assert_eq!(flat.duplicate(), flat);
}

#[test]
fn planes_come_out_and_go_in() {
    let cube = Tensor3::from_planes(vec![vec![vec![1, 2]], vec![vec![3, 4]]]).unwrap();
    let plane = cube.plane(1);
    assert_eq!(plane.data, vec![vec![3, 4]]);
    let back = Tensor3::from_plane(&plane);
    assert_eq!((back.depth, back.rows, back.cols), (1, 1, 2));
    assert_eq!(back.data, vec![vec![vec![3, 4]]]);
}
