use ferrite::matrix::Matrix;
use ferrite::shape::Shape;

#[test]
fn ragged_rows_are_refused() {
    assert!(Matrix::from_rows(2, vec![vec![1, 2], vec![3]]).is_none());
    assert!(Matrix::from_rows(2, vec![vec![1, 2], vec![3, 4]]).is_some());
    let empty: Matrix<i32> = Matrix::from_rows(3, vec![]).unwrap();
    assert_eq!(empty.shape(), Shape { rows: 0, cols: 3 });
}

#[test]
fn filled_matrix() {
    let m = Matrix::filled(2, 3, 0.0f64);
    assert_eq!(m.shape(), Shape { rows: 2, cols: 3 });
    assert_eq!(m.to_rows(), vec![vec![0.0; 3]; 2]);
}

#[test]
fn bias_column_in_front() {
    let m = Matrix::from_rows(2, vec![vec![3.0, 4.0], vec![5.0, 6.0], vec![7.0, 8.0]]).unwrap();
    let p = m.prepend_column(1.0);
    assert_eq!(p.shape(), Shape { rows: 3, cols: 3 });
    assert_eq!(p.to_rows(), vec![vec![1.0, 3.0, 4.0], vec![1.0, 5.0, 6.0], vec![1.0, 7.0, 8.0]]);
}

#[test]
fn slice_of_rows() {
    let m = Matrix::from_rows(1, vec![vec![0], vec![1], vec![2], vec![3]]).unwrap();
    assert_eq!(m.slice_rows(1, 3).to_rows(), vec![vec![1], vec![2]]);
    assert_eq!(m.slice_rows(4, 4).shape(), Shape { rows: 0, cols: 1 });
    assert_eq!(m.get(2, 0), 2);
}

#[test]
fn entrywise_combination() {
    let a = Matrix::from_rows(2, vec![vec![1.0, -2.0], vec![3.0, -4.0]]).unwrap();
    let b = Matrix::from_rows(2, vec![vec![1.0, 1.0], vec![2.0, 2.0]]).unwrap();
    let c = a.zip_with(&b, |w: f64, g: f64| w - 0.5 * g);
    assert_eq!(c.to_rows(), vec![vec![0.5, -2.5], vec![2.0, -5.0]]);
    assert_eq!(a.copy().to_rows(), a.to_rows());
}
