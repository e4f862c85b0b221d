use ferrite::matrix::Matrix;
use ferrite::normalization::denormalize_data;
use ferrite::normalization::normalize_data;
use ferrite::shape::Shape;

fn col(m: &Matrix<f64>, j: usize) -> Vec<f64> {
    (0..m.nrows()).map(|i| m.get(i, j)).collect()
}

fn z_stats(m: &Matrix<f64>, j: usize) -> (f64, f64) {
    let c = col(m, j);
    let n = c.len() as f64;
    let mean = c.iter().sum::<f64>() / n;
    let var = c.iter().map(|x| (x - mean).powi(2)).sum::<f64>() / n;
    (mean, var.sqrt())
}

fn min_max(m: &Matrix<f64>, j: usize) -> (f64, f64) {
    let c = col(m, j);
    (c.iter().cloned().fold(f64::INFINITY, f64::min), c.iter().cloned().fold(f64::NEG_INFINITY, f64::max))
}

fn z_degenerate(_m: f64, s: f64) -> bool {
    s == 0.0
}

fn mm_degenerate(a: f64, b: f64) -> bool {
    a == b
}

fn z_scale(x: f64, m: f64, s: f64) -> f64 {
    (x - m) / s
}

fn z_unscale(x: f64, m: f64, s: f64) -> f64 {
    x * s + m
}

fn mm_scale(x: f64, a: f64, b: f64) -> f64 {
    (x - a) / (b - a)
}

fn mm_unscale(x: f64, a: f64, b: f64) -> f64 {
    x * (b - a) + a
}

fn sample() -> Matrix<f64> {
    Matrix::from_rows(2, vec![vec![1.0, 7.0], vec![-3.0, 7.0], vec![4.2, 7.0], vec![0.5, 7.0]]).unwrap()
}

fn close(a: &Matrix<f64>, b: &Matrix<f64>) -> bool {
    a.to_rows().iter().flatten().zip(b.to_rows().iter().flatten()).all(|(x, y)| (x - y).abs() <= 1e-9)
}

#[test]
fn min_max_rescales_to_unit_range() {
    let mut m = Matrix::from_rows(1, vec![vec![2.0], vec![4.0], vec![6.0]]).unwrap();
    let p = normalize_data(&mut m, &min_max, &mm_degenerate, &mm_scale);
    assert_eq!(p.to_rows(), vec![vec![2.0], vec![6.0]]);
    assert_eq!(m.to_rows(), vec![vec![0.0], vec![0.5], vec![1.0]]);
}

#[test]
fn z_score_parameters() {
    let mut m = Matrix::from_rows(1, vec![vec![1.0], vec![3.0]]).unwrap();
    let p = normalize_data(&mut m, &z_stats, &z_degenerate, &z_scale);
    assert_eq!(p.to_rows(), vec![vec![2.0], vec![1.0]]);
    assert_eq!(m.to_rows(), vec![vec![-1.0], vec![1.0]]);
}

#[test]
fn constant_column_left_unchanged() {
    let mut m = sample();
    let p = normalize_data(&mut m, &z_stats, &z_degenerate, &z_scale);
    assert_eq!(col(&m, 1), vec![7.0; 4]);
    assert_eq!((p.get(0, 1), p.get(1, 1)), (7.0, 0.0));
    let mut m = sample();
    let p = normalize_data(&mut m, &min_max, &mm_degenerate, &mm_scale);
    assert_eq!(col(&m, 1), vec![7.0; 4]);
    assert_eq!((p.get(0, 1), p.get(1, 1)), (7.0, 7.0));
    assert_eq!(p.shape(), Shape { rows: 2, cols: 2 });
}

#[test]
fn round_trip_both_kinds() {
    let x = sample();
    let mut m = x.copy();
    let p = normalize_data(&mut m, &z_stats, &z_degenerate, &z_scale);
    assert!(!close(&m, &x));
    denormalize_data(&mut m, &p, &z_degenerate, &z_unscale);
    assert!(close(&m, &x));
    let mut m = x.copy();
    let p = normalize_data(&mut m, &min_max, &mm_degenerate, &mm_scale);
    denormalize_data(&mut m, &p, &mm_degenerate, &mm_unscale);
    assert!(close(&m, &x));
}
