use std::cell::Cell;

use ferrite::config::ResolvedConfig;
use ferrite::config::TrainConfig;
use ferrite::error::TrainError;
use ferrite::kinds::NormalizationParameterType;
use ferrite::trainer::train;
use ferrite::kinds::MiniBatchSize;
use ferrite::kinds::UpdatationMethod;
use ferrite::matrix::Matrix;
use ferrite::weight::run_epochs;
use ferrite::weight::update_weight;
use ferrite::weight::Weight;

fn m(cols: usize, rows: Vec<Vec<f64>>) -> Matrix<f64> {
    Matrix::from_rows(cols, rows).unwrap()
}

/// Squared-error gradient of a one-column model: -(1/N) xᵗ (y − x w).
fn squared_error_gradient(_c: &(), x: &Matrix<f64>, y: &Matrix<f64>, w: &Matrix<f64>) -> Matrix<f64> {
    let n = x.nrows();
    let mut g = 0.0;
    for i in 0..n {
        let pred = x.get(i, 0) * w.get(0, 0);
        g += x.get(i, 0) * (y.get(i, 0) - pred);
    }
    m(1, vec![vec![-g / n as f64]])
}

#[test]
fn single_sample_uses_latest_weight() {
    let x = m(1, vec![vec![1.0], vec![1.0]]);
    let y = m(1, vec![vec![2.0], vec![4.0]]);
    let mut w = Weight::from_matrix(m(1, vec![vec![0.0]]));
    let r = update_weight(&x, &y, &mut w, UpdatationMethod::SGD, None, &(), squared_error_gradient, |a: f64, g: f64| {
        a - 0.5 * g
    });
    assert_eq!(r, Ok(()));
    // row 0: g = -2, w = 1; row 1 reads w = 1: g = -3, w = 2.5
    assert_eq!(w.get().to_rows(), vec![vec![2.5]]);
}

#[test]
fn full_batch_one_update() {
    let x = m(1, vec![vec![1.0], vec![1.0]]);
    let y = m(1, vec![vec![2.0], vec![4.0]]);
    let mut w = Weight::from_matrix(m(1, vec![vec![0.0]]));
    let r = update_weight(&x, &y, &mut w, UpdatationMethod::BGD, None, &(), squared_error_gradient, |a: f64, g: f64| {
        a - 0.5 * g
    });
    assert_eq!(r, Ok(()));
    assert_eq!(w.get().to_rows(), vec![vec![1.5]]);
}

#[test]
fn mini_batch_steps_counted() {
    let rows: Vec<Vec<f64>> = (0..10).map(|i| vec![i as f64]).collect();
    let x = m(1, rows.clone());
    let y = m(1, rows);
    let mut w = Weight::from_matrix(m(1, vec![vec![0.0]]));
    let calls = Cell::new(0usize);
    let sizes = std::cell::RefCell::new(Vec::new());
    let grad = |_c: &(), bx: &Matrix<f64>, _by: &Matrix<f64>, _w: &Matrix<f64>| {
        calls.set(calls.get() + 1);
        sizes.borrow_mut().push(bx.nrows());
        m(1, vec![vec![0.0]])
    };
    let step = |a: f64, g: f64| a - g;
    let r = run_epochs(&x, &y, &mut w, 3, UpdatationMethod::MiniBatchGD, Some(MiniBatchSize::Small), &(), &grad, &step);
    assert_eq!(r, Ok(()));
    assert_eq!(calls.get(), 9);
    assert_eq!(*sizes.borrow(), vec![4, 4, 2, 4, 4, 2, 4, 4, 2]);
}

#[test]
fn gradient_of_wrong_shape_stops_the_epoch() {
    let x = m(1, vec![vec![1.0], vec![1.0]]);
    let y = m(1, vec![vec![2.0], vec![4.0]]);
    let mut w = Weight::from_matrix(m(1, vec![vec![0.0]]));
    let grad = |_c: &(), _x: &Matrix<f64>, _y: &Matrix<f64>, _w: &Matrix<f64>| m(2, vec![vec![1.0, 1.0]]);
    let r = update_weight(&x, &y, &mut w, UpdatationMethod::BGD, None, &(), grad, |a: f64, g: f64| a - g);
    assert_eq!(r, Err(TrainError::ShapeMismatch));
    assert_eq!(w.get().to_rows(), vec![vec![0.0]]);
}

#[test]
fn weight_update_moves_against_gradient() {
    let mut w = Weight::from_matrix(m(2, vec![vec![1.0, -2.0], vec![3.0, -4.0]]));
    let g = m(2, vec![vec![2.0, 2.0], vec![-2.0, 0.0]]);
    assert_eq!(w.update(&g, |a: f64, b: f64| a - 0.5 * b), Ok(()));
    assert_eq!(w.get().to_rows(), vec![vec![0.0, -3.0], vec![4.0, -4.0]]);
    let bad = m(1, vec![vec![1.0]]);
    assert_eq!(w.update(&bad, |a: f64, b: f64| a - b), Err(TrainError::ShapeMismatch));
    assert_eq!(w.as_matrix().to_rows(), vec![vec![0.0, -3.0], vec![4.0, -4.0]]);
}

#[test]
fn zero_epochs_leave_weight() {
    let x = m(1, vec![vec![1.0]]);
    let y = m(1, vec![vec![1.0]]);
    let mut w = Weight::from_matrix(m(1, vec![vec![0.25]]));
    let grad = |_c: &(), _x: &Matrix<f64>, _y: &Matrix<f64>, _w: &Matrix<f64>| m(1, vec![vec![1.0]]);
    let step = |a: f64, g: f64| a - g;
    assert_eq!(run_epochs(&x, &y, &mut w, 0, UpdatationMethod::SGD, None, &(), &grad, &step), Ok(()));
    assert_eq!(w.get().to_rows(), vec![vec![0.25]]);
}

fn config(epochs: usize) -> TrainConfig<f64> {
    TrainConfig {
        epochs,
        lr: 0.5,
        normalization_parameter_type: None,
        optimizer: Some(UpdatationMethod::SGD),
        mini_batch_size: None,
        regularization: None,
        cost_fn: None,
        gradient_fn: None,
        delta: None,
        print_log: false,
    }
}

fn keep(_k: NormalizationParameterType, x: &Matrix<f64>) -> (Matrix<f64>, Matrix<f64>) {
    (x.copy(), Matrix::filled(2, x.ncols(), 0.0))
}

fn zeros(rows: usize, cols: usize) -> Matrix<f64> {
    Matrix::filled(rows, cols, 0.0)
}

/// Squared-error gradient of the bias weight alone.
fn bias_gradient(_c: &ResolvedConfig<f64>, x: &Matrix<f64>, y: &Matrix<f64>, w: &Matrix<f64>) -> Matrix<f64> {
    let n = x.nrows();
    let mut g = 0.0;
    for i in 0..n {
        g += y.get(i, 0) - w.get(0, 0);
    }
    let mut rows = vec![vec![0.0]; w.nrows()];
    rows[0][0] = -g / n as f64;
    m(1, rows)
}

#[test]
fn train_prepares_input_and_runs_epochs() {
    let x = m(1, vec![vec![3.0], vec![5.0]]);
    let y = m(1, vec![vec![2.0], vec![4.0]]);
    let step = |a: f64, g: f64| a - 0.5 * g;
    let (w, input) = train(x, y, &config(1), 1.0, keep, zeros, &bias_gradient, &step).unwrap();
    assert_eq!(input.get_input_matrix().to_rows(), vec![vec![1.0, 3.0], vec![1.0, 5.0]]);
    assert_eq!(w.get().to_rows(), vec![vec![2.5], vec![0.0]]);
}

#[test]
fn train_refuses_bad_runs() {
    let step = |a: f64, g: f64| a - 0.5 * g;
    let x = m(1, vec![vec![3.0], vec![5.0]]);
    let y = m(1, vec![vec![2.0], vec![4.0]]);
    let r = train(x, y, &config(0), 1.0, keep, zeros, &bias_gradient, &step);
    assert_eq!(r.err(), Some(TrainError::InvalidConfig));
    let x = m(1, vec![vec![3.0], vec![5.0]]);
    let y = m(1, vec![vec![2.0]]);
    let r = train(x, y, &config(1), 1.0, keep, zeros, &bias_gradient, &step);
    assert_eq!(r.err(), Some(TrainError::ShapeMismatch));
    let x = m(1, vec![vec![3.0], vec![5.0]]);
    let y = m(1, vec![vec![2.0], vec![4.0]]);
    let r = train(x, y, &config(1), 1.0, keep, |_r: usize, _c: usize| zeros(1, 1), &bias_gradient, &step);
    assert_eq!(r.err(), Some(TrainError::ShapeMismatch));
}

#[test]
fn weight_in_place_access() {
    let mut w = Weight::from_matrix(m(1, vec![vec![1.0]]));
    *w.get_mut() = m(1, vec![vec![7.0], vec![8.0]]);
    assert_eq!(w.get().to_rows(), vec![vec![7.0], vec![8.0]]);
}
