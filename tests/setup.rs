use ferrite::config::CostFn;
use ferrite::config::Gradient;
use ferrite::config::Regularization;
use ferrite::config::TrainConfig;
use ferrite::error::TrainError;
use ferrite::input::Input;
use ferrite::kinds::CostFnType;
use ferrite::kinds::GradientType;
use ferrite::kinds::MiniBatchSize;
use ferrite::kinds::NormalizationParameterType;
use ferrite::kinds::RegularizationType;
use ferrite::kinds::UpdatationMethod;
use ferrite::matrix::Matrix;
use ferrite::shape::Shape;

fn bare(epochs: usize) -> TrainConfig<f64> {
    TrainConfig {
        epochs,
        lr: 0.01,
        normalization_parameter_type: None,
        optimizer: None,
        mini_batch_size: None,
        regularization: None,
        cost_fn: None,
        gradient_fn: None,
        delta: None,
        print_log: false,
    }
}

#[test]
fn defaults_are_filled_in() {
    let c = bare(5).resolve(1.0).unwrap();
    assert_eq!(c.epochs, 5);
    assert_eq!(c.lr, 0.01);
    assert_eq!(c.normalization_parameter_type, NormalizationParameterType::MinMaxParameter);
    assert_eq!(c.optimizer, UpdatationMethod::BGD);
    assert_eq!(c.mini_batch_size, MiniBatchSize::Medium);
    assert_eq!(c.regularization.regularization_type, RegularizationType::ElasticNet);
    assert_eq!((c.regularization.lambda1, c.regularization.lambda2), (1.0, 1.0));
    assert_eq!(c.cost_fn.cost_fn_type, CostFnType::MeanSquaredError);
    assert_eq!(c.gradient_fn.gradient, GradientType::MeanSquaredError);
    assert_eq!(c.gradient_fn.regularization.regularization_type, RegularizationType::ElasticNet);
    assert_eq!(c.delta, 1.0);
    assert!(!c.print_log);
}

#[test]
fn given_options_are_kept() {
    let mut c = bare(3);
    c.optimizer = Some(UpdatationMethod::MiniBatchGD);
    c.mini_batch_size = Some(MiniBatchSize::Small);
    c.regularization = Some(Regularization::l2(0.5));
    c.cost_fn = Some(CostFn::huber_error(Some(0.9)));
    c.delta = Some(0.9);
    c.normalization_parameter_type = Some(NormalizationParameterType::ZParameter);
    let r = c.resolve(1.0).unwrap();
    assert_eq!(r.optimizer, UpdatationMethod::MiniBatchGD);
    assert_eq!(r.mini_batch_size, MiniBatchSize::Small);
    assert_eq!(r.regularization.regularization_type, RegularizationType::RidgeL2);
    assert_eq!(r.regularization.lambda2, 0.5);
    assert_eq!(r.gradient_fn.regularization.lambda2, 0.5);
    assert_eq!(r.cost_fn.threshold(1.0), 0.9);
    assert_eq!(r.delta, 0.9);
    assert_eq!(r.normalization_parameter_type, NormalizationParameterType::ZParameter);
}

#[test]
fn zero_epochs_is_invalid() {
    assert_eq!(bare(0).resolve(1.0).err(), Some(TrainError::InvalidConfig));
}

#[test]
fn loss_and_penalty_choices() {
    let e: Regularization<f64> = Regularization::elastic_net(0.06, 0.05);
    assert_eq!((e.lambda1, e.lambda2), (0.06, 0.05));
    assert_eq!(Regularization::l1(0.5).regularization_type, RegularizationType::LassoL1);
    assert_eq!(Regularization::l1(0.5).lambda1, 0.5);
    let g = Gradient::mean_absolute_error(e);
    assert_eq!(g.gradient, GradientType::MeanAbsoluteError);
    assert_eq!(Gradient::mean_squared_error(e).gradient, GradientType::MeanSquaredError);
    assert_eq!(Gradient::huber_loss(e).gradient, GradientType::HuberError);
    let c: CostFn<f64> = CostFn::mean_absolute_error();
    assert_eq!(c.cost_fn_type, CostFnType::MeanAbsoluteError);
    assert_eq!(c.threshold(1.0), 1.0);
    assert_eq!(CostFn::<f64>::huber_error(None).threshold(1.0), 1.0);
    assert_eq!(CostFn::<f64>::mean_squared_error().cost_fn_type, CostFnType::MeanSquaredError);
}

#[test]
fn prepared_input_has_bias_column() {
    let x = Matrix::from_rows(2, vec![vec![0.5, 0.0], vec![1.0, 1.0], vec![0.0, 0.5]]).unwrap();
    let y = Matrix::from_rows(1, vec![vec![1.0], vec![2.0], vec![3.0]]).unwrap();
    let p = Matrix::from_rows(2, vec![vec![0.0, 0.0], vec![2.0, 2.0]]).unwrap();
    let mut input = Input::new(x, y, NormalizationParameterType::MinMaxParameter, p).unwrap();
    input.adjust_input(1.0);
    assert_eq!(input.get_input_matrix().shape(), Shape { rows: 3, cols: 3 });
    assert_eq!(input.get_input_matrix().to_rows()[1], vec![1.0, 1.0, 1.0]);
    assert_eq!(input.get_output_matrix().shape(), Shape { rows: 3, cols: 1 });
    assert_eq!(input.get_normalization_parameters().shape(), Shape { rows: 2, cols: 2 });
    assert_eq!(input.normalization_kind(), NormalizationParameterType::MinMaxParameter);
}

#[test]
fn mismatched_input_is_refused() {
    let x = Matrix::from_rows(2, vec![vec![0.5, 0.0], vec![1.0, 1.0]]).unwrap();
    let y = Matrix::from_rows(1, vec![vec![1.0]]).unwrap();
    let p = Matrix::from_rows(2, vec![vec![0.0, 0.0], vec![2.0, 2.0]]).unwrap();
    assert!(Input::new(x, y, NormalizationParameterType::ZParameter, p).is_err());
    let x = Matrix::from_rows(2, vec![vec![0.5, 0.0]]).unwrap();
    let y = Matrix::from_rows(1, vec![vec![1.0]]).unwrap();
    let p = Matrix::from_rows(1, vec![vec![0.0], vec![2.0]]).unwrap();
    assert!(Input::new(x, y, NormalizationParameterType::ZParameter, p).is_err());
}
