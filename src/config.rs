//! Loss, gradient and penalty choices, and how a run's options resolve to
//! their defaults.
use vstd::prelude::*;
use crate::error::TrainError;
use crate::kinds::CostFnType;
use crate::kinds::GradientType;
use crate::kinds::MiniBatchSize;
use crate::kinds::NormalizationParameterType;
use crate::kinds::RegularizationType;
use crate::kinds::UpdatationMethod;

verus! {

/// A penalty on the weight with its strengths: lasso reads `lambda1`, ridge
/// reads `lambda2`, elastic net reads both.
#[derive(Clone, Copy, Debug)]
pub struct Regularization<T> {
    pub regularization_type: RegularizationType,
    pub lambda1: T,
    pub lambda2: T,
}

impl<T: Copy> Regularization<T> {
    /// Lasso penalty of strength `lambda`; the strength it does not read is
    /// set to the same value.
    pub fn l1(lambda: T) -> (r: Regularization<T>)
        ensures
            r.regularization_type == RegularizationType::LassoL1,
            r.lambda1 == lambda,
            r.lambda2 == lambda,
    {
        Regularization { regularization_type: RegularizationType::LassoL1, lambda1: lambda, lambda2: lambda }
    }

    /// Ridge penalty of strength `lambda`; the strength it does not read is
    /// set to the same value.
    pub fn l2(lambda: T) -> (r: Regularization<T>)
        ensures
            r.regularization_type == RegularizationType::RidgeL2,
            r.lambda1 == lambda,
            r.lambda2 == lambda,
    {
        Regularization { regularization_type: RegularizationType::RidgeL2, lambda1: lambda, lambda2: lambda }
    }

    /// Elastic-net penalty: `lambda1` on the absolute values, `lambda2` on
    /// the squares.
    pub fn elastic_net(lambda1: T, lambda2: T) -> (r: Regularization<T>)
        ensures
            r.regularization_type == RegularizationType::ElasticNet,
            r.lambda1 == lambda1,
            r.lambda2 == lambda2,
    {
        Regularization { regularization_type: RegularizationType::ElasticNet, lambda1, lambda2 }
    }
}

/// A loss for cost reports; `parameter` is the Huber threshold, unset for
/// the other losses and for a Huber loss left at its default.
#[derive(Clone, Copy, Debug)]
pub struct CostFn<T> {
    pub cost_fn_type: CostFnType,
    pub parameter: Option<T>,
}

impl<T: Copy> CostFn<T> {
    /// Mean of the squared differences.
    pub fn mean_squared_error() -> (r: CostFn<T>)
        ensures
            r.cost_fn_type == CostFnType::MeanSquaredError,
            r.parameter is None,
    {
        CostFn { cost_fn_type: CostFnType::MeanSquaredError, parameter: None }
    }

    /// Mean of the Huber losses with threshold `param`, or the default
    /// threshold where it is `None`.
    pub fn huber_error(param: Option<T>) -> (r: CostFn<T>)
        ensures
            r.cost_fn_type == CostFnType::HuberError,
            r.parameter == param,
    {
        CostFn { cost_fn_type: CostFnType::HuberError, parameter: param }
    }

    /// Mean of the absolute differences.
    pub fn mean_absolute_error() -> (r: CostFn<T>)
        ensures
            r.cost_fn_type == CostFnType::MeanAbsoluteError,
            r.parameter is None,
    {
        CostFn { cost_fn_type: CostFnType::MeanAbsoluteError, parameter: None }
    }

    /// The Huber threshold, `default` where none was given.
    pub fn threshold(&self, default: T) -> (r: T)
        ensures
            r == match self.parameter {
                Some(d) => d,
                None => default,
            },
    {
        match self.parameter {
            Some(d) => d,
            None => default,
        }
    }
}

/// A gradient rule: the loss it differentiates and the penalty whose
/// gradient it adds.
#[derive(Clone, Copy, Debug)]
pub struct Gradient<T> {
    pub gradient: GradientType,
    pub regularization: Regularization<T>,
}

impl<T: Copy> Gradient<T> {
    /// Gradient of the mean absolute error, plus that of `regularization`.
    pub fn mean_absolute_error(regularization: Regularization<T>) -> (r: Gradient<T>)
        ensures
            r.gradient == GradientType::MeanAbsoluteError,
            r.regularization == regularization,
    {
        Gradient { gradient: GradientType::MeanAbsoluteError, regularization }
    }

    /// Gradient of the mean squared error, plus that of `regularization`.
    pub fn mean_squared_error(regularization: Regularization<T>) -> (r: Gradient<T>)
        ensures
            r.gradient == GradientType::MeanSquaredError,
            r.regularization == regularization,
    {
        Gradient { gradient: GradientType::MeanSquaredError, regularization }
    }

    /// Gradient of the Huber loss, plus that of `regularization`.
    pub fn huber_loss(regularization: Regularization<T>) -> (r: Gradient<T>)
        ensures
            r.gradient == GradientType::HuberError,
            r.regularization == regularization,
    {
        Gradient { gradient: GradientType::HuberError, regularization }
    }
}

/// The options of a training run; those left `None` take their defaults
/// when the run starts.
#[derive(Clone, Copy, Debug)]
pub struct TrainConfig<T> {
    pub epochs: usize,
    pub lr: T,
    pub normalization_parameter_type: Option<NormalizationParameterType>,
    pub optimizer: Option<UpdatationMethod>,
    pub mini_batch_size: Option<MiniBatchSize>,
    pub regularization: Option<Regularization<T>>,
    pub cost_fn: Option<CostFn<T>>,
    pub gradient_fn: Option<Gradient<T>>,
    pub delta: Option<T>,
    pub print_log: bool,
}

/// The options of a training run with every default filled in.
#[derive(Clone, Copy, Debug)]
pub struct ResolvedConfig<T> {
    pub epochs: usize,
    pub lr: T,
    pub normalization_parameter_type: NormalizationParameterType,
    pub optimizer: UpdatationMethod,
    pub mini_batch_size: MiniBatchSize,
    pub regularization: Regularization<T>,
    pub cost_fn: CostFn<T>,
    pub gradient_fn: Gradient<T>,
    pub delta: T,
    pub print_log: bool,
}

/// `c` with its defaults filled in, `one` standing for the unit value: min-max
/// normalization, full-batch updates, medium batches, elastic net with both
/// strengths `one`, mean squared error for the cost, the mean-squared-error
/// gradient with the resolved penalty, and a Huber threshold of `one`.
pub open spec fn resolved<T>(c: TrainConfig<T>, one: T) -> ResolvedConfig<T> {
    let regularization = match c.regularization {
        Some(r) => r,
        None => Regularization {
            regularization_type: RegularizationType::ElasticNet,
            lambda1: one,
            lambda2: one,
        },
    };
    ResolvedConfig {
        epochs: c.epochs,
        lr: c.lr,
        normalization_parameter_type: match c.normalization_parameter_type {
            Some(k) => k,
            None => NormalizationParameterType::MinMaxParameter,
        },
        optimizer: match c.optimizer {
            Some(m) => m,
            None => UpdatationMethod::BGD,
        },
        mini_batch_size: match c.mini_batch_size {
            Some(s) => s,
            None => MiniBatchSize::Medium,
        },
        regularization,
        cost_fn: match c.cost_fn {
            Some(f) => f,
            None => CostFn { cost_fn_type: CostFnType::MeanSquaredError, parameter: None },
        },
        gradient_fn: match c.gradient_fn {
            Some(g) => g,
            None => Gradient { gradient: GradientType::MeanSquaredError, regularization },
        },
        delta: match c.delta {
            Some(d) => d,
            None => one,
        },
        print_log: c.print_log,
    }
}

impl<T: Copy> TrainConfig<T> {
    /// The options with their defaults filled in (see `resolved`);
    /// `InvalidConfig` for a run of no epochs.
    pub fn resolve(&self, one: T) -> (r: Result<ResolvedConfig<T>, TrainError>)
        ensures
            r is Ok <==> self.epochs > 0,
            r matches Ok(c) ==> c == resolved(*self, one),
            r is Err ==> r == Err::<ResolvedConfig<T>, TrainError>(TrainError::InvalidConfig),
    {
        if self.epochs == 0 {
            return Err(TrainError::InvalidConfig);
        }
        let regularization = match self.regularization {
            Some(r) => r,
            None => Regularization::elastic_net(one, one),
        };
        let normalization_parameter_type = match self.normalization_parameter_type {
            Some(k) => k,
            None => NormalizationParameterType::MinMaxParameter,
        };
        let optimizer = match self.optimizer {
            Some(m) => m,
            None => UpdatationMethod::BGD,
        };
        let mini_batch_size = match self.mini_batch_size {
            Some(s) => s,
            None => MiniBatchSize::Medium,
        };
        let cost_fn = match self.cost_fn {
            Some(f) => f,
            None => CostFn::mean_squared_error(),
        };
        let gradient_fn = match self.gradient_fn {
            Some(g) => g,
            None => Gradient::mean_squared_error(regularization),
        };
        let delta = match self.delta {
            Some(d) => d,
            None => one,
        };
        Ok(
            ResolvedConfig {
                epochs: self.epochs,
                lr: self.lr,
                normalization_parameter_type,
                optimizer,
                mini_batch_size,
                regularization,
                cost_fn,
                gradient_fn,
                delta,
                print_log: self.print_log,
            },
        )
    }
}

} // verus!
