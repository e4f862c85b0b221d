//! The closed sets of options a training run is configured with.
use vstd::prelude::*;

verus! {

/// Which loss a cost evaluation reports.
#[derive(Clone, Copy, Debug, PartialEq, Eq, Structural)]
pub enum CostFnType {
    MeanAbsoluteError,
    MeanSquaredError,
    HuberError,
}

/// Which loss a gradient evaluation differentiates.
#[derive(Clone, Copy, Debug, PartialEq, Eq, Structural)]
pub enum GradientType {
    MeanAbsoluteError,
    MeanSquaredError,
    HuberError,
}

/// Column-wise rescaling of the feature matrix: z-score (mean and population
/// standard deviation) or min-max.
#[derive(Clone, Copy, Debug, PartialEq, Eq, Structural)]
pub enum NormalizationParameterType {
    ZParameter,
    MinMaxParameter,
}

/// The penalty added to the loss: lasso (L1), ridge (L2) or both.
#[derive(Clone, Copy, Debug, PartialEq, Eq, Structural)]
pub enum RegularizationType {
    LassoL1,
    RidgeL2,
    ElasticNet,
}

/// How an epoch walks the rows: one row at a time (`SGD`), all rows at once
/// (`BGD`), or consecutive chunks of a fixed size (`MiniBatchGD`).
#[derive(Clone, Copy, Debug, PartialEq, Eq, Structural)]
pub enum UpdatationMethod {
    SGD,
    BGD,
    MiniBatchGD,
}

/// The recognised mini-batch sizes.
#[derive(Clone, Copy, Debug, PartialEq, Eq, Structural)]
pub enum MiniBatchSize {
    Small,
    Medium,
    Large,
    ExtraLarge,
}

impl MiniBatchSize {
    /// Number of rows in one batch of this size.
    pub open spec fn rows(self) -> nat {
        match self {
            MiniBatchSize::Small => 4,
            MiniBatchSize::Medium => 16,
            MiniBatchSize::Large => 64,
            MiniBatchSize::ExtraLarge => 256,
        }
    }

    /// Number of rows in one batch of this size.
    pub fn size(&self) -> (r: usize)
        ensures
            r == self.rows(),
            r > 0,
    {
        match self {
            MiniBatchSize::Small => 4,
            MiniBatchSize::Medium => 16,
            MiniBatchSize::Large => 64,
            MiniBatchSize::ExtraLarge => 256,
        }
    }

    /// The size whose batches hold `rows` rows, if that is a recognised size.
    pub fn from_rows(rows: usize) -> (r: Option<MiniBatchSize>)
        ensures
            r matches Some(s) ==> s.rows() == rows,
            r is None ==> (forall|s: MiniBatchSize| s.rows() != rows),
    {
        if rows == 4 {
            Some(MiniBatchSize::Small)
        } else if rows == 16 {
            Some(MiniBatchSize::Medium)
        } else if rows == 64 {
            Some(MiniBatchSize::Large)
        } else if rows == 256 {
            Some(MiniBatchSize::ExtraLarge)
        } else {
            proof {
                assert forall|s: MiniBatchSize| s.rows() != rows by {
                    match s {
                        MiniBatchSize::Small => {},
                        MiniBatchSize::Medium => {},
                        MiniBatchSize::Large => {},
                        MiniBatchSize::ExtraLarge => {},
                    }
                }
            }
            None
        }
    }
}

} // verus!
