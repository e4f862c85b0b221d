//! The ways a training call can be refused.
use vstd::prelude::*;

verus! {

/// Why a training call was refused.
#[derive(Clone, Copy, Debug, PartialEq, Eq, Structural)]
pub enum TrainError {
    /// Feature and target row counts differ, or a gradient does not have the
    /// weight's shape.
    ShapeMismatch,
    /// A non-positive epoch count or learning rate, or a batch size that is
    /// not one of the recognised ones.
    InvalidConfig,
}

} // verus!
