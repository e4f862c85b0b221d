//! Matrix shapes and the shape rules of each stage of a training step.
use vstd::prelude::*;
use crate::error::TrainError;
use crate::kinds::GradientType;

verus! {

/// The dimensions of a matrix.
#[derive(Clone, Copy, Debug, PartialEq, Eq, Structural)]
pub struct Shape {
    pub rows: usize,
    pub cols: usize,
}

/// Shape of a product `a · b`, defined when the inner dimensions agree.
pub open spec fn product_shape(a: Shape, b: Shape) -> Option<Shape> {
    if a.cols == b.rows {
        Some(Shape { rows: a.rows, cols: b.cols })
    } else {
        None
    }
}

/// Common length of two axes under broadcasting: equal lengths stay, a
/// length of one stretches to the other.
pub open spec fn broadcast_len(a: usize, b: usize) -> Option<usize> {
    if a == b {
        Some(a)
    } else if a == 1 {
        Some(b)
    } else if b == 1 {
        Some(a)
    } else {
        None
    }
}

/// Shape of an elementwise combination of `a` and `b` under broadcasting.
pub open spec fn broadcast_shape(a: Shape, b: Shape) -> Option<Shape> {
    match (broadcast_len(a.rows, b.rows), broadcast_len(a.cols, b.cols)) {
        (Some(r), Some(c)) => Some(Shape { rows: r, cols: c }),
        _ => None,
    }
}

/// Shape of the gradient that a step computes from a batch `x` of prepared
/// input, its targets `y` and the weight `w`, or `None` where some stage of
/// the computation has no shape:
/// the prediction is `x · w`, the error is `y − prediction`, the raw
/// gradient is `xᵗ · error` for the mean absolute and mean squared losses and
/// the error itself for the Huber loss, and the regularization term, shaped
/// like `w`, is added to it.
pub open spec fn gradient_shape(kind: GradientType, x: Shape, y: Shape, w: Shape) -> Option<Shape> {
    match product_shape(x, w) {
        None => None,
        Some(pred) => match broadcast_shape(y, pred) {
            None => None,
            Some(err) => {
                let raw = match kind {
                    GradientType::HuberError => Some(err),
                    _ => product_shape(Shape { rows: x.cols, cols: x.rows }, err),
                };
                match raw {
                    None => None,
                    Some(g) => broadcast_shape(w, g),
                }
            },
        },
    }
}

/// Shape of `a · b`, or `ShapeMismatch` when the inner dimensions differ.
pub fn product(a: Shape, b: Shape) -> (r: Result<Shape, TrainError>)
    ensures
        r matches Ok(s) ==> product_shape(a, b) == Some(s),
        r is Err ==> product_shape(a, b) is None && r == Err::<Shape, TrainError>(
            TrainError::ShapeMismatch,
        ),
{
    if a.cols == b.rows {
        Ok(Shape { rows: a.rows, cols: b.cols })
    } else {
        Err(TrainError::ShapeMismatch)
    }
}

fn broadcast_axis(a: usize, b: usize) -> (r: Option<usize>)
    ensures
        r == broadcast_len(a, b),
{
    if a == b {
        Some(a)
    } else if a == 1 {
        Some(b)
    } else if b == 1 {
        Some(a)
    } else {
        None
    }
}

/// Shape of an elementwise combination of `a` and `b`, or `ShapeMismatch`
/// when they do not broadcast together.
pub fn broadcast(a: Shape, b: Shape) -> (r: Result<Shape, TrainError>)
    ensures
        r matches Ok(s) ==> broadcast_shape(a, b) == Some(s),
        r is Err ==> broadcast_shape(a, b) is None && r == Err::<Shape, TrainError>(
            TrainError::ShapeMismatch,
        ),
{
    match (broadcast_axis(a.rows, b.rows), broadcast_axis(a.cols, b.cols)) {
        (Some(r), Some(c)) => Ok(Shape { rows: r, cols: c }),
        _ => Err(TrainError::ShapeMismatch),
    }
}

/// Checks that a step on batch `x` with targets `y` produces a gradient of
/// exactly the weight's shape `w`, so that the weight can be moved against
/// it; otherwise the step is refused with `ShapeMismatch`.
pub fn check_step(kind: GradientType, x: Shape, y: Shape, w: Shape) -> (r: Result<(), TrainError>)
    ensures
        r is Ok <==> gradient_shape(kind, x, y, w) == Some(w),
        r is Err ==> r == Err::<(), TrainError>(TrainError::ShapeMismatch),
{
    let pred = product(x, w)?;
    let err = broadcast(y, pred)?;
    let raw = match kind {
        GradientType::HuberError => err,
        _ => product(Shape { rows: x.cols, cols: x.rows }, err)?,
    };
    let g = broadcast(w, raw)?;
    if g == w {
        Ok(())
    } else {
        Err(TrainError::ShapeMismatch)
    }
}

/// Checks that features and targets describe the same samples.
pub fn check_rows_match(features: Shape, targets: Shape) -> (r: Result<(), TrainError>)
    ensures
        r is Ok <==> features.rows == targets.rows,
        r is Err ==> r == Err::<(), TrainError>(TrainError::ShapeMismatch),
{
    if features.rows == targets.rows {
        Ok(())
    } else {
        Err(TrainError::ShapeMismatch)
    }
}

/// Shape of the input once a bias column is put in front of the features.
pub open spec fn prepared_shape(features: Shape) -> Shape {
    Shape { rows: features.rows, cols: (features.cols + 1) as usize }
}

/// Shape of the weight for `features` and `targets`: one row per feature and
/// one for the bias, one column per target.
pub open spec fn weight_shape(features: Shape, targets: Shape) -> Shape {
    Shape { rows: (features.cols + 1) as usize, cols: targets.cols }
}

/// Shape of the weight trained on `features` and `targets`.
pub fn weight_shape_for(features: Shape, targets: Shape) -> (r: Shape)
    requires
        features.cols < usize::MAX,
    ensures
        r == weight_shape(features, targets),
{
    Shape { rows: features.cols + 1, cols: targets.cols }
}

/// Preparing an `R × C` feature matrix gives `R × (C + 1)`, the weight for
/// `K` targets is `(C + 1) × K`, and predicting with it gives `R × K`: the
/// shape of the targets.
pub proof fn lemma_prepared_shapes(features: Shape, targets: Shape)
    requires
        features.cols < usize::MAX,
        features.rows == targets.rows,
    ensures
        prepared_shape(features) == (Shape { rows: features.rows, cols: (features.cols + 1) as usize }),
        weight_shape(features, targets) == (Shape { rows: (features.cols + 1) as usize, cols: targets.cols }),
        product_shape(prepared_shape(features), weight_shape(features, targets)) == Some(targets),
{
}

/// For the mean absolute and mean squared losses, a step on any batch of the
/// prepared input, with the batch's targets, yields a gradient shaped like
/// the weight: the weight keeps its shape across every update.
pub proof fn lemma_step_keeps_weight_shape(
    kind: GradientType,
    features: Shape,
    targets: Shape,
    batch_rows: usize,
)
    requires
        kind != GradientType::HuberError,
        features.cols < usize::MAX,
    ensures
        ({
            let w = weight_shape(features, targets);
            let x = Shape { rows: batch_rows, cols: prepared_shape(features).cols };
            let y = Shape { rows: batch_rows, cols: targets.cols };
            gradient_shape(kind, x, y, w) == Some(w)
        }),
{
}

/// For the Huber loss the raw gradient is shaped like the error, not like the
/// weight: a step on a batch of the prepared input keeps the weight's shape
/// exactly when the batch has one row or as many rows as the weight.
pub proof fn lemma_huber_step_shape(features: Shape, targets: Shape, batch_rows: usize)
    requires
        features.cols < usize::MAX,
    ensures
        ({
            let w = weight_shape(features, targets);
            let x = Shape { rows: batch_rows, cols: prepared_shape(features).cols };
            let y = Shape { rows: batch_rows, cols: targets.cols };
            gradient_shape(GradientType::HuberError, x, y, w) == Some(w) <==> (batch_rows == 1
                || batch_rows == w.rows)
        }),
{
}

} // verus!
