//! One full training run: options, input preparation, initial weight, and
//! the epochs.
use vstd::prelude::*;
use crate::config::resolved;
use crate::config::ResolvedConfig;
use crate::config::TrainConfig;
use crate::error::TrainError;
use crate::input::Input;
use crate::kinds::NormalizationParameterType;
use crate::matrix::Matrix;
use crate::shape::weight_shape;
use crate::shape::weight_shape_for;
use crate::shape::Shape;
use crate::weight::epochs_along;
use crate::weight::grad_keeps_shape;
use crate::weight::grad_wf;
use crate::weight::run_epochs;
use crate::weight::Weight;

verus! {

/// `inp` holds `normalized` with a column of `one` in front, the targets
/// `output`, and the normalization `params` of kind `kind`.
pub open spec fn prepared_from<T: Copy>(
    inp: Input<T>,
    normalized: Matrix<T>,
    params: Matrix<T>,
    output: Matrix<T>,
    kind: NormalizationParameterType,
    one: T,
) -> bool {
    &&& inp.wf()
    &&& inp.features()@.len() == normalized@.len()
    &&& inp.features().width() == normalized.width() + 1
    &&& forall|i: int|
        0 <= i < normalized@.len() ==> #[trigger] inp.features()@[i] == seq![one] + normalized@[i]
    &&& inp.targets() == output
    &&& inp.parameters() == params
    &&& inp.kind() == kind
}

/// `w` and `inp` are what a run of `config` on `input` and `output` leaves:
/// `inp` is the normalized input with the bias column in front, and `w` the
/// weight that `init` gave, moved by `config.epochs` epochs.
pub open spec fn trained_by<T: Copy, N: Fn(NormalizationParameterType, &Matrix<T>) -> (
    Matrix<T>,
    Matrix<T>,
), I: Fn(usize, usize) -> Matrix<T>, G: Fn(&ResolvedConfig<T>, &Matrix<T>, &Matrix<T>, &Matrix<T>) -> Matrix<
    T,
>, S: Fn(T, T) -> T>(
    config: TrainConfig<T>,
    one: T,
    input: Matrix<T>,
    output: Matrix<T>,
    normalize: N,
    init: I,
    grad: &G,
    step: &S,
    w: Weight<T>,
    inp: Input<T>,
) -> bool {
    let c = resolved(config, one);
    let shape = weight_shape(input.shape_of(), output.shape_of());
    exists|normalized: Matrix<T>, params: Matrix<T>, w0: Matrix<T>, ws: Seq<Matrix<T>>|
        #[trigger] normalize.ensures((c.normalization_parameter_type, &input), (normalized, params))
            && prepared_from(inp, normalized, params, output, c.normalization_parameter_type, one)
            && #[trigger] init.ensures((shape.rows, shape.cols), w0) && w0.shape_of() == shape
            && w.wf() && w.matrix().shape_of() == shape && ws.len() == config.epochs + 1 && ws[0]
            == w0 && ws[config.epochs as int] == w.matrix() && #[trigger] epochs_along(
            inp.features(),
            output,
            c.optimizer,
            Some(c.mini_batch_size),
            &c,
            grad,
            step,
            ws,
        )
}

/// Trains a linear model on `input` (samples × features) and `output`
/// (samples × targets) with the options `config`, `one` standing for the
/// unit value:
/// the options are resolved to their defaults; `normalize(kind, input)`
/// gives the normalized features and their `2 × C` parameters; a bias column
/// of `one` is put in front; `init(rows, cols)` gives the initial
/// `(C + 1) × K` weight; then `config.epochs` epochs of the resolved method
/// run, each gradient computed by `grad(resolved_config, batch_input,
/// batch_targets, weight)` and applied by `step`.
/// Refused with `InvalidConfig` for a run of no epochs, and with
/// `ShapeMismatch` where features and targets differ in rows, or a closure
/// hands back a matrix of the wrong shape.
pub fn train<T: Copy, N: Fn(NormalizationParameterType, &Matrix<T>) -> (Matrix<T>, Matrix<T>), I: Fn(
    usize,
    usize,
) -> Matrix<T>, G: Fn(&ResolvedConfig<T>, &Matrix<T>, &Matrix<T>, &Matrix<T>) -> Matrix<T>, S: Fn(
    T,
    T,
) -> T>(
    input: Matrix<T>,
    output: Matrix<T>,
    config: &TrainConfig<T>,
    one: T,
    normalize: N,
    init: I,
    grad: &G,
    step: &S,
) -> (r: Result<(Weight<T>, Input<T>), TrainError>)
    requires
        input.wf(),
        output.wf(),
        input.width() < usize::MAX,
        forall|k: NormalizationParameterType, m: &Matrix<T>| #[trigger] normalize.requires((k, m)),
        forall|k: NormalizationParameterType, m: &Matrix<T>, p: (Matrix<T>, Matrix<T>)|
            #[trigger] normalize.ensures((k, m), p) ==> p.0.wf() && p.1.wf(),
        forall|a: usize, b: usize| #[trigger] init.requires((a, b)),
        forall|a: usize, b: usize, m: Matrix<T>| #[trigger] init.ensures((a, b), m) ==> m.wf(),
        forall|c: &ResolvedConfig<T>, x: &Matrix<T>, y: &Matrix<T>, w: &Matrix<T>|
            #[trigger] grad.requires((c, x, y, w)),
        forall|a: T, b: T| #[trigger] step.requires((a, b)),
        grad_wf(grad),
    ensures
        config.epochs == 0 ==> r == Err::<(Weight<T>, Input<T>), TrainError>(
            TrainError::InvalidConfig,
        ),
        config.epochs > 0 && input@.len() != output@.len() ==> r == Err::<
            (Weight<T>, Input<T>),
            TrainError,
        >(TrainError::ShapeMismatch),
        r is Err ==> r == Err::<(Weight<T>, Input<T>), TrainError>(TrainError::InvalidConfig)
            || r == Err::<(Weight<T>, Input<T>), TrainError>(TrainError::ShapeMismatch),
        r matches Ok(res) ==> trained_by(
            *config,
            one,
            input,
            output,
            normalize,
            init,
            grad,
            step,
            res.0,
            res.1,
        ),
        config.epochs > 0 && input@.len() == output@.len() && (forall|
            k: NormalizationParameterType,
            m: &Matrix<T>,
            p: (Matrix<T>, Matrix<T>),
        |
            #[trigger] normalize.ensures((k, m), p) ==> p.0.shape_of() == m.shape_of()
                && p.1.shape_of() == (Shape { rows: 2, cols: m.shape_of().cols }))
            && (forall|a: usize, b: usize, m: Matrix<T>| #[trigger] init.ensures((a, b), m)
            ==> m.shape_of() == (Shape { rows: a, cols: b })) && grad_keeps_shape(grad) ==> r is Ok,
{
    let c = config.resolve(one)?;
    if input.nrows() != output.nrows() {
        return Err(TrainError::ShapeMismatch);
    }
    let kind = c.normalization_parameter_type;
    let (normalized, params) = normalize(kind, &input);
    if normalized.nrows() != input.nrows() || normalized.ncols() != input.ncols() {
        return Err(TrainError::ShapeMismatch);
    }
    let ghost normalized_spec = normalized;
    let ghost params_spec = params;
    let ghost output_spec = output;
    let mut prepared = Input::new(normalized, output, kind, params)?;
    prepared.adjust_input(one);
    let shape = weight_shape_for(input.shape(), prepared.get_output_matrix().shape());
    let w0 = init(shape.rows, shape.cols);
    if w0.nrows() != shape.rows || w0.ncols() != shape.cols {
        return Err(TrainError::ShapeMismatch);
    }
    let ghost w0_spec = w0;
    let mut weight = Weight::from_matrix(w0);
    let res = run_epochs(
        prepared.get_input_matrix(),
        prepared.get_output_matrix(),
        &mut weight,
        c.epochs,
        c.optimizer,
        Some(c.mini_batch_size),
        &c,
        grad,
        step,
    );
    if res.is_err() {
        return Err(TrainError::ShapeMismatch);
    }
    proof {
        let ws = choose|ws: Seq<Matrix<T>>|
            ws.len() == c.epochs + 1 && ws[0] == w0_spec && ws[c.epochs as int] == weight.matrix()
                && #[trigger] epochs_along(
                prepared.features(),
                prepared.targets(),
                c.optimizer,
                Some(c.mini_batch_size),
                &c,
                grad,
                step,
                ws,
            );
        let sh = weight_shape(input.shape_of(), output_spec.shape_of());
        assert(shape == sh);
        assert(init.ensures((sh.rows, sh.cols), w0_spec));
        assert(trained_by(*config, one, input, output_spec, normalize, init, grad, step, weight, prepared));
    }
    Ok((weight, prepared))
}

} // verus!
