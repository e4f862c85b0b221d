//! The training input: normalized features, targets, and the parameters
//! that undo the normalization.
use vstd::prelude::*;
use crate::error::TrainError;
use crate::kinds::NormalizationParameterType;
use crate::matrix::Matrix;
use crate::shape::Shape;

verus! {

/// Features (later with the bias column in front), targets, and the `2 × C`
/// normalization parameters of the `C` feature columns: row 0 holds each
/// column's mean or minimum, row 1 its standard deviation or maximum.
pub struct Input<T> {
    input: Matrix<T>,
    output: Matrix<T>,
    normalization_parameter_type: NormalizationParameterType,
    normalization_parameters: Matrix<T>,
}

impl<T: Copy> Input<T> {
    /// The feature matrix.
    pub closed spec fn features(&self) -> Matrix<T> {
        self.input
    }

    /// The target matrix.
    pub closed spec fn targets(&self) -> Matrix<T> {
        self.output
    }

    /// The normalization parameters.
    pub closed spec fn parameters(&self) -> Matrix<T> {
        self.normalization_parameters
    }

    /// The kind of normalization the features went through.
    pub closed spec fn kind(&self) -> NormalizationParameterType {
        self.normalization_parameter_type
    }

    /// Well-formed: every matrix is well formed and features and targets
    /// have the same rows.
    pub open spec fn wf(&self) -> bool {
        &&& self.features().wf()
        &&& self.targets().wf()
        &&& self.parameters().wf()
        &&& self.features()@.len() == self.targets()@.len()
    }

    /// Input from normalized features, their targets, and the parameters of
    /// the normalization; `ShapeMismatch` where features and targets have
    /// different row counts, or the parameters are not `2 × C` for `C`
    /// feature columns.
    pub fn new(
        input: Matrix<T>,
        output: Matrix<T>,
        normalization_parameter_type: NormalizationParameterType,
        normalization_parameters: Matrix<T>,
    ) -> (r: Result<Input<T>, TrainError>)
        requires
            input.wf(),
            output.wf(),
            normalization_parameters.wf(),
        ensures
            r is Ok <==> input@.len() == output@.len() && normalization_parameters.shape_of() == (
            Shape { rows: 2, cols: input.width() as usize }),
            r matches Ok(i) ==> i.wf() && i.features() == input && i.targets() == output
                && i.parameters() == normalization_parameters && i.kind()
                == normalization_parameter_type,
            r is Err ==> r == Err::<Input<T>, TrainError>(TrainError::ShapeMismatch),
    {
        if input.nrows() != output.nrows() || normalization_parameters.nrows() != 2
            || normalization_parameters.ncols() != input.ncols() {
            return Err(TrainError::ShapeMismatch);
        }
        Ok(Input { input, output, normalization_parameter_type, normalization_parameters })
    }

    /// Puts a column of `bias` in front of the features, so that the first
    /// row of the weight acts as an intercept: an `R × C` feature matrix
    /// becomes `R × (C + 1)`.
    pub fn adjust_input(&mut self, bias: T)
        requires
            old(self).wf(),
            old(self).features().width() < usize::MAX,
        ensures
            final(self).wf(),
            final(self).features().width() == old(self).features().width() + 1,
            final(self).features()@.len() == old(self).features()@.len(),
            forall|i: int|
                0 <= i < old(self).features()@.len() ==> #[trigger] final(self).features()@[i]
                    == seq![bias] + old(self).features()@[i],
            final(self).targets() == old(self).targets(),
            final(self).parameters() == old(self).parameters(),
            final(self).kind() == old(self).kind(),
    {
        self.input = self.input.prepend_column(bias);
    }

    /// The feature matrix.
    pub fn get_input_matrix(&self) -> (r: &Matrix<T>)
        ensures
            *r == self.features(),
    {
        &self.input
    }

    /// The target matrix.
    pub fn get_output_matrix(&self) -> (r: &Matrix<T>)
        ensures
            *r == self.targets(),
    {
        &self.output
    }

    /// The normalization parameters.
    pub fn get_normalization_parameters(&self) -> (r: &Matrix<T>)
        ensures
            *r == self.parameters(),
    {
        &self.normalization_parameters
    }

    /// The kind of normalization the features went through.
    pub fn normalization_kind(&self) -> (r: NormalizationParameterType)
        ensures
            r == self.kind(),
    {
        self.normalization_parameter_type
    }
}

} // verus!
