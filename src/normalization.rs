//! Column-wise rescaling of a feature matrix and its inverse.
use vstd::prelude::*;
use crate::matrix::Matrix;
use crate::shape::Shape;

verus! {

/// Column `j` of `after` is column `j` of `before` rescaled with the
/// parameter pair `(a, b)`: either `degenerate` judged the pair degenerate
/// and the column is unchanged, or it judged it not and every entry `x`
/// became `f(x, a, b)`.
pub open spec fn column_rescaled<T: Copy, D: Fn(T, T) -> bool, F: Fn(T, T, T) -> T>(
    before: Matrix<T>,
    after: Matrix<T>,
    j: int,
    a: T,
    b: T,
    degenerate: D,
    f: F,
) -> bool {
    ||| degenerate.ensures((a, b), true) && forall|i: int|
        0 <= i < before@.len() ==> #[trigger] after.at(i, j) == before.at(i, j)
    ||| degenerate.ensures((a, b), false) && forall|i: int|
        0 <= i < before@.len() ==> f.ensures((before.at(i, j), a, b), #[trigger] after.at(i, j))
}

/// Every column of `after` is that of `before` rescaled with the pair that
/// column `j` of `params` holds.
pub open spec fn rescaled_by<T: Copy, D: Fn(T, T) -> bool, F: Fn(T, T, T) -> T>(
    before: Matrix<T>,
    after: Matrix<T>,
    params: Matrix<T>,
    degenerate: D,
    f: F,
) -> bool {
    &&& after.wf()
    &&& after.shape_of() == before.shape_of()
    &&& forall|j: int|
        0 <= j < before.width() ==> #[trigger] column_rescaled(
            before,
            after,
            j,
            params.at(0, j),
            params.at(1, j),
            degenerate,
            f,
        )
}

/// `m` rescaled column by column with the pairs held by `params` (row 0 and
/// row 1 of column `j` for column `j`).
fn rescale_columns<T: Copy, D: Fn(T, T) -> bool, F: Fn(T, T, T) -> T>(
    m: &Matrix<T>,
    params: &Matrix<T>,
    degenerate: &D,
    f: &F,
) -> (r: Matrix<T>)
    requires
        m.wf(),
        params.wf(),
        params.shape_of() == (Shape { rows: 2, cols: m.width() as usize }),
        forall|a: T, b: T| #[trigger] degenerate.requires((a, b)),
        forall|x: T, a: T, b: T| #[trigger] f.requires((x, a, b)),
    ensures
        rescaled_by(*m, r, *params, degenerate, f),
{
    let cols = m.ncols();
    let mut keep: Vec<bool> = Vec::new();
    let mut j: usize = 0;
    while j < cols
        invariant
            j <= cols,
            cols == m.width(),
            params.wf(),
            params.shape_of() == (Shape { rows: 2, cols: m.width() as usize }),
            forall|a: T, b: T| #[trigger] degenerate.requires((a, b)),
            keep@.len() == j,
            forall|c: int|
                0 <= c < j ==> degenerate.ensures(
                    (params.at(0, c), params.at(1, c)),
                    #[trigger] keep@[c],
                ),
        decreases cols - j,
    {
        let d = degenerate(params.get(0, j), params.get(1, j));
        keep.push(d);
        j += 1;
    }
    let rows = m.nrows();
    let mut out: Vec<Vec<T>> = Vec::new();
    let mut i: usize = 0;
    while i < rows
        invariant
            i <= rows,
            rows == m@.len(),
            cols == m.width(),
            m.wf(),
            params.wf(),
            params.shape_of() == (Shape { rows: 2, cols: m.width() as usize }),
            forall|x: T, a: T, b: T| #[trigger] f.requires((x, a, b)),
            keep@.len() == cols,
            out@.len() == i,
            forall|k: int| 0 <= k < i ==> (#[trigger] out@[k])@.len() == cols,
            forall|k: int, c: int|
                0 <= k < i && 0 <= c < cols ==> if keep@[c] {
                    #[trigger] out@[k]@[c] == m.at(k, c)
                } else {
                    f.ensures((m.at(k, c), params.at(0, c), params.at(1, c)), out@[k]@[c])
                },
        decreases rows - i,
    {
        let mut row: Vec<T> = Vec::new();
        let mut c: usize = 0;
        while c < cols
            invariant
                c <= cols,
                i < rows,
                rows == m@.len(),
                cols == m.width(),
                m.wf(),
                params.wf(),
                params.shape_of() == (Shape { rows: 2, cols: m.width() as usize }),
                forall|x: T, a: T, b: T| #[trigger] f.requires((x, a, b)),
                keep@.len() == cols,
                row@.len() == c,
                forall|e: int|
                    0 <= e < c ==> if keep@[e] {
                        #[trigger] row@[e] == m.at(i as int, e)
                    } else {
                        f.ensures((m.at(i as int, e), params.at(0, e), params.at(1, e)), row@[e])
                    },
            decreases cols - c,
        {
            let x = m.get(i, c);
            if keep[c] {
                row.push(x);
            } else {
                let y = f(x, params.get(0, c), params.get(1, c));
                row.push(y);
            }
            c += 1;
        }
        out.push(row);
        i += 1;
    }
    let r = Matrix::from_rows(cols, out);
    proof {
        let s = out@.map_values(|v: Vec<T>| v@);
        assert forall|k: int| 0 <= k < s.len() implies #[trigger] s[k].len() == cols by {
            assert(out@[k]@.len() == cols);
        }
    }
    let r = r.unwrap();
    proof {
        assert forall|c: int| 0 <= c < m.width() implies #[trigger] column_rescaled(
            *m,
            r,
            c,
            params.at(0, c),
            params.at(1, c),
            degenerate,
            f,
        ) by {
            assert(degenerate.ensures((params.at(0, c), params.at(1, c)), keep@[c]));
            if keep@[c] {
                assert forall|k: int| 0 <= k < m@.len() implies #[trigger] r.at(k, c) == m.at(k, c) by {
                    assert(out@[k]@[c] == m.at(k, c));
                }
            } else {
                assert forall|k: int| 0 <= k < m@.len() implies f.ensures(
                    (m.at(k, c), params.at(0, c), params.at(1, c)),
                    #[trigger] r.at(k, c),
                ) by {
                    assert(f.ensures((m.at(k, c), params.at(0, c), params.at(1, c)), out@[k]@[c]));
                }
            }
        }
    }
    r
}

/// Rescales every column of `input` in place and returns the `2 × C`
/// parameters: column `j` holds the pair `stats(input, j)` computed on the
/// input as given (mean and standard deviation, or minimum and maximum).
/// A column whose pair `degenerate` judges degenerate (zero deviation, or
/// equal minimum and maximum) is left as it is; every entry `x` of another
/// column becomes `scale(x, a, b)`.
pub fn normalize_data<T: Copy, P: Fn(&Matrix<T>, usize) -> (T, T), D: Fn(T, T) -> bool, F: Fn(
    T,
    T,
    T,
) -> T>(input: &mut Matrix<T>, stats: &P, degenerate: &D, scale: &F) -> (r: Matrix<T>)
    requires
        old(input).wf(),
        forall|m: &Matrix<T>, j: usize| #[trigger] stats.requires((m, j)),
        forall|a: T, b: T| #[trigger] degenerate.requires((a, b)),
        forall|x: T, a: T, b: T| #[trigger] scale.requires((x, a, b)),
    ensures
        r.wf(),
        r.shape_of() == (Shape { rows: 2, cols: old(input).width() as usize }),
        forall|j: int|
            0 <= j < old(input).width() ==> stats.ensures(
                (&*old(input), j as usize),
                (#[trigger] r.at(0, j), r.at(1, j)),
            ),
        rescaled_by(*old(input), *final(input), r, degenerate, scale),
{
    let cols = input.ncols();
    let mut first: Vec<T> = Vec::new();
    let mut second: Vec<T> = Vec::new();
    let mut j: usize = 0;
    while j < cols
        invariant
            j <= cols,
            cols == input.width(),
            forall|m: &Matrix<T>, k: usize| #[trigger] stats.requires((m, k)),
            first@.len() == j,
            second@.len() == j,
            forall|c: int|
                0 <= c < j ==> stats.ensures((&*input, c as usize), (#[trigger] first@[c], second@[c])),
        decreases cols - j,
    {
        let (a, b) = stats(&*input, j);
        first.push(a);
        second.push(b);
        j += 1;
    }
    let ghost first_s = first@;
    let ghost second_s = second@;
    let mut rows: Vec<Vec<T>> = Vec::new();
    rows.push(first);
    rows.push(second);
    proof {
        let s = rows@.map_values(|v: Vec<T>| v@);
        assert(s[0] == first_s && s[1] == second_s);
        assert forall|k: int| 0 <= k < s.len() implies #[trigger] s[k].len() == cols by {}
    }
    let params = Matrix::from_rows(cols, rows).unwrap();
    let next = rescale_columns(input, &params, degenerate, scale);
    *input = next;
    proof {
        assert forall|c: int| 0 <= c < cols implies stats.ensures(
            (&*old(input), c as usize),
            (#[trigger] params.at(0, c), params.at(1, c)),
        ) by {
            assert(stats.ensures((&*old(input), c as usize), (first_s[c], second_s[c])));
        }
    }
    params
}

/// Undoes `normalize_data` in place: every column whose pair in `params`
/// `degenerate` judges not degenerate has each entry `x` replaced by
/// `unscale(x, a, b)`; the other columns are left as they are.
pub fn denormalize_data<T: Copy, D: Fn(T, T) -> bool, F: Fn(T, T, T) -> T>(
    input: &mut Matrix<T>,
    params: &Matrix<T>,
    degenerate: &D,
    unscale: &F,
)
    requires
        old(input).wf(),
        params.wf(),
        params.shape_of() == (Shape { rows: 2, cols: old(input).width() as usize }),
        forall|a: T, b: T| #[trigger] degenerate.requires((a, b)),
        forall|x: T, a: T, b: T| #[trigger] unscale.requires((x, a, b)),
    ensures
        rescaled_by(*old(input), *final(input), *params, degenerate, unscale),
{
    let next = rescale_columns(input, params, degenerate, unscale);
    *input = next;
}

/// A column whose recorded pair is judged degenerate, by a `degenerate` that
/// is a function of the pair, is left exactly as it was.
pub proof fn lemma_degenerate_column_unchanged<T: Copy, D: Fn(T, T) -> bool, F: Fn(T, T, T) -> T>(
    before: Matrix<T>,
    after: Matrix<T>,
    params: Matrix<T>,
    degenerate: D,
    f: F,
    j: int,
)
    requires
        rescaled_by(before, after, params, degenerate, f),
        0 <= j < before.width(),
        degenerate.ensures((params.at(0, j), params.at(1, j)), true),
        forall|a: T, b: T, p: bool, q: bool|
            degenerate.ensures((a, b), p) && degenerate.ensures((a, b), q) ==> p == q,
    ensures
        forall|i: int| 0 <= i < before@.len() ==> #[trigger] after.at(i, j) == before.at(i, j),
{
    assert(column_rescaled(before, after, j, params.at(0, j), params.at(1, j), degenerate, f));
}

/// Denormalizing a normalized matrix with the parameters normalization
/// recorded gives the matrix back, wherever `unscale` undoes `scale` on the
/// pairs that `degenerate`, a function of the pair, judges not degenerate;
/// columns judged degenerate are untouched both ways.
pub proof fn lemma_round_trip<T: Copy, D: Fn(T, T) -> bool, F: Fn(T, T, T) -> T, U: Fn(
    T,
    T,
    T,
) -> T>(
    x: Matrix<T>,
    normalized: Matrix<T>,
    restored: Matrix<T>,
    params: Matrix<T>,
    degenerate: D,
    scale: F,
    unscale: U,
)
    requires
        x.wf(),
        rescaled_by(x, normalized, params, degenerate, scale),
        rescaled_by(normalized, restored, params, degenerate, unscale),
        forall|a: T, b: T, p: bool, q: bool|
            degenerate.ensures((a, b), p) && degenerate.ensures((a, b), q) ==> p == q,
        forall|v: T, a: T, b: T, y: T, z: T|
            degenerate.ensures((a, b), false) && scale.ensures((v, a, b), y) && unscale.ensures(
                (y, a, b),
                z,
            ) ==> z == v,
    ensures
        restored@ == x@,
{
    assert forall|i: int, j: int| 0 <= i < x@.len() && 0 <= j < x.width() implies #[trigger] restored.at(
        i,
        j,
    ) == x.at(i, j) by {
        assert(column_rescaled(x, normalized, j, params.at(0, j), params.at(1, j), degenerate, scale));
        assert(column_rescaled(normalized, restored, j, params.at(0, j), params.at(1, j), degenerate, unscale));
    }
    assert forall|i: int| 0 <= i < x@.len() implies #[trigger] restored@[i] == x@[i] by {
        assert(restored@[i].len() == restored.width());
        assert(x@[i].len() == x.width());
        assert forall|j: int| 0 <= j < x.width() implies #[trigger] restored@[i][j] == x@[i][j] by {
            assert(restored.at(i, j) == x.at(i, j));
        }
        assert(restored@[i] =~= x@[i]);
    }
    assert(restored@ =~= x@);
}

} // verus!
