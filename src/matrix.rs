//! A dense matrix held row by row, generic over its element type.
use vstd::prelude::*;
use crate::error::TrainError;
use crate::shape::Shape;

verus! {

/// A `rows × cols` matrix: `cols` is kept apart so that a matrix with no
/// rows still has a width.
pub struct Matrix<T> {
    cols: usize,
    data: Vec<Vec<T>>,
}

impl<T> View for Matrix<T> {
    type V = Seq<Seq<T>>;

    closed spec fn view(&self) -> Seq<Seq<T>> {
        self.data@.map_values(|r: Vec<T>| r@)
    }
}

/// Every row of `m` has `cols` entries.
pub open spec fn rows_have_width<T>(m: Seq<Seq<T>>, cols: nat) -> bool {
    forall|i: int| 0 <= i < m.len() ==> #[trigger] m[i].len() == cols
}

impl<T: Copy> Matrix<T> {
    /// Number of columns.
    pub closed spec fn width(&self) -> nat {
        self.cols as nat
    }

    /// The shape of the matrix.
    pub open spec fn shape_of(&self) -> Shape {
        Shape { rows: self@.len() as usize, cols: self.width() as usize }
    }

    /// Every row has the matrix's width.
    pub open spec fn wf(&self) -> bool {
        &&& rows_have_width(self@, self.width())
        &&& self@.len() <= usize::MAX
        &&& self.width() <= usize::MAX
    }

    /// The entry in row `i`, column `j`.
    pub open spec fn at(&self, i: int, j: int) -> T {
        self@[i][j]
    }

    /// The matrix with the given rows, each of which must hold `cols`
    /// entries; `None` when one does not.
    pub fn from_rows(cols: usize, rows: Vec<Vec<T>>) -> (r: Option<Matrix<T>>)
        ensures
            r is Some <==> rows_have_width(rows@.map_values(|v: Vec<T>| v@), cols as nat),
            r matches Some(m) ==> m.wf() && m@ == rows@.map_values(|v: Vec<T>| v@) && m.width()
                == cols,
    {
        let mut i: usize = 0;
        while i < rows.len()
            invariant
                i <= rows.len(),
                forall|k: int| 0 <= k < i ==> (#[trigger] rows@[k])@.len() == cols,
            decreases rows.len() - i,
        {
            if rows[i].len() != cols {
                proof {
                    let m = rows@.map_values(|v: Vec<T>| v@);
                    assert(m[i as int].len() != cols);
                }
                return None;
            }
            i += 1;
        }
        let m = Matrix { cols, data: rows };
        proof {
            let s = rows@.map_values(|v: Vec<T>| v@);
            assert forall|k: int| 0 <= k < s.len() implies #[trigger] s[k].len() == cols by {
                assert(rows@[k]@.len() == cols);
            }
        }
        Some(m)
    }

    /// A `rows × cols` matrix with every entry `v`.
    pub fn filled(rows: usize, cols: usize, v: T) -> (r: Matrix<T>)
        ensures
            r.wf(),
            r.shape_of() == (Shape { rows, cols }),
            forall|i: int, j: int| 0 <= i < rows && 0 <= j < cols ==> #[trigger] r.at(i, j) == v,
    {
        let mut data: Vec<Vec<T>> = Vec::new();
        let mut i: usize = 0;
        while i < rows
            invariant
                i <= rows,
                data@.len() == i,
                forall|k: int|
                    0 <= k < i ==> (#[trigger] data@[k])@ == Seq::new(cols as nat, |_j: int| v),
            decreases rows - i,
        {
            let mut row: Vec<T> = Vec::new();
            let mut j: usize = 0;
            while j < cols
                invariant
                    j <= cols,
                    row@ == Seq::new(j as nat, |_j: int| v),
                decreases cols - j,
            {
                row.push(v);
                j += 1;
                proof {
                    assert(row@ =~= Seq::new(j as nat, |_j: int| v));
                }
            }
            data.push(row);
            i += 1;
        }
        let r = Matrix { cols, data };
        proof {
            assert forall|k: int| 0 <= k < r@.len() implies #[trigger] r@[k].len() == cols by {
                assert(data@[k]@ == Seq::new(cols as nat, |_j: int| v));
            }
            assert forall|a: int, b: int| 0 <= a < rows && 0 <= b < cols implies #[trigger] r.at(
                a,
                b,
            ) == v by {
                assert(data@[a]@ == Seq::new(cols as nat, |_j: int| v));
            }
        }
        r
    }

    /// Number of rows.
    pub fn nrows(&self) -> (r: usize)
        ensures
            r == self@.len(),
    {
        self.data.len()
    }

    /// Number of columns.
    pub fn ncols(&self) -> (r: usize)
        ensures
            r == self.width(),
    {
        self.cols
    }

    /// The shape of the matrix.
    pub fn shape(&self) -> (r: Shape)
        ensures
            r == self.shape_of(),
    {
        Shape { rows: self.data.len(), cols: self.cols }
    }

    /// The entry in row `i`, column `j`.
    pub fn get(&self, i: usize, j: usize) -> (r: T)
        requires
            self.wf(),
            i < self.shape_of().rows,
            j < self.shape_of().cols,
        ensures
            r == self.at(i as int, j as int),
    {
        assert(self@[i as int].len() == self.width());
        self.data[i][j]
    }

    /// A copy of the matrix.
    pub fn copy(&self) -> (r: Matrix<T>)
        requires
            self.wf(),
        ensures
            r.wf(),
            r@ == self@,
            r.width() == self.width(),
    {
        let rows = self.to_rows();
        Matrix { cols: self.cols, data: rows }
    }

    /// The rows of the matrix, in order.
    pub fn to_rows(&self) -> (r: Vec<Vec<T>>)
        requires
            self.wf(),
        ensures
            r@.map_values(|v: Vec<T>| v@) == self@,
    {
        let mut out: Vec<Vec<T>> = Vec::new();
        let mut i: usize = 0;
        while i < self.data.len()
            invariant
                i <= self.data.len(),
                out@.len() == i,
                forall|k: int| 0 <= k < i ==> (#[trigger] out@[k])@ == self.data@[k]@,
            decreases self.data.len() - i,
        {
            let row = copy_row(&self.data[i]);
            out.push(row);
            i += 1;
        }
        assert(out@.map_values(|v: Vec<T>| v@) =~= self@);
        out
    }

    /// Rows `start .. end` as a matrix of the same width.
    pub fn slice_rows(&self, start: usize, end: usize) -> (r: Matrix<T>)
        requires
            self.wf(),
            start <= end <= self@.len(),
        ensures
            r.wf(),
            r@ == self@.subrange(start as int, end as int),
            r.width() == self.width(),
    {
        let mut out: Vec<Vec<T>> = Vec::new();
        let mut i: usize = start;
        while i < end
            invariant
                start <= i <= end,
                end <= self.data.len(),
                out@.len() == i - start,
                forall|k: int|
                    0 <= k < i - start ==> (#[trigger] out@[k])@ == self.data@[start + k]@,
            decreases end - i,
        {
            let row = copy_row(&self.data[i]);
            out.push(row);
            i += 1;
        }
        let r = Matrix { cols: self.cols, data: out };
        assert(r@ =~= self@.subrange(start as int, end as int));
        r
    }

    /// The matrix with a column of `v` put in front of its first column.
    pub fn prepend_column(&self, v: T) -> (r: Matrix<T>)
        requires
            self.wf(),
            self.width() < usize::MAX,
        ensures
            r.wf(),
            r.width() == self.width() + 1,
            r@.len() == self@.len(),
            forall|i: int| 0 <= i < self@.len() ==> #[trigger] r@[i] == seq![v] + self@[i],
    {
        let mut out: Vec<Vec<T>> = Vec::new();
        let mut i: usize = 0;
        while i < self.data.len()
            invariant
                i <= self.data.len(),
                out@.len() == i,
                forall|k: int|
                    0 <= k < i ==> (#[trigger] out@[k])@ == seq![v] + self.data@[k]@,
            decreases self.data.len() - i,
        {
            let src = &self.data[i];
            let mut row: Vec<T> = Vec::new();
            row.push(v);
            let mut j: usize = 0;
            while j < src.len()
                invariant
                    j <= src.len(),
                    row@ == seq![v] + src@.subrange(0, j as int),
                decreases src.len() - j,
            {
                row.push(src[j]);
                j += 1;
                proof {
                    assert(row@ =~= seq![v] + src@.subrange(0, j as int));
                }
            }
            assert(src@.subrange(0, src@.len() as int) =~= src@);
            out.push(row);
            i += 1;
        }
        let r = Matrix { cols: self.cols + 1, data: out };
        proof {
            assert forall|k: int| 0 <= k < r@.len() implies #[trigger] r@[k].len() == r.width() by {
                assert(self@[k].len() == self.width());
            }
        }
        r
    }

    /// The matrix whose entry `(i, j)` is `f(self[i][j], other[i][j])`;
    /// both matrices must have the same shape.
    pub fn zip_with<F: Fn(T, T) -> T>(&self, other: &Matrix<T>, f: F) -> (r: Matrix<T>)
        requires
            self.wf(),
            other.wf(),
            self.shape_of() == other.shape_of(),
            forall|a: T, b: T| #[trigger] f.requires((a, b)),
        ensures
            r.wf(),
            r.shape_of() == self.shape_of(),
            forall|i: int, j: int|
                0 <= i < self@.len() && 0 <= j < self.width() ==> f.ensures(
                    (self.at(i, j), other.at(i, j)),
                    #[trigger] r.at(i, j),
                ),
    {
        let mut out: Vec<Vec<T>> = Vec::new();
        let mut i: usize = 0;
        while i < self.data.len()
            invariant
                i <= self.data.len(),
                self.wf(),
                other.wf(),
                self.shape_of() == other.shape_of(),
                forall|a: T, b: T| #[trigger] f.requires((a, b)),
                out@.len() == i,
                forall|k: int| 0 <= k < i ==> (#[trigger] out@[k])@.len() == self.cols,
                forall|k: int, j: int|
                    0 <= k < i && 0 <= j < self.cols ==> f.ensures(
                        (self.data@[k]@[j], other.data@[k]@[j]),
                        #[trigger] out@[k]@[j],
                    ),
            decreases self.data.len() - i,
        {
            assert(self@[i as int].len() == self.width());
            assert(other@[i as int].len() == self.width());
            let a = &self.data[i];
            let b = &other.data[i];
            let mut row: Vec<T> = Vec::new();
            let mut j: usize = 0;
            while j < self.cols
                invariant
                    j <= self.cols,
                    a@.len() == self.cols,
                    b@.len() == self.cols,
                    forall|x: T, y: T| #[trigger] f.requires((x, y)),
                    row@.len() == j,
                    forall|c: int| 0 <= c < j ==> f.ensures((a@[c], b@[c]), #[trigger] row@[c]),
                decreases self.cols - j,
            {
                let e = f(a[j], b[j]);
                row.push(e);
                j += 1;
            }
            out.push(row);
            i += 1;
        }
        Matrix { cols: self.cols, data: out }
    }
}

fn copy_row<T: Copy>(v: &Vec<T>) -> (r: Vec<T>)
    ensures
        r@ == v@,
{
    let mut out: Vec<T> = Vec::new();
    let mut j: usize = 0;
    while j < v.len()
        invariant
            j <= v.len(),
            out@ == v@.subrange(0, j as int),
        decreases v.len() - j,
    {
        out.push(v[j]);
        j += 1;
        proof {
            assert(out@ =~= v@.subrange(0, j as int));
        }
    }
    assert(out@ =~= v@);
    out
}

} // verus!
