//! Dense row-major matrices of scalar bit patterns, with shape-exact
//! contracts for every operation the trainer performs on them.

use vstd::prelude::*;
use vstd::pervasive::VecAdditionalExecFns;

use crate::scalar::{Scalar, ScalarOps, ZERO_BITS};

verus! {

/// A dense matrix stored row by row: the element in row `i` and column `j`
/// sits at position `i * cols + j` of `data`.
pub struct Matrix {
    /// Number of rows.
    pub rows: usize,
    /// Number of columns.
    pub cols: usize,
    /// The elements, row-major.
    pub data: Vec<Scalar>,
}

/// A position inside a row-major matrix stays inside its element count.
pub proof fn lemma_index_bound(i: int, j: int, rows: int, cols: int)
    by (nonlinear_arith)
    requires
        0 <= i < rows,
        0 <= j < cols,
    ensures
        0 <= i * cols + j < rows * cols,
{
}

/// One more full row advances a row-major position by one row length.
pub proof fn lemma_row_step(i: int, cols: int)
    by (nonlinear_arith)
    ensures
        (i + 1) * cols == i * cols + cols,
{
}

impl Matrix {
    /// The element count matches the declared shape.
    pub open spec fn wf(self) -> bool {
        self.data.len() == self.rows * self.cols
    }

    /// The element in row `i`, column `j`.
    pub open spec fn entry(self, i: int, j: int) -> Scalar {
        self.data[i * self.cols + j]
    }

    /// Whether another matrix has this matrix's shape.
    pub open spec fn same_dims(self, other: Matrix) -> bool {
        self.rows == other.rows && self.cols == other.cols
    }

    /// Wraps row-major element data in the declared shape.
    pub fn new(rows: usize, cols: usize, data: Vec<Scalar>) -> (r: Matrix)
        requires
            data.len() == rows * cols,
        ensures
            r.wf(),
            r.rows == rows,
            r.cols == cols,
            r.data == data,
    {
        Matrix { rows, cols, data }
    }

    /// Reads the element in row `i`, column `j`.
    pub fn get(&self, i: usize, j: usize) -> (r: Scalar)
        requires
            self.wf(),
            i < self.rows,
            j < self.cols,
        ensures
            r == self.entry(i as int, j as int),
    {
        proof {
            lemma_index_bound(i as int, j as int, self.rows as int, self.cols as int);
        }
        self.data[i * self.cols + j]
    }

    /// A matrix of the given shape with every element equal to `v`.
    pub fn fill(rows: usize, cols: usize, v: Scalar) -> (r: Matrix)
        requires
            rows * cols <= usize::MAX,
        ensures
            r.wf(),
            r.rows == rows,
            r.cols == cols,
            forall|i: int, j: int|
                0 <= i < rows && 0 <= j < cols ==> r.entry(i, j) == v,
    {
        let n: usize = rows * cols;
        let mut data: Vec<Scalar> = Vec::new();
        let mut k: usize = 0;
        while k < n
            invariant
                k <= n,
                data.len() == k,
                forall|m: int| 0 <= m < k ==> data[m] == v,
            decreases n - k,
        {
            data.push(v);
            k = k + 1;
        }
        let r = Matrix { rows, cols, data };
        proof {
            assert forall|i: int, j: int|
                0 <= i < rows && 0 <= j < cols implies r.entry(i, j) == v by {
                lemma_index_bound(i, j, rows as int, cols as int);
            }
        }
        r
    }

    /// A matrix of the given shape filled with zero patterns.
    pub fn zeros(rows: usize, cols: usize) -> (r: Matrix)
        requires
            rows * cols <= usize::MAX,
        ensures
            r.wf(),
            r.rows == rows,
            r.cols == cols,
            forall|i: int, j: int|
                0 <= i < rows && 0 <= j < cols ==> r.entry(i, j) == ZERO_BITS,
    {
        Matrix::fill(rows, cols, ZERO_BITS)
    }

    /// A zero-filled matrix of another matrix's shape.
    pub fn zeros_like(m: &Matrix) -> (r: Matrix)
        requires
            m.wf(),
        ensures
            r.wf(),
            r.same_dims(*m),
            forall|i: int, j: int|
                0 <= i < m.rows && 0 <= j < m.cols ==> r.entry(i, j) == ZERO_BITS,
    {
        let n = m.data.len();
        assert(m.rows * m.cols == n);
        Matrix::fill(m.rows, m.cols, ZERO_BITS)
    }

    /// Copies row `i` out as a vector of its elements in column order.
    pub fn row(&self, i: usize) -> (r: Vec<Scalar>)
        requires
            self.wf(),
            i < self.rows,
        ensures
            r.len() == self.cols,
            forall|j: int| 0 <= j < self.cols ==> r[j] == self.entry(i as int, j),
    {
        let mut r: Vec<Scalar> = Vec::new();
        let mut j: usize = 0;
        while j < self.cols
            invariant
                self.wf(),
                i < self.rows,
                j <= self.cols,
                r.len() == j,
                forall|m: int| 0 <= m < j ==> r[m] == self.entry(i as int, m),
            decreases self.cols - j,
        {
            r.push(self.get(i, j));
            j = j + 1;
        }
        r
    }

    /// The transpose: rows and columns exchanged, every element carried over.
    pub fn transpose(&self) -> (r: Matrix)
        requires
            self.wf(),
        ensures
            r.wf(),
            r.rows == self.cols,
            r.cols == self.rows,
            forall|i: int, j: int|
                0 <= i < self.rows && 0 <= j < self.cols
                    ==> r.entry(j, i) == self.entry(i, j),
    {
        let mut data: Vec<Scalar> = Vec::new();
        let mut c: usize = 0;
        while c < self.cols
            invariant
                self.wf(),
                c <= self.cols,
                data.len() == c * self.rows,
                forall|jj: int, ii: int|
                    0 <= jj < c && 0 <= ii < self.rows
                        ==> data[jj * self.rows + ii] == self.entry(ii, jj),
            decreases self.cols - c,
        {
            let mut i: usize = 0;
            while i < self.rows
                invariant
                    self.wf(),
                    c < self.cols,
                    i <= self.rows,
                    data.len() == c * self.rows + i,
                    forall|jj: int, ii: int|
                        0 <= jj < c && 0 <= ii < self.rows
                            ==> data[jj * self.rows + ii] == self.entry(ii, jj),
                    forall|ii: int|
                        0 <= ii < i
                            ==> data[c * self.rows + ii] == self.entry(ii, c as int),
                decreases self.rows - i,
            {
                proof {
                    lemma_index_bound(c as int, i as int, self.cols as int, self.rows as int);
                }
                data.push(self.get(i, c));
                i = i + 1;
                proof {
                    assert forall|jj: int, ii: int|
                        0 <= jj < c && 0 <= ii < self.rows
                            implies data[jj * self.rows + ii] == self.entry(ii, jj) by {
                        lemma_index_bound(jj, ii, c as int, self.rows as int);
                    }
                }
            }
            proof {
                lemma_row_step(c as int, self.rows as int);
                assert forall|jj: int, ii: int|
                    0 <= jj < c + 1 && 0 <= ii < self.rows
                        implies data[jj * self.rows + ii] == self.entry(ii, jj) by {
                    lemma_index_bound(jj, ii, c as int + 1, self.rows as int);
                }
            }
            c = c + 1;
        }
        let r = Matrix { rows: self.cols, cols: self.rows, data };
        proof {
            assert forall|i: int, j: int|
                0 <= i < self.rows && 0 <= j < self.cols
                    implies r.entry(j, i) == self.entry(i, j) by {
                lemma_index_bound(j, i, self.cols as int, self.rows as int);
            }
        }
        r
    }
}

/// An elementwise arithmetic operation, deferred to the scalar backend.
#[derive(Clone, Copy)]
pub enum BinOp {
    /// Elementwise sum.
    Sum,
    /// Elementwise difference.
    Diff,
    /// Elementwise product.
    Prod,
    /// Elementwise quotient.
    Quot,
}

/// Applies one arithmetic operation to a pair of scalars.
pub fn combine<B: ScalarOps>(op: BinOp, x: Scalar, y: Scalar) -> Scalar {
    match op {
        BinOp::Sum => B::add(x, y),
        BinOp::Diff => B::sub(x, y),
        BinOp::Prod => B::mul(x, y),
        BinOp::Quot => B::div(x, y),
    }
}

/// Combines two matrices of one shape element by element.
pub fn zip<B: ScalarOps>(op: BinOp, a: &Matrix, b: &Matrix) -> (r: Matrix)
    requires
        a.wf(),
        b.wf(),
        a.same_dims(*b),
    ensures
        r.wf(),
        r.same_dims(*a),
{
    let n = a.data.len();
    let mut data: Vec<Scalar> = Vec::new();
    let mut k: usize = 0;
    while k < n
        invariant
            k <= n,
            n == a.data.len(),
            b.data.len() == n,
            data.len() == k,
        decreases n - k,
    {
        data.push(combine::<B>(op, a.data[k], b.data[k]));
        k = k + 1;
    }
    Matrix { rows: a.rows, cols: a.cols, data }
}

/// Combines every element of a matrix with one fixed scalar on the right.
pub fn zip_scalar<B: ScalarOps>(op: BinOp, a: &Matrix, s: Scalar) -> (r: Matrix)
    requires
        a.wf(),
    ensures
        r.wf(),
        r.same_dims(*a),
{
    let n = a.data.len();
    let mut data: Vec<Scalar> = Vec::new();
    let mut k: usize = 0;
    while k < n
        invariant
            k <= n,
            n == a.data.len(),
            data.len() == k,
        decreases n - k,
    {
        data.push(combine::<B>(op, a.data[k], s));
        k = k + 1;
    }
    Matrix { rows: a.rows, cols: a.cols, data }
}

/// The matrix product: inner products of rows of `a` with columns of `b`,
/// accumulated left to right from a zero pattern.
pub fn matmul<B: ScalarOps>(a: &Matrix, b: &Matrix) -> (r: Matrix)
    requires
        a.wf(),
        b.wf(),
        a.cols == b.rows,
    ensures
        r.wf(),
        r.rows == a.rows,
        r.cols == b.cols,
{
    let mut data: Vec<Scalar> = Vec::new();
    let mut i: usize = 0;
    while i < a.rows
        invariant
            a.wf(),
            b.wf(),
            a.cols == b.rows,
            i <= a.rows,
            data.len() == i * b.cols,
        decreases a.rows - i,
    {
        let mut j: usize = 0;
        while j < b.cols
            invariant
                a.wf(),
                b.wf(),
                a.cols == b.rows,
                i < a.rows,
                j <= b.cols,
                data.len() == i * b.cols + j,
            decreases b.cols - j,
        {
            let mut acc: Scalar = ZERO_BITS;
            let mut k: usize = 0;
            while k < a.cols
                invariant
                    a.wf(),
                    b.wf(),
                    a.cols == b.rows,
                    i < a.rows,
                    j < b.cols,
                    k <= a.cols,
                decreases a.cols - k,
            {
                acc = B::add(acc, B::mul(a.get(i, k), b.get(k, j)));
                k = k + 1;
            }
            data.push(acc);
            j = j + 1;
        }
        proof {
            lemma_row_step(i as int, b.cols as int);
        }
        i = i + 1;
    }
    Matrix { rows: a.rows, cols: b.cols, data }
}

/// Adds a single-row matrix to every row: the broadcast of a bias row
/// across a batch.
pub fn add_row_broadcast<B: ScalarOps>(a: &Matrix, row: &Matrix) -> (r: Matrix)
    requires
        a.wf(),
        row.wf(),
        row.rows == 1,
        row.cols == a.cols,
    ensures
        r.wf(),
        r.same_dims(*a),
{
    let mut data: Vec<Scalar> = Vec::new();
    let mut i: usize = 0;
    while i < a.rows
        invariant
            a.wf(),
            row.wf(),
            row.rows == 1,
            row.cols == a.cols,
            i <= a.rows,
            data.len() == i * a.cols,
        decreases a.rows - i,
    {
        let mut j: usize = 0;
        while j < a.cols
            invariant
                a.wf(),
                row.wf(),
                row.rows == 1,
                row.cols == a.cols,
                i < a.rows,
                j <= a.cols,
                data.len() == i * a.cols + j,
            decreases a.cols - j,
        {
            data.push(B::add(a.get(i, j), row.get(0, j)));
            j = j + 1;
        }
        proof {
            lemma_row_step(i as int, a.cols as int);
        }
        i = i + 1;
    }
    Matrix { rows: a.rows, cols: a.cols, data }
}

/// Takes the square root of every element through the backend.
pub fn map_sqrt<B: ScalarOps>(a: &Matrix) -> (r: Matrix)
    requires
        a.wf(),
    ensures
        r.wf(),
        r.same_dims(*a),
{
    let n = a.data.len();
    let mut data: Vec<Scalar> = Vec::new();
    let mut k: usize = 0;
    while k < n
        invariant
            k <= n,
            n == a.data.len(),
            data.len() == k,
        decreases n - k,
    {
        data.push(B::sqrt(a.data[k]));
        k = k + 1;
    }
    Matrix { rows: a.rows, cols: a.cols, data }
}

/// Collapses a matrix to a single row holding the sum of every column,
/// accumulated top to bottom from a zero pattern.
pub fn sum_rows<B: ScalarOps>(a: &Matrix) -> (r: Matrix)
    requires
        a.wf(),
    ensures
        r.wf(),
        r.rows == 1,
        r.cols == a.cols,
{
    let mut data: Vec<Scalar> = Vec::new();
    let mut j: usize = 0;
    while j < a.cols
        invariant
            a.wf(),
            j <= a.cols,
            data.len() == j,
        decreases a.cols - j,
    {
        let mut acc: Scalar = ZERO_BITS;
        let mut i: usize = 0;
        while i < a.rows
            invariant
                a.wf(),
                j < a.cols,
                i <= a.rows,
            decreases a.rows - i,
        {
            acc = B::add(acc, a.get(i, j));
            i = i + 1;
        }
        data.push(acc);
        j = j + 1;
    }
    Matrix { rows: 1, cols: a.cols, data }
}

impl Clone for Matrix {
    /// An exact copy: same shape, same elements.
    fn clone(&self) -> (r: Matrix)
        ensures
            r.rows == self.rows,
            r.cols == self.cols,
            r.data@ == self.data@,
            r.data.len() == self.data.len(),
            self.wf() ==> r.wf(),
    {
        let mut data: Vec<Scalar> = Vec::new();
        let mut k: usize = 0;
        while k < self.data.len()
            invariant
                k <= self.data.len(),
                data.len() == k,
                forall|m: int| 0 <= m < k ==> data[m] == self.data[m],
            decreases self.data.len() - k,
        {
            data.push(self.data[k]);
            k = k + 1;
        }
        proof {
            assert(data@ =~= self.data@);
        }
        Matrix { rows: self.rows, cols: self.cols, data }
    }
}

} // verus!
