//! The dataset collaborator: a capability that supplies sampled training
//! batches, and the deterministic evaluation grid over the unit square.

use vstd::prelude::*;

use crate::matrix::{lemma_index_bound, Matrix};
use crate::scalar::{Scalar, ScalarOps, ONE_BITS, ZERO_BITS};

verus! {

/// A source of training data. Implementations live outside the verified
/// core -- sampling policy is the dataset's concern -- so this contract is
/// the collaborator's: a batch of `batch_size` rows whose feature and
/// label widths are the dataset's declared dimensions. Everything proved
/// about training rests on implementations honouring these shapes.
pub trait Dataset {
    /// The width of one feature row.
    spec fn spec_input_dim(&self) -> usize;

    /// The width of one label row.
    spec fn spec_output_dim(&self) -> usize;

    /// A freshly sampled batch: one feature matrix and one label matrix,
    /// row-aligned, with `batch_size` rows each.
    fn get_batch(&self, batch_size: usize) -> (r: (Matrix, Matrix))
        ensures
            r.0.wf(),
            r.1.wf(),
            r.0.rows == batch_size,
            r.1.rows == batch_size,
            r.0.cols == self.spec_input_dim(),
            r.1.cols == self.spec_output_dim(),
    ;
}

/// `n` evenly spaced scalars from zero to one inclusive: each is the step
/// one over `n - 1`, times its index. A single point degenerates to zero.
pub fn linspace_unit<B: ScalarOps>(n: usize) -> (r: Vec<Scalar>)
    ensures
        r.len() == n,
        n == 1 ==> r[0] == ZERO_BITS,
{
    let mut r: Vec<Scalar> = Vec::new();
    if n == 0 {
        return r;
    }
    if n == 1 {
        r.push(ZERO_BITS);
        return r;
    }
    let step = B::div(ONE_BITS, B::from_count(n - 1));
    let mut k: usize = 0;
    while k < n
        invariant
            k <= n,
            r.len() == k,
        decreases n - k,
    {
        r.push(B::mul(step, B::from_count(k)));
        k = k + 1;
    }
    r
}

/// The evaluation grid over the unit square: `resolution * resolution`
/// points in row-major order, the column coordinate varying fastest. The
/// point at row index `i` and column index `j` has the `j`-th grid value
/// as its first coordinate and the `i`-th as its second, so the grid is
/// symmetric: the first coordinate at `(i, j)` is the second at `(j, i)`.
/// The first coordinate depends only on the column index and the second
/// only on the row index.
pub fn get_2d_unit_square<B: ScalarOps>(resolution: usize) -> (r: Matrix)
    requires
        resolution * resolution * 2 <= usize::MAX,
    ensures
        r.wf(),
        r.rows == resolution * resolution,
        r.cols == 2,
        forall|i: int, j: int|
            0 <= i < resolution && 0 <= j < resolution
                ==> #[trigger] r.entry(i * resolution + j, 0) == r.entry(j * resolution + i, 1),
        forall|i: int, j: int|
            0 <= i < resolution && 0 <= j < resolution
                ==> #[trigger] r.entry(i * resolution + j, 0) == r.entry(j, 0),
        forall|i: int, j: int|
            0 <= i < resolution && 0 <= j < resolution
                ==> #[trigger] r.entry(i * resolution + j, 1) == r.entry(i * resolution, 1),
{
    let lin = linspace_unit::<B>(resolution);
    let mut data: Vec<Scalar> = Vec::new();
    let mut i: usize = 0;
    while i < resolution
        invariant
            lin.len() == resolution,
            resolution * resolution * 2 <= usize::MAX,
            i <= resolution,
            data.len() == i * resolution * 2,
            forall|ii: int, jj: int|
                0 <= ii < i && 0 <= jj < resolution
                    ==> #[trigger] data[(ii * resolution + jj) * 2] == lin[jj],
            forall|ii: int, jj: int|
                0 <= ii < i && 0 <= jj < resolution
                    ==> #[trigger] data[(ii * resolution + jj) * 2 + 1] == lin[ii],
        decreases resolution - i,
    {
        let mut j: usize = 0;
        while j < resolution
            invariant
                lin.len() == resolution,
                resolution * resolution * 2 <= usize::MAX,
                i < resolution,
                j <= resolution,
                data.len() == (i * resolution + j) * 2,
                forall|ii: int, jj: int|
                    0 <= ii < i && 0 <= jj < resolution
                        ==> #[trigger] data[(ii * resolution + jj) * 2] == lin[jj],
                forall|ii: int, jj: int|
                    0 <= ii < i && 0 <= jj < resolution
                        ==> #[trigger] data[(ii * resolution + jj) * 2 + 1] == lin[ii],
                forall|jj: int|
                    0 <= jj < j
                        ==> #[trigger] data[(i as int * resolution + jj) * 2] == lin[jj],
                forall|jj: int|
                    0 <= jj < j
                        ==> #[trigger] data[(i as int * resolution + jj) * 2 + 1] == lin[
                        i as int],
            decreases resolution - j,
        {
            data.push(lin[j]);
            data.push(lin[i]);
            proof {
                lemma_index_bound(i as int, j as int, resolution as int, resolution as int);
                assert forall|ii: int, jj: int|
                    0 <= ii < i && 0 <= jj < resolution
                        implies #[trigger] data[(ii * resolution + jj) * 2] == lin[jj] by {
                    lemma_index_bound(ii, jj, i as int, resolution as int);
                }
                assert forall|ii: int, jj: int|
                    0 <= ii < i && 0 <= jj < resolution
                        implies #[trigger] data[(ii * resolution + jj) * 2 + 1] == lin[ii] by {
                    lemma_index_bound(ii, jj, i as int, resolution as int);
                }
            }
            j = j + 1;
        }
        proof {
            assert((i + 1) * resolution * 2 == (i * resolution + resolution) * 2)
                by (nonlinear_arith);
        }
        i = i + 1;
    }
    let r = Matrix { rows: resolution * resolution, cols: 2, data };
    proof {
        assert(r.wf()) by {
            assert(resolution * resolution * 2 == (resolution * resolution) * 2)
                by (nonlinear_arith);
        }
        assert forall|i: int, j: int|
            0 <= i < resolution && 0 <= j < resolution
                implies #[trigger] r.entry(i * resolution + j, 0) == r.entry(
            j * resolution + i,
            1,
        ) by {
            lemma_index_bound(i, j, resolution as int, resolution as int);
            lemma_index_bound(j, i, resolution as int, resolution as int);
            assert(data[(i * resolution + j) * 2] == lin[j]);
            assert(data[(j * resolution + i) * 2 + 1] == lin[j]);
            assert(r.entry(i * resolution + j, 0) == r.data[(i * resolution + j) * 2]);
            assert(r.entry(j * resolution + i, 1) == r.data[(j * resolution + i) * 2 + 1]);
        }
        assert forall|i: int, j: int|
            0 <= i < resolution && 0 <= j < resolution
                implies #[trigger] r.entry(i * resolution + j, 0) == r.entry(j, 0) by {
            lemma_index_bound(i, j, resolution as int, resolution as int);
            lemma_index_bound(0, j, resolution as int, resolution as int);
            assert(data[(i * resolution + j) * 2] == lin[j]);
            assert(data[(0 * resolution + j) * 2] == lin[j]);
            assert(r.entry(j, 0) == r.data[j * 2]);
        }
        assert forall|i: int, j: int|
            0 <= i < resolution && 0 <= j < resolution
                implies #[trigger] r.entry(i * resolution + j, 1) == r.entry(i * resolution, 1) by {
            lemma_index_bound(i, j, resolution as int, resolution as int);
            lemma_index_bound(i, 0, resolution as int, resolution as int);
            assert(data[(i * resolution + j) * 2 + 1] == lin[i]);
            assert(data[(i * resolution + 0) * 2 + 1] == lin[i]);
        }
    }
    r
}

} // verus!
