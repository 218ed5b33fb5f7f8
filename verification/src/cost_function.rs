//! The cost functions of the network. The quadratic cost is half the
//! summed squared difference per sample; its gradient is the plain
//! difference, the half cancelling the factor two of differentiation.

use vstd::prelude::*;

use crate::matrix::{zip, BinOp, Matrix};
use crate::scalar::{Scalar, ScalarOps, HALF_BITS, ZERO_BITS};

verus! {

/// The quadratic cost on a single sample row.
pub struct QuadraticCost;

impl QuadraticCost {
    /// Half the sum of squared differences between a predicted row and an
    /// expected row, accumulated left to right from a zero pattern.
    pub fn f<B: ScalarOps>(&self, a: &Vec<Scalar>, expected: &Vec<Scalar>) -> Scalar
        requires
            a.len() == expected.len(),
    {
        let mut acc: Scalar = ZERO_BITS;
        let mut k: usize = 0;
        while k < a.len()
            invariant
                k <= a.len(),
                a.len() == expected.len(),
            decreases a.len() - k,
        {
            let d = B::sub(a[k], expected[k]);
            acc = B::add(acc, B::mul(d, d));
            k = k + 1;
        }
        B::mul(HALF_BITS, acc)
    }

    /// The per-sample gradient of the quadratic cost: the elementwise
    /// difference of the predicted and expected rows.
    pub fn d<B: ScalarOps>(&self, a: &Vec<Scalar>, expected: &Vec<Scalar>) -> (r: Vec<Scalar>)
        requires
            a.len() == expected.len(),
        ensures
            r.len() == a.len(),
    {
        let mut r: Vec<Scalar> = Vec::new();
        let mut k: usize = 0;
        while k < a.len()
            invariant
                k <= a.len(),
                a.len() == expected.len(),
                r.len() == k,
            decreases a.len() - k,
        {
            r.push(B::sub(a[k], expected[k]));
            k = k + 1;
        }
        r
    }
}

/// The closed set of cost functions a network can carry.
#[derive(Clone, Copy, PartialEq, Eq, Structural)]
pub enum CostFunction {
    /// The quadratic cost.
    Quadratic,
}

impl CostFunction {
    /// The batch cost: the arithmetic mean of the per-sample cost over all
    /// rows. Used for evaluation and logging, never in the gradient path.
    pub fn cost<B: ScalarOps>(&self, a: &Matrix, expected: &Matrix) -> Scalar
        requires
            a.wf(),
            expected.wf(),
            a.same_dims(*expected),
    {
        let mut acc: Scalar = ZERO_BITS;
        let mut i: usize = 0;
        while i < a.rows
            invariant
                a.wf(),
                expected.wf(),
                a.same_dims(*expected),
                i <= a.rows,
            decreases a.rows - i,
        {
            let ra = a.row(i);
            let re = expected.row(i);
            let c = match self {
                CostFunction::Quadratic => QuadraticCost.f::<B>(&ra, &re),
            };
            acc = B::add(acc, c);
            i = i + 1;
        }
        B::div(acc, B::from_count(a.rows))
    }

    /// The batch gradient: the per-sample gradient applied to every sample
    /// independently, giving a matrix of the predictions' shape. This is
    /// the tensor backpropagation starts from.
    pub fn cost_derivative<B: ScalarOps>(&self, a: &Matrix, expected: &Matrix) -> (r: Matrix)
        requires
            a.wf(),
            expected.wf(),
            a.same_dims(*expected),
        ensures
            r.wf(),
            r.same_dims(*a),
    {
        match self {
            CostFunction::Quadratic => zip::<B>(BinOp::Diff, a, expected),
        }
    }
}

} // verus!
