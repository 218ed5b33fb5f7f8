//! A dense layer: one weight matrix, one bias row, one activation.

use vstd::prelude::*;

use crate::activation_function::ActivationFunction;
use crate::matrix::{add_row_broadcast, combine, matmul, BinOp, Matrix};
use crate::scalar::{Scalar, ScalarOps, TENTH_BITS};

verus! {

/// A matrix of fresh standard-normal draws, each combined with one fixed
/// scalar; used to scale initial weights and biases.
fn sample_matrix<B: ScalarOps>(rows: usize, cols: usize, op: BinOp, s: Scalar) -> (r: Matrix)
    requires
        rows * cols <= usize::MAX,
    ensures
        r.wf(),
        r.rows == rows,
        r.cols == cols,
{
    let n: usize = rows * cols;
    let mut data: Vec<Scalar> = Vec::new();
    let mut k: usize = 0;
    while k < n
        invariant
            k <= n,
            data.len() == k,
        decreases n - k,
    {
        data.push(combine::<B>(op, B::sample_unit_normal(), s));
        k = k + 1;
    }
    Matrix { rows, cols, data }
}

/// One affine transform plus an elementwise nonlinearity. Weights connect
/// `weights.rows` inputs to `weights.cols` outputs; the bias row is
/// broadcast across the batch.
pub struct DenseLayer {
    /// The declared width of this layer in the network's shape list.
    pub input_size: usize,
    /// The weight matrix, one row per input, one column per output.
    pub weights: Matrix,
    /// The bias row, one column per output.
    pub biases: Matrix,
    /// The activation applied elementwise after the affine transform.
    pub activation: ActivationFunction,
}

impl DenseLayer {
    /// Shapes agree: the bias row is a single row as wide as the weight
    /// matrix.
    pub open spec fn wf(self) -> bool {
        &&& self.weights.wf()
        &&& self.biases.wf()
        &&& self.biases.rows == 1
        &&& self.biases.cols == self.weights.cols
    }

    /// A layer of the given declared width, with empty tensors until the
    /// network initializes it against its successor's width.
    pub fn new(input_size: usize, activation: ActivationFunction) -> (r: DenseLayer)
        ensures
            r.input_size == input_size,
            r.activation == activation,
            r.weights.wf(),
            r.weights.rows == 0,
            r.weights.cols == 0,
    {
        DenseLayer {
            input_size,
            weights: Matrix::zeros(0, 0),
            biases: Matrix::zeros(0, 0),
            activation,
        }
    }

    /// Draws fresh Gaussian weights scaled by the square root of the input
    /// width, and a fresh small-variance Gaussian bias row.
    pub fn initialize<B: ScalarOps>(&mut self, input_size: usize, output_size: usize)
        requires
            input_size * output_size <= usize::MAX,
        ensures
            final(self).wf(),
            final(self).weights.rows == input_size,
            final(self).weights.cols == output_size,
            final(self).input_size == old(self).input_size,
            final(self).activation == old(self).activation,
    {
        let scale = B::sqrt(B::from_count(input_size));
        self.weights = sample_matrix::<B>(input_size, output_size, BinOp::Quot, scale);
        self.biases = sample_matrix::<B>(1, output_size, BinOp::Prod, TENTH_BITS);
    }

    /// The declared width of the layer.
    pub fn get_size(&self) -> (r: usize)
        ensures
            r == self.input_size,
    {
        self.input_size
    }

    /// The layer's activation function.
    pub fn get_activation(&self) -> (r: ActivationFunction)
        ensures
            r == self.activation,
    {
        self.activation
    }

    /// The weight matrix.
    pub fn get_weights(&self) -> (r: &Matrix)
        ensures
            r == self.weights,
    {
        &self.weights
    }

    /// The bias row.
    pub fn get_bias(&self) -> (r: &Matrix)
        ensures
            r == self.biases,
    {
        &self.biases
    }

    /// Replaces the weight matrix.
    pub fn set_weights(&mut self, weights: Matrix)
        ensures
            final(self).weights == weights,
            final(self).biases == old(self).biases,
            final(self).input_size == old(self).input_size,
            final(self).activation == old(self).activation,
    {
        self.weights = weights;
    }

    /// Replaces the bias row.
    pub fn set_bias(&mut self, biases: Matrix)
        ensures
            final(self).biases == biases,
            final(self).weights == old(self).weights,
            final(self).input_size == old(self).input_size,
            final(self).activation == old(self).activation,
    {
        self.biases = biases;
    }

    /// The affine transform: the batch times the weights, plus the bias
    /// row broadcast across all samples.
    pub fn forward<B: ScalarOps>(&self, input: &Matrix) -> (r: Matrix)
        requires
            self.wf(),
            input.wf(),
            input.cols == self.weights.rows,
        ensures
            r.wf(),
            r.rows == input.rows,
            r.cols == self.weights.cols,
    {
        let z = matmul::<B>(input, &self.weights);
        add_row_broadcast::<B>(&z, &self.biases)
    }

    /// The layer's output: the affine transform followed by the activation,
    /// elementwise.
    pub fn predict<B: ScalarOps>(&self, input: &Matrix) -> (r: Matrix)
        requires
            self.wf(),
            input.wf(),
            input.cols == self.weights.rows,
        ensures
            r.wf(),
            r.rows == input.rows,
            r.cols == self.weights.cols,
    {
        let z = self.forward::<B>(input);
        self.activation.f_array::<B>(&z)
    }
}

} // verus!
