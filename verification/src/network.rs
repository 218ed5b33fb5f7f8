//! The network: an ordered chain of dense layers sharing one cost
//! function, with forward inference, backpropagation and the training
//! loop, all owned together with the optimizer that mutates the layers.

use vstd::prelude::*;
use vstd::string::StringExecFns;

use crate::cost_function::CostFunction;
use crate::dataset::{get_2d_unit_square, Dataset};
use crate::layer::DenseLayer;
use crate::matrix::{matmul, sum_rows, zip, zip_scalar, BinOp, Matrix};
use crate::optimizer::{grads_match, layers_wf, same_layout, Optimizer};
use crate::scalar::{Scalar, ScalarOps};

verus! {

/// Reverses a list of matrices.
fn reversed(v: Vec<Matrix>) -> (r: Vec<Matrix>)
    ensures
        r@.len() == v@.len(),
        forall|m: int| 0 <= m < v@.len() ==> r@[m] == v@[v@.len() - 1 - m],
{
    let ghost orig = v@;
    let mut v = v;
    let mut r: Vec<Matrix> = Vec::new();
    while v.len() > 0
        invariant
            r@.len() + v@.len() == orig.len(),
            v@ == orig.take(v@.len() as int),
            forall|m: int| 0 <= m < r@.len() ==> r@[m] == orig[orig.len() - 1 - m],
        decreases v.len(),
    {
        let last = v.pop().unwrap();
        proof {
            assert(v@ =~= orig.take(v@.len() as int));
        }
        r.push(last);
    }
    r
}

/// A feed-forward network: the layer chain, its declared outer widths, the
/// optimizer that owns the training state, and the cost function.
pub struct Network {
    /// The width of a feature row.
    pub input_size: usize,
    /// The width of the final layer's output.
    pub output_size: usize,
    /// The layers, in forward order; each one's output width is the next
    /// one's input width.
    pub layers: Vec<DenseLayer>,
    /// The optimizer, with auxiliary tensors aligned to the layers.
    pub optimizer: Optimizer,
    /// The cost function shared by evaluation and backpropagation.
    pub cost_function: CostFunction,
}

impl Network {
    /// The layer widths chain: the first layer reads the declared input
    /// width, every later layer reads its predecessor's output width, and
    /// the last layer writes the declared output width.
    pub open spec fn chain_ok(
        layers: Seq<DenseLayer>,
        input_size: usize,
        output_size: usize,
    ) -> bool {
        &&& layers.len() >= 1
        &&& layers_wf(layers)
        &&& layers[0].weights.rows == input_size
        &&& forall|i: int|
            0 < i < layers.len() ==> layers[i].weights.rows == layers[i - 1].weights.cols
        &&& layers[layers.len() - 1].weights.cols == output_size
    }

    /// The network invariant: a consistent width chain, and the optimizer's
    /// auxiliary tensors aligned position by position with the layers.
    pub open spec fn wf(self) -> bool {
        &&& Self::chain_ok(self.layers@, self.input_size, self.output_size)
        &&& self.optimizer.aligned(self.layers@)
    }

    /// The input width of layer `i`, or the declared output width at the
    /// end of the chain.
    pub open spec fn width_at(self, i: int) -> usize {
        if i < self.layers@.len() {
            self.layers@[i].weights.rows
        } else {
            self.output_size
        }
    }

    /// Builds the network from a declared shape: one entry per width, each
    /// carrying the activation of the transition it starts. The last entry
    /// only closes the chain; its activation is never used. Every real
    /// layer gets fresh Gaussian weights, and the optimizer's auxiliary
    /// tensors are allocated to match.
    pub fn new<B: ScalarOps>(
        layers: Vec<DenseLayer>,
        optimizer: Optimizer,
        cost_function: CostFunction,
    ) -> (r: Network)
        requires
            layers@.len() >= 2,
            forall|i: int|
                0 <= i < layers@.len() - 1
                    ==> #[trigger] (layers@[i].input_size * layers@[i + 1].input_size)
                    <= usize::MAX,
        ensures
            r.wf(),
            r.input_size == layers@[0].input_size,
            r.output_size == layers@[layers@.len() - 1].input_size,
            r.layers@.len() == layers@.len() - 1,
            forall|i: int|
                0 <= i < r.layers@.len()
                    ==> r.layers@[i].activation == layers@[i].activation
                    && r.layers@[i].input_size == layers@[i].input_size
                    && r.layers@[i].weights.rows == layers@[i].input_size
                    && r.layers@[i].weights.cols == layers@[i + 1].input_size,
            r.optimizer.iteration() == optimizer.iteration(),
            r.cost_function == cost_function,
    {
        let n = layers.len();
        let mut optimizer = optimizer;
        let mut built: Vec<DenseLayer> = Vec::new();
        let mut i: usize = 0;
        while i < n - 1
            invariant
                n == layers@.len(),
                n >= 2,
                forall|k: int|
                    0 <= k < n - 1
                        ==> #[trigger] (layers@[k].input_size * layers@[k + 1].input_size)
                        <= usize::MAX,
                i <= n - 1,
                built@.len() == i,
                forall|k: int|
                    0 <= k < i
                        ==> built@[k].wf() && built@[k].activation == layers@[k].activation
                        && built@[k].input_size == layers@[k].input_size
                        && built@[k].weights.rows == layers@[k].input_size
                        && built@[k].weights.cols == layers@[k + 1].input_size,
            decreases n - 1 - i,
        {
            let in_w = layers[i].get_size();
            let out_w = layers[i + 1].get_size();
            let mut layer = DenseLayer::new(in_w, layers[i].get_activation());
            layer.initialize::<B>(in_w, out_w);
            built.push(layer);
            i = i + 1;
        }
        optimizer.initialize(&built);
        Network {
            input_size: layers[0].get_size(),
            output_size: layers[n - 1].get_size(),
            layers: built,
            optimizer,
            cost_function,
        }
    }

    /// Feeds a batch through every layer in order. The result keeps the
    /// batch's row count and has one column per declared output.
    pub fn predict<B: ScalarOps>(&self, input: &Matrix) -> (r: Matrix)
        requires
            self.wf(),
            input.wf(),
            input.cols == self.input_size,
        ensures
            r.wf(),
            r.rows == input.rows,
            r.cols == self.output_size,
    {
        let mut output = input.clone();
        let n = self.layers.len();
        let mut i: usize = 0;
        while i < n
            invariant
                self.wf(),
                n == self.layers@.len(),
                i <= n,
                output.wf(),
                output.rows == input.rows,
                output.cols == self.width_at(i as int),
            decreases n - i,
        {
            output = self.layers[i].predict::<B>(&output);
            i = i + 1;
        }
        output
    }

    /// Backpropagation: one forward pass with memoized pre-activations,
    /// then the chain rule backwards, then per-sample averaging. Returns
    /// the bias gradients and the weight gradients, in layer order and
    /// shaped exactly like each layer's bias row and weight matrix.
    pub fn backprop<B: ScalarOps>(&self, x: &Matrix, y: &Matrix) -> (r: (Vec<Matrix>, Vec<
        Matrix>))
        requires
            self.wf(),
            x.wf(),
            y.wf(),
            x.cols == self.input_size,
            y.cols == self.output_size,
            y.rows == x.rows,
        ensures
            grads_match(self.layers@, r.0@, r.1@),
    {
        let n = self.layers.len();
        // Forward pass, memoizing every pre-activation and activation.
        let mut activation = x.clone();
        let mut activations: Vec<Matrix> = Vec::new();
        activations.push(activation.clone());
        let mut zs: Vec<Matrix> = Vec::new();
        let mut i: usize = 0;
        while i < n
            invariant
                self.wf(),
                n == self.layers@.len(),
                i <= n,
                x.wf(),
                activation.wf(),
                activation.rows == x.rows,
                activation.cols == self.width_at(i as int),
                zs@.len() == i,
                activations@.len() == i + 1,
                forall|k: int| #![trigger zs@[k]]
                    0 <= k < i
                        ==> zs@[k].wf() && zs@[k].rows == x.rows && zs@[k].cols == self.width_at(
                        k + 1),
                forall|k: int| #![trigger activations@[k]]
                    0 <= k <= i
                        ==> activations@[k].wf() && activations@[k].rows == x.rows
                        && activations@[k].cols == self.width_at(k),
            decreases n - i,
        {
            let z = self.layers[i].forward::<B>(&activation);
            activation = self.layers[i].get_activation().f_array::<B>(&z);
            proof {
                if i + 1 < n {
                    assert(self.layers@[i + 1].weights.rows == self.layers@[i as int].weights.cols);
                }
                assert(activation.cols == self.width_at(i + 1));
            }
            zs.push(z);
            activations.push(activation.clone());
            i = i + 1;
        }
        // The cost gradient at the output.
        let nabla_c = self.cost_function.cost_derivative::<B>(&activation, y);
        // The output layer's delta and gradients.
        let sig_prime = self.layers[n - 1].get_activation().d_array::<B>(&zs[n - 1]);
        let mut delta = zip::<B>(BinOp::Prod, &nabla_c, &sig_prime);
        let mut nabla_bs: Vec<Matrix> = Vec::new();
        let mut nabla_ws: Vec<Matrix> = Vec::new();
        nabla_bs.push(delta.clone());
        let a_t = activations[n - 1].transpose();
        nabla_ws.push(matmul::<B>(&a_t, &delta));
        // Backwards through the remaining layers.
        let mut t: usize = 0;
        while t < n - 1
            invariant
                self.wf(),
                n == self.layers@.len(),
                n >= 1,
                t <= n - 1,
                x.wf(),
                delta.wf(),
                delta.rows == x.rows,
                delta.cols == self.width_at(n - t),
                zs@.len() == n,
                activations@.len() == n + 1,
                forall|m: int| #![trigger zs@[m]]
                    0 <= m < n
                        ==> zs@[m].wf() && zs@[m].rows == x.rows && zs@[m].cols == self.width_at(
                        m + 1),
                forall|m: int| #![trigger activations@[m]]
                    0 <= m <= n
                        ==> activations@[m].wf() && activations@[m].rows == x.rows
                        && activations@[m].cols == self.width_at(m),
                nabla_bs@.len() == t + 1,
                nabla_ws@.len() == t + 1,
                forall|m: int| #![trigger nabla_bs@[m]] #![trigger nabla_ws@[m]]
                    0 <= m < t + 1
                        ==> nabla_bs@[m].wf() && nabla_bs@[m].rows == x.rows
                        && nabla_bs@[m].cols == self.width_at(n - m)
                        && nabla_ws@[m].wf()
                        && nabla_ws@[m].rows == self.layers@[n - 1 - m].weights.rows
                        && nabla_ws@[m].cols == self.layers@[n - 1 - m].weights.cols,
            decreases n - 1 - t,
        {
            let li = n - 2 - t;
            proof {
                assert(self.layers@[li + 1].weights.rows == self.layers@[li as int].weights.cols);
                assert(self.width_at(n - t) == self.layers@[li + 1].weights.cols);
            }
            let sig_prime = self.layers[li].get_activation().d_array::<B>(&zs[li]);
            let w_t = self.layers[li + 1].get_weights().transpose();
            let propagated = matmul::<B>(&delta, &w_t);
            delta = zip::<B>(BinOp::Prod, &propagated, &sig_prime);
            nabla_bs.push(delta.clone());
            let a_t = activations[li].transpose();
            nabla_ws.push(matmul::<B>(&a_t, &delta));
            t = t + 1;
        }
        // Restore forward layer order.
        let nabla_bs = reversed(nabla_bs);
        let nabla_ws = reversed(nabla_ws);
        // Average over the batch: collapse each bias gradient to one row
        // and divide everything by the batch size.
        let batch = B::from_count(x.rows);
        let mut out_bs: Vec<Matrix> = Vec::new();
        let mut out_ws: Vec<Matrix> = Vec::new();
        let mut m: usize = 0;
        while m < n
            invariant
                self.wf(),
                n == self.layers@.len(),
                m <= n,
                nabla_bs@.len() == n,
                nabla_ws@.len() == n,
                forall|q: int| #![trigger nabla_bs@[q]] #![trigger nabla_ws@[q]]
                    0 <= q < n
                        ==> nabla_bs@[q].wf() && nabla_bs@[q].cols == self.width_at(q + 1)
                        && nabla_ws@[q].wf()
                        && nabla_ws@[q].rows == self.layers@[q].weights.rows
                        && nabla_ws@[q].cols == self.layers@[q].weights.cols,
                out_bs@.len() == m,
                out_ws@.len() == m,
                forall|q: int| #![trigger out_bs@[q]] #![trigger out_ws@[q]]
                    0 <= q < m
                        ==> out_bs@[q].wf() && out_bs@[q].rows == 1 && out_bs@[q].cols
                        == self.layers@[q].biases.cols && out_ws@[q].wf()
                        && out_ws@[q].rows == self.layers@[q].weights.rows
                        && out_ws@[q].cols == self.layers@[q].weights.cols,
            decreases n - m,
        {
            let b_sum = sum_rows::<B>(&nabla_bs[m]);
            out_bs.push(zip_scalar::<B>(BinOp::Quot, &b_sum, batch));
            out_ws.push(zip_scalar::<B>(BinOp::Quot, &nabla_ws[m], batch));
            m = m + 1;
        }
        (out_bs, out_ws)
    }

    /// One training step on one minibatch: backpropagate, let the
    /// optimizer recompute its rate, update every layer in place, and
    /// count the step. The layer layout and the optimizer alignment
    /// survive; only tensor values change.
    pub fn train_minibatch<B: ScalarOps>(&mut self, batch: &(Matrix, Matrix))
        requires
            old(self).wf(),
            batch.0.wf(),
            batch.1.wf(),
            batch.0.cols == old(self).input_size,
            batch.1.cols == old(self).output_size,
            batch.0.rows == batch.1.rows,
            old(self).optimizer.iteration() < usize::MAX,
        ensures
            final(self).wf(),
            final(self).input_size == old(self).input_size,
            final(self).output_size == old(self).output_size,
            final(self).cost_function == old(self).cost_function,
            same_layout(old(self).layers@, final(self).layers@),
            final(self).optimizer.iteration() == old(self).optimizer.iteration() + 1,
    {
        let (nabla_bs, nabla_ws) = self.backprop::<B>(&batch.0, &batch.1);
        self.optimizer.pre_update::<B>();
        self.optimizer.update_params::<B>(&mut self.layers, &nabla_bs, &nabla_ws);
        self.optimizer.post_update();
        proof {
            assert(Self::chain_ok(self.layers@, self.input_size, self.output_size));
        }
    }

    /// Draws a fresh batch, predicts it and returns the batch cost.
    /// Mutates nothing.
    pub fn eval<B: ScalarOps, D: Dataset>(&self, data: &D, sample_size: usize) -> Scalar
        requires
            self.wf(),
            data.spec_input_dim() == self.input_size,
            data.spec_output_dim() == self.output_size,
    {
        let (x, y) = data.get_batch(sample_size);
        let prediction = self.predict::<B>(&x);
        self.cost_function.cost::<B>(&prediction, &y)
    }

    /// The training loop: one minibatch per epoch, and every `epochs / 100
    /// + 1` epochs one evaluation appended to the returned history. The
    /// history holds exactly the epochs divisible by that stride, in
    /// order, each with the cost measured at that point.
    pub fn train_and_log<B: ScalarOps, D: Dataset>(
        &mut self,
        data: &D,
        batch_size: usize,
        verification_samples: usize,
        epochs: i32,
    ) -> (r: Vec<(i32, Scalar)>)
        requires
            old(self).wf(),
            data.spec_input_dim() == old(self).input_size,
            data.spec_output_dim() == old(self).output_size,
            old(self).optimizer.iteration() + epochs <= usize::MAX,
        ensures
            final(self).wf(),
            final(self).input_size == old(self).input_size,
            final(self).output_size == old(self).output_size,
            epochs <= 0 ==> r@.len() == 0,
            forall|m: int| 0 <= m < r@.len() ==> r@[m].0 == m * (epochs / 100 + 1),
            epochs > 0 ==> epochs <= r@.len() * (epochs / 100 + 1) && (r@.len() - 1) * (epochs
                / 100 + 1) < epochs,
            final(self).optimizer.iteration() == old(self).optimizer.iteration() + (if epochs
                > 0 {
                epochs as int
            } else {
                0
            }),
    {
        let mut cost_history: Vec<(i32, Scalar)> = Vec::new();
        if epochs <= 0 {
            return cost_history;
        }
        let stride_w: usize = (epochs as usize) / 100 + 1;
        assert(stride_w == epochs as int / 100 + 1);
        let stride: i64 = stride_w as i64;
        let mut next_log: i64 = 0;
        let mut epoch: i32 = 0;
        proof {
            vstd::arithmetic::mul::lemma_mul_basics(stride as int);
        }
        while epoch < epochs
            invariant
                self.wf(),
                self.input_size == old(self).input_size,
                self.output_size == old(self).output_size,
                data.spec_input_dim() == self.input_size,
                data.spec_output_dim() == self.output_size,
                0 < epochs,
                stride == epochs as int / 100 + 1,
                1 <= stride <= epochs,
                0 <= epoch <= epochs,
                self.optimizer.iteration() == old(self).optimizer.iteration() + epoch,
                old(self).optimizer.iteration() + epochs <= usize::MAX,
                next_log == cost_history@.len() * stride,
                epoch <= next_log < epoch + stride,
                forall|m: int| 0 <= m < cost_history@.len() ==> cost_history@[m].0 == m * stride,
            decreases epochs - epoch,
        {
            let batch = data.get_batch(batch_size);
            self.train_minibatch::<B>(&batch);
            if epoch as i64 == next_log {
                let cost = self.eval::<B, D>(data, verification_samples);
                cost_history.push((epoch, cost));
                proof {
                    vstd::arithmetic::mul::lemma_mul_is_distributive_add_other_way(
                        stride as int,
                        cost_history@.len() - 1,
                        1,
                    );
                }
                next_log = next_log + stride;
            }
            epoch = epoch + 1;
        }
        proof {
            assert(cost_history@.len() >= 1) by {
                if cost_history@.len() == 0 {
                    assert(next_log == 0);
                }
            }
            vstd::arithmetic::mul::lemma_mul_is_distributive_sub_other_way(
                stride as int,
                cost_history@.len() as int,
                1,
            );
        }
        cost_history
    }

    /// Predicts every point of the row-major evaluation grid over the unit
    /// square and hands the result back row by row: the grid's dimensions
    /// and one output vector per grid point.
    pub fn predict_unit_square<B: ScalarOps>(&self, resolution: usize) -> (r: ((usize, usize), Vec<
        Vec<Scalar>>))
        requires
            self.wf(),
            self.input_size == 2,
            resolution * resolution * 2 <= usize::MAX,
        ensures
            r.0 == (resolution, resolution),
            r.1@.len() == resolution * resolution,
            forall|k: int| 0 <= k < r.1@.len() ==> r.1@[k]@.len() == self.output_size,
    {
        let unit_square = get_2d_unit_square::<B>(resolution);
        let pred = self.predict::<B>(&unit_square);
        let mut res: Vec<Vec<Scalar>> = Vec::new();
        let mut k: usize = 0;
        while k < pred.rows
            invariant
                pred.wf(),
                k <= pred.rows,
                res@.len() == k,
                forall|m: int| 0 <= m < k ==> res@[m]@.len() == pred.cols,
            decreases pred.rows - k,
        {
            res.push(pred.row(k));
            k = k + 1;
        }
        ((resolution, resolution), res)
    }
}

/// The optimizer-state alignment law: in any well-formed network -- as
/// built by `new` and preserved by every training step -- the optimizer
/// holds auxiliary tensors whose count and shapes exactly match the
/// layers' weight and bias tensors.
pub proof fn lemma_optimizer_state_alignment(net: Network)
    requires
        net.wf(),
    ensures
        net.optimizer.aligned(net.layers@),
{
}

/// The sequence begins with the given prefix.
pub open spec fn starts_with(s: Seq<char>, p: Seq<char>) -> bool {
    s.len() >= p.len() && s.subrange(0, p.len() as int) == p
}

/// A short human-readable description of a component, used for naming
/// plots and logs, never by the core itself.
pub trait Summary {
    /// The description.
    fn summerize(&self) -> String;
}

impl Summary for Network {
    /// The optimizer's name followed by the declared width of every layer,
    /// separated by underscores.
    fn summerize(&self) -> (r: String)
        ensures
            starts_with(r@, self.optimizer.name_spec()),
    {
        let mut s = String::from_str(self.optimizer.name());
        proof {
            assert(s@.subrange(0, self.optimizer.name_spec().len() as int) =~= s@);
        }
        let mut i: usize = 0;
        while i < self.layers.len()
            invariant
                starts_with(s@, self.optimizer.name_spec()),
            decreases self.layers.len() - i,
        {
            let w = self.layers[i].get_size();
            let ghost before = s@;
            s.append("_");
            let digits = w.to_string();
            s.append(digits.as_str());
            proof {
                let p = self.optimizer.name_spec();
                assert(s@.subrange(0, p.len() as int) =~= before.subrange(0, p.len() as int));
            }
            i = i + 1;
        }
        s
    }
}

} // verus!
