//! Stochastic gradient descent with momentum and inverse-time decay.

use vstd::prelude::*;
use vstd::string::StringExecFns;
use vstd::pervasive::VecAdditionalExecFns;

use crate::layer::DenseLayer;
use crate::matrix::{zip, zip_scalar, BinOp, Matrix};
use crate::optimizer::{
    aligned_with_biases, aligned_with_weights, grads_match, layers_wf, same_layout,
};
use crate::scalar::{
    scalar_lt, scalar_neg, Scalar, ScalarOps, HALF_BITS, ONE_BITS, TENTH_BITS, ZERO_BITS,
};

verus! {

/// The bit pattern of the default decay, five ten-thousandths.
pub const SGD_DEFAULT_DECAY_BITS: u64 = 0x3F40_624D_D2F1_A9FC;

/// Gradient descent with a momentum term: each step applies the scaled
/// negative gradient plus a fraction of the previous step, remembered per
/// layer.
pub struct SGD {
    /// The momentum coefficient; a zero pattern disables the term.
    pub momentum: Scalar,
    /// The base learning rate.
    pub learning_rate: Scalar,
    /// The inverse-time decay coefficient; a zero pattern disables decay.
    pub decay: Scalar,
    /// How many updates have completed.
    pub iteration: usize,
    /// The rate in force, recomputed from the decay before each update.
    pub current_learning_rate: Scalar,
    /// Per layer, the previous weight update.
    pub weights_momentum: Vec<Matrix>,
    /// Per layer, the previous bias update.
    pub biases_momentum: Vec<Matrix>,
}

impl SGD {
    /// The auxiliary tensors run parallel to the layer list, one weight-
    /// shaped and one bias-shaped tensor per layer.
    pub open spec fn aligned(self, layers: Seq<DenseLayer>) -> bool {
        &&& aligned_with_weights(self.weights_momentum@, layers)
        &&& aligned_with_biases(self.biases_momentum@, layers)
    }

    /// The configuration scalars and the counter of another state.
    pub open spec fn same_config(self, other: SGD) -> bool {
        &&& self.momentum == other.momentum
        &&& self.learning_rate == other.learning_rate
        &&& self.decay == other.decay
        &&& self.iteration == other.iteration
        &&& self.current_learning_rate == other.current_learning_rate
    }

    /// A fresh optimizer with the given rate, momentum coefficient and
    /// decay, no completed updates and no auxiliary tensors yet.
    pub fn new(learning_rate: Scalar, momentum: Scalar, decay: Scalar) -> (r: SGD)
        ensures
            r.learning_rate == learning_rate,
            r.momentum == momentum,
            r.decay == decay,
            r.iteration == 0,
            r.current_learning_rate == learning_rate,
            r.weights_momentum@.len() == 0,
            r.biases_momentum@.len() == 0,
    {
        SGD {
            learning_rate,
            momentum,
            decay,
            iteration: 0,
            current_learning_rate: learning_rate,
            weights_momentum: Vec::new(),
            biases_momentum: Vec::new(),
        }
    }

    /// The stock configuration: a tenth as rate, a half as momentum and
    /// five ten-thousandths as decay.
    pub fn default() -> (r: SGD)
        ensures
            r.learning_rate == TENTH_BITS,
            r.momentum == HALF_BITS,
            r.decay == SGD_DEFAULT_DECAY_BITS,
            r.iteration == 0,
            r.current_learning_rate == TENTH_BITS,
            r.weights_momentum@.len() == 0,
            r.biases_momentum@.len() == 0,
    {
        SGD::new(TENTH_BITS, HALF_BITS, SGD_DEFAULT_DECAY_BITS)
    }

    /// Discards any previous auxiliary tensors and allocates one zero
    /// tensor per layer per tracked quantity, shaped like that layer's
    /// weights and biases.
    pub fn initialize(&mut self, layers: &Vec<DenseLayer>)
        requires
            layers_wf(layers@),
        ensures
            final(self).aligned(layers@),
            final(self).same_config(*old(self)),
    {
        self.weights_momentum = Vec::new();
        self.biases_momentum = Vec::new();
        let n = layers.len();
        let mut i: usize = 0;
        while i < n
            invariant
                n == layers.len(),
                layers_wf(layers@),
                i <= n,
                self.weights_momentum@.len() == i,
                self.biases_momentum@.len() == i,
                forall|j: int|
                    0 <= j < i
                        ==> self.weights_momentum@[j].wf()
                        && self.weights_momentum@[j].same_dims(layers@[j].weights)
                        && self.biases_momentum@[j].wf()
                        && self.biases_momentum@[j].same_dims(layers@[j].biases),
                self.same_config(*old(self)),
            decreases n - i,
        {
            self.weights_momentum.push(Matrix::zeros_like(&layers[i].weights));
            self.biases_momentum.push(Matrix::zeros_like(&layers[i].biases));
            i = i + 1;
        }
    }

    /// With decay switched on, recomputes the rate in force by inverse-time
    /// decay from the completed update count; otherwise changes nothing.
    pub fn pre_update<B: ScalarOps>(&mut self)
        ensures
            final(self).momentum == old(self).momentum,
            final(self).learning_rate == old(self).learning_rate,
            final(self).decay == old(self).decay,
            final(self).iteration == old(self).iteration,
            final(self).weights_momentum == old(self).weights_momentum,
            final(self).biases_momentum == old(self).biases_momentum,
    {
        if scalar_lt(ZERO_BITS, self.decay) {
            let denom = B::add(ONE_BITS, B::mul(self.decay, B::from_count(self.iteration)));
            self.current_learning_rate = B::mul(self.learning_rate, B::div(ONE_BITS, denom));
        }
    }

    /// Counts one completed update.
    pub fn post_update(&mut self)
        requires
            old(self).iteration < usize::MAX,
        ensures
            final(self).iteration == old(self).iteration + 1,
            final(self).momentum == old(self).momentum,
            final(self).learning_rate == old(self).learning_rate,
            final(self).decay == old(self).decay,
            final(self).current_learning_rate == old(self).current_learning_rate,
            final(self).weights_momentum == old(self).weights_momentum,
            final(self).biases_momentum == old(self).biases_momentum,
    {
        self.iteration = self.iteration + 1;
    }

    /// Applies one momentum step per layer: the scaled negative gradient
    /// plus the momentum fraction of the previous step, which is then
    /// remembered whenever the momentum term is switched on.
    pub fn update_params<B: ScalarOps>(
        &mut self,
        layers: &mut Vec<DenseLayer>,
        nabla_bs: &Vec<Matrix>,
        nabla_ws: &Vec<Matrix>,
    )
        requires
            layers_wf(old(layers)@),
            old(self).aligned(old(layers)@),
            grads_match(old(layers)@, nabla_bs@, nabla_ws@),
        ensures
            same_layout(old(layers)@, final(layers)@),
            final(self).aligned(final(layers)@),
            final(self).same_config(*old(self)),
    {
        let n = layers.len();
        let mut i: usize = 0;
        while i < n
            invariant
                n == old(layers)@.len(),
                layers@.len() == n,
                i <= n,
                grads_match(old(layers)@, nabla_bs@, nabla_ws@),
                same_layout(old(layers)@, layers@),
                self.aligned(layers@),
                self.same_config(*old(self)),
            decreases n - i,
        {
            let neg_lr = scalar_neg(self.current_learning_rate);
            let mut weights_update = zip_scalar::<B>(BinOp::Prod, &nabla_ws[i], neg_lr);
            let mut biases_update = zip_scalar::<B>(BinOp::Prod, &nabla_bs[i], neg_lr);
            if scalar_lt(ZERO_BITS, self.momentum) {
                weights_update = zip::<B>(
                    BinOp::Sum,
                    &weights_update,
                    &zip_scalar::<B>(BinOp::Prod, &self.weights_momentum[i], self.momentum),
                );
                biases_update = zip::<B>(
                    BinOp::Sum,
                    &biases_update,
                    &zip_scalar::<B>(BinOp::Prod, &self.biases_momentum[i], self.momentum),
                );
                self.weights_momentum.set(i, weights_update.clone());
                self.biases_momentum.set(i, biases_update.clone());
            }
            let layer = &layers[i];
            let new_weights = zip::<B>(BinOp::Sum, &layer.weights, &weights_update);
            let new_biases = zip::<B>(BinOp::Sum, &layer.biases, &biases_update);
            let updated = DenseLayer {
                input_size: layer.input_size,
                weights: new_weights,
                biases: new_biases,
                activation: layer.activation,
            };
            layers.set(i, updated);
            i = i + 1;
        }
    }
}

impl crate::network::Summary for SGD {
    /// The optimizer's name.
    fn summerize(&self) -> (r: String)
        ensures
            r@ == "SGD"@,
    {
        String::from_str("SGD")
    }
}

} // verus!
