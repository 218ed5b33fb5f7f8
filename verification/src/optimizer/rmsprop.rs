//! Root-mean-square propagation: a per-parameter learning rate adapted by
//! an exponentially decayed cache of squared gradients.

use vstd::prelude::*;
use vstd::string::StringExecFns;
use vstd::pervasive::VecAdditionalExecFns;

use crate::layer::DenseLayer;
use crate::matrix::{map_sqrt, zip, zip_scalar, BinOp, Matrix};
use crate::optimizer::{
    aligned_with_biases, aligned_with_weights, grads_match, layers_wf, same_layout,
};
use crate::scalar::{scalar_lt, scalar_neg, Scalar, ScalarOps, ONE_BITS, ZERO_BITS};

verus! {

/// The bit pattern of the default learning rate, one thousandth.
pub const RMS_DEFAULT_RATE_BITS: u64 = 0x3F50_624D_D2F1_A9FC;
/// The bit pattern of the default decay, one ten-thousandth.
pub const RMS_DEFAULT_DECAY_BITS: u64 = 0x3F1A_36E2_EB1C_432D;
/// The bit pattern of the guard epsilon, one ten-millionth.
pub const RMS_DEFAULT_EPSILON_BITS: u64 = 0x3E7A_D7F2_9ABC_AF48;
/// The bit pattern of the default cache retention, nine tenths.
pub const RMS_DEFAULT_RHO_BITS: u64 = 0x3FEC_CCCC_CCCC_CCCD;

/// The root-mean-square propagation optimizer.
#[allow(non_camel_case_types)]
pub struct RMS_PROP {
    /// The base learning rate.
    pub learning_rate: Scalar,
    /// The inverse-time decay coefficient; a zero pattern disables decay.
    pub decay: Scalar,
    /// How many updates have completed.
    pub iteration: usize,
    /// The rate in force, recomputed from the decay before each update.
    pub current_learning_rate: Scalar,
    /// Added to every denominator to guard the division near zero.
    pub epsilon: Scalar,
    /// How much of the old squared-gradient cache each update retains.
    pub rho: Scalar,
    /// Per layer, the decayed cache of squared weight gradients.
    pub weights_cache: Vec<Matrix>,
    /// Per layer, the decayed cache of squared bias gradients.
    pub biases_cache: Vec<Matrix>,
}

impl RMS_PROP {
    /// The auxiliary tensors run parallel to the layer list, one weight-
    /// shaped and one bias-shaped cache per layer.
    pub open spec fn aligned(self, layers: Seq<DenseLayer>) -> bool {
        &&& aligned_with_weights(self.weights_cache@, layers)
        &&& aligned_with_biases(self.biases_cache@, layers)
    }

    /// The configuration scalars and the counter of another state.
    pub open spec fn same_config(self, other: RMS_PROP) -> bool {
        &&& self.learning_rate == other.learning_rate
        &&& self.decay == other.decay
        &&& self.iteration == other.iteration
        &&& self.current_learning_rate == other.current_learning_rate
        &&& self.epsilon == other.epsilon
        &&& self.rho == other.rho
    }

    /// A fresh optimizer with the given configuration, no completed updates
    /// and no auxiliary tensors yet.
    pub fn new(learning_rate: Scalar, decay: Scalar, epsilon: Scalar, rho: Scalar) -> (r:
        RMS_PROP)
        ensures
            r.learning_rate == learning_rate,
            r.decay == decay,
            r.epsilon == epsilon,
            r.rho == rho,
            r.iteration == 0,
            r.current_learning_rate == learning_rate,
            r.weights_cache@.len() == 0,
            r.biases_cache@.len() == 0,
    {
        RMS_PROP {
            learning_rate,
            decay,
            iteration: 0,
            current_learning_rate: learning_rate,
            weights_cache: Vec::new(),
            biases_cache: Vec::new(),
            epsilon,
            rho,
        }
    }

    /// The stock configuration: one thousandth as rate, one ten-thousandth
    /// as decay, one ten-millionth as guard and nine tenths retention.
    pub fn default() -> (r: RMS_PROP)
        ensures
            r.learning_rate == RMS_DEFAULT_RATE_BITS,
            r.decay == RMS_DEFAULT_DECAY_BITS,
            r.epsilon == RMS_DEFAULT_EPSILON_BITS,
            r.rho == RMS_DEFAULT_RHO_BITS,
            r.iteration == 0,
            r.current_learning_rate == RMS_DEFAULT_RATE_BITS,
            r.weights_cache@.len() == 0,
            r.biases_cache@.len() == 0,
    {
        RMS_PROP::new(
            RMS_DEFAULT_RATE_BITS,
            RMS_DEFAULT_DECAY_BITS,
            RMS_DEFAULT_EPSILON_BITS,
            RMS_DEFAULT_RHO_BITS,
        )
    }

    /// Discards any previous caches and allocates one zero tensor per layer
    /// per tracked quantity, shaped like that layer's weights and biases.
    pub fn initialize(&mut self, layers: &Vec<DenseLayer>)
        requires
            layers_wf(layers@),
        ensures
            final(self).aligned(layers@),
            final(self).same_config(*old(self)),
    {
        self.weights_cache = Vec::new();
        self.biases_cache = Vec::new();
        let n = layers.len();
        let mut i: usize = 0;
        while i < n
            invariant
                n == layers.len(),
                layers_wf(layers@),
                i <= n,
                self.weights_cache@.len() == i,
                self.biases_cache@.len() == i,
                forall|j: int|
                    0 <= j < i
                        ==> self.weights_cache@[j].wf()
                        && self.weights_cache@[j].same_dims(layers@[j].weights)
                        && self.biases_cache@[j].wf()
                        && self.biases_cache@[j].same_dims(layers@[j].biases),
                self.same_config(*old(self)),
            decreases n - i,
        {
            self.weights_cache.push(Matrix::zeros_like(&layers[i].weights));
            self.biases_cache.push(Matrix::zeros_like(&layers[i].biases));
            i = i + 1;
        }
    }

    /// With decay switched on, recomputes the rate in force by inverse-time
    /// decay from the completed update count; otherwise changes nothing.
    pub fn pre_update<B: ScalarOps>(&mut self)
        ensures
            final(self).learning_rate == old(self).learning_rate,
            final(self).decay == old(self).decay,
            final(self).iteration == old(self).iteration,
            final(self).epsilon == old(self).epsilon,
            final(self).rho == old(self).rho,
            final(self).weights_cache == old(self).weights_cache,
            final(self).biases_cache == old(self).biases_cache,
    {
        if scalar_lt(ZERO_BITS, self.decay) {
            let denom = B::add(ONE_BITS, B::mul(self.decay, B::from_count(self.iteration)));
            self.current_learning_rate = B::mul(self.learning_rate, B::div(ONE_BITS, denom));
        }
    }

    /// Counts one completed update.
    pub fn post_update(&mut self)
        requires
            old(self).iteration < usize::MAX,
        ensures
            final(self).iteration == old(self).iteration + 1,
            final(self).learning_rate == old(self).learning_rate,
            final(self).decay == old(self).decay,
            final(self).current_learning_rate == old(self).current_learning_rate,
            final(self).epsilon == old(self).epsilon,
            final(self).rho == old(self).rho,
            final(self).weights_cache == old(self).weights_cache,
            final(self).biases_cache == old(self).biases_cache,
    {
        self.iteration = self.iteration + 1;
    }

    /// Per layer, refreshes the squared-gradient cache and applies the
    /// scaled negative gradient divided by the cache's square root plus the
    /// guard epsilon.
    pub fn update_params<B: ScalarOps>(
        &mut self,
        layers: &mut Vec<DenseLayer>,
        nabla_bs: &Vec<Matrix>,
        nabla_ws: &Vec<Matrix>,
    )
        requires
            layers_wf(old(layers)@),
            old(self).aligned(old(layers)@),
            grads_match(old(layers)@, nabla_bs@, nabla_ws@),
        ensures
            same_layout(old(layers)@, final(layers)@),
            final(self).aligned(final(layers)@),
            final(self).same_config(*old(self)),
    {
        let n = layers.len();
        let mut i: usize = 0;
        while i < n
            invariant
                n == old(layers)@.len(),
                layers@.len() == n,
                i <= n,
                grads_match(old(layers)@, nabla_bs@, nabla_ws@),
                same_layout(old(layers)@, layers@),
                self.aligned(layers@),
                self.same_config(*old(self)),
            decreases n - i,
        {
            let one_minus_rho = B::sub(ONE_BITS, self.rho);
            let wg2 = zip::<B>(BinOp::Prod, &nabla_ws[i], &nabla_ws[i]);
            let bg2 = zip::<B>(BinOp::Prod, &nabla_bs[i], &nabla_bs[i]);
            let new_wc = zip::<B>(
                BinOp::Sum,
                &zip_scalar::<B>(BinOp::Prod, &self.weights_cache[i], self.rho),
                &zip_scalar::<B>(BinOp::Prod, &wg2, one_minus_rho),
            );
            let new_bc = zip::<B>(
                BinOp::Sum,
                &zip_scalar::<B>(BinOp::Prod, &self.biases_cache[i], self.rho),
                &zip_scalar::<B>(BinOp::Prod, &bg2, one_minus_rho),
            );
            self.weights_cache.set(i, new_wc);
            self.biases_cache.set(i, new_bc);
            let neg_lr = scalar_neg(self.current_learning_rate);
            let w_denom = zip_scalar::<B>(
                BinOp::Sum,
                &map_sqrt::<B>(&self.weights_cache[i]),
                self.epsilon,
            );
            let b_denom = zip_scalar::<B>(
                BinOp::Sum,
                &map_sqrt::<B>(&self.biases_cache[i]),
                self.epsilon,
            );
            let weights_update = zip::<B>(
                BinOp::Quot,
                &zip_scalar::<B>(BinOp::Prod, &nabla_ws[i], neg_lr),
                &w_denom,
            );
            let biases_update = zip::<B>(
                BinOp::Quot,
                &zip_scalar::<B>(BinOp::Prod, &nabla_bs[i], neg_lr),
                &b_denom,
            );
            let layer = &layers[i];
            let new_weights = zip::<B>(BinOp::Sum, &layer.weights, &weights_update);
            let new_biases = zip::<B>(BinOp::Sum, &layer.biases, &biases_update);
            let updated = DenseLayer {
                input_size: layer.input_size,
                weights: new_weights,
                biases: new_biases,
                activation: layer.activation,
            };
            layers.set(i, updated);
            i = i + 1;
        }
    }
}

impl crate::network::Summary for RMS_PROP {
    /// The optimizer's name.
    fn summerize(&self) -> (r: String)
        ensures
            r@ == "RMS_PROP"@,
    {
        String::from_str("RMS_PROP")
    }
}

} // verus!
