//! Adaptive moment estimation: decayed first and second gradient moments
//! per parameter, with cold-start bias correction.

use vstd::prelude::*;
use vstd::string::StringExecFns;
use vstd::pervasive::VecAdditionalExecFns;

use crate::layer::DenseLayer;
use crate::matrix::{map_sqrt, zip, zip_scalar, BinOp, Matrix};
use crate::optimizer::{
    aligned_with_biases, aligned_with_weights, grads_match, layers_wf, same_layout,
};
use crate::scalar::{scalar_lt, scalar_powi, Scalar, ScalarOps, ONE_BITS, ZERO_BITS};

verus! {

/// The bit pattern of the default learning rate, two thousandths.
pub const ADAM_DEFAULT_RATE_BITS: u64 = 0x3F60_624D_D2F1_A9FC;
/// The bit pattern of the default decay, one hundred-thousandth.
pub const ADAM_DEFAULT_DECAY_BITS: u64 = 0x3EE4_F8B5_88E3_68F1;
/// The bit pattern of the guard epsilon, one ten-millionth.
pub const ADAM_DEFAULT_EPSILON_BITS: u64 = 0x3E7A_D7F2_9ABC_AF48;
/// The bit pattern of the default first-moment retention, nine tenths.
pub const ADAM_DEFAULT_BETA_1_BITS: u64 = 0x3FEC_CCCC_CCCC_CCCD;
/// The bit pattern of the default second-moment retention, almost one.
pub const ADAM_DEFAULT_BETA_2_BITS: u64 = 0x3FEF_F7CE_D916_872B;

/// The adaptive moment estimation optimizer.
#[allow(non_camel_case_types)]
pub struct ADAM {
    /// The base learning rate.
    pub learning_rate: Scalar,
    /// The inverse-time decay coefficient; a zero pattern disables decay.
    pub decay: Scalar,
    /// How many updates have completed; also drives the bias correction.
    pub iteration: usize,
    /// The rate in force, recomputed from the decay before each update.
    pub current_learning_rate: Scalar,
    /// Added to every denominator to guard the division near zero.
    pub epsilon: Scalar,
    /// How much of the old first moment each update retains.
    pub beta_1: Scalar,
    /// How much of the old second moment each update retains.
    pub beta_2: Scalar,
    /// Per layer, the decayed cache of squared weight gradients.
    pub weights_cache: Vec<Matrix>,
    /// Per layer, the decayed cache of squared bias gradients.
    pub biases_cache: Vec<Matrix>,
    /// Per layer, the decayed first moment of the weight gradients.
    pub weights_momentum: Vec<Matrix>,
    /// Per layer, the decayed first moment of the bias gradients.
    pub biases_momentum: Vec<Matrix>,
}

impl ADAM {
    /// All four auxiliary tensor lists run parallel to the layer list, each
    /// tensor shaped like the matching layer's weights or biases.
    pub open spec fn aligned(self, layers: Seq<DenseLayer>) -> bool {
        &&& aligned_with_weights(self.weights_cache@, layers)
        &&& aligned_with_biases(self.biases_cache@, layers)
        &&& aligned_with_weights(self.weights_momentum@, layers)
        &&& aligned_with_biases(self.biases_momentum@, layers)
    }

    /// The configuration scalars and the counter of another state.
    pub open spec fn same_config(self, other: ADAM) -> bool {
        &&& self.learning_rate == other.learning_rate
        &&& self.decay == other.decay
        &&& self.iteration == other.iteration
        &&& self.current_learning_rate == other.current_learning_rate
        &&& self.epsilon == other.epsilon
        &&& self.beta_1 == other.beta_1
        &&& self.beta_2 == other.beta_2
    }

    /// A fresh optimizer with the given configuration, no completed updates
    /// and no auxiliary tensors yet.
    pub fn new(
        learning_rate: Scalar,
        decay: Scalar,
        epsilon: Scalar,
        beta_1: Scalar,
        beta_2: Scalar,
    ) -> (r: ADAM)
        ensures
            r.learning_rate == learning_rate,
            r.decay == decay,
            r.epsilon == epsilon,
            r.beta_1 == beta_1,
            r.beta_2 == beta_2,
            r.iteration == 0,
            r.current_learning_rate == learning_rate,
            r.weights_cache@.len() == 0,
            r.biases_cache@.len() == 0,
            r.weights_momentum@.len() == 0,
            r.biases_momentum@.len() == 0,
    {
        ADAM {
            learning_rate,
            decay,
            iteration: 0,
            current_learning_rate: learning_rate,
            weights_cache: Vec::new(),
            biases_cache: Vec::new(),
            weights_momentum: Vec::new(),
            biases_momentum: Vec::new(),
            epsilon,
            beta_1,
            beta_2,
        }
    }

    /// The stock configuration: two thousandths as rate, one
    /// hundred-thousandth as decay, one ten-millionth as guard, nine tenths
    /// and nine hundred ninety-nine thousandths as moment retentions.
    pub fn default() -> (r: ADAM)
        ensures
            r.learning_rate == ADAM_DEFAULT_RATE_BITS,
            r.decay == ADAM_DEFAULT_DECAY_BITS,
            r.epsilon == ADAM_DEFAULT_EPSILON_BITS,
            r.beta_1 == ADAM_DEFAULT_BETA_1_BITS,
            r.beta_2 == ADAM_DEFAULT_BETA_2_BITS,
            r.iteration == 0,
            r.current_learning_rate == ADAM_DEFAULT_RATE_BITS,
            r.weights_cache@.len() == 0,
            r.biases_cache@.len() == 0,
            r.weights_momentum@.len() == 0,
            r.biases_momentum@.len() == 0,
    {
        ADAM::new(
            ADAM_DEFAULT_RATE_BITS,
            ADAM_DEFAULT_DECAY_BITS,
            ADAM_DEFAULT_EPSILON_BITS,
            ADAM_DEFAULT_BETA_1_BITS,
            ADAM_DEFAULT_BETA_2_BITS,
        )
    }

    /// Discards any previous auxiliary tensors and allocates one zero
    /// tensor per layer per tracked quantity, shaped like that layer's
    /// weights and biases.
    pub fn initialize(&mut self, layers: &Vec<DenseLayer>)
        requires
            layers_wf(layers@),
        ensures
            final(self).aligned(layers@),
            final(self).same_config(*old(self)),
    {
        self.weights_cache = Vec::new();
        self.biases_cache = Vec::new();
        self.weights_momentum = Vec::new();
        self.biases_momentum = Vec::new();
        let n = layers.len();
        let mut i: usize = 0;
        while i < n
            invariant
                n == layers.len(),
                layers_wf(layers@),
                i <= n,
                self.weights_cache@.len() == i,
                self.biases_cache@.len() == i,
                self.weights_momentum@.len() == i,
                self.biases_momentum@.len() == i,
                forall|j: int|
                    0 <= j < i
                        ==> self.weights_cache@[j].wf()
                        && self.weights_cache@[j].same_dims(layers@[j].weights)
                        && self.biases_cache@[j].wf()
                        && self.biases_cache@[j].same_dims(layers@[j].biases)
                        && self.weights_momentum@[j].wf()
                        && self.weights_momentum@[j].same_dims(layers@[j].weights)
                        && self.biases_momentum@[j].wf()
                        && self.biases_momentum@[j].same_dims(layers@[j].biases),
                self.same_config(*old(self)),
            decreases n - i,
        {
            self.weights_cache.push(Matrix::zeros_like(&layers[i].weights));
            self.biases_cache.push(Matrix::zeros_like(&layers[i].biases));
            self.weights_momentum.push(Matrix::zeros_like(&layers[i].weights));
            self.biases_momentum.push(Matrix::zeros_like(&layers[i].biases));
            i = i + 1;
        }
    }

    /// With decay switched on, recomputes the rate in force by inverse-time
    /// decay from the completed update count; otherwise changes nothing.
    pub fn pre_update<B: ScalarOps>(&mut self)
        ensures
            final(self).learning_rate == old(self).learning_rate,
            final(self).decay == old(self).decay,
            final(self).iteration == old(self).iteration,
            final(self).epsilon == old(self).epsilon,
            final(self).beta_1 == old(self).beta_1,
            final(self).beta_2 == old(self).beta_2,
            final(self).weights_cache == old(self).weights_cache,
            final(self).biases_cache == old(self).biases_cache,
            final(self).weights_momentum == old(self).weights_momentum,
            final(self).biases_momentum == old(self).biases_momentum,
    {
        if scalar_lt(ZERO_BITS, self.decay) {
            let denom = B::add(ONE_BITS, B::mul(self.decay, B::from_count(self.iteration)));
            self.current_learning_rate = B::mul(self.learning_rate, B::div(ONE_BITS, denom));
        }
    }

    /// Counts one completed update.
    pub fn post_update(&mut self)
        requires
            old(self).iteration < usize::MAX,
        ensures
            final(self).iteration == old(self).iteration + 1,
            final(self).learning_rate == old(self).learning_rate,
            final(self).decay == old(self).decay,
            final(self).current_learning_rate == old(self).current_learning_rate,
            final(self).epsilon == old(self).epsilon,
            final(self).beta_1 == old(self).beta_1,
            final(self).beta_2 == old(self).beta_2,
            final(self).weights_cache == old(self).weights_cache,
            final(self).biases_cache == old(self).biases_cache,
            final(self).weights_momentum == old(self).weights_momentum,
            final(self).biases_momentum == old(self).biases_momentum,
    {
        self.iteration = self.iteration + 1;
    }

    /// Per layer, refreshes both decayed moments, corrects each for the
    /// cold start with the completed update count plus one as exponent, and
    /// subtracts the scaled corrected first moment divided by the corrected
    /// second moment's square root plus the guard epsilon.
    pub fn update_params<B: ScalarOps>(
        &mut self,
        layers: &mut Vec<DenseLayer>,
        nabla_bs: &Vec<Matrix>,
        nabla_ws: &Vec<Matrix>,
    )
        requires
            old(self).iteration < usize::MAX,
            layers_wf(old(layers)@),
            old(self).aligned(old(layers)@),
            grads_match(old(layers)@, nabla_bs@, nabla_ws@),
        ensures
            same_layout(old(layers)@, final(layers)@),
            final(self).aligned(final(layers)@),
            final(self).same_config(*old(self)),
    {
        let n = layers.len();
        let mut i: usize = 0;
        while i < n
            invariant
                n == old(layers)@.len(),
                layers@.len() == n,
                i <= n,
                self.iteration < usize::MAX,
                grads_match(old(layers)@, nabla_bs@, nabla_ws@),
                same_layout(old(layers)@, layers@),
                self.aligned(layers@),
                self.same_config(*old(self)),
            decreases n - i,
        {
            let one_minus_b1 = B::sub(ONE_BITS, self.beta_1);
            let one_minus_b2 = B::sub(ONE_BITS, self.beta_2);
            let new_wm = zip::<B>(
                BinOp::Sum,
                &zip_scalar::<B>(BinOp::Prod, &self.weights_momentum[i], self.beta_1),
                &zip_scalar::<B>(BinOp::Prod, &nabla_ws[i], one_minus_b1),
            );
            let new_bm = zip::<B>(
                BinOp::Sum,
                &zip_scalar::<B>(BinOp::Prod, &self.biases_momentum[i], self.beta_1),
                &zip_scalar::<B>(BinOp::Prod, &nabla_bs[i], one_minus_b1),
            );
            self.weights_momentum.set(i, new_wm);
            self.biases_momentum.set(i, new_bm);
            let wg2 = zip::<B>(BinOp::Prod, &nabla_ws[i], &nabla_ws[i]);
            let bg2 = zip::<B>(BinOp::Prod, &nabla_bs[i], &nabla_bs[i]);
            let new_wc = zip::<B>(
                BinOp::Sum,
                &zip_scalar::<B>(BinOp::Prod, &self.weights_cache[i], self.beta_2),
                &zip_scalar::<B>(BinOp::Prod, &wg2, one_minus_b2),
            );
            let new_bc = zip::<B>(
                BinOp::Sum,
                &zip_scalar::<B>(BinOp::Prod, &self.biases_cache[i], self.beta_2),
                &zip_scalar::<B>(BinOp::Prod, &bg2, one_minus_b2),
            );
            self.weights_cache.set(i, new_wc);
            self.biases_cache.set(i, new_bc);
            let b1_correction = B::sub(ONE_BITS, scalar_powi::<B>(self.beta_1, self.iteration + 1));
            let b2_correction = B::sub(ONE_BITS, scalar_powi::<B>(self.beta_2, self.iteration + 1));
            let wm_hat = zip_scalar::<B>(BinOp::Quot, &self.weights_momentum[i], b1_correction);
            let bm_hat = zip_scalar::<B>(BinOp::Quot, &self.biases_momentum[i], b1_correction);
            let wc_hat = zip_scalar::<B>(BinOp::Quot, &self.weights_cache[i], b2_correction);
            let bc_hat = zip_scalar::<B>(BinOp::Quot, &self.biases_cache[i], b2_correction);
            let w_denom = zip_scalar::<B>(BinOp::Sum, &map_sqrt::<B>(&wc_hat), self.epsilon);
            let b_denom = zip_scalar::<B>(BinOp::Sum, &map_sqrt::<B>(&bc_hat), self.epsilon);
            let weights_update = zip::<B>(
                BinOp::Quot,
                &zip_scalar::<B>(BinOp::Prod, &wm_hat, self.current_learning_rate),
                &w_denom,
            );
            let biases_update = zip::<B>(
                BinOp::Quot,
                &zip_scalar::<B>(BinOp::Prod, &bm_hat, self.current_learning_rate),
                &b_denom,
            );
            let layer = &layers[i];
            let new_weights = zip::<B>(BinOp::Diff, &layer.weights, &weights_update);
            let new_biases = zip::<B>(BinOp::Diff, &layer.biases, &biases_update);
            let updated = DenseLayer {
                input_size: layer.input_size,
                weights: new_weights,
                biases: new_biases,
                activation: layer.activation,
            };
            layers.set(i, updated);
            i = i + 1;
        }
    }
}

impl crate::network::Summary for ADAM {
    /// The optimizer's name.
    fn summerize(&self) -> (r: String)
        ensures
            r@ == "ADAM"@,
    {
        String::from_str("ADAM")
    }
}

} // verus!
