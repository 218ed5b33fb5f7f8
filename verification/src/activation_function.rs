//! The activation functions of the network: rectifier, clamped sigmoid and
//! identity, as scalar maps and as elementwise lifts over matrices.
//!
//! The rectifier and the identity are pure bit-pattern functions and carry
//! exact contracts. The sigmoid needs the backend's exponential in its open
//! interval, so its contract pins down exactly the two saturated regions,
//! where the guard returns a constant before any arithmetic happens.

use vstd::prelude::*;

use crate::matrix::Matrix;
use crate::scalar::{
    is_finite, lt_bits, scalar_lt, scalar_neg, Scalar, ScalarOps, NEG_SAT_BITS, ONE_BITS,
    SAT_BITS, ZERO_BITS,
};

verus! {

/// The rectifier: the value itself where it is above zero, else zero.
pub open spec fn relu_apply_spec(x: Scalar) -> Scalar {
    if lt_bits(ZERO_BITS, x) {
        x
    } else {
        ZERO_BITS
    }
}

/// The rectifier's derivative: one above zero, zero at and below it.
pub open spec fn relu_derivative_spec(x: Scalar) -> Scalar {
    if lt_bits(ZERO_BITS, x) {
        ONE_BITS
    } else {
        ZERO_BITS
    }
}

/// What the sigmoid guarantees of its result: an exact one above the
/// saturation threshold and an exact zero below its negation. Between the
/// thresholds the value comes from the backend's arithmetic and is not
/// constrained here.
pub open spec fn sigmoid_guard_spec(x: Scalar, r: Scalar) -> bool {
    &&& lt_bits(SAT_BITS, x) ==> r == ONE_BITS
    &&& !lt_bits(SAT_BITS, x) && lt_bits(x, NEG_SAT_BITS) ==> r == ZERO_BITS
}

/// What applying an activation guarantees per element.
pub open spec fn activation_apply_spec(a: ActivationFunction, x: Scalar, r: Scalar) -> bool {
    match a {
        ActivationFunction::Relu => r == relu_apply_spec(x),
        ActivationFunction::Sigmoid => sigmoid_guard_spec(x, r),
        ActivationFunction::Linear => r == x,
    }
}

/// What an activation's derivative guarantees per element.
pub open spec fn activation_derivative_spec(a: ActivationFunction, x: Scalar, r: Scalar) -> bool {
    match a {
        ActivationFunction::Relu => r == relu_derivative_spec(x),
        ActivationFunction::Sigmoid => true,
        ActivationFunction::Linear => r == ONE_BITS,
    }
}

/// The rectified linear activation.
pub struct Relu;

impl Relu {
    /// The rectifier itself.
    pub fn f(&self, x: Scalar) -> (r: Scalar)
        ensures
            r == relu_apply_spec(x),
    {
        if scalar_lt(ZERO_BITS, x) {
            x
        } else {
            ZERO_BITS
        }
    }

    /// The rectifier's derivative, taking zero at the kink.
    pub fn d(&self, x: Scalar) -> (r: Scalar)
        ensures
            r == relu_derivative_spec(x),
    {
        if scalar_lt(ZERO_BITS, x) {
            ONE_BITS
        } else {
            ZERO_BITS
        }
    }
}

/// The logistic sigmoid with saturation guards.
pub struct Sigmoid;

impl Sigmoid {
    /// One over one plus the exponential of the negated value, except that
    /// beyond the saturation threshold the exact limit is returned before
    /// the exponential could overflow.
    pub fn f<B: ScalarOps>(&self, x: Scalar) -> (r: Scalar)
        ensures
            sigmoid_guard_spec(x, r),
    {
        if scalar_lt(SAT_BITS, x) {
            ONE_BITS
        } else if scalar_lt(x, NEG_SAT_BITS) {
            ZERO_BITS
        } else {
            B::div(ONE_BITS, B::add(ONE_BITS, B::exp(scalar_neg(x))))
        }
    }

    /// The sigmoid's derivative, computed by re-evaluating the guarded
    /// sigmoid so the saturation guard protects it too.
    pub fn d<B: ScalarOps>(&self, x: Scalar) -> Scalar {
        let s = self.f::<B>(x);
        B::mul(s, B::sub(ONE_BITS, s))
    }
}

/// The identity activation.
pub struct Linear;

impl Linear {
    /// The value unchanged.
    pub fn f(&self, x: Scalar) -> (r: Scalar)
        ensures
            r == x,
    {
        x
    }

    /// A constant one.
    pub fn d(&self, _x: Scalar) -> (r: Scalar)
        ensures
            r == ONE_BITS,
    {
        ONE_BITS
    }
}

/// The closed set of activation functions a layer can carry.
#[derive(Clone, Copy, PartialEq, Eq, Structural)]
pub enum ActivationFunction {
    /// The rectified linear activation.
    Relu,
    /// The logistic sigmoid with saturation guards.
    Sigmoid,
    /// The identity activation.
    Linear,
}

impl ActivationFunction {
    /// Applies the activation to one scalar.
    pub fn f<B: ScalarOps>(self, x: Scalar) -> (r: Scalar)
        ensures
            activation_apply_spec(self, x, r),
    {
        match self {
            ActivationFunction::Relu => Relu.f(x),
            ActivationFunction::Sigmoid => Sigmoid.f::<B>(x),
            ActivationFunction::Linear => Linear.f(x),
        }
    }

    /// The activation's derivative at one scalar.
    pub fn d<B: ScalarOps>(self, x: Scalar) -> (r: Scalar)
        ensures
            activation_derivative_spec(self, x, r),
    {
        match self {
            ActivationFunction::Relu => Relu.d(x),
            ActivationFunction::Sigmoid => Sigmoid.d::<B>(x),
            ActivationFunction::Linear => Linear.d(x),
        }
    }

    /// Applies the activation to every element of a matrix independently.
    pub fn f_array<B: ScalarOps>(self, x: &Matrix) -> (r: Matrix)
        requires
            x.wf(),
        ensures
            r.wf(),
            r.same_dims(*x),
            forall|m: int|
                0 <= m < x.data.len()
                    ==> activation_apply_spec(self, x.data[m], r.data[m]),
    {
        let n = x.data.len();
        let mut data: Vec<Scalar> = Vec::new();
        let mut k: usize = 0;
        while k < n
            invariant
                k <= n,
                n == x.data.len(),
                data.len() == k,
                forall|m: int|
                    0 <= m < k ==> activation_apply_spec(self, x.data[m], data[m]),
            decreases n - k,
        {
            data.push(self.f::<B>(x.data[k]));
            k = k + 1;
        }
        Matrix { rows: x.rows, cols: x.cols, data }
    }

    /// The activation's derivative at every element of a matrix.
    pub fn d_array<B: ScalarOps>(self, x: &Matrix) -> (r: Matrix)
        requires
            x.wf(),
        ensures
            r.wf(),
            r.same_dims(*x),
            forall|m: int|
                0 <= m < x.data.len()
                    ==> activation_derivative_spec(self, x.data[m], r.data[m]),
    {
        let n = x.data.len();
        let mut data: Vec<Scalar> = Vec::new();
        let mut k: usize = 0;
        while k < n
            invariant
                k <= n,
                n == x.data.len(),
                data.len() == k,
                forall|m: int|
                    0 <= m < k ==> activation_derivative_spec(self, x.data[m], data[m]),
            decreases n - k,
        {
            data.push(self.d::<B>(x.data[k]));
            k = k + 1;
        }
        Matrix { rows: x.rows, cols: x.cols, data }
    }
}

/// The rectifier and the identity keep every finite pattern finite, as do
/// their derivatives: each returns either its finite argument or an exact
/// constant.
pub proof fn lemma_relu_linear_finite(x: Scalar)
    requires
        is_finite(x),
    ensures
        is_finite(relu_apply_spec(x)),
        is_finite(relu_derivative_spec(x)),
{
    assert(0u64 & 0x7FFF_FFFF_FFFF_FFFFu64 == 0u64) by (bit_vector);
    assert(0x3FF0_0000_0000_0000u64 & 0x7FFF_FFFF_FFFF_FFFFu64 == 0x3FF0_0000_0000_0000u64)
        by (bit_vector);
}

/// Beyond either saturation threshold the sigmoid's result is an exact
/// constant, hence finite, whatever the backend computes elsewhere.
pub proof fn lemma_sigmoid_saturated_finite(x: Scalar, r: Scalar)
    requires
        sigmoid_guard_spec(x, r),
        lt_bits(SAT_BITS, x) || lt_bits(x, NEG_SAT_BITS),
    ensures
        is_finite(r),
{
    assert(0u64 & 0x7FFF_FFFF_FFFF_FFFFu64 == 0u64) by (bit_vector);
    assert(0x3FF0_0000_0000_0000u64 & 0x7FFF_FFFF_FFFF_FFFFu64 == 0x3FF0_0000_0000_0000u64)
        by (bit_vector);
}

} // verus!
