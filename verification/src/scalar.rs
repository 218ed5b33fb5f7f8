//! The scalar model: IEEE-754 double-precision values as raw `u64` bit
//! patterns, a bit-level specification of their classification and ordering,
//! and the [`ScalarOps`] backend trait through which the embedding program
//! supplies the arithmetic itself.

use vstd::prelude::*;

verus! {

/// A scalar of the network: the bit pattern of an IEEE-754 double.
pub type Scalar = u64;

/// Mask of the sign bit.
pub const SIGN_MASK: u64 = 0x8000_0000_0000_0000;
/// Mask of the exponent and fraction bits (everything but the sign).
pub const MAG_MASK: u64 = 0x7FFF_FFFF_FFFF_FFFF;
/// Magnitude of an infinity: exponent bits all set, fraction zero.
pub const INF_MAG: u64 = 0x7FF0_0000_0000_0000;

/// The pattern of positive zero.
pub const ZERO_BITS: u64 = 0x0000_0000_0000_0000;
/// The pattern of one.
pub const ONE_BITS: u64 = 0x3FF0_0000_0000_0000;
/// The pattern of one half.
pub const HALF_BITS: u64 = 0x3FE0_0000_0000_0000;
/// The pattern of one tenth.
pub const TENTH_BITS: u64 = 0x3FB9_9999_9999_999A;
/// The pattern of forty-five, the saturation threshold of the sigmoid.
pub const SAT_BITS: u64 = 0x4046_8000_0000_0000;
/// The pattern of minus forty-five.
pub const NEG_SAT_BITS: u64 = 0xC046_8000_0000_0000;

/// The magnitude of a pattern: its bits with the sign cleared.
pub open spec fn magnitude(b: Scalar) -> u64 {
    b & MAG_MASK
}

/// Whether the sign bit of a pattern is set.
pub open spec fn sign_of(b: Scalar) -> bool {
    b & SIGN_MASK == SIGN_MASK
}

/// A not-a-number pattern: exponent all ones, fraction nonzero.
pub open spec fn is_nan(b: Scalar) -> bool {
    magnitude(b) > INF_MAG
}

/// A finite pattern: zero, subnormal or normal.
pub open spec fn is_finite(b: Scalar) -> bool {
    magnitude(b) < INF_MAG
}

/// A zero pattern, of either sign.
pub open spec fn is_zero(b: Scalar) -> bool {
    magnitude(b) == 0
}

/// The IEEE-754 `<` order on two patterns. Not-a-number compares under
/// nothing, and the two zeros are equal; otherwise negatives order by
/// falling magnitude, positives by rising magnitude.
pub open spec fn lt_bits(a: Scalar, b: Scalar) -> bool {
    &&& !is_nan(a)
    &&& !is_nan(b)
    &&& !(is_zero(a) && is_zero(b))
    &&& if sign_of(a) != sign_of(b) {
        sign_of(a)
    } else if !sign_of(a) {
        magnitude(a) < magnitude(b)
    } else {
        magnitude(a) > magnitude(b)
    }
}

/// The pattern of the negated value: the sign bit flipped.
pub open spec fn neg_bits(b: Scalar) -> Scalar {
    if b >= SIGN_MASK {
        (b - SIGN_MASK) as u64
    } else {
        (b + SIGN_MASK) as u64
    }
}

/// Decides the IEEE-754 `<` order on two patterns.
pub fn scalar_lt(a: Scalar, b: Scalar) -> (r: bool)
    ensures
        r == lt_bits(a, b),
{
    let ma = a & MAG_MASK;
    let mb = b & MAG_MASK;
    if ma > INF_MAG || mb > INF_MAG {
        false
    } else if ma == 0 && mb == 0 {
        false
    } else {
        let sa = (a & SIGN_MASK) == SIGN_MASK;
        let sb = (b & SIGN_MASK) == SIGN_MASK;
        if sa != sb {
            sa
        } else if !sa {
            ma < mb
        } else {
            ma > mb
        }
    }
}

/// Negates a pattern by flipping its sign bit, exactly as IEEE-754
/// negation does.
pub fn scalar_neg(b: Scalar) -> (r: Scalar)
    ensures
        r == neg_bits(b),
        magnitude(r) == magnitude(b),
{
    assert((if b >= 0x8000_0000_0000_0000u64 {
        (b - 0x8000_0000_0000_0000u64) as u64
    } else {
        (b + 0x8000_0000_0000_0000u64) as u64
    }) & 0x7FFF_FFFF_FFFF_FFFFu64 == b & 0x7FFF_FFFF_FFFF_FFFFu64) by (bit_vector);
    if b >= SIGN_MASK {
        b - SIGN_MASK
    } else {
        b + SIGN_MASK
    }
}

/// The arithmetic backend: every operation takes and returns IEEE-754
/// double bit patterns. The trainer is verified for any implementation;
/// none of its contracts constrain what these operations return, so an
/// implementation built on hardware doubles gives the trainer its usual
/// numeric behaviour without any of it being assumed in proofs.
pub trait ScalarOps {
    /// The sum of the two values.
    fn add(a: Scalar, b: Scalar) -> Scalar;

    /// The difference of the two values.
    fn sub(a: Scalar, b: Scalar) -> Scalar;

    /// The product of the two values.
    fn mul(a: Scalar, b: Scalar) -> Scalar;

    /// The quotient of the two values.
    fn div(a: Scalar, b: Scalar) -> Scalar;

    /// The square root of the value.
    fn sqrt(a: Scalar) -> Scalar;

    /// The exponential of the value.
    fn exp(a: Scalar) -> Scalar;

    /// The double nearest to the given count.
    fn from_count(n: usize) -> Scalar;

    /// A fresh draw from a standard normal distribution.
    fn sample_unit_normal() -> Scalar;
}

/// Raises a base to a whole-number power by repeated squaring over the
/// backend's multiplication, starting from one.
pub fn scalar_powi<B: ScalarOps>(base: Scalar, n: usize) -> (r: Scalar)
    ensures
        n == 0 ==> r == ONE_BITS,
{
    let mut acc: Scalar = ONE_BITS;
    let mut b: Scalar = base;
    let mut k: usize = n;
    while k > 0
        invariant
            k <= n,
            n == 0 ==> acc == ONE_BITS,
        decreases k,
    {
        if k % 2 == 1 {
            acc = B::mul(acc, b);
        }
        b = B::mul(b, b);
        k = k / 2;
    }
    acc
}

} // verus!
