//! How a texture is sampled, which depends on whether its sides are powers of two.

use vstd::prelude::*;

verus! {

/// How a freshly uploaded texture is to be sampled.
#[derive(Copy, Clone, Debug, PartialEq, Eq, Structural)]
pub enum TextureSampling {
    /// Generate the chain of mipmaps.
    Mipmapped,
    /// No mipmaps: clamp both wrap directions to the edge and filter linearly.
    ClampedLinear,
}

/// `2` to the power `exponent`.
pub open spec fn pow2(exponent: nat) -> nat
    decreases exponent,
{
    if exponent == 0 {
        1
    } else {
        2 * pow2((exponent - 1) as nat)
    }
}

/// Whether `n` is one of `1, 2, 4, 8, ...`.
pub open spec fn is_pow2(n: int) -> bool {
    exists|exponent: nat| pow2(exponent) == n
}

/// The sampling that the dimensions of an image call for: mipmaps only where both
/// sides are powers of two.
pub open spec fn sampling_for(width: u32, height: u32) -> TextureSampling {
    if is_pow2(width as int) && is_pow2(height as int) {
        TextureSampling::Mipmapped
    } else {
        TextureSampling::ClampedLinear
    }
}

/// Every power of two is positive.
proof fn lemma_pow2_positive(exponent: nat)
    ensures
        pow2(exponent) > 0,
    decreases exponent,
{
    if exponent > 0 {
        lemma_pow2_positive((exponent - 1) as nat);
    }
}

/// A positive number without a second bit set is a power of two, and a power of two
/// below `2^32` has no second bit set.
proof fn lemma_single_bit(n: u32)
    ensures
        is_pow2(n as int) <==> n != 0 && n & ((n - 1) as u32) == 0,
    decreases n,
{
    if n == 0 {
        assert forall|exponent: nat| pow2(exponent) != 0 by {
            lemma_pow2_positive(exponent);
        }
    } else if n == 1 {
        assert(pow2(0) == 1);
        assert(1u32 & 0u32 == 0) by (bit_vector);
    } else if n % 2 == 1 {
        assert(n & ((n - 1) as u32) != 0) by (bit_vector)
            requires
                n % 2 == 1,
                n > 1,
        ;
        assert forall|exponent: nat| pow2(exponent) != n by {
            if exponent > 0 {
                assert(pow2(exponent) == 2 * pow2((exponent - 1) as nat));
            } else {
                assert(pow2(0) == 1);
            }
        }
    } else {
        let half: u32 = n / 2;
        lemma_single_bit(half);
        assert((n & ((n - 1) as u32) == 0) <==> (half & ((half - 1) as u32) == 0)) by (bit_vector)
            requires
                n % 2 == 0,
                n >= 2,
                half == n / 2,
        ;
        if is_pow2(half as int) {
            let exponent = choose|exponent: nat| pow2(exponent) == half;
            assert(pow2(exponent + 1) == 2 * pow2(exponent));
            assert(pow2(exponent + 1) == n);
        }
        if is_pow2(n as int) {
            let exponent = choose|exponent: nat| pow2(exponent) == n;
            assert(exponent > 0) by {
                assert(pow2(0) == 1);
            }
            assert(pow2(exponent) == 2 * pow2((exponent - 1) as nat));
            assert(pow2((exponent - 1) as nat) == half);
        }
    }
}

/// Whether `n` is a power of two. Zero is none.
pub fn is_power_of_2(n: u32) -> (r: bool)
    ensures
        r == is_pow2(n as int),
{
    proof {
        lemma_single_bit(n);
    }
    n != 0 && (n & (n - 1)) == 0
}

/// Chooses how a texture of the given size is sampled.
pub fn texture_sampling(width: u32, height: u32) -> (sampling: TextureSampling)
    ensures
        sampling == sampling_for(width, height),
{
    if is_power_of_2(width) && is_power_of_2(height) {
        TextureSampling::Mipmapped
    } else {
        TextureSampling::ClampedLinear
    }
}

} // verus!
