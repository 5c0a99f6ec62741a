//! Scalars as IEEE 754 single-precision bit patterns.
//!
//! Every scalar the camera core stores is the bit pattern of a
//! single-precision value, carried in a `u32`. For non-negative values the
//! bit patterns order exactly as the values do, so the threshold tests the
//! cameras need (is a supplied value strictly positive, is it at least the
//! near-plane floor) are plain integer range tests here, stated exactly.

use vstd::prelude::*;
use vstd::arithmetic::power2::{
    pow2, lemma_pow2_pos, lemma_pow2_unfold, lemma_pow2_strictly_increases, lemma2_to64,
};

verus! {

/// Bit pattern of 1.0.
pub const ONE: u32 = 0x3F80_0000;

/// Bit pattern of positive infinity: the largest pattern of a non-negative
/// value that is ordered with the reals (everything above it is NaN).
pub const POS_INFINITY: u32 = 0x7F80_0000;

/// Bit pattern of the machine epsilon 2^-23 (about 1.19e-7), the floor the
/// two-dimensional camera clamps its orthographic size to.
pub const EPSILON: u32 = 0x3400_0000;

/// Bit pattern of 1e-4, the floor for near-plane distances and for the
/// three-dimensional camera's orthographic size.
pub const MIN_SCALAR: u32 = 0x38D1_B717;

/// The scalars a camera derives from its viewport dimensions: the host
/// computes them in single precision and hands the bit patterns over
/// together with the dimensions themselves.
#[derive(Clone, Copy, PartialEq, Eq, Structural, Debug)]
pub struct ViewportScalars {
    /// Bit pattern of 1/width.
    pub inv_width: u32,
    /// Bit pattern of 1/height.
    pub inv_height: u32,
    /// Bit pattern of width/height.
    pub aspect: u32,
}

/// The patterns of values strictly greater than zero: every positive
/// subnormal and normal value, and positive infinity. Zeros, all negative
/// values and NaN fall outside the range.
pub open spec fn is_strictly_positive(bits: u32) -> bool {
    1 <= bits <= POS_INFINITY
}

/// The patterns of values greater than or equal to 1e-4 (so in particular
/// strictly positive and not NaN).
pub open spec fn is_at_least_min(bits: u32) -> bool {
    MIN_SCALAR <= bits <= POS_INFINITY
}

/// The patterns of values strictly greater than 1e-4.
pub open spec fn is_above_min(bits: u32) -> bool {
    MIN_SCALAR < bits <= POS_INFINITY
}

/// Whether `bits` holds a value strictly greater than zero.
pub fn strictly_positive(bits: u32) -> (r: bool)
    ensures
        r == is_strictly_positive(bits),
{
    1 <= bits && bits <= POS_INFINITY
}

/// Whether `bits` holds a value of at least 1e-4.
pub fn at_least_min(bits: u32) -> (r: bool)
    ensures
        r == is_at_least_min(bits),
{
    MIN_SCALAR <= bits && bits <= POS_INFINITY
}

/// Whether `bits` holds a value strictly greater than 1e-4.
pub fn above_min(bits: u32) -> (r: bool)
    ensures
        r == is_above_min(bits),
{
    MIN_SCALAR < bits && bits <= POS_INFINITY
}

/// Whether `n` is a power of two.
pub open spec fn is_pow2(n: nat) -> bool {
    exists|k: nat| n == pow2(k)
}

/// The exponent of a power of two (meaningful when `is_pow2(n)`; powers of
/// two are distinct, so the exponent is unique).
pub open spec fn log2(n: nat) -> nat {
    choose|k: nat| n == pow2(k)
}

/// Bit pattern of 2^-k, for 0 <= k <= 63: reciprocals of these powers of two
/// are normal single-precision values, represented exactly with a mantissa
/// of zero and a biased exponent of 127 - k.
pub open spec fn recip_pow2_bits(k: nat) -> u32
    recommends
        k <= 63,
{
    (((127 - k) * 0x80_0000) as u32)
}

/// Bit pattern of 2^(i-j), for 0 <= i, j <= 63: the ratio of two such powers
/// of two is again a power of two in the normal range, represented exactly
/// with a mantissa of zero and a biased exponent of 127 + i - j.
pub open spec fn ratio_pow2_bits(i: nat, j: nat) -> u32
    recommends
        i <= 63 && j <= 63,
{
    (((127 + i - j) * 0x80_0000) as u32)
}

/// Distinct exponents give distinct powers of two.
proof fn lemma_pow2_injective(a: nat, b: nat)
    requires
        pow2(a) == pow2(b),
    ensures
        a == b,
{
    if a < b {
        lemma_pow2_strictly_increases(a, b);
    } else if b < a {
        lemma_pow2_strictly_increases(b, a);
    }
}

/// The exponent of `n`, when `n` is a power of two at most 2^63, or `None`
/// when `n` is no power of two.
pub fn pow2_exponent(n: usize) -> (r: Option<usize>)
    ensures
        match r {
            Some(k) => k <= 63 && n == pow2(k as nat) && log2(n as nat) == k,
            None => !is_pow2(n as nat),
        },
{
    let w: u64 = n as u64;
    if w == 0 {
        proof {
            assert forall|k: nat| pow2(k) != n as nat by {
                lemma_pow2_pos(k);
            }
        }
        return None;
    }
    let mut k: usize = 0;
    let mut p: u64 = 1;
    proof {
        lemma2_to64();
    }
    while p < w && k < 63
        invariant
            w == n as nat,
            1 <= p,
            k <= 63,
            p == pow2(k as nat),
            forall|j: nat| j < k ==> pow2(j) < w as nat,
        decreases 63 - k,
    {
        proof {
            lemma_pow2_unfold((k + 1) as nat);
            lemma2_to64();
            vstd::arithmetic::power2::lemma_pow2_adds(32, 31);
            assert(pow2(63) == 0x8000000000000000);
            if ((k + 1) as nat) < 63 {
                lemma_pow2_strictly_increases((k + 1) as nat, 63);
            }
            assert(pow2((k + 1) as nat) <= 0x8000000000000000);
        }
        p = 2 * p;
        k = k + 1;
        proof {
            assert forall|j: nat| j < k implies pow2(j) < w as nat by {
                if j < k - 1 {
                } else {
                    assert(j == k - 1);
                }
            }
        }
    }
    if p == w {
        proof {
            lemma_pow2_injective(log2(n as nat), k as nat);
        }
        Some(k)
    } else {
        proof {
            assert forall|j: nat| pow2(j) != n as nat by {
                if j < k {
                } else if j == k {
                    assert(pow2(j) == p);
                    assert(p != w);
                } else if p > w {
                    lemma_pow2_strictly_increases(k as nat, j);
                } else {
                    assert(k == 63 && p < w);
                    lemma2_to64();
                    assert(pow2(64) == 0x10000000000000000);
                    if j == 64 {
                        assert(pow2(j) > w as nat);
                    } else {
                        lemma_pow2_strictly_increases(64, j);
                    }
                }
            }
        }
        None
    }
}

/// The derived viewport scalars for power-of-two dimensions, computed
/// exactly: for such dimensions the reciprocals and the aspect ratio are
/// powers of two in the normal single-precision range, so no rounding is
/// involved and the patterns follow from the exponents alone. Dimensions
/// that are not powers of two yield `None`, and the host computes the
/// scalars in its own arithmetic instead.
pub fn pow2_viewport_scalars(width: usize, height: usize) -> (r: Option<ViewportScalars>)
    ensures
        match r {
            Some(v) => {
                &&& is_pow2(width as nat) && is_pow2(height as nat)
                &&& v.inv_width == recip_pow2_bits(log2(width as nat))
                &&& v.inv_height == recip_pow2_bits(log2(height as nat))
                &&& v.aspect == ratio_pow2_bits(log2(width as nat), log2(height as nat))
            },
            None => !(is_pow2(width as nat) && is_pow2(height as nat)),
        },
{
    let kw = match pow2_exponent(width) {
        Some(k) => k,
        None => {
            return None;
        },
    };
    let kh = match pow2_exponent(height) {
        Some(k) => k,
        None => {
            return None;
        },
    };
    let inv_width: u32 = (127 - kw as u32) * 0x80_0000;
    let inv_height: u32 = (127 - kh as u32) * 0x80_0000;
    let aspect: u32 = (127 + kw as u32 - kh as u32) * 0x80_0000;
    Some(ViewportScalars { inv_width, inv_height, aspect })
}

} // verus!
