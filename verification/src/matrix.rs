//! Matrix values as arrays of IEEE 754 single-precision bit patterns.
//!
//! A 4x4 matrix is 16 patterns in column-major order; a 2x3 affine matrix is
//! 6 patterns laid out `[m00, m10, m01, m11, m02, m12]`, as the host's matrix
//! library stores them.

use vstd::prelude::*;
use crate::scalar;

verus! {

/// The 4x4 identity, as bit patterns.
pub open spec fn identity4_bits() -> Seq<u32> {
    seq![
        scalar::ONE, 0u32, 0u32, 0u32,
        0u32, scalar::ONE, 0u32, 0u32,
        0u32, 0u32, scalar::ONE, 0u32,
        0u32, 0u32, 0u32, scalar::ONE,
    ]
}

/// The 2x3 affine identity, as bit patterns.
pub open spec fn identity32_bits() -> Seq<u32> {
    seq![scalar::ONE, 0u32, 0u32, scalar::ONE, 0u32, 0u32]
}

/// Builds the 4x4 identity.
pub fn identity4() -> (r: [u32; 16])
    ensures
        r@ == identity4_bits(),
{
    let r = [
        scalar::ONE, 0u32, 0u32, 0u32,
        0u32, scalar::ONE, 0u32, 0u32,
        0u32, 0u32, scalar::ONE, 0u32,
        0u32, 0u32, 0u32, scalar::ONE,
    ];
    proof {
        assert(r@ =~= identity4_bits());
    }
    r
}

/// Builds the 2x3 affine identity.
pub fn identity32() -> (r: [u32; 6])
    ensures
        r@ == identity32_bits(),
{
    let r = [scalar::ONE, 0u32, 0u32, scalar::ONE, 0u32, 0u32];
    proof {
        assert(r@ =~= identity32_bits());
    }
    r
}

/// The 2x3 affine part of a 4x4 matrix: the upper-left 2x2 block and the
/// translation column, picked out entry by entry.
pub open spec fn affine_of_mat4_bits(m: Seq<u32>) -> Seq<u32> {
    seq![m[0], m[1], m[4], m[5], m[12], m[13]]
}

/// Picks the 2x3 affine part out of a 4x4 matrix.
pub fn affine_of_mat4(m: &[u32; 16]) -> (r: [u32; 6])
    ensures
        r@ == affine_of_mat4_bits(m@),
{
    let r = [m[0], m[1], m[4], m[5], m[12], m[13]];
    proof {
        assert(r@ =~= affine_of_mat4_bits(m@));
    }
    r
}

} // verus!
