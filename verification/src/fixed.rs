//! Fixed-point scalar arithmetic.
//!
//! A scalar is an `i64` counting millionths: the value `1_000_000`
//! stands for `1.0`. `fmul` is the fixed-point product, rounded toward
//! zero, and `fmul_spec` is its exact mathematical description.

use vstd::prelude::*;

verus! {

/// Number of fixed-point units in one real unit.
pub const SCALE: i64 = 1_000_000;

/// Largest magnitude `fmul` accepts; the product of two such
/// magnitudes still fits in 63 bits.
pub const FMUL_MAX: i64 = 2_000_000_000;

/// The fixed-point product `a * b / SCALE`, rounded toward zero.
pub open spec fn fmul_spec(a: int, b: int) -> int {
    if a * b >= 0 {
        (a * b) / (SCALE as int)
    } else {
        -((-(a * b)) / (SCALE as int))
    }
}

/// Fixed-point multiplication: computes `fmul_spec` exactly.
pub fn fmul(a: i64, b: i64) -> (r: i64)
    requires
        -FMUL_MAX <= a <= FMUL_MAX,
        -FMUL_MAX <= b <= FMUL_MAX,
    ensures
        r == fmul_spec(a as int, b as int),
{
    let neg: bool = (a < 0) != (b < 0);
    let ma: u64 = if a < 0 { (-a) as u64 } else { a as u64 };
    let mb: u64 = if b < 0 { (-b) as u64 } else { b as u64 };
    proof {
        assert(ma * mb <= 4_000_000_000_000_000_000) by (nonlinear_arith)
            requires 0 <= ma <= 2_000_000_000, 0 <= mb <= 2_000_000_000;
        assert(ma * mb == if a * b >= 0 { a * b } else { -(a * b) }) by (nonlinear_arith)
            requires
                ma == (if a < 0 { -(a as int) } else { a as int }),
                mb == (if b < 0 { -(b as int) } else { b as int }),
                -2_000_000_000 <= a <= 2_000_000_000,
                -2_000_000_000 <= b <= 2_000_000_000;
        assert((a * b < 0) ==> ((a < 0) != (b < 0))) by (nonlinear_arith);
        assert(((a < 0) != (b < 0)) ==> a * b <= 0) by (nonlinear_arith);
    }
    let q: u64 = (ma * mb) / 1_000_000;
    let qi: i64 = q as i64;
    if neg {
        -qi
    } else {
        proof {
            assert(a * b >= 0 ==> qi == fmul_spec(a as int, b as int));
        }
        qi
    }
}

/// Magnitude bound for the fixed-point product: if the factors are
/// bounded by `ba` and `bb`, the product is bounded by `ba * bb / SCALE`.
pub proof fn lemma_fmul_bound(a: int, b: int, ba: int, bb: int)
    requires
        -ba <= a <= ba,
        -bb <= b <= bb,
    ensures
        -((ba * bb) / (SCALE as int)) <= fmul_spec(a, b) <= (ba * bb) / (SCALE as int),
{
    assert(-(ba * bb) <= a * b <= ba * bb) by (nonlinear_arith)
        requires -ba <= a <= ba, -bb <= b <= bb;
}

/// The fixed-point product of two non-negative scalars is non-negative.
pub proof fn lemma_fmul_nonneg(a: int, b: int)
    requires
        0 <= a,
        0 <= b,
    ensures
        0 <= fmul_spec(a, b),
{
    assert(0 <= a * b) by (nonlinear_arith)
        requires 0 <= a, 0 <= b;
}

/// A fixed-point square is non-negative.
pub proof fn lemma_fmul_square_nonneg(a: int)
    ensures
        0 <= fmul_spec(a, a),
{
    assert(0 <= a * a) by (nonlinear_arith);
}

} // verus!
