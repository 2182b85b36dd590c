//! Deterministic 2D gradient noise in fixed-point arithmetic.
//!
//! `evaluate` follows the classic gradient-noise recipe: the lattice
//! coordinates are reduced modulo 289, the four cell corners are hashed
//! with the permutation polynomial `(34 x + 10) x mod 289`, a gradient is
//! derived from each hash by a fractional split of `hash / 41`, each
//! gradient is renormalized with the first-order Taylor approximation of
//! an inverse square root, the four corner dot products are blended with
//! the quintic fade curve `t^3 (t (6 t - 15) + 10)`, and the blend is
//! scaled by `2.3`.
//!
//! Every step is a total function on fixed-point integers, so the whole
//! evaluator is exactly described by `noise_spec`.

use vstd::prelude::*;
use crate::fixed::{SCALE, fmul, fmul_spec, lemma_fmul_bound, lemma_fmul_nonneg,
    lemma_fmul_square_nonneg};

verus! {

/// First Taylor coefficient of the inverse-square-root approximation
/// (`1.79284291400159` in millionths).
pub const TAYLOR_A: i64 = 1_792_843;

/// Second Taylor coefficient of the inverse-square-root approximation
/// (`0.85373472095314` in millionths).
pub const TAYLOR_B: i64 = 853_735;

/// Largest coordinate magnitude `evaluate` accepts (one hundred
/// thousand units).
pub const ARG_MAX: i64 = 100_000_000_000;

/// A displacement of the input by this amount leaves the lattice hashes
/// unchanged: it is a multiple of 289 lattice cells, and shifting by it
/// keeps both coordinates non-negative.
pub const LATTICE_SHIFT: i64 = 289_000_000_000_000;

/// Every noise value lies within this magnitude.
pub const NOISE_BOUND: i64 = 4_200_000;

/// The permutation polynomial on a lattice hash.
pub open spec fn permute_spec(x: int) -> int {
    ((34 * x + 10) * x) % 289
}

/// The raw gradient coordinate derived from a corner hash: the
/// fractional part of `hash / 41`, stretched to `[-1, 1)`.
pub open spec fn grad_base(h: int) -> int {
    2 * (((h % 41) * (SCALE as int)) / 41) - (SCALE as int)
}

/// The second gradient coordinate: `|grad_base| - 1/2`.
pub open spec fn grad_y(h: int) -> int {
    (if grad_base(h) < 0 { -grad_base(h) } else { grad_base(h) }) - 500_000
}

/// The first gradient coordinate: `grad_base`, snapped into
/// `[-1/2, 1/2)` by subtracting the nearest integer.
pub open spec fn grad_x(h: int) -> int {
    let g = grad_base(h);
    if g < -500_000 {
        g + (SCALE as int)
    } else if g >= 500_000 {
        g - (SCALE as int)
    } else {
        g
    }
}

/// The renormalization factor of a gradient: the Taylor approximation
/// of the inverse square root of its squared length.
pub open spec fn taylor_norm(h: int) -> int {
    (TAYLOR_A as int) - fmul_spec(
        TAYLOR_B as int,
        fmul_spec(grad_x(h), grad_x(h)) + fmul_spec(grad_y(h), grad_y(h)),
    )
}

/// Dot product of the renormalized corner gradient with the distance
/// vector `(fx, fy)` from that corner.
pub open spec fn corner_dot(h: int, fx: int, fy: int) -> int {
    fmul_spec(fmul_spec(grad_x(h), taylor_norm(h)), fx)
        + fmul_spec(fmul_spec(grad_y(h), taylor_norm(h)), fy)
}

/// The quintic fade curve `t^3 (t (6 t - 15) + 10)` in fixed point.
pub open spec fn fade_spec(u: int) -> int {
    fmul_spec(
        fmul_spec(fmul_spec(u, u), u),
        fmul_spec(u, fmul_spec(u, 6_000_000) - 15_000_000) + 10_000_000,
    )
}

/// Linear interpolation `a + w * (b - a)` in fixed point.
pub open spec fn mix_spec(a: int, b: int, w: int) -> int {
    a + fmul_spec(w, b - a)
}

/// The noise value at `(x, y)`: the fade-blended corner dot products of
/// the lattice cell containing the shifted point, scaled by `2.3`.
pub open spec fn noise_spec(x: int, y: int) -> int {
    let s = SCALE as int;
    let ux = x + (LATTICE_SHIFT as int);
    let uy = y + (LATTICE_SHIFT as int);
    let ix0 = (ux / s) % 289;
    let iy0 = (uy / s) % 289;
    let ix1 = (ux / s + 1) % 289;
    let iy1 = (uy / s + 1) % 289;
    let fx0 = ux % s;
    let fy0 = uy % s;
    let fx1 = fx0 - s;
    let fy1 = fy0 - s;
    let n00 = corner_dot(permute_spec(permute_spec(ix0) + iy0), fx0, fy0);
    let n10 = corner_dot(permute_spec(permute_spec(ix1) + iy0), fx1, fy0);
    let n01 = corner_dot(permute_spec(permute_spec(ix0) + iy1), fx0, fy1);
    let n11 = corner_dot(permute_spec(permute_spec(ix1) + iy1), fx1, fy1);
    let fu = fade_spec(fx0);
    let fv = fade_spec(fy0);
    fmul_spec(2_300_000, mix_spec(mix_spec(n00, n10, fu), mix_spec(n01, n11, fu), fv))
}

/// The permutation polynomial applied to a bounded hash argument.
fn hash_permute(a: u64) -> (r: u64)
    requires
        a <= 600,
    ensures
        r == permute_spec(a as int),
        r < 289,
{
    proof {
        assert((34 * a + 10) * a <= 20_410 * 600) by (nonlinear_arith)
            requires a <= 600;
    }
    ((34 * a + 10) * a) % 289
}

/// The fade curve stays within `[0, 1 + 1/SCALE]` on `[0, 1]`.
pub proof fn lemma_fade_bounds(u: int)
    requires
        0 <= u <= 1_000_000,
    ensures
        0 <= fade_spec(u) <= 1_000_001,
{
    let s = 1_000_000int;
    let a2 = u * u;
    let p1 = a2 / s;
    assert(0 <= a2 <= s * s) by (nonlinear_arith)
        requires 0 <= u <= s, a2 == u * u, s == 1_000_000;
    let m1 = p1 * u;
    let p2 = m1 / s;
    assert(0 <= m1 <= s * s) by (nonlinear_arith)
        requires 0 <= p1 <= s, 0 <= u <= s, m1 == p1 * u, s == 1_000_000;
    // the inner polynomial `u (6 u - 15) + 10`
    let six_u = fmul_spec(u, 6_000_000);
    assert(six_u == 6 * u);
    let w = u * (15_000_000 - 6 * u);
    assert(0 <= w <= 9_000_000_000_000) by (nonlinear_arith)
        requires 0 <= u <= 1_000_000, w == u * (15_000_000 - 6 * u);
    let c = fmul_spec(u, 6 * u - 15_000_000);
    assert(u * (6 * u - 15_000_000) == -w) by (nonlinear_arith)
        requires w == u * (15_000_000 - 6 * u);
    let d = c + 10_000_000;
    assert(c == -(w / s));
    assert(1_000_000 <= d <= 10_000_000);
    // the cube times the inner polynomial
    assert(fade_spec(u) == (p2 * d) / s) by {
        assert(fmul_spec(u, u) == p1);
        assert(fmul_spec(p1, u) == m1 / s) by {
            assert(p1 * u >= 0) by (nonlinear_arith) requires p1 >= 0, u >= 0;
        }
        assert(p2 * d >= 0) by (nonlinear_arith) requires p2 >= 0, d >= 0;
    }
    assert(0 <= p2 * d) by (nonlinear_arith) requires 0 <= p2, 0 <= d;
    // upper bound: p2 * d <= s^2 + s, through the factored form of
    // 1 - fade on [0, 1]
    assert(u * u * u * (10 * s * s - w) <= s * s * s * s * s) by (nonlinear_arith)
        requires
            0 <= u <= s,
            w == u * (15_000_000 - 6 * u),
            s == 1_000_000;
    assert(s * d <= 10 * s * s - w + s - 1) by {
        assert(s * (w / s) >= w - s + 1);
    }
    assert(s * s * p2 <= u * u * u) by (nonlinear_arith)
        requires
            s == 1_000_000,
            0 <= u,
            0 <= a2,
            0 <= p1,
            s * p1 <= a2,
            a2 == u * u,
            s * p2 <= m1,
            m1 == p1 * u;
    assert(s * s * (p2 * (10 * s * s - w)) <= s * s * s * s * s + s * s * (s * s)) by (nonlinear_arith)
        requires
            s == 1_000_000,
            0 <= p2,
            s * s * p2 <= u * u * u,
            0 <= 10 * s * s - w,
            u * u * u * (10 * s * s - w) <= s * s * s * s * s,
            u * u * u >= 0;
    assert(p2 * (10 * s * s - w) <= s * s * s + s * s);
    assert(p2 * (s * d) <= p2 * (10 * s * s - w) + p2 * (s - 1)) by (nonlinear_arith)
        requires
            0 <= p2,
            s * d <= 10 * s * s - w + s - 1;
    assert(p2 * (s - 1) <= s * (s - 1)) by (nonlinear_arith)
        requires 0 <= p2 <= s, s == 1_000_000;
    assert(p2 * (s * d) == s * (p2 * d)) by (nonlinear_arith);
    assert(s * (p2 * d) <= s * s * s + s * s + s * (s - 1));
    assert(p2 * d <= s * s + 2 * s - 1) by (nonlinear_arith)
        requires
            s * (p2 * d) <= s * s * s + s * s + s * (s - 1),
            s == 1_000_000;
    assert((p2 * d) / s <= 1_000_001);
}

/// The blend `mix_spec` stays within the bounds of its endpoints, up to
/// the rounding slack of a weight that may exceed one by one unit.
pub proof fn lemma_mix_bound(a: int, b: int, w: int, m: int)
    requires
        -m <= a <= m,
        -m <= b <= m,
        0 <= w <= 1_000_001,
        0 <= m <= 2_000_000,
    ensures
        -(m + 4) <= mix_spec(a, b, w) <= m + 4,
{
    if b >= a {
        let d = b - a;
        assert(0 <= w * d <= 1_000_001 * d) by (nonlinear_arith)
            requires 0 <= w <= 1_000_001, 0 <= d;
        assert(fmul_spec(w, d) <= d + 4);
        assert(0 <= fmul_spec(w, d));
    } else {
        let d = a - b;
        assert(0 <= w * d <= 1_000_001 * d) by (nonlinear_arith)
            requires 0 <= w <= 1_000_001, 0 <= d;
        assert(w * (b - a) == -(w * d)) by (nonlinear_arith)
            requires d == a - b;
        assert((w * d) / 1_000_000 <= d + 4);
        assert(-(d + 4) <= fmul_spec(w, b - a) <= 0);
    }
}

/// The dot product of one renormalized corner gradient with the
/// distance vector, with its magnitude bound.
fn corner(h: u64, fx: i64, fy: i64) -> (n: i64)
    requires
        h < 289,
        -1_000_000 <= fx <= 1_000_000,
        -1_000_000 <= fy <= 1_000_000,
    ensures
        n == corner_dot(h as int, fx as int, fy as int),
        -1_792_842 <= n <= 1_792_842,
{
    let gfrac: i64 = (((h % 41) * 1_000_000) / 41) as i64;
    let gb: i64 = 2 * gfrac - 1_000_000;
    let gy0: i64 = (if gb < 0 { -gb } else { gb }) - 500_000;
    let gx0: i64 = if gb < -500_000 {
        gb + 1_000_000
    } else if gb >= 500_000 {
        gb - 1_000_000
    } else {
        gb
    };
    proof {
        assert(gb == grad_base(h as int));
        assert(gx0 == grad_x(h as int));
        assert(gy0 == grad_y(h as int));
        assert(-500_000 <= gx0 <= 500_000);
        assert(-500_000 <= gy0 <= 500_000);
        lemma_fmul_square_nonneg(gx0 as int);
        lemma_fmul_square_nonneg(gy0 as int);
        lemma_fmul_bound(gx0 as int, gx0 as int, 500_000, 500_000);
        lemma_fmul_bound(gy0 as int, gy0 as int, 500_000, 500_000);
    }
    let qlen = fmul(gx0, gx0) + fmul(gy0, gy0);
    proof {
        lemma_fmul_nonneg(TAYLOR_B as int, qlen as int);
        lemma_fmul_bound(TAYLOR_B as int, qlen as int, 853_735, 500_000);
    }
    let nm = TAYLOR_A - fmul(TAYLOR_B, qlen);
    proof {
        assert(1_365_976 <= nm <= 1_792_843);
        lemma_fmul_bound(gx0 as int, nm as int, 500_000, 1_792_843);
        lemma_fmul_bound(gy0 as int, nm as int, 500_000, 1_792_843);
    }
    let gxn = fmul(gx0, nm);
    let gyn = fmul(gy0, nm);
    proof {
        lemma_fmul_bound(gxn as int, fx as int, 896_421, 1_000_000);
        lemma_fmul_bound(gyn as int, fy as int, 896_421, 1_000_000);
    }
    fmul(gxn, fx) + fmul(gyn, fy)
}

/// The fade curve on a fractional coordinate.
fn fade(u: i64) -> (r: i64)
    requires
        0 <= u < 1_000_000,
    ensures
        r == fade_spec(u as int),
        0 <= r <= 1_000_001,
{
    proof {
        lemma_fmul_bound(u as int, u as int, 1_000_000, 1_000_000);
        lemma_fmul_square_nonneg(u as int);
    }
    let u2 = fmul(u, u);
    proof {
        lemma_fmul_bound(u2 as int, u as int, 1_000_000, 1_000_000);
    }
    let u3 = fmul(u2, u);
    let six_u = fmul(u, 6_000_000);
    proof {
        lemma_fmul_bound(u as int, (six_u - 15_000_000) as int, 1_000_000, 15_000_000);
    }
    let inner = fmul(u, six_u - 15_000_000) + 10_000_000;
    proof {
        lemma_fmul_bound(u3 as int, inner as int, 1_000_000, 25_000_000);
        lemma_fade_bounds(u as int);
    }
    fmul(u3, inner)
}

/// Linear interpolation between two bounded samples.
fn mix(a: i64, b: i64, w: i64) -> (r: i64)
    requires
        -2_000_000 <= a <= 2_000_000,
        -2_000_000 <= b <= 2_000_000,
        0 <= w <= 1_000_001,
    ensures
        r == mix_spec(a as int, b as int, w as int),
{
    proof {
        lemma_fmul_bound(w as int, (b - a) as int, 1_000_001, 4_000_000);
    }
    a + fmul(w, b - a)
}

/// The gradient-noise value at the fixed-point coordinates `(x, y)`:
/// exactly `noise_spec(x, y)`, a deterministic, bounded function.
pub fn evaluate(x: i64, y: i64) -> (r: i64)
    requires
        -ARG_MAX <= x <= ARG_MAX,
        -ARG_MAX <= y <= ARG_MAX,
    ensures
        r == noise_spec(x as int, y as int),
        -NOISE_BOUND <= r <= NOISE_BOUND,
{
    let ux: u64 = (x + LATTICE_SHIFT) as u64;
    let uy: u64 = (y + LATTICE_SHIFT) as u64;
    let lx: u64 = ux / 1_000_000;
    let ly: u64 = uy / 1_000_000;
    let ix0: u64 = lx % 289;
    let iy0: u64 = ly % 289;
    let ix1: u64 = (lx + 1) % 289;
    let iy1: u64 = (ly + 1) % 289;
    let fx0: i64 = (ux % 1_000_000) as i64;
    let fy0: i64 = (uy % 1_000_000) as i64;
    let fx1: i64 = fx0 - 1_000_000;
    let fy1: i64 = fy0 - 1_000_000;
    let px0 = hash_permute(ix0);
    let px1 = hash_permute(ix1);
    let h00 = hash_permute(px0 + iy0);
    let h10 = hash_permute(px1 + iy0);
    let h01 = hash_permute(px0 + iy1);
    let h11 = hash_permute(px1 + iy1);
    let n00 = corner(h00, fx0, fy0);
    let n10 = corner(h10, fx1, fy0);
    let n01 = corner(h01, fx0, fy1);
    let n11 = corner(h11, fx1, fy1);
    let fu = fade(fx0);
    let fv = fade(fy0);
    proof {
        lemma_mix_bound(n00 as int, n10 as int, fu as int, 1_792_842);
        lemma_mix_bound(n01 as int, n11 as int, fu as int, 1_792_842);
    }
    let nx0 = mix(n00, n10, fu);
    let nx1 = mix(n01, n11, fu);
    proof {
        lemma_mix_bound(nx0 as int, nx1 as int, fv as int, 1_792_846);
    }
    let nxy = mix(nx0, nx1, fv);
    proof {
        lemma_fmul_bound(2_300_000, nxy as int, 2_300_000, 1_792_850);
    }
    fmul(2_300_000, nxy)
}

/// The noise is deterministic: two evaluations at the same coordinates
/// are the same value.
pub proof fn lemma_noise_deterministic(x: int, y: int, r1: int, r2: int)
    requires
        r1 == noise_spec(x, y),
        r2 == noise_spec(x, y),
    ensures
        r1 == r2,
{
}

} // verus!
