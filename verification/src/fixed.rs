//! Fixed-point scalars.
//!
//! Every scalar the renderer keeps on the host side (camera coordinates,
//! canvas distance, angles in radians, colours) is a signed count of
//! millionths of a unit. All arithmetic on these scalars is exact integer
//! arithmetic with truncation toward zero, so every operation of the library
//! has a precise functional contract.

use vstd::prelude::*;
use vstd::arithmetic::div_mod::lemma_fundamental_div_mod;
use vstd::arithmetic::div_mod::lemma_multiply_divide_le;
use vstd::arithmetic::mul::lemma_mul_inequality;
use vstd::arithmetic::mul::lemma_mul_is_commutative;

verus! {

/// Number of fixed-point sub-units per world unit.
pub const SCALE: i64 = 1_000_000;

/// Stored scalars are kept within one million world units of zero; the bound
/// keeps every intermediate product of two scalars inside `u128`.
pub const FX_BOUND: i64 = 1_000_000_000_000;

/// Differences of two stored scalars reach twice the stored range; the
/// arithmetic helpers accept that wider range.
pub const FX_WIDE: i64 = 2_000_000_000_000;

/// A fixed-point scalar is within the range the library keeps its state in.
pub open spec fn fx_ok(v: int) -> bool {
    -FX_BOUND <= v <= FX_BOUND
}

/// A fixed-point scalar is within the wider range the arithmetic helpers
/// accept.
pub open spec fn fx_wide_ok(v: int) -> bool {
    -FX_WIDE <= v <= FX_WIDE
}

/// Quotient of `n` by `d` rounded toward zero, the rounding that executable
/// integer division performs.
pub open spec fn q_trunc(n: int, d: int) -> int
    recommends
        d > 0,
{
    if n >= 0 {
        n / d
    } else {
        -((-n) / d)
    }
}

/// Truncating division never enlarges a bound: if `|n| <= m * d` then
/// `|q_trunc(n, d)| <= m`.
pub proof fn lemma_q_trunc_le(n: int, d: int, m: int)
    requires
        d > 0,
        0 <= m,
        -(m * d) <= n <= m * d,
    ensures
        -m <= q_trunc(n, d) <= m,
{
    if n >= 0 {
        lemma_div_nonneg(n, d);
        lemma_mul_is_commutative(m, d);
        lemma_multiply_divide_le(n, d, m);
    } else {
        lemma_div_nonneg(-n, d);
        lemma_mul_is_commutative(m, d);
        lemma_multiply_divide_le(-n, d, m);
    }
}

/// A quotient of non-negative operands is non-negative.
pub proof fn lemma_div_nonneg(n: int, d: int)
    requires
        n >= 0,
        d > 0,
    ensures
        n / d >= 0,
{
    lemma_fundamental_div_mod(n, d);
    if n / d < 0 {
        lemma_mul_inequality(n / d, -1, d);
    }
}

/// Magnitude of a scalar, as an unsigned wide integer.
pub(crate) fn mag(a: i64) -> (r: u128)
    ensures
        a >= 0 ==> r == a as int,
        a < 0 ==> r == -(a as int),
{
    if a >= 0 {
        a as u128
    } else {
        let wide: i128 = -(a as i128);
        wide as u128
    }
}

/// Fixed-point product: `(a * b) / SCALE`, truncated toward zero.
pub fn mul_fx(a: i64, b: i64) -> (r: i64)
    requires
        fx_wide_ok(a as int),
        fx_wide_ok(b as int),
    ensures
        r as int == q_trunc(a as int * b as int, SCALE as int),
{
    let am: u128 = mag(a);
    let bm: u128 = mag(b);
    proof {
        assert(am * bm <= 4_000_000_000_000_000_000_000_000) by (nonlinear_arith)
            requires
                am <= 2_000_000_000_000,
                bm <= 2_000_000_000_000,
        ;
        assert((a as int) * (b as int) == if (a < 0) == (b < 0) {
            (am * bm) as int
        } else {
            -((am * bm) as int)
        }) by (nonlinear_arith)
            requires
                a >= 0 ==> am == a as int,
                a < 0 ==> am == -(a as int),
                b >= 0 ==> bm == b as int,
                b < 0 ==> bm == -(b as int),
        ;
    }
    let prod: u128 = am * bm;
    let q: u128 = prod / 1_000_000u128;
    let qi: i64 = q as i64;
    if (a < 0) == (b < 0) {
        qi
    } else {
        -qi
    }
}

/// Ratio of a scalar to a positive magnitude, in fixed-point form:
/// `(a * SCALE) / n`, truncated toward zero.
pub(crate) fn scale_div(a: i64, n: u64) -> (r: i64)
    requires
        fx_wide_ok(a as int),
        1 <= n,
    ensures
        r as int == q_trunc(a as int * SCALE as int, n as int),
{
    let am: u128 = mag(a);
    let wide: u128 = am * 1_000_000u128;
    let q: u128 = wide / (n as u128);
    proof {
        vstd::arithmetic::div_mod::lemma_div_nonincreasing(wide as int, n as int);
    }
    let qi: i64 = q as i64;
    if a >= 0 {
        qi
    } else {
        -qi
    }
}

/// Truncating division of a scalar by a positive divisor.
pub(crate) fn div_trunc(a: i64, d: u64) -> (r: i64)
    requires
        1 <= d,
        a > i64::MIN,
    ensures
        r as int == q_trunc(a as int, d as int),
{
    let am: u128 = mag(a);
    let q: u128 = am / (d as u128);
    proof {
        vstd::arithmetic::div_mod::lemma_div_nonincreasing(am as int, d as int);
    }
    let qi: i64 = q as i64;
    if a >= 0 {
        qi
    } else {
        -qi
    }
}

/// Difference of two products, brought back to fixed-point form:
/// `(a * b - c * d) / SCALE`, truncated toward zero.
pub(crate) fn diff_prod_fx(a: i64, b: i64, c: i64, d: i64) -> (r: i64)
    requires
        fx_wide_ok(a as int),
        fx_wide_ok(b as int),
        fx_wide_ok(c as int),
        fx_wide_ok(d as int),
    ensures
        r as int == q_trunc(a as int * b as int - c as int * d as int, SCALE as int),
{
    proof {
        assert(-4_000_000_000_000_000_000_000_000 <= (a as int) * (b as int)
            <= 4_000_000_000_000_000_000_000_000) by (nonlinear_arith)
            requires
                -2_000_000_000_000 <= a <= 2_000_000_000_000,
                -2_000_000_000_000 <= b <= 2_000_000_000_000,
        ;
        assert(-4_000_000_000_000_000_000_000_000 <= (c as int) * (d as int)
            <= 4_000_000_000_000_000_000_000_000) by (nonlinear_arith)
            requires
                -2_000_000_000_000 <= c <= 2_000_000_000_000,
                -2_000_000_000_000 <= d <= 2_000_000_000_000,
        ;
    }
    let p1: i128 = (a as i128) * (b as i128);
    let p2: i128 = (c as i128) * (d as i128);
    let n: i128 = p1 - p2;
    let q: i64 = if n >= 0 {
        (((n as u128) / 1_000_000u128)) as i64
    } else {
        let nm: u128 = (-n) as u128;
        -((nm / 1_000_000u128) as i64)
    };
    q
}

/// `r` is the integer square root of `n`, rounded down.
pub open spec fn is_sqrt_floor(n: int, r: int) -> bool {
    &&& 0 <= r
    &&& r * r <= n
    &&& n < (r + 1) * (r + 1)
}

/// The integer square root of `n`, rounded down (meaningful for `n >= 0`).
pub open spec fn sqrt_floor(n: int) -> int {
    choose|r: int| is_sqrt_floor(n, r)
}

/// The rounded-down square root is unique, so any witness pins `sqrt_floor`.
pub proof fn lemma_sqrt_floor_of(n: int, r: int)
    requires
        is_sqrt_floor(n, r),
    ensures
        sqrt_floor(n) == r,
{
    let picked = choose|p: int| is_sqrt_floor(n, p);
    assert(is_sqrt_floor(n, picked));
    if picked < r {
        assert((picked + 1) * (picked + 1) <= r * r) by (nonlinear_arith)
            requires
                0 <= picked,
                picked + 1 <= r,
        ;
    }
    if r < picked {
        assert((r + 1) * (r + 1) <= picked * picked) by (nonlinear_arith)
            requires
                0 <= r,
                r + 1 <= picked,
        ;
    }
}

/// Integer square root by bisection.
pub fn isqrt(n: u128) -> (r: u64)
    ensures
        is_sqrt_floor(n as int, r as int),
        r as int == sqrt_floor(n as int),
{
    let mut lo: u128 = 0;
    let mut hi: u128 = 0x1_0000_0000_0000_0000u128;
    proof {
        assert((hi * hi) > u128::MAX) by (nonlinear_arith)
            requires
                hi == 0x1_0000_0000_0000_0000u128,
        ;
    }
    while lo + 1 < hi
        invariant
            lo < hi,
            hi <= 0x1_0000_0000_0000_0000u128,
            lo * lo <= n,
            (n as int) < (hi as int) * (hi as int),
        decreases hi - lo,
    {
        let mid: u128 = lo + (hi - lo) / 2;
        proof {
            assert(mid * mid <= u128::MAX) by (nonlinear_arith)
                requires
                    mid < 0x1_0000_0000_0000_0000u128,
            ;
        }
        if mid * mid <= n {
            lo = mid;
        } else {
            hi = mid;
        }
    }
    proof {
        lemma_sqrt_floor_of(n as int, lo as int);
    }
    lo as u64
}

} // verus!
