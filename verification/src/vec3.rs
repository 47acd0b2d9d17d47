//! Fixed-point vectors in world space.
//!
//! `Vec3` is the executable three-component vector; its mathematical model
//! `V3` carries the components as unbounded integers, and every operation is
//! specified exactly over that model, truncation included.

use vstd::prelude::*;
use crate::fixed::FX_BOUND;
use crate::fixed::SCALE;
use crate::fixed::diff_prod_fx;
use crate::fixed::FX_WIDE;
use crate::fixed::fx_wide_ok;
use crate::fixed::is_sqrt_floor;
use crate::fixed::isqrt;
use crate::fixed::lemma_q_trunc_le;
use crate::fixed::mag;
use crate::fixed::mul_fx;
use crate::fixed::q_trunc;
use crate::fixed::scale_div;
use crate::fixed::sqrt_floor;

verus! {

/// Mathematical model of a vector: three unbounded integer components.
pub ghost struct V3 {
    pub x: int,
    pub y: int,
    pub z: int,
}

impl V3 {
    /// Component-wise sum.
    pub open spec fn plus(self, o: V3) -> V3 {
        V3 { x: self.x + o.x, y: self.y + o.y, z: self.z + o.z }
    }

    /// Component-wise difference.
    pub open spec fn minus(self, o: V3) -> V3 {
        V3 { x: self.x - o.x, y: self.y - o.y, z: self.z - o.z }
    }

    /// The vector scaled by the fixed-point factor `k`.
    pub open spec fn scaled(self, k: int) -> V3 {
        V3 {
            x: q_trunc(self.x * k, SCALE as int),
            y: q_trunc(self.y * k, SCALE as int),
            z: q_trunc(self.z * k, SCALE as int),
        }
    }

    /// Cross product, brought back to fixed-point form.
    pub open spec fn crossed(self, o: V3) -> V3 {
        V3 {
            x: q_trunc(self.y * o.z - self.z * o.y, SCALE as int),
            y: q_trunc(self.z * o.x - self.x * o.z, SCALE as int),
            z: q_trunc(self.x * o.y - self.y * o.x, SCALE as int),
        }
    }

    /// Squared Euclidean length.
    pub open spec fn norm_sq(self) -> int {
        self.x * self.x + self.y * self.y + self.z * self.z
    }

    /// Euclidean length, rounded down to a whole number of sub-units.
    pub open spec fn norm(self) -> int {
        sqrt_floor(self.norm_sq())
    }

    /// The vector of length one unit pointing the same way: each component is
    /// `component * SCALE / norm`, truncated.
    pub open spec fn unit(self) -> V3 {
        V3 {
            x: q_trunc(self.x * SCALE, self.norm()),
            y: q_trunc(self.y * SCALE, self.norm()),
            z: q_trunc(self.z * SCALE, self.norm()),
        }
    }

    /// All three components are zero.
    pub open spec fn is_zero(self) -> bool {
        self.x == 0 && self.y == 0 && self.z == 0
    }

    /// All three components are within `b` of zero.
    pub open spec fn within(self, b: int) -> bool {
        &&& -b <= self.x <= b
        &&& -b <= self.y <= b
        &&& -b <= self.z <= b
    }
}

/// An executable fixed-point vector.
#[derive(Clone, Copy, Debug, PartialEq, Eq, Structural)]
pub struct Vec3 {
    pub x: i64,
    pub y: i64,
    pub z: i64,
}

impl View for Vec3 {
    type V = V3;

    open spec fn view(&self) -> V3 {
        V3 { x: self.x as int, y: self.y as int, z: self.z as int }
    }
}

impl Vec3 {
    /// The vector's components are within the range the library keeps state in.
    pub open spec fn wf(self) -> bool {
        self@.within(FX_BOUND as int)
    }

    /// Build a vector from its components.
    pub fn new(x: i64, y: i64, z: i64) -> (r: Vec3)
        ensures
            r@ == (V3 { x: x as int, y: y as int, z: z as int }),
    {
        Vec3 { x, y, z }
    }

    /// The zero vector.
    pub fn zero() -> (r: Vec3)
        ensures
            r@ == (V3 { x: 0, y: 0, z: 0 }),
    {
        Vec3 { x: 0, y: 0, z: 0 }
    }

    /// Component-wise sum.
    pub fn plus(self, o: Vec3) -> (r: Vec3)
        requires
            self@.plus(o@).within(i64::MAX as int),
        ensures
            r@ == self@.plus(o@),
    {
        Vec3 { x: self.x + o.x, y: self.y + o.y, z: self.z + o.z }
    }

    /// Component-wise difference.
    pub fn minus(self, o: Vec3) -> (r: Vec3)
        requires
            self@.minus(o@).within(i64::MAX as int),
        ensures
            r@ == self@.minus(o@),
    {
        Vec3 { x: self.x - o.x, y: self.y - o.y, z: self.z - o.z }
    }

    /// The vector scaled by the fixed-point factor `k`. Each component of the
    /// result is bounded by `|k|`, since `wf` bounds the components by the
    /// range the scale factor treats as one million units.
    pub fn scaled(self, k: i64) -> (r: Vec3)
        requires
            self@.within(FX_WIDE as int),
            fx_wide_ok(k as int),
        ensures
            r@ == self@.scaled(k as int),
            self@.within(SCALE as int) && k >= 0 ==> r@.within(k as int),
            self@.within(SCALE as int) && k < 0 ==> r@.within(-(k as int)),
    {
        proof {
            if self@.within(SCALE as int) {
                let m: int = if k >= 0 { k as int } else { -(k as int) };
                assert(-(m * SCALE) <= self@.x * k <= m * SCALE) by (nonlinear_arith)
                    requires
                        -SCALE <= self@.x <= SCALE,
                        m == if k >= 0 { k as int } else { -(k as int) },
                ;
                assert(-(m * SCALE) <= self@.y * k <= m * SCALE) by (nonlinear_arith)
                    requires
                        -SCALE <= self@.y <= SCALE,
                        m == if k >= 0 { k as int } else { -(k as int) },
                ;
                assert(-(m * SCALE) <= self@.z * k <= m * SCALE) by (nonlinear_arith)
                    requires
                        -SCALE <= self@.z <= SCALE,
                        m == if k >= 0 { k as int } else { -(k as int) },
                ;
                lemma_q_trunc_le(self@.x * k, SCALE as int, m);
                lemma_q_trunc_le(self@.y * k, SCALE as int, m);
                lemma_q_trunc_le(self@.z * k, SCALE as int, m);
            }
        }
        Vec3 { x: mul_fx(self.x, k), y: mul_fx(self.y, k), z: mul_fx(self.z, k) }
    }

    /// Cross product. When both operands are unit-sized the result stays
    /// within twice the unit range.
    pub fn crossed(self, o: Vec3) -> (r: Vec3)
        requires
            self@.within(FX_WIDE as int),
            o@.within(FX_WIDE as int),
        ensures
            r@ == self@.crossed(o@),
            self@.within(SCALE as int) && o@.within(SCALE as int) ==> r@.within(2 * SCALE),
    {
        proof {
            if self@.within(SCALE as int) && o@.within(SCALE as int) {
                lemma_cross_term_bound(self@.y, o@.z, self@.z, o@.y);
                lemma_cross_term_bound(self@.z, o@.x, self@.x, o@.z);
                lemma_cross_term_bound(self@.x, o@.y, self@.y, o@.x);
            }
        }
        Vec3 {
            x: diff_prod_fx(self.y, o.z, self.z, o.y),
            y: diff_prod_fx(self.z, o.x, self.x, o.z),
            z: diff_prod_fx(self.x, o.y, self.y, o.x),
        }
    }

    /// All three components are zero.
    pub fn is_zero(self) -> (r: bool)
        ensures
            r == self@.is_zero(),
    {
        self.x == 0 && self.y == 0 && self.z == 0
    }

    /// The vector of length one unit pointing the same way as `self`.
    pub fn unit(self) -> (r: Vec3)
        requires
            self@.within(FX_WIDE as int),
            !self@.is_zero(),
        ensures
            r@ == self@.unit(),
            r@.within(SCALE as int),
    {
        let xm: u128 = mag(self.x);
        let ym: u128 = mag(self.y);
        let zm: u128 = mag(self.z);
        proof {
            lemma_square_is_mag_square(self@.x, xm as int);
            lemma_square_is_mag_square(self@.y, ym as int);
            lemma_square_is_mag_square(self@.z, zm as int);
            assert(xm * xm <= 4_000_000_000_000_000_000_000_000) by (nonlinear_arith)
                requires
                    xm <= 2_000_000_000_000,
            ;
            assert(ym * ym <= 4_000_000_000_000_000_000_000_000) by (nonlinear_arith)
                requires
                    ym <= 2_000_000_000_000,
            ;
            assert(zm * zm <= 4_000_000_000_000_000_000_000_000) by (nonlinear_arith)
                requires
                    zm <= 2_000_000_000_000,
            ;
        }
        let nsq: u128 = xm * xm + ym * ym + zm * zm;
        proof {
            assert(nsq >= 1) by (nonlinear_arith)
                requires
                    nsq == xm * xm + ym * ym + zm * zm,
                    xm >= 1 || ym >= 1 || zm >= 1,
            ;
        }
        let n: u64 = isqrt(nsq);
        proof {
            assert(n >= 1);
            lemma_component_within_norm(self@.x, nsq as int, n as int);
            lemma_component_within_norm(self@.y, nsq as int, n as int);
            lemma_component_within_norm(self@.z, nsq as int, n as int);
            lemma_q_trunc_le(self@.x * SCALE, n as int, SCALE as int);
            lemma_q_trunc_le(self@.y * SCALE, n as int, SCALE as int);
            lemma_q_trunc_le(self@.z * SCALE, n as int, SCALE as int);
        }
        Vec3 {
            x: scale_div(self.x, n),
            y: scale_div(self.y, n),
            z: scale_div(self.z, n),
        }
    }
}

/// The square of a component equals the square of its magnitude.
proof fn lemma_square_is_mag_square(x: int, m: int)
    requires
        m == if x >= 0 { x } else { -x },
    ensures
        x * x == m * m,
        x * x >= 0,
{
    assert(x * x == m * m && x * x >= 0) by (nonlinear_arith)
        requires
            m == if x >= 0 { x } else { -x },
    ;
}

/// Each term of a cross product of unit-sized vectors is within twice the
/// unit range: `|a*b - c*d| <= 2 * SCALE * SCALE` gives the quotient bound.
proof fn lemma_cross_term_bound(a: int, b: int, c: int, d: int)
    requires
        -SCALE <= a <= SCALE,
        -SCALE <= b <= SCALE,
        -SCALE <= c <= SCALE,
        -SCALE <= d <= SCALE,
    ensures
        -(2 * SCALE) <= q_trunc(a * b - c * d, SCALE as int) <= 2 * SCALE,
{
    assert(-((2 * SCALE) * SCALE) <= a * b - c * d <= (2 * SCALE) * SCALE) by (nonlinear_arith)
        requires
            -SCALE <= a <= SCALE,
            -SCALE <= b <= SCALE,
            -SCALE <= c <= SCALE,
            -SCALE <= d <= SCALE,
    ;
    lemma_q_trunc_le(a * b - c * d, SCALE as int, 2 * SCALE);
}

/// A component of a vector is bounded by the rounded-down norm.
proof fn lemma_component_within_norm(x: int, nsq: int, n: int)
    requires
        x * x <= nsq,
        is_sqrt_floor(nsq, n),
        -FX_WIDE <= x <= FX_WIDE,
    ensures
        -n <= x <= n,
        -(SCALE * n) <= x * SCALE <= SCALE * n,
{
    assert(-n <= x <= n) by (nonlinear_arith)
        requires
            x * x <= nsq,
            0 <= n,
            nsq < (n + 1) * (n + 1),
    ;
    assert(-(SCALE * n) <= x * SCALE <= SCALE * n) by (nonlinear_arith)
        requires
            -n <= x <= n,
    ;
}

} // verus!
