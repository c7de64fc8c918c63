//! Saturating fixed-point scalars.
//!
//! An `Fx` stores a real quantity as a signed 64-bit count of 1/65536
//! units. Every operation is total: a result outside the representable
//! range saturates, and a zero divisor yields zero. Each executable
//! operation is specified exactly as an integer function of the raw
//! unit counts, so callers can compute with these numbers symbolically.

use vstd::prelude::*;
use vstd::arithmetic::div_mod::{
    lemma_div_multiples_vanish, lemma_fundamental_div_mod,
    lemma_fundamental_div_mod_converse, lemma_mod_bound, lemma_mod_multiples_basic,
};

verus! {

/// Unit counts per one: `Fx { bits }` stands for the real number `bits / 65536`.
pub const FX_SCALE: i64 = 65536;

/// A fixed-point number counting 1/65536 units.
#[derive(Clone, Copy, Debug, PartialEq, Eq, Structural)]
pub struct Fx {
    pub bits: i64,
}

/// Clamps an unbounded integer into the `i64` range.
pub open spec fn sat64(x: int) -> int {
    if x > i64::MAX as int {
        i64::MAX as int
    } else if x < i64::MIN as int {
        i64::MIN as int
    } else {
        x
    }
}

/// The fixed-point number whose unit count is `x`, clamped into range.
pub open spec fn fx_of(x: int) -> Fx {
    Fx { bits: sat64(x) as i64 }
}

pub open spec fn iabs(x: int) -> int {
    if x < 0 {
        -x
    } else {
        x
    }
}

/// Truncating (round-toward-zero) division; zero for a zero divisor.
pub open spec fn tdiv(a: int, b: int) -> int {
    if b == 0 {
        0
    } else if (a < 0) == (b < 0) {
        iabs(a) / iabs(b)
    } else {
        -(iabs(a) / iabs(b))
    }
}

pub open spec fn fx_add_v(a: Fx, b: Fx) -> Fx {
    fx_of(a.bits + b.bits)
}

pub open spec fn fx_sub_v(a: Fx, b: Fx) -> Fx {
    fx_of(a.bits - b.bits)
}

pub open spec fn fx_neg_v(a: Fx) -> Fx {
    fx_of(-a.bits)
}

pub open spec fn fx_mul_v(a: Fx, b: Fx) -> Fx {
    fx_of(tdiv(a.bits * b.bits, FX_SCALE as int))
}

pub open spec fn fx_div_v(a: Fx, b: Fx) -> Fx {
    if b.bits == 0 {
        Fx { bits: 0 }
    } else {
        fx_of(tdiv(a.bits * FX_SCALE, b.bits as int))
    }
}

pub open spec fn fx_min_v(a: Fx, b: Fx) -> Fx {
    if a.bits <= b.bits {
        a
    } else {
        b
    }
}

pub open spec fn fx_max_v(a: Fx, b: Fx) -> Fx {
    if a.bits >= b.bits {
        a
    } else {
        b
    }
}

pub open spec fn fx_abs_v(a: Fx) -> Fx {
    fx_of(iabs(a.bits as int))
}

/// The largest integer at or below the represented value.
pub open spec fn fx_floor_v(a: Fx) -> int {
    (a.bits as int) / (FX_SCALE as int)
}

pub open spec fn fx_from_int_v(x: int) -> Fx {
    fx_of(x * (FX_SCALE as int))
}

/// The integer square root: the largest `r` with `r * r <= n`.
pub open spec fn sqrt_of(n: nat) -> nat
    decreases n,
{
    if n == 0 {
        0
    } else {
        let p = sqrt_of((n - 1) as nat);
        if (p + 1) * (p + 1) <= n {
            p + 1
        } else {
            p
        }
    }
}

/// Fixed-point square root: the unit count is the integer square root
/// of the argument's count rescaled, so the represented value is the
/// rounded-down square root. A negative argument yields zero.
pub open spec fn fx_sqrt_v(a: Fx) -> Fx {
    if a.bits < 0 {
        Fx { bits: 0 }
    } else {
        fx_of(sqrt_of((a.bits * FX_SCALE) as nat) as int)
    }
}

proof fn lemma_i64_mul_fits(x: int, y: int)
    by (nonlinear_arith)
    requires
        -0x8000_0000_0000_0000 <= x <= 0x7fff_ffff_ffff_ffff,
        -0x8000_0000_0000_0000 <= y <= 0x7fff_ffff_ffff_ffff,
    ensures
        -0x4000_0000_0000_0000_0000_0000_0000_0000 <= x * y
            <= 0x4000_0000_0000_0000_0000_0000_0000_0000,
{
}

pub proof fn lemma_sqrt_of(n: nat)
    ensures
        sqrt_of(n) * sqrt_of(n) <= n,
        n < (sqrt_of(n) + 1) * (sqrt_of(n) + 1),
    decreases n,
{
    if n == 0 {
        assert(sqrt_of(n) == 0);
        assert((sqrt_of(n) + 1) * (sqrt_of(n) + 1) == 1) by (nonlinear_arith)
            requires
                sqrt_of(n) == 0,
        ;
    } else {
        lemma_sqrt_of((n - 1) as nat);
        let p = sqrt_of((n - 1) as nat);
        assert(p * p <= n - 1);
        assert(n - 1 < (p + 1) * (p + 1));
        if (p + 1) * (p + 1) <= n {
            assert(sqrt_of(n) == p + 1);
            assert(n == (p + 1) * (p + 1));
            assert(n < (p + 2) * (p + 2)) by (nonlinear_arith)
                requires
                    n == (p + 1) * (p + 1),
                    0 <= p,
            ;
        } else {
            assert(sqrt_of(n) == p);
        }
    }
}

/// Any integer meeting the square-root bracket is the integer square root.
proof fn lemma_sqrt_unique(n: nat, r: nat)
    requires
        r * r <= n,
        n < (r + 1) * (r + 1),
    ensures
        r == sqrt_of(n),
{
    lemma_sqrt_of(n);
    let s = sqrt_of(n);
    if r < s {
        assert((r + 1) * (r + 1) <= s * s) by (nonlinear_arith)
            requires
                r + 1 <= s,
        ;
    }
    if s < r {
        assert((s + 1) * (s + 1) <= r * r) by (nonlinear_arith)
            requires
                s + 1 <= r,
        ;
    }
}

/// On an exact multiple of a positive divisor, truncating division
/// agrees with Euclidean division.
pub proof fn lemma_tdiv_exact(x: int, d: int)
    requires
        d > 0,
        x % d == 0,
    ensures
        tdiv(x, d) == x / d,
        d * (x / d) == x,
{
    lemma_fundamental_div_mod(x, d);
    let q = x / d;
    if x >= 0 {
    } else {
        assert(-x == (-q) * d + 0) by (nonlinear_arith)
            requires
                x == d * q,
        ;
        lemma_fundamental_div_mod_converse(-x, d, -q, 0);
    }
}

/// Scaling by a positive divisor and truncating the quotient away is
/// the identity.
pub proof fn lemma_tdiv_multiple(q: int, d: int)
    requires
        d > 0,
    ensures
        tdiv(q * d, d) == q,
{
    lemma_mod_multiples_basic(q, d);
    lemma_tdiv_exact(q * d, d);
    lemma_div_multiples_vanish(q, d);
    assert(q * d == d * q) by (nonlinear_arith);
}

/// Truncating division never strays a full divisor from its numerator:
/// the quotient scaled back up lies within `d` of `x`, and never
/// beyond it.
pub proof fn lemma_tdiv_close(x: int, d: int)
    requires
        d > 0,
    ensures
        iabs(x - tdiv(x, d) * d) < d,
        iabs(tdiv(x, d) * d) <= iabs(x),
{
    if x >= 0 {
        lemma_fundamental_div_mod(x, d);
        lemma_mod_bound(x, d);
        assert((x / d) * d == d * (x / d)) by (nonlinear_arith);
    } else {
        let m = -x;
        lemma_fundamental_div_mod(m, d);
        lemma_mod_bound(m, d);
        assert((-(m / d)) * d == -(d * (m / d))) by (nonlinear_arith);
    }
}

/// Clamps a wide intermediate into a fixed-point number.
fn sat_fx(x: i128) -> (r: Fx)
    ensures
        r == fx_of(x as int),
{
    if x > i64::MAX as i128 {
        Fx { bits: i64::MAX }
    } else if x < i64::MIN as i128 {
        Fx { bits: i64::MIN }
    } else {
        Fx { bits: x as i64 }
    }
}

/// Truncating division on wide intermediates, via the magnitudes.
fn tdiv128(a: i128, b: i128) -> (q: i128)
    requires
        b != 0,
        i128::MIN < a,
        i128::MIN < b,
    ensures
        q as int == tdiv(a as int, b as int),
        iabs(q as int) <= iabs(a as int),
{
    let ua: u128 = if a < 0 {
        (-a) as u128
    } else {
        a as u128
    };
    let ub: u128 = if b < 0 {
        (-b) as u128
    } else {
        b as u128
    };
    let uq: u128 = ua / ub;
    proof {
        assert(ua as int == iabs(a as int));
        assert(ub as int == iabs(b as int));
        lemma_div_ordered_by_denominator(ua as int, ub as int);
    }
    if (a < 0) != (b < 0) {
        -(uq as i128)
    } else {
        uq as i128
    }
}

/// With a denominator of at least one, division does not grow a
/// non-negative numerator.
proof fn lemma_div_ordered_by_denominator(x: int, d: int)
    requires
        0 <= x,
        1 <= d,
    ensures
        x / d <= x,
        0 <= x / d,
{
    lemma_fundamental_div_mod(x, d);
    let q = x / d;
    let r = x % d;
    assert(x == d * q + r);
    if q > x {
        assert(d * q >= q) by (nonlinear_arith)
            requires
                1 <= d,
                0 <= q,
        ;
    }
    if q < 0 {
        assert(d * q <= q) by (nonlinear_arith)
            requires
                1 <= d,
                q < 0,
        ;
    }
}

impl Fx {
    /// The number counting `bits` units of 1/65536.
    pub fn from_bits(bits: i64) -> (r: Fx)
        ensures
            r == (Fx { bits }),
    {
        Fx { bits }
    }

    /// The fixed-point representation of the integer `x`.
    pub fn from_int(x: i64) -> (r: Fx)
        ensures
            r == fx_from_int_v(x as int),
    {
        proof {
            lemma_i64_mul_fits(x as int, FX_SCALE as int);
        }
        sat_fx((x as i128) * (FX_SCALE as i128))
    }
}

pub fn fx_add(a: Fx, b: Fx) -> (r: Fx)
    ensures
        r == fx_add_v(a, b),
{
    sat_fx((a.bits as i128) + (b.bits as i128))
}

pub fn fx_sub(a: Fx, b: Fx) -> (r: Fx)
    ensures
        r == fx_sub_v(a, b),
{
    sat_fx((a.bits as i128) - (b.bits as i128))
}

pub fn fx_neg(a: Fx) -> (r: Fx)
    ensures
        r == fx_neg_v(a),
{
    sat_fx(-(a.bits as i128))
}

pub fn fx_mul(a: Fx, b: Fx) -> (r: Fx)
    ensures
        r == fx_mul_v(a, b),
{
    proof {
        lemma_i64_mul_fits(a.bits as int, b.bits as int);
    }
    let p: i128 = (a.bits as i128) * (b.bits as i128);
    let q = tdiv128(p, FX_SCALE as i128);
    sat_fx(q)
}

pub fn fx_div(a: Fx, b: Fx) -> (r: Fx)
    ensures
        r == fx_div_v(a, b),
{
    if b.bits == 0 {
        return Fx { bits: 0 };
    }
    proof {
        lemma_i64_mul_fits(a.bits as int, FX_SCALE as int);
    }
    let num: i128 = (a.bits as i128) * (FX_SCALE as i128);
    let q = tdiv128(num, b.bits as i128);
    sat_fx(q)
}

pub fn fx_min(a: Fx, b: Fx) -> (r: Fx)
    ensures
        r == fx_min_v(a, b),
{
    if a.bits <= b.bits {
        a
    } else {
        b
    }
}

pub fn fx_max(a: Fx, b: Fx) -> (r: Fx)
    ensures
        r == fx_max_v(a, b),
{
    if a.bits >= b.bits {
        a
    } else {
        b
    }
}

pub fn fx_abs(a: Fx) -> (r: Fx)
    ensures
        r == fx_abs_v(a),
{
    if a.bits < 0 {
        sat_fx(-(a.bits as i128))
    } else {
        a
    }
}

/// The largest integer at or below the represented value.
pub fn fx_floor(a: Fx) -> (r: i64)
    ensures
        r as int == fx_floor_v(a),
{
    if a.bits >= 0 {
        let q = (a.bits as u64) / (FX_SCALE as u64);
        q as i64
    } else {
        let m: u128 = (-(a.bits as i128)) as u128;
        let q0: u128 = m / (FX_SCALE as u128);
        let r0: u128 = m % (FX_SCALE as u128);
        proof {
            lemma_div_ordered_by_denominator(m as int, FX_SCALE as int);
            if r0 == 0 {
                lemma_fundamental_div_mod_converse(
                    a.bits as int,
                    FX_SCALE as int,
                    -(q0 as int),
                    0,
                );
            } else {
                lemma_fundamental_div_mod(m as int, FX_SCALE as int);
                lemma_fundamental_div_mod_converse(
                    a.bits as int,
                    FX_SCALE as int,
                    -(q0 as int) - 1,
                    FX_SCALE as int - r0 as int,
                );
            }
        }
        if r0 == 0 {
            (-(q0 as i128)) as i64
        } else {
            ((-(q0 as i128)) - 1) as i64
        }
    }
}

/// Fixed-point square root, by bisection on the unit count.
pub fn fx_sqrt(a: Fx) -> (r: Fx)
    ensures
        r == fx_sqrt_v(a),
{
    if a.bits < 0 {
        return Fx { bits: 0 };
    }
    let n: u128 = (a.bits as u128) * (FX_SCALE as u128);
    let s = isqrt(n);
    proof {
        lemma_sqrt_unique(n as nat, s as nat);
        lemma_sqrt_of(n as nat);
        assert(sqrt_of(n as nat) < 0x1_0000_0000_0000) by {
            if sqrt_of(n as nat) >= 0x1_0000_0000_0000 {
                assert(sqrt_of(n as nat) * sqrt_of(n as nat)
                    >= 0x1_0000_0000_0000 * 0x1_0000_0000_0000) by (nonlinear_arith)
                    requires
                        sqrt_of(n as nat) >= 0x1_0000_0000_0000,
                ;
            }
        }
    }
    Fx { bits: s as i64 }
}

/// The largest `r` with `r * r <= n`, for `n` below 2^80.
fn isqrt(n: u128) -> (r: u128)
    requires
        n < 0x1_0000_0000_0000_0000_0000,
    ensures
        (r as int) * (r as int) <= n as int,
        (n as int) < ((r as int) + 1) * ((r as int) + 1),
{
    let mut lo: u128 = 0;
    let mut hi: u128 = 0x100_0000_0000;
    if n == 0 {
        return 0;
    }
    while hi - lo > 1
        invariant
            lo < hi <= 0x100_0000_0000,
            (lo as int) * (lo as int) <= n as int,
            (n as int) < (hi as int) * (hi as int),
        decreases hi - lo,
    {
        let mid = lo + (hi - lo) / 2;
        proof {
            assert((mid as int) * (mid as int) <= 0x100_0000_0000 * 0x100_0000_0000)
                by (nonlinear_arith)
                requires
                    0 <= mid as int <= 0x100_0000_0000,
            ;
        }
        if mid * mid <= n {
            lo = mid;
        } else {
            hi = mid;
        }
    }
    lo
}

} // verus!
