//! Linear RGB color arithmetic: componentwise add and multiply, scalar
//! multiply and divide, and affine mixing. No clamping happens here;
//! values may leave [0, 1] transiently, and display-range encoding is a
//! caller's concern.

use vstd::prelude::*;
use crate::fixed::{
    FX_SCALE, Fx, fx_add, fx_add_v, fx_div, fx_div_v, fx_mul, fx_mul_v, fx_of, fx_sub, fx_sub_v,
    iabs, lemma_tdiv_close, lemma_tdiv_exact, lemma_tdiv_multiple, tdiv,
};

verus! {

/// A physically linear, unclamped RGB triple.
#[derive(Clone, Copy, Debug, PartialEq, Eq, Structural)]
pub struct LinearRgb {
    pub red: Fx,
    pub green: Fx,
    pub blue: Fx,
}

pub open spec fn cadd_v(a: LinearRgb, b: LinearRgb) -> LinearRgb {
    LinearRgb {
        red: fx_add_v(a.red, b.red),
        green: fx_add_v(a.green, b.green),
        blue: fx_add_v(a.blue, b.blue),
    }
}

pub open spec fn cmul_v(a: LinearRgb, b: LinearRgb) -> LinearRgb {
    LinearRgb {
        red: fx_mul_v(a.red, b.red),
        green: fx_mul_v(a.green, b.green),
        blue: fx_mul_v(a.blue, b.blue),
    }
}

pub open spec fn cscale_v(a: LinearRgb, s: Fx) -> LinearRgb {
    LinearRgb {
        red: fx_mul_v(a.red, s),
        green: fx_mul_v(a.green, s),
        blue: fx_mul_v(a.blue, s),
    }
}

pub open spec fn cdiv_v(a: LinearRgb, s: Fx) -> LinearRgb {
    LinearRgb {
        red: fx_div_v(a.red, s),
        green: fx_div_v(a.green, s),
        blue: fx_div_v(a.blue, s),
    }
}

/// The componentwise difference; used only to state laws about `mix`.
pub open spec fn csub_v(a: LinearRgb, b: LinearRgb) -> LinearRgb {
    LinearRgb {
        red: fx_sub_v(a.red, b.red),
        green: fx_sub_v(a.green, b.green),
        blue: fx_sub_v(a.blue, b.blue),
    }
}

/// `mix(a, b, t)` blends `a * (1 - t) + b * t`, componentwise.
pub open spec fn mix_v(a: LinearRgb, b: LinearRgb, factor: Fx) -> LinearRgb {
    cadd_v(cscale_v(a, fx_sub_v(Fx { bits: FX_SCALE }, factor)), cscale_v(b, factor))
}

impl LinearRgb {
    pub fn new(red: Fx, green: Fx, blue: Fx) -> (r: LinearRgb)
        ensures
            r == (LinearRgb { red, green, blue }),
    {
        LinearRgb { red, green, blue }
    }

    pub fn black() -> (r: LinearRgb)
        ensures
            r == (LinearRgb {
                red: Fx { bits: 0 },
                green: Fx { bits: 0 },
                blue: Fx { bits: 0 },
            }),
    {
        LinearRgb { red: Fx { bits: 0 }, green: Fx { bits: 0 }, blue: Fx { bits: 0 } }
    }

    pub fn white() -> (r: LinearRgb)
        ensures
            r == (LinearRgb {
                red: Fx { bits: FX_SCALE },
                green: Fx { bits: FX_SCALE },
                blue: Fx { bits: FX_SCALE },
            }),
    {
        LinearRgb {
            red: Fx { bits: FX_SCALE },
            green: Fx { bits: FX_SCALE },
            blue: Fx { bits: FX_SCALE },
        }
    }

    /// Blends this color toward `other`: `self * (1 - factor) + other * factor`.
    pub fn mix(&self, other: &LinearRgb, factor: Fx) -> (r: LinearRgb)
        ensures
            r == mix_v(*self, *other, factor),
    {
        let n_factor = fx_sub(Fx { bits: FX_SCALE }, factor);
        LinearRgb {
            red: fx_add(fx_mul(self.red, n_factor), fx_mul(other.red, factor)),
            green: fx_add(fx_mul(self.green, n_factor), fx_mul(other.green, factor)),
            blue: fx_add(fx_mul(self.blue, n_factor), fx_mul(other.blue, factor)),
        }
    }
}

/// Componentwise sum.
pub fn cadd(a: LinearRgb, b: LinearRgb) -> (r: LinearRgb)
    ensures
        r == cadd_v(a, b),
{
    LinearRgb {
        red: fx_add(a.red, b.red),
        green: fx_add(a.green, b.green),
        blue: fx_add(a.blue, b.blue),
    }
}

/// Componentwise product.
pub fn cmul(a: LinearRgb, b: LinearRgb) -> (r: LinearRgb)
    ensures
        r == cmul_v(a, b),
{
    LinearRgb {
        red: fx_mul(a.red, b.red),
        green: fx_mul(a.green, b.green),
        blue: fx_mul(a.blue, b.blue),
    }
}

/// Scalar multiply.
pub fn cscale(a: LinearRgb, s: Fx) -> (r: LinearRgb)
    ensures
        r == cscale_v(a, s),
{
    LinearRgb { red: fx_mul(a.red, s), green: fx_mul(a.green, s), blue: fx_mul(a.blue, s) }
}

/// Scalar divide.
pub fn cdiv(a: LinearRgb, s: Fx) -> (r: LinearRgb)
    ensures
        r == cdiv_v(a, s),
{
    LinearRgb { red: fx_div(a.red, s), green: fx_div(a.green, s), blue: fx_div(a.blue, s) }
}

/// A channel count small enough that the laws below meet no saturation:
/// at most 2^30 units, i.e. 16384 in real terms.
pub open spec fn moderate(c: Fx) -> bool {
    iabs(c.bits as int) <= 0x4000_0000
}

pub open spec fn moderate_rgb(c: LinearRgb) -> bool {
    moderate(c.red) && moderate(c.green) && moderate(c.blue)
}

/// The unit scale divides the product of the two counts, so their
/// fixed-point product rounds nothing away.
pub open spec fn product_exact(a: Fx, b: Fx) -> bool {
    (a.bits * b.bits) % (FX_SCALE as int) == 0
}

pub open spec fn products_exact(c: LinearRgb, s: Fx) -> bool {
    product_exact(c.red, s) && product_exact(c.green, s) && product_exact(c.blue, s)
}

/// Mixing with factor zero returns the first color exactly.
pub proof fn lemma_mix_left_endpoint(a: LinearRgb, b: LinearRgb)
    ensures
        mix_v(a, b, Fx { bits: 0 }) == a,
{
    lemma_fx_mul_one(a.red);
    lemma_fx_mul_one(a.green);
    lemma_fx_mul_one(a.blue);
    lemma_fx_mul_zero(b.red);
    lemma_fx_mul_zero(b.green);
    lemma_fx_mul_zero(b.blue);
}

/// Mixing with factor one returns the second color exactly.
pub proof fn lemma_mix_right_endpoint(a: LinearRgb, b: LinearRgb)
    ensures
        mix_v(a, b, Fx { bits: FX_SCALE }) == b,
{
    lemma_fx_mul_zero(a.red);
    lemma_fx_mul_zero(a.green);
    lemma_fx_mul_zero(a.blue);
    lemma_fx_mul_one(b.red);
    lemma_fx_mul_one(b.green);
    lemma_fx_mul_one(b.blue);
}

/// `mix` is affine in its factor: it equals `a + (b - a) * t`, for any
/// factor, inside or outside [0, 1]. Channels must be moderate and the
/// channel-factor products exact, so that no rounding or saturation
/// perturbs either side.
pub proof fn lemma_mix_affine(a: LinearRgb, b: LinearRgb, t: Fx)
    requires
        moderate_rgb(a),
        moderate_rgb(b),
        moderate(t),
        products_exact(a, t),
        products_exact(b, t),
    ensures
        mix_v(a, b, t) == cadd_v(a, cscale_v(csub_v(b, a), t)),
{
    lemma_fx_mix_affine(a.red, b.red, t);
    lemma_fx_mix_affine(a.green, b.green, t);
    lemma_fx_mix_affine(a.blue, b.blue, t);
}

/// Within two units of the smallest representable step.
pub open spec fn near(u: Fx, w: Fx) -> bool {
    iabs(u.bits - w.bits) <= 2
}

/// Even where rounding spoils exactness, `mix` stays within two
/// fixed-point units of the affine form `a + (b - a) * t` on every
/// channel, for any factor, inside or outside [0, 1].
pub proof fn lemma_mix_nearly_affine(a: LinearRgb, b: LinearRgb, t: Fx)
    requires
        moderate_rgb(a),
        moderate_rgb(b),
        moderate(t),
    ensures
        near(mix_v(a, b, t).red, cadd_v(a, cscale_v(csub_v(b, a), t)).red),
        near(mix_v(a, b, t).green, cadd_v(a, cscale_v(csub_v(b, a), t)).green),
        near(mix_v(a, b, t).blue, cadd_v(a, cscale_v(csub_v(b, a), t)).blue),
{
    lemma_fx_mix_close(a.red, b.red, t);
    lemma_fx_mix_close(a.green, b.green, t);
    lemma_fx_mix_close(a.blue, b.blue, t);
}

/// Componentwise color addition is commutative.
pub proof fn lemma_cadd_comm(a: LinearRgb, b: LinearRgb)
    ensures
        cadd_v(a, b) == cadd_v(b, a),
{
}

/// Componentwise color addition is associative whenever no channel sum
/// saturates.
pub proof fn lemma_cadd_assoc(a: LinearRgb, b: LinearRgb, c: LinearRgb)
    requires
        moderate_rgb(a),
        moderate_rgb(b),
        moderate_rgb(c),
    ensures
        cadd_v(cadd_v(a, b), c) == cadd_v(a, cadd_v(b, c)),
{
}

/// Componentwise color multiplication is commutative.
pub proof fn lemma_cmul_comm(a: LinearRgb, b: LinearRgb)
    ensures
        cmul_v(a, b) == cmul_v(b, a),
{
}

/// Componentwise color multiplication is associative whenever the
/// channels are moderate and the adjacent products are exact.
pub proof fn lemma_cmul_assoc(a: LinearRgb, b: LinearRgb, c: LinearRgb)
    requires
        moderate_rgb(a),
        moderate_rgb(b),
        moderate_rgb(c),
        product_exact(a.red, b.red),
        product_exact(a.green, b.green),
        product_exact(a.blue, b.blue),
        product_exact(b.red, c.red),
        product_exact(b.green, c.green),
        product_exact(b.blue, c.blue),
    ensures
        cmul_v(cmul_v(a, b), c) == cmul_v(a, cmul_v(b, c)),
{
    lemma_fx_mul_assoc(a.red, b.red, c.red);
    lemma_fx_mul_assoc(a.green, b.green, c.green);
    lemma_fx_mul_assoc(a.blue, b.blue, c.blue);
}

/// Scalar multiplication distributes over color addition whenever the
/// channels are moderate and the channel-scalar products are exact.
pub proof fn lemma_cscale_distributes(a: LinearRgb, b: LinearRgb, s: Fx)
    requires
        moderate_rgb(a),
        moderate_rgb(b),
        moderate(s),
        products_exact(a, s),
        products_exact(b, s),
    ensures
        cscale_v(cadd_v(a, b), s) == cadd_v(cscale_v(a, s), cscale_v(b, s)),
{
    lemma_fx_scale_distributes(a.red, b.red, s);
    lemma_fx_scale_distributes(a.green, b.green, s);
    lemma_fx_scale_distributes(a.blue, b.blue, s);
}

proof fn lemma_fx_mul_one(c: Fx)
    ensures
        fx_mul_v(c, Fx { bits: FX_SCALE }) == c,
{
    lemma_tdiv_multiple(c.bits as int, FX_SCALE as int);
}

proof fn lemma_fx_mul_zero(c: Fx)
    ensures
        fx_mul_v(c, Fx { bits: 0 }) == (Fx { bits: 0 }),
{
    assert(c.bits * 0 == 0 * (FX_SCALE as int)) by (nonlinear_arith);
    lemma_tdiv_multiple(0, FX_SCALE as int);
}

proof fn lemma_fx_mix_affine(a: Fx, b: Fx, t: Fx)
    requires
        moderate(a),
        moderate(b),
        moderate(t),
        product_exact(a, t),
        product_exact(b, t),
    ensures
        fx_add_v(fx_mul_v(a, fx_sub_v(Fx { bits: FX_SCALE }, t)), fx_mul_v(b, t)) == fx_add_v(
            a,
            fx_mul_v(fx_sub_v(b, a), t),
        ),
{
    let d = FX_SCALE as int;
    let x = a.bits as int;
    let y = b.bits as int;
    let s = t.bits as int;
    lemma_tdiv_exact(x * s, d);
    lemma_tdiv_exact(y * s, d);
    let qa = (x * s) / d;
    let qb = (y * s) / d;
    assert(-0x1000_0000_0000_0000 <= x * s <= 0x1000_0000_0000_0000)
        by (nonlinear_arith)
        requires
            -0x4000_0000 <= x <= 0x4000_0000,
            -0x4000_0000 <= s <= 0x4000_0000,
    ;
    assert(-0x1000_0000_0000_0000 <= y * s <= 0x1000_0000_0000_0000)
        by (nonlinear_arith)
        requires
            -0x4000_0000 <= y <= 0x4000_0000,
            -0x4000_0000 <= s <= 0x4000_0000,
    ;
    assert(-0x1000_0000_0000_0000 <= d * qa <= 0x1000_0000_0000_0000);
    assert(-0x1_0000_0000_0000 <= qa <= 0x1_0000_0000_0000) by (nonlinear_arith)
        requires
            -0x1000_0000_0000_0000 <= d * qa <= 0x1000_0000_0000_0000,
            d == 0x1_0000,
    ;
    assert(-0x1_0000_0000_0000 <= qb <= 0x1_0000_0000_0000) by (nonlinear_arith)
        requires
            -0x1000_0000_0000_0000 <= d * qb <= 0x1000_0000_0000_0000,
            d == 0x1_0000,
    ;
    // The left side multiplies by the complement factor exactly.
    let n = fx_sub_v(Fx { bits: FX_SCALE }, t);
    assert(n.bits as int == d - s);
    assert(x * (d - s) == (x - qa) * d) by (nonlinear_arith)
        requires
            x * s == d * qa,
            d == 0x1_0000,
    ;
    lemma_tdiv_multiple(x - qa, d);
    assert(fx_mul_v(a, n) == fx_of(x - qa));
    assert(fx_mul_v(b, t) == fx_of(qb));
    // The right side scales the difference exactly.
    let diff = fx_sub_v(b, a);
    assert(diff.bits as int == y - x);
    assert((y - x) * s == (qb - qa) * d) by (nonlinear_arith)
        requires
            x * s == d * qa,
            y * s == d * qb,
            d == 0x1_0000,
    ;
    lemma_tdiv_multiple(qb - qa, d);
    assert(fx_mul_v(diff, t) == fx_of(qb - qa));
}

proof fn lemma_fx_mix_close(a: Fx, b: Fx, t: Fx)
    requires
        moderate(a),
        moderate(b),
        moderate(t),
    ensures
        near(
            fx_add_v(fx_mul_v(a, fx_sub_v(Fx { bits: FX_SCALE }, t)), fx_mul_v(b, t)),
            fx_add_v(a, fx_mul_v(fx_sub_v(b, a), t)),
        ),
{
    let d = FX_SCALE as int;
    let x = a.bits as int;
    let y = b.bits as int;
    let s = t.bits as int;
    let n = fx_sub_v(Fx { bits: FX_SCALE }, t);
    assert(n.bits as int == d - s);
    let diff = fx_sub_v(b, a);
    assert(diff.bits as int == y - x);
    let q1 = tdiv(x * (d - s), d);
    let q2 = tdiv(y * s, d);
    let q3 = tdiv((y - x) * s, d);
    lemma_tdiv_close(x * (d - s), d);
    lemma_tdiv_close(y * s, d);
    lemma_tdiv_close((y - x) * s, d);
    // Magnitude bounds keep every intermediate clear of saturation.
    assert(-0x2000_0000_0000_0000 <= x * (d - s) <= 0x2000_0000_0000_0000) by (nonlinear_arith)
        requires
            -0x4000_0000 <= x <= 0x4000_0000,
            -0x4001_0000 <= d - s <= 0x4001_0000,
    ;
    assert(-0x2000_0000_0000_0000 <= y * s <= 0x2000_0000_0000_0000) by (nonlinear_arith)
        requires
            -0x4000_0000 <= y <= 0x4000_0000,
            -0x4000_0000 <= s <= 0x4000_0000,
    ;
    assert(-0x2000_0000_0000_0000 <= (y - x) * s <= 0x2000_0000_0000_0000) by (nonlinear_arith)
        requires
            -0x8000_0000 <= y - x <= 0x8000_0000,
            -0x4000_0000 <= s <= 0x4000_0000,
    ;
    assert(-0x2000_0000_0000_0000 <= q1 * d <= 0x2000_0000_0000_0000);
    assert(-0x2000_0000_0000_0000 <= q2 * d <= 0x2000_0000_0000_0000);
    assert(-0x2000_0000_0000_0000 <= q3 * d <= 0x2000_0000_0000_0000);
    assert(-0x2000_0000_0000 <= q1 <= 0x2000_0000_0000) by (nonlinear_arith)
        requires
            -0x2000_0000_0000_0000 <= q1 * d <= 0x2000_0000_0000_0000,
            d == 0x1_0000,
    ;
    assert(-0x2000_0000_0000 <= q2 <= 0x2000_0000_0000) by (nonlinear_arith)
        requires
            -0x2000_0000_0000_0000 <= q2 * d <= 0x2000_0000_0000_0000,
            d == 0x1_0000,
    ;
    assert(-0x2000_0000_0000 <= q3 <= 0x2000_0000_0000) by (nonlinear_arith)
        requires
            -0x2000_0000_0000_0000 <= q3 * d <= 0x2000_0000_0000_0000,
            d == 0x1_0000,
    ;
    let lhs = fx_add_v(fx_mul_v(a, n), fx_mul_v(b, t));
    let rhs = fx_add_v(a, fx_mul_v(diff, t));
    assert(fx_mul_v(a, n) == fx_of(q1));
    assert(fx_mul_v(b, t) == fx_of(q2));
    assert(fx_mul_v(diff, t) == fx_of(q3));
    assert(lhs.bits as int == q1 + q2);
    assert(rhs.bits as int == x + q3);
    // The three rounding errors, each smaller than one unit scale.
    let e1 = x * (d - s) - q1 * d;
    let e2 = y * s - q2 * d;
    let e3 = (y - x) * s - q3 * d;
    assert(x * (d - s) + y * s == d * x + (y - x) * s) by (nonlinear_arith);
    let w = q1 + q2 - x - q3;
    assert(d * w == e3 - e1 - e2) by (nonlinear_arith)
        requires
            w == q1 + q2 - x - q3,
            e1 == x * (d - s) - q1 * d,
            e2 == y * s - q2 * d,
            e3 == (y - x) * s - q3 * d,
            x * (d - s) + y * s == d * x + (y - x) * s,
    ;
    assert(-2 <= w <= 2) by (nonlinear_arith)
        requires
            d * w == e3 - e1 - e2,
            -(3 * d) < e3 - e1 - e2 < 3 * d,
            d == 0x1_0000,
    ;
}

proof fn lemma_fx_mul_assoc(a: Fx, b: Fx, c: Fx)
    requires
        moderate(a),
        moderate(b),
        moderate(c),
        product_exact(a, b),
        product_exact(b, c),
    ensures
        fx_mul_v(fx_mul_v(a, b), c) == fx_mul_v(a, fx_mul_v(b, c)),
{
    let d = FX_SCALE as int;
    let x = a.bits as int;
    let y = b.bits as int;
    let z = c.bits as int;
    lemma_tdiv_exact(x * y, d);
    lemma_tdiv_exact(y * z, d);
    let p = (x * y) / d;
    let q = (y * z) / d;
    assert(-0x1000_0000_0000_0000 <= x * y <= 0x1000_0000_0000_0000)
        by (nonlinear_arith)
        requires
            -0x4000_0000 <= x <= 0x4000_0000,
            -0x4000_0000 <= y <= 0x4000_0000,
    ;
    assert(-0x1000_0000_0000_0000 <= y * z <= 0x1000_0000_0000_0000)
        by (nonlinear_arith)
        requires
            -0x4000_0000 <= y <= 0x4000_0000,
            -0x4000_0000 <= z <= 0x4000_0000,
    ;
    assert(-0x1_0000_0000_0000 <= p <= 0x1_0000_0000_0000) by (nonlinear_arith)
        requires
            -0x1000_0000_0000_0000 <= d * p <= 0x1000_0000_0000_0000,
            d == 0x1_0000,
    ;
    assert(-0x1_0000_0000_0000 <= q <= 0x1_0000_0000_0000) by (nonlinear_arith)
        requires
            -0x1000_0000_0000_0000 <= d * q <= 0x1000_0000_0000_0000,
            d == 0x1_0000,
    ;
    assert(fx_mul_v(a, b) == fx_of(p));
    assert(fx_mul_v(b, c) == fx_of(q));
    assert(p * z == x * q) by (nonlinear_arith)
        requires
            x * y == d * p,
            y * z == d * q,
            d == 0x1_0000,
    ;
}

proof fn lemma_fx_scale_distributes(a: Fx, b: Fx, s: Fx)
    requires
        moderate(a),
        moderate(b),
        moderate(s),
        product_exact(a, s),
        product_exact(b, s),
    ensures
        fx_mul_v(fx_add_v(a, b), s) == fx_add_v(fx_mul_v(a, s), fx_mul_v(b, s)),
{
    let d = FX_SCALE as int;
    let x = a.bits as int;
    let y = b.bits as int;
    let t = s.bits as int;
    lemma_tdiv_exact(x * t, d);
    lemma_tdiv_exact(y * t, d);
    let qa = (x * t) / d;
    let qb = (y * t) / d;
    assert(-0x1000_0000_0000_0000 <= x * t <= 0x1000_0000_0000_0000)
        by (nonlinear_arith)
        requires
            -0x4000_0000 <= x <= 0x4000_0000,
            -0x4000_0000 <= t <= 0x4000_0000,
    ;
    assert(-0x1000_0000_0000_0000 <= y * t <= 0x1000_0000_0000_0000)
        by (nonlinear_arith)
        requires
            -0x4000_0000 <= y <= 0x4000_0000,
            -0x4000_0000 <= t <= 0x4000_0000,
    ;
    assert(-0x1_0000_0000_0000 <= qa <= 0x1_0000_0000_0000) by (nonlinear_arith)
        requires
            -0x1000_0000_0000_0000 <= d * qa <= 0x1000_0000_0000_0000,
            d == 0x1_0000,
    ;
    assert(-0x1_0000_0000_0000 <= qb <= 0x1_0000_0000_0000) by (nonlinear_arith)
        requires
            -0x1000_0000_0000_0000 <= d * qb <= 0x1000_0000_0000_0000,
            d == 0x1_0000,
    ;
    assert((x + y) * t == (qa + qb) * d) by (nonlinear_arith)
        requires
            x * t == d * qa,
            y * t == d * qb,
            d == 0x1_0000,
    ;
    lemma_tdiv_multiple(qa + qb, d);
    assert(fx_mul_v(fx_add_v(a, b), s) == fx_of(qa + qb));
    assert(fx_mul_v(a, s) == fx_of(qa));
    assert(fx_mul_v(b, s) == fx_of(qb));
}

} // verus!
