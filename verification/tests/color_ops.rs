use lux::color::{cadd, cdiv, cmul, cscale, LinearRgb};
use lux::fixed::{fx_add, fx_div, fx_floor, fx_mul, fx_sqrt, Fx, FX_SCALE};

fn c(r: i64, g: i64, b: i64) -> LinearRgb {
    LinearRgb { red: Fx { bits: r }, green: Fx { bits: g }, blue: Fx { bits: b } }
}

const ONE: i64 = FX_SCALE;
const HALF: i64 = 32768;

#[test]
fn mix_factor_zero_returns_first() {
    let a = c(ONE, HALF, 12345);
    let b = c(777, -HALF, 3 * ONE);
    assert_eq!(a.mix(&b, Fx { bits: 0 }), a);
}

#[test]
fn mix_factor_one_returns_second() {
    let a = c(ONE, HALF, 12345);
    let b = c(777, -HALF, 3 * ONE);
    assert_eq!(a.mix(&b, Fx { bits: ONE }), b);
}

#[test]
fn mix_is_affine_on_exact_inputs() {
    // Whole-number channels and a half factor: every product is an
    // exact multiple of the unit scale, so mix(a, b, t) == a + (b-a)*t.
    let a = c(2 * ONE, 4 * ONE, -6 * ONE);
    let b = c(10 * ONE, -2 * ONE, 2 * ONE);
    let t = Fx { bits: HALF };
    let mixed = a.mix(&b, t);
    // a + (b - a) * t, channel by channel.
    let diff = c(8 * ONE, -6 * ONE, 8 * ONE);
    let expected = cadd(a, cscale(diff, t));
    assert_eq!(mixed, expected);
    assert_eq!(mixed, c(6 * ONE, ONE, -2 * ONE));
}

#[test]
fn mix_extrapolates_outside_unit_interval() {
    // t = 2 lands past b by the full distance from a to b.
    let a = c(ONE, 0, 0);
    let b = c(2 * ONE, ONE, 0);
    let mixed = a.mix(&b, Fx { bits: 2 * ONE });
    assert_eq!(mixed, c(3 * ONE, 2 * ONE, 0));
}

#[test]
fn mix_stays_within_two_units_of_affine() {
    // With ragged channel values the division rounds, but the result
    // never strays more than two units from a + (b - a) * t.
    let a = c(12_345, -9_999, 77_777);
    let b = c(-54_321, 88_888, 11_111);
    let mut t_bits: i64 = -100_000;
    while t_bits <= 100_000 {
        let t = Fx { bits: t_bits };
        let mixed = a.mix(&b, t);
        let diff = c(
            b.red.bits - a.red.bits,
            b.green.bits - a.green.bits,
            b.blue.bits - a.blue.bits,
        );
        let affine = cadd(a, cscale(diff, t));
        assert!((mixed.red.bits - affine.red.bits).abs() <= 2);
        assert!((mixed.green.bits - affine.green.bits).abs() <= 2);
        assert!((mixed.blue.bits - affine.blue.bits).abs() <= 2);
        t_bits += 7_919;
    }
}

#[test]
fn color_add_commutes_and_associates() {
    let a = c(123, -456, 789);
    let b = c(-321, 654, -987);
    let d = c(111, 222, 333);
    assert_eq!(cadd(a, b), cadd(b, a));
    assert_eq!(cadd(cadd(a, b), d), cadd(a, cadd(b, d)));
}

#[test]
fn color_mul_commutes() {
    let a = c(123, -456, 789);
    let b = c(-321, 654, -987);
    assert_eq!(cmul(a, b), cmul(b, a));
}

#[test]
fn color_mul_associates_on_exact_inputs() {
    // Half, two and four: adjacent products are exact multiples of the
    // unit scale.
    let a = c(HALF, 2 * ONE, 4 * ONE);
    let b = c(2 * ONE, HALF, ONE);
    let d = c(4 * ONE, ONE, HALF);
    assert_eq!(cmul(cmul(a, b), d), cmul(a, cmul(b, d)));
}

#[test]
fn scalar_mul_distributes_over_add_on_exact_inputs() {
    let a = c(3 * ONE, -2 * ONE, HALF);
    let b = c(5 * ONE, 7 * ONE, -HALF);
    let s = Fx { bits: 2 * ONE };
    assert_eq!(cscale(cadd(a, b), s), cadd(cscale(a, s), cscale(b, s)));
}

#[test]
fn scalar_divide_scales_channels_down() {
    let a = c(4 * ONE, 2 * ONE, ONE);
    let half_each = cdiv(a, Fx { bits: 2 * ONE });
    assert_eq!(half_each, c(2 * ONE, ONE, HALF));
}

#[test]
fn fixed_point_core_operations() {
    // Exact square roots and floors, a zero divisor, and saturation.
    assert_eq!(fx_sqrt(Fx { bits: 4 * ONE }).bits, 2 * ONE);
    assert_eq!(fx_sqrt(Fx { bits: 25 * ONE }).bits, 5 * ONE);
    assert_eq!(fx_sqrt(Fx { bits: -ONE }).bits, 0);
    assert_eq!(fx_floor(Fx { bits: 3 * ONE + 1 }), 3);
    assert_eq!(fx_floor(Fx { bits: -3 * ONE - 1 }), -4);
    assert_eq!(fx_floor(Fx { bits: -2 * ONE }), -2);
    assert_eq!(fx_div(Fx { bits: ONE }, Fx { bits: 0 }).bits, 0);
    assert_eq!(fx_add(Fx { bits: i64::MAX }, Fx { bits: 1 }).bits, i64::MAX);
    assert_eq!(fx_mul(Fx { bits: 3 * ONE }, Fx { bits: -2 * ONE }).bits, -6 * ONE);
}
