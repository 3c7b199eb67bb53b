use demo_engine::{Fx, FX_SCALE, fx_add, fx_div, fx_half, fx_mul, fx_neg, fx_sin_cos, fx_sub};

fn value(x: Fx) -> f64 {
    x.raw as f64 / FX_SCALE as f64
}

#[test]
fn fx_constructors_give_exact_raw_values() {
    assert_eq!(Fx::zero().raw, 0);
    assert_eq!(Fx::one().raw, FX_SCALE);
    assert_eq!(Fx::from_int(3).raw, 3 * FX_SCALE);
    assert_eq!(Fx::from_int(-2).raw, -2 * FX_SCALE);
    assert_eq!(Fx::from_raw(17).raw, 17);
}

#[test]
fn fx_arithmetic_is_exact_on_representable_values() {
    let three_halves = Fx::from_raw(FX_SCALE + FX_SCALE / 2);
    let two = Fx::from_int(2);
    let product = fx_mul(three_halves, two);
    assert_eq!(product.raw, 3 * FX_SCALE);

    let sum = fx_add(Fx::from_int(2), Fx::from_int(-5));
    assert_eq!(sum.raw, -3 * FX_SCALE);

    let difference = fx_sub(Fx::from_int(2), Fx::from_int(-5));
    assert_eq!(difference.raw, 7 * FX_SCALE);

    let quotient = fx_div(Fx::from_int(7), Fx::from_int(2));
    assert_eq!(quotient.raw, 3 * FX_SCALE + FX_SCALE / 2);

    assert_eq!(fx_neg(Fx::from_int(4)).raw, -4 * FX_SCALE);
    assert_eq!(fx_half(Fx::from_int(5)).raw, 2 * FX_SCALE + FX_SCALE / 2);
    assert_eq!(fx_half(Fx::from_raw(-3)).raw, -1);
}

#[test]
fn fx_mul_rounds_toward_zero() {
    let tiny = Fx::from_raw(3);
    let small = Fx::from_raw(5);
    assert_eq!(fx_mul(tiny, small).raw, 0);
    assert_eq!(fx_mul(fx_neg(tiny), small).raw, 0);
}

#[test]
fn sine_and_cosine_are_exact_on_quadrant_boundaries() {
    let (s0, c0) = fx_sin_cos(Fx::from_int(0));
    assert_eq!(s0.raw, 0);
    assert_eq!(c0.raw, FX_SCALE);

    let (s90, c90) = fx_sin_cos(Fx::from_int(90));
    assert_eq!(s90.raw, FX_SCALE);
    assert_eq!(c90.raw, 0);

    let (s180, c180) = fx_sin_cos(Fx::from_int(180));
    assert_eq!(s180.raw, 0);
    assert_eq!(c180.raw, -FX_SCALE);

    let (s270, c270) = fx_sin_cos(Fx::from_int(270));
    assert_eq!(s270.raw, -FX_SCALE);
    assert_eq!(c270.raw, 0);

    let (s360, c360) = fx_sin_cos(Fx::from_int(360));
    assert_eq!(s360.raw, 0);
    assert_eq!(c360.raw, FX_SCALE);
}

#[test]
fn sine_and_cosine_track_the_real_functions() {
    let mut deg: i64 = -720;
    while deg <= 720 {
        let (s, c) = fx_sin_cos(Fx::from_int(deg));
        let radians = (deg as f64).to_radians();
        assert!((value(s) - radians.sin()).abs() < 1e-5, "sin({}) was {}", deg, value(s));
        assert!((value(c) - radians.cos()).abs() < 1e-5, "cos({}) was {}", deg, value(c));
        deg += 3;
    }
}

#[test]
fn sine_of_opposite_angles_is_opposite() {
    // At angles folded exactly onto the half-quadrant boundary the two
    // directions go through different polynomials, so the match is only
    // within rounding there; everywhere else it is exact.
    let mut deg: i64 = 0;
    while deg <= 360 {
        let (s_pos, c_pos) = fx_sin_cos(Fx::from_int(deg));
        let (s_neg, c_neg) = fx_sin_cos(Fx::from_int(-deg));
        if deg % 90 == 45 {
            assert!((s_pos.raw + s_neg.raw).abs() < 100);
            assert!((c_pos.raw - c_neg.raw).abs() < 100);
        } else {
            assert_eq!(s_pos.raw, -s_neg.raw);
            assert_eq!(c_pos.raw, c_neg.raw);
        }
        deg += 15;
    }
}

#[test]
fn fractional_angles_are_handled() {
    let half_degree = Fx::from_raw(FX_SCALE / 2);
    let (s, _c) = fx_sin_cos(half_degree);
    let expected = 0.5f64.to_radians().sin();
    assert!((value(s) - expected).abs() < 1e-5);
}
