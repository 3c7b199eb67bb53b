use demo_engine::{Color, Fx, FX_SCALE};

fn fx(raw: i64) -> Fx {
    Fx::from_raw(raw)
}

#[test]
fn color_constants_have_the_documented_components() {
    let red = Color::red();
    assert_eq!(red.r().raw, FX_SCALE);
    assert_eq!(red.g().raw, 0);
    assert_eq!(red.b().raw, 0);
    assert_eq!(red.a().raw, FX_SCALE);

    let green = Color::green();
    assert_eq!(green.r().raw, 0);
    assert_eq!(green.g().raw, FX_SCALE);
    assert_eq!(green.b().raw, 0);
    assert_eq!(green.a().raw, FX_SCALE);

    let blue = Color::blue();
    assert_eq!(blue.r().raw, 0);
    assert_eq!(blue.g().raw, 0);
    assert_eq!(blue.b().raw, FX_SCALE);
    assert_eq!(blue.a().raw, 0);

    let white = Color::white();
    assert_eq!(white.r().raw, FX_SCALE);
    assert_eq!(white.g().raw, FX_SCALE);
    assert_eq!(white.b().raw, FX_SCALE);
    assert_eq!(white.a().raw, FX_SCALE);

    let black = Color::black();
    assert_eq!(black.r().raw, 0);
    assert_eq!(black.g().raw, 0);
    assert_eq!(black.b().raw, 0);
    assert_eq!(black.a().raw, FX_SCALE);
}

#[test]
fn color_default_is_white() {
    assert_eq!(Color::default(), Color::white());
}

#[test]
fn color_array4_round_trip_is_bit_for_bit() {
    let original: [Fx; 4] = [fx(1), fx(-77), fx(FX_SCALE), fx(i64::MAX)];
    let color = Color::from_array4(original);
    let back = color.to_array4();
    assert_eq!(back[0].raw, original[0].raw);
    assert_eq!(back[1].raw, original[1].raw);
    assert_eq!(back[2].raw, original[2].raw);
    assert_eq!(back[3].raw, original[3].raw);
}

#[test]
fn color_array3_sets_full_alpha() {
    let color = Color::from_array3([fx(10), fx(20), fx(30)]);
    assert_eq!(color.r().raw, 10);
    assert_eq!(color.g().raw, 20);
    assert_eq!(color.b().raw, 30);
    assert_eq!(color.a().raw, FX_SCALE);
    let rgb = color.to_array3();
    assert_eq!(rgb[0].raw, 10);
    assert_eq!(rgb[1].raw, 20);
    assert_eq!(rgb[2].raw, 30);
}

#[test]
fn color_tuple_conversions_return_the_components() {
    let color = Color::from_rgba(fx(1), fx(2), fx(3), fx(4));
    let (r, g, b) = color.to_tuple3();
    assert_eq!((r.raw, g.raw, b.raw), (1, 2, 3));
    let (r4, g4, b4, a4) = color.to_tuple4();
    assert_eq!((r4.raw, g4.raw, b4.raw, a4.raw), (1, 2, 3, 4));
}

#[test]
fn color_from_gray_and_rgb_are_opaque() {
    let gray = Color::from_gray(fx(1234));
    assert_eq!(gray.r().raw, 1234);
    assert_eq!(gray.g().raw, 1234);
    assert_eq!(gray.b().raw, 1234);
    assert_eq!(gray.a().raw, FX_SCALE);

    let rgb = Color::from_rgb(fx(1), fx(2), fx(3));
    assert_eq!(rgb.a().raw, FX_SCALE);

    let rgba = Color::from_rgba(fx(1), fx(2), fx(3), fx(4));
    assert_eq!(rgba.a().raw, 4);
}
