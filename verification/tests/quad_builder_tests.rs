use demo_engine::renderer::{QuadBuilder, TextureData};
use demo_engine::{Color, Fx, FX_SCALE, Quat, Vec3};

#[test]
fn an_untouched_builder_yields_the_default_descriptor() {
    let quad = QuadBuilder::default().build();
    assert_eq!(quad.position, Vec3::zero());
    assert_eq!(quad.rotation, Quat::identity());
    assert_eq!(quad.scale, Vec3::new(Fx::one(), Fx::one(), Fx::one()));
    assert_eq!(quad.color, Color::white());
    assert!(quad.texture.is_none());
}

#[test]
fn setters_compose_fluently_and_independently() {
    let position = Vec3::new(Fx::from_int(1), Fx::from_int(2), Fx::from_int(3));
    let rotation = Quat::from_rotation_z(Fx::from_int(30));
    let scale = Vec3::new(Fx::from_int(2), Fx::from_int(2), Fx::one());
    let color = Color::red();
    let quad = QuadBuilder::default()
        .position(position)
        .rotation(rotation)
        .scale(scale)
        .color(color)
        .build();
    assert_eq!(quad.position, position);
    assert_eq!(quad.rotation, rotation);
    assert_eq!(quad.scale, scale);
    assert_eq!(quad.color, color);
    assert!(quad.texture.is_none());
}

#[test]
fn a_later_setter_overrides_an_earlier_one() {
    let quad = QuadBuilder::default()
        .color(Color::red())
        .color(Color::blue())
        .build();
    assert_eq!(quad.color, Color::blue());
}

#[test]
fn build_reverses_texture_rows_once() {
    let pixels: Vec<u8> = vec![
        10, 11, 12, 13, 20, 21, 22, 23, // row 0: two pixels
        30, 31, 32, 33, 40, 41, 42, 43, // row 1: two pixels
        50, 51, 52, 53, 60, 61, 62, 63, // row 2: two pixels
    ];
    let quad = QuadBuilder::default()
        .texture(TextureData::new(2, 3, pixels))
        .build();
    let texture = quad.texture.expect("the texture is kept");
    assert_eq!(texture.width, 2);
    assert_eq!(texture.height, 3);
    assert_eq!(
        texture.pixels,
        vec![
            50, 51, 52, 53, 60, 61, 62, 63, 30, 31, 32, 33, 40, 41, 42, 43, 10, 11, 12, 13, 20,
            21, 22, 23,
        ]
    );
}

#[test]
fn an_empty_texture_stays_empty() {
    let quad = QuadBuilder::default()
        .texture(TextureData::new(0, 0, Vec::new()))
        .build();
    let texture = quad.texture.expect("the texture is kept");
    assert_eq!(texture.width, 0);
    assert_eq!(texture.height, 0);
    assert!(texture.pixels.is_empty());
}

#[test]
fn build_does_not_consume_the_builder_state() {
    let builder = QuadBuilder::default().color(Color::black());
    let first = builder.build();
    let second = builder.build();
    assert_eq!(first.color, Color::black());
    assert_eq!(first, second);
}

#[test]
fn rotation_quaternion_for_z_axis_has_half_angle_components() {
    let quat = Quat::from_rotation_z(Fx::from_int(90));
    assert_eq!(quat.x.raw, 0);
    assert_eq!(quat.y.raw, 0);
    let z = quat.z.raw as f64 / FX_SCALE as f64;
    let w = quat.w.raw as f64 / FX_SCALE as f64;
    assert!((z - 45f64.to_radians().sin()).abs() < 1e-5);
    assert!((w - 45f64.to_radians().cos()).abs() < 1e-5);
}
