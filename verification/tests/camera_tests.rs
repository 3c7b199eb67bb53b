use demo_engine::renderer::OrtographicCamera;
use demo_engine::{Fx, FX_SCALE, Mat4, Vec3};

fn entry(m: &Mat4, row: usize, col: usize) -> i64 {
    m.entry(row, col).raw
}

fn entry_value(m: &Mat4, row: usize, col: usize) -> f64 {
    entry(m, row, col) as f64 / FX_SCALE as f64
}

fn unit_camera() -> OrtographicCamera {
    OrtographicCamera::new(Fx::from_int(-1), Fx::from_int(1), Fx::from_int(-1), Fx::from_int(1))
}

fn assert_identity(m: &Mat4) {
    let mut row: usize = 0;
    while row < 4 {
        let mut col: usize = 0;
        while col < 4 {
            let expected: i64 = if row == col { FX_SCALE } else { 0 };
            assert_eq!(entry(m, row, col), expected, "entry ({}, {})", row, col);
            col += 1;
        }
        row += 1;
    }
}

#[test]
fn new_camera_has_identity_view_and_projection_as_view_projection() {
    let camera = unit_camera();
    assert_identity(&camera.get_view_matrix());
    assert_eq!(camera.get_view_projection_matrix(), camera.get_projection_matrix());
    assert_eq!(camera.get_position(), Vec3::zero());
    assert_eq!(camera.get_rotation().raw, 0);
}

#[test]
fn unit_bounds_projection_is_an_axis_flip() {
    let camera = unit_camera();
    let projection = camera.get_projection_matrix();
    assert_eq!(entry(&projection, 0, 0), FX_SCALE);
    assert_eq!(entry(&projection, 1, 1), FX_SCALE);
    assert_eq!(entry(&projection, 2, 2), -FX_SCALE);
    assert_eq!(entry(&projection, 3, 3), FX_SCALE);
    assert_eq!(entry(&projection, 0, 3), 0);
    assert_eq!(entry(&projection, 1, 3), 0);
    assert_eq!(entry(&projection, 2, 3), 0);
}

#[test]
fn wider_bounds_scale_and_translate() {
    let camera = OrtographicCamera::new(
        Fx::from_int(0),
        Fx::from_int(4),
        Fx::from_int(-2),
        Fx::from_int(2),
    );
    let projection = camera.get_projection_matrix();
    // 2 / (right - left) = 1/2 and -(right + left) / (right - left) = -1.
    assert_eq!(entry(&projection, 0, 0), FX_SCALE / 2);
    assert_eq!(entry(&projection, 0, 3), -FX_SCALE);
    // 2 / (top - bottom) = 1/2 and -(top + bottom) / (top - bottom) = 0.
    assert_eq!(entry(&projection, 1, 1), FX_SCALE / 2);
    assert_eq!(entry(&projection, 1, 3), 0);
}

#[test]
fn set_position_yields_inverse_translation_view() {
    let mut camera = unit_camera();
    camera.set_position(Vec3::new(Fx::from_int(1), Fx::from_int(2), Fx::from_int(3)));
    let view = camera.get_view_matrix();
    assert_eq!(entry(&view, 0, 3), -FX_SCALE);
    assert_eq!(entry(&view, 1, 3), -2 * FX_SCALE);
    assert_eq!(entry(&view, 2, 3), -3 * FX_SCALE);
    assert_eq!(entry(&view, 0, 0), FX_SCALE);
    assert_eq!(entry(&view, 1, 1), FX_SCALE);
    assert_eq!(entry(&view, 2, 2), FX_SCALE);
}

#[test]
fn set_rotation_yields_inverse_rotation_view() {
    let mut camera = unit_camera();
    camera.set_rotation(Fx::from_int(45));
    let view = camera.get_view_matrix();
    let c = std::f64::consts::FRAC_PI_4.cos();
    let s = std::f64::consts::FRAC_PI_4.sin();
    // The view is the rotation by -45 degrees.
    assert!((entry_value(&view, 0, 0) - c).abs() < 1e-5);
    assert!((entry_value(&view, 0, 1) - s).abs() < 1e-5);
    assert!((entry_value(&view, 1, 0) - (-s)).abs() < 1e-5);
    assert!((entry_value(&view, 1, 1) - c).abs() < 1e-5);
    assert_eq!(camera.get_rotation().raw, 45 * FX_SCALE);
}

#[test]
fn matrices_depend_only_on_final_state_not_on_update_order() {
    let position = Vec3::new(Fx::from_int(5), Fx::from_int(-7), Fx::from_int(2));
    let rotation = Fx::from_raw(30 * FX_SCALE + 12345);

    let mut position_first = unit_camera();
    position_first.set_position(position);
    position_first.set_rotation(rotation);

    let mut rotation_first = unit_camera();
    rotation_first.set_rotation(rotation);
    rotation_first.set_position(position);

    assert_eq!(position_first.get_view_matrix(), rotation_first.get_view_matrix());
    assert_eq!(
        position_first.get_view_projection_matrix(),
        rotation_first.get_view_projection_matrix()
    );
}

#[test]
fn mutators_keep_view_projection_consistent() {
    let mut camera = unit_camera();
    camera.set_rotation(Fx::from_int(90));
    // With unit bounds the projection flips the z axis only, so the
    // view-projection equals the view with its third row negated.
    let view = camera.get_view_matrix();
    let vp = camera.get_view_projection_matrix();
    let mut col: usize = 0;
    while col < 4 {
        assert_eq!(entry(&vp, 0, col), entry(&view, 0, col));
        assert_eq!(entry(&vp, 1, col), entry(&view, 1, col));
        assert_eq!(entry(&vp, 2, col), -entry(&view, 2, col));
        assert_eq!(entry(&vp, 3, col), entry(&view, 3, col));
        col += 1;
    }
}
