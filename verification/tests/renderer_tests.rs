use demo_engine::renderer::{
    OrtographicCamera, ProgramKind, QuadBuilder, RenderCommand, RenderError, Renderer,
    Renderer2D, TextureData,
};
use demo_engine::{Color, Fx, FX_SCALE, Mat4, Quat, Vec3};

fn unit_camera() -> OrtographicCamera {
    OrtographicCamera::new(Fx::from_int(-1), Fx::from_int(1), Fx::from_int(-1), Fx::from_int(1))
}

fn assert_identity(m: &Mat4) {
    let mut row: usize = 0;
    while row < 4 {
        let mut col: usize = 0;
        while col < 4 {
            let expected: i64 = if row == col { FX_SCALE } else { 0 };
            assert_eq!(m.entry(row, col).raw, expected, "entry ({}, {})", row, col);
            col += 1;
        }
        row += 1;
    }
}

#[test]
fn renderer_owns_the_static_unit_quad_geometry() {
    let renderer = Renderer2D::new();
    assert!(!renderer.recording);
    assert_eq!(renderer.quad_indices, [0u16, 1, 3, 1, 2, 3]);
    let half: i64 = FX_SCALE / 2;
    let expected: [((i64, i64), (i64, i64)); 4] = [
        ((half, half), (FX_SCALE, FX_SCALE)),
        ((half, -half), (FX_SCALE, 0)),
        ((-half, -half), (0, 0)),
        ((-half, half), (0, FX_SCALE)),
    ];
    let mut i: usize = 0;
    while i < 4 {
        let vertex = renderer.quad_vertices[i];
        assert_eq!(vertex.position.0.raw, expected[i].0.0);
        assert_eq!(vertex.position.1.raw, expected[i].0.1);
        assert_eq!(vertex.texture_coordinates.0.raw, expected[i].1.0);
        assert_eq!(vertex.texture_coordinates.1.raw, expected[i].1.1);
        i += 1;
    }
}

#[test]
fn calls_without_an_open_frame_fail_fast() {
    let mut renderer = Renderer2D::new();
    let quad = QuadBuilder::default().build();
    assert_eq!(renderer.clear(Color::black()), Err(RenderError::NotRecording));
    assert_eq!(renderer.draw_quad(&quad), Err(RenderError::NotRecording));
    assert_eq!(renderer.end_rendering(), Err(RenderError::NotRecording));
    assert!(!renderer.recording);
}

#[test]
fn beginning_twice_fails_fast() {
    let camera = unit_camera();
    let mut renderer = Renderer2D::new();
    assert_eq!(renderer.begin_rendering(&camera), Ok(RenderCommand::BeginFrame));
    assert_eq!(renderer.begin_rendering(&camera), Err(RenderError::AlreadyRecording));
    assert!(renderer.recording);
}

#[test]
fn an_empty_frame_still_presents() {
    let camera = unit_camera();
    let mut renderer = Renderer2D::new();
    assert_eq!(renderer.begin_rendering(&camera), Ok(RenderCommand::BeginFrame));
    assert_eq!(renderer.end_rendering(), Ok(RenderCommand::Present));
    assert!(!renderer.recording);
    // The protocol can start over for the next frame.
    assert_eq!(renderer.begin_rendering(&camera), Ok(RenderCommand::BeginFrame));
    assert_eq!(renderer.end_rendering(), Ok(RenderCommand::Present));
}

#[test]
fn end_to_end_frame_issues_one_color_only_draw_with_identity_transform() {
    let camera = unit_camera();
    let mut renderer = Renderer2D::new();
    assert_eq!(renderer.begin_rendering(&camera), Ok(RenderCommand::BeginFrame));

    let gray = Fx::from_raw((3 * FX_SCALE) / 10);
    let clear_command = renderer.clear(Color::from_rgba(gray, gray, gray, Fx::one()));
    assert_eq!(
        clear_command,
        Ok(RenderCommand::Clear(Color::from_rgba(gray, gray, gray, Fx::one())))
    );

    let quad = QuadBuilder::default()
        .position(Vec3::zero())
        .scale(Vec3::new(Fx::one(), Fx::one(), Fx::one()))
        .color(Color::from_rgba(Fx::zero(), Fx::one(), Fx::zero(), Fx::one()))
        .build();
    let draw = renderer.draw_quad(&quad);
    match draw {
        Ok(RenderCommand::Draw(dc)) => {
            assert_eq!(dc.program, ProgramKind::ColorOnly);
            assert!(dc.texture.is_none());
            assert_eq!(dc.color.r().raw, 0);
            assert_eq!(dc.color.g().raw, FX_SCALE);
            assert_eq!(dc.color.b().raw, 0);
            assert_eq!(dc.color.a().raw, FX_SCALE);
            assert_identity(&dc.transform);
            assert_eq!(dc.view_projection, camera.get_view_projection_matrix());
        }
        other => panic!("expected a draw command, got {:?}", other),
    }

    assert_eq!(renderer.end_rendering(), Ok(RenderCommand::Present));
}

#[test]
fn a_45_degree_rotation_gives_the_rotation_block() {
    let camera = unit_camera();
    let mut renderer = Renderer2D::new();
    renderer.begin_rendering(&camera).unwrap();
    let quad = QuadBuilder::default()
        .rotation(Quat::from_rotation_z(Fx::from_int(45)))
        .build();
    let draw = renderer.draw_quad(&quad).unwrap();
    let dc = match draw {
        RenderCommand::Draw(dc) => dc,
        other => panic!("expected a draw command, got {:?}", other),
    };
    let c = std::f64::consts::FRAC_PI_4.cos();
    let s = std::f64::consts::FRAC_PI_4.sin();
    let value = |row: usize, col: usize| dc.transform.entry(row, col).raw as f64 / FX_SCALE as f64;
    assert!((value(0, 0) - c).abs() < 1e-5);
    assert!((value(0, 1) - (-s)).abs() < 1e-5);
    assert!((value(1, 0) - s).abs() < 1e-5);
    assert!((value(1, 1) - c).abs() < 1e-5);
}

#[test]
fn the_frame_uses_the_view_projection_snapshotted_at_begin() {
    let mut camera = unit_camera();
    let mut renderer = Renderer2D::new();
    renderer.begin_rendering(&camera).unwrap();
    let snapshot = camera.get_view_projection_matrix();
    camera.set_position(Vec3::new(Fx::from_int(9), Fx::zero(), Fx::zero()));
    assert_ne!(camera.get_view_projection_matrix(), snapshot);
    let quad = QuadBuilder::default().build();
    match renderer.draw_quad(&quad).unwrap() {
        RenderCommand::Draw(dc) => assert_eq!(dc.view_projection, snapshot),
        other => panic!("expected a draw command, got {:?}", other),
    }
}

#[test]
fn an_all_zero_scale_is_a_caller_error() {
    let camera = unit_camera();
    let mut renderer = Renderer2D::new();
    renderer.begin_rendering(&camera).unwrap();
    let quad = QuadBuilder::default()
        .scale(Vec3::new(Fx::zero(), Fx::zero(), Fx::zero()))
        .build();
    assert_eq!(renderer.draw_quad(&quad), Err(RenderError::DegenerateScale));
    // The frame stays open and a sane quad still draws.
    let good = QuadBuilder::default().build();
    assert!(renderer.draw_quad(&good).is_ok());
}

#[test]
fn a_textured_quad_selects_the_texture_program() {
    let camera = unit_camera();
    let mut renderer = Renderer2D::new();
    renderer.begin_rendering(&camera).unwrap();
    let pixels: Vec<u8> = vec![1, 2, 3, 4, 5, 6, 7, 8];
    let quad = QuadBuilder::default()
        .texture(TextureData::new(1, 2, pixels))
        .build();
    match renderer.draw_quad(&quad).unwrap() {
        RenderCommand::Draw(dc) => {
            assert_eq!(dc.program, ProgramKind::ColorAndTexture);
            let texture = dc.texture.expect("the draw call carries the texture");
            assert_eq!(texture.width, 1);
            assert_eq!(texture.height, 2);
            // Rows come out bottom-up, ready for the GL convention.
            assert_eq!(texture.pixels, vec![5, 6, 7, 8, 1, 2, 3, 4]);
        }
        other => panic!("expected a draw command, got {:?}", other),
    }
}
