//! The rendering layer: quad geometry, the orthographic camera, the quad
//! builder and the frame state machine.

mod ortographic_camera;
mod renderer2d;
mod vertex;

pub use ortographic_camera::FX_ANGLE_LIMIT;
pub use ortographic_camera::OrtographicCamera;
pub use ortographic_camera::lemma_camera_matrices_path_independent;
pub use ortographic_camera::view_raw;
pub use renderer2d::DrawCall;
pub use renderer2d::ProgramKind;
pub use renderer2d::Quad;
pub use renderer2d::QuadBuilder;
pub use renderer2d::RenderCommand;
pub use renderer2d::RenderError;
pub use renderer2d::Renderer;
pub use renderer2d::Renderer2D;
pub use renderer2d::TextureData;
pub use renderer2d::flip_rows_seq;
pub use renderer2d::lemma_unit_quad_transform_is_identity;
pub use renderer2d::opt_tex_eq;
pub use renderer2d::opt_tex_wf;
pub use renderer2d::zero_scale;
pub use vertex::FX_HALF;
pub use vertex::Vertex;
pub use vertex::quad_indices;
pub use vertex::quad_indices_spec;
pub use vertex::quad_vertices;
pub use vertex::quad_vertices_spec;
