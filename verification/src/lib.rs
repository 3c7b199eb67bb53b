//! Core of a minimal immediate-mode 2D quad renderer.
//!
//! All geometry and color arithmetic is carried out in a fixed-point
//! scalar type so that every computation has an exact, provable meaning.
//! The renderer itself is a begin/clear/draw/end state machine that turns
//! each accepted call into a render command for a presentation backend.

mod color;
mod fx;
mod linalg;
pub mod renderer;
mod trig;

pub use color::Color;
pub use color::lemma_color_array_round_trip;

pub use linalg::FX_CAM_LIMIT;
pub use linalg::FX_COORD_LIMIT;
pub use linalg::FX_MAT_LIMIT;
pub use linalg::FX_PROJ_LIMIT;
pub use linalg::FX_QUAT_LIMIT;
pub use linalg::FX_SPAN_MIN;
pub use linalg::Mat4;
pub use linalg::Quat;
pub use linalg::Vec3;
pub use linalg::mat_mul;
pub use linalg::mat4_orthographic;
pub use linalg::mat4_from_scale_rotation_translation;

pub use trig::fx_sin_cos;
pub use trig::sin_fx_raw;
pub use trig::cos_fx_raw;

pub use fx::Fx;
pub use fx::fx_add;
pub use fx::fx_sub;
pub use fx::fx_neg;
pub use fx::fx_mul;
pub use fx::fx_div;
pub use fx::fx_half;
pub use fx::fx_mul_raw;
pub use fx::fx_div_raw;
pub use fx::fx_half_raw;
pub use fx::FX_SCALE;
