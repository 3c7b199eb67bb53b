//! Quad descriptors, the quad builder and the frame state machine.
//!
//! The renderer accepts calls only in the begin -> (clear | draw)* -> end
//! order; a call out of order returns a distinguished unrecoverable
//! error and leaves the renderer unchanged.  Every accepted call yields
//! a render command holding everything a presentation backend needs:
//! the snapshot of the camera's view-projection matrix, the per-quad
//! model transform, the quad color, the shader program selected by
//! texture presence, and the texture bytes already stored bottom-up.

use crate::color::Color;
use crate::fx::FX_SCALE;
use crate::linalg::{FX_COORD_LIMIT, FX_QUAT_LIMIT, Mat4, Quat, Vec3, ident_raw, lemma_fx_mul_one,
    lemma_fx_mul_zero, mat4_from_scale_rotation_translation, mraw, srt_raw};
use crate::renderer::ortographic_camera::OrtographicCamera;
use crate::renderer::vertex::{Vertex, quad_indices, quad_indices_spec, quad_vertices,
    quad_vertices_spec};
use vstd::arithmetic::div_mod::lemma_fundamental_div_mod_converse;
use vstd::prelude::*;

verus! {

/// An image held as plain values: dimensions and RGBA bytes, four bytes
/// per pixel, rows stored top-down unless said otherwise.
#[derive(Debug, PartialEq, Eq)]
pub struct TextureData {
    pub width: u32,
    pub height: u32,
    pub pixels: Vec<u8>,
}

impl TextureData {
    /// The byte buffer holds exactly `4 * width * height` bytes, and a
    /// row of bytes fits the machine's address space.
    pub open spec fn wf(&self) -> bool {
        &&& self.pixels@.len() == 4 * self.width * self.height
        &&& 4 * self.width <= usize::MAX
    }

    /// A texture from its dimensions and RGBA bytes.
    pub fn new(width: u32, height: u32, pixels: Vec<u8>) -> (t: TextureData)
        requires
            pixels@.len() == 4 * width * height,
            4 * width <= usize::MAX,
        ensures
            t.width == width,
            t.height == height,
            t.pixels@ == pixels@,
            t.wf(),
    {
        TextureData { width, height, pixels }
    }
}

/// Both sides are absent, or both are present with equal dimensions and
/// equal bytes.
pub open spec fn opt_tex_eq(a: Option<TextureData>, b: Option<TextureData>) -> bool {
    match (a, b) {
        (Option::None, Option::None) => true,
        (Option::Some(x), Option::Some(y)) => x.width == y.width && x.height == y.height
            && x.pixels@ == y.pixels@,
        _ => false,
    }
}

/// An absent texture, or a present well-formed one.
pub open spec fn opt_tex_wf(t: Option<TextureData>) -> bool {
    match t {
        Option::None => true,
        Option::Some(td) => td.wf(),
    }
}

/// The pixel rows of `p` in reverse order, `stride` bytes per row.
pub open spec fn flip_rows_seq(p: Seq<u8>, stride: int, h: int) -> Seq<u8> {
    Seq::new(p.len(), |j: int| p[(h - 1 - j / stride) * stride + j % stride])
}

/// A copy of a byte vector.
fn clone_bytes(src: &Vec<u8>) -> (out: Vec<u8>)
    ensures
        out@ == src@,
{
    let mut out: Vec<u8> = Vec::new();
    let mut i: usize = 0;
    while i < src.len()
        invariant
            i <= src@.len(),
            out@.len() == i,
            forall|j: int| 0 <= j < i ==> out@[j] == src@[j],
        decreases src@.len() - i,
    {
        out.push(src[i]);
        i = i + 1;
    }
    proof {
        assert(out@ =~= src@);
    }
    out
}

/// The same bytes with the pixel rows in reverse order, so that an
/// image stored top-down comes out bottom-up.
fn flip_rows(pixels: &Vec<u8>, width: u32, height: u32) -> (out: Vec<u8>)
    requires
        pixels@.len() == 4 * width * height,
        4 * width <= usize::MAX,
    ensures
        out@ == flip_rows_seq(pixels@, 4 * width as int, height as int),
{
    let stride: usize = 4 * (width as usize);
    let n: usize = pixels.len();
    let mut out: Vec<u8> = Vec::new();
    let mut row: usize = 0;
    while row < height as usize
        invariant
            stride == 4 * width,
            pixels@.len() == 4 * width * height,
            pixels@.len() == n,
            4 * width <= usize::MAX,
            row <= height,
            out@.len() == row * stride,
            forall|j: int| 0 <= j < out@.len() ==> out@[j] == pixels@[(height - 1 - j / (stride as int)) * (stride as int) + j % (stride as int)],
        decreases height - row,
    {
        let src_row: usize = height as usize - 1 - row;
        proof {
            assert(src_row as int * stride as int + stride as int <= pixels@.len())
                by (nonlinear_arith)
                requires
                    src_row as int == height as int - 1 - row as int,
                    0 <= row as int,
                    (row as int) < (height as int),
                    0 <= stride as int,
                    pixels@.len() == (4 * width as int) * height as int,
                    stride as int == 4 * width as int,
            ;
            assert(row as int * stride as int + stride as int <= height as int * stride as int)
                by (nonlinear_arith)
                requires
                    0 <= row as int,
                    (row as int) < (height as int),
                    0 <= stride as int,
            ;
            assert(height as int * stride as int == pixels@.len()) by (nonlinear_arith)
                requires
                    pixels@.len() == (4 * width as int) * height as int,
                    stride as int == 4 * width as int,
            ;
        }
        let base: usize = src_row * stride;
        let mut i: usize = 0;
        while i < stride
            invariant
                stride == 4 * width,
                pixels@.len() == 4 * width * height,
                pixels@.len() == n,
                row < height,
                src_row as int == height as int - 1 - row as int,
                base as int == src_row as int * stride as int,
                base as int + stride as int <= pixels@.len(),
                row as int * stride as int + stride as int <= pixels@.len(),
                i <= stride,
                out@.len() == row * stride + i,
                forall|j: int| 0 <= j < out@.len() ==> out@[j] == pixels@[(height - 1 - j / (stride as int)) * (stride as int) + j % (stride as int)],
            decreases stride - i,
        {
            let b: u8 = pixels[base + i];
            out.push(b);
            proof {
                let j0 = row as int * stride as int + i as int;
                lemma_fundamental_div_mod_converse(j0, stride as int, row as int, i as int);
            }
            i = i + 1;
        }
        proof {
            assert((row as int + 1) * stride as int == row as int * stride as int
                + stride as int) by (nonlinear_arith);
        }
        row = row + 1;
    }
    proof {
        assert(height as int * stride as int == pixels@.len()) by (nonlinear_arith)
            requires
                pixels@.len() == (4 * width as int) * height as int,
                stride as int == 4 * width as int,
        ;
        assert(out@ =~= flip_rows_seq(pixels@, 4 * width as int, height as int));
    }
    out
}

/// The fully resolved parameters of one draw call.
#[derive(Debug, PartialEq, Eq)]
pub struct Quad {
    pub position: Vec3,
    pub rotation: Quat,
    pub scale: Vec3,
    pub color: Color,
    pub texture: Option<TextureData>,
}

impl Quad {
    /// Bounded components and a well-formed texture, if any.
    pub open spec fn wf(&self) -> bool {
        &&& self.position.bounded(FX_COORD_LIMIT as int)
        &&& self.scale.bounded(FX_COORD_LIMIT as int)
        &&& self.rotation.bounded(FX_QUAT_LIMIT as int)
        &&& opt_tex_wf(self.texture)
    }
}

/// A fluent builder accumulating the parameters of one quad.
#[derive(Debug, PartialEq, Eq)]
pub struct QuadBuilder {
    pub position: Vec3,
    pub rotation: Quat,
    pub scale: Vec3,
    pub color: Color,
    pub texture: Option<TextureData>,
}

impl QuadBuilder {
    /// Bounded components and a well-formed texture, if any.
    pub open spec fn wf(&self) -> bool {
        &&& self.position.bounded(FX_COORD_LIMIT as int)
        &&& self.scale.bounded(FX_COORD_LIMIT as int)
        &&& self.rotation.bounded(FX_QUAT_LIMIT as int)
        &&& opt_tex_wf(self.texture)
    }

    /// Sets the position.
    pub fn position(self, position: Vec3) -> (r: QuadBuilder)
        requires
            position.bounded(FX_COORD_LIMIT as int),
        ensures
            r.position == position,
            r.rotation == self.rotation,
            r.scale == self.scale,
            r.color == self.color,
            r.texture == self.texture,
    {
        QuadBuilder { position, ..self }
    }

    /// Sets the orientation.
    pub fn rotation(self, rotation: Quat) -> (r: QuadBuilder)
        requires
            rotation.bounded(FX_QUAT_LIMIT as int),
        ensures
            r.rotation == rotation,
            r.position == self.position,
            r.scale == self.scale,
            r.color == self.color,
            r.texture == self.texture,
    {
        QuadBuilder { rotation, ..self }
    }

    /// Sets the scale.
    pub fn scale(self, scale: Vec3) -> (r: QuadBuilder)
        requires
            scale.bounded(FX_COORD_LIMIT as int),
        ensures
            r.scale == scale,
            r.position == self.position,
            r.rotation == self.rotation,
            r.color == self.color,
            r.texture == self.texture,
    {
        QuadBuilder { scale, ..self }
    }

    /// Sets the color.
    pub fn color(self, color: Color) -> (r: QuadBuilder)
        ensures
            r.color == color,
            r.position == self.position,
            r.rotation == self.rotation,
            r.scale == self.scale,
            r.texture == self.texture,
    {
        QuadBuilder { color, ..self }
    }

    /// Attaches a texture.
    pub fn texture(self, texture: TextureData) -> (r: QuadBuilder)
        requires
            texture.wf(),
        ensures
            r.texture == Some(texture),
            r.position == self.position,
            r.rotation == self.rotation,
            r.scale == self.scale,
            r.color == self.color,
    {
        QuadBuilder { texture: Some(texture), ..self }
    }

    /// Materializes the descriptor.  A texture source is resolved now:
    /// its rows are reversed into the bottom-up order the presentation
    /// backend expects, once per build.
    pub fn build(&self) -> (q: Quad)
        requires
            self.wf(),
        ensures
            q.wf(),
            q.position == self.position,
            q.rotation == self.rotation,
            q.scale == self.scale,
            q.color == self.color,
            self.texture is None ==> q.texture is None,
            (match (self.texture, q.texture) {
                (Option::Some(td), Option::Some(qd)) => qd.width == td.width && qd.height
                    == td.height && qd.pixels@ == flip_rows_seq(td.pixels@, 4 * td.width as int,
                    td.height as int),
                (Option::None, Option::None) => true,
                _ => false,
            }),
    {
        let texture: Option<TextureData> = match &self.texture {
            Option::Some(td) => {
                let flipped = flip_rows(&td.pixels, td.width, td.height);
                Option::Some(TextureData { width: td.width, height: td.height, pixels: flipped })
            },
            Option::None => Option::None,
        };
        Quad {
            position: self.position,
            rotation: self.rotation,
            scale: self.scale,
            color: self.color,
            texture,
        }
    }
}

impl Default for QuadBuilder {
    /// A builder with no setters invoked: position at the origin, the
    /// identity orientation, unit scale, opaque white, no texture.
    fn default() -> (b: QuadBuilder)
        ensures
            b.position.x.raw == 0,
            b.position.y.raw == 0,
            b.position.z.raw == 0,
            b.rotation.x.raw == 0,
            b.rotation.y.raw == 0,
            b.rotation.z.raw == 0,
            b.rotation.w.raw == FX_SCALE,
            b.scale.x.raw == FX_SCALE,
            b.scale.y.raw == FX_SCALE,
            b.scale.z.raw == FX_SCALE,
            b.color == (Color(
                crate::fx::Fx { raw: FX_SCALE },
                crate::fx::Fx { raw: FX_SCALE },
                crate::fx::Fx { raw: FX_SCALE },
                crate::fx::Fx { raw: FX_SCALE },
            )),
            b.texture is None,
            b.wf(),
    {
        let zero = crate::fx::Fx { raw: 0 };
        let one = crate::fx::Fx { raw: FX_SCALE };
        QuadBuilder {
            position: Vec3 { x: zero, y: zero, z: zero },
            rotation: Quat { x: zero, y: zero, z: zero, w: one },
            scale: Vec3 { x: one, y: one, z: one },
            color: Color::white(),
            texture: Option::None,
        }
    }
}

/// The distinguished unrecoverable errors of the frame protocol.
#[derive(Clone, Copy, Debug, PartialEq, Eq, Structural)]
pub enum RenderError {
    /// `begin_rendering` was called while a frame was already open.
    AlreadyRecording,
    /// `clear`, `draw_quad` or `end_rendering` was called with no open
    /// frame.
    NotRecording,
    /// A quad was drawn with scale zero in every component.
    DegenerateScale,
}

/// The shader program a draw call runs with.
#[derive(Clone, Copy, Debug, PartialEq, Eq, Structural)]
pub enum ProgramKind {
    /// Color only, for quads without a texture.
    ColorOnly,
    /// Color and texture, sampled nearest-neighbor both ways.
    ColorAndTexture,
}

/// Everything the presentation backend needs for one indexed draw of
/// the quad: the uniforms and the selected program.
#[derive(Debug, PartialEq, Eq)]
pub struct DrawCall {
    pub view_projection: Mat4,
    pub transform: Mat4,
    pub color: Color,
    pub texture: Option<TextureData>,
    pub program: ProgramKind,
}

/// One accepted renderer call, for the presentation backend to perform.
#[derive(Debug, PartialEq, Eq)]
pub enum RenderCommand {
    /// Open a frame on the presentation surface.
    BeginFrame,
    /// Fill the open frame's background with the color.
    Clear(Color),
    /// Issue one indexed draw of the unit quad.
    Draw(DrawCall),
    /// Finalize and present the open frame.
    Present,
}

/// The scale is zero in every component.
pub open spec fn zero_scale(s: Vec3) -> bool {
    s.x.raw == 0 && s.y.raw == 0 && s.z.raw == 0
}

/// The frame state machine.  `recording` is true exactly while a frame
/// is open; the camera's view-projection matrix is snapshotted when the
/// frame opens and used by every draw of that frame.
pub struct Renderer2D {
    pub quad_vertices: [Vertex; 4],
    pub quad_indices: [u16; 6],
    pub recording: bool,
    pub view_projection_matrix: Mat4,
}

impl Renderer2D {
    /// A renderer with the static unit-quad geometry and no open frame.
    pub fn new() -> (r: Renderer2D)
        ensures
            !r.recording,
            r.quad_vertices@ == quad_vertices_spec(),
            r.quad_indices@ == quad_indices_spec(),
            mraw(r.view_projection_matrix) == crate::linalg::zero_raw(),
    {
        Renderer2D {
            quad_vertices: quad_vertices(),
            quad_indices: quad_indices(),
            recording: false,
            view_projection_matrix: Mat4::zero(),
        }
    }
}

/// The frame protocol a 2D renderer obeys: begin, then any number of
/// clears and draws, then end.  A call out of order returns a
/// distinguished unrecoverable error and changes nothing.
pub trait Renderer: Sized {
    /// A frame is open.
    spec fn is_recording(&self) -> bool;

    /// The view-projection matrix snapshotted when the frame opened.
    spec fn frame_view_projection(&self) -> Mat4;

    /// Opens a frame and snapshots the camera's view-projection matrix.
    /// Fails with `AlreadyRecording`, changing nothing, exactly when a
    /// frame is already open.
    fn begin_rendering(&mut self, camera: &OrtographicCamera) -> (res: Result<
        RenderCommand,
        RenderError,
    >)
        ensures
            old(self).is_recording() ==> res == Err::<RenderCommand, RenderError>(
                RenderError::AlreadyRecording,
            ) && *final(self) == *old(self),
            !old(self).is_recording() ==> {
                &&& res == Ok::<RenderCommand, RenderError>(RenderCommand::BeginFrame)
                &&& final(self).is_recording()
                &&& final(self).frame_view_projection() == camera.view_projection_matrix
            },
    ;

    /// Sets the open frame's background color.  Fails with
    /// `NotRecording`, changing nothing, exactly when no frame is open.
    fn clear(&mut self, color: Color) -> (res: Result<RenderCommand, RenderError>)
        ensures
            *final(self) == *old(self),
            !old(self).is_recording() ==> res == Err::<RenderCommand, RenderError>(
                RenderError::NotRecording,
            ),
            old(self).is_recording() ==> res == Ok::<RenderCommand, RenderError>(
                RenderCommand::Clear(color),
            ),
    ;

    /// Issues one draw of the quad: the model transform composes scale,
    /// then rotation, then translation; the program is color-and-texture
    /// exactly when a texture is attached.  Fails with `NotRecording`
    /// when no frame is open and with `DegenerateScale` on an all-zero
    /// scale, changing nothing in every case.
    fn draw_quad(&mut self, quad: &Quad) -> (res: Result<RenderCommand, RenderError>)
        requires
            quad.wf(),
        ensures
            *final(self) == *old(self),
            !old(self).is_recording() ==> res == Err::<RenderCommand, RenderError>(
                RenderError::NotRecording,
            ),
            old(self).is_recording() && zero_scale(quad.scale) ==> res == Err::<
                RenderCommand,
                RenderError,
            >(RenderError::DegenerateScale),
            old(self).is_recording() && !zero_scale(quad.scale) ==> (match res {
                Result::Ok(RenderCommand::Draw(dc)) => {
                    &&& dc.view_projection == old(self).frame_view_projection()
                    &&& mraw(dc.transform) == srt_raw(quad.scale, quad.rotation, quad.position)
                    &&& dc.color == quad.color
                    &&& opt_tex_eq(dc.texture, quad.texture)
                    &&& (dc.program == ProgramKind::ColorAndTexture <==> quad.texture is Some)
                },
                _ => false,
            }),
    ;

    /// Closes the open frame for presentation.  Fails with
    /// `NotRecording`, changing nothing, exactly when no frame is open.
    fn end_rendering(&mut self) -> (res: Result<RenderCommand, RenderError>)
        ensures
            !old(self).is_recording() ==> res == Err::<RenderCommand, RenderError>(
                RenderError::NotRecording,
            ) && *final(self) == *old(self),
            old(self).is_recording() ==> res == Ok::<RenderCommand, RenderError>(
                RenderCommand::Present,
            ) && !final(self).is_recording(),
    ;
}

impl Renderer for Renderer2D {
    /// A frame is open exactly while `recording` is set.
    open spec fn is_recording(&self) -> bool {
        self.recording
    }

    /// The stored snapshot.
    open spec fn frame_view_projection(&self) -> Mat4 {
        self.view_projection_matrix
    }

    /// Opens the frame in the stored flag and copies the camera's
    /// matrix; the static quad geometry is untouched.
    fn begin_rendering(&mut self, camera: &OrtographicCamera) -> (res: Result<
        RenderCommand,
        RenderError,
    >)
        ensures
            final(self).quad_vertices == old(self).quad_vertices,
            final(self).quad_indices == old(self).quad_indices,
    {
        if self.recording {
            Err(RenderError::AlreadyRecording)
        } else {
            self.recording = true;
            self.view_projection_matrix = camera.get_view_projection_matrix();
            Ok(RenderCommand::BeginFrame)
        }
    }

    /// Answers from the stored flag alone and never writes it.
    fn clear(&mut self, color: Color) -> (res: Result<RenderCommand, RenderError>) {
        if self.recording {
            Ok(RenderCommand::Clear(color))
        } else {
            Err(RenderError::NotRecording)
        }
    }

    /// Builds the draw call from the stored snapshot and the quad; the
    /// texture bytes are copied into the command unchanged.
    fn draw_quad(&mut self, quad: &Quad) -> (res: Result<RenderCommand, RenderError>) {
        if !self.recording {
            return Err(RenderError::NotRecording);
        }
        if quad.scale.x.raw == 0 && quad.scale.y.raw == 0 && quad.scale.z.raw == 0 {
            return Err(RenderError::DegenerateScale);
        }
        let transform = mat4_from_scale_rotation_translation(quad.scale, quad.rotation,
            quad.position);
        let (texture, program): (Option<TextureData>, ProgramKind) = match &quad.texture {
            Option::Some(td) => {
                let px = clone_bytes(&td.pixels);
                (
                    Option::Some(TextureData { width: td.width, height: td.height, pixels: px }),
                    ProgramKind::ColorAndTexture,
                )
            },
            Option::None => (Option::None, ProgramKind::ColorOnly),
        };
        Ok(RenderCommand::Draw(DrawCall {
            view_projection: self.view_projection_matrix,
            transform,
            color: quad.color,
            texture,
            program,
        }))
    }

    /// Clears the flag; the geometry and the snapshot are untouched.
    fn end_rendering(&mut self) -> (res: Result<RenderCommand, RenderError>)
        ensures
            final(self).quad_vertices == old(self).quad_vertices,
            final(self).quad_indices == old(self).quad_indices,
            final(self).view_projection_matrix == old(self).view_projection_matrix,
    {
        if self.recording {
            self.recording = false;
            Ok(RenderCommand::Present)
        } else {
            Err(RenderError::NotRecording)
        }
    }
}

/// With unit scale, the identity orientation and the origin position,
/// the model transform is exactly the identity matrix.
pub proof fn lemma_unit_quad_transform_is_identity(scale: Vec3, rotation: Quat, position: Vec3)
    requires
        scale.x.raw == FX_SCALE,
        scale.y.raw == FX_SCALE,
        scale.z.raw == FX_SCALE,
        rotation.x.raw == 0,
        rotation.y.raw == 0,
        rotation.z.raw == 0,
        rotation.w.raw == FX_SCALE,
        position.x.raw == 0,
        position.y.raw == 0,
        position.z.raw == 0,
    ensures
        srt_raw(scale, rotation, position) == ident_raw(),
{
    lemma_fx_mul_zero(0);
    lemma_fx_mul_zero(FX_SCALE as int);
    lemma_fx_mul_one(FX_SCALE as int);
    lemma_fx_mul_one(0);
    assert(srt_raw(scale, rotation, position) =~= ident_raw());
}

} // verus!
