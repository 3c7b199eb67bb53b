//! The orthographic camera.
//!
//! The camera owns a fixed projection and derives its view and
//! view-projection matrices eagerly from its position and rotation:
//! after every mutation the cached matrices are recomputed at once, so a
//! caller never observes a stale matrix.  In exact arithmetic the view
//! matrix is the inverse of `translate(position) * rotate_z(rotation)`;
//! it is computed by the closed form
//! `rotate_z(-rotation) * translate(-position)`.

use crate::fx::{FX_SCALE, Fx, fx_neg};
use crate::linalg::{FX_COORD_LIMIT, FX_MAT_LIMIT, FX_PROJ_LIMIT, Mat4, Vec3, ident_raw,
    lemma_mat_mul_ident_right, lemma_mat_mul_raw_bound, mat4_orthographic, mat_bounded, mat_mul,
    mat_mul_raw, mraw, ortho_raw, rotz_raw, trans_raw_i};
use vstd::math::abs;
use vstd::prelude::*;

verus! {

/// Largest raw magnitude of a camera rotation, in degrees (2^50).
pub const FX_ANGLE_LIMIT: i64 = 1125899906842624;

/// Raw entries of the view matrix for the given rotation (degrees) and
/// position: `rotate_z(-rotation) * translate(-position)`.
pub open spec fn view_raw(rot: int, px: int, py: int, pz: int) -> Seq<int> {
    mat_mul_raw(rotz_raw(-rot), trans_raw_i(-px, -py, -pz))
}

/// An orthographic camera with eagerly cached view matrices.
#[derive(Clone, Copy, Debug, PartialEq, Eq)]
pub struct OrtographicCamera {
    pub projection_matrix: Mat4,
    pub view_matrix: Mat4,
    pub view_projection_matrix: Mat4,
    pub position: Vec3,
    pub rotation: Fx,
}

impl OrtographicCamera {
    /// The camera's invariant: bounded state, and cached matrices that
    /// agree with the current position and rotation.
    pub open spec fn wf(&self) -> bool {
        &&& mat_bounded(mraw(self.projection_matrix), FX_PROJ_LIMIT as int)
        &&& self.position.bounded(FX_COORD_LIMIT as int)
        &&& abs(self.rotation.raw as int) <= FX_ANGLE_LIMIT
        &&& mraw(self.view_matrix) == view_raw(self.rotation.raw as int, self.position.x.raw as int,
            self.position.y.raw as int, self.position.z.raw as int)
        &&& mat_bounded(mraw(self.view_matrix), FX_MAT_LIMIT as int)
        &&& mraw(self.view_projection_matrix) == mat_mul_raw(mraw(self.projection_matrix),
            mraw(self.view_matrix))
    }

    /// A camera over the given orthographic bounds, at the origin with
    /// no rotation; its view is the identity and its view-projection
    /// equals its projection.
    pub fn new(left: Fx, right: Fx, bottom: Fx, top: Fx) -> (cam: OrtographicCamera)
        requires
            abs(left.raw as int) <= crate::linalg::FX_CAM_LIMIT,
            abs(right.raw as int) <= crate::linalg::FX_CAM_LIMIT,
            abs(bottom.raw as int) <= crate::linalg::FX_CAM_LIMIT,
            abs(top.raw as int) <= crate::linalg::FX_CAM_LIMIT,
            right.raw - left.raw >= crate::linalg::FX_SPAN_MIN,
            top.raw - bottom.raw >= crate::linalg::FX_SPAN_MIN,
        ensures
            cam.wf(),
            mraw(cam.projection_matrix) == ortho_raw(left.raw as int, right.raw as int,
                bottom.raw as int, top.raw as int),
            mraw(cam.view_matrix) == ident_raw(),
            mraw(cam.view_projection_matrix) == mraw(cam.projection_matrix),
            cam.position.x.raw == 0,
            cam.position.y.raw == 0,
            cam.position.z.raw == 0,
            cam.rotation.raw == 0,
    {
        let projection_matrix = mat4_orthographic(left, right, bottom, top);
        let view_matrix = Mat4::identity();
        let view_projection_matrix = mat_mul(&projection_matrix, &view_matrix);
        proof {
            lemma_mat_mul_ident_right(mraw(projection_matrix));
            lemma_view_raw_zero();
        }
        OrtographicCamera {
            projection_matrix,
            view_matrix,
            view_projection_matrix,
            position: Vec3 { x: Fx { raw: 0 }, y: Fx { raw: 0 }, z: Fx { raw: 0 } },
            rotation: Fx { raw: 0 },
        }
    }

    /// A copy of the projection matrix.
    pub fn get_projection_matrix(&self) -> (m: Mat4)
        ensures
            m == self.projection_matrix,
    {
        self.projection_matrix
    }

    /// A copy of the view matrix.
    pub fn get_view_matrix(&self) -> (m: Mat4)
        ensures
            m == self.view_matrix,
    {
        self.view_matrix
    }

    /// A copy of the view-projection matrix.
    pub fn get_view_projection_matrix(&self) -> (m: Mat4)
        ensures
            m == self.view_projection_matrix,
    {
        self.view_projection_matrix
    }

    /// The camera's position.
    pub fn get_position(&self) -> (p: Vec3)
        ensures
            p == self.position,
    {
        self.position
    }

    /// The camera's rotation about the z axis, in degrees.
    pub fn get_rotation(&self) -> (r: Fx)
        ensures
            r == self.rotation,
    {
        self.rotation
    }

    /// Moves the camera and recomputes both cached matrices at once.
    pub fn set_position(&mut self, position: Vec3)
        requires
            old(self).wf(),
            position.bounded(FX_COORD_LIMIT as int),
        ensures
            final(self).wf(),
            final(self).position == position,
            final(self).rotation == old(self).rotation,
            final(self).projection_matrix == old(self).projection_matrix,
            mraw(final(self).view_matrix) == view_raw(old(self).rotation.raw as int,
                position.x.raw as int, position.y.raw as int, position.z.raw as int),
            mraw(final(self).view_projection_matrix) == mat_mul_raw(
                mraw(old(self).projection_matrix), mraw(final(self).view_matrix)),
    {
        self.position = position;
        self.recalculate_matrices();
    }

    /// Rotates the camera and recomputes both cached matrices at once.
    pub fn set_rotation(&mut self, rotation: Fx)
        requires
            old(self).wf(),
            abs(rotation.raw as int) <= FX_ANGLE_LIMIT,
        ensures
            final(self).wf(),
            final(self).rotation == rotation,
            final(self).position == old(self).position,
            final(self).projection_matrix == old(self).projection_matrix,
            mraw(final(self).view_matrix) == view_raw(rotation.raw as int,
                old(self).position.x.raw as int, old(self).position.y.raw as int,
                old(self).position.z.raw as int),
            mraw(final(self).view_projection_matrix) == mat_mul_raw(
                mraw(old(self).projection_matrix), mraw(final(self).view_matrix)),
    {
        self.rotation = rotation;
        self.recalculate_matrices();
    }

    /// Recomputes the view as `rotate_z(-rotation) * translate(-position)`
    /// and the view-projection as `projection * view`.
    fn recalculate_matrices(&mut self)
        requires
            mat_bounded(mraw(old(self).projection_matrix), FX_PROJ_LIMIT as int),
            old(self).position.bounded(FX_COORD_LIMIT as int),
            abs(old(self).rotation.raw as int) <= FX_ANGLE_LIMIT,
        ensures
            final(self).projection_matrix == old(self).projection_matrix,
            final(self).position == old(self).position,
            final(self).rotation == old(self).rotation,
            mraw(final(self).view_matrix) == view_raw(old(self).rotation.raw as int,
                old(self).position.x.raw as int, old(self).position.y.raw as int,
                old(self).position.z.raw as int),
            mat_bounded(mraw(final(self).view_matrix), FX_MAT_LIMIT as int),
            mraw(final(self).view_projection_matrix) == mat_mul_raw(
                mraw(final(self).projection_matrix), mraw(final(self).view_matrix)),
    {
        let neg_rotation = fx_neg(self.rotation);
        let rot = Mat4::from_rotation_z(neg_rotation);
        let neg_position = Vec3 {
            x: fx_neg(self.position.x),
            y: fx_neg(self.position.y),
            z: fx_neg(self.position.z),
        };
        let tr = Mat4::from_translation(neg_position);
        let view = mat_mul(&rot, &tr);
        proof {
            lemma_mat_mul_raw_bound(mraw(rot), mraw(tr), FX_SCALE as int, FX_COORD_LIMIT as int);
        }
        self.view_matrix = view;
        let vp = mat_mul(&self.projection_matrix, &view);
        self.view_projection_matrix = vp;
    }
}

/// With no rotation and no translation the view matrix is the identity.
proof fn lemma_view_raw_zero()
    ensures
        view_raw(0, 0, 0, 0) == ident_raw(),
{
    assert(crate::trig::norm_deg(0) == 0);
    assert(crate::trig::rad_of_deg(0) == 0);
    assert(crate::trig::poly_sin(0) == 0);
    assert(crate::trig::poly_cos(0) == FX_SCALE);
    assert(crate::trig::sin_fx_raw(0) == 0);
    assert(crate::trig::cos_fx_raw(0) == FX_SCALE);
    assert(rotz_raw(0) =~= ident_raw());
    assert(trans_raw_i(0, 0, 0) =~= ident_raw());
    lemma_mat_mul_ident_right(ident_raw());
}

/// The cached matrices are a function of the camera's final state
/// alone: two well-formed cameras with the same projection, position
/// and rotation have equal view and view-projection matrices, whatever
/// the order of the mutations that produced them.
pub proof fn lemma_camera_matrices_path_independent(c1: OrtographicCamera, c2: OrtographicCamera)
    requires
        c1.wf(),
        c2.wf(),
        mraw(c1.projection_matrix) == mraw(c2.projection_matrix),
        c1.position == c2.position,
        c1.rotation == c2.rotation,
    ensures
        mraw(c1.view_matrix) == mraw(c2.view_matrix),
        mraw(c1.view_projection_matrix) == mraw(c2.view_projection_matrix),
{
}

} // verus!
