//! Vectors, quaternions and 4x4 matrices over fixed-point scalars.
//!
//! Matrices are stored column-major: entry `(row, col)` lives at index
//! `4 * col + row`.  Every constructor and product states its result
//! entry by entry over the raw fixed-point values.

use crate::fx::{FX_SCALE, Fx, fx_add, fx_div, fx_div_raw, fx_mul, fx_mul_raw, fx_neg, fx_sub,
    lemma_fx_mul_raw_bound};
use crate::trig::{cos_fx_raw, fx_sin_cos, sin_fx_raw};
use vstd::arithmetic::div_mod::{lemma_basic_div, lemma_div_is_ordered,
    lemma_div_is_ordered_by_denominator, lemma_div_multiples_vanish};
use vstd::arithmetic::mul::{lemma_mul_basics, lemma_mul_inequality, lemma_mul_is_commutative};
use vstd::math::abs;
use vstd::prelude::*;

verus! {

/// Largest raw magnitude of a matrix entry accepted by `mat_mul` (2^46).
pub const FX_MAT_LIMIT: i64 = 70368744177664;

/// Largest raw magnitude of a position or scale component (2^42).
pub const FX_COORD_LIMIT: i64 = 4398046511104;

/// Largest raw magnitude of a quaternion component (2^33).
pub const FX_QUAT_LIMIT: i64 = 8589934592;

/// Largest raw magnitude of a camera bound (2^41).
pub const FX_CAM_LIMIT: i64 = 2199023255552;

/// Smallest raw width of an orthographic interval (2^30).
pub const FX_SPAN_MIN: i64 = 1073741824;

/// Largest raw magnitude of an orthographic projection entry (2^44).
pub const FX_PROJ_LIMIT: i64 = 17592186044416;

/// A 3-component fixed-point vector.
#[derive(Clone, Copy, Debug, PartialEq, Eq, Structural)]
pub struct Vec3 {
    pub x: Fx,
    pub y: Fx,
    pub z: Fx,
}

impl Vec3 {
    /// All components have raw magnitude at most `limit`.
    pub open spec fn bounded(self, limit: int) -> bool {
        abs(self.x.raw as int) <= limit && abs(self.y.raw as int) <= limit && abs(
            self.z.raw as int,
        ) <= limit
    }

    /// The vector with the given components.
    pub fn new(x: Fx, y: Fx, z: Fx) -> (v: Vec3)
        ensures
            v == (Vec3 { x, y, z }),
    {
        Vec3 { x, y, z }
    }

    /// The zero vector.
    pub fn zero() -> (v: Vec3)
        ensures
            v.x.raw == 0,
            v.y.raw == 0,
            v.z.raw == 0,
    {
        Vec3 { x: Fx { raw: 0 }, y: Fx { raw: 0 }, z: Fx { raw: 0 } }
    }
}

/// A fixed-point quaternion, `w` the scalar part.
#[derive(Clone, Copy, Debug, PartialEq, Eq, Structural)]
pub struct Quat {
    pub x: Fx,
    pub y: Fx,
    pub z: Fx,
    pub w: Fx,
}

impl Quat {
    /// All components have raw magnitude at most `limit`.
    pub open spec fn bounded(self, limit: int) -> bool {
        abs(self.x.raw as int) <= limit && abs(self.y.raw as int) <= limit && abs(
            self.z.raw as int,
        ) <= limit && abs(self.w.raw as int) <= limit
    }

    /// The quaternion with the given components.
    pub fn new(x: Fx, y: Fx, z: Fx, w: Fx) -> (q: Quat)
        ensures
            q == (Quat { x, y, z, w }),
    {
        Quat { x, y, z, w }
    }

    /// The identity orientation.
    pub fn identity() -> (q: Quat)
        ensures
            q.x.raw == 0,
            q.y.raw == 0,
            q.z.raw == 0,
            q.w.raw == FX_SCALE,
            q.bounded(FX_QUAT_LIMIT as int),
    {
        Quat { x: Fx { raw: 0 }, y: Fx { raw: 0 }, z: Fx { raw: 0 }, w: Fx { raw: FX_SCALE } }
    }

    /// The orientation that rotates by `angle_deg` degrees about the z
    /// axis: `(0, 0, sin(angle/2), cos(angle/2))`.
    pub fn from_rotation_z(angle_deg: Fx) -> (q: Quat)
        ensures
            q.x.raw == 0,
            q.y.raw == 0,
            q.z.raw as int == sin_fx_raw(crate::fx::fx_half_raw(angle_deg.raw as int)),
            q.w.raw as int == cos_fx_raw(crate::fx::fx_half_raw(angle_deg.raw as int)),
            q.bounded(FX_QUAT_LIMIT as int),
    {
        let half = crate::fx::fx_half(angle_deg);
        let (s, c) = fx_sin_cos(half);
        Quat { x: Fx { raw: 0 }, y: Fx { raw: 0 }, z: s, w: c }
    }
}

/// A 4x4 fixed-point matrix, column-major.
#[derive(Clone, Copy, Debug, PartialEq, Eq)]
pub struct Mat4 {
    pub e: [Fx; 16],
}

/// The 16 raw entry values of a matrix, column-major.
pub open spec fn mraw(m: Mat4) -> Seq<int> {
    Seq::new(16, |k: int| m.e@[k].raw as int)
}

/// Every entry of a raw matrix has magnitude at most `limit`.
pub open spec fn mat_bounded(s: Seq<int>, limit: int) -> bool {
    s.len() == 16 && forall|k: int| 0 <= k < 16 ==> abs(#[trigger] s[k]) <= limit
}

/// Raw entries of the identity matrix.
pub open spec fn ident_raw() -> Seq<int> {
    seq![
        FX_SCALE as int, 0, 0, 0,
        0, FX_SCALE as int, 0, 0,
        0, 0, FX_SCALE as int, 0,
        0, 0, 0, FX_SCALE as int,
    ]
}

/// Raw entries of the zero matrix.
pub open spec fn zero_raw() -> Seq<int> {
    Seq::new(16, |k: int| 0)
}

/// Raw entries of a translation matrix.
pub open spec fn trans_raw_i(px: int, py: int, pz: int) -> Seq<int> {
    seq![
        FX_SCALE as int, 0, 0, 0,
        0, FX_SCALE as int, 0, 0,
        0, 0, FX_SCALE as int, 0,
        px, py, pz, FX_SCALE as int,
    ]
}

/// Raw entries of a rotation about the z axis by `d` degrees.
pub open spec fn rotz_raw(d: int) -> Seq<int> {
    let s = sin_fx_raw(d);
    let c = cos_fx_raw(d);
    seq![
        c, s, 0, 0,
        -s, c, 0, 0,
        0, 0, FX_SCALE as int, 0,
        0, 0, 0, FX_SCALE as int,
    ]
}

/// One summand of a matrix product entry.
pub open spec fn mm_term(a: Seq<int>, b: Seq<int>, row: int, col: int, k: int) -> int {
    fx_mul_raw(a[4 * k + row], b[4 * col + k])
}

/// One entry of a matrix product.
pub open spec fn mm_entry_raw(a: Seq<int>, b: Seq<int>, row: int, col: int) -> int {
    mm_term(a, b, row, col, 0) + mm_term(a, b, row, col, 1) + mm_term(a, b, row, col, 2) + mm_term(
        a,
        b,
        row,
        col,
        3,
    )
}

/// Raw entries of a matrix product.
pub open spec fn mat_mul_raw(a: Seq<int>, b: Seq<int>) -> Seq<int> {
    Seq::new(16, |k: int| mm_entry_raw(a, b, k % 4, k / 4))
}

impl Mat4 {
    /// The identity matrix.
    pub fn identity() -> (m: Mat4)
        ensures
            mraw(m) == ident_raw(),
            mat_bounded(mraw(m), FX_SCALE as int),
    {
        let o = Fx { raw: FX_SCALE };
        let z = Fx { raw: 0 };
        let m = Mat4 { e: [o, z, z, z, z, o, z, z, z, z, o, z, z, z, z, o] };
        proof {
            assert(mraw(m) =~= ident_raw());
        }
        m
    }

    /// The zero matrix.
    pub fn zero() -> (m: Mat4)
        ensures
            mraw(m) == zero_raw(),
            mat_bounded(mraw(m), FX_SCALE as int),
    {
        let z = Fx { raw: 0 };
        let m = Mat4 { e: [z, z, z, z, z, z, z, z, z, z, z, z, z, z, z, z] };
        proof {
            assert(mraw(m) =~= zero_raw());
        }
        m
    }

    /// The entry at `(row, col)`.
    pub fn entry(&self, row: usize, col: usize) -> (r: Fx)
        requires
            row < 4,
            col < 4,
        ensures
            r.raw as int == mraw(*self)[4 * col as int + row as int],
    {
        self.e[4 * col + row]
    }

    /// The translation by `t`.
    pub fn from_translation(t: Vec3) -> (m: Mat4)
        requires
            t.bounded(FX_COORD_LIMIT as int),
        ensures
            mraw(m) == trans_raw_i(t.x.raw as int, t.y.raw as int, t.z.raw as int),
            mat_bounded(mraw(m), FX_COORD_LIMIT as int),
    {
        let o = Fx { raw: FX_SCALE };
        let z = Fx { raw: 0 };
        let m = Mat4 { e: [o, z, z, z, z, o, z, z, z, z, o, z, t.x, t.y, t.z, o] };
        proof {
            assert(mraw(m) =~= trans_raw_i(t.x.raw as int, t.y.raw as int, t.z.raw as int));
        }
        m
    }

    /// The rotation about the z axis by `angle_deg` degrees.
    pub fn from_rotation_z(angle_deg: Fx) -> (m: Mat4)
        ensures
            mraw(m) == rotz_raw(angle_deg.raw as int),
            mat_bounded(mraw(m), FX_SCALE as int),
    {
        let (s, c) = fx_sin_cos(angle_deg);
        let ns = fx_neg(s);
        let o = Fx { raw: FX_SCALE };
        let z = Fx { raw: 0 };
        let m = Mat4 { e: [c, s, z, z, ns, c, z, z, z, z, o, z, z, z, z, o] };
        proof {
            assert(mraw(m) =~= rotz_raw(angle_deg.raw as int));
        }
        m
    }
}

/// One entry of the product of two bounded matrices.
fn mm_entry(a: &Mat4, b: &Mat4, row: usize, col: usize) -> (r: Fx)
    requires
        row < 4,
        col < 4,
        mat_bounded(mraw(*a), FX_MAT_LIMIT as int),
        mat_bounded(mraw(*b), FX_MAT_LIMIT as int),
    ensures
        r.raw as int == mm_entry_raw(mraw(*a), mraw(*b), row as int, col as int),
{
    proof {
        lemma_fx_mul_raw_bound(mraw(*a)[row as int], mraw(*b)[4 * col as int], FX_MAT_LIMIT as int,
            FX_MAT_LIMIT as int);
        lemma_fx_mul_raw_bound(mraw(*a)[4 + row as int], mraw(*b)[4 * col as int + 1],
            FX_MAT_LIMIT as int, FX_MAT_LIMIT as int);
        lemma_fx_mul_raw_bound(mraw(*a)[8 + row as int], mraw(*b)[4 * col as int + 2],
            FX_MAT_LIMIT as int, FX_MAT_LIMIT as int);
        lemma_fx_mul_raw_bound(mraw(*a)[12 + row as int], mraw(*b)[4 * col as int + 3],
            FX_MAT_LIMIT as int, FX_MAT_LIMIT as int);
    }
    let t0 = fx_mul(a.e[row], b.e[4 * col]);
    let t1 = fx_mul(a.e[4 + row], b.e[4 * col + 1]);
    let t2 = fx_mul(a.e[8 + row], b.e[4 * col + 2]);
    let t3 = fx_mul(a.e[12 + row], b.e[4 * col + 3]);
    fx_add(fx_add(t0, t1), fx_add(t2, t3))
}

/// The product of two bounded matrices, every entry stated exactly.
pub fn mat_mul(a: &Mat4, b: &Mat4) -> (r: Mat4)
    requires
        mat_bounded(mraw(*a), FX_MAT_LIMIT as int),
        mat_bounded(mraw(*b), FX_MAT_LIMIT as int),
    ensures
        mraw(r) == mat_mul_raw(mraw(*a), mraw(*b)),
{
    let m = Mat4 {
        e: [
            mm_entry(a, b, 0, 0),
            mm_entry(a, b, 1, 0),
            mm_entry(a, b, 2, 0),
            mm_entry(a, b, 3, 0),
            mm_entry(a, b, 0, 1),
            mm_entry(a, b, 1, 1),
            mm_entry(a, b, 2, 1),
            mm_entry(a, b, 3, 1),
            mm_entry(a, b, 0, 2),
            mm_entry(a, b, 1, 2),
            mm_entry(a, b, 2, 2),
            mm_entry(a, b, 3, 2),
            mm_entry(a, b, 0, 3),
            mm_entry(a, b, 1, 3),
            mm_entry(a, b, 2, 3),
            mm_entry(a, b, 3, 3),
        ],
    };
    proof {
        assert(mraw(m) =~= mat_mul_raw(mraw(*a), mraw(*b)));
    }
    m
}

/// Entries of a product are bounded by four scaled products of the
/// operands' bounds.
pub proof fn lemma_mat_mul_raw_bound(a: Seq<int>, b: Seq<int>, ba: int, bb: int)
    requires
        mat_bounded(a, ba),
        mat_bounded(b, bb),
    ensures
        mat_bounded(mat_mul_raw(a, b), 4 * ((ba * bb) / FX_SCALE as int)),
{
    assert forall|kk: int| 0 <= kk < 16 implies abs(#[trigger] mat_mul_raw(a, b)[kk]) <= 4 * ((ba
        * bb) / FX_SCALE as int) by {
        let row = kk % 4;
        let col = kk / 4;
        lemma_fx_mul_raw_bound(a[row], b[4 * col], ba, bb);
        lemma_fx_mul_raw_bound(a[4 + row], b[4 * col + 1], ba, bb);
        lemma_fx_mul_raw_bound(a[8 + row], b[4 * col + 2], ba, bb);
        lemma_fx_mul_raw_bound(a[12 + row], b[4 * col + 3], ba, bb);
    }
}

/// Multiplying a raw value by one is exact.
pub proof fn lemma_fx_mul_one(x: int)
    ensures
        fx_mul_raw(x, FX_SCALE as int) == x,
{
    lemma_div_multiples_vanish(abs(x) as int, FX_SCALE as int);
    lemma_mul_is_commutative(abs(x) as int, FX_SCALE as int);
}

/// Multiplying a raw value by zero gives zero.
pub proof fn lemma_fx_mul_zero(x: int)
    ensures
        fx_mul_raw(x, 0) == 0,
        fx_mul_raw(0, x) == 0,
{
    lemma_mul_basics(abs(x) as int);
    lemma_basic_div(0, FX_SCALE as int);
}

/// The identity matrix is a right unit of the matrix product.
pub proof fn lemma_mat_mul_ident_right(a: Seq<int>)
    requires
        a.len() == 16,
    ensures
        mat_mul_raw(a, ident_raw()) == a,
{
    assert forall|kk: int| 0 <= kk < 16 implies mat_mul_raw(a, ident_raw())[kk] == a[kk] by {
        let row = kk % 4;
        let col = kk / 4;
        lemma_fx_mul_one(a[4 * col + row]);
        lemma_fx_mul_zero(a[row]);
        lemma_fx_mul_zero(a[4 + row]);
        lemma_fx_mul_zero(a[8 + row]);
        lemma_fx_mul_zero(a[12 + row]);
    }
    assert(mat_mul_raw(a, ident_raw()) =~= a);
}

/// The magnitude of a rounded quotient shrinks as the divisor's
/// magnitude grows.
pub proof fn lemma_fx_div_raw_bound(a: int, b: int, ba: int, bmin: int)
    requires
        abs(a) <= ba,
        1 <= bmin <= abs(b),
    ensures
        abs(fx_div_raw(a, b)) <= (ba * FX_SCALE as int) / bmin,
{
    lemma_mul_inequality(abs(a) as int, ba, FX_SCALE as int);
    lemma_div_is_ordered_by_denominator(abs(a) as int * FX_SCALE as int, bmin, abs(b) as int);
    lemma_div_is_ordered(abs(a) as int * FX_SCALE as int, ba * FX_SCALE as int, bmin);
}

/// Raw entries of the fixed orthographic projection over the given
/// bounds, with near = -1 and far = 1.
pub open spec fn ortho_raw(l: int, r: int, b: int, t: int) -> Seq<int> {
    let a0 = fx_div_raw(2 * FX_SCALE as int, r - l);
    let a5 = fx_div_raw(2 * FX_SCALE as int, t - b);
    let tx = -fx_div_raw(r + l, r - l);
    let ty = -fx_div_raw(t + b, t - b);
    seq![
        a0, 0, 0, 0,
        0, a5, 0, 0,
        0, 0, -(FX_SCALE as int), 0,
        tx, ty, 0, FX_SCALE as int,
    ]
}

/// The orthographic projection over `[left, right] x [bottom, top]`,
/// near = -1 and far = 1.
pub fn mat4_orthographic(left: Fx, right: Fx, bottom: Fx, top: Fx) -> (m: Mat4)
    requires
        abs(left.raw as int) <= FX_CAM_LIMIT,
        abs(right.raw as int) <= FX_CAM_LIMIT,
        abs(bottom.raw as int) <= FX_CAM_LIMIT,
        abs(top.raw as int) <= FX_CAM_LIMIT,
        right.raw - left.raw >= FX_SPAN_MIN,
        top.raw - bottom.raw >= FX_SPAN_MIN,
    ensures
        mraw(m) == ortho_raw(left.raw as int, right.raw as int, bottom.raw as int, top.raw as int),
        mat_bounded(mraw(m), FX_PROJ_LIMIT as int),
{
    let two = Fx { raw: 2 * FX_SCALE };
    let w = fx_sub(right, left);
    let h = fx_sub(top, bottom);
    proof {
        lemma_fx_div_raw_bound(2 * FX_SCALE as int, w.raw as int, 2 * FX_SCALE as int,
            FX_SPAN_MIN as int);
        lemma_fx_div_raw_bound(right.raw + left.raw, w.raw as int, 2 * FX_CAM_LIMIT as int,
            FX_SPAN_MIN as int);
        lemma_fx_div_raw_bound(2 * FX_SCALE as int, h.raw as int, 2 * FX_SCALE as int,
            FX_SPAN_MIN as int);
        lemma_fx_div_raw_bound(top.raw + bottom.raw, h.raw as int, 2 * FX_CAM_LIMIT as int,
            FX_SPAN_MIN as int);
    }
    let a0 = fx_div(two, w);
    let a5 = fx_div(two, h);
    let tx = fx_neg(fx_div(fx_add(right, left), w));
    let ty = fx_neg(fx_div(fx_add(top, bottom), h));
    let no = Fx { raw: -FX_SCALE };
    let o = Fx { raw: FX_SCALE };
    let z = Fx { raw: 0 };
    let m = Mat4 { e: [a0, z, z, z, z, a5, z, z, z, z, no, z, tx, ty, z, o] };
    proof {
        assert(mraw(m) =~= ortho_raw(left.raw as int, right.raw as int, bottom.raw as int,
            top.raw as int));
    }
    m
}

/// Raw entries of a transform that scales, then rotates by the
/// quaternion, then translates.
pub open spec fn srt_raw(scale: Vec3, q: Quat, t: Vec3) -> Seq<int> {
    let x = q.x.raw as int;
    let y = q.y.raw as int;
    let z = q.z.raw as int;
    let w = q.w.raw as int;
    let xx2 = fx_mul_raw(x, x + x);
    let xy2 = fx_mul_raw(x, y + y);
    let xz2 = fx_mul_raw(x, z + z);
    let yy2 = fx_mul_raw(y, y + y);
    let yz2 = fx_mul_raw(y, z + z);
    let zz2 = fx_mul_raw(z, z + z);
    let wx2 = fx_mul_raw(w, x + x);
    let wy2 = fx_mul_raw(w, y + y);
    let wz2 = fx_mul_raw(w, z + z);
    let sx = scale.x.raw as int;
    let sy = scale.y.raw as int;
    let sz = scale.z.raw as int;
    seq![
        fx_mul_raw(FX_SCALE - (yy2 + zz2), sx),
        fx_mul_raw(xy2 + wz2, sx),
        fx_mul_raw(xz2 - wy2, sx),
        0,
        fx_mul_raw(xy2 - wz2, sy),
        fx_mul_raw(FX_SCALE - (xx2 + zz2), sy),
        fx_mul_raw(yz2 + wx2, sy),
        0,
        fx_mul_raw(xz2 + wy2, sz),
        fx_mul_raw(yz2 - wx2, sz),
        fx_mul_raw(FX_SCALE - (xx2 + yy2), sz),
        0,
        t.x.raw as int,
        t.y.raw as int,
        t.z.raw as int,
        FX_SCALE as int,
    ]
}

/// The transform that applies `scale`, then `rotation`, then
/// `translation`.
pub fn mat4_from_scale_rotation_translation(scale: Vec3, rotation: Quat, translation: Vec3) -> (m:
    Mat4)
    requires
        scale.bounded(FX_COORD_LIMIT as int),
        rotation.bounded(FX_QUAT_LIMIT as int),
        translation.bounded(FX_COORD_LIMIT as int),
    ensures
        mraw(m) == srt_raw(scale, rotation, translation),
{
    let x2 = fx_add(rotation.x, rotation.x);
    let y2 = fx_add(rotation.y, rotation.y);
    let z2 = fx_add(rotation.z, rotation.z);
    proof {
        lemma_fx_mul_raw_bound(rotation.x.raw as int, x2.raw as int, FX_QUAT_LIMIT as int, 2
            * FX_QUAT_LIMIT as int);
        lemma_fx_mul_raw_bound(rotation.x.raw as int, y2.raw as int, FX_QUAT_LIMIT as int, 2
            * FX_QUAT_LIMIT as int);
        lemma_fx_mul_raw_bound(rotation.x.raw as int, z2.raw as int, FX_QUAT_LIMIT as int, 2
            * FX_QUAT_LIMIT as int);
        lemma_fx_mul_raw_bound(rotation.y.raw as int, y2.raw as int, FX_QUAT_LIMIT as int, 2
            * FX_QUAT_LIMIT as int);
        lemma_fx_mul_raw_bound(rotation.y.raw as int, z2.raw as int, FX_QUAT_LIMIT as int, 2
            * FX_QUAT_LIMIT as int);
        lemma_fx_mul_raw_bound(rotation.z.raw as int, z2.raw as int, FX_QUAT_LIMIT as int, 2
            * FX_QUAT_LIMIT as int);
        lemma_fx_mul_raw_bound(rotation.w.raw as int, x2.raw as int, FX_QUAT_LIMIT as int, 2
            * FX_QUAT_LIMIT as int);
        lemma_fx_mul_raw_bound(rotation.w.raw as int, y2.raw as int, FX_QUAT_LIMIT as int, 2
            * FX_QUAT_LIMIT as int);
        lemma_fx_mul_raw_bound(rotation.w.raw as int, z2.raw as int, FX_QUAT_LIMIT as int, 2
            * FX_QUAT_LIMIT as int);
    }
    let xx2 = fx_mul(rotation.x, x2);
    let xy2 = fx_mul(rotation.x, y2);
    let xz2 = fx_mul(rotation.x, z2);
    let yy2 = fx_mul(rotation.y, y2);
    let yz2 = fx_mul(rotation.y, z2);
    let zz2 = fx_mul(rotation.z, z2);
    let wx2 = fx_mul(rotation.w, x2);
    let wy2 = fx_mul(rotation.w, y2);
    let wz2 = fx_mul(rotation.w, z2);
    let one = Fx { raw: FX_SCALE };
    let m00 = fx_sub(one, fx_add(yy2, zz2));
    let m10 = fx_add(xy2, wz2);
    let m20 = fx_sub(xz2, wy2);
    let m01 = fx_sub(xy2, wz2);
    let m11 = fx_sub(one, fx_add(xx2, zz2));
    let m21 = fx_add(yz2, wx2);
    let m02 = fx_add(xz2, wy2);
    let m12 = fx_sub(yz2, wx2);
    let m22 = fx_sub(one, fx_add(xx2, yy2));
    let z = Fx { raw: 0 };
    let m = Mat4 {
        e: [
            fx_mul(m00, scale.x),
            fx_mul(m10, scale.x),
            fx_mul(m20, scale.x),
            z,
            fx_mul(m01, scale.y),
            fx_mul(m11, scale.y),
            fx_mul(m21, scale.y),
            z,
            fx_mul(m02, scale.z),
            fx_mul(m12, scale.z),
            fx_mul(m22, scale.z),
            z,
            translation.x,
            translation.y,
            translation.z,
            one,
        ],
    };
    proof {
        assert(mraw(m) =~= srt_raw(scale, rotation, translation));
    }
    m
}

} // verus!
