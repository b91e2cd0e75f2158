//! The transform composer: four-by-four homogeneous transform matrices in
//! column-major convention, built from fixed-point trigonometric values.
//!
//! Matrix entries are held in fixed point, in millionths of a unit
//! (`FIXED_ONE` is one). The composer is a pure function of the cosine and
//! sine of the phase and of the scale factor: it places those values in the
//! slots of the rotation matrices about the three axes and of the uniform
//! scale matrix. The matrices are composed on the way to the screen in the
//! fixed order rotation-X, then rotation-Y, then rotation-Z, then scale
//! applied to the vertex first; that order is modelled here by
//! `spec_composed` and must be preserved.

use crate::fixed::FIXED_ONE;
use vstd::prelude::*;

verus! {

/// The mathematical value of a four-by-four matrix: each entry as an
/// unbounded integer count of fixed-point units. Field `cCrR` is the entry
/// in column `C`, row `R` (column-major convention).
pub ghost struct MatModel {
    pub c0r0: int, pub c0r1: int, pub c0r2: int, pub c0r3: int,
    pub c1r0: int, pub c1r1: int, pub c1r2: int, pub c1r3: int,
    pub c2r0: int, pub c2r1: int, pub c2r2: int, pub c2r3: int,
    pub c3r0: int, pub c3r1: int, pub c3r2: int, pub c3r3: int,
}

/// A four-by-four homogeneous transform matrix in column-major convention,
/// with fixed-point entries. Field `cCrR` is the entry in column `C`,
/// row `R`.
#[derive(Clone, Copy, Debug, PartialEq, Eq, Structural)]
pub struct Mat4 {
    pub c0r0: i64, pub c0r1: i64, pub c0r2: i64, pub c0r3: i64,
    pub c1r0: i64, pub c1r1: i64, pub c1r2: i64, pub c1r3: i64,
    pub c2r0: i64, pub c2r1: i64, pub c2r2: i64, pub c2r3: i64,
    pub c3r0: i64, pub c3r1: i64, pub c3r2: i64, pub c3r3: i64,
}

impl View for Mat4 {
    type V = MatModel;

    open spec fn view(&self) -> MatModel {
        MatModel {
            c0r0: self.c0r0 as int, c0r1: self.c0r1 as int,
            c0r2: self.c0r2 as int, c0r3: self.c0r3 as int,
            c1r0: self.c1r0 as int, c1r1: self.c1r1 as int,
            c1r2: self.c1r2 as int, c1r3: self.c1r3 as int,
            c2r0: self.c2r0 as int, c2r1: self.c2r1 as int,
            c2r2: self.c2r2 as int, c2r3: self.c2r3 as int,
            c3r0: self.c3r0 as int, c3r1: self.c3r1 as int,
            c3r2: self.c3r2 as int, c3r3: self.c3r3 as int,
        }
    }
}

/// The identity transform.
pub open spec fn spec_identity() -> MatModel {
    MatModel {
        c0r0: FIXED_ONE as int, c0r1: 0, c0r2: 0, c0r3: 0,
        c1r0: 0, c1r1: FIXED_ONE as int, c1r2: 0, c1r3: 0,
        c2r0: 0, c2r1: 0, c2r2: FIXED_ONE as int, c2r3: 0,
        c3r0: 0, c3r1: 0, c3r2: 0, c3r3: FIXED_ONE as int,
    }
}

/// The standard right-hand rotation about the X axis whose cosine is `c` and
/// sine is `s`: the X axis and the homogeneous row are left unchanged, the Y
/// axis is carried to `(0, c, s)` and the Z axis to `(0, -s, c)`.
pub open spec fn spec_rotate_x(c: int, s: int) -> MatModel {
    MatModel {
        c0r0: FIXED_ONE as int, c0r1: 0, c0r2: 0, c0r3: 0,
        c1r0: 0, c1r1: c, c1r2: s, c1r3: 0,
        c2r0: 0, c2r1: -s, c2r2: c, c2r3: 0,
        c3r0: 0, c3r1: 0, c3r2: 0, c3r3: FIXED_ONE as int,
    }
}

/// The standard right-hand rotation about the Y axis: the Y axis and the
/// homogeneous row are left unchanged, the X axis is carried to `(c, 0, -s)`
/// and the Z axis to `(s, 0, c)`.
pub open spec fn spec_rotate_y(c: int, s: int) -> MatModel {
    MatModel {
        c0r0: c, c0r1: 0, c0r2: -s, c0r3: 0,
        c1r0: 0, c1r1: FIXED_ONE as int, c1r2: 0, c1r3: 0,
        c2r0: s, c2r1: 0, c2r2: c, c2r3: 0,
        c3r0: 0, c3r1: 0, c3r2: 0, c3r3: FIXED_ONE as int,
    }
}

/// The standard right-hand rotation about the Z axis: the Z axis and the
/// homogeneous row are left unchanged, the X axis is carried to `(c, s, 0)`
/// and the Y axis to `(-s, c, 0)`.
pub open spec fn spec_rotate_z(c: int, s: int) -> MatModel {
    MatModel {
        c0r0: c, c0r1: s, c0r2: 0, c0r3: 0,
        c1r0: -s, c1r1: c, c1r2: 0, c1r3: 0,
        c2r0: 0, c2r1: 0, c2r2: FIXED_ONE as int, c2r3: 0,
        c3r0: 0, c3r1: 0, c3r2: 0, c3r3: FIXED_ONE as int,
    }
}

/// The uniform scale by `k` of the three spatial axes, identity on the
/// homogeneous row.
pub open spec fn spec_scale(k: int) -> MatModel {
    MatModel {
        c0r0: k, c0r1: 0, c0r2: 0, c0r3: 0,
        c1r0: 0, c1r1: k, c1r2: 0, c1r3: 0,
        c2r0: 0, c2r1: 0, c2r2: k, c2r3: 0,
        c3r0: 0, c3r1: 0, c3r2: 0, c3r3: FIXED_ONE as int,
    }
}

/// The matrix product `a * b` over the exact entry values. Entry
/// `(row i, column j)` of the product is the sum over `k` of
/// `a(row i, column k) * b(row k, column j)`; the fixed-point unit of the
/// product entries is the square of the unit of the factors.
pub open spec fn spec_mat_mul(a: MatModel, b: MatModel) -> MatModel {
    MatModel {
        c0r0: a.c0r0 * b.c0r0 + a.c1r0 * b.c0r1 + a.c2r0 * b.c0r2 + a.c3r0 * b.c0r3,
        c0r1: a.c0r1 * b.c0r0 + a.c1r1 * b.c0r1 + a.c2r1 * b.c0r2 + a.c3r1 * b.c0r3,
        c0r2: a.c0r2 * b.c0r0 + a.c1r2 * b.c0r1 + a.c2r2 * b.c0r2 + a.c3r2 * b.c0r3,
        c0r3: a.c0r3 * b.c0r0 + a.c1r3 * b.c0r1 + a.c2r3 * b.c0r2 + a.c3r3 * b.c0r3,
        c1r0: a.c0r0 * b.c1r0 + a.c1r0 * b.c1r1 + a.c2r0 * b.c1r2 + a.c3r0 * b.c1r3,
        c1r1: a.c0r1 * b.c1r0 + a.c1r1 * b.c1r1 + a.c2r1 * b.c1r2 + a.c3r1 * b.c1r3,
        c1r2: a.c0r2 * b.c1r0 + a.c1r2 * b.c1r1 + a.c2r2 * b.c1r2 + a.c3r2 * b.c1r3,
        c1r3: a.c0r3 * b.c1r0 + a.c1r3 * b.c1r1 + a.c2r3 * b.c1r2 + a.c3r3 * b.c1r3,
        c2r0: a.c0r0 * b.c2r0 + a.c1r0 * b.c2r1 + a.c2r0 * b.c2r2 + a.c3r0 * b.c2r3,
        c2r1: a.c0r1 * b.c2r0 + a.c1r1 * b.c2r1 + a.c2r1 * b.c2r2 + a.c3r1 * b.c2r3,
        c2r2: a.c0r2 * b.c2r0 + a.c1r2 * b.c2r1 + a.c2r2 * b.c2r2 + a.c3r2 * b.c2r3,
        c2r3: a.c0r3 * b.c2r0 + a.c1r3 * b.c2r1 + a.c2r3 * b.c2r2 + a.c3r3 * b.c2r3,
        c3r0: a.c0r0 * b.c3r0 + a.c1r0 * b.c3r1 + a.c2r0 * b.c3r2 + a.c3r0 * b.c3r3,
        c3r1: a.c0r1 * b.c3r0 + a.c1r1 * b.c3r1 + a.c2r1 * b.c3r2 + a.c3r1 * b.c3r3,
        c3r2: a.c0r2 * b.c3r0 + a.c1r2 * b.c3r1 + a.c2r2 * b.c3r2 + a.c3r2 * b.c3r3,
        c3r3: a.c0r3 * b.c3r0 + a.c1r3 * b.c3r1 + a.c2r3 * b.c3r2 + a.c3r3 * b.c3r3,
    }
}

/// Whether every entry of `m` is zero.
pub open spec fn spec_is_zero_mat(m: MatModel) -> bool {
    &&& m.c0r0 == 0 && m.c0r1 == 0 && m.c0r2 == 0 && m.c0r3 == 0
    &&& m.c1r0 == 0 && m.c1r1 == 0 && m.c1r2 == 0 && m.c1r3 == 0
    &&& m.c2r0 == 0 && m.c2r1 == 0 && m.c2r2 == 0 && m.c2r3 == 0
    &&& m.c3r0 == 0 && m.c3r1 == 0 && m.c3r2 == 0 && m.c3r3 == 0
}

/// The composed model transform: rotation-X outermost, then rotation-Y,
/// then rotation-Z, with the scale applied to the vertex first. `(c1, s1)`,
/// `(c2, s2)` and `(c3, s3)` are the cosine and sine fed to the three
/// rotations, `k` the scale factor.
pub open spec fn spec_composed(
    c1: int, s1: int, c2: int, s2: int, c3: int, s3: int, k: int,
) -> MatModel {
    spec_mat_mul(
        spec_rotate_x(c1, s1),
        spec_mat_mul(
            spec_rotate_y(c2, s2),
            spec_mat_mul(spec_rotate_z(c3, s3), spec_scale(k)),
        ),
    )
}

/// The four matrices handed to the renderer each frame, in their composition
/// order: `m1` outermost (rotation-X) through `m4` innermost (scale).
#[derive(Clone, Copy, Debug, PartialEq, Eq, Structural)]
pub struct TransformSet {
    pub m1: Mat4,
    pub m2: Mat4,
    pub m3: Mat4,
    pub m4: Mat4,
}

/// The standard right-hand rotation about the X axis. `c` and `s` are the
/// cosine and sine of the angle in fixed point, so they lie in
/// `[-FIXED_ONE, FIXED_ONE]`.
pub fn x_rot_mat(c: i64, s: i64) -> (r: Mat4)
    requires
        -FIXED_ONE <= c <= FIXED_ONE,
        -FIXED_ONE <= s <= FIXED_ONE,
    ensures
        r@ == spec_rotate_x(c as int, s as int),
{
    Mat4 {
        c0r0: FIXED_ONE, c0r1: 0, c0r2: 0, c0r3: 0,
        c1r0: 0, c1r1: c, c1r2: s, c1r3: 0,
        c2r0: 0, c2r1: -s, c2r2: c, c2r3: 0,
        c3r0: 0, c3r1: 0, c3r2: 0, c3r3: FIXED_ONE,
    }
}

/// The standard right-hand rotation about the Y axis. `c` and `s` are the
/// cosine and sine of the angle in fixed point, so they lie in
/// `[-FIXED_ONE, FIXED_ONE]`.
pub fn y_rot_mat(c: i64, s: i64) -> (r: Mat4)
    requires
        -FIXED_ONE <= c <= FIXED_ONE,
        -FIXED_ONE <= s <= FIXED_ONE,
    ensures
        r@ == spec_rotate_y(c as int, s as int),
{
    Mat4 {
        c0r0: c, c0r1: 0, c0r2: -s, c0r3: 0,
        c1r0: 0, c1r1: FIXED_ONE, c1r2: 0, c1r3: 0,
        c2r0: s, c2r1: 0, c2r2: c, c2r3: 0,
        c3r0: 0, c3r1: 0, c3r2: 0, c3r3: FIXED_ONE,
    }
}

/// The standard right-hand rotation about the Z axis. `c` and `s` are the
/// cosine and sine of the angle in fixed point, so they lie in
/// `[-FIXED_ONE, FIXED_ONE]`.
pub fn z_rot_mat(c: i64, s: i64) -> (r: Mat4)
    requires
        -FIXED_ONE <= c <= FIXED_ONE,
        -FIXED_ONE <= s <= FIXED_ONE,
    ensures
        r@ == spec_rotate_z(c as int, s as int),
{
    Mat4 {
        c0r0: c, c0r1: s, c0r2: 0, c0r3: 0,
        c1r0: -s, c1r1: c, c1r2: 0, c1r3: 0,
        c2r0: 0, c2r1: 0, c2r2: FIXED_ONE, c2r3: 0,
        c3r0: 0, c3r1: 0, c3r2: 0, c3r3: FIXED_ONE,
    }
}

/// The uniform scale by `k` (in fixed point) of the three spatial axes.
pub fn scale_mat(k: i64) -> (r: Mat4)
    ensures
        r@ == spec_scale(k as int),
{
    Mat4 {
        c0r0: k, c0r1: 0, c0r2: 0, c0r3: 0,
        c1r0: 0, c1r1: k, c1r2: 0, c1r3: 0,
        c2r0: 0, c2r1: 0, c2r2: k, c2r3: 0,
        c3r0: 0, c3r1: 0, c3r2: 0, c3r3: FIXED_ONE,
    }
}

/// The identity transform.
pub fn identity_mat() -> (r: Mat4)
    ensures
        r@ == spec_identity(),
{
    scale_mat(FIXED_ONE)
}

/// The transform composer: from the cosine and sine of the phase and the
/// scale factor, the four matrices of one frame, in their fixed composition
/// order. A pure function of its arguments: two calls with equal arguments
/// return equal values.
pub fn compose_transform(c: i64, s: i64, k: i64) -> (r: TransformSet)
    requires
        -FIXED_ONE <= c <= FIXED_ONE,
        -FIXED_ONE <= s <= FIXED_ONE,
    ensures
        r.m1@ == spec_rotate_x(c as int, s as int),
        r.m2@ == spec_rotate_y(c as int, s as int),
        r.m3@ == spec_rotate_z(c as int, s as int),
        r.m4@ == spec_scale(k as int),
{
    TransformSet {
        m1: x_rot_mat(c, s),
        m2: y_rot_mat(c, s),
        m3: z_rot_mat(c, s),
        m4: scale_mat(k),
    }
}

/// At phase zero the cosine is one and the sine is zero, and every matrix of
/// the composer is the identity; so is the scale matrix at scale one.
pub proof fn lemma_zero_phase_gives_identity()
    ensures
        spec_rotate_x(FIXED_ONE as int, 0) == spec_identity(),
        spec_rotate_y(FIXED_ONE as int, 0) == spec_identity(),
        spec_rotate_z(FIXED_ONE as int, 0) == spec_identity(),
        spec_scale(FIXED_ONE as int) == spec_identity(),
{
}

/// The composer is a function of its arguments alone: any two transform sets
/// whose matrices carry the values the composer's contract pins for the same
/// `(c, s, k)` are equal, so two calls with identical arguments yield
/// bit-identical matrices.
pub proof fn lemma_composer_deterministic(
    a: TransformSet,
    b: TransformSet,
    c: i64,
    s: i64,
    k: i64,
)
    requires
        a.m1@ == spec_rotate_x(c as int, s as int),
        a.m2@ == spec_rotate_y(c as int, s as int),
        a.m3@ == spec_rotate_z(c as int, s as int),
        a.m4@ == spec_scale(k as int),
        b.m1@ == spec_rotate_x(c as int, s as int),
        b.m2@ == spec_rotate_y(c as int, s as int),
        b.m3@ == spec_rotate_z(c as int, s as int),
        b.m4@ == spec_scale(k as int),
    ensures
        a == b,
{
    assert(a.m1 == b.m1);
    assert(a.m2 == b.m2);
    assert(a.m3 == b.m3);
    assert(a.m4 == b.m4);
}

/// The composed transform is never the zero matrix, whatever the
/// trigonometric values and the scale: its homogeneous entry (column three,
/// row three) is the fourth power of `FIXED_ONE`, since every factor keeps
/// that entry at `FIXED_ONE` and zeroes the rest of its row and column.
pub proof fn lemma_composed_never_zero(
    c1: int, s1: int, c2: int, s2: int, c3: int, s3: int, k: int,
)
    requires
        k != 0,
    ensures
        !spec_is_zero_mat(spec_composed(c1, s1, c2, s2, c3, s3, k)),
{
    let one: int = FIXED_ONE as int;
    let zs = spec_mat_mul(spec_rotate_z(c3, s3), spec_scale(k));
    assert(zs.c3r0 == 0 && zs.c3r1 == 0 && zs.c3r2 == 0 && zs.c3r3 == one * one);
    let yzs = spec_mat_mul(spec_rotate_y(c2, s2), zs);
    assert(yzs.c3r3 == one * (one * one));
    let m = spec_composed(c1, s1, c2, s2, c3, s3, k);
    assert(m.c3r3 == one * (one * (one * one)));
    assert(m.c3r3 != 0);
}

} // verus!
