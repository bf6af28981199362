//! The camera: a position, a unit-length orientation quaternion and a
//! perspective projection, all in fixed-point scalars.
//!
//! The combined transform is `translation * rotation * projection` acting on
//! column vectors, so the projection applies first to a point; the
//! multiplication order is pinned by the contract of `to_view_proj`.

use vstd::prelude::*;
use crate::fx::{
    fx_mul_s, fx_div_s, clamp_s, sabs, fx_mul, fx_div, div_pos, clamp, lemma_fx_mul_bound,
    lemma_fx_div_bound, ONE,
};
use crate::mat::{Mat4, bounded, mm, mat_mul, lemma_mm_bound, MUL_A_LIM, MUL_B_LIM};

verus! {

/// Positions are clamped into `[-POS_LIM, POS_LIM]` on each axis so that the
/// view-projection product stays inside `i64`.
pub const POS_LIM: i64 = 0x40_0000;

/// Largest normalized drag delta `translate_from_pixels` accepts
/// (sixteen viewport widths).
pub const DELTA_LIM: i64 = 0x1_0000;

/// Bound on the entries of a well-formed projection matrix.
pub const PROJ_LIM: i64 = 0x80_0000;

/// Bound on the entries of the rotation matrix of a well-formed quaternion.
pub const ROT_LIM: i64 = 20480;

/// Smallest accepted aspect ratio (1/8).
pub const ASPECT_MIN: i64 = 512;

/// Largest accepted aspect ratio (8).
pub const ASPECT_MAX: i64 = 32768;

/// Smallest accepted vertical field of view (1/8 radian).
pub const FOVY_MIN: i64 = 512;

/// Largest accepted vertical field of view (3 radians).
pub const FOVY_MAX: i64 = 12288;

/// Largest accepted near-clip distance (4 units).
pub const NEAR_MAX: i64 = 16384;

/// Largest accepted far-clip distance (128 units).
pub const FAR_MAX: i64 = 0x8_0000;

/// A world-space point or displacement.
#[derive(Clone, Copy, Debug, PartialEq, Eq, Structural)]
pub struct Vec3 {
    pub x: i64,
    pub y: i64,
    pub z: i64,
}

/// An orientation quaternion; well-formed ones are unit length up to
/// fixed-point rounding.
#[derive(Clone, Copy, Debug, PartialEq, Eq, Structural)]
pub struct Quat {
    pub x: i64,
    pub y: i64,
    pub z: i64,
    pub w: i64,
}

/// The camera state.
#[derive(Clone, Copy, Debug, PartialEq, Eq, Structural)]
pub struct Camera {
    pub pos: Vec3,
    pub rot: Quat,
    pub proj: Mat4,
}

/// Squared quaternion norm.
pub open spec fn quat_norm_sq(q: Quat) -> int {
    (q.x as int) * (q.x as int) + (q.y as int) * (q.y as int) + (q.z as int) * (q.z as int)
        + (q.w as int) * (q.w as int)
}

/// Unit length up to rounding: each component fits one, and the squared norm
/// misses the exact square of one by at most four rounding units.
pub open spec fn quat_wf(q: Quat) -> bool {
    sabs(q.x as int) <= ONE as int && sabs(q.y as int) <= ONE as int && sabs(q.z as int)
        <= ONE as int && sabs(q.w as int) <= ONE as int && sabs(
        quat_norm_sq(q) - (ONE as int) * (ONE as int),
    ) <= 4 * (ONE as int)
}

/// The identity orientation: forward along +Z, up along +Y.
pub open spec fn quat_ident() -> Quat {
    Quat { x: 0, y: 0, z: 0, w: ONE }
}

/// The rotation matrix of a quaternion, embedded in the upper-left block of a
/// homogeneous matrix.
pub open spec fn rot_mat_s(q: Quat) -> Mat4 {
    let x = q.x as int;
    let y = q.y as int;
    let z = q.z as int;
    let w = q.w as int;
    Mat4 {
        m00: ((ONE as int) - 2 * fx_mul_s(y, y) - 2 * fx_mul_s(z, z)) as i64,
        m01: (2 * fx_mul_s(x, y) - 2 * fx_mul_s(z, w)) as i64,
        m02: (2 * fx_mul_s(x, z) + 2 * fx_mul_s(y, w)) as i64,
        m03: 0,
        m10: (2 * fx_mul_s(x, y) + 2 * fx_mul_s(z, w)) as i64,
        m11: ((ONE as int) - 2 * fx_mul_s(x, x) - 2 * fx_mul_s(z, z)) as i64,
        m12: (2 * fx_mul_s(y, z) - 2 * fx_mul_s(x, w)) as i64,
        m13: 0,
        m20: (2 * fx_mul_s(x, z) - 2 * fx_mul_s(y, w)) as i64,
        m21: (2 * fx_mul_s(y, z) + 2 * fx_mul_s(x, w)) as i64,
        m22: ((ONE as int) - 2 * fx_mul_s(x, x) - 2 * fx_mul_s(y, y)) as i64,
        m23: 0,
        m30: 0,
        m31: 0,
        m32: 0,
        m33: ONE,
    }
}

/// The homogeneous translation matrix of a position.
pub open spec fn translation_s(p: Vec3) -> Mat4 {
    Mat4 {
        m00: ONE,
        m01: 0,
        m02: 0,
        m03: p.x,
        m10: 0,
        m11: ONE,
        m12: 0,
        m13: p.y,
        m20: 0,
        m21: 0,
        m22: ONE,
        m23: p.z,
        m30: 0,
        m31: 0,
        m32: 0,
        m33: ONE,
    }
}

/// Third-order series for the tangent of the half angle.
pub open spec fn tan_half_s(fovy: int) -> int {
    let h = fovy / 2;
    h + fx_mul_s(fx_mul_s(h, h), h) / 3
}

/// The perspective projection matrix of the four construction parameters.
pub open spec fn proj_s(aspect: int, fovy: int, near: int, far: int) -> Mat4 {
    let focal = fx_div_s(ONE as int, tan_half_s(fovy));
    Mat4 {
        m00: fx_div_s(focal, aspect) as i64,
        m01: 0,
        m02: 0,
        m03: 0,
        m10: 0,
        m11: focal as i64,
        m12: 0,
        m13: 0,
        m20: 0,
        m21: 0,
        m22: (-fx_div_s(far + near, far - near)) as i64,
        m23: (-fx_div_s(2 * fx_mul_s(far, near), far - near)) as i64,
        m30: 0,
        m31: 0,
        m32: (-(ONE as int)) as i64,
        m33: 0,
    }
}

/// The camera a fresh construction yields: at the origin, identity
/// orientation, perspective projection of the parameters.
pub open spec fn camera_new_s(aspect: int, fovy: int, near: int, far: int) -> Camera {
    Camera {
        pos: Vec3 { x: 0, y: 0, z: 0 },
        rot: quat_ident(),
        proj: proj_s(aspect, fovy, near, far),
    }
}

/// The camera after a normalized drag delta: the delta is rotated into the
/// current orientation's local axes, added to the position, and each axis is
/// clamped into the representable range.
pub open spec fn translate_s(c: Camera, dx: int, dy: int) -> Camera {
    let r = rot_mat_s(c.rot);
    Camera {
        pos: Vec3 {
            x: clamp_s(
                c.pos.x + fx_mul_s(r.m00 as int, dx) + fx_mul_s(r.m01 as int, dy),
                POS_LIM as int,
            ) as i64,
            y: clamp_s(
                c.pos.y + fx_mul_s(r.m10 as int, dx) + fx_mul_s(r.m11 as int, dy),
                POS_LIM as int,
            ) as i64,
            z: clamp_s(
                c.pos.z + fx_mul_s(r.m20 as int, dx) + fx_mul_s(r.m21 as int, dy),
                POS_LIM as int,
            ) as i64,
        },
        ..c
    }
}

impl Camera {
    /// Validity: unit-length orientation, bounded projection entries,
    /// position inside the representable cube.
    pub open spec fn wf(self) -> bool {
        quat_wf(self.rot) && bounded(self.proj, PROJ_LIM as int) && sabs(self.pos.x as int)
            <= POS_LIM as int && sabs(self.pos.y as int) <= POS_LIM as int && sabs(
            self.pos.z as int,
        ) <= POS_LIM as int
    }

    /// Construct a camera at the origin facing +Z with up +Y, with a
    /// perspective projection built from the aspect ratio, the vertical field
    /// of view and the clip distances. The ideal domain (any positive aspect
    /// ratio, a field of view strictly between zero and a straight angle, any
    /// positive clip range) is intentionally narrowed to these ranges: they
    /// are the envelope on which every entry of the projection provably stays
    /// inside the fixed-point representation.
    pub fn new(aspect_ratio: i64, fovy: i64, near_clip: i64, far_clip: i64) -> (r: Camera)
        requires
            ASPECT_MIN as int <= aspect_ratio as int <= ASPECT_MAX as int,
            FOVY_MIN as int <= fovy as int <= FOVY_MAX as int,
            1 <= near_clip as int <= NEAR_MAX as int,
            near_clip as int + ONE as int <= far_clip as int <= FAR_MAX as int,
        ensures
            r == camera_new_s(aspect_ratio as int, fovy as int, near_clip as int, far_clip as int),
            r.wf(),
    {
        let h = div_pos(fovy, 2);
        let h2 = fx_mul(h, h);
        proof {
            lemma_fx_mul_bound(h as int, h as int, 6144, 6144);
            assert(0 <= (h as int) * (h as int)) by (nonlinear_arith);
            vstd::arithmetic::div_mod::lemma_div_pos_is_pos((h as int) * (h as int), ONE as int);
        }
        let h3 = fx_mul(h2, h);
        proof {
            lemma_fx_mul_bound(h2 as int, h as int, 9216, 6144);
            assert(0 <= (h2 as int) * (h as int)) by (nonlinear_arith)
                requires
                    0 <= h2 as int,
                    0 <= h as int,
            ;
            vstd::arithmetic::div_mod::lemma_div_pos_is_pos((h2 as int) * (h as int), ONE as int);
        }
        let t = h + div_pos(h3, 3);
        assert(t as int == tan_half_s(fovy as int));
        assert(256 <= t as int <= 10752);
        let focal = fx_div(ONE, t);
        proof {
            lemma_fx_div_bound(ONE as int, t as int, ONE as int, 256);
            vstd::arithmetic::div_mod::lemma_div_pos_is_pos((ONE as int) * (ONE as int), t as int);
        }
        let m00 = fx_div(focal, aspect_ratio);
        proof {
            lemma_fx_div_bound(focal as int, aspect_ratio as int, 65536, ASPECT_MIN as int);
        }
        let span = far_clip - near_clip;
        let m22n = fx_div(far_clip + near_clip, span);
        proof {
            lemma_fx_div_bound(
                (far_clip + near_clip) as int,
                span as int,
                (FAR_MAX + NEAR_MAX) as int,
                ONE as int,
            );
        }
        let fn_prod = fx_mul(far_clip, near_clip);
        proof {
            lemma_fx_mul_bound(far_clip as int, near_clip as int, FAR_MAX as int, NEAR_MAX as int);
        }
        let m23n = fx_div(2 * fn_prod, span);
        proof {
            lemma_fx_div_bound(2 * fn_prod as int, span as int, 0x40_0000, ONE as int);
        }
        let proj = Mat4 {
            m00,
            m01: 0,
            m02: 0,
            m03: 0,
            m10: 0,
            m11: focal,
            m12: 0,
            m13: 0,
            m20: 0,
            m21: 0,
            m22: -m22n,
            m23: -m23n,
            m30: 0,
            m31: 0,
            m32: -ONE,
            m33: 0,
        };
        assert(proj == proj_s(aspect_ratio as int, fovy as int, near_clip as int, far_clip as int));
        Camera { pos: Vec3 { x: 0, y: 0, z: 0 }, rot: Quat { x: 0, y: 0, z: 0, w: ONE }, proj }
    }

    /// Replace the orientation by another well-formed one. Apart from this
    /// setter the orientation never changes after construction: dragging
    /// moves only the position. It exists so a caller can point the camera
    /// and then observe that panning follows the new local axes.
    pub fn set_orientation(&mut self, q: Quat)
        requires
            old(self).wf(),
            quat_wf(q),
        ensures
            *final(self) == (Camera { rot: q, ..*old(self) }),
            final(self).wf(),
    {
        self.rot = q;
    }

    /// The rotation factor of the view transform.
    pub fn to_rot(&self) -> (r: Mat4)
        requires
            quat_wf(self.rot),
        ensures
            r == rot_mat_s(self.rot),
            bounded(r, ROT_LIM as int),
    {
        let Quat { x, y, z, w } = self.rot;
        proof {
            lemma_fx_mul_bound(x as int, x as int, ONE as int, ONE as int);
            lemma_fx_mul_bound(y as int, y as int, ONE as int, ONE as int);
            lemma_fx_mul_bound(z as int, z as int, ONE as int, ONE as int);
            lemma_fx_mul_bound(x as int, y as int, ONE as int, ONE as int);
            lemma_fx_mul_bound(x as int, z as int, ONE as int, ONE as int);
            lemma_fx_mul_bound(x as int, w as int, ONE as int, ONE as int);
            lemma_fx_mul_bound(y as int, z as int, ONE as int, ONE as int);
            lemma_fx_mul_bound(y as int, w as int, ONE as int, ONE as int);
            lemma_fx_mul_bound(z as int, w as int, ONE as int, ONE as int);
        }
        let xx = fx_mul(x, x);
        let yy = fx_mul(y, y);
        let zz = fx_mul(z, z);
        let xy = fx_mul(x, y);
        let xz = fx_mul(x, z);
        let xw = fx_mul(x, w);
        let yz = fx_mul(y, z);
        let yw = fx_mul(y, w);
        let zw = fx_mul(z, w);
        Mat4 {
            m00: ONE - 2 * yy - 2 * zz,
            m01: 2 * xy - 2 * zw,
            m02: 2 * xz + 2 * yw,
            m03: 0,
            m10: 2 * xy + 2 * zw,
            m11: ONE - 2 * xx - 2 * zz,
            m12: 2 * yz - 2 * xw,
            m13: 0,
            m20: 2 * xz - 2 * yw,
            m21: 2 * yz + 2 * xw,
            m22: ONE - 2 * xx - 2 * yy,
            m23: 0,
            m30: 0,
            m31: 0,
            m32: 0,
            m33: ONE,
        }
    }

    /// The translation factor of the view transform.
    pub fn to_translation(&self) -> (r: Mat4)
        ensures
            r == translation_s(self.pos),
    {
        Mat4 {
            m00: ONE,
            m01: 0,
            m02: 0,
            m03: self.pos.x,
            m10: 0,
            m11: ONE,
            m12: 0,
            m13: self.pos.y,
            m20: 0,
            m21: 0,
            m22: ONE,
            m23: self.pos.z,
            m30: 0,
            m31: 0,
            m32: 0,
            m33: ONE,
        }
    }

    /// The combined view-projection transform: exactly
    /// `translation * (rotation * projection)`, so camera placement applies
    /// after the projection factor in the product, and the projection applies
    /// first to a point.
    pub fn to_view_proj(&self) -> (r: Mat4)
        requires
            self.wf(),
        ensures
            r == mm(translation_s(self.pos), mm(rot_mat_s(self.rot), self.proj)),
    {
        let t = self.to_translation();
        let rot = self.to_rot();
        let rp = mat_mul(&rot, &self.proj);
        proof {
            lemma_mm_bound(rot_mat_s(self.rot), self.proj, ROT_LIM as int, PROJ_LIM as int);
            assert(bounded(t, MUL_A_LIM as int));
            assert(bounded(rp, MUL_B_LIM as int));
        }
        mat_mul(&t, &rp)
    }

    /// Pan the camera by a normalized screen-space drag delta: the delta is
    /// rotated into the orientation's local right/up axes before it moves the
    /// position, so dragging tracks the camera's current orientation rather
    /// than the world axes.
    pub fn translate_from_pixels(&mut self, x: i64, y: i64)
        requires
            old(self).wf(),
            sabs(x as int) <= DELTA_LIM as int,
            sabs(y as int) <= DELTA_LIM as int,
        ensures
            *final(self) == translate_s(*old(self), x as int, y as int),
            final(self).wf(),
    {
        let r = self.to_rot();
        proof {
            lemma_fx_mul_bound(r.m00 as int, x as int, ROT_LIM as int, DELTA_LIM as int);
            lemma_fx_mul_bound(r.m01 as int, y as int, ROT_LIM as int, DELTA_LIM as int);
            lemma_fx_mul_bound(r.m10 as int, x as int, ROT_LIM as int, DELTA_LIM as int);
            lemma_fx_mul_bound(r.m11 as int, y as int, ROT_LIM as int, DELTA_LIM as int);
            lemma_fx_mul_bound(r.m20 as int, x as int, ROT_LIM as int, DELTA_LIM as int);
            lemma_fx_mul_bound(r.m21 as int, y as int, ROT_LIM as int, DELTA_LIM as int);
        }
        let dx = fx_mul(r.m00, x) + fx_mul(r.m01, y);
        let dy = fx_mul(r.m10, x) + fx_mul(r.m11, y);
        let dz = fx_mul(r.m20, x) + fx_mul(r.m21, y);
        self.pos.x = clamp(self.pos.x + dx, POS_LIM);
        self.pos.y = clamp(self.pos.y + dy, POS_LIM);
        self.pos.z = clamp(self.pos.z + dz, POS_LIM);
    }
}

/// A freshly constructed camera has an exactly unit orientation and a true
/// perspective projection: the perspective-divide entry is nonzero.
pub proof fn lemma_new_is_perspective(aspect: int, fovy: int, near: int, far: int)
    requires
        ASPECT_MIN as int <= aspect <= ASPECT_MAX as int,
        FOVY_MIN as int <= fovy <= FOVY_MAX as int,
        1 <= near <= NEAR_MAX as int,
        near + ONE as int <= far <= FAR_MAX as int,
    ensures
        quat_norm_sq(camera_new_s(aspect, fovy, near, far).rot) == (ONE as int) * (ONE as int),
        camera_new_s(aspect, fovy, near, far).proj.m32 != 0,
{
}

/// A zero drag delta leaves the camera exactly unchanged.
pub proof fn lemma_translate_zero(c: Camera)
    requires
        sabs(c.pos.x as int) <= POS_LIM as int,
        sabs(c.pos.y as int) <= POS_LIM as int,
        sabs(c.pos.z as int) <= POS_LIM as int,
    ensures
        translate_s(c, 0, 0) == c,
{
    let r = rot_mat_s(c.rot);
    assert(fx_mul_s(r.m00 as int, 0) == 0);
    assert(fx_mul_s(r.m01 as int, 0) == 0);
    assert(fx_mul_s(r.m10 as int, 0) == 0);
    assert(fx_mul_s(r.m11 as int, 0) == 0);
    assert(fx_mul_s(r.m20 as int, 0) == 0);
    assert(fx_mul_s(r.m21 as int, 0) == 0);
}

} // verus!
