//! The camera: a pure geometric state whose view-projection matrix is
//! recomputed every frame.
//!
//! The matrix is the fixed clip-space conversion composed with a
//! perspective matrix and a right-handed look-at matrix, all in the
//! crate's fixed-point encoding (thousandths).

use vstd::prelude::*;

use crate::math::{
    cos_milli, cross_milli, div_floor, dot_milli, lemma_angle_already_reduced,
    lemma_cross_bound, lemma_dot_bound, lemma_half_sin_lower, lemma_half_sin_range,
    lemma_mul_bound, normalized, sin_milli, spec_cos_milli, spec_cross_milli,
    spec_dot_milli, spec_mat4_identity, spec_normalized, spec_sin_milli, spec_vec3,
    Mat4, Vec3, MILLI,
};

verus! {

/// Largest magnitude, in milliunits, of a camera eye coordinate.
pub const COORD_LIMIT: i64 = 1_000_000_000;

/// Largest magnitude, in milliunits, of an up-vector component.
pub const UP_LIMIT: i64 = 1_000_000;

/// Largest distance, in milliunits, of the far clipping plane.
pub const DEPTH_LIMIT: i64 = 1_000_000;

/// Least separation, in milliunits, of the two clipping planes.
pub const DEPTH_GAP: i64 = 1000;

/// Least vertical field of view, in millidegrees.
pub const FOVY_MIN: i64 = 1000;

/// Greatest vertical field of view, in millidegrees.
pub const FOVY_MAX: i64 = 179_000;

/// Least aspect ratio, in thousandths.
pub const ASPECT_MIN: i64 = 100;

/// Greatest aspect ratio, in thousandths.
pub const ASPECT_MAX: i64 = 1_000_000;

/// The camera in user-friendly form. All lengths are milliunits and all
/// angles millidegrees.
#[derive(Clone, Copy, PartialEq, Eq, Structural, Debug)]
pub struct Camera {
    /// Location of the camera.
    pub eye: Vec3,
    /// Point the camera looks at.
    pub target: Vec3,
    /// The direction of up.
    pub up: Vec3,
    /// Aspect ratio, in thousandths.
    pub aspect: i64,
    /// Vertical field of view, in millidegrees.
    pub fovy: i64,
    /// Distance to the near clipping plane, in milliunits.
    pub znear: i64,
    /// Distance to the far clipping plane, in milliunits.
    pub zfar: i64,
}

impl Camera {
    /// Non-degeneracy and range bounds the caller maintains: coordinates
    /// within the world's range, a usable field of view and aspect ratio,
    /// and separated clipping planes.
    pub open spec fn wf(self) -> bool {
        &&& self.eye.abs_within(COORD_LIMIT as int)
        &&& self.target.abs_within(COORD_LIMIT as int + MILLI as int)
        &&& self.up.abs_within(UP_LIMIT as int)
        &&& FOVY_MIN <= self.fovy <= FOVY_MAX
        &&& ASPECT_MIN <= self.aspect <= ASPECT_MAX
        &&& 1 <= self.znear
        &&& self.znear + DEPTH_GAP <= self.zfar <= DEPTH_LIMIT
    }
}

/// The right-handed look-at matrix: rows are the side, adjusted-up and
/// negated-forward directions, with the eye projected onto them as the
/// translation column.
pub open spec fn spec_view_matrix(eye: Vec3, target: Vec3, up: Vec3) -> Mat4 {
    let f = spec_normalized(
        spec_vec3(target.x - eye.x, target.y - eye.y, target.z - eye.z),
    );
    let s = spec_normalized(spec_cross_milli(f, up));
    let u = spec_cross_milli(s, f);
    Mat4 {
        m00: s.x, m01: s.y, m02: s.z, m03: (-spec_dot_milli(s, eye)) as i64,
        m10: u.x, m11: u.y, m12: u.z, m13: (-spec_dot_milli(u, eye)) as i64,
        m20: (-f.x) as i64, m21: (-f.y) as i64, m22: (-f.z) as i64,
        m23: spec_dot_milli(f, eye) as i64,
        m30: 0, m31: 0, m32: 0, m33: 1000,
    }
}

/// The perspective matrix for a vertical field of view `fovy`
/// (millidegrees), aspect ratio (thousandths) and clipping planes
/// (milliunits): the focal length is the cotangent of half the field of
/// view.
pub open spec fn spec_projection_matrix(fovy: int, aspect: int, znear: int, zfar: int) -> Mat4 {
    let half = fovy / 2;
    let focal = spec_cos_milli(half) * 1000 / spec_sin_milli(half);
    Mat4 {
        m00: (focal * 1000 / aspect) as i64, m01: 0, m02: 0, m03: 0,
        m10: 0, m11: focal as i64, m12: 0, m13: 0,
        m20: 0, m21: 0,
        m22: ((-((zfar + znear) * 1000)) / (zfar - znear)) as i64,
        m23: ((-(2 * zfar * znear)) / (zfar - znear)) as i64,
        m30: 0, m31: 0, m32: -1000i64, m33: 0,
    }
}

/// The full view-projection matrix: perspective times look-at, then the
/// clip-space conversion, which halves the third row and adds that half
/// into the fourth (the conversion matrix has `500` at the two slots of
/// its third column and `1000` elsewhere on the diagonal of rows one,
/// two and four). The projection's zero entries are elided from the
/// products.
pub open spec fn spec_view_proj(c: Camera) -> Mat4 {
    let v = spec_view_matrix(c.eye, c.target, c.up);
    let p = spec_projection_matrix(c.fovy as int, c.aspect as int, c.znear as int, c.zfar as int);
    let pv00 = p.m00 * v.m00 / 1000;
    let pv01 = p.m00 * v.m01 / 1000;
    let pv02 = p.m00 * v.m02 / 1000;
    let pv03 = p.m00 * v.m03 / 1000;
    let pv10 = p.m11 * v.m10 / 1000;
    let pv11 = p.m11 * v.m11 / 1000;
    let pv12 = p.m11 * v.m12 / 1000;
    let pv13 = p.m11 * v.m13 / 1000;
    let pv20 = p.m22 * v.m20 / 1000;
    let pv21 = p.m22 * v.m21 / 1000;
    let pv22 = p.m22 * v.m22 / 1000;
    let pv23 = (p.m22 * v.m23 + p.m23 * 1000) / 1000;
    let pv30 = p.m32 * v.m20 / 1000;
    let pv31 = p.m32 * v.m21 / 1000;
    let pv32 = p.m32 * v.m22 / 1000;
    let pv33 = p.m32 * v.m23 / 1000;
    Mat4 {
        m00: pv00 as i64, m01: pv01 as i64, m02: pv02 as i64, m03: pv03 as i64,
        m10: pv10 as i64, m11: pv11 as i64, m12: pv12 as i64, m13: pv13 as i64,
        m20: (500 * pv20 / 1000) as i64,
        m21: (500 * pv21 / 1000) as i64,
        m22: (500 * pv22 / 1000) as i64,
        m23: (500 * pv23 / 1000) as i64,
        m30: ((500 * pv20 + 1000 * pv30) / 1000) as i64,
        m31: ((500 * pv21 + 1000 * pv31) / 1000) as i64,
        m32: ((500 * pv22 + 1000 * pv32) / 1000) as i64,
        m33: ((500 * pv23 + 1000 * pv33) / 1000) as i64,
    }
}

/// Divide by a thousand, carrying a bound usable without division:
/// `1000 * q` stays within `[-(m + 999), m]`.
fn milli_div(x: i64, Ghost(m): Ghost<int>) -> (q: i64)
    requires
        0 <= m <= 0x7FFF_FFFF_FFFF_FFFE,
        -m <= x <= m,
    ensures
        q == x as int / 1000,
        -(m + 999) <= 1000 * q <= m,
{
    let q: i64 = div_floor(x, 1000);
    proof {
        vstd::arithmetic::div_mod::lemma_fundamental_div_mod(x as int, 1000);
    }
    q
}

/// The right-handed look-at matrix of the camera's pose, with bounds on
/// each entry for the composition that follows.
pub fn look_at_milli(eye: Vec3, target: Vec3, up: Vec3) -> (r: Mat4)
    requires
        eye.abs_within(COORD_LIMIT as int),
        target.abs_within(COORD_LIMIT as int + MILLI as int),
        up.abs_within(UP_LIMIT as int),
    ensures
        r == spec_view_matrix(eye, target, up),
        -1000 <= r.m00 <= 1000,
        -1000 <= r.m01 <= 1000,
        -1000 <= r.m02 <= 1000,
        -2001 <= r.m10 <= 2001,
        -2001 <= r.m11 <= 2001,
        -2001 <= r.m12 <= 2001,
        -1000 <= r.m20 <= 1000,
        -1000 <= r.m21 <= 1000,
        -1000 <= r.m22 <= 1000,
        -3_000_000_001 <= r.m03 <= 3_000_000_001,
        -6_003_000_001 <= r.m13 <= 6_003_000_001,
        -3_000_000_001 <= r.m23 <= 3_000_000_001,
        r.m30 == 0,
        r.m31 == 0,
        r.m32 == 0,
        r.m33 == 1000,
{
    let f: Vec3 = normalized(target.minus(eye));
    let fxu: Vec3 = cross_milli(f, up);
    proof {
        lemma_cross_bound(f, up, 1000, UP_LIMIT as int);
        assert((2 * 1000 * (UP_LIMIT as int)) / 1000 == 2_000_000) by {
            assert(2 * 1000 * (UP_LIMIT as int) == 2_000_000 * 1000);
            vstd::arithmetic::div_mod::lemma_div_by_multiple(2_000_000, 1000);
        }
    }
    let side: Vec3 = normalized(fxu);
    let upa: Vec3 = cross_milli(side, f);
    proof {
        lemma_cross_bound(side, f, 1000, 1000);
        assert((2 * 1000 * 1000) / 1000 == 2000) by {
            assert(2 * 1000 * 1000 == 2000 * 1000);
            vstd::arithmetic::div_mod::lemma_div_by_multiple(2000, 1000);
        }
        lemma_dot_bound(side, eye, 1000, COORD_LIMIT as int);
        lemma_dot_bound(upa, eye, 2001, COORD_LIMIT as int);
        lemma_dot_bound(f, eye, 1000, COORD_LIMIT as int);
        assert((3 * 1000 * COORD_LIMIT) / 1000 == 3_000_000_000) by {
            assert(3 * 1000 * (COORD_LIMIT as int) == 3_000_000_000 * 1000);
            vstd::arithmetic::div_mod::lemma_div_by_multiple(3_000_000_000, 1000);
        }
        assert((3 * 2001 * COORD_LIMIT) / 1000 == 6_003_000_000) by {
            assert(3 * 2001 * (COORD_LIMIT as int) == 6_003_000_000 * 1000);
            vstd::arithmetic::div_mod::lemma_div_by_multiple(6_003_000_000, 1000);
        }
    }
    let tx: i64 = -dot_milli(side, eye);
    let ty: i64 = -dot_milli(upa, eye);
    let tz: i64 = dot_milli(f, eye);
    Mat4 {
        m00: side.x, m01: side.y, m02: side.z, m03: tx,
        m10: upa.x, m11: upa.y, m12: upa.z, m13: ty,
        m20: -f.x, m21: -f.y, m22: -f.z, m23: tz,
        m30: 0, m31: 0, m32: 0, m33: 1000,
    }
}

/// The perspective matrix, with bounds on each entry for the composition
/// that follows.
pub fn perspective_milli(fovy: i64, aspect: i64, znear: i64, zfar: i64) -> (r: Mat4)
    requires
        FOVY_MIN <= fovy <= FOVY_MAX,
        ASPECT_MIN <= aspect <= ASPECT_MAX,
        1 <= znear,
        znear + DEPTH_GAP <= zfar <= DEPTH_LIMIT,
    ensures
        r == spec_projection_matrix(fovy as int, aspect as int, znear as int, zfar as int),
        0 <= r.m00 <= 2_500_000,
        0 <= r.m11 <= 250_000,
        -2_000_001 <= r.m22 <= 0,
        -2_000_000_000_001 <= r.m23 <= 0,
        r.m01 == 0 && r.m02 == 0 && r.m03 == 0,
        r.m10 == 0 && r.m12 == 0 && r.m13 == 0,
        r.m20 == 0 && r.m21 == 0,
        r.m30 == 0 && r.m31 == 0 && r.m32 == -1000 && r.m33 == 0,
{
    let half: i64 = fovy / 2;
    let sn: i64 = sin_milli(half);
    let cs: i64 = cos_milli(half);
    proof {
        reveal(crate::math::spec_sin_milli);
        lemma_angle_already_reduced(half as int);
        lemma_half_sin_lower(half as int);
        lemma_angle_already_reduced(half as int + 90_000);
        lemma_half_sin_range(half as int + 90_000);
        assert(sn >= 4);
        assert(cs >= 0);
    }
    let focal: i64 = div_floor(cs * 1000, sn);
    proof {
        vstd::arithmetic::div_mod::lemma_div_pos_is_pos(cs as int * 1000, sn as int);
        vstd::arithmetic::div_mod::lemma_div_is_ordered(cs as int * 1000, 1_000_000, sn as int);
        vstd::arithmetic::div_mod::lemma_div_is_ordered_by_denominator(1_000_000, 4, sn as int);
        assert(1_000_000int / 4 == 250_000) by {
            vstd::arithmetic::div_mod::lemma_div_by_multiple(250_000, 4);
        }
    }
    let m00: i64 = div_floor(focal * 1000, aspect);
    proof {
        vstd::arithmetic::div_mod::lemma_div_pos_is_pos(focal as int * 1000, aspect as int);
        vstd::arithmetic::div_mod::lemma_div_is_ordered(
            focal as int * 1000,
            250_000_000,
            aspect as int,
        );
        vstd::arithmetic::div_mod::lemma_div_is_ordered_by_denominator(
            250_000_000,
            100,
            aspect as int,
        );
        assert(250_000_000int / 100 == 2_500_000) by {
            vstd::arithmetic::div_mod::lemma_div_by_multiple(2_500_000, 100);
        }
    }
    let dz: i64 = zfar - znear;
    let num22: i64 = -((zfar + znear) * 1000);
    let m22: i64 = div_floor(num22, dz);
    proof {
        vstd::arithmetic::div_mod::lemma_div_is_ordered(num22 as int, 0, dz as int);
        vstd::arithmetic::div_mod::lemma_div_of0(dz as int);
        crate::math::lemma_div_range(num22 as int, 2_000_000_000, dz as int);
        vstd::arithmetic::div_mod::lemma_div_is_ordered_by_denominator(
            2_000_000_000,
            1000,
            dz as int,
        );
        assert(2_000_000_000int / 1000 == 2_000_000) by {
            vstd::arithmetic::div_mod::lemma_div_by_multiple(2_000_000, 1000);
        }
    }
    proof {
        assert(1 <= zfar * znear <= 1_000_000_000_000) by (nonlinear_arith)
            requires
                1 <= znear,
                znear < zfar,
                zfar <= 1_000_000,
        ;
    }
    let zprod: i64 = zfar * znear;
    let num23: i64 = -(2 * zprod);
    proof {
        assert(2 * (zprod as int) == 2 * (zfar as int) * (znear as int)) by (nonlinear_arith)
            requires
                zprod as int == (zfar as int) * (znear as int),
        ;
    }
    let m23: i64 = div_floor(num23, dz);
    proof {
        vstd::arithmetic::div_mod::lemma_div_is_ordered(num23 as int, 0, dz as int);
        vstd::arithmetic::div_mod::lemma_div_of0(dz as int);
        crate::math::lemma_div_range(num23 as int, 2_000_000_000_000_000, dz as int);
        vstd::arithmetic::div_mod::lemma_div_is_ordered_by_denominator(
            2_000_000_000_000_000,
            1000,
            dz as int,
        );
        assert(2_000_000_000_000_000int / 1000 == 2_000_000_000_000) by {
            vstd::arithmetic::div_mod::lemma_div_by_multiple(2_000_000_000_000, 1000);
        }
    }
    Mat4 {
        m00, m01: 0, m02: 0, m03: 0,
        m10: 0, m11: focal, m12: 0, m13: 0,
        m20: 0, m21: 0, m22, m23,
        m30: 0, m31: 0, m32: -1000, m33: 0,
    }
}

impl Camera {
    /// Convert the camera's pose and lens into one view-projection matrix.
    pub fn build_view_projection_matrix(&self) -> (r: Mat4)
        requires
            self.wf(),
        ensures
            r == spec_view_proj(*self),
    {
        let v: Mat4 = look_at_milli(self.eye, self.target, self.up);
        let p: Mat4 = perspective_milli(self.fovy, self.aspect, self.znear, self.zfar);
        proof {
            lemma_mul_bound(p.m00 as int, v.m00 as int, 2_500_000, 1000);
            lemma_mul_bound(p.m00 as int, v.m01 as int, 2_500_000, 1000);
            lemma_mul_bound(p.m00 as int, v.m02 as int, 2_500_000, 1000);
            lemma_mul_bound(p.m00 as int, v.m03 as int, 2_500_000, 3_000_000_001);
        }
        let pv00: i64 = milli_div(p.m00 * v.m00, Ghost(2_500_000_000));
        let pv01: i64 = milli_div(p.m00 * v.m01, Ghost(2_500_000_000));
        let pv02: i64 = milli_div(p.m00 * v.m02, Ghost(2_500_000_000));
        let pv03: i64 = milli_div(p.m00 * v.m03, Ghost(7_500_000_002_500_000));
        proof {
            lemma_mul_bound(p.m11 as int, v.m10 as int, 250_000, 2001);
            lemma_mul_bound(p.m11 as int, v.m11 as int, 250_000, 2001);
            lemma_mul_bound(p.m11 as int, v.m12 as int, 250_000, 2001);
            lemma_mul_bound(p.m11 as int, v.m13 as int, 250_000, 6_003_000_001);
        }
        let pv10: i64 = milli_div(p.m11 * v.m10, Ghost(500_250_000));
        let pv11: i64 = milli_div(p.m11 * v.m11, Ghost(500_250_000));
        let pv12: i64 = milli_div(p.m11 * v.m12, Ghost(500_250_000));
        let pv13: i64 = milli_div(p.m11 * v.m13, Ghost(1_500_750_000_250_000));
        proof {
            lemma_mul_bound(p.m22 as int, v.m20 as int, 2_000_001, 1000);
            lemma_mul_bound(p.m22 as int, v.m21 as int, 2_000_001, 1000);
            lemma_mul_bound(p.m22 as int, v.m22 as int, 2_000_001, 1000);
            lemma_mul_bound(p.m22 as int, v.m23 as int, 2_000_001, 3_000_000_001);
        }
        let pv20: i64 = milli_div(p.m22 * v.m20, Ghost(2_000_001_000));
        let pv21: i64 = milli_div(p.m22 * v.m21, Ghost(2_000_001_000));
        let pv22: i64 = milli_div(p.m22 * v.m22, Ghost(2_000_001_000));
        let pv23: i64 = milli_div(
            p.m22 * v.m23 + p.m23 * 1000,
            Ghost(8_000_005_000_002_001),
        );
        proof {
            lemma_mul_bound(p.m32 as int, v.m20 as int, 1000, 1000);
            lemma_mul_bound(p.m32 as int, v.m21 as int, 1000, 1000);
            lemma_mul_bound(p.m32 as int, v.m22 as int, 1000, 1000);
            lemma_mul_bound(p.m32 as int, v.m23 as int, 1000, 3_000_000_001);
        }
        let pv30: i64 = milli_div(p.m32 * v.m20, Ghost(1_000_000));
        let pv31: i64 = milli_div(p.m32 * v.m21, Ghost(1_000_000));
        let pv32: i64 = milli_div(p.m32 * v.m22, Ghost(1_000_000));
        let pv33: i64 = milli_div(p.m32 * v.m23, Ghost(3_000_000_001_000));
        let m20: i64 = milli_div(500 * pv20, Ghost(1_000_001_000_000));
        let m21: i64 = milli_div(500 * pv21, Ghost(1_000_001_000_000));
        let m22: i64 = milli_div(500 * pv22, Ghost(1_000_001_000_000));
        let m23: i64 = milli_div(500 * pv23, Ghost(4_000_002_500_001_500));
        let m30: i64 = milli_div(500 * pv20 + 1000 * pv30, Ghost(1_001_001_000_000));
        let m31: i64 = milli_div(500 * pv21 + 1000 * pv31, Ghost(1_001_001_000_000));
        let m32: i64 = milli_div(500 * pv22 + 1000 * pv32, Ghost(1_001_001_000_000));
        let m33: i64 = milli_div(
            500 * pv23 + 1000 * pv33,
            Ghost(7_000_003_500_002_500),
        );
        Mat4 {
            m00: pv00, m01: pv01, m02: pv02, m03: pv03,
            m10: pv10, m11: pv11, m12: pv12, m13: pv13,
            m20, m21, m22, m23,
            m30, m31, m32, m33,
        }
    }
}

/// The camera's matrix, kept in the form the render shell uploads:
/// write-only from the camera's side.
#[derive(Clone, Copy, PartialEq, Eq, Structural, Debug)]
pub struct CameraUniform {
    pub view_proj: Mat4,
}

impl CameraUniform {
    /// A fresh uniform holding the identity transform.
    pub fn new() -> (r: CameraUniform)
        ensures
            r.view_proj == spec_mat4_identity(),
    {
        CameraUniform { view_proj: Mat4::identity() }
    }

    /// Recompute the stored matrix from the camera.
    pub fn update_view_proj(&mut self, camera: &Camera)
        requires
            camera.wf(),
        ensures
            final(self).view_proj == spec_view_proj(*camera),
    {
        self.view_proj = camera.build_view_projection_matrix();
    }
}

} // verus!
